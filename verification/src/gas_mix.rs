//! Gas mixtures and the depths between which they can be breathed.

use vstd::prelude::*;
use crate::profile::get_limits;
use crate::profile::limit_table;
use crate::profile::{ATMOSPHERIC_PRESSURE, WATER_PRESSURE_PER_TENTH_OF_METER};
use crate::depth::{depth_at, depth_range, operating_depth_of, unit_scale};
use crate::ratio::lemma_floor_within;
use crate::ratio::{Ratio, Rational};
use crate::resolver::lemma_scaled_bound_compares;
use crate::resolver::{binding_limit, bound, combined_limit, scaled_bound, tightens};
use crate::{Error, Extremum, Gas, Limit, Pressure, UnitsSystem};
use crate::{METER_TO_FEET, METER_TO_FEET_SCALE};

verus! {

/// Why three shares do not make a mixture.
#[derive(Clone, Copy, Debug, PartialEq, Eq, Structural)]
pub enum GasMixError {
    InvalidProportions,
    NoOxygen,
}

/// Why a mixture has no operating depth.
#[derive(Clone, Copy, Debug, PartialEq, Eq, Structural)]
pub enum OperatingDepthError {
    NoMinimumOperatingPressure,
    NoMaximumOperatingPressure,
    NoValidRange,
}

/// What a mixture is made of: the parts of each gas out of `whole` parts. The
/// fraction of a gas in the mixture is its parts divided by `whole`.
pub struct Composition {
    pub dinitrogen: int,
    pub dioxygen: int,
    pub helium: int,
    pub whole: int,
}

impl Composition {
    /// The parts of the three gases together.
    pub open spec fn total(self) -> int {
        self.dinitrogen + self.dioxygen + self.helium
    }

    /// The three fractions sum to a value between 0.98 and 1.
    pub open spec fn proportions_valid(self) -> bool {
        &&& self.whole > 0
        &&& 98 * self.whole <= 100 * self.total()
        &&& self.total() <= self.whole
    }

    /// The composition is that of a mixture: its fractions sum to a value
    /// between 0.98 and 1, and it holds dioxygen.
    pub open spec fn valid(self) -> bool {
        self.proportions_valid() && self.dioxygen != 0
    }

    /// The parts of `gas`.
    pub open spec fn share(self, gas: Gas) -> int {
        match gas {
            Gas::Dinitrogen => self.dinitrogen,
            Gas::Dioxygen => self.dioxygen,
            Gas::Helium => self.helium,
        }
    }
}

/// What the check of a composition gives: the composition itself where it is
/// that of a mixture, and else what is wrong with it, the sum of its
/// fractions first.
pub open spec fn validated(mix: Composition) -> Result<Composition, GasMixError> {
    if !mix.proportions_valid() {
        Err(GasMixError::InvalidProportions)
    } else if mix.dioxygen == 0 {
        Err(GasMixError::NoOxygen)
    } else {
        Ok(mix)
    }
}

/// Whether `result` is the outcome `expected`, the depths taken in tenths.
pub open spec fn is_outcome(
    result: Result<OperatingDepth, Error>,
    expected: Result<(int, int), OperatingDepthError>,
) -> bool {
    match result {
        Ok(depth) => expected == Ok::<(int, int), OperatingDepthError>(
            (depth.minimum as int, depth.maximum as int),
        ),
        Err(error) => expected matches Err(reason) && error == Error::OperatingDepthError(reason),
    }
}

/// The range of depths in which a mixture can be breathed, in tenths of a
/// metre or of a foot.
#[derive(Clone, Copy, Debug, PartialEq, Eq, Structural)]
pub struct OperatingDepth {
    pub minimum: u128,
    pub maximum: u128,
}

/// A breathing-gas mixture: a composition whose fractions sum to a value
/// between 0.98 and 1 and that holds dioxygen.
pub struct GasMix {
    dinitrogen: i64,
    dioxygen: i64,
    helium: i64,
    whole: i64,
}

impl View for GasMix {
    type V = Composition;

    closed spec fn view(&self) -> Composition {
        Composition {
            dinitrogen: self.dinitrogen as int,
            dioxygen: self.dioxygen as int,
            helium: self.helium as int,
            whole: self.whole as int,
        }
    }
}

/// An ambient pressure in millibar, as a ratio of two integers.
pub struct AmbientPressure {
    num: i128,
    den: i128,
}

impl View for AmbientPressure {
    type V = Ratio;

    closed spec fn view(&self) -> Ratio {
        Ratio { num: self.num as int, den: self.den as int }
    }
}

impl AmbientPressure {
    /// The ratio is one that a limit of 32 bits gives on a mixture whose
    /// parts are integers of 64 bits.
    #[verifier::type_invariant]
    spec fn well_formed(self) -> bool {
        &&& 0 < self.den <= 0x8000_0000_0000_0000
        &&& -(0xFFFF_FFFF * 0x7FFF_FFFF_FFFF_FFFF) <= self.num <= 0xFFFF_FFFF
            * 0x7FFF_FFFF_FFFF_FFFF
    }

    /// The pressure of `value` millibar.
    pub fn from_millibar(value: u32) -> (pressure: AmbientPressure)
        ensures
            pressure@ == (Ratio { num: value as int, den: 1 }),
    {
        AmbientPressure { num: value as i128, den: 1 }
    }

    /// The numerator of the ratio.
    pub fn numerator(&self) -> (num: i128)
        ensures
            num == self@.num,
    {
        self.num
    }

    /// The denominator of the ratio, which is positive.
    pub fn denominator(&self) -> (den: i128)
        ensures
            den == self@.den,
            den > 0,
    {
        proof {
            use_type_invariant(self);
        }
        self.den
    }
}

/// The mixture of `dinitrogen`, `dioxygen` and `helium` parts out of `whole`.
///
/// The three fractions must sum to a value between 0.98 and 1, which no
/// fraction does where `whole` is not positive, and the mixture must hold
/// dioxygen. The range of each fraction is not looked at.
pub fn new(dinitrogen: i64, dioxygen: i64, helium: i64, whole: i64) -> (result: Result<
    GasMix,
    Error,
>)
    ensures
        ({
            let mix = Composition {
                dinitrogen: dinitrogen as int,
                dioxygen: dioxygen as int,
                helium: helium as int,
                whole: whole as int,
            };
            match result {
                Ok(gas_mix) => validated(mix) == Ok::<Composition, GasMixError>(gas_mix@),
                Err(error) => validated(mix) matches Err(reason) && error == Error::GasMixError(
                    reason,
                ),
            }
        }),
        result matches Ok(gas_mix) ==> gas_mix@.valid(),
{
    // Check if the proportions are valid and if the mixture holds dioxygen.
    if !are_proportions_valid(dinitrogen, dioxygen, helium, whole) {
        return Err(Error::GasMixError(GasMixError::InvalidProportions));
    }
    if dioxygen == 0 {
        return Err(Error::GasMixError(GasMixError::NoOxygen));
    }
    Ok(GasMix { dinitrogen, dioxygen, helium, whole })
}

/// Checks that the shares of the three gases sum to between 98% and 100% of
/// the whole.
fn are_proportions_valid(dinitrogen: i64, dioxygen: i64, helium: i64, whole: i64) -> (valid: bool)
    ensures
        valid == (Composition {
            dinitrogen: dinitrogen as int,
            dioxygen: dioxygen as int,
            helium: helium as int,
            whole: whole as int,
        }).proportions_valid(),
{
    let mut sum: i128 = 0;
    sum += dinitrogen as i128;
    sum += dioxygen as i128;
    sum += helium as i128;
    whole > 0 && 100 * sum >= 98 * (whole as i128) && sum <= whole as i128
}

impl GasMix {
    #[verifier::type_invariant]
    spec fn well_formed(self) -> bool {
        self@.valid()
    }

    /// The parts of dinitrogen, of dioxygen and of helium in the mixture, and
    /// the whole that they are parts of. Their fractions sum to a value
    /// between 0.98 and 1, and the mixture holds dioxygen.
    pub fn parts(&self) -> (parts: (i64, i64, i64, i64))
        ensures
            parts.0 == self@.dinitrogen,
            parts.1 == self@.dioxygen,
            parts.2 == self@.helium,
            parts.3 == self@.whole,
            self@.valid(),
    {
        proof {
            use_type_invariant(self);
        }
        (self.dinitrogen, self.dioxygen, self.helium, self.whole)
    }

    /// The parts of `gas` in the mixture.
    fn share(&self, gas: Gas) -> (parts: i64)
        ensures
            parts == self@.share(gas),
    {
        match gas {
            Gas::Dinitrogen => self.dinitrogen,
            Gas::Dioxygen => self.dioxygen,
            Gas::Helium => self.helium,
        }
    }

    /// The ambient pressure at which the mixture reaches `limit`.
    fn bound(&self, limit: &Limit) -> (pressure: AmbientPressure)
        requires
            self@.share(limit.gas) != 0,
        ensures
            pressure@ == bound(self@, *limit),
    {
        proof {
            use_type_invariant(self);
        }
        match limit.pressure {
            Pressure::Absolute(value) => AmbientPressure { num: value as i128, den: 1 },
            Pressure::Partial(value) => {
                let share: i64 = self.share(limit.gas);
                assert(0 <= value * self.whole <= 0xFFFF_FFFF * 0x7FFF_FFFF_FFFF_FFFF)
                    by (nonlinear_arith)
                    requires
                        0 <= value <= 0xFFFF_FFFF,
                        0 < self.whole <= 0x7FFF_FFFF_FFFF_FFFF,
                ;
                let scaled: i128 = (value as i128) * (self.whole as i128);
                if share > 0 {
                    AmbientPressure { num: scaled, den: share as i128 }
                } else {
                    AmbientPressure { num: -scaled, den: -(share as i128) }
                }
            },
        }
    }

    /// The limit in the form in which it is compared with another.
    fn scaled_bound(&self, limit: &Limit) -> (scaled: (i128, i128))
        requires
            self@.share(limit.gas) != 0,
        ensures
            scaled.0 == scaled_bound(self@, *limit).0,
            scaled.1 == scaled_bound(self@, *limit).1,
            -0xFFFF_FFFF <= scaled.0 <= 0xFFFF_FFFF,
            0 < scaled.1 <= 0x8000_0000_0000_0000,
    {
        proof {
            use_type_invariant(self);
        }
        match limit.pressure {
            Pressure::Absolute(value) => (value as i128, self.whole as i128),
            Pressure::Partial(value) => {
                let share: i64 = self.share(limit.gas);
                if share > 0 {
                    (value as i128, share as i128)
                } else {
                    (-(value as i128), -(share as i128))
                }
            },
        }
    }

    /// Whether `candidate` restricts the mixture more than `current` does.
    fn tightens(&self, extremum: Extremum, candidate: &Limit, current: &Limit) -> (tighter: bool)
        requires
            self@.share(candidate.gas) != 0,
            self@.share(current.gas) != 0,
        ensures
            tighter == tightens(extremum, bound(self@, *candidate), bound(self@, *current)),
    {
        let (candidate_value, candidate_share) = self.scaled_bound(candidate);
        let (current_value, current_share) = self.scaled_bound(current);
        proof {
            use_type_invariant(self);
            lemma_scaled_bound_compares(self@, *candidate, *current);
            lemma_scaled_bound_compares(self@, *current, *candidate);
            lemma_product_fits(candidate_value as int, current_share as int);
            lemma_product_fits(current_value as int, candidate_share as int);
        }
        let candidate_side: i128 = candidate_value * current_share;
        let current_side: i128 = current_value * candidate_share;
        match extremum {
            Extremum::Minimum => current_side < candidate_side,
            Extremum::Maximum => candidate_side < current_side,
        }
    }

    /// The minimum or maximum ambient pressure at which the mixture can be
    /// used under the limits of the table; `None` where no limit of that
    /// extremum applies to it.
    pub fn pressure_limit(&self, extremum: Extremum) -> (result: Result<
        Option<AmbientPressure>,
        Error,
    >)
        ensures
            match result {
                Ok(Some(pressure)) => combined_limit(self@, limit_table(), extremum) == Some(
                    pressure@,
                ),
                Ok(None) => combined_limit(self@, limit_table(), extremum) is None,
                Err(_) => false,
            },
    {
        let limits = get_limits()?;
        let mut binding: Option<Limit> = None;
        let mut index: usize = 0;
        while index < limits.len()
            invariant
                index <= limits.len(),
                binding == binding_limit(self@, limits@.take(index as int), extremum),
                binding matches Some(limit) ==> self@.share(limit.gas) != 0,
            decreases limits.len() - index,
        {
            let limit = limits[index];
            assert(limits@.take(index + 1).drop_last() =~= limits@.take(index as int));
            assert(limits@.take(index + 1).last() == limit);
            index += 1;
            if limit.extremum != extremum {
                continue ;
            }
            if self.share(limit.gas) == 0 {
                continue ;
            }
            match binding {
                Some(current) => {
                    if self.tightens(extremum, &limit, &current) {
                        binding = Some(limit);
                    }
                },
                None => {
                    binding = Some(limit);
                },
            }
        }
        assert(limits@.take(index as int) =~= limits@);
        match binding {
            Some(limit) => Ok(Some(self.bound(&limit))),
            None => Ok(None),
        }
    }
}

/// The view of a pressure that may be missing.
pub open spec fn pressure_view(pressure: Option<AmbientPressure>) -> Option<Ratio> {
    match pressure {
        Some(found) => Some(found@),
        None => None,
    }
}

/// The depth at which the ambient pressure is `pressure`, in tenths of a
/// metre or of a foot.
pub fn to_depth(pressure: &AmbientPressure, units_system: &UnitsSystem) -> (depth: Rational)
    ensures
        depth@ == depth_at(pressure@, *units_system),
        depth.den > 0,
        i128::MIN < depth.num < i128::MAX,
{
    proof {
        use_type_invariant(pressure);
    }
    let above_surface: i128 = pressure.num - ATMOSPHERIC_PRESSURE * pressure.den;
    let water: i128 = pressure.den * WATER_PRESSURE_PER_TENTH_OF_METER;
    match units_system {
        UnitsSystem::Metric => {
            assert(unit_scale(UnitsSystem::Metric) == Ratio { num: 1, den: 1 });
            assert(above_surface * 1 == above_surface && water * 1 == water);
            Rational { num: above_surface, den: water }
        },
        UnitsSystem::Imperial => Rational {
            num: above_surface * METER_TO_FEET,
            den: water * METER_TO_FEET_SCALE,
        },
    }
}

impl OperatingDepth {
    /// The operating depth between a minimum and a maximum ambient pressure.
    ///
    /// The minimum depth is rounded up to the next tenth and is not above the
    /// surface; the maximum depth is rounded down. The range must lie below
    /// the surface and hold more than one depth.
    pub fn from_pressures(
        minimum_pressure: Option<AmbientPressure>,
        maximum_pressure: Option<AmbientPressure>,
        units_system: &UnitsSystem,
    ) -> (result: Result<OperatingDepth, Error>)
        ensures
            is_outcome(
                result,
                depth_range(
                    pressure_view(minimum_pressure),
                    pressure_view(maximum_pressure),
                    *units_system,
                ),
            ),
            result matches Ok(depth) ==> depth.minimum < depth.maximum,
    {
        // Check if there are a minimum and a maximum operating pressure.
        let lowest = match minimum_pressure {
            Some(pressure) => pressure,
            None => {
                return Err(
                    Error::OperatingDepthError(OperatingDepthError::NoMinimumOperatingPressure),
                );
            },
        };
        let highest = match maximum_pressure {
            Some(pressure) => pressure,
            None => {
                return Err(
                    Error::OperatingDepthError(OperatingDepthError::NoMaximumOperatingPressure),
                );
            },
        };
        let lowest_depth = to_depth(&lowest, units_system);
        let highest_depth = to_depth(&highest, units_system);
        proof {
            lemma_floor_within(lowest_depth.num as int, lowest_depth.den as int);
            lemma_floor_within(highest_depth.num as int, highest_depth.den as int);
        }
        let mut minimum_depth: i128 = lowest_depth.floor() + 1;
        if minimum_depth < 0 {
            minimum_depth = 0;
        }
        let maximum_depth: i128 = highest_depth.floor();

        // Check if the maximum depth is below the surface and deeper than the minimum depth.
        if maximum_depth <= 0 {
            return Err(Error::OperatingDepthError(OperatingDepthError::NoValidRange));
        }
        if minimum_depth >= maximum_depth {
            return Err(Error::OperatingDepthError(OperatingDepthError::NoValidRange));
        }
        Ok(OperatingDepth { minimum: minimum_depth as u128, maximum: maximum_depth as u128 })
    }
}

impl GasMix {
    /// The range of depths in which the mixture can be breathed, in tenths of
    /// a metre or of a foot.
    pub fn operating_depth(&self, units_system: &UnitsSystem) -> (result: Result<
        OperatingDepth,
        Error,
    >)
        ensures
            is_outcome(result, operating_depth_of(self@, *units_system)),
            result matches Ok(depth) ==> depth.minimum < depth.maximum,
    {
        let minimum_pressure = self.pressure_limit(Extremum::Minimum)?;
        let maximum_pressure = self.pressure_limit(Extremum::Maximum)?;
        OperatingDepth::from_pressures(minimum_pressure, maximum_pressure, units_system)
    }
}

/// The product of a limit's value and a share fits in 128 bits.
proof fn lemma_product_fits(value: int, share: int)
    requires
        -0xFFFF_FFFF <= value <= 0xFFFF_FFFF,
        0 < share <= 0x8000_0000_0000_0000,
    ensures
        -0x8000_0000_0000_0000_0000_0000 <= value * share <= 0x8000_0000_0000_0000_0000_0000,
{
    assert(-0x8000_0000_0000_0000_0000_0000 <= value * share <= 0x8000_0000_0000_0000_0000_0000)
        by (nonlinear_arith)
        requires
            -0xFFFF_FFFF <= value <= 0xFFFF_FFFF,
            0 < share <= 0x8000_0000_0000_0000,
    ;
}

} // verus!
