//! The named mixtures: air, heliox, nitrox and trimix.

use vstd::prelude::*;
use crate::gas_mix::new;
use crate::gas_mix::validated;
use crate::gas_mix::{Composition, GasMix};
use crate::profile::{DINITROGEN_IN_AIR, DIOXYGEN_IN_AIR, HELIUM_IN_AIR, MILLION, NITROX_WHOLE};
use crate::Error;

verus! {

/// A named mixture, with the shares that its name leaves open. Each share is
/// given in parts per million.
#[derive(Clone, Copy, Debug, PartialEq, Eq, Structural)]
pub enum GasMixer {
    Air,
    Heliox { dioxygen: i64 },
    Nitrox { dioxygen: i64 },
    Trimix { dinitrogen: i64, dioxygen: i64, helium: i64 },
}

/// Why the shares given to a preset are refused.
#[derive(Clone, Copy, Debug, PartialEq, Eq, Structural)]
pub enum GasMixerError {
    NegativeProportion,
    ProportionAboveMaximum,
}

/// What is wrong with a share given in parts per million: it is negative, or
/// more than the whole.
pub open spec fn proportion_error(proportion: int) -> Option<GasMixerError> {
    if proportion < 0 {
        Some(GasMixerError::NegativeProportion)
    } else if proportion > MILLION {
        Some(GasMixerError::ProportionAboveMaximum)
    } else {
        None
    }
}

/// The parts of a gas in a nitrox of `dioxygen` parts per million of
/// dioxygen, out of `NITROX_WHOLE`, for a gas of which air holds
/// `gas_in_air` parts per million.
///
/// Dinitrogen and helium keep the ratio that they have in air: the fraction
/// of each in air is scaled by `(dioxygen - 1) / (DIOXYGEN_IN_AIR - 1)`, the
/// two fractions of dioxygen taken out of one.
pub open spec fn nitrox_share(gas_in_air: int, dioxygen: int) -> int {
    gas_in_air * (MILLION - dioxygen)
}

/// The fractions of a nitrox are those that its parts are counted for: the
/// fraction of a gas of air is its fraction in air times
/// `(dioxygen - 1) / (DIOXYGEN_IN_AIR - 1)`, and the fraction of dioxygen is
/// the one that was asked for.
pub proof fn lemma_nitrox_scales_air(gas_in_air: int, dioxygen: int)
    ensures
        nitrox_share(gas_in_air, dioxygen) * (MILLION * (DIOXYGEN_IN_AIR - MILLION)) == (gas_in_air
            * (dioxygen - MILLION)) * NITROX_WHOLE,
        (dioxygen * (MILLION - DIOXYGEN_IN_AIR)) * MILLION == dioxygen * NITROX_WHOLE,
{
    assert((gas_in_air * (1_000_000 - dioxygen)) * (1_000_000 * (210_000 - 1_000_000)) == (
    gas_in_air * (dioxygen - 1_000_000)) * 790_000_000_000) by (nonlinear_arith);
}

impl GasMixer {
    /// What is wrong with the first of the given shares that is out of range,
    /// in the order dinitrogen, dioxygen, helium. Air is given no share.
    pub open spec fn refusal(self) -> Option<GasMixerError> {
        match self {
            GasMixer::Air => None,
            GasMixer::Heliox { dioxygen } => proportion_error(dioxygen as int),
            GasMixer::Nitrox { dioxygen } => proportion_error(dioxygen as int),
            GasMixer::Trimix { dinitrogen, dioxygen, helium } => {
                if proportion_error(dinitrogen as int) is Some {
                    proportion_error(dinitrogen as int)
                } else if proportion_error(dioxygen as int) is Some {
                    proportion_error(dioxygen as int)
                } else {
                    proportion_error(helium as int)
                }
            },
        }
    }

    /// The composition that the preset stands for.
    pub open spec fn composition(self) -> Composition {
        match self {
            GasMixer::Air => Composition {
                dinitrogen: DINITROGEN_IN_AIR as int,
                dioxygen: DIOXYGEN_IN_AIR as int,
                helium: HELIUM_IN_AIR as int,
                whole: MILLION as int,
            },
            GasMixer::Heliox { dioxygen } => Composition {
                dinitrogen: 0,
                dioxygen: dioxygen as int,
                helium: MILLION - dioxygen,
                whole: MILLION as int,
            },
            GasMixer::Nitrox { dioxygen } => Composition {
                dinitrogen: nitrox_share(DINITROGEN_IN_AIR as int, dioxygen as int),
                dioxygen: dioxygen * (MILLION - DIOXYGEN_IN_AIR),
                helium: nitrox_share(HELIUM_IN_AIR as int, dioxygen as int),
                whole: NITROX_WHOLE as int,
            },
            GasMixer::Trimix { dinitrogen, dioxygen, helium } => Composition {
                dinitrogen: dinitrogen as int,
                dioxygen: dioxygen as int,
                helium: helium as int,
                whole: MILLION as int,
            },
        }
    }

    /// What making the mixture gives: the refusal of a share that is out of
    /// range, before anything else is looked at; else the composition, where
    /// it is that of a mixture, or what is wrong with it.
    pub open spec fn outcome(self) -> Result<Composition, Error> {
        match self.refusal() {
            Some(reason) => Err(Error::GasMixerError(reason)),
            None => match validated(self.composition()) {
                Ok(mix) => Ok(mix),
                Err(reason) => Err(Error::GasMixError(reason)),
            },
        }
    }

    /// Checks that every given share lies between nothing and the whole.
    fn check_proportions(&self) -> (result: Result<(), Error>)
        ensures
            result == match self.refusal() {
                Some(reason) => Err::<(), Error>(Error::GasMixerError(reason)),
                None => Ok::<(), Error>(()),
            },
    {
        match self {
            GasMixer::Air => {},
            GasMixer::Heliox { dioxygen } => is_proportion_valid(*dioxygen)?,
            GasMixer::Nitrox { dioxygen } => is_proportion_valid(*dioxygen)?,
            GasMixer::Trimix { dinitrogen, dioxygen, helium } => {
                is_proportion_valid(*dinitrogen)?;
                is_proportion_valid(*dioxygen)?;
                is_proportion_valid(*helium)?;
            },
        }
        Ok(())
    }

    /// The mixture that the preset stands for.
    ///
    /// A share that is out of range is refused before the mixture is made.
    pub fn make_gas_mix(&self) -> (result: Result<GasMix, Error>)
        ensures
            match result {
                Ok(gas_mix) => self.outcome() == Ok::<Composition, Error>(gas_mix@),
                Err(error) => self.outcome() == Err::<Composition, Error>(error),
            },
            result matches Ok(gas_mix) ==> gas_mix@.valid(),
            self.refusal() matches Some(reason) ==> result matches Err(error) && error
                == Error::GasMixerError(reason),
    {
        self.check_proportions()?;
        match self {
            GasMixer::Air => new(DINITROGEN_IN_AIR, DIOXYGEN_IN_AIR, HELIUM_IN_AIR, MILLION),
            GasMixer::Heliox { dioxygen } => new(0, *dioxygen, MILLION - *dioxygen, MILLION),
            GasMixer::Nitrox { dioxygen } => new(
                air_gas_fraction_in_nitrox_mix(DINITROGEN_IN_AIR, *dioxygen),
                *dioxygen * (MILLION - DIOXYGEN_IN_AIR),
                air_gas_fraction_in_nitrox_mix(HELIUM_IN_AIR, *dioxygen),
                NITROX_WHOLE,
            ),
            GasMixer::Trimix { dinitrogen, dioxygen, helium } => new(
                *dinitrogen,
                *dioxygen,
                *helium,
                MILLION,
            ),
        }
    }
}

/// Checks that a share in parts per million lies between nothing and the
/// whole.
fn is_proportion_valid(proportion: i64) -> (result: Result<(), Error>)
    ensures
        result == match proportion_error(proportion as int) {
            Some(reason) => Err::<(), Error>(Error::GasMixerError(reason)),
            None => Ok::<(), Error>(()),
        },
{
    if proportion < 0 {
        Err(Error::GasMixerError(GasMixerError::NegativeProportion))
    } else if proportion > MILLION {
        Err(Error::GasMixerError(GasMixerError::ProportionAboveMaximum))
    } else {
        Ok(())
    }
}

/// The parts, out of `NITROX_WHOLE`, of a gas of air in a nitrox.
fn air_gas_fraction_in_nitrox_mix(gas_fraction_in_air: i64, dioxygen_fraction_in_nitrox_mix: i64) -> (parts: i64)
    requires
        0 <= gas_fraction_in_air <= MILLION,
        0 <= dioxygen_fraction_in_nitrox_mix <= MILLION,
    ensures
        parts == nitrox_share(gas_fraction_in_air as int, dioxygen_fraction_in_nitrox_mix as int),
{
    assert(0 <= gas_fraction_in_air * (MILLION - dioxygen_fraction_in_nitrox_mix) <= MILLION
        * MILLION) by (nonlinear_arith)
        requires
            0 <= gas_fraction_in_air <= MILLION,
            0 <= MILLION - dioxygen_fraction_in_nitrox_mix <= MILLION,
    ;
    gas_fraction_in_air * (MILLION - dioxygen_fraction_in_nitrox_mix)
}

} // verus!
