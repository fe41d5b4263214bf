//! How an ambient pressure becomes a depth, and two pressures an operating
//! depth.

use vstd::prelude::*;
use crate::gas_mix::{Composition, OperatingDepthError};
use crate::profile::limit_table;
use crate::profile::{ATMOSPHERIC_PRESSURE, WATER_PRESSURE_PER_TENTH_OF_METER};
use crate::ratio::lemma_floor_brackets;
use crate::ratio::Ratio;
use crate::resolver::lemma_binding_limit_applies;
use crate::resolver::lemma_minimum_binding;
use crate::resolver::{applies, combined_limit};
use crate::{Extremum, UnitsSystem};
use crate::{METER_TO_FEET, METER_TO_FEET_SCALE};

verus! {

/// How many of the unit a metre is: one for metres, 3.280839895 for feet.
pub open spec fn unit_scale(units: UnitsSystem) -> Ratio {
    match units {
        UnitsSystem::Metric => Ratio { num: 1, den: 1 },
        UnitsSystem::Imperial => Ratio {
            num: METER_TO_FEET as int,
            den: METER_TO_FEET_SCALE as int,
        },
    }
}

/// The depth at which the ambient pressure is `pressure`, in tenths of a
/// metre or of a foot: the pressure above that of the surface, divided by
/// what a tenth of a metre of water adds, and scaled to the unit.
pub open spec fn depth_at(pressure: Ratio, units: UnitsSystem) -> Ratio {
    Ratio {
        num: (pressure.num - ATMOSPHERIC_PRESSURE * pressure.den) * unit_scale(units).num,
        den: pressure.den * WATER_PRESSURE_PER_TENTH_OF_METER * unit_scale(units).den,
    }
}

/// The minimum depth in tenths: the next tenth above `depth`, and zero where
/// that is above the surface.
pub open spec fn rounded_up(depth: Ratio) -> int {
    if depth.floor() + 1 < 0 {
        0
    } else {
        depth.floor() + 1
    }
}

/// The maximum depth in tenths: the last tenth that is not below `depth`.
pub open spec fn rounded_down(depth: Ratio) -> int {
    depth.floor()
}

/// The operating depth between two ambient pressures, as the pair of its
/// minimum and its maximum in tenths of the unit, or why there is none.
pub open spec fn depth_range(
    minimum_pressure: Option<Ratio>,
    maximum_pressure: Option<Ratio>,
    units: UnitsSystem,
) -> Result<(int, int), OperatingDepthError> {
    match (minimum_pressure, maximum_pressure) {
        (None, _) => Err(OperatingDepthError::NoMinimumOperatingPressure),
        (Some(_), None) => Err(OperatingDepthError::NoMaximumOperatingPressure),
        (Some(lowest), Some(highest)) => {
            let minimum = rounded_up(depth_at(lowest, units));
            let maximum = rounded_down(depth_at(highest, units));
            if maximum <= 0 || minimum >= maximum {
                Err(OperatingDepthError::NoValidRange)
            } else {
                Ok((minimum, maximum))
            }
        },
    }
}

/// The operating depth of a mixture of composition `mix` under the limits of
/// the table.
pub open spec fn operating_depth_of(mix: Composition, units: UnitsSystem) -> Result<
    (int, int),
    OperatingDepthError,
> {
    depth_range(
        combined_limit(mix, limit_table(), Extremum::Minimum),
        combined_limit(mix, limit_table(), Extremum::Maximum),
        units,
    )
}

/// In feet a depth is what it is in metres, times the feet in a metre: the
/// two depths at one pressure differ by that factor exactly, and once rounded
/// to tenths by less than one tenth of a foot more than the factor allows.
pub proof fn lemma_imperial_scales_metric(pressure: Ratio)
    requires
        pressure.den > 0,
    ensures
        ({
            let metric = depth_at(pressure, UnitsSystem::Metric);
            let imperial = depth_at(pressure, UnitsSystem::Imperial);
            &&& imperial.num == metric.num * METER_TO_FEET
            &&& imperial.den == metric.den * METER_TO_FEET_SCALE
            &&& METER_TO_FEET * rounded_down(metric) - METER_TO_FEET_SCALE < METER_TO_FEET_SCALE
                * rounded_down(imperial) < METER_TO_FEET * (rounded_down(metric) + 1)
            &&& METER_TO_FEET * (rounded_up(metric) - 1) < METER_TO_FEET_SCALE * rounded_up(
                imperial,
            ) < METER_TO_FEET * rounded_up(metric) + METER_TO_FEET_SCALE
        }),
{
    let metric = depth_at(pressure, UnitsSystem::Metric);
    let imperial = depth_at(pressure, UnitsSystem::Imperial);
    let above_surface = pressure.num - ATMOSPHERIC_PRESSURE * pressure.den;
    let water = pressure.den * WATER_PRESSURE_PER_TENTH_OF_METER;
    assert(metric.num == above_surface) by {
        assert(above_surface * 1 == above_surface);
    }
    assert(metric.den == water) by {
        assert(water * 1 == water);
    }
    assert(imperial.num == above_surface * METER_TO_FEET);
    assert(imperial.den == water * METER_TO_FEET_SCALE);
    lemma_floor_brackets(metric);
    lemma_floor_brackets(imperial);
    let metres = metric.floor();
    let feet = imperial.floor();
    assert(METER_TO_FEET_SCALE * feet < METER_TO_FEET * (metres + 1)) by (nonlinear_arith)
        requires
            water > 0,
            above_surface < (metres + 1) * water,
            feet * (water * 1_000_000_000) <= above_surface * 3_280_839_895,
            METER_TO_FEET == 3_280_839_895,
            METER_TO_FEET_SCALE == 1_000_000_000,
    {
        assert(above_surface * 3_280_839_895 < ((metres + 1) * water) * 3_280_839_895);
        assert((1_000_000_000 * feet) * water < (3_280_839_895 * (metres + 1)) * water);
    }
    assert(METER_TO_FEET * metres < METER_TO_FEET_SCALE * (feet + 1)) by (nonlinear_arith)
        requires
            water > 0,
            metres * water <= above_surface,
            above_surface * 3_280_839_895 < (feet + 1) * (water * 1_000_000_000),
            METER_TO_FEET == 3_280_839_895,
            METER_TO_FEET_SCALE == 1_000_000_000,
    {
        assert((metres * water) * 3_280_839_895 <= above_surface * 3_280_839_895);
        assert((3_280_839_895 * metres) * water < (1_000_000_000 * (feet + 1)) * water);
    }
}

/// Where a mixture has an operating depth both in metres and in feet, each
/// depth in feet is the depth in metres times the feet in a metre, within the
/// rounding to tenths.
pub proof fn lemma_imperial_range_scales_metric(mix: Composition)
    requires
        operating_depth_of(mix, UnitsSystem::Metric) is Ok,
        operating_depth_of(mix, UnitsSystem::Imperial) is Ok,
    ensures
        ({
            let metric = operating_depth_of(mix, UnitsSystem::Metric)->Ok_0;
            let imperial = operating_depth_of(mix, UnitsSystem::Imperial)->Ok_0;
            &&& METER_TO_FEET * (metric.0 - 1) < METER_TO_FEET_SCALE * imperial.0 < METER_TO_FEET
                * metric.0 + METER_TO_FEET_SCALE
            &&& METER_TO_FEET * metric.1 - METER_TO_FEET_SCALE < METER_TO_FEET_SCALE * imperial.1
                < METER_TO_FEET * (metric.1 + 1)
        }),
{
    lemma_binding_limit_applies(mix, limit_table(), Extremum::Minimum);
    lemma_binding_limit_applies(mix, limit_table(), Extremum::Maximum);
    lemma_imperial_scales_metric(combined_limit(mix, limit_table(), Extremum::Minimum)->Some_0);
    lemma_imperial_scales_metric(combined_limit(mix, limit_table(), Extremum::Maximum)->Some_0);
}

/// A minimum pressure below that of the surface gives the surface as the
/// minimum depth.
pub proof fn lemma_minimum_above_surface_is_surface(pressure: Ratio, units: UnitsSystem)
    requires
        pressure.den > 0,
        pressure.num < ATMOSPHERIC_PRESSURE * pressure.den,
    ensures
        rounded_up(depth_at(pressure, units)) == 0,
{
    let depth = depth_at(pressure, units);
    let above_surface = pressure.num - ATMOSPHERIC_PRESSURE * pressure.den;
    let scale = unit_scale(units);
    assert(depth.den > 0 && depth.num < 0) by (nonlinear_arith)
        requires
            pressure.den > 0,
            above_surface < 0,
            scale.num > 0,
            scale.den > 0,
            depth.num == above_surface * scale.num,
            depth.den == pressure.den * 10 * scale.den,
    ;
    lemma_floor_brackets(depth);
    assert(depth.floor() < 0) by (nonlinear_arith)
        requires
            depth.den > 0,
            depth.num < 0,
            depth.floor() * depth.den <= depth.num,
    ;
}

/// Two pressures of which the maximum is not above that of the surface leave
/// no operating depth.
pub proof fn lemma_no_range_at_surface(
    minimum_pressure: Ratio,
    maximum_pressure: Ratio,
    units: UnitsSystem,
)
    requires
        maximum_pressure.den > 0,
        maximum_pressure.num <= ATMOSPHERIC_PRESSURE * maximum_pressure.den,
    ensures
        depth_range(Some(minimum_pressure), Some(maximum_pressure), units) == Err::<
            (int, int),
            OperatingDepthError,
        >(OperatingDepthError::NoValidRange),
{
    let depth = depth_at(maximum_pressure, units);
    let above_surface = maximum_pressure.num - ATMOSPHERIC_PRESSURE * maximum_pressure.den;
    let scale = unit_scale(units);
    assert(depth.den > 0 && depth.num <= 0) by (nonlinear_arith)
        requires
            maximum_pressure.den > 0,
            above_surface <= 0,
            scale.num > 0,
            scale.den > 0,
            depth.num == above_surface * scale.num,
            depth.den == maximum_pressure.den * 10 * scale.den,
    ;
    lemma_floor_brackets(depth);
    assert(depth.floor() <= 0) by (nonlinear_arith)
        requires
            depth.den > 0,
            depth.num <= 0,
            depth.floor() * depth.den <= depth.num,
    ;
}

/// Under the limits of the table a mixture has a minimum and a maximum
/// pressure: it has an operating depth, or no valid range.
pub proof fn lemma_mixture_is_bounded(mix: Composition, units: UnitsSystem)
    requires
        mix.valid(),
    ensures
        combined_limit(mix, limit_table(), Extremum::Minimum) is Some,
        combined_limit(mix, limit_table(), Extremum::Maximum) is Some,
        operating_depth_of(mix, units) is Ok || operating_depth_of(mix, units) == Err::<
            (int, int),
            OperatingDepthError,
        >(OperatingDepthError::NoValidRange),
{
    lemma_minimum_binding(mix);
    lemma_binding_limit_applies(mix, limit_table(), Extremum::Maximum);
    assert(applies(mix, limit_table()[1], Extremum::Maximum));
}

/// A mixture whose maximum pressure is not above that of the surface has no
/// valid range.
pub proof fn lemma_mixture_at_surface_has_no_range(mix: Composition, units: UnitsSystem)
    requires
        mix.valid(),
        combined_limit(mix, limit_table(), Extremum::Maximum) matches Some(pressure)
            && pressure.num <= ATMOSPHERIC_PRESSURE * pressure.den,
    ensures
        operating_depth_of(mix, units) == Err::<(int, int), OperatingDepthError>(
            OperatingDepthError::NoValidRange,
        ),
{
    lemma_mixture_is_bounded(mix, units);
    lemma_binding_limit_applies(mix, limit_table(), Extremum::Maximum);
    let lowest = combined_limit(mix, limit_table(), Extremum::Minimum)->Some_0;
    let highest = combined_limit(mix, limit_table(), Extremum::Maximum)->Some_0;
    lemma_no_range_at_surface(lowest, highest, units);
}

} // verus!
