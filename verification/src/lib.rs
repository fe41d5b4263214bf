//! Safe operating depths for breathing-gas mixtures.
//!
//! A mixture of dinitrogen, dioxygen and helium can be breathed between a
//! shallowest and a deepest depth. Each gas brings physiological limits on
//! its partial pressure, or on the ambient pressure itself; the limits that
//! apply to a mixture are combined into one minimum and one maximum ambient
//! pressure, and the two pressures are converted into depths.
//!
//! All quantities are exact. A fraction of a mixture is a number of parts out
//! of a whole, a pressure is counted in millibar, and a depth in tenths of a
//! metre or of a foot, so that every ratio the computation meets is a ratio of
//! integers and every rounding is a floor.

use vstd::prelude::*;
use crate::depth::operating_depth_of;
use crate::gas_mix::is_outcome;
use crate::gas_mix::OperatingDepth;
use crate::gas_mixer::GasMixer;

pub mod depth;
pub mod gas_mix;
pub mod gas_mixer;
pub mod profile;
pub mod ratio;
pub mod resolver;

verus! {

/// The feet in `METER_TO_FEET_SCALE` metres: a metre is 3.280839895 feet.
pub const METER_TO_FEET: i128 = 3_280_839_895;

/// The metres that `METER_TO_FEET` feet make.
pub const METER_TO_FEET_SCALE: i128 = 1_000_000_000;

/// The unit system in which depths are reported.
#[derive(Clone, Copy, Debug, PartialEq, Eq, Structural)]
pub enum UnitsSystem {
    Metric,
    Imperial,
}

/// The gases a mixture is made of.
#[derive(Clone, Copy, Debug, PartialEq, Eq, Structural)]
pub enum Gas {
    Dinitrogen,
    Dioxygen,
    Helium,
}

/// Whether a limit bounds the shallowest or the deepest safe point.
#[derive(Clone, Copy, Debug, PartialEq, Eq, Structural)]
pub enum Extremum {
    Minimum,
    Maximum,
}

/// The pressure that a limit is stated in, in millibar.
#[derive(Clone, Copy, Debug, PartialEq, Eq, Structural)]
pub enum Pressure {
    /// An ambient pressure, whatever the share of the gas in the mixture.
    Absolute(u32),
    /// A partial pressure of the gas: the ambient pressure at which it is
    /// reached is this value divided by the share of the gas in the mixture.
    Partial(u32),
}

/// A physiological limit on the use of one gas.
#[derive(Clone, Copy, Debug, PartialEq, Eq, Structural)]
pub struct Limit {
    pub gas: Gas,
    pub extremum: Extremum,
    pub pressure: Pressure,
}

/// Every failure of the library, by the stage that it comes from.
#[derive(Clone, Copy, Debug, PartialEq, Eq, Structural)]
pub enum Error {
    GasMixError(gas_mix::GasMixError),
    GasMixerError(gas_mixer::GasMixerError),
    OperatingDepthError(gas_mix::OperatingDepthError),
    LimitsError(profile::LimitsError),
}

/// The operating depth of the mixture that `mixer` stands for, in tenths of
/// a metre or of a foot.
pub fn get_operating_depth(mixer: &GasMixer, units_system: &UnitsSystem) -> (result: Result<
    OperatingDepth,
    Error,
>)
    ensures
        match mixer.outcome() {
            Ok(mix) => is_outcome(result, operating_depth_of(mix, *units_system)),
            Err(error) => result == Err::<OperatingDepth, Error>(error),
        },
        result matches Ok(depth) ==> depth.minimum < depth.maximum,
{
    mixer.make_gas_mix()?.operating_depth(units_system)
}

} // verus!
