//! The fixed figures: the pressures at the surface and under water, the
//! composition of air, and the limits on each gas.

use vstd::prelude::*;
use crate::{Error, Extremum, Gas, Limit, Pressure};

verus! {

/// The pressure at the surface, in millibar.
pub const ATMOSPHERIC_PRESSURE: i128 = 1000;

/// The pressure that a tenth of a metre of water adds, in millibar: one bar
/// for every ten metres.
pub const WATER_PRESSURE_PER_TENTH_OF_METER: i128 = 10;

/// The number of parts that the composition of air is counted in.
pub const MILLION: i64 = 1_000_000;

/// Dinitrogen in air, in parts per million.
pub const DINITROGEN_IN_AIR: i64 = 780_000;

/// Dioxygen in air, in parts per million.
pub const DIOXYGEN_IN_AIR: i64 = 210_000;

/// Helium in air, in parts per million.
pub const HELIUM_IN_AIR: i64 = 5;

/// The number of parts that a nitrox is counted in: a million for each of the
/// parts per million of air that are not dioxygen, so that the share of every
/// gas is a whole number of parts.
pub const NITROX_WHOLE: i64 = 790_000_000_000;

/// Why the table of limits cannot be used.
#[derive(Clone, Copy, Debug, PartialEq, Eq, Structural)]
pub enum LimitsError {
    NoMinimumDioxygenLimit,
    NoMaximumDioxygenLimit,
}

/// The limits on each gas, in the order in which they are applied.
pub open spec fn limit_table() -> Seq<Limit> {
    seq![
        Limit { gas: Gas::Dioxygen, extremum: Extremum::Minimum, pressure: Pressure::Partial(160) },
        Limit { gas: Gas::Dioxygen, extremum: Extremum::Maximum, pressure: Pressure::Partial(1300) },
        Limit { gas: Gas::Dinitrogen, extremum: Extremum::Maximum, pressure: Pressure::Partial(3120) },
        Limit { gas: Gas::Helium, extremum: Extremum::Maximum, pressure: Pressure::Absolute(31000) },
    ]
}

/// Whether `table` holds a limit on `gas` at `extremum`.
pub open spec fn has_limit(table: Seq<Limit>, gas: Gas, extremum: Extremum) -> bool {
    exists|i: int| 0 <= i < table.len() && (#[trigger] table[i]).gas == gas && table[i].extremum == extremum
}

fn limits() -> (table: [Limit; 4])
    ensures
        table@ == limit_table(),
{
    let table: [Limit; 4] = [
        // Dioxygen partial pressure to sustain life
        Limit { gas: Gas::Dioxygen, extremum: Extremum::Minimum, pressure: Pressure::Partial(160) },
        // Central nervous system oxygen toxicity
        Limit { gas: Gas::Dioxygen, extremum: Extremum::Maximum, pressure: Pressure::Partial(1300) },
        // Nitrogen narcosis
        Limit { gas: Gas::Dinitrogen, extremum: Extremum::Maximum, pressure: Pressure::Partial(3120) },
        // Absolute pressure component of the high-pressure nervous syndrome
        Limit { gas: Gas::Helium, extremum: Extremum::Maximum, pressure: Pressure::Absolute(31000) },
    ];
    assert(table@ =~= limit_table());
    table
}

/// Checks that a table of limits bounds dioxygen from both sides: without a
/// minimum and a maximum for it no mixture has an operating range.
pub fn check_limits(table: &[Limit]) -> (result: Result<(), Error>)
    ensures
        result == if !has_limit(table@, Gas::Dioxygen, Extremum::Minimum) {
            Err::<(), Error>(Error::LimitsError(LimitsError::NoMinimumDioxygenLimit))
        } else if !has_limit(table@, Gas::Dioxygen, Extremum::Maximum) {
            Err::<(), Error>(Error::LimitsError(LimitsError::NoMaximumDioxygenLimit))
        } else {
            Ok::<(), Error>(())
        },
{
    let mut minimum_dioxygen_limit_exists = false;
    let mut maximum_dioxygen_limit_exists = false;
    let mut index: usize = 0;
    while index < table.len()
        invariant
            index <= table.len(),
            minimum_dioxygen_limit_exists == has_limit(
                table@.take(index as int),
                Gas::Dioxygen,
                Extremum::Minimum,
            ),
            maximum_dioxygen_limit_exists == has_limit(
                table@.take(index as int),
                Gas::Dioxygen,
                Extremum::Maximum,
            ),
        decreases table.len() - index,
    {
        let limit = &table[index];
        proof {
            lemma_has_limit_step(table@, index as int, Gas::Dioxygen, Extremum::Minimum);
            lemma_has_limit_step(table@, index as int, Gas::Dioxygen, Extremum::Maximum);
        }
        if limit.gas == Gas::Dioxygen {
            if limit.extremum == Extremum::Minimum {
                minimum_dioxygen_limit_exists = true;
            } else if limit.extremum == Extremum::Maximum {
                maximum_dioxygen_limit_exists = true;
            }
        }
        index += 1;
    }
    assert(table@.take(index as int) =~= table@);
    if !minimum_dioxygen_limit_exists {
        return Err(Error::LimitsError(LimitsError::NoMinimumDioxygenLimit));
    }
    if !maximum_dioxygen_limit_exists {
        return Err(Error::LimitsError(LimitsError::NoMaximumDioxygenLimit));
    }
    Ok(())
}

/// A table one entry longer holds a limit if the shorter one did or the new
/// entry is such a limit.
proof fn lemma_has_limit_step(table: Seq<Limit>, index: int, gas: Gas, extremum: Extremum)
    requires
        0 <= index < table.len(),
    ensures
        has_limit(table.take(index + 1), gas, extremum) == (has_limit(
            table.take(index),
            gas,
            extremum,
        ) || (table[index].gas == gas && table[index].extremum == extremum)),
{
    let shorter = table.take(index);
    let longer = table.take(index + 1);
    if has_limit(shorter, gas, extremum) {
        let i = choose|i: int|
            0 <= i < shorter.len() && (#[trigger] shorter[i]).gas == gas && shorter[i].extremum
                == extremum;
        assert(longer[i] == shorter[i]);
    }
    if table[index].gas == gas && table[index].extremum == extremum {
        assert(longer[index] == table[index]);
    }
    if has_limit(longer, gas, extremum) {
        let i = choose|i: int|
            0 <= i < longer.len() && (#[trigger] longer[i]).gas == gas && longer[i].extremum
                == extremum;
        if i < index {
            assert(shorter[i] == longer[i]);
        } else {
            assert(longer[i] == table[index]);
        }
    }
}

/// The table of limits, once checked.
pub fn get_limits() -> (result: Result<[Limit; 4], Error>)
    ensures
        result matches Ok(table) && table@ == limit_table(),
{
    let table = limits();
    proof {
        lemma_table_bounds_dioxygen();
    }
    match check_limits(table.as_slice()) {
        Ok(()) => Ok(table),
        Err(error) => Err(error),
    }
}

/// The table bounds dioxygen from both sides.
pub proof fn lemma_table_bounds_dioxygen()
    ensures
        has_limit(limit_table(), Gas::Dioxygen, Extremum::Minimum),
        has_limit(limit_table(), Gas::Dioxygen, Extremum::Maximum),
{
    assert(limit_table()[0].gas == Gas::Dioxygen && limit_table()[0].extremum == Extremum::Minimum);
    assert(limit_table()[1].gas == Gas::Dioxygen && limit_table()[1].extremum == Extremum::Maximum);
}

} // verus!
