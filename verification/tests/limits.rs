use dive_gas::gas_mix::new;
use dive_gas::gas_mixer::GasMixer;
use dive_gas::profile::LimitsError;
use dive_gas::profile::{check_limits, get_limits};
use dive_gas::{Error, Extremum, Gas, Limit, Pressure};

fn limit(gas: Gas, extremum: Extremum, pressure: Pressure) -> Limit {
    Limit { gas, extremum, pressure }
}

#[test]
fn the_table_holds_four_limits_in_order() {
    let table = get_limits().ok().unwrap();
    assert_eq!(
        table,
        [
            limit(Gas::Dioxygen, Extremum::Minimum, Pressure::Partial(160)),
            limit(Gas::Dioxygen, Extremum::Maximum, Pressure::Partial(1300)),
            limit(Gas::Dinitrogen, Extremum::Maximum, Pressure::Partial(3120)),
            limit(Gas::Helium, Extremum::Maximum, Pressure::Absolute(31000)),
        ]
    );
}

#[test]
fn the_table_passes_its_check() {
    let table = get_limits().ok().unwrap();
    assert_eq!(check_limits(&table), Ok(()));
}

#[test]
fn a_table_without_a_minimum_for_dioxygen_is_refused() {
    let table = [
        limit(Gas::Dioxygen, Extremum::Maximum, Pressure::Partial(1300)),
        limit(Gas::Helium, Extremum::Minimum, Pressure::Absolute(500)),
    ];
    assert_eq!(
        check_limits(&table),
        Err(Error::LimitsError(LimitsError::NoMinimumDioxygenLimit))
    );
}

#[test]
fn a_table_without_a_maximum_for_dioxygen_is_refused() {
    let table = [
        limit(Gas::Dinitrogen, Extremum::Maximum, Pressure::Partial(3120)),
        limit(Gas::Dioxygen, Extremum::Minimum, Pressure::Partial(160)),
    ];
    assert_eq!(
        check_limits(&table),
        Err(Error::LimitsError(LimitsError::NoMaximumDioxygenLimit))
    );
}

#[test]
fn an_empty_table_lacks_the_minimum_first() {
    assert_eq!(
        check_limits(&[]),
        Err(Error::LimitsError(LimitsError::NoMinimumDioxygenLimit))
    );
}

#[test]
fn the_limits_on_dioxygen_may_stand_anywhere() {
    let table = [
        limit(Gas::Helium, Extremum::Maximum, Pressure::Absolute(31000)),
        limit(Gas::Dioxygen, Extremum::Maximum, Pressure::Absolute(1300)),
        limit(Gas::Dinitrogen, Extremum::Minimum, Pressure::Partial(1)),
        limit(Gas::Dioxygen, Extremum::Minimum, Pressure::Partial(160)),
    ];
    assert_eq!(check_limits(&table), Ok(()));
}

fn pressure_of(mix: &dive_gas::gas_mix::GasMix, extremum: Extremum) -> (i128, i128) {
    let pressure = mix.pressure_limit(extremum).ok().unwrap().unwrap();
    (pressure.numerator(), pressure.denominator())
}

#[test]
fn the_minimum_of_air_is_set_by_dioxygen() {
    let air = GasMixer::Air.make_gas_mix().ok().unwrap();
    assert_eq!(pressure_of(&air, Extremum::Minimum), (160_000_000, 210_000));
}

#[test]
fn the_maximum_of_air_is_set_by_dinitrogen() {
    let air = GasMixer::Air.make_gas_mix().ok().unwrap();
    assert_eq!(pressure_of(&air, Extremum::Maximum), (3_120_000_000, 780_000));
}

#[test]
fn the_maximum_of_a_rich_nitrox_is_set_by_dioxygen() {
    let nitrox = GasMixer::Nitrox { dioxygen: 320_000 }.make_gas_mix().ok().unwrap();
    assert_eq!(
        pressure_of(&nitrox, Extremum::Maximum),
        (1300 * 790_000_000_000, 252_800_000_000)
    );
}

#[test]
fn the_maximum_of_a_lean_heliox_is_set_by_helium() {
    let heliox = GasMixer::Heliox { dioxygen: 40_000 }.make_gas_mix().ok().unwrap();
    assert_eq!(pressure_of(&heliox, Extremum::Maximum), (31_000, 1));
    assert_eq!(pressure_of(&heliox, Extremum::Minimum), (160_000_000, 40_000));
}

#[test]
fn a_gas_that_the_mixture_lacks_sets_no_limit() {
    let mix = new(0, 50, 0, 50).ok().unwrap();
    assert_eq!(pressure_of(&mix, Extremum::Maximum), (1300 * 50, 50));
}

#[test]
fn the_earliest_of_equal_limits_is_kept() {
    let mix = new(312_000, 130_000, 558_000, 1_000_000).ok().unwrap();
    assert_eq!(pressure_of(&mix, Extremum::Maximum), (1_300_000_000, 130_000));
}

#[test]
fn a_negative_share_gives_a_negative_pressure() {
    let mix = new(-500_000, 1_000_000, 500_000, 1_000_000).ok().unwrap();
    assert_eq!(pressure_of(&mix, Extremum::Maximum), (-3_120_000_000, 500_000));
    let mix = new(1_500_000, -500_000, 0, 1_000_000).ok().unwrap();
    assert_eq!(pressure_of(&mix, Extremum::Minimum), (-160_000_000, 500_000));
    assert_eq!(pressure_of(&mix, Extremum::Maximum), (-1_300_000_000, 500_000));
}

#[test]
fn the_largest_shares_are_compared_without_overflow() {
    let mix = new(i64::MAX, i64::MIN, 1, i64::MAX).ok();
    assert!(mix.is_none());
    let mix = new(i64::MAX - 1, 1, 0, i64::MAX).ok().unwrap();
    assert_eq!(
        pressure_of(&mix, Extremum::Maximum),
        (3120 * (i64::MAX as i128), (i64::MAX - 1) as i128)
    );
    let mix = new(i64::MIN, i64::MAX, 1, 1).ok();
    assert!(mix.is_none());
    let mix = new(i64::MIN + 1, i64::MAX, 0, 1).ok();
    assert!(mix.is_none());
    let mix = new(i64::MIN + 2, i64::MAX, 0, 1).ok().unwrap();
    assert_eq!(pressure_of(&mix, Extremum::Maximum), (-3120, (i64::MAX - 1) as i128));
    assert_eq!(pressure_of(&mix, Extremum::Minimum), (160, i64::MAX as i128));
}
