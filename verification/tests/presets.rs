use dive_gas::gas_mix::GasMixError;
use dive_gas::gas_mixer::{GasMixer, GasMixerError};
use dive_gas::Error;

#[test]
fn air_is_made_of_its_fixed_composition() {
    let mix = GasMixer::Air.make_gas_mix().ok().unwrap();
    assert_eq!(mix.parts(), (780_000, 210_000, 5, 1_000_000));
}

#[test]
fn heliox_fills_up_with_helium() {
    let mix = GasMixer::Heliox { dioxygen: 210_000 }.make_gas_mix().ok().unwrap();
    assert_eq!(mix.parts(), (0, 210_000, 790_000, 1_000_000));
}

#[test]
fn heliox_without_dioxygen_is_no_mixture() {
    let mix = GasMixer::Heliox { dioxygen: 0 }.make_gas_mix();
    assert_eq!(mix.err(), Some(Error::GasMixError(GasMixError::NoOxygen)));
}

#[test]
fn nitrox_scales_the_other_gases_of_air() {
    let mix = GasMixer::Nitrox { dioxygen: 320_000 }.make_gas_mix().ok().unwrap();
    assert_eq!(
        mix.parts(),
        (530_400_000_000, 252_800_000_000, 3_400_000, 790_000_000_000)
    );
}

#[test]
fn nitrox_with_the_dioxygen_of_air_is_air() {
    let mix = GasMixer::Nitrox { dioxygen: 210_000 }.make_gas_mix().ok().unwrap();
    let (dinitrogen, dioxygen, helium, whole) = mix.parts();
    assert_eq!(whole, 790_000 * 1_000_000);
    assert_eq!(dinitrogen, 780_000 * 790_000);
    assert_eq!(dioxygen, 210_000 * 790_000);
    assert_eq!(helium, 5 * 790_000);
}

#[test]
fn nitrox_of_pure_dioxygen_holds_nothing_else() {
    let mix = GasMixer::Nitrox { dioxygen: 1_000_000 }.make_gas_mix().ok().unwrap();
    assert_eq!(mix.parts(), (0, 790_000_000_000, 0, 790_000_000_000));
}

#[test]
fn nitrox_without_dioxygen_is_no_mixture() {
    let mix = GasMixer::Nitrox { dioxygen: 0 }.make_gas_mix();
    assert_eq!(mix.err(), Some(Error::GasMixError(GasMixError::NoOxygen)));
}

#[test]
fn trimix_passes_its_shares_through() {
    let mix = GasMixer::Trimix { dinitrogen: 450_000, dioxygen: 180_000, helium: 370_000 }
        .make_gas_mix()
        .ok()
        .unwrap();
    assert_eq!(mix.parts(), (450_000, 180_000, 370_000, 1_000_000));
}

#[test]
fn trimix_of_three_halves_is_invalid() {
    let mix = GasMixer::Trimix { dinitrogen: 500_000, dioxygen: 500_000, helium: 500_000 }
        .make_gas_mix();
    assert_eq!(mix.err(), Some(Error::GasMixError(GasMixError::InvalidProportions)));
}

#[test]
fn a_negative_share_is_refused() {
    let negative = Some(Error::GasMixerError(GasMixerError::NegativeProportion));
    assert_eq!(GasMixer::Heliox { dioxygen: -1 }.make_gas_mix().err(), negative);
    assert_eq!(GasMixer::Nitrox { dioxygen: -1 }.make_gas_mix().err(), negative);
    assert_eq!(
        GasMixer::Trimix { dinitrogen: -1, dioxygen: 210_000, helium: 790_001 }
            .make_gas_mix()
            .err(),
        negative
    );
    assert_eq!(
        GasMixer::Trimix { dinitrogen: 790_001, dioxygen: -1, helium: 210_000 }
            .make_gas_mix()
            .err(),
        negative
    );
    assert_eq!(
        GasMixer::Trimix { dinitrogen: 790_001, dioxygen: 210_000, helium: -1 }
            .make_gas_mix()
            .err(),
        negative
    );
}

#[test]
fn a_share_above_the_whole_is_refused() {
    let above = Some(Error::GasMixerError(GasMixerError::ProportionAboveMaximum));
    assert_eq!(GasMixer::Heliox { dioxygen: 1_000_001 }.make_gas_mix().err(), above);
    assert_eq!(GasMixer::Nitrox { dioxygen: 1_000_001 }.make_gas_mix().err(), above);
    assert_eq!(
        GasMixer::Trimix { dinitrogen: 1_000_001, dioxygen: 0, helium: 0 }.make_gas_mix().err(),
        above
    );
    assert_eq!(
        GasMixer::Trimix { dinitrogen: 0, dioxygen: 1_000_001, helium: 0 }.make_gas_mix().err(),
        above
    );
    assert_eq!(
        GasMixer::Trimix { dinitrogen: 0, dioxygen: 0, helium: 1_000_001 }.make_gas_mix().err(),
        above
    );
}

#[test]
fn the_first_share_out_of_range_decides() {
    assert_eq!(
        GasMixer::Trimix { dinitrogen: -1, dioxygen: 2_000_000, helium: 0 }.make_gas_mix().err(),
        Some(Error::GasMixerError(GasMixerError::NegativeProportion))
    );
    assert_eq!(
        GasMixer::Trimix { dinitrogen: 2_000_000, dioxygen: -1, helium: 0 }.make_gas_mix().err(),
        Some(Error::GasMixerError(GasMixerError::ProportionAboveMaximum))
    );
    assert_eq!(
        GasMixer::Trimix { dinitrogen: 0, dioxygen: 2_000_000, helium: -1 }.make_gas_mix().err(),
        Some(Error::GasMixerError(GasMixerError::ProportionAboveMaximum))
    );
}

#[test]
fn the_whole_and_nothing_are_in_range() {
    assert!(GasMixer::Heliox { dioxygen: 1_000_000 }.make_gas_mix().is_ok());
    assert!(GasMixer::Nitrox { dioxygen: 1_000_000 }.make_gas_mix().is_ok());
    assert!(GasMixer::Trimix { dinitrogen: 0, dioxygen: 1_000_000, helium: 0 }
        .make_gas_mix()
        .is_ok());
}

#[test]
fn heliox_of_the_extreme_shares_is_refused_for_its_range() {
    assert_eq!(
        GasMixer::Heliox { dioxygen: i64::MIN }.make_gas_mix().err(),
        Some(Error::GasMixerError(GasMixerError::NegativeProportion))
    );
    assert_eq!(
        GasMixer::Nitrox { dioxygen: i64::MAX }.make_gas_mix().err(),
        Some(Error::GasMixerError(GasMixerError::ProportionAboveMaximum))
    );
}
