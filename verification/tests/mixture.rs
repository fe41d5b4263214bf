use dive_gas::gas_mix::new;
use dive_gas::gas_mix::GasMixError;
use dive_gas::Error;

#[test]
fn proportions_that_sum_to_one_make_a_mixture() {
    let mix = new(780_000, 210_000, 10_000, 1_000_000);
    assert!(mix.is_ok());
    assert_eq!(mix.unwrap().parts(), (780_000, 210_000, 10_000, 1_000_000));
}

#[test]
fn proportions_that_sum_to_a_half_are_invalid() {
    let mix = new(250_000, 250_000, 0, 1_000_000);
    assert_eq!(mix.err(), Some(Error::GasMixError(GasMixError::InvalidProportions)));
}

#[test]
fn a_mixture_without_dioxygen_is_refused() {
    let mix = new(500_000, 0, 500_000, 1_000_000);
    assert_eq!(mix.err(), Some(Error::GasMixError(GasMixError::NoOxygen)));
}

#[test]
fn the_sum_is_checked_before_the_dioxygen() {
    let mix = new(250_000, 0, 250_000, 1_000_000);
    assert_eq!(mix.err(), Some(Error::GasMixError(GasMixError::InvalidProportions)));
}

#[test]
fn the_sum_may_fall_short_by_two_hundredths() {
    assert!(new(770_000, 210_000, 0, 1_000_000).is_ok());
    assert_eq!(
        new(769_999, 210_000, 0, 1_000_000).err(),
        Some(Error::GasMixError(GasMixError::InvalidProportions))
    );
}

#[test]
fn the_sum_may_not_exceed_the_whole() {
    assert!(new(790_000, 210_000, 0, 1_000_000).is_ok());
    assert_eq!(
        new(790_000, 210_000, 1, 1_000_000).err(),
        Some(Error::GasMixError(GasMixError::InvalidProportions))
    );
}

#[test]
fn the_range_of_each_share_is_not_checked() {
    let mix = new(-500_000, 1_000_000, 500_000, 1_000_000);
    assert!(mix.is_ok());
    assert_eq!(mix.unwrap().parts(), (-500_000, 1_000_000, 500_000, 1_000_000));
}

#[test]
fn a_whole_of_nothing_makes_no_mixture() {
    assert_eq!(
        new(0, 0, 0, 0).err(),
        Some(Error::GasMixError(GasMixError::InvalidProportions))
    );
    assert_eq!(
        new(-78, -21, -1, -100).err(),
        Some(Error::GasMixError(GasMixError::InvalidProportions))
    );
}

#[test]
fn any_whole_counts_the_same_fractions() {
    assert!(new(78, 21, 1, 100).is_ok());
    assert!(new(39, 10, 0, 50).is_ok());
    assert_eq!(
        new(38, 10, 0, 50).err(),
        Some(Error::GasMixError(GasMixError::InvalidProportions))
    );
}

#[test]
fn the_largest_shares_do_not_overflow() {
    assert_eq!(
        new(i64::MAX, i64::MAX, i64::MAX, i64::MAX).err(),
        Some(Error::GasMixError(GasMixError::InvalidProportions))
    );
    assert_eq!(
        new(i64::MIN, i64::MIN, i64::MIN, i64::MAX).err(),
        Some(Error::GasMixError(GasMixError::InvalidProportions))
    );
    assert!(new(i64::MAX, i64::MIN, 1, i64::MAX).is_err());
    assert!(new(0, i64::MAX, 0, i64::MAX).is_ok());
}

#[test]
fn a_valid_mixture_sums_to_between_98_and_100_hundredths() {
    for (dinitrogen, dioxygen, helium, whole) in [
        (780_000_i64, 210_000_i64, 5_i64, 1_000_000_i64),
        (0, 320_000, 680_000, 1_000_000),
        (49, 49, 0, 100),
        (1, 1, 48, 50),
    ] {
        let mix = new(dinitrogen, dioxygen, helium, whole).ok().unwrap();
        let (dinitrogen, dioxygen, helium, whole) = mix.parts();
        let sum = dinitrogen as i128 + dioxygen as i128 + helium as i128;
        assert!(98 * (whole as i128) <= 100 * sum);
        assert!(sum <= whole as i128);
        assert_ne!(dioxygen, 0);
    }
}
