use instapump::{compute_share, ProgramError, BASIS_POINTS};

#[test]
fn the_whole_is_ten_thousand_basis_points() {
    assert_eq!(BASIS_POINTS, 10_000);
}

#[test]
fn share_at_one_percent() {
    assert_eq!(compute_share(14_662_756, 100), Ok(146_627));
}

#[test]
fn share_at_half_a_percent() {
    assert_eq!(compute_share(14_662_756, 50), Ok(73_313));
}

#[test]
fn share_rounds_down() {
    assert_eq!(compute_share(9_999, 1), Ok(0));
    assert_eq!(compute_share(10_000, 1), Ok(1));
    assert_eq!(compute_share(19_999, 1), Ok(1));
    assert_eq!(compute_share(3, 3_333), Ok(0));
    assert_eq!(compute_share(3, 3_334), Ok(1));
}

#[test]
fn share_at_no_rate_is_nothing() {
    assert_eq!(compute_share(14_662_756, 0), Ok(0));
    assert_eq!(compute_share(u64::MAX, 0), Ok(0));
}

#[test]
fn share_of_nothing_is_nothing() {
    assert_eq!(compute_share(0, 10_000), Ok(0));
    assert_eq!(compute_share(0, u16::MAX), Ok(0));
}

#[test]
fn share_at_the_whole_rate_is_the_amount() {
    assert_eq!(compute_share(14_662_756, 10_000), Ok(14_662_756));
    assert_eq!(compute_share(1, 10_000), Ok(1));
}

#[test]
fn share_above_the_whole_rate_is_more_than_the_amount() {
    assert_eq!(compute_share(1_000, 20_000), Ok(2_000));
    assert_eq!(compute_share(1_000, u16::MAX), Ok(6_553));
}

#[test]
fn share_whose_product_leaves_the_domain_is_refused() {
    assert_eq!(compute_share(u64::MAX, 2), Err(ProgramError::ArithmeticOverflow));
    assert_eq!(compute_share(u64::MAX / 2 + 1, 2), Err(ProgramError::ArithmeticOverflow));
    assert_eq!(compute_share(u64::MAX, 10_000), Err(ProgramError::ArithmeticOverflow));
}

#[test]
fn share_whose_product_just_fits_is_given() {
    assert_eq!(compute_share(u64::MAX, 1), Ok(1_844_674_407_370_955));
    assert_eq!(compute_share(u64::MAX / 2, 2), Ok(1_844_674_407_370_955));
    assert_eq!(compute_share(u64::MAX / 10_000, 10_000), Ok(u64::MAX / 10_000));
}
