use bidding_platform::commission::commission;

#[test]
fn commission_of_ten_atom_at_default_rate() {
    assert_eq!(commission(10_000_000, 1000), (10_000, 9_990_000));
}

#[test]
fn commission_rounds_down() {
    assert_eq!(commission(999, 1000), (0, 999));
    assert_eq!(commission(1_999, 1000), (1, 1_998));
}

#[test]
fn commission_at_zero_and_full_rate() {
    assert_eq!(commission(5_000, 0), (0, 5_000));
    assert_eq!(commission(5_000, 1_000_000), (5_000, 0));
}

#[test]
fn commission_on_largest_amount_does_not_overflow() {
    assert_eq!(commission(u128::MAX, 1_000_000), (u128::MAX, 0));
    assert_eq!(
        commission(u128::MAX, 500_000),
        (u128::MAX / 2, u128::MAX - u128::MAX / 2)
    );
}
