use livepeer_monitor::amount::convert_amount;
use livepeer_monitor::uint256::Uint256;

#[test]
fn amount_below_one_token_is_zero_padded() {
    assert_eq!(convert_amount(Uint256::from_u64(5), 3), "0.005");
}

#[test]
fn amount_with_eighteen_decimals() {
    assert_eq!(convert_amount(Uint256::from_u64(500), 18), "0.000000000000000500");
}

#[test]
fn amount_with_whole_part() {
    assert_eq!(convert_amount(Uint256::from_u64(1234567), 3), "1234.567");
}

#[test]
fn amount_with_as_many_digits_as_decimals() {
    assert_eq!(convert_amount(Uint256::from_u64(123), 3), "0.123");
}

#[test]
fn amount_without_decimals_ends_with_the_point() {
    assert_eq!(convert_amount(Uint256::from_u64(500), 0), "500.");
}

#[test]
fn amount_zero() {
    assert_eq!(convert_amount(Uint256::zero(), 0), "0.");
    assert_eq!(convert_amount(Uint256::zero(), 2), "0.00");
}

#[test]
fn decimal_digits_of_a_value_above_64_bits() {
    // 2^64 = 18446744073709551616
    let value = Uint256::from_words([0, 1, 0, 0]);
    assert_eq!(convert_amount(value, 0), "18446744073709551616.");
    assert_eq!(convert_amount(value, 18), "18.446744073709551616");
}
