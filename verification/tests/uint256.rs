use livepeer_monitor::uint256::Uint256;

#[test]
fn zero_is_zero() {
    assert!(Uint256::zero().is_zero());
    assert!(!Uint256::from_u64(1).is_zero());
    assert!(!Uint256::from_words([0, 0, 0, 1]).is_zero());
}

#[test]
fn words_round_trip() {
    let value = Uint256::from_words([1, 2, 3, 4]);
    assert_eq!(value.to_words(), [1, 2, 3, 4]);
    assert_eq!(Uint256::from_u64(7).to_words(), [7, 0, 0, 0]);
}

#[test]
fn equality_is_by_value() {
    assert!(Uint256::from_u64(5).equals(&Uint256::from_words([5, 0, 0, 0])));
    assert!(!Uint256::from_u64(5).equals(&Uint256::from_words([5, 0, 0, 1])));
}
