use livepeer_monitor::chain::{Address, CandidateTransaction, Hash256};
use livepeer_monitor::transaction_detector::{FetchStep, Source, TransactionDetector};
use livepeer_monitor::uint256::Uint256;

fn watched() -> Address {
    Address::from_bytes([0xAA; 20])
}

fn other(tag: u8) -> Address {
    Address::from_bytes([tag; 20])
}

fn transaction(tag: u8, from: Address, to: Option<Address>, value: u64) -> CandidateTransaction {
    CandidateTransaction {
        hash: Hash256::from_bytes([tag; 32]),
        from,
        to,
        value: Uint256::from_u64(value),
        gas: Uint256::from_u64(21000),
    }
}

#[test]
fn addresses_are_the_same_by_their_bytes() {
    let mut bytes = [0xAA; 20];
    assert!(watched().same_as(&Address::from_bytes(bytes)));
    bytes[19] = 0xAB;
    assert!(!watched().same_as(&Address::from_bytes(bytes)));
    let mut first = [0xAA; 20];
    first[0] = 0;
    assert!(!watched().same_as(&Address::from_bytes(first)));
}

#[test]
fn hashes_are_the_same_by_their_bytes() {
    let mut bytes = [7; 32];
    assert!(Hash256::from_bytes([7; 32]).same_as(&Hash256::from_bytes(bytes)));
    bytes[31] = 8;
    assert!(!Hash256::from_bytes([7; 32]).same_as(&Hash256::from_bytes(bytes)));
}

#[test]
fn block_without_a_matching_transaction() {
    let detector = TransactionDetector::new(watched());
    let block = vec![
        transaction(1, other(1), Some(other(2)), 10),
        transaction(2, other(3), None, 10),
    ];
    assert_eq!(detector.contains_reward_transaction(&block), None);
    assert_eq!(detector.contains_reward_transaction(&Vec::new()), None);
}

#[test]
fn first_matching_transaction_in_block_order() {
    let detector = TransactionDetector::new(watched());
    let block = vec![
        transaction(1, other(1), Some(other(2)), 10),
        transaction(2, other(3), Some(watched()), 0),
        transaction(3, watched(), Some(other(4)), 500),
    ];
    assert_eq!(detector.contains_reward_transaction(&block), Some(block[1]));
}

#[test]
fn transaction_sent_from_the_watched_address_matches() {
    let detector = TransactionDetector::new(watched());
    let block = vec![
        transaction(1, other(1), None, 10),
        transaction(2, watched(), None, 3),
    ];
    assert_eq!(detector.contains_reward_transaction(&block), Some(block[1]));
    assert!(detector.is_involved(&block[1]));
    assert!(!detector.is_involved(&block[0]));
}

#[test]
fn log_without_a_transaction_confirms_nothing() {
    let detector = TransactionDetector::new(watched());
    assert!(!detector.has_valid_transaction_been_made(&None));
}

#[test]
fn log_with_a_transaction_of_value_zero_confirms_nothing() {
    let detector = TransactionDetector::new(watched());
    let found = Some(transaction(1, other(1), Some(watched()), 0));
    assert!(!detector.has_valid_transaction_been_made(&found));
}

#[test]
fn log_with_a_transaction_of_value_confirms() {
    let detector = TransactionDetector::new(watched());
    let found = Some(transaction(1, other(1), Some(other(2)), 1));
    assert!(detector.has_valid_transaction_been_made(&found));
    let high = CandidateTransaction {
        hash: Hash256::from_bytes([9; 32]),
        from: other(1),
        to: None,
        value: Uint256::from_words([0, 0, 0, 1]),
        gas: Uint256::zero(),
    };
    assert!(detector.has_valid_transaction_been_made(&Some(high)));
}

#[test]
fn correlate_takes_the_log_transaction_or_scans_the_block() {
    let detector = TransactionDetector::new(watched());
    let found = transaction(1, other(1), Some(other(2)), 1);
    assert_eq!(detector.correlate(&Source::Log(Some(found))), Some(found));
    assert_eq!(detector.correlate(&Source::Log(None)), None);
    let block = vec![transaction(1, other(1), None, 10), transaction(2, other(2), Some(watched()), 5)];
    assert_eq!(detector.correlate(&Source::Block(block.clone())), Some(block[1]));
}

#[test]
fn block_content_is_asked_for_five_times() {
    let detector = TransactionDetector::new(watched());
    for attempt in 1..5u8 {
        assert_eq!(detector.tries_to_get_transaction(attempt, None), FetchStep::Retry);
    }
    assert_eq!(detector.tries_to_get_transaction(5, None), FetchStep::GiveUp);
    let block = vec![transaction(1, other(1), None, 10)];
    assert_eq!(
        detector.tries_to_get_transaction(5, Some(block.clone())),
        FetchStep::Content(block)
    );
}

#[test]
fn detector_keeps_its_address() {
    assert_eq!(TransactionDetector::new(watched()).address(), watched());
}
