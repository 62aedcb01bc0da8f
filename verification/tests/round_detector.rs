use livepeer_monitor::chain::ChainReading;
use livepeer_monitor::error::WatchError;
use livepeer_monitor::round_detector::{RoundChange, RoundDetector, RoundSignal};
use livepeer_monitor::uint256::Uint256;

fn number(value: u64) -> Uint256 {
    Uint256::from_u64(value)
}

fn reading(current_round: u64, start_block: u64, round_length: u64) -> ChainReading {
    ChainReading {
        current_round: number(current_round),
        start_block: number(start_block),
        round_length: number(round_length),
    }
}

/// Round 5 from block 0 to block 100, with a window of 50 blocks.
fn round_five() -> RoundDetector {
    RoundDetector::from_contract(reading(5, 0, 100), number(50)).unwrap()
}

#[test]
fn from_contract_computes_both_boundaries() {
    let detector = RoundDetector::from_contract(reading(7, 1000, 5760), number(50)).unwrap();
    assert_eq!(detector.get_current_round(), number(7));
    assert_eq!(detector.round_end_block(), number(6760));
    assert_eq!(detector.security_window_end_block(), number(1050));
}

#[test]
fn from_contract_refuses_boundaries_beyond_256_bits() {
    let largest = Uint256::from_words([u64::MAX; 4]);
    let answers = ChainReading {
        current_round: number(1),
        start_block: largest,
        round_length: number(1),
    };
    assert_eq!(
        RoundDetector::from_contract(answers, number(0)).err(),
        Some(WatchError::ChainQueryError)
    );
    let fits = ChainReading { current_round: number(1), start_block: largest, round_length: number(0) };
    assert_eq!(
        RoundDetector::from_contract(fits, number(1)).err(),
        Some(WatchError::ChainQueryError)
    );
    assert!(RoundDetector::from_contract(fits, number(0)).is_ok());
}

#[test]
fn block_before_the_round_end_gives_no_signal() {
    let mut detector = round_five();
    assert_eq!(
        detector.observe_block(number(99), &reading(6, 100, 100)),
        Ok(RoundSignal::Quiet)
    );
    assert_eq!(detector.get_current_round(), number(5));
    assert_eq!(detector.round_end_block(), number(100));
}

#[test]
fn round_starts_when_the_counter_is_ahead_by_one() {
    let mut detector = round_five();
    assert_eq!(
        detector.observe_block(number(100), &reading(6, 100, 100)),
        Ok(RoundSignal::RoundStarted)
    );
    assert_eq!(detector.get_current_round(), number(6));
    assert_eq!(detector.round_end_block(), number(200));
    assert_eq!(detector.security_window_end_block(), number(150));
}

#[test]
fn round_unchanged_at_the_boundary_gives_no_signal() {
    let mut detector = round_five();
    assert_eq!(
        detector.observe_block(number(100), &reading(5, 0, 100)),
        Ok(RoundSignal::Quiet)
    );
    assert_eq!(
        detector.observe_block(number(101), &reading(4, 0, 100)),
        Ok(RoundSignal::Quiet)
    );
    assert_eq!(detector.get_current_round(), number(5));
    assert_eq!(detector.round_end_block(), number(100));
}

#[test]
fn round_started_does_not_fire_twice_for_one_block() {
    let mut detector = round_five();
    let answers = reading(6, 100, 100);
    assert_eq!(detector.observe_block(number(100), &answers), Ok(RoundSignal::RoundStarted));
    assert_eq!(detector.observe_block(number(100), &answers), Ok(RoundSignal::Quiet));
    assert_eq!(detector.observe_block(number(200), &answers), Ok(RoundSignal::Quiet));
    assert_eq!(detector.get_current_round(), number(6));
}

#[test]
fn round_grows_by_one_for_each_round_started() {
    let mut detector = round_five();
    let mut started: u64 = 0;
    let mut last_round: u64 = 5;
    for block in 90..400u64 {
        let chain_round = 5 + block / 100;
        let start = (block / 100) * 100;
        let signal = detector.observe_block(number(block), &reading(chain_round, start, 100));
        if signal == Ok(RoundSignal::RoundStarted) {
            started += 1;
        }
        let round = detector.get_current_round();
        assert!(round == number(last_round) || round == number(last_round + 1));
        assert_eq!(round == number(last_round + 1), signal == Ok(RoundSignal::RoundStarted));
        if round != number(last_round) {
            last_round += 1;
        }
    }
    assert_eq!(started, 3);
    assert_eq!(detector.get_current_round(), number(8));
}

#[test]
fn skipped_round_is_an_error() {
    let mut detector = round_five();
    assert_eq!(
        detector.observe_block(number(100), &reading(7, 200, 100)),
        Err(WatchError::SkippedRoundError)
    );
    assert_eq!(detector.get_current_round(), number(5));
    assert_eq!(detector.round_end_block(), number(100));
    assert_eq!(detector.security_window_end_block(), number(50));
}

#[test]
fn skipped_round_is_not_looked_for_before_the_boundary() {
    let mut detector = round_five();
    assert_eq!(
        detector.observe_block(number(99), &reading(7, 200, 100)),
        Ok(RoundSignal::Quiet)
    );
}

#[test]
fn security_window_fires_on_the_exact_block_only() {
    let mut detector = round_five();
    let answers = reading(6, 100, 100);
    assert_eq!(detector.observe_block(number(100), &answers), Ok(RoundSignal::RoundStarted));
    assert_eq!(detector.observe_block(number(149), &answers), Ok(RoundSignal::Quiet));
    assert_eq!(
        detector.observe_block(number(150), &answers),
        Ok(RoundSignal::SecurityWindowReached)
    );
    assert_eq!(detector.observe_block(number(151), &answers), Ok(RoundSignal::Quiet));
    assert!(detector.reached_security_window(number(150)));
    assert!(!detector.reached_security_window(number(149)));
    assert!(!detector.reached_security_window(number(151)));
}

#[test]
fn security_window_past_the_round_end_is_not_signalled() {
    // A window of 150 blocks in a round of 100: its end lies in the next round.
    let mut detector = RoundDetector::from_contract(reading(5, 0, 100), number(150)).unwrap();
    assert!(detector.reached_security_window(number(150)));
    assert_eq!(
        detector.observe_block(number(150), &reading(5, 0, 100)),
        Ok(RoundSignal::Quiet)
    );
}

#[test]
fn new_round_with_boundaries_beyond_256_bits_is_a_query_error() {
    let mut detector = round_five();
    let answers = ChainReading {
        current_round: number(6),
        start_block: Uint256::from_words([u64::MAX; 4]),
        round_length: number(100),
    };
    assert_eq!(
        detector.observe_block(number(100), &answers),
        Err(WatchError::ChainQueryError)
    );
    assert_eq!(detector.get_current_round(), number(5));
}

#[test]
fn has_new_round_started_says_whether_the_round_moved() {
    let mut detector = round_five();
    assert_eq!(detector.has_new_round_started(number(99), &reading(6, 100, 100)), Ok(false));
    assert_eq!(detector.has_new_round_started(number(100), &reading(5, 0, 100)), Ok(false));
    assert_eq!(detector.has_new_round_started(number(100), &reading(6, 100, 100)), Ok(true));
    assert_eq!(detector.has_new_round_started(number(100), &reading(6, 100, 100)), Ok(false));
    assert_eq!(
        detector.has_new_round_started(number(200), &reading(8, 300, 100)),
        Err(WatchError::SkippedRoundError)
    );
    assert_eq!(detector.get_current_round(), number(6));
}

#[test]
fn round_change_compares_with_the_next_round() {
    let detector = round_five();
    assert_eq!(detector.round_change(number(4)), RoundChange::Unchanged);
    assert_eq!(detector.round_change(number(5)), RoundChange::Unchanged);
    assert_eq!(detector.round_change(number(6)), RoundChange::Advanced);
    assert_eq!(detector.round_change(number(7)), RoundChange::Skipped);
    assert_eq!(
        detector.round_change(Uint256::from_words([0, 0, 0, 1])),
        RoundChange::Skipped
    );
}

#[test]
fn round_change_at_the_largest_round_is_unchanged() {
    let largest = Uint256::from_words([u64::MAX; 4]);
    let answers = ChainReading {
        current_round: largest,
        start_block: number(0),
        round_length: number(100),
    };
    let detector = RoundDetector::from_contract(answers, number(50)).unwrap();
    assert_eq!(detector.round_change(largest), RoundChange::Unchanged);
    assert_eq!(detector.round_change(number(0)), RoundChange::Unchanged);
}

#[test]
fn round_end_reached_from_the_boundary_on() {
    let detector = round_five();
    assert!(!detector.round_end_reached(number(99)));
    assert!(detector.round_end_reached(number(100)));
    assert!(detector.round_end_reached(Uint256::from_words([0, 1, 0, 0])));
}

#[test]
fn initialize_needs_every_answer() {
    let window = number(50);
    let made = RoundDetector::initialize(Some(number(5)), Some(number(0)), Some(number(100)), window)
        .unwrap();
    assert_eq!(made.get_current_round(), number(5));
    assert_eq!(made.round_end_block(), number(100));
    assert_eq!(made.security_window_end_block(), number(50));
    assert_eq!(
        RoundDetector::initialize(None, Some(number(0)), Some(number(100)), window).err(),
        Some(WatchError::ChainQueryError)
    );
    assert_eq!(
        RoundDetector::initialize(Some(number(5)), None, Some(number(100)), window).err(),
        Some(WatchError::ChainQueryError)
    );
    assert_eq!(
        RoundDetector::initialize(Some(number(5)), Some(number(0)), None, window).err(),
        Some(WatchError::ChainQueryError)
    );
    assert_eq!(
        RoundDetector::initialize(
            Some(number(5)),
            Some(Uint256::from_words([u64::MAX; 4])),
            Some(number(1)),
            window
        )
        .err(),
        Some(WatchError::ChainQueryError)
    );
}

#[test]
fn boundaries_carry_into_the_next_word() {
    let answers = ChainReading {
        current_round: number(1),
        start_block: number(u64::MAX),
        round_length: number(1),
    };
    let detector = RoundDetector::from_contract(answers, number(2)).unwrap();
    assert_eq!(detector.round_end_block(), Uint256::from_words([0, 1, 0, 0]));
    assert_eq!(detector.security_window_end_block(), Uint256::from_words([1, 1, 0, 0]));
}

#[test]
fn largest_boundary_that_fits() {
    let largest = Uint256::from_words([u64::MAX; 4]);
    let answers = ChainReading {
        current_round: number(1),
        start_block: Uint256::from_words([u64::MAX - 1, u64::MAX, u64::MAX, u64::MAX]),
        round_length: number(1),
    };
    let detector = RoundDetector::from_contract(answers, number(0)).unwrap();
    assert_eq!(detector.round_end_block(), largest);
    assert!(detector.round_end_reached(largest));
    assert!(!detector.round_end_reached(answers.start_block));
}

#[test]
fn round_end_is_compared_from_the_most_significant_word() {
    // The round ends at 2^64; a block number with a larger low word and no
    // high word is still before it.
    let answers = ChainReading {
        current_round: number(1),
        start_block: Uint256::from_words([0, 1, 0, 0]),
        round_length: number(0),
    };
    let detector = RoundDetector::from_contract(answers, number(0)).unwrap();
    assert!(!detector.round_end_reached(number(u64::MAX)));
    assert!(detector.round_end_reached(Uint256::from_words([0, 1, 0, 0])));
    assert!(detector.round_end_reached(Uint256::from_words([0, 0, 1, 0])));
    assert!(detector.round_end_reached(Uint256::from_words([0, 0, 0, 1])));
    assert!(!detector.round_end_reached(Uint256::zero()));
}
