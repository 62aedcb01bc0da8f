use livepeer_monitor::alert::{Alert, RewardStatus};
use livepeer_monitor::chain::{Address, CandidateTransaction, Hash256};
use livepeer_monitor::round_detector::RoundSignal;
use livepeer_monitor::uint256::Uint256;

fn number(value: u64) -> Uint256 {
    Uint256::from_u64(value)
}

fn transaction(value: u64) -> CandidateTransaction {
    CandidateTransaction {
        hash: Hash256::from_bytes([1; 32]),
        from: Address::from_bytes([2; 20]),
        to: Some(Address::from_bytes([0xAA; 20])),
        value: number(value),
        gas: number(21000),
    }
}

#[test]
fn round_start_reports_a_missed_call_when_the_flag_is_down() {
    let mut status = RewardStatus::new(false);
    assert_eq!(
        status.round_started(number(5)),
        Some(Alert::MissedRewardCall { round: number(5) })
    );
    assert!(!status.is_done());
}

#[test]
fn round_start_resets_the_flag() {
    let mut status = RewardStatus::new(true);
    assert_eq!(status.round_started(number(5)), None);
    assert!(!status.is_done());
}

#[test]
fn security_window_reports_a_due_transaction_when_the_flag_is_down() {
    let status = RewardStatus::new(false);
    assert_eq!(
        status.security_window_reached(number(6)),
        Some(Alert::TransactionDue { round: number(6) })
    );
    assert!(!status.is_done());
    let done = RewardStatus::new(true);
    assert_eq!(done.security_window_reached(number(6)), None);
    assert!(done.is_done());
}

#[test]
fn transaction_with_value_puts_the_flag_up() {
    let mut status = RewardStatus::new(false);
    assert!(status.transaction_observed(&transaction(500)));
    assert!(status.is_done());
}

#[test]
fn transaction_of_value_zero_leaves_the_flag() {
    let mut status = RewardStatus::new(false);
    assert!(!status.transaction_observed(&transaction(0)));
    assert!(!status.is_done());
    let mut done = RewardStatus::new(true);
    assert!(!done.transaction_observed(&transaction(0)));
    assert!(done.is_done());
}

#[test]
fn signals_are_dispatched_to_the_policy() {
    let mut status = RewardStatus::new(false);
    assert_eq!(status.on_round_signal(RoundSignal::Quiet, number(5), number(5)), None);
    assert_eq!(
        status.on_round_signal(RoundSignal::SecurityWindowReached, number(5), number(5)),
        Some(Alert::TransactionDue { round: number(5) })
    );
    assert_eq!(
        status.on_round_signal(RoundSignal::RoundStarted, number(5), number(6)),
        Some(Alert::MissedRewardCall { round: number(5) })
    );
    assert!(status.transaction_observed(&transaction(1)));
    assert_eq!(status.on_round_signal(RoundSignal::Quiet, number(6), number(6)), None);
    assert!(status.is_done());
    assert_eq!(
        status.on_round_signal(RoundSignal::SecurityWindowReached, number(6), number(6)),
        None
    );
    assert!(status.is_done());
    assert_eq!(status.on_round_signal(RoundSignal::RoundStarted, number(6), number(7)), None);
    assert!(!status.is_done());
}

#[test]
fn missed_call_is_told_in_one_line() {
    let alert = Alert::MissedRewardCall { round: number(5) };
    assert_eq!(alert.lines(), vec!["Missed reward call for round 5!!".to_string()]);
}

#[test]
fn due_transaction_is_told_in_one_line() {
    let alert = Alert::TransactionDue { round: number(6) };
    assert_eq!(alert.lines(), vec!["Transaction has to be done for round 6!".to_string()]);
}

#[test]
fn confirmation_is_told_with_its_link() {
    let mut recipient = [0u8; 20];
    recipient[0] = 0x01;
    recipient[1] = 0xaB;
    recipient[18] = 0xcd;
    recipient[19] = 0x0f;
    let mut hash = [0u8; 32];
    hash[0] = 0xfe;
    hash[31] = 0x07;
    let alert = Alert::RewardConfirmed {
        round: number(6),
        recipient: Address::from_bytes(recipient),
        transaction: Hash256::from_bytes(hash),
        amount: "0.500".to_string(),
        total_stake: "1234.567".to_string(),
    };
    assert_eq!(
        alert.lines(),
        vec![
            "Rewards claimed for round 6 -> Transcoder 0x01ab\u{2026}cd0f received 0.500 LPT for a total stake of 1234.567 LPT."
                .to_string(),
            "https://etherscan.io/tx/0xfe00000000000000000000000000000000000000000000000000000000000007"
                .to_string(),
        ]
    );
}
