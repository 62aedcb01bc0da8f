//! The alert policy: one flag says whether the reward of the current round
//! was confirmed, and the round's signals decide when its absence is
//! reported.

use crate::amount::{amount_text, decimal_digits, digit_char, u256_to_decimal};
use crate::chain::{Address, CandidateTransaction, Hash256, TransactionView};
use crate::round_detector::RoundSignal;
use crate::transaction_detector::qualifies;
use crate::uint256::Uint256;
use vstd::prelude::*;
use vstd::string::*;

verus! {

/// The character of a hexadecimal digit, in lower case.
pub open spec fn hex_digit_char(d: nat) -> char
    recommends
        d < 16,
{
    if d < 10 {
        digit_char(d)
    } else if d == 10 {
        'a'
    } else if d == 11 {
        'b'
    } else if d == 12 {
        'c'
    } else if d == 13 {
        'd'
    } else if d == 14 {
        'e'
    } else {
        'f'
    }
}

/// The bytes in hexadecimal, two lower-case digits for each byte.
pub open spec fn hex_text(bytes: Seq<u8>) -> Seq<char>
    decreases bytes.len(),
{
    if bytes.len() == 0 {
        Seq::empty()
    } else {
        hex_text(bytes.drop_last()) + seq![
            hex_digit_char((bytes.last() / 16) as nat),
            hex_digit_char((bytes.last() % 16) as nat),
        ]
    }
}

/// An address in short: `0x`, its first two bytes in hexadecimal, an
/// ellipsis, and its last two bytes.
pub open spec fn short_address_text(address: Seq<u8>) -> Seq<char>
    recommends
        address.len() >= 2,
{
    seq!['0', 'x'] + hex_text(address.subrange(0, 2)) + seq!['\u{2026}'] + hex_text(
        address.subrange(address.len() - 2, address.len() as int),
    )
}

/// A hash in full: `0x` and all its bytes in hexadecimal.
pub open spec fn full_hash_text(hash: Seq<u8>) -> Seq<char> {
    seq!['0', 'x'] + hex_text(hash)
}

/// The text that `web3::types::H160` gives for the address through
/// `Display`: `0x`, the first two bytes as two lower-case hexadecimal digits
/// each, the character U+2026, and the last two bytes in the same way.
#[verifier::external_body]
fn h160_to_text(address: Address) -> (text: String)
    ensures
        text@ == short_address_text(address@),
{
    format!("{}", web3::types::H160(address.bytes))
}

/// The text that `web3::types::H256` gives for the hash through `{:#x}`:
/// `0x` and then every byte, first byte first, as two lower-case
/// hexadecimal digits.
#[verifier::external_body]
fn h256_to_hex(hash: Hash256) -> (text: String)
    ensures
        text@ == full_hash_text(hash@),
{
    format!("{:#x}", web3::types::H256(hash.bytes))
}

/// A message for the operator, as the contracts see it.
pub enum AlertView {
    MissedRewardCall { round: nat },
    TransactionDue { round: nat },
    RewardConfirmed {
        round: nat,
        recipient: Seq<u8>,
        transaction: Seq<u8>,
        amount: Seq<char>,
        total_stake: Seq<char>,
    },
}

/// A message for the operator.
#[derive(Clone, Debug, PartialEq, Eq)]
pub enum Alert {
    /// A round ended without its reward transaction.
    MissedRewardCall {
        /// The round that ended.
        round: Uint256,
    },
    /// The security window of a round ended and its reward transaction is
    /// still to be made.
    TransactionDue {
        /// The round that is running.
        round: Uint256,
    },
    /// The reward of a round was claimed.
    RewardConfirmed {
        /// The round that is running.
        round: Uint256,
        /// The address that received the reward.
        recipient: Address,
        /// The hash of the transaction that claimed it.
        transaction: Hash256,
        /// The tokens received, as text.
        amount: String,
        /// The recipient's total stake, as text.
        total_stake: String,
    },
}

impl View for Alert {
    type V = AlertView;

    open spec fn view(&self) -> AlertView {
        match *self {
            Alert::MissedRewardCall { round } => AlertView::MissedRewardCall { round: round@ },
            Alert::TransactionDue { round } => AlertView::TransactionDue { round: round@ },
            Alert::RewardConfirmed { round, recipient, transaction, amount, total_stake } => {
                AlertView::RewardConfirmed {
                    round: round@,
                    recipient: recipient@,
                    transaction: transaction@,
                    amount: amount@,
                    total_stake: total_stake@,
                }
            },
        }
    }
}

/// The view of an optional alert.
pub open spec fn optional_alert_view(alert: Option<Alert>) -> Option<AlertView> {
    match alert {
        Some(a) => Some(a@),
        None => None,
    }
}

/// The flag and the alert after a round signal. A new round always starts
/// with the flag down, and reports the round that ended where the flag was
/// down already. The end of the security window reports the running round
/// where the flag is down, and leaves the flag alone.
pub open spec fn after_signal(
    done: bool,
    signal: RoundSignal,
    finished_round: nat,
    current_round: nat,
) -> (bool, Option<AlertView>) {
    match signal {
        RoundSignal::RoundStarted => (
            false,
            if done {
                None
            } else {
                Some(AlertView::MissedRewardCall { round: finished_round })
            },
        ),
        RoundSignal::SecurityWindowReached => (
            done,
            if done {
                None
            } else {
                Some(AlertView::TransactionDue { round: current_round })
            },
        ),
        RoundSignal::Quiet => (done, None),
    }
}

/// The flag after a transaction of the watched address was observed: up
/// where the transaction qualifies, and as it was where it does not.
pub open spec fn after_transaction(done: bool, transaction: TransactionView) -> bool {
    done || qualifies(transaction)
}

/// The report of a claimed reward, amounts rendered with `decimals`
/// decimals.
pub open spec fn confirmation(
    round: nat,
    recipient: Seq<u8>,
    transaction: TransactionView,
    total_stake: nat,
    decimals: nat,
) -> AlertView {
    AlertView::RewardConfirmed {
        round,
        recipient,
        transaction: transaction.hash,
        amount: amount_text(transaction.value, decimals),
        total_stake: amount_text(total_stake, decimals),
    }
}

/// The texts of a list of strings.
pub open spec fn texts(lines: Seq<String>) -> Seq<Seq<char>> {
    Seq::new(lines.len(), |i: int| lines[i]@)
}

/// The lines that tell the operator of an alert. Each is delivered on its
/// own.
pub open spec fn alert_lines(alert: AlertView) -> Seq<Seq<char>> {
    match alert {
        AlertView::MissedRewardCall { round } => seq![
            "Missed reward call for round "@ + decimal_digits(round) + "!!"@,
        ],
        AlertView::TransactionDue { round } => seq![
            "Transaction has to be done for round "@ + decimal_digits(round) + "!"@,
        ],
        AlertView::RewardConfirmed { round, recipient, transaction, amount, total_stake } => seq![
            "Rewards claimed for round "@ + decimal_digits(round) + " -> Transcoder "@
                + short_address_text(recipient) + " received "@ + amount
                + " LPT for a total stake of "@ + total_stake + " LPT."@,
            "https://etherscan.io/tx/"@ + full_hash_text(transaction),
        ],
    }
}

impl Alert {
    /// The lines that tell the operator of this alert.
    pub fn lines(&self) -> (lines: Vec<String>)
        ensures
            texts(lines@) == alert_lines(self@),
    {
        let mut lines: Vec<String> = Vec::new();
        match self {
            Alert::MissedRewardCall { round } => {
                let mut line = String::from_str("Missed reward call for round ");
                line.append(u256_to_decimal(*round).as_str());
                line.append("!!");
                lines.push(line);
            },
            Alert::TransactionDue { round } => {
                let mut line = String::from_str("Transaction has to be done for round ");
                line.append(u256_to_decimal(*round).as_str());
                line.append("!");
                lines.push(line);
            },
            Alert::RewardConfirmed { round, recipient, transaction, amount, total_stake } => {
                let mut line = String::from_str("Rewards claimed for round ");
                line.append(u256_to_decimal(*round).as_str());
                line.append(" -> Transcoder ");
                line.append(h160_to_text(*recipient).as_str());
                line.append(" received ");
                line.append(amount.as_str());
                line.append(" LPT for a total stake of ");
                line.append(total_stake.as_str());
                line.append(" LPT.");
                lines.push(line);
                let mut link = String::from_str("https://etherscan.io/tx/");
                link.append(h256_to_hex(*transaction).as_str());
                lines.push(link);
            },
        }
        assert(texts(lines@) =~= alert_lines(self@));
        lines
    }
}

/// Whether the reward transaction of the current round was made.
#[derive(Clone, Copy, Debug, PartialEq, Eq)]
pub struct RewardStatus {
    current_round_transaction_done: bool,
}

impl View for RewardStatus {
    type V = bool;

    /// Whether the flag is up.
    closed spec fn view(&self) -> bool {
        self.current_round_transaction_done
    }
}

impl RewardStatus {
    /// The status with the flag as given.
    pub fn new(current_round_transaction_done: bool) -> (status: RewardStatus)
        ensures
            status@ == current_round_transaction_done,
    {
        RewardStatus { current_round_transaction_done }
    }

    /// Whether the reward transaction of the current round was made.
    pub fn is_done(&self) -> (done: bool)
        ensures
            done == self@,
    {
        self.current_round_transaction_done
    }

    /// A new round started after `finished_round`: reports that round as
    /// missed where the flag was down, and puts the flag down.
    pub fn round_started(&mut self, finished_round: Uint256) -> (alert: Option<Alert>)
        ensures
            !final(self)@,
            (final(self)@, optional_alert_view(alert)) == after_signal(
                old(self)@,
                RoundSignal::RoundStarted,
                finished_round@,
                finished_round@ + 1,
            ),
    {
        let alert = if self.current_round_transaction_done {
            None
        } else {
            Some(Alert::MissedRewardCall { round: finished_round })
        };
        self.current_round_transaction_done = false;
        alert
    }

    /// The security window of `current_round` ended: reports the transaction
    /// as due where the flag is down. The flag stays as it is.
    pub fn security_window_reached(&self, current_round: Uint256) -> (alert: Option<Alert>)
        ensures
            (self@, optional_alert_view(alert)) == after_signal(
                self@,
                RoundSignal::SecurityWindowReached,
                current_round@,
                current_round@,
            ),
    {
        if self.current_round_transaction_done {
            None
        } else {
            Some(Alert::TransactionDue { round: current_round })
        }
    }

    /// Applies a round signal: `finished_round` is the round before the
    /// signal and `current_round` the round after it.
    pub fn on_round_signal(
        &mut self,
        signal: RoundSignal,
        finished_round: Uint256,
        current_round: Uint256,
    ) -> (alert: Option<Alert>)
        ensures
            (final(self)@, optional_alert_view(alert)) == after_signal(
                old(self)@,
                signal,
                finished_round@,
                current_round@,
            ),
    {
        match signal {
            RoundSignal::RoundStarted => self.round_started(finished_round),
            RoundSignal::SecurityWindowReached => self.security_window_reached(current_round),
            RoundSignal::Quiet => None,
        }
    }

    /// A transaction of the watched address was observed: puts the flag up
    /// where the transaction carries a value other than zero, and says
    /// whether it does.
    pub fn transaction_observed(&mut self, transaction: &CandidateTransaction) -> (confirmed: bool)
        ensures
            confirmed == qualifies(transaction@),
            final(self)@ == after_transaction(old(self)@, transaction@),
    {
        if transaction.value.is_zero() {
            false
        } else {
            self.current_round_transaction_done = true;
            true
        }
    }
}

/// A transaction that qualifies puts the flag up; one of value zero leaves
/// the flag as it was.
pub proof fn law_flag_follows_value(done: bool, transaction: TransactionView)
    ensures
        transaction.value != 0 ==> after_transaction(done, transaction),
        transaction.value == 0 ==> after_transaction(done, transaction) == done,
{
}

/// A new round puts the flag down, whatever it was.
pub proof fn law_round_start_resets_flag(done: bool, finished_round: nat, current_round: nat)
    ensures
        !after_signal(done, RoundSignal::RoundStarted, finished_round, current_round).0,
{
}

/// No round signal puts the flag up: only a transaction can.
pub proof fn law_signals_never_confirm(
    done: bool,
    signal: RoundSignal,
    finished_round: nat,
    current_round: nat,
)
    ensures
        after_signal(done, signal, finished_round, current_round).0 ==> done,
{
}

} // verus!
