//! The orchestrator: one state machine that takes the events of both streams
//! and the chain's answers, one at a time, and says after each what to
//! report and what to ask the chain next.
//!
//! The machine does no input or output itself. Whoever runs it performs the
//! action it returns and hands back the answer as an event.
//!
//! Each stream has a lane of its own. An event of a stream opens an exchange
//! with the chain in the stream's lane, and the next event of that stream is
//! handed in when the exchange is over: when the machine answered `Await` in
//! that lane. The two lanes do not wait for each other. While the chain's
//! answer in one lane is outstanding, the other lane takes its events and
//! answers, in whatever order they become ready. The machine itself handles
//! one event at a time, so the round and the flag have one owner.

use crate::alert::{
    after_signal, after_transaction, confirmation, optional_alert_view, Alert, AlertView,
    RewardStatus,
};
use crate::amount::convert_amount;
use crate::chain::{
    optional_hash_view, transaction_views, Address, BlockObservation, BlockView,
    CandidateTransaction, ChainReading, Hash256, ReadingView, TransactionView,
};
use crate::error::WatchError;
use crate::round_detector::{RoundChange, RoundDetector, RoundSignal, RoundView};
use crate::transaction_detector::{
    first_involving, lemma_first_involving, qualifies, FetchStep, TransactionDetector,
    FETCH_ATTEMPTS,
};
use crate::uint256::Uint256;
use vstd::prelude::*;

verus! {

/// One of the two streams, and the exchanges with the chain that its events
/// open.
#[derive(Clone, Copy, Debug, PartialEq, Eq, Structural)]
pub enum Lane {
    /// The stream of new block headers.
    Blocks,
    /// The stream of the reward's log entries.
    Rewards,
}

/// The view of a transaction that may be missing.
pub open spec fn optional_transaction_view(found: Option<CandidateTransaction>) -> Option<
    TransactionView,
> {
    match found {
        Some(transaction) => Some(transaction@),
        None => None,
    }
}

/// The views of a block's transactions, where the block's content is there.
pub open spec fn optional_transaction_views(content: Option<Vec<CandidateTransaction>>) -> Option<
    Seq<TransactionView>,
> {
    match content {
        Some(transactions) => Some(transaction_views(transactions@)),
        None => None,
    }
}

/// An event, as the contracts see it.
pub enum EventView {
    NewBlock(BlockView),
    CurrentRound(nat),
    RoundBounds { start_block: nat, round_length: nat },
    BlockContent(Option<Seq<TransactionView>>),
    RewardLog(Option<Seq<u8>>),
    Transaction(Option<TransactionView>),
    TotalStake(Lane, nat),
    QueryFailed(Lane),
    SubscriptionDropped,
    Shutdown,
}

impl EventView {
    /// The lane that the event belongs to; none for the two events that end
    /// the watch.
    pub open spec fn lane(self) -> Option<Lane> {
        match self {
            EventView::NewBlock(_) => Some(Lane::Blocks),
            EventView::CurrentRound(_) => Some(Lane::Blocks),
            EventView::RoundBounds { .. } => Some(Lane::Blocks),
            EventView::BlockContent(_) => Some(Lane::Blocks),
            EventView::RewardLog(_) => Some(Lane::Rewards),
            EventView::Transaction(_) => Some(Lane::Rewards),
            EventView::TotalStake(lane, _) => Some(lane),
            EventView::QueryFailed(lane) => Some(lane),
            EventView::SubscriptionDropped => None,
            EventView::Shutdown => None,
        }
    }
}

/// What the machine is told: an event of one of the two streams, or the
/// chain's answer to an action that the machine returned.
#[derive(Clone, Debug, PartialEq, Eq)]
pub enum Event {
    /// The block stream delivered a new header.
    NewBlock(BlockObservation),
    /// The answer to `Action::QueryCurrentRound`.
    CurrentRound(Uint256),
    /// The answer to `Action::QueryRoundBounds`.
    RoundBounds {
        /// The answer to `currentRoundStartBlock`.
        start_block: Uint256,
        /// The answer to `roundLength`.
        round_length: Uint256,
    },
    /// The answer to `Action::FetchBlock`: the block's transactions in the
    /// block's order, or nothing where the node has no content for the block.
    BlockContent(Option<Vec<CandidateTransaction>>),
    /// The reward stream delivered a log entry, with the hash of its
    /// transaction where it has one.
    RewardLog(Option<Hash256>),
    /// The answer to `Action::FetchTransaction`: the transaction, or nothing
    /// where the node does not know it.
    Transaction(Option<CandidateTransaction>),
    /// The answer to `Action::QueryTotalStake` in the given lane.
    TotalStake(Lane, Uint256),
    /// The query that the machine asked for in the given lane did not
    /// complete.
    QueryFailed(Lane),
    /// One of the two streams ended.
    SubscriptionDropped,
    /// The operator asked the watch to stop.
    Shutdown,
}

impl View for Event {
    type V = EventView;

    open spec fn view(&self) -> EventView {
        match *self {
            Event::NewBlock(block) => EventView::NewBlock(block@),
            Event::CurrentRound(round) => EventView::CurrentRound(round@),
            Event::RoundBounds { start_block, round_length } => EventView::RoundBounds {
                start_block: start_block@,
                round_length: round_length@,
            },
            Event::BlockContent(content) => EventView::BlockContent(
                optional_transaction_views(content),
            ),
            Event::RewardLog(hash) => EventView::RewardLog(optional_hash_view(hash)),
            Event::Transaction(found) => EventView::Transaction(optional_transaction_view(found)),
            Event::TotalStake(lane, stake) => EventView::TotalStake(lane, stake@),
            Event::QueryFailed(lane) => EventView::QueryFailed(lane),
            Event::SubscriptionDropped => EventView::SubscriptionDropped,
            Event::Shutdown => EventView::Shutdown,
        }
    }
}

/// An action, as the contracts see it.
pub enum ActionView {
    Await,
    QueryCurrentRound,
    QueryRoundBounds,
    FetchBlock(Seq<u8>),
    FetchTransaction(Seq<u8>),
    QueryTotalStake(Lane, Seq<u8>),
    Fail(WatchError),
    Stop,
}

impl ActionView {
    /// The lane in which the answer to the action is expected; none for an
    /// action that asks nothing of the chain.
    pub open spec fn lane(self) -> Option<Lane> {
        match self {
            ActionView::QueryCurrentRound => Some(Lane::Blocks),
            ActionView::QueryRoundBounds => Some(Lane::Blocks),
            ActionView::FetchBlock(_) => Some(Lane::Blocks),
            ActionView::FetchTransaction(_) => Some(Lane::Rewards),
            ActionView::QueryTotalStake(lane, _) => Some(lane),
            ActionView::Await => None,
            ActionView::Fail(_) => None,
            ActionView::Stop => None,
        }
    }
}

/// What the machine asks for next, in the lane of the event it just took.
#[derive(Clone, Copy, Debug, PartialEq, Eq)]
pub enum Action {
    /// Nothing is pending in the lane: hand in the next event of its stream.
    Await,
    /// Ask the round manager for `currentRound`.
    QueryCurrentRound,
    /// Ask the round manager for `currentRoundStartBlock` and `roundLength`.
    QueryRoundBounds,
    /// Fetch the block with this hash, with its transactions.
    FetchBlock(Hash256),
    /// Fetch the transaction with this hash.
    FetchTransaction(Hash256),
    /// Ask the bonding manager for the total stake of this address, and
    /// answer in this lane.
    QueryTotalStake(Lane, Address),
    /// Give up: the watch failed for good.
    Fail(WatchError),
    /// Stop: the watch was shut down.
    Stop,
}

impl View for Action {
    type V = ActionView;

    open spec fn view(&self) -> ActionView {
        match *self {
            Action::Await => ActionView::Await,
            Action::QueryCurrentRound => ActionView::QueryCurrentRound,
            Action::QueryRoundBounds => ActionView::QueryRoundBounds,
            Action::FetchBlock(hash) => ActionView::FetchBlock(hash@),
            Action::FetchTransaction(hash) => ActionView::FetchTransaction(hash@),
            Action::QueryTotalStake(lane, address) => ActionView::QueryTotalStake(lane, address@),
            Action::Fail(error) => ActionView::Fail(error),
            Action::Stop => ActionView::Stop,
        }
    }
}

impl Action {
    /// The lane in which the answer to the action is expected; none for an
    /// action that asks nothing of the chain.
    pub fn lane(&self) -> (lane: Option<Lane>)
        ensures
            lane == self@.lane(),
    {
        match self {
            Action::QueryCurrentRound => Some(Lane::Blocks),
            Action::QueryRoundBounds => Some(Lane::Blocks),
            Action::FetchBlock(_) => Some(Lane::Blocks),
            Action::FetchTransaction(_) => Some(Lane::Rewards),
            Action::QueryTotalStake(lane, _) => Some(*lane),
            Action::Await => None,
            Action::Fail(_) => None,
            Action::Stop => None,
        }
    }
}

/// What one event led to.
#[derive(Clone, Debug, PartialEq, Eq)]
pub struct Outcome {
    /// What to tell the operator, if anything.
    pub alert: Option<Alert>,
    /// What to do next.
    pub next: Action,
}

/// What the lane of the block stream waits for, as the contracts see it.
pub enum BlockPhaseView {
    Idle,
    AwaitingRound { block: BlockView },
    AwaitingBounds { block: BlockView, fetched_round: nat },
    AwaitingBlock { block_hash: Seq<u8>, attempts: nat },
    AwaitingStake { transaction: TransactionView },
}

/// What the lane of the block stream waits for.
#[derive(Clone, Copy, Debug, PartialEq, Eq)]
pub enum BlockPhase {
    /// The next block header.
    Idle,
    /// The chain's round counter, asked for because `block` is at or past
    /// the round's end.
    AwaitingRound { block: BlockObservation },
    /// The start and length of the round that the counter moved on to.
    AwaitingBounds { block: BlockObservation, fetched_round: Uint256 },
    /// The content of a block, asked for `attempts` times so far.
    AwaitingBlock { block_hash: Hash256, attempts: u8 },
    /// The recipient's total stake, for the report of `transaction`.
    AwaitingStake { transaction: CandidateTransaction },
}

impl View for BlockPhase {
    type V = BlockPhaseView;

    open spec fn view(&self) -> BlockPhaseView {
        match *self {
            BlockPhase::Idle => BlockPhaseView::Idle,
            BlockPhase::AwaitingRound { block } => BlockPhaseView::AwaitingRound { block: block@ },
            BlockPhase::AwaitingBounds { block, fetched_round } => BlockPhaseView::AwaitingBounds {
                block: block@,
                fetched_round: fetched_round@,
            },
            BlockPhase::AwaitingBlock { block_hash, attempts } => BlockPhaseView::AwaitingBlock {
                block_hash: block_hash@,
                attempts: attempts as nat,
            },
            BlockPhase::AwaitingStake { transaction } => BlockPhaseView::AwaitingStake {
                transaction: transaction@,
            },
        }
    }
}

/// What the lane of the reward stream waits for, as the contracts see it.
pub enum RewardPhaseView {
    Idle,
    AwaitingTransaction,
    AwaitingStake { transaction: TransactionView },
}

/// What the lane of the reward stream waits for.
#[derive(Clone, Copy, Debug, PartialEq, Eq)]
pub enum RewardPhase {
    /// The next log entry.
    Idle,
    /// The transaction that a log entry names.
    AwaitingTransaction,
    /// The recipient's total stake, for the report of `transaction`.
    AwaitingStake { transaction: CandidateTransaction },
}

impl View for RewardPhase {
    type V = RewardPhaseView;

    open spec fn view(&self) -> RewardPhaseView {
        match *self {
            RewardPhase::Idle => RewardPhaseView::Idle,
            RewardPhase::AwaitingTransaction => RewardPhaseView::AwaitingTransaction,
            RewardPhase::AwaitingStake { transaction } => RewardPhaseView::AwaitingStake {
                transaction: transaction@,
            },
        }
    }
}

/// Whether the watch goes on.
#[derive(Clone, Copy, Debug, PartialEq, Eq, Structural)]
pub enum Course {
    /// The watch goes on.
    Running,
    /// The watch failed for good.
    Halted(WatchError),
    /// The watch was shut down.
    Stopped,
}

/// The machine as the contracts see it.
pub struct WatcherView {
    /// The tracked round.
    pub rounds: RoundView,
    /// The watched address.
    pub address: Seq<u8>,
    /// Whether the reward of the current round was confirmed.
    pub done: bool,
    /// The decimals with which amounts are rendered.
    pub decimals: nat,
    /// What the lane of the block stream waits for.
    pub blocks: BlockPhaseView,
    /// What the lane of the reward stream waits for.
    pub rewards: RewardPhaseView,
    /// Whether the watch goes on.
    pub course: Course,
}

/// The machine after an event, with what the event led to.
pub struct Stepped {
    pub state: WatcherView,
    pub alert: Option<AlertView>,
    pub next: ActionView,
}

impl Stepped {
    /// Whether `state` and `outcome` are the machine and the outcome that
    /// this step gives.
    pub open spec fn gives(self, state: WatcherView, outcome: Outcome) -> bool {
        &&& state == self.state
        &&& optional_alert_view(outcome.alert) == self.alert
        &&& outcome.next@ == self.next
    }
}

impl WatcherView {
    /// The machine with the block lane in another phase.
    pub open spec fn with_blocks(self, blocks: BlockPhaseView) -> WatcherView {
        WatcherView {
            rounds: self.rounds,
            address: self.address,
            done: self.done,
            decimals: self.decimals,
            blocks,
            rewards: self.rewards,
            course: self.course,
        }
    }

    /// The machine with the reward lane in another phase.
    pub open spec fn with_rewards(self, rewards: RewardPhaseView) -> WatcherView {
        WatcherView {
            rounds: self.rounds,
            address: self.address,
            done: self.done,
            decimals: self.decimals,
            blocks: self.blocks,
            rewards,
            course: self.course,
        }
    }

    /// The machine with the flag as given.
    pub open spec fn with_flag(self, done: bool) -> WatcherView {
        WatcherView {
            rounds: self.rounds,
            address: self.address,
            done,
            decimals: self.decimals,
            blocks: self.blocks,
            rewards: self.rewards,
            course: self.course,
        }
    }

    /// The machine with the round as given.
    pub open spec fn with_rounds(self, rounds: RoundView) -> WatcherView {
        WatcherView {
            rounds,
            address: self.address,
            done: self.done,
            decimals: self.decimals,
            blocks: self.blocks,
            rewards: self.rewards,
            course: self.course,
        }
    }

    /// The machine on another course.
    pub open spec fn on_course(self, course: Course) -> WatcherView {
        WatcherView {
            rounds: self.rounds,
            address: self.address,
            done: self.done,
            decimals: self.decimals,
            blocks: self.blocks,
            rewards: self.rewards,
            course,
        }
    }

    /// The watch fails for good.
    pub open spec fn halted(self, error: WatchError) -> Stepped {
        Stepped {
            state: self.on_course(Course::Halted(error)),
            alert: None,
            next: ActionView::Fail(error),
        }
    }

    /// The watch is shut down.
    pub open spec fn stopped(self) -> Stepped {
        Stepped { state: self.on_course(Course::Stopped), alert: None, next: ActionView::Stop }
    }

    /// The exchange in a lane is over: the lane waits for the next event of
    /// its stream.
    pub open spec fn settled(self, lane: Lane, alert: Option<AlertView>) -> Stepped {
        Stepped {
            state: match lane {
                Lane::Blocks => self.with_blocks(BlockPhaseView::Idle),
                Lane::Rewards => self.with_rewards(RewardPhaseView::Idle),
            },
            alert,
            next: ActionView::Await,
        }
    }

    /// The round's part of a block is done: its content is asked for where
    /// the header carries the block's hash.
    pub open spec fn scanning(self, block: BlockView, alert: Option<AlertView>) -> Stepped {
        match block.block_hash {
            Some(block_hash) => Stepped {
                state: self.with_blocks(BlockPhaseView::AwaitingBlock { block_hash, attempts: 1 }),
                alert,
                next: ActionView::FetchBlock(block_hash),
            },
            None => self.settled(Lane::Blocks, alert),
        }
    }

    /// The round's signal for a block is known: the alert policy is applied
    /// to the flag, and the block's content is looked at next.
    /// `finished_round` is the round before the signal.
    pub open spec fn signalled(
        self,
        block: BlockView,
        signal: RoundSignal,
        finished_round: nat,
    ) -> Stepped {
        let judged = after_signal(self.done, signal, finished_round, self.rounds.current_round);
        self.with_flag(judged.0).scanning(block, judged.1)
    }

    /// A new block header arrived. Before the round's end the block can only
    /// be the end of the security window; at or past it the chain's round
    /// counter is asked for.
    pub open spec fn block_arrived(self, block: BlockView) -> Stepped {
        if self.rounds.round_end_reached(block.block_number) {
            Stepped {
                state: self.with_blocks(BlockPhaseView::AwaitingRound { block }),
                alert: None,
                next: ActionView::QueryCurrentRound,
            }
        } else if block.block_number == self.rounds.security_window_end_block {
            self.signalled(block, RoundSignal::SecurityWindowReached, self.rounds.current_round)
        } else {
            self.signalled(block, RoundSignal::Quiet, self.rounds.current_round)
        }
    }

    /// The chain's round counter arrived for a block at or past the round's
    /// end.
    pub open spec fn round_answered(self, block: BlockView, fetched_round: nat) -> Stepped {
        match self.rounds.round_change(fetched_round) {
            RoundChange::Unchanged => self.signalled(
                block,
                RoundSignal::Quiet,
                self.rounds.current_round,
            ),
            RoundChange::Skipped => self.halted(WatchError::SkippedRoundError),
            RoundChange::Advanced => Stepped {
                state: self.with_blocks(BlockPhaseView::AwaitingBounds { block, fetched_round }),
                alert: None,
                next: ActionView::QueryRoundBounds,
            },
        }
    }

    /// The start and length of the new round arrived: the block is observed
    /// with the whole reading.
    pub open spec fn bounds_answered(self, block: BlockView, reading: ReadingView) -> Stepped {
        let observed = self.rounds.observe(block.block_number, reading);
        match observed.outcome {
            Ok(signal) => self.with_rounds(observed.state).signalled(
                block,
                signal,
                self.rounds.current_round,
            ),
            Err(error) => self.halted(error),
        }
    }

    /// A transaction of interest was found in a lane: where it qualifies the
    /// flag goes up and the recipient's stake is asked for, to report the
    /// reward.
    pub open spec fn transaction_found(self, lane: Lane, transaction: TransactionView) -> Stepped {
        if qualifies(transaction) {
            let confirmed = self.with_flag(after_transaction(self.done, transaction));
            Stepped {
                state: match lane {
                    Lane::Blocks => confirmed.with_blocks(
                        BlockPhaseView::AwaitingStake { transaction },
                    ),
                    Lane::Rewards => confirmed.with_rewards(
                        RewardPhaseView::AwaitingStake { transaction },
                    ),
                },
                alert: None,
                next: ActionView::QueryTotalStake(lane, self.address),
            }
        } else {
            self.settled(lane, None)
        }
    }

    /// An answer to the request for a block's content arrived, the request
    /// having been made `attempts` times. Without content the request is
    /// made again, up to `FETCH_ATTEMPTS` times in all; after that the block
    /// counts as holding nothing.
    pub open spec fn content_answered(
        self,
        block_hash: Seq<u8>,
        attempts: nat,
        content: Option<Seq<TransactionView>>,
    ) -> Stepped {
        match content {
            Some(transactions) => match first_involving(transactions, self.address) {
                Some(position) => self.transaction_found(Lane::Blocks, transactions[position]),
                None => self.settled(Lane::Blocks, None),
            },
            None => if attempts < FETCH_ATTEMPTS {
                Stepped {
                    state: self.with_blocks(
                        BlockPhaseView::AwaitingBlock { block_hash, attempts: attempts + 1 },
                    ),
                    alert: None,
                    next: ActionView::FetchBlock(block_hash),
                }
            } else {
                self.settled(Lane::Blocks, None)
            },
        }
    }

    /// A log entry arrived: its transaction is asked for where it names one.
    pub open spec fn log_arrived(self, transaction_hash: Option<Seq<u8>>) -> Stepped {
        match transaction_hash {
            Some(hash) => Stepped {
                state: self.with_rewards(RewardPhaseView::AwaitingTransaction),
                alert: None,
                next: ActionView::FetchTransaction(hash),
            },
            None => self.settled(Lane::Rewards, None),
        }
    }

    /// The transaction that a log entry names arrived, or the word that the
    /// node does not know it.
    pub open spec fn transaction_answered(self, found: Option<TransactionView>) -> Stepped {
        match found {
            Some(transaction) => self.transaction_found(Lane::Rewards, transaction),
            None => self.settled(Lane::Rewards, None),
        }
    }

    /// The recipient's total stake arrived in a lane: the reward is
    /// reported.
    pub open spec fn stake_answered(
        self,
        lane: Lane,
        transaction: TransactionView,
        total_stake: nat,
    ) -> Stepped {
        self.settled(
            lane,
            Some(
                confirmation(
                    self.rounds.current_round,
                    self.address,
                    transaction,
                    total_stake,
                    self.decimals,
                ),
            ),
        )
    }

    /// A query in the block lane did not complete. That halts the watch
    /// where the round's boundaries depend on the answer. A block's content
    /// counts as not there, and a stake that cannot be had costs the report
    /// only.
    pub open spec fn block_query_failed(self) -> Stepped {
        match self.blocks {
            BlockPhaseView::Idle => self.halted(WatchError::UnexpectedEvent),
            BlockPhaseView::AwaitingRound { .. } => self.halted(WatchError::ChainQueryError),
            BlockPhaseView::AwaitingBounds { .. } => self.halted(WatchError::ChainQueryError),
            BlockPhaseView::AwaitingBlock { block_hash, attempts } => self.content_answered(
                block_hash,
                attempts,
                None,
            ),
            BlockPhaseView::AwaitingStake { .. } => self.settled(Lane::Blocks, None),
        }
    }

    /// A query in the reward lane did not complete: the transaction counts
    /// as not known yet, and a stake that cannot be had costs the report
    /// only.
    pub open spec fn reward_query_failed(self) -> Stepped {
        match self.rewards {
            RewardPhaseView::Idle => self.halted(WatchError::UnexpectedEvent),
            RewardPhaseView::AwaitingTransaction => self.transaction_answered(None),
            RewardPhaseView::AwaitingStake { .. } => self.settled(Lane::Rewards, None),
        }
    }

    /// The machine after one event, with the alert and the next action.
    ///
    /// Once halted or stopped the machine stays so. The end of a stream
    /// halts it, and a shutdown stops it. Every other event belongs to one
    /// lane and is taken by the phase of that lane alone; an event that the
    /// phase does not wait for halts the machine.
    pub open spec fn step(self, event: EventView) -> Stepped {
        match self.course {
            Course::Halted(error) => Stepped {
                state: self,
                alert: None,
                next: ActionView::Fail(error),
            },
            Course::Stopped => Stepped { state: self, alert: None, next: ActionView::Stop },
            Course::Running => match event {
                EventView::SubscriptionDropped => self.halted(WatchError::SubscriptionDropped),
                EventView::Shutdown => self.stopped(),
                EventView::NewBlock(block) => match self.blocks {
                    BlockPhaseView::Idle => self.block_arrived(block),
                    _ => self.halted(WatchError::UnexpectedEvent),
                },
                EventView::CurrentRound(fetched_round) => match self.blocks {
                    BlockPhaseView::AwaitingRound { block } => self.round_answered(
                        block,
                        fetched_round,
                    ),
                    _ => self.halted(WatchError::UnexpectedEvent),
                },
                EventView::RoundBounds { start_block, round_length } => match self.blocks {
                    BlockPhaseView::AwaitingBounds { block, fetched_round } => self.bounds_answered(
                        block,
                        ReadingView { current_round: fetched_round, start_block, round_length },
                    ),
                    _ => self.halted(WatchError::UnexpectedEvent),
                },
                EventView::BlockContent(content) => match self.blocks {
                    BlockPhaseView::AwaitingBlock { block_hash, attempts } => self.content_answered(
                        block_hash,
                        attempts,
                        content,
                    ),
                    _ => self.halted(WatchError::UnexpectedEvent),
                },
                EventView::RewardLog(transaction_hash) => match self.rewards {
                    RewardPhaseView::Idle => self.log_arrived(transaction_hash),
                    _ => self.halted(WatchError::UnexpectedEvent),
                },
                EventView::Transaction(found) => match self.rewards {
                    RewardPhaseView::AwaitingTransaction => self.transaction_answered(found),
                    _ => self.halted(WatchError::UnexpectedEvent),
                },
                EventView::TotalStake(Lane::Blocks, total_stake) => match self.blocks {
                    BlockPhaseView::AwaitingStake { transaction } => self.stake_answered(
                        Lane::Blocks,
                        transaction,
                        total_stake,
                    ),
                    _ => self.halted(WatchError::UnexpectedEvent),
                },
                EventView::TotalStake(Lane::Rewards, total_stake) => match self.rewards {
                    RewardPhaseView::AwaitingStake { transaction } => self.stake_answered(
                        Lane::Rewards,
                        transaction,
                        total_stake,
                    ),
                    _ => self.halted(WatchError::UnexpectedEvent),
                },
                EventView::QueryFailed(Lane::Blocks) => self.block_query_failed(),
                EventView::QueryFailed(Lane::Rewards) => self.reward_query_failed(),
            },
        }
    }
}

/// The watcher: the round tracker, the transaction correlator and the alert
/// policy behind one machine.
#[derive(Debug)]
pub struct Watcher {
    rounds: RoundDetector,
    transactions: TransactionDetector,
    status: RewardStatus,
    decimals: usize,
    blocks: BlockPhase,
    rewards: RewardPhase,
    course: Course,
}

impl View for Watcher {
    type V = WatcherView;

    closed spec fn view(&self) -> WatcherView {
        WatcherView {
            rounds: self.rounds@,
            address: self.transactions@,
            done: self.status@,
            decimals: self.decimals as nat,
            blocks: self.blocks@,
            rewards: self.rewards@,
            course: self.course,
        }
    }
}

impl Watcher {
    /// A watcher that waits for the first event of either stream. Amounts in
    /// its reports are rendered with `decimals` decimals.
    pub fn new(
        rounds: RoundDetector,
        transactions: TransactionDetector,
        status: RewardStatus,
        decimals: usize,
    ) -> (watcher: Watcher)
        ensures
            watcher@ == (WatcherView {
                rounds: rounds@,
                address: transactions@,
                done: status@,
                decimals: decimals as nat,
                blocks: BlockPhaseView::Idle,
                rewards: RewardPhaseView::Idle,
                course: Course::Running,
            }),
    {
        Watcher {
            rounds,
            transactions,
            status,
            decimals,
            blocks: BlockPhase::Idle,
            rewards: RewardPhase::Idle,
            course: Course::Running,
        }
    }

    /// The number of the current round.
    pub fn get_current_round(&self) -> (round: Uint256)
        ensures
            round@ == self@.rounds.current_round,
    {
        self.rounds.get_current_round()
    }

    /// Whether the reward of the current round was confirmed.
    pub fn transaction_state(&self) -> (done: bool)
        ensures
            done == self@.done,
    {
        self.status.is_done()
    }

    /// What the lane of the block stream waits for.
    pub fn block_phase(&self) -> (phase: BlockPhase)
        ensures
            phase@ == self@.blocks,
    {
        self.blocks
    }

    /// What the lane of the reward stream waits for.
    pub fn reward_phase(&self) -> (phase: RewardPhase)
        ensures
            phase@ == self@.rewards,
    {
        self.rewards
    }

    /// Whether the watch goes on.
    pub fn course(&self) -> (course: Course)
        ensures
            course == self@.course,
    {
        self.course
    }

    /// The watch fails for good.
    fn halt(&mut self, error: WatchError) -> (outcome: Outcome)
        ensures
            old(self)@.halted(error).gives(final(self)@, outcome),
    {
        self.course = Course::Halted(error);
        Outcome { alert: None, next: Action::Fail(error) }
    }

    /// The watch is shut down.
    fn stop(&mut self) -> (outcome: Outcome)
        ensures
            old(self)@.stopped().gives(final(self)@, outcome),
    {
        self.course = Course::Stopped;
        Outcome { alert: None, next: Action::Stop }
    }

    /// The exchange in a lane is over.
    fn settle(&mut self, lane: Lane, alert: Option<Alert>) -> (outcome: Outcome)
        ensures
            old(self)@.settled(lane, optional_alert_view(alert)).gives(final(self)@, outcome),
    {
        match lane {
            Lane::Blocks => {
                self.blocks = BlockPhase::Idle;
            },
            Lane::Rewards => {
                self.rewards = RewardPhase::Idle;
            },
        }
        Outcome { alert, next: Action::Await }
    }

    /// Asks for the block's content where the header carries its hash.
    fn scan(&mut self, block: BlockObservation, alert: Option<Alert>) -> (outcome: Outcome)
        ensures
            old(self)@.scanning(block@, optional_alert_view(alert)).gives(final(self)@, outcome),
    {
        match block.block_hash {
            Some(block_hash) => {
                self.blocks = BlockPhase::AwaitingBlock { block_hash, attempts: 1 };
                Outcome { alert, next: Action::FetchBlock(block_hash) }
            },
            None => self.settle(Lane::Blocks, alert),
        }
    }

    /// Applies the alert policy to the round's signal for a block, and goes
    /// on to the block's content.
    fn signal(
        &mut self,
        block: BlockObservation,
        signal: RoundSignal,
        finished_round: Uint256,
    ) -> (outcome: Outcome)
        ensures
            old(self)@.signalled(block@, signal, finished_round@).gives(final(self)@, outcome),
    {
        let current_round = self.rounds.get_current_round();
        let alert = self.status.on_round_signal(signal, finished_round, current_round);
        self.scan(block, alert)
    }

    /// A new block header arrived while the block lane was idle.
    fn block_arrived(&mut self, block: BlockObservation) -> (outcome: Outcome)
        ensures
            old(self)@.block_arrived(block@).gives(final(self)@, outcome),
    {
        if self.rounds.round_end_reached(block.block_number) {
            self.blocks = BlockPhase::AwaitingRound { block };
            Outcome { alert: None, next: Action::QueryCurrentRound }
        } else {
            let current_round = self.rounds.get_current_round();
            if self.rounds.reached_security_window(block.block_number) {
                self.signal(block, RoundSignal::SecurityWindowReached, current_round)
            } else {
                self.signal(block, RoundSignal::Quiet, current_round)
            }
        }
    }

    /// The chain's round counter arrived.
    fn round_answered(&mut self, block: BlockObservation, fetched_round: Uint256) -> (outcome:
        Outcome)
        ensures
            old(self)@.round_answered(block@, fetched_round@).gives(final(self)@, outcome),
    {
        match self.rounds.round_change(fetched_round) {
            RoundChange::Unchanged => {
                let current_round = self.rounds.get_current_round();
                self.signal(block, RoundSignal::Quiet, current_round)
            },
            RoundChange::Skipped => self.halt(WatchError::SkippedRoundError),
            RoundChange::Advanced => {
                self.blocks = BlockPhase::AwaitingBounds { block, fetched_round };
                Outcome { alert: None, next: Action::QueryRoundBounds }
            },
        }
    }

    /// The start and length of the new round arrived.
    fn bounds_answered(&mut self, block: BlockObservation, reading: ChainReading) -> (outcome:
        Outcome)
        ensures
            old(self)@.bounds_answered(block@, reading@).gives(final(self)@, outcome),
    {
        let finished_round = self.rounds.get_current_round();
        match self.rounds.observe_block(block.block_number, &reading) {
            Ok(signal) => self.signal(block, signal, finished_round),
            Err(error) => self.halt(error),
        }
    }

    /// A transaction of interest was found in a lane.
    fn transaction_found(&mut self, lane: Lane, transaction: CandidateTransaction) -> (outcome:
        Outcome)
        ensures
            old(self)@.transaction_found(lane, transaction@).gives(final(self)@, outcome),
    {
        if self.status.transaction_observed(&transaction) {
            match lane {
                Lane::Blocks => {
                    self.blocks = BlockPhase::AwaitingStake { transaction };
                },
                Lane::Rewards => {
                    self.rewards = RewardPhase::AwaitingStake { transaction };
                },
            }
            let address = self.transactions.address();
            Outcome { alert: None, next: Action::QueryTotalStake(lane, address) }
        } else {
            self.settle(lane, None)
        }
    }

    /// An answer to the request for a block's content arrived.
    fn content_answered(
        &mut self,
        block_hash: Hash256,
        attempts: u8,
        content: Option<Vec<CandidateTransaction>>,
    ) -> (outcome: Outcome)
        ensures
            old(self)@.content_answered(
                block_hash@,
                attempts as nat,
                optional_transaction_views(content),
            ).gives(final(self)@, outcome),
    {
        match self.transactions.tries_to_get_transaction(attempts, content) {
            FetchStep::Content(transactions) => {
                proof {
                    lemma_first_involving(transaction_views(transactions@), self.transactions@);
                }
                match self.transactions.contains_reward_transaction(&transactions) {
                    Some(transaction) => self.transaction_found(Lane::Blocks, transaction),
                    None => self.settle(Lane::Blocks, None),
                }
            },
            FetchStep::Retry => {
                self.blocks = BlockPhase::AwaitingBlock { block_hash, attempts: attempts + 1 };
                Outcome { alert: None, next: Action::FetchBlock(block_hash) }
            },
            FetchStep::GiveUp => self.settle(Lane::Blocks, None),
        }
    }

    /// A log entry arrived while the reward lane was idle.
    fn log_arrived(&mut self, transaction_hash: Option<Hash256>) -> (outcome: Outcome)
        ensures
            old(self)@.log_arrived(optional_hash_view(transaction_hash)).gives(
                final(self)@,
                outcome,
            ),
    {
        match transaction_hash {
            Some(hash) => {
                self.rewards = RewardPhase::AwaitingTransaction;
                Outcome { alert: None, next: Action::FetchTransaction(hash) }
            },
            None => self.settle(Lane::Rewards, None),
        }
    }

    /// The transaction that a log entry names arrived, or nothing.
    fn transaction_answered(&mut self, found: Option<CandidateTransaction>) -> (outcome: Outcome)
        ensures
            old(self)@.transaction_answered(optional_transaction_view(found)).gives(
                final(self)@,
                outcome,
            ),
    {
        if self.transactions.has_valid_transaction_been_made(&found) {
            self.transaction_found(Lane::Rewards, found.unwrap())
        } else {
            self.settle(Lane::Rewards, None)
        }
    }

    /// The recipient's total stake arrived in a lane.
    fn stake_answered(
        &mut self,
        lane: Lane,
        transaction: CandidateTransaction,
        total_stake: Uint256,
    ) -> (outcome: Outcome)
        ensures
            old(self)@.stake_answered(lane, transaction@, total_stake@).gives(
                final(self)@,
                outcome,
            ),
    {
        let alert = Alert::RewardConfirmed {
            round: self.rounds.get_current_round(),
            recipient: self.transactions.address(),
            transaction: transaction.hash,
            amount: convert_amount(transaction.value, self.decimals),
            total_stake: convert_amount(total_stake, self.decimals),
        };
        self.settle(lane, Some(alert))
    }

    /// A query in the block lane did not complete.
    fn block_query_failed(&mut self) -> (outcome: Outcome)
        ensures
            old(self)@.block_query_failed().gives(final(self)@, outcome),
    {
        let phase = self.blocks;
        match phase {
            BlockPhase::Idle => self.halt(WatchError::UnexpectedEvent),
            BlockPhase::AwaitingRound { .. } => self.halt(WatchError::ChainQueryError),
            BlockPhase::AwaitingBounds { .. } => self.halt(WatchError::ChainQueryError),
            BlockPhase::AwaitingBlock { block_hash, attempts } => self.content_answered(
                block_hash,
                attempts,
                None,
            ),
            BlockPhase::AwaitingStake { .. } => self.settle(Lane::Blocks, None),
        }
    }

    /// A query in the reward lane did not complete.
    fn reward_query_failed(&mut self) -> (outcome: Outcome)
        ensures
            old(self)@.reward_query_failed().gives(final(self)@, outcome),
    {
        let phase = self.rewards;
        match phase {
            RewardPhase::Idle => self.halt(WatchError::UnexpectedEvent),
            RewardPhase::AwaitingTransaction => self.transaction_answered(None),
            RewardPhase::AwaitingStake { .. } => self.settle(Lane::Rewards, None),
        }
    }

    /// Takes one event: an event of a stream whose lane answered `Await`
    /// last, or the chain's answer to an action that is outstanding. Gives
    /// the alert to deliver, if any, and the action to perform next in the
    /// event's lane.
    pub fn handle(&mut self, event: Event) -> (outcome: Outcome)
        ensures
            old(self)@.step(event@).gives(final(self)@, outcome),
    {
        let course = self.course;
        let blocks = self.blocks;
        let rewards = self.rewards;
        match course {
            Course::Halted(error) => Outcome { alert: None, next: Action::Fail(error) },
            Course::Stopped => Outcome { alert: None, next: Action::Stop },
            Course::Running => match event {
                Event::SubscriptionDropped => self.halt(WatchError::SubscriptionDropped),
                Event::Shutdown => self.stop(),
                Event::NewBlock(block) => match blocks {
                    BlockPhase::Idle => self.block_arrived(block),
                    _ => self.halt(WatchError::UnexpectedEvent),
                },
                Event::CurrentRound(fetched_round) => match blocks {
                    BlockPhase::AwaitingRound { block } => self.round_answered(
                        block,
                        fetched_round,
                    ),
                    _ => self.halt(WatchError::UnexpectedEvent),
                },
                Event::RoundBounds { start_block, round_length } => match blocks {
                    BlockPhase::AwaitingBounds { block, fetched_round } => self.bounds_answered(
                        block,
                        ChainReading { current_round: fetched_round, start_block, round_length },
                    ),
                    _ => self.halt(WatchError::UnexpectedEvent),
                },
                Event::BlockContent(content) => match blocks {
                    BlockPhase::AwaitingBlock { block_hash, attempts } => self.content_answered(
                        block_hash,
                        attempts,
                        content,
                    ),
                    _ => self.halt(WatchError::UnexpectedEvent),
                },
                Event::RewardLog(transaction_hash) => match rewards {
                    RewardPhase::Idle => self.log_arrived(transaction_hash),
                    _ => self.halt(WatchError::UnexpectedEvent),
                },
                Event::Transaction(found) => match rewards {
                    RewardPhase::AwaitingTransaction => self.transaction_answered(found),
                    _ => self.halt(WatchError::UnexpectedEvent),
                },
                Event::TotalStake(Lane::Blocks, total_stake) => match blocks {
                    BlockPhase::AwaitingStake { transaction } => self.stake_answered(
                        Lane::Blocks,
                        transaction,
                        total_stake,
                    ),
                    _ => self.halt(WatchError::UnexpectedEvent),
                },
                Event::TotalStake(Lane::Rewards, total_stake) => match rewards {
                    RewardPhase::AwaitingStake { transaction } => self.stake_answered(
                        Lane::Rewards,
                        transaction,
                        total_stake,
                    ),
                    _ => self.halt(WatchError::UnexpectedEvent),
                },
                Event::QueryFailed(Lane::Blocks) => self.block_query_failed(),
                Event::QueryFailed(Lane::Rewards) => self.reward_query_failed(),
            },
        }
    }
}

} // verus!
