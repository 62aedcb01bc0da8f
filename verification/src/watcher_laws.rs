//! What holds of the orchestrator's machine over every state and event, and
//! over runs of events of both lanes in any order.

use crate::alert::after_signal;
use crate::chain::{BlockView, ReadingView, TransactionView};
use crate::error::WatchError;
use crate::transaction_detector::{first_involving, qualifies, FETCH_ATTEMPTS};
use crate::watcher::{
    ActionView, BlockPhaseView, Course, EventView, Lane, RewardPhaseView, Stepped, WatcherView,
};
use vstd::prelude::*;

verus! {

impl WatcherView {
    /// The machine after a run of events, each taken in turn.
    pub open spec fn after(self, events: Seq<EventView>) -> WatcherView
        decreases events.len(),
    {
        if events.len() == 0 {
            self
        } else {
            self.after(events.drop_last()).step(events.last()).state
        }
    }

    /// What a new block leads to once the chain has answered what the
    /// machine asks about the round: the round counter where the machine
    /// asks for it, and the new round's start and length where it asks for
    /// them. Events of the reward lane may come between the steps: `first`
    /// before the counter arrives, `second` before the start and length do.
    pub open spec fn after_block(
        self,
        block: BlockView,
        reading: ReadingView,
        first: Seq<EventView>,
        second: Seq<EventView>,
    ) -> Stepped {
        let arrived = self.step(EventView::NewBlock(block));
        if arrived.next == ActionView::QueryCurrentRound {
            let counted = arrived.state.after(first).step(
                EventView::CurrentRound(reading.current_round),
            );
            if counted.next == ActionView::QueryRoundBounds {
                counted.state.after(second).step(
                    EventView::RoundBounds {
                        start_block: reading.start_block,
                        round_length: reading.round_length,
                    },
                )
            } else {
                counted
            }
        } else {
            arrived
        }
    }
}

/// A run of events of the reward lane only.
pub open spec fn reward_events(events: Seq<EventView>) -> bool {
    forall|i: int| 0 <= i < events.len() ==> (#[trigger] events[i]).lane() == Some(Lane::Rewards)
}

/// `count` empty answers to the request for a block's content.
pub open spec fn empty_answers(count: nat) -> Seq<EventView> {
    Seq::new(count, |i: int| EventView::BlockContent(None))
}

/// A halted machine stays as it is and answers every event with the error
/// that halted it.
pub proof fn law_halt_is_final(watcher: WatcherView, error: WatchError, event: EventView)
    requires
        watcher.course == Course::Halted(error),
    ensures
        watcher.step(event).state == watcher,
        watcher.step(event).next == ActionView::Fail(error),
        watcher.step(event).alert is None,
{
}

/// A stopped machine stays as it is and answers every event with `Stop`.
pub proof fn law_stop_is_final(watcher: WatcherView, event: EventView)
    requires
        watcher.course == Course::Stopped,
    ensures
        watcher.step(event).state == watcher,
        watcher.step(event).next == ActionView::Stop,
        watcher.step(event).alert is None,
{
}

/// A shutdown stops a machine that is still watching, whatever its lanes
/// wait for, and changes neither the round nor the flag.
pub proof fn law_shutdown_stops(watcher: WatcherView)
    requires
        watcher.course == Course::Running,
    ensures
        watcher.step(EventView::Shutdown).state == watcher.on_course(Course::Stopped),
        watcher.step(EventView::Shutdown).next == ActionView::Stop,
        watcher.step(EventView::Shutdown).alert is None,
{
}

/// The end of a stream halts a machine that is still watching.
pub proof fn law_dropped_stream_halts(watcher: WatcherView)
    requires
        watcher.course == Course::Running,
    ensures
        watcher.step(EventView::SubscriptionDropped).state == watcher.on_course(
            Course::Halted(WatchError::SubscriptionDropped),
        ),
        watcher.step(EventView::SubscriptionDropped).next == ActionView::Fail(
            WatchError::SubscriptionDropped,
        ),
{
}

/// One event leaves the round where it is or moves it on by exactly one.
/// Where it moves the round, the flag is down afterwards, whatever it was.
/// The watched address and the decimals never change.
pub proof fn law_step_moves_round_by_one(watcher: WatcherView, event: EventView)
    ensures
        watcher.step(event).state.rounds == watcher.rounds || watcher.step(
            event,
        ).state.rounds.current_round == watcher.rounds.current_round + 1,
        watcher.step(event).state.rounds.current_round == watcher.rounds.current_round + 1
            ==> !watcher.step(event).state.done,
        watcher.step(event).state.address == watcher.address,
        watcher.step(event).state.decimals == watcher.decimals,
{
}

/// The round and its boundaries change at one kind of step only: when the
/// start and length of a new round arrive in the block lane that waits for
/// them. No event of the reward lane touches them, whatever the order in
/// which the events of the two lanes come.
pub proof fn law_round_changes_with_new_bounds_only(watcher: WatcherView, event: EventView)
    requires
        watcher.step(event).state.rounds != watcher.rounds,
    ensures
        watcher.blocks is AwaitingBounds,
        event is RoundBounds,
        watcher.step(event).state.rounds.current_round == watcher.rounds.current_round + 1,
{
}

/// The flag goes down at one kind of step only: when a new round starts.
pub proof fn law_flag_goes_down_by_round_start(watcher: WatcherView, event: EventView)
    requires
        watcher.done,
        !watcher.step(event).state.done,
    ensures
        watcher.blocks is AwaitingBounds,
        event is RoundBounds,
        watcher.step(event).state.rounds.current_round == watcher.rounds.current_round + 1,
{
}

/// The flag goes up only when a transaction that qualifies arrives: as the
/// first transaction of a block's content that involves the watched
/// address, or as the transaction that a log entry names.
pub proof fn law_flag_goes_up_by_transaction(watcher: WatcherView, event: EventView)
    requires
        !watcher.done,
        watcher.step(event).state.done,
    ensures
        match event {
            EventView::BlockContent(Some(transactions)) => {
                &&& watcher.blocks is AwaitingBlock
                &&& first_involving(transactions, watcher.address) is Some
                &&& qualifies(transactions[first_involving(transactions, watcher.address)->0])
            },
            EventView::Transaction(Some(transaction)) => {
                &&& watcher.rewards is AwaitingTransaction
                &&& qualifies(transaction)
            },
            _ => false,
        },
{
}

/// A block's content that arrives when it is waited for puts the flag up
/// where its first transaction involving the watched address carries a
/// value other than zero. Where that transaction carries the value zero, or
/// where no transaction involves the address, the flag stays as it was.
pub proof fn law_block_content_sets_flag(
    watcher: WatcherView,
    block_hash: Seq<u8>,
    attempts: nat,
    transactions: Seq<TransactionView>,
)
    requires
        watcher.course == Course::Running,
        watcher.blocks == (BlockPhaseView::AwaitingBlock { block_hash, attempts }),
    ensures
        watcher.step(EventView::BlockContent(Some(transactions))).state.done
            == match first_involving(transactions, watcher.address) {
            Some(position) => watcher.done || transactions[position].value != 0,
            None => watcher.done,
        },
{
}

/// The transaction that a log entry names puts the flag up where it carries
/// a value other than zero, and leaves the flag as it was where it carries
/// the value zero or is not known to the node.
pub proof fn law_log_transaction_sets_flag(watcher: WatcherView, found: Option<TransactionView>)
    requires
        watcher.course == Course::Running,
        watcher.rewards == RewardPhaseView::AwaitingTransaction,
    ensures
        watcher.step(EventView::Transaction(found)).state.done == match found {
            Some(transaction) => watcher.done || transaction.value != 0,
            None => watcher.done,
        },
        watcher.step(EventView::Transaction(found)).state.course == Course::Running,
{
}

/// An empty answer to a request for a block's content never halts the
/// machine: while requests remain it leads to one more request, and after
/// the last one the block is left, with the flag as it was.
pub proof fn law_block_content_is_given_up(watcher: WatcherView, block_hash: Seq<u8>, attempts: nat)
    requires
        watcher.course == Course::Running,
        watcher.blocks == (BlockPhaseView::AwaitingBlock { block_hash, attempts }),
    ensures
        attempts < FETCH_ATTEMPTS ==> watcher.step(EventView::BlockContent(None)).next
            == ActionView::FetchBlock(block_hash) && watcher.step(
            EventView::BlockContent(None),
        ).state == watcher.with_blocks(
            BlockPhaseView::AwaitingBlock { block_hash, attempts: attempts + 1 },
        ),
        attempts >= FETCH_ATTEMPTS ==> watcher.step(EventView::BlockContent(None)).next
            == ActionView::Await && watcher.step(EventView::BlockContent(None)).state
            == watcher.with_blocks(BlockPhaseView::Idle),
        watcher.step(EventView::BlockContent(None)).alert is None,
{
}

/// A block whose content never comes is asked for `FETCH_ATTEMPTS` times
/// in all and then left: while requests remain, each empty answer leads to
/// one more request, and the empty answer to the last one puts the block
/// lane back to waiting for its stream, with the round and the flag as they
/// were.
pub proof fn law_fetch_is_bounded(
    watcher: WatcherView,
    block_hash: Seq<u8>,
    attempts: nat,
    count: nat,
)
    requires
        watcher.course == Course::Running,
        watcher.blocks == (BlockPhaseView::AwaitingBlock { block_hash, attempts }),
        1 <= attempts <= FETCH_ATTEMPTS,
        count <= FETCH_ATTEMPTS - attempts + 1,
    ensures
        count <= FETCH_ATTEMPTS - attempts ==> watcher.after(empty_answers(count))
            == watcher.with_blocks(
            BlockPhaseView::AwaitingBlock { block_hash, attempts: attempts + count },
        ),
        count == FETCH_ATTEMPTS - attempts + 1 ==> watcher.after(empty_answers(count))
            == watcher.with_blocks(BlockPhaseView::Idle),
    decreases count,
{
    if count > 0 {
        let earlier = (count - 1) as nat;
        law_fetch_is_bounded(watcher, block_hash, attempts, earlier);
        assert(empty_answers(count).drop_last() =~= empty_answers(earlier));
        assert(empty_answers(count).last() == EventView::BlockContent(None));
    } else {
        assert(watcher.after(empty_answers(count)) == watcher);
    }
}

/// Over any run of events, of both lanes in any order, the round never goes
/// down.
pub proof fn law_watched_round_never_decreases(watcher: WatcherView, events: Seq<EventView>)
    ensures
        watcher.after(events).rounds.current_round >= watcher.rounds.current_round,
    decreases events.len(),
{
    if events.len() > 0 {
        law_watched_round_never_decreases(watcher, events.drop_last());
        law_step_moves_round_by_one(watcher.after(events.drop_last()), events.last());
    }
}

/// What an event leads to is asked in the event's own lane: the next action
/// expects its answer there, or expects none.
pub proof fn law_answers_stay_in_lane(watcher: WatcherView, event: EventView)
    ensures
        watcher.step(event).next.lane() is None || watcher.step(event).next.lane() == event.lane(),
{
}

/// The lanes keep to themselves: an event of the reward lane leaves the
/// phase of the block lane and the round alone, and an event of the block
/// lane leaves the phase of the reward lane alone.
pub proof fn law_lanes_are_separate(watcher: WatcherView, event: EventView)
    ensures
        event.lane() == Some(Lane::Rewards) ==> watcher.step(event).state.blocks == watcher.blocks
            && watcher.step(event).state.rounds == watcher.rounds,
        event.lane() == Some(Lane::Blocks) ==> watcher.step(event).state.rewards
            == watcher.rewards,
{
}

/// What an event of the block lane does to the round, to the block lane and
/// to the course of the watch, and what it asks for next, does not depend on
/// the reward lane: two machines that differ in the phase of the reward lane
/// and in the flag only agree on all of these after the event.
pub proof fn law_block_lane_does_not_see_rewards(
    watcher: WatcherView,
    other: WatcherView,
    event: EventView,
)
    requires
        other == watcher.with_rewards(other.rewards).with_flag(other.done),
        event.lane() == Some(Lane::Blocks),
    ensures
        watcher.step(event).state.rounds == other.step(event).state.rounds,
        watcher.step(event).state.blocks == other.step(event).state.blocks,
        watcher.step(event).state.course == other.step(event).state.course,
        watcher.step(event).next == other.step(event).next,
{
}

/// A run of events of the reward lane that leaves the machine running
/// leaves the round, the phase of the block lane, the address and the
/// decimals as they were.
pub proof fn law_reward_run_keeps_block_lane(watcher: WatcherView, events: Seq<EventView>)
    requires
        reward_events(events),
        watcher.after(events).course == Course::Running,
    ensures
        watcher.course == Course::Running,
        watcher.after(events) == watcher.with_rewards(watcher.after(events).rewards).with_flag(
            watcher.after(events).done,
        ),
    decreases events.len(),
{
    if events.len() > 0 {
        let earlier = events.drop_last();
        assert(reward_events(earlier)) by {
            assert forall|i: int| 0 <= i < earlier.len() implies (#[trigger] earlier[i]).lane()
                == Some(Lane::Rewards) by {
                assert(earlier[i] == events[i]);
            }
        }
        assert(events.last() == events[events.len() - 1]);
        law_reward_run_keeps_block_lane(watcher, earlier);
    }
}

/// Asking the chain only when a block calls for it gives what observing the
/// block with the chain's answers gives, whatever the reward lane does in
/// between, so long as it does not end the watch: the round and its
/// boundaries are the observed ones, a failed observation halts the watch
/// with its error, and otherwise the block's content is asked for next.
pub proof fn law_block_exchange_observes(
    watcher: WatcherView,
    block: BlockView,
    reading: ReadingView,
    first: Seq<EventView>,
    second: Seq<EventView>,
)
    requires
        watcher.course == Course::Running,
        watcher.blocks == BlockPhaseView::Idle,
        reward_events(first),
        reward_events(second),
        watcher.step(EventView::NewBlock(block)).next == ActionView::QueryCurrentRound
            ==> watcher.step(EventView::NewBlock(block)).state.after(first).course
            == Course::Running,
        watcher.step(EventView::NewBlock(block)).next == ActionView::QueryCurrentRound
            && watcher.step(EventView::NewBlock(block)).state.after(first).step(
            EventView::CurrentRound(reading.current_round),
        ).next == ActionView::QueryRoundBounds ==> watcher.step(
            EventView::NewBlock(block),
        ).state.after(first).step(EventView::CurrentRound(reading.current_round)).state.after(
            second,
        ).course == Course::Running,
    ensures
        watcher.after_block(block, reading, first, second).state.rounds == watcher.rounds.observe(
            block.block_number,
            reading,
        ).state,
        match watcher.rounds.observe(block.block_number, reading).outcome {
            Ok(signal) => {
                &&& watcher.after_block(block, reading, first, second).state.course
                    == Course::Running
                &&& watcher.after_block(block, reading, first, second).next
                    == match block.block_hash {
                    Some(block_hash) => ActionView::FetchBlock(block_hash),
                    None => ActionView::Await,
                }
            },
            Err(error) => {
                &&& watcher.after_block(block, reading, first, second).state.course
                    == Course::Halted(error)
                &&& watcher.after_block(block, reading, first, second).next == ActionView::Fail(
                    error,
                )
                &&& watcher.after_block(block, reading, first, second).alert is None
            },
        },
{
    let arrived = watcher.step(EventView::NewBlock(block));
    if arrived.next == ActionView::QueryCurrentRound {
        law_reward_run_keeps_block_lane(arrived.state, first);
        let counted = arrived.state.after(first).step(
            EventView::CurrentRound(reading.current_round),
        );
        if counted.next == ActionView::QueryRoundBounds {
            law_reward_run_keeps_block_lane(counted.state, second);
        }
    }
}

/// With no event of the reward lane in between, a block's exchange applies
/// the alert policy to the flag as it was when the block arrived: the flag
/// and the alert are those of the policy for the observed signal.
pub proof fn law_block_exchange_applies_policy(
    watcher: WatcherView,
    block: BlockView,
    reading: ReadingView,
)
    requires
        watcher.course == Course::Running,
        watcher.blocks == BlockPhaseView::Idle,
    ensures
        match watcher.rounds.observe(block.block_number, reading).outcome {
            Ok(signal) => {
                let judged = after_signal(
                    watcher.done,
                    signal,
                    watcher.rounds.current_round,
                    watcher.rounds.observe(block.block_number, reading).state.current_round,
                );
                &&& watcher.after_block(block, reading, Seq::empty(), Seq::empty()).state.done
                    == judged.0
                &&& watcher.after_block(block, reading, Seq::empty(), Seq::empty()).alert
                    == judged.1
            },
            Err(error) => watcher.after_block(
                block,
                reading,
                Seq::empty(),
                Seq::empty(),
            ).state.done == watcher.done,
        },
{
    let arrived = watcher.step(EventView::NewBlock(block));
    assert(arrived.state.after(Seq::empty()) == arrived.state);
    let counted = arrived.state.step(EventView::CurrentRound(reading.current_round));
    assert(counted.state.after(Seq::empty()) == counted.state);
}

} // verus!
