//! The round tracker: from the height of each new block it decides whether a
//! new round has begun or the security window of the current round has
//! expired, keeping the round's boundaries in step with the chain.

use crate::chain::{ChainReading, ReadingView};
use crate::error::WatchError;
use crate::uint256::{
    lemma_view_bound, u256_checked_add, u256_less_than, uint256_limit, Uint256,
};
use vstd::prelude::*;

verus! {

/// What the observation of one block says about the round.
#[derive(Clone, Copy, Debug, PartialEq, Eq, Structural)]
pub enum RoundSignal {
    /// Nothing happened.
    Quiet,
    /// The chain moved on to the next round.
    RoundStarted,
    /// The block is the one at which the security window ends.
    SecurityWindowReached,
}

/// How the chain's round counter stands against the tracked round.
#[derive(Clone, Copy, Debug, PartialEq, Eq, Structural)]
pub enum RoundChange {
    /// The counter is not ahead by one: the next round has not been mined yet.
    Unchanged,
    /// The counter is ahead by exactly one.
    Advanced,
    /// The counter is ahead by more than one.
    Skipped,
}

/// The tracked round as the contracts see it.
pub struct RoundView {
    /// The number of the current round.
    pub current_round: nat,
    /// The first block that is no longer in the current round.
    pub round_end_block: nat,
    /// The block at which the grace period of the current round expires.
    pub security_window_end_block: nat,
    /// The length of the grace period, in blocks from the round's start.
    pub security_window: nat,
}

/// The state after an observation and what the observation gave.
pub struct Observed<T> {
    pub state: RoundView,
    pub outcome: Result<T, WatchError>,
}

impl RoundView {
    /// Both boundaries come from one start block: the window's end is that
    /// start plus the window, and the round's end is not before that start.
    pub open spec fn wf(self) -> bool {
        &&& self.security_window_end_block >= self.security_window
        &&& self.round_end_block >= self.security_window_end_block - self.security_window
        &&& self.current_round < uint256_limit()
        &&& self.round_end_block < uint256_limit()
        &&& self.security_window_end_block < uint256_limit()
    }

    /// The tracked round for what the chain reports at startup, with a
    /// security window of `security_window` blocks. Boundaries beyond 256
    /// bits are no boundaries.
    pub open spec fn starting(reading: ReadingView, security_window: nat) -> Result<
        RoundView,
        WatchError,
    > {
        if reading.start_block + reading.round_length < uint256_limit() && reading.start_block
            + security_window < uint256_limit() {
            Ok(
                RoundView {
                    current_round: reading.current_round,
                    round_end_block: reading.start_block + reading.round_length,
                    security_window_end_block: reading.start_block + security_window,
                    security_window,
                },
            )
        } else {
            Err(WatchError::ChainQueryError)
        }
    }

    /// Whether a block at this height is at or past the round's end.
    pub open spec fn round_end_reached(self, block_number: nat) -> bool {
        block_number >= self.round_end_block
    }

    /// How a fetched round counter stands against the tracked round.
    pub open spec fn round_change(self, fetched_round: nat) -> RoundChange {
        if fetched_round == self.current_round + 1 {
            RoundChange::Advanced
        } else if fetched_round > self.current_round + 1 {
            RoundChange::Skipped
        } else {
            RoundChange::Unchanged
        }
    }

    /// Whether the boundaries of a round with this start and length fit in
    /// 256 bits.
    pub open spec fn boundaries_fit(self, start_block: nat, round_length: nat) -> bool {
        start_block + round_length < uint256_limit() && start_block + self.security_window
            < uint256_limit()
    }

    /// The tracked round after the chain moved on by one round that starts at
    /// `start_block` and lasts `round_length` blocks.
    pub open spec fn next_round(self, start_block: nat, round_length: nat) -> RoundView {
        RoundView {
            current_round: self.current_round + 1,
            round_end_block: start_block + round_length,
            security_window_end_block: start_block + self.security_window,
            security_window: self.security_window,
        }
    }

    /// Whether a new round starts with this block, given what the chain
    /// answers. Before the round's end nothing is asked. At or past it, a
    /// counter ahead by one starts the next round, a counter further ahead is
    /// a skipped round, and any other counter changes nothing.
    pub open spec fn round_transition(self, block_number: nat, reading: ReadingView) -> Observed<
        bool,
    > {
        if !self.round_end_reached(block_number) {
            Observed { state: self, outcome: Ok(false) }
        } else {
            match self.round_change(reading.current_round) {
                RoundChange::Unchanged => Observed { state: self, outcome: Ok(false) },
                RoundChange::Skipped => Observed {
                    state: self,
                    outcome: Err(WatchError::SkippedRoundError),
                },
                RoundChange::Advanced => if self.boundaries_fit(
                    reading.start_block,
                    reading.round_length,
                ) {
                    Observed {
                        state: self.next_round(reading.start_block, reading.round_length),
                        outcome: Ok(true),
                    }
                } else {
                    Observed { state: self, outcome: Err(WatchError::ChainQueryError) }
                },
            }
        }
    }

    /// The signal of one block, given what the chain answers. At or past the
    /// round's end only a round can start; before it, the one block at which
    /// the security window ends gives its signal.
    pub open spec fn observe(self, block_number: nat, reading: ReadingView) -> Observed<
        RoundSignal,
    > {
        if self.round_end_reached(block_number) {
            let moved = self.round_transition(block_number, reading);
            Observed {
                state: moved.state,
                outcome: match moved.outcome {
                    Ok(started) => Ok(
                        if started {
                            RoundSignal::RoundStarted
                        } else {
                            RoundSignal::Quiet
                        },
                    ),
                    Err(e) => Err(e),
                },
            }
        } else if block_number == self.security_window_end_block {
            Observed { state: self, outcome: Ok(RoundSignal::SecurityWindowReached) }
        } else {
            Observed { state: self, outcome: Ok(RoundSignal::Quiet) }
        }
    }
}

/// The end of a round and the end of its security window, both counted from
/// the round's start; nothing where one of them is beyond 256 bits.
fn compute_round_security_window_end(
    start_block: Uint256,
    round_length: Uint256,
    security_window: Uint256,
) -> (ends: Option<(Uint256, Uint256)>)
    ensures
        match ends {
            Some((round_end_block, security_window_end_block)) => {
                &&& round_end_block@ == start_block@ + round_length@
                &&& security_window_end_block@ == start_block@ + security_window@
            },
            None => start_block@ + round_length@ >= uint256_limit() || start_block@
                + security_window@ >= uint256_limit(),
        },
{
    let round_end = u256_checked_add(start_block, round_length);
    let window_end = u256_checked_add(start_block, security_window);
    match (round_end, window_end) {
        (Some(round_end_block), Some(security_window_end_block)) => Some(
            (round_end_block, security_window_end_block),
        ),
        _ => None,
    }
}

/// The round and its two boundaries. It is made once from the chain's
/// answers and then follows the block heights it is shown.
#[derive(Debug)]
pub struct RoundDetector {
    round_end_block: Uint256,
    security_window_end_block: Uint256,
    current_round: Uint256,
    security_window: Uint256,
}

impl View for RoundDetector {
    type V = RoundView;

    closed spec fn view(&self) -> RoundView {
        RoundView {
            current_round: self.current_round@,
            round_end_block: self.round_end_block@,
            security_window_end_block: self.security_window_end_block@,
            security_window: self.security_window@,
        }
    }
}

/// The view of a tracker that was made, or the error of one that was not.
pub open spec fn detector_view(made: Result<RoundDetector, WatchError>) -> Result<
    RoundView,
    WatchError,
> {
    match made {
        Ok(detector) => Ok(detector@),
        Err(error) => Err(error),
    }
}

impl RoundDetector {
    #[verifier::type_invariant]
    spec fn consistent(self) -> bool {
        self@.wf()
    }

    /// The tracker for the round that the chain reports, with a security
    /// window of `security_window` blocks from the round's start.
    ///
    /// Fails with `ChainQueryError` where the answers give boundaries beyond
    /// 256 bits.
    pub fn from_contract(reading: ChainReading, security_window: Uint256) -> (made: Result<
        RoundDetector,
        WatchError,
    >)
        ensures
            detector_view(made) == RoundView::starting(reading@, security_window@),
            made is Ok ==> made->Ok_0@.wf(),
    {
        match compute_round_security_window_end(
            reading.start_block,
            reading.round_length,
            security_window,
        ) {
            Some((round_end_block, security_window_end_block)) => {
                proof {
                    lemma_view_bound(reading.current_round);
                }
                Ok(
                    RoundDetector {
                        round_end_block,
                        security_window_end_block,
                        current_round: reading.current_round,
                        security_window,
                    },
                )
            },
            None => Err(WatchError::ChainQueryError),
        }
    }

    /// The tracker from the answers to the three queries made at startup,
    /// each of them nothing where its query did not complete.
    ///
    /// Fails with `ChainQueryError` where an answer is missing, and where
    /// the answers give boundaries beyond 256 bits.
    pub fn initialize(
        current_round: Option<Uint256>,
        start_block: Option<Uint256>,
        round_length: Option<Uint256>,
        security_window: Uint256,
    ) -> (made: Result<RoundDetector, WatchError>)
        ensures
            detector_view(made) == match (current_round, start_block, round_length) {
                (Some(round), Some(start), Some(length)) => RoundView::starting(
                    ReadingView {
                        current_round: round@,
                        start_block: start@,
                        round_length: length@,
                    },
                    security_window@,
                ),
                _ => Err(WatchError::ChainQueryError),
            },
            made is Ok ==> made->Ok_0@.wf(),
    {
        match (current_round, start_block, round_length) {
            (Some(current_round), Some(start_block), Some(round_length)) => {
                RoundDetector::from_contract(
                    ChainReading { current_round, start_block, round_length },
                    security_window,
                )
            },
            _ => Err(WatchError::ChainQueryError),
        }
    }

    /// The number of the current round.
    pub fn get_current_round(&self) -> (round: Uint256)
        ensures
            round@ == self@.current_round,
    {
        self.current_round
    }

    /// The first block that is no longer in the current round.
    pub fn round_end_block(&self) -> (block: Uint256)
        ensures
            block@ == self@.round_end_block,
    {
        self.round_end_block
    }

    /// The block at which the security window of the current round ends.
    pub fn security_window_end_block(&self) -> (block: Uint256)
        ensures
            block@ == self@.security_window_end_block,
    {
        self.security_window_end_block
    }

    /// Whether a block at this height is at or past the round's end, so that
    /// the chain's round counter has to be asked.
    pub fn round_end_reached(&self, block_number: Uint256) -> (reached: bool)
        ensures
            reached == self@.round_end_reached(block_number@),
    {
        !u256_less_than(block_number, self.round_end_block)
    }

    /// How a fetched round counter stands against the tracked round.
    pub fn round_change(&self, fetched_round: Uint256) -> (change: RoundChange)
        ensures
            change == self@.round_change(fetched_round@),
    {
        match u256_checked_add(self.current_round, Uint256::from_u64(1)) {
            Some(next) => {
                if fetched_round.equals(&next) {
                    RoundChange::Advanced
                } else if u256_less_than(next, fetched_round) {
                    RoundChange::Skipped
                } else {
                    RoundChange::Unchanged
                }
            },
            None => {
                proof {
                    lemma_view_bound(fetched_round);
                }
                RoundChange::Unchanged
            },
        }
    }

    /// Whether a new round starts with this block, given the chain's answers.
    /// The answers are looked at only where the block is at or past the
    /// round's end. On `Ok(true)` the round has moved on by one and both
    /// boundaries come from the reading; in every other case nothing changes.
    pub fn has_new_round_started(
        &mut self,
        block_number: Uint256,
        reading: &ChainReading,
    ) -> (started: Result<bool, WatchError>)
        ensures
            final(self)@ == old(self)@.round_transition(block_number@, reading@).state,
            started == old(self)@.round_transition(block_number@, reading@).outcome,
            final(self)@.wf(),
    {
        proof {
            use_type_invariant(&*self);
        }
        if !self.round_end_reached(block_number) {
            return Ok(false);
        }
        match self.round_change(reading.current_round) {
            RoundChange::Unchanged => Ok(false),
            RoundChange::Skipped => Err(WatchError::SkippedRoundError),
            RoundChange::Advanced => {
                match compute_round_security_window_end(
                    reading.start_block,
                    reading.round_length,
                    self.security_window,
                ) {
                    Some((round_end_block, security_window_end_block)) => {
                        proof {
                            lemma_view_bound(reading.current_round);
                        }
                        *self = RoundDetector {
                            round_end_block,
                            security_window_end_block,
                            current_round: reading.current_round,
                            security_window: self.security_window,
                        };
                        Ok(true)
                    },
                    None => Err(WatchError::ChainQueryError),
                }
            },
        }
    }

    /// Whether this block is the one at which the security window ends.
    pub fn reached_security_window(&self, block_number: Uint256) -> (reached: bool)
        ensures
            reached == (block_number@ == self@.security_window_end_block),
    {
        block_number.equals(&self.security_window_end_block)
    }

    /// The signal of one block, given the chain's answers. The answers are
    /// looked at only where the block is at or past the round's end.
    pub fn observe_block(&mut self, block_number: Uint256, reading: &ChainReading) -> (signal:
        Result<RoundSignal, WatchError>)
        ensures
            final(self)@ == old(self)@.observe(block_number@, reading@).state,
            signal == old(self)@.observe(block_number@, reading@).outcome,
            final(self)@.wf(),
    {
        proof {
            use_type_invariant(&*self);
        }
        if self.round_end_reached(block_number) {
            match self.has_new_round_started(block_number, reading) {
                Ok(true) => Ok(RoundSignal::RoundStarted),
                Ok(false) => Ok(RoundSignal::Quiet),
                Err(e) => Err(e),
            }
        } else if self.reached_security_window(block_number) {
            Ok(RoundSignal::SecurityWindowReached)
        } else {
            Ok(RoundSignal::Quiet)
        }
    }
}

/// One block shown to the tracker, with what the chain answers at that
/// moment.
pub struct Sighting {
    pub block_number: nat,
    pub reading: ReadingView,
}

impl RoundView {
    /// The tracked round after a run of sightings, each observed in turn. A
    /// sighting that fails leaves the round as it was.
    pub open spec fn after(self, sightings: Seq<Sighting>) -> RoundView
        decreases sightings.len(),
    {
        if sightings.len() == 0 {
            self
        } else {
            self.after(sightings.drop_last()).observe(
                sightings.last().block_number,
                sightings.last().reading,
            ).state
        }
    }

    /// How many sightings of a run gave `RoundStarted`.
    pub open spec fn rounds_started(self, sightings: Seq<Sighting>) -> nat
        decreases sightings.len(),
    {
        if sightings.len() == 0 {
            0
        } else {
            let before = self.after(sightings.drop_last());
            let last = before.observe(sightings.last().block_number, sightings.last().reading);
            self.rounds_started(sightings.drop_last()) + if last.outcome == Ok::<
                RoundSignal,
                WatchError,
            >(RoundSignal::RoundStarted) {
                1nat
            } else {
                0nat
            }
        }
    }
}

/// One observation moves the round on by exactly one where it gives
/// `RoundStarted`, and leaves it where it gives anything else. Boundaries
/// that were consistent stay so.
pub proof fn law_round_moves_with_signal(round: RoundView, block_number: nat, reading: ReadingView)
    ensures
        round.observe(block_number, reading).outcome == Ok::<RoundSignal, WatchError>(
            RoundSignal::RoundStarted,
        ) ==> round.observe(block_number, reading).state.current_round == round.current_round + 1,
        round.observe(block_number, reading).outcome != Ok::<RoundSignal, WatchError>(
            RoundSignal::RoundStarted,
        ) ==> round.observe(block_number, reading).state == round,
        round.wf() && reading.current_round < uint256_limit() ==> round.observe(
            block_number,
            reading,
        ).state.wf(),
{
}

/// Over any run of sightings the round grows by exactly the number of
/// `RoundStarted` signals given.
pub proof fn law_round_counts_starts(round: RoundView, sightings: Seq<Sighting>)
    ensures
        round.after(sightings).current_round == round.current_round + round.rounds_started(
            sightings,
        ),
    decreases sightings.len(),
{
    if sightings.len() > 0 {
        law_round_counts_starts(round, sightings.drop_last());
        law_round_moves_with_signal(
            round.after(sightings.drop_last()),
            sightings.last().block_number,
            sightings.last().reading,
        );
    }
}

/// Over any run of sightings the round never goes down: after the first
/// `seen` of them it is no higher than after all of them.
pub proof fn law_round_never_decreases(round: RoundView, sightings: Seq<Sighting>, seen: int)
    requires
        0 <= seen <= sightings.len(),
    ensures
        round.after(sightings.take(seen)).current_round <= round.after(sightings).current_round,
    decreases sightings.len(),
{
    if seen == sightings.len() {
        assert(sightings.take(seen) =~= sightings);
    } else {
        law_round_never_decreases(round, sightings.drop_last(), seen);
        assert(sightings.drop_last().take(seen) =~= sightings.take(seen));
        law_round_moves_with_signal(
            round.after(sightings.drop_last()),
            sightings.last().block_number,
            sightings.last().reading,
        );
    }
}

/// `RoundStarted` fires once for one move of the chain's counter: after it
/// fired, no block gives it again while the chain still reports the same
/// round, the same block shown a second time included.
pub proof fn law_round_started_fires_once(
    round: RoundView,
    block_number: nat,
    reading: ReadingView,
    next_block_number: nat,
    next_reading: ReadingView,
)
    requires
        round.observe(block_number, reading).outcome == Ok::<RoundSignal, WatchError>(
            RoundSignal::RoundStarted,
        ),
        next_reading.current_round == reading.current_round,
    ensures
        round.observe(block_number, reading).state.observe(
            next_block_number,
            next_reading,
        ).outcome != Ok::<RoundSignal, WatchError>(RoundSignal::RoundStarted),
        round.observe(block_number, reading).state.observe(
            next_block_number,
            next_reading,
        ).state == round.observe(block_number, reading).state,
{
}

/// Before the round's end the chain's answers play no part: whatever they
/// are, the observation gives the same signal and leaves the round alone.
pub proof fn law_chain_is_asked_at_round_end_only(
    round: RoundView,
    block_number: nat,
    reading: ReadingView,
    other_reading: ReadingView,
)
    requires
        block_number < round.round_end_block,
    ensures
        round.observe(block_number, reading) == round.observe(block_number, other_reading),
        round.observe(block_number, reading).state == round,
{
}

/// Before the round's end, `SecurityWindowReached` is given for the block
/// whose height is the window's end at that moment, and for no other.
pub proof fn law_security_window_signal(round: RoundView, block_number: nat, reading: ReadingView)
    requires
        block_number < round.round_end_block,
    ensures
        round.observe(block_number, reading).outcome == Ok::<RoundSignal, WatchError>(
            RoundSignal::SecurityWindowReached,
        ) <==> block_number == round.security_window_end_block,
{
}

/// A chain counter two or more ahead at or past the round's end is a skipped
/// round: the observation fails and the tracked round does not move.
pub proof fn law_skipped_round_is_fatal(round: RoundView, block_number: nat, reading: ReadingView)
    requires
        block_number >= round.round_end_block,
        reading.current_round >= round.current_round + 2,
    ensures
        round.observe(block_number, reading).outcome == Err::<RoundSignal, WatchError>(
            WatchError::SkippedRoundError,
        ),
        round.observe(block_number, reading).state == round,
{
}

} // verus!
