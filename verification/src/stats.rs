//! Block statistics: how many of a run's transactions each finalized block
//! held, and what became of all of them when the run is over.

use vstd::prelude::*;
use crate::chain::{BlockHeader, ExtrinsicEvent, SubmitOutcome, TxKey};
use crate::error::Error;
use crate::tracker::{
    count_successes, observing_conserves, ran_well, resolved_by, successes, Tracker, TrackerState,
};
use crate::BlockHash;

verus! {

/// The character of one decimal digit.
pub open spec fn digit(d: nat) -> char {
    ((48 + d) as u8) as char
}

/// A number written in decimal digits, without leading zeros.
pub open spec fn decimal(n: nat) -> Seq<char>
    decreases n,
{
    if n < 10 {
        seq![digit(n)]
    } else {
        decimal(n / 10).push(digit(n % 10))
    }
}

/// The text of one line of statistics: the block's height, how many of the
/// run's calls it held, and how many of those failed.
pub open spec fn stats_line(height: u64, included: u64, failed: u64) -> Seq<char> {
    "block "@ + decimal(height as nat) + ": "@ + decimal(included as nat) + " calls included, "@
        + decimal(failed as nat) + " of them failed"@
}

/// Writes one line of statistics with `format!`. The contract claims what
/// the macro is documented to do: the fixed words are copied as they stand,
/// and each number is written in decimal digits without leading zeros.
#[verifier::external_body]
fn format_stats(height: u64, included: u64, failed: u64) -> (out: String)
    ensures
        out@ == stats_line(height, included, failed),
{
    format!("block {}: {} calls included, {} of them failed", height, included, failed)
}

/// What one finalized block held of the run's transactions.
#[derive(Debug)]
pub struct BlockStats {
    pub block: BlockHash,
    pub height: u64,
    /// How many of the run's transactions the block held.
    pub included: u64,
    /// How many of those failed.
    pub failed: u64,
    /// The same as one line of text.
    pub stats: String,
}

/// Where a run stands.
#[derive(Clone, Copy, Debug, PartialEq, Eq, Structural)]
pub enum RunStatus {
    /// Transactions are still being dispatched or waited for.
    Running,
    /// Every transaction is settled and none is to come.
    Complete,
    /// The observation window ended first; what is outstanding is dropped.
    TimedOut,
    /// The connection to the node was lost.
    Disconnected,
}

impl RunStatus {
    /// The failure that ended the run, if one did: `Error::Timeout` for a
    /// run that timed out, `Error::Network` for a lost connection.
    pub fn error(self) -> (out: Option<Error>)
        ensures
            out == match self {
                RunStatus::Running => None::<Error>,
                RunStatus::Complete => None::<Error>,
                RunStatus::TimedOut => Some(Error::Timeout),
                RunStatus::Disconnected => Some(Error::Network),
            },
    {
        match self {
            RunStatus::Running => None,
            RunStatus::Complete => None,
            RunStatus::TimedOut => Some(Error::Timeout),
            RunStatus::Disconnected => Some(Error::Network),
        }
    }
}

/// What became of the transactions of a run.
#[derive(Clone, Copy, Debug, PartialEq, Eq, Structural)]
pub struct Summary {
    /// Included in a block, and ran to success.
    pub succeeded: u64,
    /// Included in a block, and failed.
    pub failed: u64,
    /// Taken by the node and not seen in any block.
    pub dropped: u64,
    /// Refused by the node.
    pub rejected: u64,
    pub status: RunStatus,
}

/// What can happen to a collector.
pub enum RunEvent {
    /// The node answered the submission of a transaction.
    Submitted(TxKey, SubmitOutcome),
    /// The last transaction has been dispatched.
    DispatchFinished,
    /// A finalized block of this height arrived, with these events.
    Block(u64, Seq<ExtrinsicEvent>),
    /// A wait went by without a block.
    Idle,
}

/// A collector as the contracts see it.
pub struct CollectorState {
    /// The transactions the node took and no block has held yet, and how
    /// much of the observation window is used up.
    pub tracker: TrackerState,
    /// How many submissions the node has answered.
    pub submitted: nat,
    pub rejected: nat,
    pub succeeded: nat,
    pub failed: nat,
    /// Whether more transactions are to come.
    pub dispatching: bool,
    /// Whether the connection to the node was lost.
    pub lost: bool,
    /// The height of the last block that statistics were emitted for.
    pub last_height: Option<u64>,
}

impl CollectorState {
    /// Every submission that the node answered is accounted for once:
    /// refused, included with or without success, or still outstanding.
    pub open spec fn balanced(self) -> bool {
        self.rejected + self.succeeded + self.failed + self.tracker.outstanding.len()
            == self.submitted
    }

    pub open spec fn wf(self) -> bool {
        &&& self.tracker.wf()
        &&& self.balanced()
        &&& self.submitted <= u64::MAX
    }

    /// A lost connection ends the run at once. Otherwise the run is complete
    /// when nothing is outstanding and nothing is to come, and timed out when
    /// the window is used up before that.
    pub open spec fn status(self) -> RunStatus {
        if self.lost {
            RunStatus::Disconnected
        } else if self.tracker.outstanding.len() == 0 && !self.dispatching {
            RunStatus::Complete
        } else if self.tracker.expired() {
            RunStatus::TimedOut
        } else {
            RunStatus::Running
        }
    }

    /// The state after the node's answer to one submission. An accepted
    /// transaction becomes outstanding, a refused one is counted, and a lost
    /// connection is remembered. Once dispatch is over or the connection is
    /// lost, answers are ignored.
    pub open spec fn on_submitted(self, key: TxKey, outcome: SubmitOutcome) -> CollectorState {
        if self.lost || !self.dispatching {
            self
        } else {
            match outcome {
                SubmitOutcome::Accepted => CollectorState {
                    tracker: TrackerState {
                        outstanding: self.tracker.outstanding.push(key),
                        ..self.tracker
                    },
                    submitted: self.submitted + 1,
                    ..self
                },
                SubmitOutcome::Rejected => CollectorState {
                    submitted: self.submitted + 1,
                    rejected: self.rejected + 1,
                    ..self
                },
                SubmitOutcome::NetworkDown => CollectorState { lost: true, ..self },
            }
        }
    }

    /// The state once no more transactions are to come.
    pub open spec fn dispatch_finished(self) -> CollectorState {
        CollectorState { dispatching: false, ..self }
    }

    /// Whether a block of this height is taken in: the run is running, and
    /// the block is above the last one taken in. The node may deliver a
    /// block more than once; only its first delivery counts.
    pub open spec fn observes(self, height: u64) -> bool {
        &&& self.status() == RunStatus::Running
        &&& match self.last_height {
            Some(last) => last < height,
            None => true,
        }
    }

    /// How many outstanding transactions a block of this height with these
    /// events holds, where the block is taken in.
    pub open spec fn included_in(self, height: u64, events: Seq<ExtrinsicEvent>) -> nat {
        if self.observes(height) {
            resolved_by(self.tracker.outstanding, events).len()
        } else {
            0
        }
    }

    /// How many of them failed.
    pub open spec fn failed_in(self, height: u64, events: Seq<ExtrinsicEvent>) -> nat {
        if self.observes(height) {
            (resolved_by(self.tracker.outstanding, events).len() - successes(
                resolved_by(self.tracker.outstanding, events),
            )) as nat
        } else {
            0
        }
    }

    /// The state after a finalized block. Where the block is taken in, the
    /// transactions that it holds are settled and counted; otherwise it
    /// changes nothing.
    pub open spec fn on_block(self, height: u64, events: Seq<ExtrinsicEvent>) -> CollectorState {
        if self.observes(height) {
            CollectorState {
                tracker: self.tracker.observe(events),
                succeeded: self.succeeded + successes(
                    resolved_by(self.tracker.outstanding, events),
                ),
                failed: self.failed + self.failed_in(height, events),
                last_height: Some(height),
                ..self
            }
        } else {
            self
        }
    }

    /// The state after a wait without a block.
    pub open spec fn on_idle(self) -> CollectorState {
        if self.status() == RunStatus::Running {
            CollectorState { tracker: self.tracker.idle(), ..self }
        } else {
            self
        }
    }

    /// The state after `event`.
    pub open spec fn apply(self, event: RunEvent) -> CollectorState {
        match event {
            RunEvent::Submitted(key, outcome) => self.on_submitted(key, outcome),
            RunEvent::DispatchFinished => self.dispatch_finished(),
            RunEvent::Block(height, events) => self.on_block(height, events),
            RunEvent::Idle => self.on_idle(),
        }
    }

    /// The count in the statistics that `event` makes the collector emit;
    /// 0 where it emits none.
    pub open spec fn emitted(self, event: RunEvent) -> nat {
        match event {
            RunEvent::Block(height, events) => self.included_in(height, events),
            _ => 0,
        }
    }
}

/// The state that a sequence of events leads to.
pub open spec fn after(start: CollectorState, events: Seq<RunEvent>) -> CollectorState
    decreases events.len(),
{
    if events.len() == 0 {
        start
    } else {
        after(start, events.drop_last()).apply(events.last())
    }
}

/// The sum of the counts in all the statistics emitted along a sequence of
/// events.
pub open spec fn included_total(start: CollectorState, events: Seq<RunEvent>) -> nat
    decreases events.len(),
{
    if events.len() == 0 {
        0
    } else {
        included_total(start, events.drop_last()) + after(start, events.drop_last()).emitted(
            events.last(),
        )
    }
}

/// Collects the statistics of one run.
#[derive(Debug)]
pub struct Collector {
    tracker: Tracker,
    submitted: u64,
    rejected: u64,
    succeeded: u64,
    failed: u64,
    dispatching: bool,
    lost: bool,
    last_height: Option<u64>,
}

impl View for Collector {
    type V = CollectorState;

    closed spec fn view(&self) -> CollectorState {
        CollectorState {
            tracker: self.tracker@,
            submitted: self.submitted as nat,
            rejected: self.rejected as nat,
            succeeded: self.succeeded as nat,
            failed: self.failed as nat,
            dispatching: self.dispatching,
            lost: self.lost,
            last_height: self.last_height,
        }
    }
}

impl Collector {
    pub open spec fn wf(&self) -> bool {
        self@.wf()
    }

    /// The state of a collector for a run that is about to dispatch, with
    /// an observation window of `limit` steps.
    pub open spec fn fresh(limit: nat) -> CollectorState {
        CollectorState {
            tracker: TrackerState { outstanding: Seq::empty(), waited: 0, limit },
            submitted: 0,
            rejected: 0,
            succeeded: 0,
            failed: 0,
            dispatching: true,
            lost: false,
            last_height: None,
        }
    }

    /// A collector for a run that is about to dispatch, with an observation
    /// window of `max_blocks` steps.
    pub fn new(max_blocks: u64) -> (out: Collector)
        ensures
            out.wf(),
            out@ == Collector::fresh(max_blocks as nat),
    {
        Collector {
            tracker: Tracker::new(max_blocks),
            submitted: 0,
            rejected: 0,
            succeeded: 0,
            failed: 0,
            dispatching: true,
            lost: false,
            last_height: None,
        }
    }

    /// Where the run stands.
    pub fn status(&self) -> (out: RunStatus)
        requires
            self.wf(),
        ensures
            out == self@.status(),
    {
        if self.lost {
            RunStatus::Disconnected
        } else if self.tracker.outstanding_count() == 0 && !self.dispatching {
            RunStatus::Complete
        } else if self.tracker.expired() {
            RunStatus::TimedOut
        } else {
            RunStatus::Running
        }
    }

    /// Whether the run is over.
    pub fn finished(&self) -> (out: bool)
        requires
            self.wf(),
        ensures
            out == (self@.status() != RunStatus::Running),
    {
        match self.status() {
            RunStatus::Running => false,
            _ => true,
        }
    }

    /// Takes in the node's answer to the submission of the transaction `key`.
    pub fn on_submitted(&mut self, key: TxKey, outcome: SubmitOutcome)
        requires
            old(self).wf(),
            old(self)@.submitted < u64::MAX,
        ensures
            final(self).wf(),
            final(self)@ == old(self)@.on_submitted(key, outcome),
    {
        if self.lost || !self.dispatching {
            return ;
        }
        match outcome {
            SubmitOutcome::Accepted => {
                self.tracker.track(key);
                self.submitted = self.submitted + 1;
            },
            SubmitOutcome::Rejected => {
                self.submitted = self.submitted + 1;
                self.rejected = self.rejected + 1;
            },
            SubmitOutcome::NetworkDown => {
                self.lost = true;
            },
        }
    }

    /// Takes in that no more transactions are to come.
    pub fn dispatch_finished(&mut self)
        requires
            old(self).wf(),
        ensures
            final(self).wf(),
            final(self)@ == old(self)@.dispatch_finished(),
    {
        self.dispatching = false;
    }

    /// Takes in one finalized block. While the run is running, the
    /// statistics of a block are returned the first time the block arrives;
    /// for a block delivered again, and once the run is over, nothing is.
    pub fn on_block(&mut self, header: &BlockHeader, events: &Vec<ExtrinsicEvent>) -> (out: Option<
        BlockStats,
    >)
        requires
            old(self).wf(),
        ensures
            final(self).wf(),
            final(self)@ == old(self)@.on_block(header.height, events@),
            out is Some <==> old(self)@.observes(header.height),
            out is Some ==> {
                &&& out->Some_0.block == header.id
                &&& out->Some_0.height == header.height
                &&& out->Some_0.included == old(self)@.included_in(header.height, events@)
                &&& out->Some_0.failed == old(self)@.failed_in(header.height, events@)
                &&& out->Some_0.stats@ == stats_line(
                    header.height,
                    out->Some_0.included,
                    out->Some_0.failed,
                )
            },
    {
        if self.finished() {
            return None;
        }
        if let Some(last) = self.last_height {
            if header.height <= last {
                return None;
            }
        }
        proof {
            observing_conserves(self.tracker@.outstanding, events@);
        }
        let resolved = self.tracker.observe(events);
        let good = count_successes(&resolved);
        let included = resolved.len() as u64;
        let failed = (resolved.len() - good) as u64;
        self.succeeded = self.succeeded + good as u64;
        self.failed = self.failed + failed;
        self.last_height = Some(header.height);
        Some(
            BlockStats {
                block: header.id,
                height: header.height,
                included,
                failed,
                stats: format_stats(header.height, included, failed),
            },
        )
    }

    /// Takes in a wait in which no block arrived.
    pub fn on_idle(&mut self)
        requires
            old(self).wf(),
        ensures
            final(self).wf(),
            final(self)@ == old(self)@.on_idle(),
    {
        if self.finished() {
            return ;
        }
        self.tracker.idle();
    }

    /// How many submissions the node has answered so far.
    pub fn submitted(&self) -> (out: u64)
        ensures
            out == self@.submitted,
    {
        self.submitted
    }

    /// What became of the run's transactions so far. The four counts add up
    /// to the number of submissions that the node answered.
    pub fn summary(&self) -> (out: Summary)
        requires
            self.wf(),
        ensures
            out.succeeded == self@.succeeded,
            out.failed == self@.failed,
            out.dropped == self@.tracker.outstanding.len(),
            out.rejected == self@.rejected,
            out.status == self@.status(),
            out.succeeded + out.failed + out.dropped + out.rejected == self@.submitted,
    {
        Summary {
            succeeded: self.succeeded,
            failed: self.failed,
            dropped: self.tracker.outstanding_count() as u64,
            rejected: self.rejected,
            status: self.status(),
        }
    }

    /// The transactions that the node took and no block has held.
    pub fn unresolved(&self) -> (out: Vec<TxKey>)
        ensures
            out@ == self@.tracker.outstanding,
    {
        self.tracker.outstanding()
    }
}

/// Every event keeps the books balanced, and a block adds to the included
/// transactions exactly the count that its statistics give.
pub proof fn event_keeps_balance(state: CollectorState, event: RunEvent)
    requires
        state.balanced(),
    ensures
        state.apply(event).balanced(),
        state.apply(event).succeeded + state.apply(event).failed == state.succeeded + state.failed
            + state.emitted(event),
        state.apply(event).submitted >= state.submitted,
{
    match event {
        RunEvent::Block(_, events) => {
            observing_conserves(state.tracker.outstanding, events);
            resolved_by(state.tracker.outstanding, events).lemma_filter_len(ran_well());
        },
        _ => {},
    }
}

/// Over a whole run, the counts of all the statistics emitted add up to the
/// number of transactions that were included since the start, and so never
/// to more than the number of transactions submitted.
pub proof fn included_never_exceeds_submitted(start: CollectorState, events: Seq<RunEvent>)
    requires
        start.balanced(),
    ensures
        after(start, events).balanced(),
        start.succeeded + start.failed + included_total(start, events) == after(
            start,
            events,
        ).succeeded + after(start, events).failed,
        start.succeeded + start.failed + included_total(start, events) <= after(
            start,
            events,
        ).submitted,
    decreases events.len(),
{
    if events.len() > 0 {
        included_never_exceeds_submitted(start, events.drop_last());
        event_keeps_balance(after(start, events.drop_last()), events.last());
    }
}

/// A run with nothing outstanding and nothing to come is complete for good:
/// no event changes it, and no block makes it emit statistics. A run that
/// ends its dispatch without having submitted anything is such a run.
pub proof fn complete_run_emits_nothing(state: CollectorState, events: Seq<RunEvent>)
    requires
        state.status() == RunStatus::Complete,
    ensures
        after(state, events) == state,
        included_total(state, events) == 0,
        forall|event: RunEvent| #[trigger] state.emitted(event) == 0 && state.apply(event) == state,
        forall|limit: nat| #[trigger]
            Collector::fresh(limit).dispatch_finished().status() == RunStatus::Complete,
    decreases events.len(),
{
    if events.len() > 0 {
        complete_run_emits_nothing(state, events.drop_last());
    }
}

/// How many of `events` are waits that went by without a block.
pub open spec fn idle_waits(events: Seq<RunEvent>) -> nat
    decreases events.len(),
{
    if events.len() == 0 {
        0
    } else {
        idle_waits(events.drop_last()) + match events.last() {
            RunEvent::Idle => 1nat,
            _ => 0nat,
        }
    }
}

/// How many of `events`, coming after the state `start`, used up a step of
/// the observation window: the waits without a block while the run was
/// running, and the blocks that were taken in.
pub open spec fn window_steps(start: CollectorState, events: Seq<RunEvent>) -> nat
    decreases events.len(),
{
    if events.len() == 0 {
        0
    } else {
        let before = after(start, events.drop_last());
        window_steps(start, events.drop_last()) + match events.last() {
            RunEvent::Idle => if before.status() == RunStatus::Running {
                1nat
            } else {
                0nat
            },
            RunEvent::Block(height, _) => if before.observes(height) {
                1nat
            } else {
                0nat
            },
            _ => 0nat,
        }
    }
}

/// A run that is over stays over, and a run cannot outlast its window. Every
/// wait without a block while the run is running, and every block taken in,
/// uses up one step of the window, and nothing else does. So once as many
/// waits have gone by as the window had steps left, the run is over, even if
/// no block ever came.
pub proof fn run_ends_with_the_window(start: CollectorState, events: Seq<RunEvent>)
    requires
        start.tracker.waited <= start.tracker.limit,
    ensures
        after(start, events).tracker.limit == start.tracker.limit,
        after(start, events).tracker.waited <= start.tracker.limit,
        after(start, events).tracker.waited == start.tracker.waited + window_steps(start, events),
        start.status() != RunStatus::Running ==> after(start, events).status()
            != RunStatus::Running,
        after(start, events).status() == RunStatus::Running ==> window_steps(start, events)
            >= idle_waits(events),
        start.tracker.waited + window_steps(start, events) >= start.tracker.limit ==> after(
            start,
            events,
        ).status() != RunStatus::Running,
        start.tracker.waited + idle_waits(events) >= start.tracker.limit ==> after(
            start,
            events,
        ).status() != RunStatus::Running,
    decreases events.len(),
{
    if events.len() > 0 {
        run_ends_with_the_window(start, events.drop_last());
    }
}

/// Statistics are emitted in the order of the blocks' heights: every block
/// that is taken in is above the one taken in before it, and becomes the
/// last one taken in.
pub proof fn blocks_are_counted_once(state: CollectorState, height: u64, events: Seq<ExtrinsicEvent>)
    ensures
        state.observes(height) ==> state.on_block(height, events).last_height == Some(height)
            && !state.on_block(height, events).observes(height),
        state.observes(height) && state.last_height is Some ==> state.last_height->Some_0
            < height,
        !state.observes(height) ==> state.on_block(height, events) == state && state.included_in(
            height,
            events,
        ) == 0,
{
}

} // verus!
