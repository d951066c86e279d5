//! The schedule of the transfers of one edge.
//!
//! A `Pipeline` decides when the transfer of each missing asset may start,
//! so that no more than `MAX_IN_FLIGHT` are under way at once, and collects
//! how each one ended.  The caller polls it, starts what it is told to
//! start, and reports each transfer that ends.

use crate::transfer::TransferOutcome;
use vstd::prelude::*;

verus! {

/// The largest number of transfers that are under way at one time.
pub const MAX_IN_FLIGHT: usize = 4;

/// What the caller of a pipeline does next.
#[derive(Debug, Clone, Copy, PartialEq, Eq, Structural)]
pub enum Poll {
    /// Start the transfer of the asset at this position of the missing set.
    Start(usize),
    /// Wait for one of the transfers under way to end, and report it.
    Wait,
    /// Nothing is left to start and nothing is under way.
    Finished,
}

/// The number of positions below `upto` of `results` without an outcome.
pub open spec fn open_slots(results: Seq<Option<TransferOutcome>>, upto: int) -> nat
    decreases upto,
{
    if upto <= 0 {
        0
    } else {
        open_slots(results, upto - 1) + if results[upto - 1] is None {
            1nat
        } else {
            0nat
        }
    }
}

/// The state of a pipeline.
pub struct PipelineView {
    /// Whether the run only reports what it would transfer.
    pub dry_run: bool,
    /// The number of transfers that were started: those of the positions
    /// below it.
    pub started: nat,
    /// The outcome of each position of the missing set, once it is known.
    pub results: Seq<Option<TransferOutcome>>,
}

impl PipelineView {
    /// The number of assets in the missing set.
    pub open spec fn total(self) -> nat {
        self.results.len()
    }

    /// The number of transfers under way: started, and not ended.
    pub open spec fn running(self) -> nat {
        open_slots(self.results, self.started as int)
    }

    /// What holds of every pipeline: transfers start in order, no more than
    /// `MAX_IN_FLIGHT` are under way, only a started transfer has an
    /// outcome, and a dry run starts nothing.
    pub open spec fn wf(self) -> bool {
        &&& self.started <= self.total() <= usize::MAX
        &&& self.running() <= MAX_IN_FLIGHT
        &&& forall|i: int| self.started <= i < self.total() ==> self.results[i] is None
        &&& self.dry_run ==> self.started == 0
    }

    /// The pipeline for a missing set of `total` assets.
    pub open spec fn initial(total: nat, dry_run: bool) -> PipelineView {
        PipelineView { dry_run, started: 0, results: Seq::new(total, |i: int| None) }
    }

    /// What a poll answers.  A dry run is finished from the start.  Else
    /// the next asset starts while one is left and fewer than
    /// `MAX_IN_FLIGHT` are under way; else the caller waits while any is
    /// under way.
    pub open spec fn poll(self) -> Poll {
        if self.dry_run {
            Poll::Finished
        } else if self.started < self.total() && self.running() < MAX_IN_FLIGHT {
            Poll::Start(self.started as usize)
        } else if self.running() > 0 {
            Poll::Wait
        } else {
            Poll::Finished
        }
    }

    /// The state after a poll: one more transfer is started where the poll
    /// said so.
    pub open spec fn polled(self) -> PipelineView {
        if self.poll() is Start {
            PipelineView { started: self.started + 1, ..self }
        } else {
            self
        }
    }

    /// Whether the transfer at `index` is under way.
    pub open spec fn under_way(self, index: int) -> bool {
        0 <= index < self.started && self.results[index] is None
    }

    /// The state after the transfer at `index` ended with `outcome`; the
    /// report of a transfer that is not under way is dropped.
    pub open spec fn completed(self, index: int, outcome: TransferOutcome) -> PipelineView {
        if self.under_way(index) {
            PipelineView { results: self.results.update(index, Some(outcome)), ..self }
        } else {
            self
        }
    }
}

/// Filling an open position takes one from the count of open positions.
pub proof fn lemma_open_slots_update(
    results: Seq<Option<TransferOutcome>>,
    upto: int,
    index: int,
    outcome: TransferOutcome,
)
    requires
        0 <= index < upto <= results.len(),
        results[index] is None,
    ensures
        open_slots(results.update(index, Some(outcome)), upto) + 1 == open_slots(results, upto),
    decreases upto,
{
    let filled = results.update(index, Some(outcome));
    if index == upto - 1 {
        lemma_open_slots_same(results, filled, upto - 1);
    } else {
        lemma_open_slots_update(results, upto - 1, index, outcome);
    }
}

/// The count of open positions depends on the positions counted only.
pub proof fn lemma_open_slots_same(
    a: Seq<Option<TransferOutcome>>,
    b: Seq<Option<TransferOutcome>>,
    upto: int,
)
    requires
        upto <= a.len(),
        upto <= b.len(),
        forall|i: int| 0 <= i < upto ==> a[i] == b[i],
    ensures
        open_slots(a, upto) == open_slots(b, upto),
    decreases upto,
{
    if upto > 0 {
        lemma_open_slots_same(a, b, upto - 1);
    }
}

/// Where no position is open, every position has an outcome.
pub proof fn lemma_open_slots_none(results: Seq<Option<TransferOutcome>>, upto: int)
    requires
        upto <= results.len(),
        open_slots(results, upto) == 0,
    ensures
        forall|i: int| 0 <= i < upto ==> results[i] is Some,
    decreases upto,
{
    if upto > 0 {
        lemma_open_slots_none(results, upto - 1);
    }
}

/// The schedule of the transfers of one edge.
pub struct Pipeline {
    dry_run: bool,
    started: usize,
    in_flight: usize,
    outcomes: Vec<Option<TransferOutcome>>,
}

impl View for Pipeline {
    type V = PipelineView;

    closed spec fn view(&self) -> PipelineView {
        PipelineView {
            dry_run: self.dry_run,
            started: self.started as nat,
            results: self.outcomes@,
        }
    }
}

impl Pipeline {
    /// The state is well formed, and the count of transfers under way is
    /// kept up to date.
    #[verifier::type_invariant]
    spec fn inv(&self) -> bool {
        &&& self@.wf()
        &&& self.in_flight == self@.running()
    }

    /// The pipeline for a missing set of `total` assets.  With `dry_run`
    /// set it never starts a transfer.
    pub fn new(total: usize, dry_run: bool) -> (pipeline: Pipeline)
        ensures
            pipeline@ == PipelineView::initial(total as nat, dry_run),
            pipeline@.wf(),
    {
        let mut outcomes: Vec<Option<TransferOutcome>> = Vec::new();
        let mut i: usize = 0;
        while i < total
            invariant
                i <= total,
                outcomes@ == Seq::new(i as nat, |k: int| None::<TransferOutcome>),
            decreases total - i,
        {
            outcomes.push(None);
            i += 1;
            assert(outcomes@ =~= Seq::new(i as nat, |k: int| None::<TransferOutcome>));
        }
        Pipeline { dry_run, started: 0, in_flight: 0, outcomes }
    }

    /// Says what the caller does next.  The pipeline that comes back counts
    /// the transfer that the caller is told to start as under way.
    pub fn poll(self) -> (next: (Pipeline, Poll))
        ensures
            next.1 == self@.poll(),
            next.0@ == self@.polled(),
            next.0@.wf(),
    {
        proof {
            use_type_invariant(&self);
        }
        let Pipeline { dry_run, started, in_flight, outcomes } = self;
        if dry_run {
            (Pipeline { dry_run, started, in_flight, outcomes }, Poll::Finished)
        } else if started < outcomes.len() && in_flight < MAX_IN_FLIGHT {
            (
                Pipeline { dry_run, started: started + 1, in_flight: in_flight + 1, outcomes },
                Poll::Start(started),
            )
        } else if in_flight > 0 {
            (Pipeline { dry_run, started, in_flight, outcomes }, Poll::Wait)
        } else {
            (Pipeline { dry_run, started, in_flight, outcomes }, Poll::Finished)
        }
    }

    /// Records that the transfer at `index` ended with `outcome`.
    ///
    /// Says, beside the pipeline that comes back, whether the transfer was
    /// under way; the report of one that was not is dropped.
    pub fn complete(self, index: usize, outcome: TransferOutcome) -> (next: (Pipeline, bool))
        ensures
            next.1 == self@.under_way(index as int),
            next.0@ == self@.completed(index as int, outcome),
            next.0@.wf(),
    {
        proof {
            use_type_invariant(&self);
        }
        let Pipeline { dry_run, started, in_flight, mut outcomes } = self;
        if index < started && outcomes[index].is_none() {
            proof {
                lemma_open_slots_update(outcomes@, started as int, index as int, outcome);
            }
            outcomes.set(index, Some(outcome));
            (Pipeline { dry_run, started, in_flight: in_flight - 1, outcomes }, true)
        } else {
            (Pipeline { dry_run, started, in_flight, outcomes }, false)
        }
    }

    /// The number of transfers under way.  It never exceeds
    /// `MAX_IN_FLIGHT`.
    pub fn in_flight(&self) -> (count: usize)
        ensures
            count == self@.running(),
            count <= MAX_IN_FLIGHT,
    {
        proof {
            use_type_invariant(self);
        }
        self.in_flight
    }

    /// Whether nothing is left to start and nothing is under way.
    pub fn is_finished(&self) -> (finished: bool)
        ensures
            finished == (self@.poll() is Finished),
    {
        proof {
            use_type_invariant(self);
        }
        self.dry_run || (self.started >= self.outcomes.len() && self.in_flight == 0)
    }

    /// The outcome of each asset of the missing set, in the order of the
    /// set; `None` for an asset whose transfer has not ended.
    pub fn into_outcomes(self) -> (outcomes: Vec<Option<TransferOutcome>>)
        ensures
            outcomes@ == self@.results,
    {
        self.outcomes
    }
}

/// The bound on concurrency is an invariant: the first state of a pipeline
/// has at most `MAX_IN_FLIGHT` transfers under way, and so has the state
/// after any poll and after any report of an ended transfer.
pub proof fn lemma_in_flight_bounded(
    total: nat,
    dry_run: bool,
    state: PipelineView,
    index: int,
    outcome: TransferOutcome,
)
    requires
        total <= usize::MAX,
        state.wf(),
    ensures
        PipelineView::initial(total, dry_run).wf(),
        state.polled().wf(),
        state.completed(index, outcome).wf(),
        state.running() <= MAX_IN_FLIGHT,
        state.polled().running() <= MAX_IN_FLIGHT,
        state.completed(index, outcome).running() <= MAX_IN_FLIGHT,
{
    if state.under_way(index) {
        lemma_open_slots_update(state.results, state.started as int, index, outcome);
    }
}

/// A dry run starts nothing: from its first state on, every poll answers
/// that the pipeline is finished and leaves the state as it was, no
/// transfer is under way, and no outcome is recorded, whatever is reported.
pub proof fn lemma_dry_run_starts_nothing(
    total: nat,
    state: PipelineView,
    index: int,
    outcome: TransferOutcome,
)
    requires
        state.wf(),
        state.dry_run,
    ensures
        PipelineView::initial(total, true).dry_run,
        state.poll() == Poll::Finished,
        state.polled() == state,
        state.running() == 0,
        !state.under_way(index),
        state.completed(index, outcome) == state,
        forall|i: int| 0 <= i < state.total() ==> state.results[i] is None,
{
}

/// A transfer that fails does not hold up the others: its failure is
/// recorded in its own position, every other position is as it was, and
/// where an asset is left to start, the next poll starts it.
pub proof fn lemma_failure_spares_siblings(
    state: PipelineView,
    index: int,
    error: crate::error::SyncError,
)
    requires
        state.wf(),
        state.under_way(index),
    ensures
        ({
            let after = state.completed(index, TransferOutcome::Failure { error });
            &&& after.wf()
            &&& after.results[index] == Some(TransferOutcome::Failure { error })
            &&& after.started == state.started
            &&& after.running() + 1 == state.running()
            &&& forall|i: int|
                0 <= i < state.total() && i != index ==> after.results[i] == state.results[i]
            &&& after.started < after.total() ==> after.poll() == Poll::Start(
                after.started as usize,
            )
        }),
{
    lemma_open_slots_update(
        state.results,
        state.started as int,
        index,
        TransferOutcome::Failure { error },
    );
}

/// When a run that is no dry run is finished, every asset of the missing
/// set has its outcome, success or failure.
pub proof fn lemma_finished_reports_all(state: PipelineView)
    requires
        state.wf(),
        !state.dry_run,
        state.poll() == Poll::Finished,
    ensures
        state.started == state.total(),
        forall|i: int| 0 <= i < state.total() ==> state.results[i] is Some,
{
    lemma_open_slots_none(state.results, state.started as int);
}

} // verus!
