//! Driving a whole sequence of records: the skip shortcut, the slot limit in front
//! of every download, and the final counts.

use vstd::prelude::*;
use crate::gate::Gate;
use crate::state::Counts;
use crate::state::DownloadState;
use crate::state::Outcome;
use crate::state::RunSummary;
use vstd::string::StringExecFns;

verus! {

/// What is to be done with the next record of the input.
#[derive(Clone, Copy, Debug, PartialEq, Eq, Structural)]
pub enum Dispatch {
    /// Its output exists: it was counted as skipped, nothing is fetched.
    Skip,
    /// A slot was taken for it: wait for a rate token, report it, then
    /// download.
    Start,
    /// All slots are taken: report a finished download first, then ask again.
    Wait,
    /// Every record of the input was dispatched before.
    Exhausted,
}

/// Mathematical value of a run.
pub ghost struct RunView {
    /// Number of records in the input.
    pub total: nat,
    /// Number of download slots.
    pub concurrency: nat,
    /// Records dispatched so far, skipped or started.
    pub dispatched: nat,
    /// Downloads started and not yet reported as finished.
    pub in_flight: nat,
    /// Downloads in flight that still wait for their rate token.
    pub awaiting_token: nat,
    /// Finished records by outcome.
    pub counts: Counts,
}

impl RunView {
    /// A run of `total` records before the first is dispatched.
    pub open spec fn initial(total: nat, concurrency: nat) -> RunView {
        RunView {
            total,
            concurrency,
            dispatched: 0,
            in_flight: 0,
            awaiting_token: 0,
            counts: Counts { success: 0, failed: 0, skipped: 0 },
        }
    }

    /// No record is lost or counted twice, and the slot limit holds: every
    /// dispatched record is either in flight or counted under one outcome,
    /// never more downloads are in flight than there are slots, and only
    /// downloads that hold a slot wait for a rate token.
    pub open spec fn wf(self) -> bool {
        &&& self.dispatched <= self.total
        &&& self.in_flight <= self.concurrency
        &&& self.awaiting_token <= self.in_flight
        &&& self.counts.total() + self.in_flight == self.dispatched
    }

    /// Every record was dispatched and every download has finished.
    pub open spec fn finished(self) -> bool {
        self.dispatched == self.total && self.in_flight == 0
    }

    /// Number of downloads started so far, finished or not. A record that
    /// is skipped never adds to it.
    pub open spec fn started(self) -> nat {
        self.counts.success + self.counts.failed + self.in_flight
    }

    /// The decision on the next record, given whether its output exists.
    pub open spec fn decide(self, exists: bool) -> Dispatch {
        if self.dispatched >= self.total {
            Dispatch::Exhausted
        } else if exists {
            Dispatch::Skip
        } else if self.in_flight < self.concurrency {
            Dispatch::Start
        } else {
            Dispatch::Wait
        }
    }

    /// The run after that decision.
    pub open spec fn after_dispatch(self, exists: bool) -> RunView {
        match self.decide(exists) {
            Dispatch::Skip => RunView {
                dispatched: self.dispatched + 1,
                counts: self.counts.with(Outcome::Skipped),
                ..self
            },
            Dispatch::Start => RunView {
                dispatched: self.dispatched + 1,
                in_flight: self.in_flight + 1,
                awaiting_token: self.awaiting_token + 1,
                ..self
            },
            _ => self,
        }
    }

    /// The run after a download in flight got its rate token. Where none
    /// waits for one, nothing changes.
    pub open spec fn after_token(self) -> RunView {
        if self.awaiting_token > 0 {
            RunView { awaiting_token: (self.awaiting_token - 1) as nat, ..self }
        } else {
            self
        }
    }

    /// Whether a report of a finished download is taken: a download that
    /// has its rate token must be in flight, and a download never ends as
    /// skipped.
    pub open spec fn accepts(self, outcome: Outcome) -> bool {
        self.in_flight > self.awaiting_token && !(outcome is Skipped)
    }

    /// The run after a download was reported as finished.
    pub open spec fn after_complete(self, outcome: Outcome) -> RunView {
        if self.accepts(outcome) {
            RunView {
                in_flight: (self.in_flight - 1) as nat,
                counts: self.counts.with(outcome),
                ..self
            }
        } else {
            self
        }
    }

    /// The run after one event.
    pub open spec fn apply(self, event: RunEvent) -> RunView {
        match event {
            RunEvent::Checked { exists } => self.after_dispatch(exists),
            RunEvent::TokenGranted => self.after_token(),
            RunEvent::Completed { outcome } => self.after_complete(outcome),
        }
    }

    /// The run after a sequence of events, in their order.
    pub open spec fn replay(self, events: Seq<RunEvent>) -> RunView
        decreases events.len(),
    {
        if events.len() == 0 {
            self
        } else {
            self.replay(events.drop_last()).apply(events.last())
        }
    }
}

/// What the driver reports to a run.
pub ghost enum RunEvent {
    /// The next record's output was looked for.
    Checked { exists: bool },
    /// A download in flight got its rate token.
    TokenGranted,
    /// A download that was in flight has finished.
    Completed { outcome: Outcome },
}

/// Whatever happens during a run, in whatever order, no record is lost or
/// counted twice, never more downloads are in flight than there are slots,
/// and never more of them wait for a rate token than are in flight.
pub proof fn lemma_replay_wf(total: nat, concurrency: nat, events: Seq<RunEvent>)
    ensures
        RunView::initial(total, concurrency).replay(events).wf(),
        RunView::initial(total, concurrency).replay(events).in_flight <= concurrency,
        RunView::initial(total, concurrency).replay(events).awaiting_token <= concurrency,
        RunView::initial(total, concurrency).replay(events).total == total,
        RunView::initial(total, concurrency).replay(events).concurrency == concurrency,
    decreases events.len(),
{
    if events.len() > 0 {
        lemma_replay_wf(total, concurrency, events.drop_last());
    }
}

/// A run with at least one slot never comes to a standstill: as long as it is
/// not finished, either the next record can be dispatched or a download is in
/// flight whose end will be reported.
pub proof fn lemma_never_stuck(run: RunView, exists: bool)
    requires
        run.wf(),
        run.concurrency > 0,
        !run.finished(),
    ensures
        run.decide(exists) == Dispatch::Skip || run.decide(exists) == Dispatch::Start
            || run.in_flight > 0,
{
}

/// When a run is complete, the counts of successful, failed and skipped
/// records add up to the number of records in the input.
pub proof fn lemma_complete_run_counts_all(total: nat, concurrency: nat, events: Seq<RunEvent>)
    requires
        RunView::initial(total, concurrency).replay(events).finished(),
    ensures
        RunView::initial(total, concurrency).replay(events).counts.total() == total,
{
    lemma_replay_wf(total, concurrency, events);
}

/// A run in which the output of every record exists already skips every
/// record and starts no download: after one check per record it is complete
/// with `skipped == total`.
pub proof fn lemma_all_existing_skips_all(total: nat, concurrency: nat, events: Seq<RunEvent>)
    requires
        events.len() <= total,
        forall|i: int|
            0 <= i < events.len() ==> #[trigger] events[i] == (RunEvent::Checked { exists: true }),
    ensures
        RunView::initial(total, concurrency).replay(events).counts.skipped == events.len(),
        RunView::initial(total, concurrency).replay(events).dispatched == events.len(),
        RunView::initial(total, concurrency).replay(events).started() == 0,
        events.len() == total ==> RunView::initial(total, concurrency).replay(events).finished(),
    decreases events.len(),
{
    if events.len() > 0 {
        let shorter = events.drop_last();
        assert forall|i: int| 0 <= i < shorter.len() implies #[trigger] shorter[i] == (
        RunEvent::Checked { exists: true }) by {
            assert(shorter[i] == events[i]);
        }
        lemma_all_existing_skips_all(total, concurrency, shorter);
        lemma_replay_wf(total, concurrency, shorter);
    }
}

/// The line that reports a record as failed: it names the address and the
/// reason.
pub fn failure_notice(url: &str, reason: &str) -> (line: String)
    ensures
        line@ == "Failed "@ + url@ + ": "@ + reason@,
{
    let mut line = String::from_str("Failed ");
    line.append(url);
    line.append(": ");
    line.append(reason);
    line
}

/// A run over the records of one input.
pub struct Orchestrator {
    total: usize,
    dispatched: usize,
    awaiting_token: usize,
    gate: Gate,
    state: DownloadState,
}

impl View for Orchestrator {
    type V = RunView;

    closed spec fn view(&self) -> RunView {
        RunView {
            total: self.total as nat,
            concurrency: self.gate.spec_capacity(),
            dispatched: self.dispatched as nat,
            in_flight: self.gate.spec_in_flight(),
            awaiting_token: self.awaiting_token as nat,
            counts: self.state@,
        }
    }
}

impl Orchestrator {
    /// The input fits a machine word.
    pub proof fn lemma_bounded(&self)
        ensures
            self@.total <= usize::MAX,
            self@.concurrency <= usize::MAX,
    {
        self.gate.lemma_bounded();
    }

    /// A run of `total` records with at most `concurrency` downloads at a
    /// time.
    pub fn new(total: usize, concurrency: usize) -> (run: Orchestrator)
        ensures
            run@ == RunView::initial(total as nat, concurrency as nat),
            run@.wf(),
    {
        Orchestrator {
            total,
            dispatched: 0,
            awaiting_token: 0,
            gate: Gate::new(concurrency),
            state: DownloadState::new(),
        }
    }

    /// Decides on the next record of the input, given whether its output
    /// exists, and books the decision.
    pub fn dispatch(&mut self, exists: bool) -> (decision: Dispatch)
        requires
            old(self)@.wf(),
        ensures
            decision == old(self)@.decide(exists),
            final(self)@ == old(self)@.after_dispatch(exists),
            final(self)@.wf(),
    {
        proof {
            self.gate.lemma_bounded();
            self.state.lemma_bounded();
        }
        if self.dispatched >= self.total {
            Dispatch::Exhausted
        } else if exists {
            self.state.increment_skipped();
            self.dispatched = self.dispatched + 1;
            Dispatch::Skip
        } else if self.gate.try_acquire() {
            self.dispatched = self.dispatched + 1;
            self.awaiting_token = self.awaiting_token + 1;
            Dispatch::Start
        } else {
            Dispatch::Wait
        }
    }

    /// Books that a download in flight got its rate token, and says whether
    /// one was waiting for it.
    pub fn token_granted(&mut self) -> (booked: bool)
        requires
            old(self)@.wf(),
        ensures
            booked == (old(self)@.awaiting_token > 0),
            final(self)@ == old(self)@.after_token(),
            final(self)@.wf(),
    {
        if self.awaiting_token > 0 {
            self.awaiting_token = self.awaiting_token - 1;
            true
        } else {
            false
        }
    }

    /// Books the end of a download that was in flight: its slot is given
    /// back and its outcome counted. A report that cannot be true (no
    /// download in flight that has its rate token, or a download said to be
    /// skipped) is refused and changes nothing.
    pub fn complete(&mut self, outcome: &Outcome) -> (accepted: bool)
        requires
            old(self)@.wf(),
        ensures
            accepted == old(self)@.accepts(*outcome),
            final(self)@ == old(self)@.after_complete(*outcome),
            final(self)@.wf(),
    {
        proof {
            self.gate.lemma_bounded();
            self.state.lemma_bounded();
        }
        match outcome {
            Outcome::Skipped => false,
            _ => {
                if self.gate.in_flight() > self.awaiting_token {
                    self.gate.release();
                    self.state.record(outcome);
                    true
                } else {
                    false
                }
            },
        }
    }

    /// Position in the input of the record to dispatch next, if one is left.
    pub fn next_record(&self) -> (index: Option<usize>)
        ensures
            index == if self@.dispatched < self@.total {
                Some(self@.dispatched as usize)
            } else {
                None
            },
    {
        if self.dispatched < self.total {
            Some(self.dispatched)
        } else {
            None
        }
    }

    /// Number of records in the input.
    pub fn total(&self) -> (n: usize)
        ensures
            n == self@.total,
    {
        self.total
    }

    /// Number of records finished so far, whatever their outcome.
    pub fn finished_records(&self) -> (n: usize)
        requires
            self@.wf(),
        ensures
            n == self@.counts.total(),
    {
        proof {
            self.gate.lemma_bounded();
        }
        self.dispatched - self.gate.in_flight()
    }

    /// Number of downloads in flight.
    pub fn in_flight(&self) -> (n: usize)
        ensures
            n == self@.in_flight,
    {
        self.gate.in_flight()
    }

    /// Number of downloads in flight that wait for their rate token.
    pub fn awaiting_token(&self) -> (n: usize)
        ensures
            n == self@.awaiting_token,
    {
        self.awaiting_token
    }

    /// Whether every record was dispatched and every download has finished.
    pub fn is_finished(&self) -> (done: bool)
        ensures
            done == self@.finished(),
    {
        self.dispatched == self.total && self.gate.in_flight() == 0
    }

    /// The counts so far. Once the run is finished they add up to the number
    /// of records in the input.
    pub fn summary(&self) -> (s: RunSummary)
        requires
            self@.wf(),
        ensures
            s.success == self@.counts.success,
            s.failed == self@.counts.failed,
            s.skipped == self@.counts.skipped,
            self@.finished() ==> s.success + s.failed + s.skipped == self@.total,
    {
        self.state.summary()
    }
}

} // verus!
