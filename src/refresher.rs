use std::sync::Arc;
use vstd::prelude::*;
use crate::config::{interval_for, interval_seconds};
use crate::store::{CachedResult, ResultStore};
use vstd::string::StringSliceAdditionalSpecFns;

verus! {

/// Where the refresh loop stands.
#[derive(PartialEq, Eq, Structural, Clone, Copy, Debug)]
pub enum Phase {
    /// Created; no measurement has been started yet.
    Starting,
    /// A measurement is running.
    Invoking,
    /// A measurement finished and its output is being parsed.
    Parsing,
    /// Between cycles, until the next tick of the timer.
    Waiting,
}

/// Why a cycle stored nothing.
#[derive(PartialEq, Eq, Clone, Debug)]
pub enum CycleFailure {
    /// The measurement could not be started, or it failed; the runner's message.
    Invocation(String),
    /// The measurement's output was not a report; the parser's message.
    Parse(String),
}

/// What the loop is to do next.
#[derive(PartialEq, Eq, Clone, Debug)]
pub enum Action {
    /// Run the measurement now, outside any lock.
    Invoke,
    /// Parse this output of the measurement as a report.
    Parse(String),
    /// The cycle stored a new report; wait for the next tick.
    Committed,
    /// The cycle failed and stored nothing; report the failure and wait for the next tick.
    Failed(CycleFailure),
}

/// How one cycle ended, as far as the store is concerned.
pub enum CycleOutcome<R> {
    /// The measurement could not be run.
    InvokeFailed,
    /// The measurement ran but its output did not parse.
    ParseFailed,
    /// The measurement gave this report, accepted at this instant.
    Parsed(Arc<R>, u64),
}

/// The store's contents after one cycle: a parsed report replaces them,
/// a failure leaves them as they were.
pub open spec fn after_cycle<R>(s: Option<CachedResult<R>>, outcome: CycleOutcome<R>) -> Option<
    CachedResult<R>,
> {
    match outcome {
        CycleOutcome::Parsed(report, captured_at) => Some(CachedResult { report, captured_at }),
        _ => s,
    }
}

/// The store's contents after a sequence of cycles, first to last.
pub open spec fn after_cycles<R>(s: Option<CachedResult<R>>, outcomes: Seq<CycleOutcome<R>>) -> Option<
    CachedResult<R>,
>
    decreases outcomes.len(),
{
    if outcomes.len() == 0 {
        s
    } else {
        after_cycle(after_cycles(s, outcomes.drop_last()), outcomes.last())
    }
}

/// The decisions of the refresh loop: one measurement at start-up, then one
/// at each tick of a fixed-period timer, each either stored whole or dropped.
pub struct Refresher {
    interval_secs: u64,
    phase: Phase,
}

impl Refresher {
    pub closed spec fn spec_phase(&self) -> Phase {
        self.phase
    }

    pub closed spec fn spec_interval_secs(&self) -> u64 {
        self.interval_secs
    }

    pub open spec fn wf(&self) -> bool {
        self.spec_interval_secs() >= 60
    }

    /// A loop that has not started, ticking at the interval that the
    /// setting (a number of minutes, as text) names.
    pub fn new(setting: Option<&str>) -> (r: Self)
        ensures
            r.wf(),
            r.spec_phase() == Phase::Starting,
            r.spec_interval_secs() == interval_for(
                match setting {
                    Some(s) => Some(s.spec_bytes()),
                    None => None,
                },
            ),
    {
        Refresher { interval_secs: interval_seconds(setting), phase: Phase::Starting }
    }

    /// The period of the timer, in seconds.
    pub fn interval_secs(&self) -> (r: u64)
        ensures
            r == self.spec_interval_secs(),
    {
        self.interval_secs
    }

    /// Where the loop stands.
    pub fn phase(&self) -> (r: Phase)
        ensures
            r == self.spec_phase(),
    {
        self.phase
    }

    /// Starts the loop: the first measurement runs at once, before any tick.
    pub fn start(&mut self) -> (a: Action)
        requires
            old(self).spec_phase() == Phase::Starting,
        ensures
            a == Action::Invoke,
            final(self).spec_phase() == Phase::Invoking,
            final(self).spec_interval_secs() == old(self).spec_interval_secs(),
    {
        self.phase = Phase::Invoking;
        Action::Invoke
    }

    /// The timer ticked: the next measurement runs.
    pub fn on_tick(&mut self) -> (a: Action)
        requires
            old(self).spec_phase() == Phase::Waiting,
        ensures
            a == Action::Invoke,
            final(self).spec_phase() == Phase::Invoking,
            final(self).spec_interval_secs() == old(self).spec_interval_secs(),
    {
        self.phase = Phase::Invoking;
        Action::Invoke
    }

    /// The measurement finished: its output goes to the parser, its error
    /// ends the cycle.
    pub fn on_run_finished(&mut self, output: Result<String, String>) -> (a: Action)
        requires
            old(self).spec_phase() == Phase::Invoking,
        ensures
            final(self).spec_interval_secs() == old(self).spec_interval_secs(),
            match output {
                Ok(text) => a == Action::Parse(text) && final(self).spec_phase() == Phase::Parsing,
                Err(e) => a == Action::Failed(CycleFailure::Invocation(e))
                    && final(self).spec_phase() == Phase::Waiting,
            },
    {
        match output {
            Ok(text) => {
                self.phase = Phase::Parsing;
                Action::Parse(text)
            },
            Err(e) => {
                self.phase = Phase::Waiting;
                Action::Failed(CycleFailure::Invocation(e))
            },
        }
    }

    /// The output was parsed: a report is stored, accepted at `now`; a parse
    /// error ends the cycle with the store untouched.
    pub fn on_parsed<R>(
        &mut self,
        store: &mut ResultStore<R>,
        parsed: Result<Arc<R>, String>,
        now: u64,
    ) -> (a: Action)
        requires
            old(self).spec_phase() == Phase::Parsing,
        ensures
            final(self).spec_phase() == Phase::Waiting,
            final(self).spec_interval_secs() == old(self).spec_interval_secs(),
            match parsed {
                Ok(report) => a == Action::Committed && final(store)@ == after_cycle(
                    old(store)@,
                    CycleOutcome::Parsed(report, now),
                ),
                Err(e) => a == Action::Failed(CycleFailure::Parse(e)) && final(store)@ == after_cycle(
                    old(store)@,
                    CycleOutcome::ParseFailed,
                ),
            },
    {
        self.phase = Phase::Waiting;
        match parsed {
            Ok(report) => {
                store.set(report, now);
                Action::Committed
            },
            Err(e) => Action::Failed(CycleFailure::Parse(e)),
        }
    }
}

/// A failed cycle leaves the last stored report and its capture time as they were.
pub proof fn lemma_failure_keeps_last_report<R>(
    s: Option<CachedResult<R>>,
    earlier: Seq<CycleOutcome<R>>,
    report: Arc<R>,
    captured_at: u64,
    failure: CycleOutcome<R>,
)
    requires
        !(failure is Parsed),
    ensures
        after_cycles(s, earlier.push(CycleOutcome::Parsed(report, captured_at)).push(failure))
            == Some(CachedResult { report, captured_at }),
{
    let before = earlier.push(CycleOutcome::Parsed(report, captured_at));
    assert(before.push(failure).drop_last() == before);
    assert(before.drop_last() == earlier);
    assert(before.last() == CycleOutcome::Parsed(report, captured_at));
    assert(after_cycles(s, before) == Some(CachedResult { report, captured_at }));
    assert(before.push(failure).last() == failure);
}

} // verus!
