//! The polling loop's decisions, as a state machine: what to do with each
//! fetch outcome, when to fetch again, when to stop. The program performs the
//! fetches, writes, waits and reports that it asks for.

use vstd::prelude::*;

verus! {

/// Where the polling loop stands.
#[derive(Debug, Clone, Copy, PartialEq, Eq, Structural)]
pub enum PollState {
    /// A request for current conditions is under way.
    Fetching,
    /// Waiting for the poll interval to pass, or for a shutdown.
    Waiting,
    /// The loop has ended.
    Stopped,
}

/// What the outside work of a phase came back with.
#[derive(Debug, Clone, Copy, PartialEq, Eq, Structural)]
pub enum PollEvent {
    /// The weather API request failed.
    FetchFailed,
    /// A response came, but it does not make a valid record.
    RecordRejected,
    /// A response came and made a valid record.
    RecordReady,
    /// The poll interval passed.
    IntervalElapsed,
    /// A shutdown was signalled.
    ShutdownRequested,
}

/// What the program is asked to do on a transition.
#[derive(Debug, Clone, Copy, PartialEq, Eq, Structural)]
pub enum PollAction {
    /// Write the record just made.
    WriteRecord,
    /// Report the failed request.
    ReportFetchError,
    /// Report the rejected response.
    ReportRecordError,
    /// Report that the loop is shutting down.
    ReportShutdown,
    Nothing,
}

impl PollState {
    /// The transition table. An event that does not belong to the current
    /// phase changes nothing.
    pub open spec fn step(self, e: PollEvent) -> (PollState, PollAction) {
        match (self, e) {
            (PollState::Fetching, PollEvent::FetchFailed) => (
                PollState::Waiting,
                PollAction::ReportFetchError,
            ),
            (PollState::Fetching, PollEvent::RecordRejected) => (
                PollState::Waiting,
                PollAction::ReportRecordError,
            ),
            (PollState::Fetching, PollEvent::RecordReady) => (
                PollState::Waiting,
                PollAction::WriteRecord,
            ),
            (PollState::Waiting, PollEvent::IntervalElapsed) => (
                PollState::Fetching,
                PollAction::Nothing,
            ),
            (PollState::Waiting, PollEvent::ShutdownRequested) => (
                PollState::Stopped,
                PollAction::ReportShutdown,
            ),
            (s, _) => (s, PollAction::Nothing),
        }
    }

    /// The loop starts with a request.
    pub fn initial() -> (s: PollState)
        ensures
            s == PollState::Fetching,
    {
        PollState::Fetching
    }

    /// The next state and the action to perform, given what the current
    /// phase's work came back with.
    pub fn next(&self, e: PollEvent) -> (r: (PollState, PollAction))
        ensures
            r == self.step(e),
    {
        match (*self, e) {
            (PollState::Fetching, PollEvent::FetchFailed) => (
                PollState::Waiting,
                PollAction::ReportFetchError,
            ),
            (PollState::Fetching, PollEvent::RecordRejected) => (
                PollState::Waiting,
                PollAction::ReportRecordError,
            ),
            (PollState::Fetching, PollEvent::RecordReady) => (
                PollState::Waiting,
                PollAction::WriteRecord,
            ),
            (PollState::Waiting, PollEvent::IntervalElapsed) => (
                PollState::Fetching,
                PollAction::Nothing,
            ),
            (PollState::Waiting, PollEvent::ShutdownRequested) => (
                PollState::Stopped,
                PollAction::ReportShutdown,
            ),
            (s, _) => (s, PollAction::Nothing),
        }
    }

    /// The loop has ended.
    pub fn is_stopped(&self) -> (b: bool)
        ensures
            b == (*self == PollState::Stopped),
    {
        match self {
            PollState::Stopped => true,
            _ => false,
        }
    }
}

/// The state after a sequence of events.
pub open spec fn run(s: PollState, events: Seq<PollEvent>) -> PollState
    decreases events.len(),
{
    if events.len() == 0 {
        s
    } else {
        run(s.step(events[0]).0, events.drop_first())
    }
}

/// The actions asked for along a sequence of events.
pub open spec fn run_actions(s: PollState, events: Seq<PollEvent>) -> Seq<PollAction>
    decreases events.len(),
{
    if events.len() == 0 {
        Seq::empty()
    } else {
        seq![s.step(events[0]).1] + run_actions(s.step(events[0]).0, events.drop_first())
    }
}

/// The one-step laws of the loop:
/// - a record is written exactly when a request made a valid record;
/// - after every request the loop waits before anything else;
/// - a request starts only when the interval passes while waiting;
/// - the loop stops only on a shutdown while waiting, and a shutdown while
///   waiting always stops it.
pub proof fn lemma_poll_step(s: PollState, e: PollEvent)
    ensures
        s.step(e).1 == PollAction::WriteRecord <==> (s == PollState::Fetching && e
            == PollEvent::RecordReady),
        s == PollState::Fetching && e != PollEvent::IntervalElapsed && e
            != PollEvent::ShutdownRequested ==> s.step(e).0 == PollState::Waiting,
        s != PollState::Fetching && s.step(e).0 == PollState::Fetching ==> (s == PollState::Waiting
            && e == PollEvent::IntervalElapsed),
        s != PollState::Stopped && s.step(e).0 == PollState::Stopped ==> (s == PollState::Waiting
            && e == PollEvent::ShutdownRequested),
        s == PollState::Waiting && e == PollEvent::ShutdownRequested ==> s.step(e) == (
            PollState::Stopped,
            PollAction::ReportShutdown,
        ),
{
}

/// Once stopped, the loop stays stopped whatever happens, and asks for nothing
/// more: no request, no write, no report.
pub proof fn lemma_stopped_is_final(events: Seq<PollEvent>)
    ensures
        run(PollState::Stopped, events) == PollState::Stopped,
        run_actions(PollState::Stopped, events).len() == events.len(),
        forall|i: int|
            0 <= i < events.len() ==> #[trigger] run_actions(PollState::Stopped, events)[i]
                == PollAction::Nothing,
    decreases events.len(),
{
    if events.len() > 0 {
        lemma_stopped_is_final(events.drop_first());
        let rest = run_actions(PollState::Stopped, events.drop_first());
        assert(run_actions(PollState::Stopped, events) == seq![PollAction::Nothing] + rest);
        assert forall|i: int| 0 <= i < events.len() implies #[trigger] run_actions(
            PollState::Stopped,
            events,
        )[i] == PollAction::Nothing by {
            if i > 0 {
                assert(run_actions(PollState::Stopped, events)[i] == rest[i - 1]);
            }
        }
    }
}

/// A shutdown signalled while waiting ends the loop for good: after it, no
/// sequence of events leads to another request or write.
pub proof fn lemma_shutdown_is_final(events: Seq<PollEvent>)
    ensures
        run(PollState::Waiting, seq![PollEvent::ShutdownRequested] + events) == PollState::Stopped,
{
    let all = seq![PollEvent::ShutdownRequested] + events;
    assert(all[0] == PollEvent::ShutdownRequested);
    assert(all.drop_first() =~= events);
    lemma_stopped_is_final(events);
}

} // verus!
