use current_weather::poll::{PollAction, PollEvent, PollState};

const EVENTS: [PollEvent; 5] = [
    PollEvent::FetchFailed,
    PollEvent::RecordRejected,
    PollEvent::RecordReady,
    PollEvent::IntervalElapsed,
    PollEvent::ShutdownRequested,
];

#[test]
fn poll_cycle() {
    let s = PollState::initial();
    assert_eq!(s, PollState::Fetching);
    let (s, a) = s.next(PollEvent::RecordReady);
    assert_eq!((s, a), (PollState::Waiting, PollAction::WriteRecord));
    let (s, a) = s.next(PollEvent::IntervalElapsed);
    assert_eq!((s, a), (PollState::Fetching, PollAction::Nothing));
    let (s, a) = s.next(PollEvent::FetchFailed);
    assert_eq!((s, a), (PollState::Waiting, PollAction::ReportFetchError));
    let (s, a) = s.next(PollEvent::IntervalElapsed);
    let (s, a2) = s.next(PollEvent::RecordRejected);
    assert_eq!(a, PollAction::Nothing);
    assert_eq!((s, a2), (PollState::Waiting, PollAction::ReportRecordError));
    let (s, a) = s.next(PollEvent::ShutdownRequested);
    assert_eq!((s, a), (PollState::Stopped, PollAction::ReportShutdown));
    assert!(s.is_stopped());
}

#[test]
fn stopped_stays_stopped() {
    for e in EVENTS {
        assert_eq!(PollState::Stopped.next(e), (PollState::Stopped, PollAction::Nothing));
    }
}

#[test]
fn writes_only_for_ready_records() {
    for s in [PollState::Fetching, PollState::Waiting, PollState::Stopped] {
        for e in EVENTS {
            let (_, a) = s.next(e);
            assert_eq!(
                a == PollAction::WriteRecord,
                s == PollState::Fetching && e == PollEvent::RecordReady
            );
        }
    }
}

#[test]
fn fetch_outcomes_lead_to_waiting() {
    for e in [PollEvent::FetchFailed, PollEvent::RecordRejected, PollEvent::RecordReady] {
        assert_eq!(PollState::Fetching.next(e).0, PollState::Waiting);
    }
    assert!(!PollState::Waiting.is_stopped());
}
