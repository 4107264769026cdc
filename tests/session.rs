use ws_session::manager::{JoinOutcome, SESSION_TIMEOUT_SECS};
use ws_session::session::{
    handshake_accepted, HandshakeFrame, Inbound, ResponseKind, Session, SessionAction,
    SessionEvent, RESPONSE_CAPACITY,
};

fn open_session() -> Session {
    let mut s = Session::new();
    assert!(s.handshake(&HandshakeFrame::Connected { accepts_unsupported_api: true }));
    assert!(s.send_feature_flags());
    s
}

#[test]
fn handshake_verdicts() {
    assert!(handshake_accepted(&HandshakeFrame::Connected { accepts_unsupported_api: true }));
    assert!(!handshake_accepted(&HandshakeFrame::Connected { accepts_unsupported_api: false }));
    assert!(!handshake_accepted(&HandshakeFrame::Unparsed));
    assert!(!handshake_accepted(&HandshakeFrame::NotText));
}

#[test]
fn refused_handshake_closes_silently() {
    let mut s = Session::new();
    assert!(!s.handshake(&HandshakeFrame::Connected { accepts_unsupported_api: false }));
    // nothing goes out afterwards
    assert!(!s.send_feature_flags());
    assert_eq!(s.step(SessionEvent::Outbound(ResponseKind::Error), 0), SessionAction::Terminate);
}

#[test]
fn nothing_is_sent_before_the_handshake() {
    let mut s = Session::new();
    assert_eq!(s.step(SessionEvent::Outbound(ResponseKind::Error), 0), SessionAction::Terminate);
}

#[test]
fn feature_flags_go_first_and_once() {
    let mut s = Session::new();
    assert!(s.handshake(&HandshakeFrame::Connected { accepts_unsupported_api: true }));
    // the loop does not run before the feature flags are out
    assert_eq!(s.step(SessionEvent::Outbound(ResponseKind::ExecuteBegin), 1), SessionAction::Terminate);
    let mut s = Session::new();
    assert!(s.handshake(&HandshakeFrame::Connected { accepts_unsupported_api: true }));
    assert!(s.send_feature_flags());
    assert!(!s.send_feature_flags());
}

#[test]
fn every_popped_response_is_sent() {
    let mut s = open_session();
    for kind in [
        ResponseKind::ExecuteBegin,
        ResponseKind::ExecuteStdout,
        ResponseKind::ExecuteStderr,
        ResponseKind::ExecuteEnd,
        ResponseKind::Error,
    ] {
        assert_eq!(s.step(SessionEvent::Outbound(kind), 2), SessionAction::Send);
    }
}

#[test]
fn failed_job_error_is_reported() {
    let mut s = open_session();
    let (id, _) = s.spawn_execute().unwrap();
    assert_eq!(s.step(SessionEvent::Joined { id, outcome: JoinOutcome::Failed }, 3), SessionAction::ReportJobError);
    assert_eq!(s.step(SessionEvent::IdleTimer, 63), SessionAction::Idle);
}

#[test]
fn inbound_frames() {
    let mut s = open_session();
    assert_eq!(s.step(SessionEvent::Frame(Inbound::Text), 3), SessionAction::Dispatch);
    assert_eq!(s.step(SessionEvent::Frame(Inbound::NonText), 3), SessionAction::Ignore);
    assert_eq!(s.step(SessionEvent::Frame(Inbound::TransportError), 3), SessionAction::RecordTransportError);
    assert_eq!(s.step(SessionEvent::Frame(Inbound::Text), 4), SessionAction::Dispatch);
    assert_eq!(s.step(SessionEvent::Frame(Inbound::Closed), 4), SessionAction::Terminate);
    assert_eq!(s.step(SessionEvent::Frame(Inbound::Text), 5), SessionAction::Terminate);
}

#[test]
fn send_failure_terminates() {
    let mut s = open_session();
    assert_eq!(s.step(SessionEvent::SendFailed, 10), SessionAction::Terminate);
}

#[test]
fn idle_only_with_no_tasks() {
    let mut s = open_session();
    assert_eq!(s.step(SessionEvent::IdleTimer, 60), SessionAction::Idle);
    let (id, prev) = s.spawn_execute().unwrap();
    assert_eq!(prev, None);
    assert_eq!(s.step(SessionEvent::IdleTimer, 120), SessionAction::Ignore);
    assert_eq!(s.step(SessionEvent::Joined { id, outcome: JoinOutcome::Completed }, 121), SessionAction::Ignore);
    assert_eq!(s.step(SessionEvent::IdleTimer, 181), SessionAction::Idle);
}

#[test]
fn preemption_aborts_the_older_job() {
    let mut s = open_session();
    let (first, _) = s.spawn_execute().unwrap();
    let (second, prev) = s.spawn_execute().unwrap();
    assert_eq!(prev, Some(first));
    assert_ne!(first, second);
    assert_eq!(s.step(SessionEvent::Joined { id: first, outcome: JoinOutcome::Cancelled }, 1), SessionAction::Ignore);
    assert_eq!(s.step(SessionEvent::IdleTimer, 61), SessionAction::Ignore);
}

#[test]
fn panic_is_reported() {
    let mut s = open_session();
    let (id, _) = s.spawn_execute().unwrap();
    assert_eq!(s.step(SessionEvent::Joined { id, outcome: JoinOutcome::Panicked }, 5), SessionAction::ReportPanic);
    assert_eq!(s.step(SessionEvent::Frame(Inbound::Text), 6), SessionAction::Dispatch);
}

#[test]
fn session_ends_at_the_deadline() {
    let mut s = open_session();
    assert_eq!(s.step(SessionEvent::Frame(Inbound::Text), SESSION_TIMEOUT_SECS - 1), SessionAction::Dispatch);
    assert_eq!(s.step(SessionEvent::Frame(Inbound::NonText), SESSION_TIMEOUT_SECS), SessionAction::Terminate);
    assert!(s.spawn_execute().is_none());
}

#[test]
fn session_timer_terminates() {
    let mut s = open_session();
    s.spawn_execute().unwrap();
    assert_eq!(s.step(SessionEvent::SessionTimer, 2700), SessionAction::Terminate);
}

#[test]
fn response_channel_capacity() {
    assert_eq!(RESPONSE_CAPACITY, 3);
}

#[test]
fn session_grants_permits_to_new_jobs() {
    let mut s = open_session();
    let (a, _) = s.spawn_execute().unwrap();
    assert_eq!(s.grant_permits(), vec![a]);
    let (b, prev) = s.spawn_execute().unwrap();
    assert_eq!(prev, Some(a));
    assert_eq!(s.grant_permits(), vec![b]);
    assert!(s.grant_permits().is_empty());
}
