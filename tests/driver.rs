use ws_session::driver::{
    outcome_of, validate_request, CompletedOrAbandoned, DriverPhase, Envelope, ExecuteDriver,
    ExecuteError, ExecuteStatus, Outcome,
};
use ws_session::request::{ExecuteRequest, ExecuteRequestParseError};

fn status(success: bool) -> Result<ExecuteStatus, String> {
    Ok(ExecuteStatus { success, exit_detail: "Exited with status 0".to_string() })
}

#[test]
fn happy_execute_sequence() {
    let mut d = ExecuteDriver::new();
    assert!(matches!(d.begun(Ok(())), Ok(Some(Envelope::Begin))));
    assert!(matches!(d.output("hi\n".to_string(), false), Some(Envelope::Stdout(ref t)) if t == "hi\n"));
    assert!(matches!(d.output("warn".to_string(), true), Some(Envelope::Stderr(ref t)) if t == "warn"));
    d.task_done(status(true));
    // output that was already there is still forwarded while draining
    assert!(matches!(d.output("late".to_string(), false), Some(Envelope::Stdout(ref t)) if t == "late"));
    match d.end() {
        Ok(Some(Envelope::End { success, exit_detail })) => {
            assert!(success);
            assert_eq!(exit_detail, "Exited with status 0");
        }
        _ => panic!("expected the end envelope"),
    }
    assert_eq!(d.completion(), Some(CompletedOrAbandoned::Completed(Outcome::Success)));
    // nothing more after the end
    assert!(d.output("x".to_string(), false).is_none());
    assert!(matches!(d.end(), Ok(None)));
}

#[test]
fn failed_run_is_a_user_error() {
    let mut d = ExecuteDriver::new();
    d.begun(Ok(())).unwrap();
    d.task_done(status(false));
    assert!(matches!(d.end(), Ok(Some(Envelope::End { success: false, .. }))));
    assert_eq!(d.completion(), Some(CompletedOrAbandoned::Completed(Outcome::ErrorUser)));
}

#[test]
fn begin_failure_emits_nothing() {
    let mut d = ExecuteDriver::new();
    assert!(matches!(d.begun(Err("no container".to_string())), Err(ExecuteError::Begin { ref detail }) if detail == "no container"));
    assert!(d.output("x".to_string(), false).is_none());
    assert_eq!(d.completion(), None);
}

#[test]
fn end_failure_is_reported() {
    let mut d = ExecuteDriver::new();
    d.begun(Ok(())).unwrap();
    d.task_done(Err("lost".to_string()));
    assert!(matches!(d.end(), Err(ExecuteError::End { ref detail }) if detail == "lost"));
}

#[test]
fn aborted_job_emits_no_end() {
    let mut d = ExecuteDriver::new();
    d.begun(Ok(())).unwrap();
    d.output("partial".to_string(), false).unwrap();
    d.abort();
    assert!(d.output("more".to_string(), false).is_none());
    d.task_done(status(true));
    assert!(matches!(d.end(), Ok(None)));
    assert_eq!(d.completion(), None);
}

#[test]
fn undelivered_end_is_abandoned() {
    let mut d = ExecuteDriver::new();
    d.begun(Ok(())).unwrap();
    d.task_done(status(true));
    assert!(matches!(d.end(), Ok(Some(Envelope::End { success: true, .. }))));
    d.abandon();
    assert_eq!(d.completion(), Some(CompletedOrAbandoned::Abandoned));
}

#[test]
fn abandoned_job_stops() {
    let mut d = ExecuteDriver::new();
    d.begun(Ok(())).unwrap();
    d.abandon();
    assert!(d.terminal());
    assert!(d.output("x".to_string(), true).is_none());
    assert_eq!(d.completion(), Some(CompletedOrAbandoned::Abandoned));
}

#[test]
fn outcome_classification() {
    assert_eq!(outcome_of(&Ok(CompletedOrAbandoned::Abandoned)), Outcome::Abandoned);
    assert_eq!(outcome_of(&Ok(CompletedOrAbandoned::Completed(Outcome::Success))), Outcome::Success);
    assert_eq!(outcome_of(&Err(ExecuteError::End { detail: String::new() })), Outcome::ErrorServer);
    assert_eq!(Outcome::from_success(true), Outcome::Success);
    assert_eq!(Outcome::from_success(false), Outcome::ErrorUser);
}

#[test]
fn bad_request_wraps_parse_error() {
    let req = ExecuteRequest {
        channel: "nonsense".to_string(),
        mode: "debug".to_string(),
        edition: "2021".to_string(),
        crate_type: "bin".to_string(),
        tests: false,
        code: String::new(),
        backtrace: false,
    };
    assert!(matches!(
        validate_request(req),
        Err(ExecuteError::BadRequest { source: ExecuteRequestParseError::Channel { ref value } }) if value == "nonsense"
    ));
}

#[test]
fn phases_are_distinct() {
    assert_ne!(DriverPhase::Aborted, DriverPhase::Abandoned);
}
