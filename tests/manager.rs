use ws_session::manager::{
    CoordinatorManager, CoordinatorManagerError, KIND_EXECUTE, N_KINDS, N_PARALLEL,
    SESSION_TIMEOUT_SECS, IDLE_TIMEOUT_SECS,
};

#[test]
fn constants_match_the_protocol() {
    assert_eq!(N_PARALLEL, 2);
    assert_eq!(N_KINDS, 1);
    assert_eq!(KIND_EXECUTE, 0);
    assert_eq!(IDLE_TIMEOUT_SECS, 60);
    assert_eq!(SESSION_TIMEOUT_SECS, 45 * 60);
}

#[test]
fn new_manager_is_empty_and_idles() {
    let m = CoordinatorManager::new();
    assert!(m.is_empty());
    assert!(m.idle().is_ok());
}

#[test]
fn second_spawn_aborts_the_first() {
    let mut m = CoordinatorManager::new();
    let (a, prev) = m.spawn(KIND_EXECUTE);
    assert_eq!(prev, None);
    let (b, prev) = m.spawn(KIND_EXECUTE);
    assert_ne!(a, b);
    assert_eq!(prev, Some(a));
    // the aborted job stays in the task set until it is joined
    assert!(!m.is_empty());
    assert!(m.joined(a));
    assert!(!m.is_empty());
    assert!(m.joined(b));
    assert!(m.is_empty());
    assert!(!m.joined(b));
}

#[test]
fn idle_refused_while_a_task_is_outstanding() {
    let mut m = CoordinatorManager::new();
    let (a, _) = m.spawn(KIND_EXECUTE);
    assert!(matches!(m.idle(), Err(CoordinatorManagerError::OutstandingCoordinatorIdle)));
    m.joined(a);
    assert!(m.idle().is_ok());
}

#[test]
fn permits_go_to_waiting_live_jobs_only() {
    let mut m = CoordinatorManager::new();
    let (a, _) = m.spawn(KIND_EXECUTE);
    assert!(m.acquire_permit(a));
    // already running: no second permit
    assert!(!m.acquire_permit(a));
    let (b, _) = m.spawn(KIND_EXECUTE);
    // the aborted job cannot take a permit
    assert!(!m.acquire_permit(a));
    assert!(m.acquire_permit(b));
    assert!(!m.acquire_permit(12345));
}

#[test]
fn shutdown_aborts_live_jobs_and_empties_the_set() {
    let mut m = CoordinatorManager::new();
    let (a, _) = m.spawn(KIND_EXECUTE);
    let (b, _) = m.spawn(KIND_EXECUTE);
    let aborted = m.shutdown().unwrap();
    assert_eq!(aborted, vec![b]);
    assert!(m.is_empty());
    assert!(!m.joined(a));
}

#[test]
fn grant_permits_wakes_waiting_jobs() {
    let mut m = CoordinatorManager::new();
    assert!(m.grant_permits().is_empty());
    let (a, _) = m.spawn(KIND_EXECUTE);
    assert_eq!(m.grant_permits(), vec![a]);
    // a running job is not granted twice
    assert!(m.grant_permits().is_empty());
    let (b, _) = m.spawn(KIND_EXECUTE);
    assert_eq!(m.grant_permits(), vec![b]);
    assert!(!m.acquire_permit(b));
}
