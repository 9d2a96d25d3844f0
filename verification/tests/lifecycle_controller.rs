use shim_core::lifecycle::{
    InstanceState, LifecycleController, LifecycleError, SIG_INTERRUPT, SIG_TERMINATE_IMMEDIATELY,
};
use shim_core::tracker::ExitRecord;

#[test]
fn kill_with_unsupported_signal_never_sets_the_flag() {
    let mut c = LifecycleController::new();
    c.start().unwrap();
    c.mark_running().unwrap();
    // Hangup is outside the supported set.
    assert_eq!(c.kill(1), Err(LifecycleError::UnsupportedSignal));
    assert!(!c.is_shutdown_requested());
    assert_eq!(c.kill(15), Err(LifecycleError::UnsupportedSignal));
    assert!(!c.is_shutdown_requested());
}

#[test]
fn kill_with_supported_signal_requests_shutdown() {
    let mut c = LifecycleController::new();
    c.start().unwrap();
    c.mark_running().unwrap();
    assert!(c.kill(SIG_TERMINATE_IMMEDIATELY).unwrap() == ());
    assert!(c.is_shutdown_requested());
    assert_eq!(c.current_state(), InstanceState::Running);

    let mut c = LifecycleController::new();
    c.start().unwrap();
    c.mark_running().unwrap();
    c.kill(SIG_INTERRUPT).unwrap();
    assert!(c.is_shutdown_requested());
}

#[test]
fn lifecycle_runs_created_starting_running_exited() {
    let mut c = LifecycleController::new();
    assert_eq!(c.current_state(), InstanceState::Created);
    c.start().unwrap();
    assert_eq!(c.current_state(), InstanceState::Starting);
    assert_eq!(c.start(), Err(LifecycleError::InvalidState));
    c.mark_running().unwrap();
    assert_eq!(c.current_state(), InstanceState::Running);
    assert_eq!(c.wait(), None);
    c.complete(0, 5).unwrap();
    assert_eq!(c.current_state(), InstanceState::Exited);
    assert_eq!(c.wait(), Some(ExitRecord { exit_code: 0, completion_time: 5 }));
}

#[test]
fn complete_is_accepted_exactly_once() {
    let mut c = LifecycleController::new();
    c.start().unwrap();
    c.mark_running().unwrap();
    c.complete(137, 3).unwrap();
    assert!(c.complete(0, 4).is_err());
    assert_eq!(c.wait(), Some(ExitRecord { exit_code: 137, completion_time: 3 }));
}

#[test]
fn delete_is_idempotent_and_never_fails_on_gone_instances() {
    let mut c = LifecycleController::new();
    assert!(c.delete().is_ok());
    assert!(c.delete().is_ok());

    let mut c = LifecycleController::new();
    c.start().unwrap();
    c.mark_running().unwrap();
    assert_eq!(c.delete(), Err(LifecycleError::InvalidState));
    c.complete(0, 1).unwrap();
    assert!(c.delete().is_ok());
    assert!(c.delete().is_ok());
}
