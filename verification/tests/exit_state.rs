use shim_core::tracker::{ExitRecord, ExitStateTracker, StateViolation};

#[test]
fn record_then_every_read_returns_the_same_pair() {
    let mut t = ExitStateTracker::new();
    assert_eq!(t.try_value(), None);
    assert!(t.record(42, 7).is_ok());
    // Every subsequent read observes exactly the recorded pair.
    assert_eq!(t.await_value(), ExitRecord { exit_code: 42, completion_time: 7 });
    assert_eq!(t.await_value(), ExitRecord { exit_code: 42, completion_time: 7 });
    assert_eq!(t.try_value(), Some(ExitRecord { exit_code: 42, completion_time: 7 }));
    // A second record is rejected and changes nothing.
    assert_eq!(t.record(0, 9), Err(StateViolation));
    assert_eq!(t.await_value(), ExitRecord { exit_code: 42, completion_time: 7 });
}

#[test]
fn fresh_tracker_accepts_exactly_one_record() {
    let mut t = ExitStateTracker::new();
    assert!(t.record(0, 1).is_ok());
    assert_eq!(t.record(137, 2), Err(StateViolation));
    assert_eq!(t.record(137, 3), Err(StateViolation));
    assert_eq!(t.try_value(), Some(ExitRecord { exit_code: 0, completion_time: 1 }));
}
