use gamesense::error::GameSenseError;
use gamesense::heartbeat::{HeartbeatControl, HEARTBEAT_INTERVAL_SECS};
use gamesense::session::registration_outcome;

#[test]
fn interval_is_ten_seconds() {
    assert_eq!(HEARTBEAT_INTERVAL_SECS, 10);
}

#[test]
fn start_then_stop_returns_the_task() {
    let mut c: HeartbeatControl<u32> = HeartbeatControl::new();
    assert!(!c.is_running());
    assert_eq!(c.start(1), None);
    assert!(c.is_running());
    assert_eq!(c.stop(), Ok(1));
    assert!(!c.is_running());
}

#[test]
fn stopping_twice_fails_the_second_time() {
    let mut c: HeartbeatControl<u32> = HeartbeatControl::new();
    c.start(1);
    assert_eq!(c.stop(), Ok(1));
    assert_eq!(c.stop(), Err(GameSenseError::HeartbeatNotStarted));
}

#[test]
fn stopping_without_start_fails() {
    let mut c: HeartbeatControl<u32> = HeartbeatControl::new();
    assert_eq!(c.stop(), Err(GameSenseError::HeartbeatNotStarted));
}

#[test]
fn restarting_hands_back_the_previous_task() {
    let mut c: HeartbeatControl<u32> = HeartbeatControl::new();
    assert_eq!(c.start(1), None);
    assert_eq!(c.start(2), Some(1));
    assert_eq!(c.stop(), Ok(2));
}

#[test]
fn teardown_releases_the_running_task() {
    let mut c: HeartbeatControl<u32> = HeartbeatControl::new();
    c.start(7);
    assert_eq!(c.teardown(), Some(7));
    assert!(!c.is_running());
    assert_eq!(c.teardown(), None);
}

#[test]
fn failed_removal_does_not_fail_setup() {
    let removed = Err(GameSenseError::EngineError("no such game".to_string()));
    assert_eq!(registration_outcome(removed, Ok("registered".to_string())), Ok(()));
}

#[test]
fn failed_registration_fails_setup() {
    let e = GameSenseError::EngineError("bad game".to_string());
    assert_eq!(registration_outcome(Ok("ok".to_string()), Err(e.clone())), Err(e));
}
