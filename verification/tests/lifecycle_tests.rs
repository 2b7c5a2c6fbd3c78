use capture_agent::lifecycle::{
    MainAppState, ServiceController, StopOutcome, VideoState, ACTIVITY_FLUSH_INTERVAL_SECS,
    RETRY_SWEEP_INTERVAL_SECS, SCREENSHOT_INTERVAL_SECS,
};

#[test]
fn second_start_spawns_nothing() {
    let mut c = ServiceController::new();
    assert!(c.try_start(), "the first start spawns the threads");
    assert!(!c.try_start(), "a second start is a no-op: one set of threads");
    assert!(c.running);
}

#[test]
fn stop_when_stopped_is_a_no_op() {
    let mut c = ServiceController::new();
    c.stop();
    assert!(!c.running);
    c.stop();
    assert!(!c.running);
}

#[test]
fn start_after_stop_spawns_again() {
    let mut c = ServiceController::new();
    assert!(c.try_start());
    c.stop();
    assert!(c.try_start());
}

#[test]
fn video_start_is_idempotent() {
    let mut v = VideoState::new();
    assert!(v.begin_recording());
    assert!(!v.begin_recording(), "already recording: successful no-op");
    assert!(v.is_running);
    assert!(v.stop_handle_armed);
}

#[test]
fn video_stop_signals_the_recorder_once() {
    let mut v = VideoState::new();
    assert!(v.begin_recording());
    assert_eq!(v.request_stop(), StopOutcome::SignalStop);
    assert!(v.is_running, "the recorder thread clears the flag itself");
    assert!(!v.stop_handle_armed);
    v.recorder_exited();
    assert!(!v.is_running);
    assert_eq!(v.request_stop(), StopOutcome::NotRunning);
}

#[test]
fn video_stop_without_handle_forces_stopped() {
    let mut v = VideoState { is_running: true, stop_handle_armed: false };
    assert_eq!(v.request_stop(), StopOutcome::HandleMissing);
    assert!(!v.is_running);
}

#[test]
fn fresh_app_state_has_everything_stopped() {
    let s = MainAppState::new();
    assert!(!s.screenshot_is_running.running);
    assert!(!s.activity_logger_state.is_activity_logging_running);
    assert!(s.activity_logger_state.keystroke_buffer.is_empty());
    assert!(!s.video_state.is_running);
}

#[test]
fn cadences_are_as_configured() {
    assert_eq!(SCREENSHOT_INTERVAL_SECS, 10);
    assert_eq!(ACTIVITY_FLUSH_INTERVAL_SECS, 30);
    assert_eq!(RETRY_SWEEP_INTERVAL_SECS, 300);
    assert!(RETRY_SWEEP_INTERVAL_SECS > 60, "a sweep waits much longer than one delivery timeout");
}
