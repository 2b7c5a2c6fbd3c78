//! Cooperative service lifecycle: shared running flags, polled at loop
//! top by every capture, consumer and retry thread.
//!
//! Each service owns one controller. Starting an already-running service
//! is a successful no-op that must spawn nothing (no duplicate producer
//! threads); stopping a stopped service is a successful no-op as well.
//! The surrounding application holds a controller behind a short-held
//! mutual-exclusion lock and performs the spawning itself.
use crate::activity::ActivityLoggerState;
use vstd::prelude::*;

verus! {

/// How long the screenshot loop rests between captures, in seconds.
pub const SCREENSHOT_INTERVAL_SECS: u64 = 10;

/// How long the activity monitor rests between drains, in seconds.
pub const ACTIVITY_FLUSH_INTERVAL_SECS: u64 = 30;

/// How long a retry thread rests between sweeps, in seconds: much
/// larger than any single delivery timeout, as the retry discipline
/// asks, and otherwise a free design parameter.
pub const RETRY_SWEEP_INTERVAL_SECS: u64 = 300;

/// The running flag of one service.
#[derive(Clone, Copy, PartialEq, Eq, Structural, Debug)]
pub struct ServiceController {
    pub running: bool,
}

/// What a start request does to a controller, and whether the caller must
/// spawn the service's threads.
pub open spec fn spec_start(c: ServiceController) -> (ServiceController, bool) {
    (ServiceController { running: true }, !c.running)
}

/// What a stop request does to a controller.
pub open spec fn spec_stop(c: ServiceController) -> ServiceController {
    ServiceController { running: false }
}

impl ServiceController {
    /// A fresh service is stopped.
    pub fn new() -> (c: Self)
        ensures
            !c.running,
    {
        ServiceController { running: false }
    }

    /// Handles a start request. Returns whether the caller must spawn the
    /// service's threads: exactly when the service was not yet running.
    pub fn try_start(&mut self) -> (spawn: bool)
        ensures
            (*final(self), spawn) == spec_start(*old(self)),
            final(self).running,
            spawn == !old(self).running,
    {
        if self.running {
            false
        } else {
            self.running = true;
            true
        }
    }

    /// Handles a stop request: clears the flag and returns at once. The
    /// threads observe the flag cooperatively and exit after their current
    /// unit of work.
    pub fn stop(&mut self)
        ensures
            *final(self) == spec_stop(*old(self)),
            !final(self).running,
    {
        self.running = false;
    }
}

/// Idempotent start/stop: a second start request on a running service
/// spawns nothing, so exactly one set of threads exists; a stop request on
/// a stopped service leaves it stopped and is no error.
pub proof fn lemma_lifecycle_idempotent(c: ServiceController)
    ensures
        spec_start(c).0.running,
        !spec_start(spec_start(c).0).1,
        !spec_stop(spec_stop(c)).running,
{
}

/// What a stop request against the recording session decides.
#[derive(Clone, Copy, PartialEq, Eq, Structural, Debug)]
pub enum StopOutcome {
    /// The session was not running: a successful no-op.
    NotRunning,
    /// The stop handle was taken: signal the recorder thread to wind down.
    SignalStop,
    /// Running but the handle was lost: force the state to stopped and
    /// report the inconsistency.
    HandleMissing,
}

/// State of the screen-recording session: the running flag together with
/// whether a stop handle for the recorder thread is installed.
#[derive(Clone, Copy, PartialEq, Eq, Structural, Debug)]
pub struct VideoState {
    pub is_running: bool,
    pub stop_handle_armed: bool,
}

impl VideoState {
    /// A fresh session is stopped with no handle installed.
    pub fn new() -> (v: Self)
        ensures
            !v.is_running,
            !v.stop_handle_armed,
    {
        VideoState { is_running: false, stop_handle_armed: false }
    }

    /// Handles a request to start recording. Returns whether the caller
    /// must spawn the recorder thread and install its stop handle: exactly
    /// when the session was not yet running.
    pub fn begin_recording(&mut self) -> (started: bool)
        ensures
            started == !old(self).is_running,
            final(self).is_running,
            started ==> final(self).stop_handle_armed,
            !started ==> final(self).stop_handle_armed == old(self).stop_handle_armed,
    {
        if self.is_running {
            false
        } else {
            self.is_running = true;
            self.stop_handle_armed = true;
            true
        }
    }

    /// Handles a request to stop recording. The running flag stays set on
    /// a clean signal: the recorder thread clears it when it exits.
    pub fn request_stop(&mut self) -> (outcome: StopOutcome)
        ensures
            !old(self).is_running ==> outcome is NotRunning && *final(self) == *old(self),
            old(self).is_running && old(self).stop_handle_armed ==> {
                &&& outcome is SignalStop
                &&& final(self).is_running
                &&& !final(self).stop_handle_armed
            },
            old(self).is_running && !old(self).stop_handle_armed ==> {
                &&& outcome is HandleMissing
                &&& !final(self).is_running
                &&& !final(self).stop_handle_armed
            },
    {
        if !self.is_running {
            StopOutcome::NotRunning
        } else if self.stop_handle_armed {
            self.stop_handle_armed = false;
            StopOutcome::SignalStop
        } else {
            self.is_running = false;
            StopOutcome::HandleMissing
        }
    }

    /// The recorder thread reports that it has wound down, whether by stop
    /// signal or by error: the session can be started cleanly again.
    pub fn recorder_exited(&mut self)
        ensures
            !final(self).is_running,
            !final(self).stop_handle_armed,
    {
        self.is_running = false;
        self.stop_handle_armed = false;
    }
}

/// State of the segment-rotating video service.
pub struct VideoServiceState {
    pub is_running: ServiceController,
}

/// Everything the command handlers share: one lifecycle controller per
/// service, owned here and passed into every spawned task rather than
/// reached globally.
pub struct MainAppState {
    pub screenshot_is_running: ServiceController,
    pub activity_logger_state: ActivityLoggerState,
    pub video_state: VideoState,
}

impl MainAppState {
    /// A fresh application: every service stopped, nothing coalesced.
    pub fn new() -> (s: Self)
        ensures
            !s.screenshot_is_running.running,
            s.activity_logger_state.wf(),
            !s.activity_logger_state.is_activity_logging_running,
            s.activity_logger_state.keystroke_buffer@.len() == 0,
            s.activity_logger_state.mouse_click_count == 0,
            s.activity_logger_state.mouse_scroll_count == 0,
            !s.video_state.is_running,
            !s.video_state.stop_handle_armed,
    {
        MainAppState {
            screenshot_is_running: ServiceController::new(),
            activity_logger_state: ActivityLoggerState::new(),
            video_state: VideoState::new(),
        }
    }
}

} // verus!
