//! The tracking session and the record it emits.

use vstd::prelude::*;
use crate::clock::{Timestamp, WallClock};

verus! {

/// A screenshot kept on disk, with the epoch milliseconds at which it was taken.
#[derive(Clone, Debug, PartialEq, Eq)]
pub struct ScreenshotRecord {
    pub path: String,
    pub timestamp: i64,
}

/// One closed interval of foreground attribution.
#[derive(Clone, Debug, PartialEq, Eq)]
pub struct UsageRecord {
    pub app: String,
    pub duration: u64,
    pub idle_duration: u64,
    pub timestamp: WallClock,
}

/// What a `UsageRecord` holds, with the application name as a sequence of characters.
pub struct UsageModel {
    pub app: Seq<char>,
    pub duration: u64,
    pub idle_duration: u64,
    pub timestamp: WallClock,
}

impl View for UsageRecord {
    type V = UsageModel;

    open spec fn view(&self) -> UsageModel {
        UsageModel {
            app: self.app@,
            duration: self.duration,
            idle_duration: self.idle_duration,
            timestamp: self.timestamp,
        }
    }
}

/// The state of one tracking session.
#[derive(Clone, Debug, PartialEq, Eq)]
pub struct TrackingState {
    pub is_tracking: bool,
    pub start_instant: Option<Timestamp>,
    pub current_app: Option<String>,
    pub app_start_instant: Option<Timestamp>,
    pub screenshot_running: bool,
    pub last_user_activity: Timestamp,
    pub last_idle_check: Timestamp,
    /// Idle seconds accrued since the last activity.
    pub accumulated_idle: u64,
}

/// What a `TrackingState` holds, with the application name as a sequence of characters.
pub struct TrackingModel {
    pub is_tracking: bool,
    pub start_instant: Option<Timestamp>,
    pub current_app: Option<Seq<char>>,
    pub app_start_instant: Option<Timestamp>,
    pub screenshot_running: bool,
    pub last_user_activity: Timestamp,
    pub last_idle_check: Timestamp,
    pub accumulated_idle: u64,
}

impl View for TrackingState {
    type V = TrackingModel;

    open spec fn view(&self) -> TrackingModel {
        TrackingModel {
            is_tracking: self.is_tracking,
            start_instant: self.start_instant,
            current_app: match self.current_app {
                Some(app) => Some(app@),
                None => None,
            },
            app_start_instant: self.app_start_instant,
            screenshot_running: self.screenshot_running,
            last_user_activity: self.last_user_activity,
            last_idle_check: self.last_idle_check,
            accumulated_idle: self.accumulated_idle,
        }
    }
}

impl TrackingModel {
    /// The session as it is before tracking ever started, created at `now`.
    pub open spec fn initial(now: Timestamp) -> TrackingModel {
        TrackingModel {
            is_tracking: false,
            start_instant: None,
            current_app: None,
            app_start_instant: None,
            screenshot_running: false,
            last_user_activity: now,
            last_idle_check: now,
            accumulated_idle: 0,
        }
    }

    /// The session's invariant: an application is attributed exactly when the
    /// start of its interval is known, a stopped session attributes none and runs
    /// no screenshot loop, and the idle seconds fit between the last activity and
    /// the last idle check.
    pub open spec fn wf(self) -> bool {
        &&& self.current_app.is_some() == self.app_start_instant.is_some()
        &&& !self.is_tracking ==> self.current_app.is_none() && !self.screenshot_running
        &&& self.last_user_activity.nanos <= self.last_idle_check.nanos
        &&& self.accumulated_idle * crate::clock::NANOS_PER_SEC
                <= self.last_idle_check.nanos - self.last_user_activity.nanos
    }
}

impl TrackingState {
    /// A session that is not tracking, created at `now`.
    pub fn new(now: Timestamp) -> (state: TrackingState)
        ensures
            state@ == TrackingModel::initial(now),
            state@.wf(),
    {
        TrackingState {
            is_tracking: false,
            start_instant: None,
            current_app: None,
            app_start_instant: None,
            screenshot_running: false,
            last_user_activity: now,
            last_idle_check: now,
            accumulated_idle: 0,
        }
    }
}

impl Default for TrackingState {
    /// A session that is not tracking, created at the origin of the monotonic clock.
    fn default() -> (state: TrackingState)
        ensures
            state@ == TrackingModel::initial(Timestamp { nanos: 0 }),
            state@.wf(),
    {
        TrackingState::new(Timestamp::from_nanos(0))
    }
}

} // verus!
