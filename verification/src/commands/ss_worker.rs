//! The decisions of the screenshot loop: what it does next, given what just
//! happened. The host runs the loop, captures, uploads and sleeps.

use vstd::prelude::*;
use crate::commands::screenshot::CaptureError;
use crate::commands::tracking::{after_tick, tick_record};
use crate::clock::{Timestamp, WallClock};
use crate::state::tracking_state::{TrackingModel, TrackingState};

verus! {

/// Seconds the loop sleeps after a successful capture and upload.
pub const SCREENSHOT_INTERVAL_SECS: u64 = 30;

/// What just happened in the screenshot loop.
#[derive(Clone, Copy, Debug, PartialEq, Eq, Structural)]
pub enum WorkerEvent {
    /// The loop begins an iteration: at its start, or after a sleep.
    Wake,
    /// A capture was taken and uploaded.
    Uploaded,
    /// A capture or its upload failed.
    Failed(CaptureError),
}

/// What the screenshot loop does next.
#[derive(Clone, Copy, Debug, PartialEq, Eq, Structural)]
pub enum WorkerAction {
    /// Capture the screen and upload it, then report `Uploaded` or `Failed`.
    Capture,
    /// Sleep for this many seconds, then report `Wake`.
    Sleep(u64),
    /// End the loop for good.
    Stop,
}

/// The session after the loop has ended on a failure: only the flag of the
/// loop is cleared.
pub open spec fn after_worker_failure(s: TrackingModel) -> TrackingModel {
    TrackingModel { screenshot_running: false, ..s }
}

/// The session after the loop has handled `event`.
pub open spec fn after_worker_event(s: TrackingModel, event: WorkerEvent) -> TrackingModel {
    match event {
        WorkerEvent::Failed(_) => after_worker_failure(s),
        _ => s,
    }
}

/// What the loop does after `event`: it captures on waking while its flag is
/// set and stops on waking otherwise, sleeps after a success, and stops after a
/// failure of any kind.
pub open spec fn worker_action(s: TrackingModel, event: WorkerEvent) -> WorkerAction {
    match event {
        WorkerEvent::Wake => if s.screenshot_running {
            WorkerAction::Capture
        } else {
            WorkerAction::Stop
        },
        WorkerEvent::Uploaded => WorkerAction::Sleep(SCREENSHOT_INTERVAL_SECS),
        WorkerEvent::Failed(_) => WorkerAction::Stop,
    }
}

/// One decision of the screenshot loop, taken under exclusive access to the
/// session. A failure clears the flag of the loop and nothing else.
pub fn worker_step(tracking: &mut TrackingState, event: WorkerEvent) -> (action: WorkerAction)
    ensures
        action == worker_action(old(tracking)@, event),
        final(tracking)@ == after_worker_event(old(tracking)@, event),
        old(tracking)@.wf() ==> final(tracking)@.wf(),
{
    match event {
        WorkerEvent::Wake => {
            if tracking.screenshot_running {
                WorkerAction::Capture
            } else {
                WorkerAction::Stop
            }
        },
        WorkerEvent::Uploaded => WorkerAction::Sleep(SCREENSHOT_INTERVAL_SECS),
        WorkerEvent::Failed(_) => {
            tracking.screenshot_running = false;
            WorkerAction::Stop
        },
    }
}

/// A failure in the screenshot loop stops the loop and clears its flag, so that
/// the next waking would stop too; whether the session tracks is untouched, and
/// polls go on as if nothing had happened: they emit the same records and leave
/// the same session, but for the cleared flag.
pub proof fn lemma_worker_failure_leaves_tracking(
    s: TrackingModel,
    error: CaptureError,
    active_app: Seq<char>,
    idle_secs: u64,
    now: Timestamp,
    wall: WallClock,
)
    ensures
        worker_action(s, WorkerEvent::Failed(error)) == WorkerAction::Stop,
        !after_worker_event(s, WorkerEvent::Failed(error)).screenshot_running,
        after_worker_event(s, WorkerEvent::Failed(error)).is_tracking == s.is_tracking,
        worker_action(after_worker_event(s, WorkerEvent::Failed(error)), WorkerEvent::Wake)
            == WorkerAction::Stop,
        tick_record(after_worker_failure(s), active_app, idle_secs, now, wall) == tick_record(
            s,
            active_app,
            idle_secs,
            now,
            wall,
        ),
        after_tick(after_worker_failure(s), active_app, idle_secs, now) == after_worker_failure(
            after_tick(s, active_app, idle_secs, now),
        ),
{
}

} // verus!
