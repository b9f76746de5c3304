use activity_tracker::clock::{Timestamp, WallClock};
use activity_tracker::commands::screenshot::CaptureError;
use activity_tracker::commands::ss_worker::{
    worker_step, WorkerAction, WorkerEvent, SCREENSHOT_INTERVAL_SECS,
};
use activity_tracker::commands::tracking::{start_tracking, stop_tracking, tick_usage_at};
use activity_tracker::state::tracking_state::{TrackingState, UsageRecord};

fn tracking_session() -> TrackingState {
    let mut session = TrackingState::new(Timestamp::from_secs(0));
    start_tracking(&mut session, Timestamp::from_secs(0));
    session
}

#[test]
fn worker_captures_while_enabled() {
    let mut session = tracking_session();
    let before = session.clone();
    assert_eq!(worker_step(&mut session, WorkerEvent::Wake), WorkerAction::Capture);
    assert_eq!(session, before);
}

#[test]
fn worker_sleeps_thirty_seconds_after_success() {
    let mut session = tracking_session();
    let before = session.clone();
    assert_eq!(SCREENSHOT_INTERVAL_SECS, 30);
    assert_eq!(worker_step(&mut session, WorkerEvent::Uploaded), WorkerAction::Sleep(30));
    assert_eq!(session, before);
}

#[test]
fn worker_stops_when_disabled() {
    let mut session = tracking_session();
    stop_tracking(&mut session);
    let before = session.clone();
    assert_eq!(worker_step(&mut session, WorkerEvent::Wake), WorkerAction::Stop);
    assert_eq!(session, before);
    let mut fresh = TrackingState::new(Timestamp::from_secs(0));
    assert_eq!(worker_step(&mut fresh, WorkerEvent::Wake), WorkerAction::Stop);
}

#[test]
fn every_failure_stops_the_worker() {
    for error in [
        CaptureError::MissingToken,
        CaptureError::Capture,
        CaptureError::Encode,
        CaptureError::Upload,
    ] {
        let mut session = tracking_session();
        let mut expected = session.clone();
        expected.screenshot_running = false;
        assert_eq!(worker_step(&mut session, WorkerEvent::Failed(error)), WorkerAction::Stop);
        assert_eq!(session, expected);
        assert!(session.is_tracking);
        assert_eq!(worker_step(&mut session, WorkerEvent::Wake), WorkerAction::Stop);
    }
}

#[test]
fn uploaded_does_not_enable_a_stopped_worker() {
    let mut session = tracking_session();
    worker_step(&mut session, WorkerEvent::Failed(CaptureError::Upload));
    assert_eq!(
        worker_step(&mut session, WorkerEvent::Uploaded),
        WorkerAction::Sleep(SCREENSHOT_INTERVAL_SECS)
    );
    assert!(!session.screenshot_running);
    assert_eq!(worker_step(&mut session, WorkerEvent::Wake), WorkerAction::Stop);
}

#[test]
fn scenario_second_upload_fails_and_ticks_go_on() {
    let wall = WallClock { epoch_millis: 1_700_000_000_000 };
    let mut session = tracking_session();
    tick_usage_at(&mut session, "Editor".to_string(), 0, Timestamp::from_secs(0), wall);
    assert_eq!(worker_step(&mut session, WorkerEvent::Wake), WorkerAction::Capture);
    assert_eq!(worker_step(&mut session, WorkerEvent::Uploaded), WorkerAction::Sleep(30));
    tick_usage_at(&mut session, "Browser".to_string(), 0, Timestamp::from_secs(21), wall);
    assert_eq!(worker_step(&mut session, WorkerEvent::Wake), WorkerAction::Capture);
    assert_eq!(
        worker_step(&mut session, WorkerEvent::Failed(CaptureError::Upload)),
        WorkerAction::Stop
    );
    assert!(!session.screenshot_running);
    assert!(session.is_tracking);
    assert_eq!(
        tick_usage_at(&mut session, "Browser".to_string(), 0, Timestamp::from_secs(25), wall),
        Some(UsageRecord {
            app: "Browser".to_string(),
            duration: 4,
            idle_duration: 0,
            timestamp: wall,
        })
    );
    assert!(!session.screenshot_running);
}
