//! Starting and stopping a session, and the poll step that attributes focus time.

use vstd::prelude::*;
use vstd::string::StringExecFns;
use crate::clock::{elapsed_secs, wall_clock_now, Timestamp, WallClock, NANOS_PER_SEC};
use crate::state::auth_state::AuthState;
use crate::state::tracking_state::{TrackingModel, TrackingState, UsageModel, UsageRecord};

verus! {

/// Idle seconds from which the user counts as away.
pub const IDLE_THRESHOLD_SECS: u64 = 120;

/// Milliseconds in one second.
pub const MILLIS_PER_SEC: u64 = 1000;

/// Whole seconds without input, from the system's tick count now and at the
/// last input, both in milliseconds; zero when the last input is not earlier.
pub open spec fn idle_secs_of_ticks(current_tick: u32, last_input_tick: u32) -> u64 {
    if current_tick >= last_input_tick {
        ((current_tick - last_input_tick) / (MILLIS_PER_SEC as int)) as u64
    } else {
        0
    }
}

/// The sum of two second counts, held at the largest value a `u64` takes.
pub open spec fn capped_sum(a: u64, b: u64) -> u64 {
    if a + b > u64::MAX {
        u64::MAX
    } else {
        (a + b) as u64
    }
}

/// The idle seconds on record after a poll at `now` that observed `idle_secs`.
pub open spec fn idle_after(s: TrackingModel, idle_secs: u64, now: Timestamp) -> u64 {
    if idle_secs >= IDLE_THRESHOLD_SECS {
        capped_sum(s.accumulated_idle, elapsed_secs(s.last_idle_check, now))
    } else {
        0
    }
}

/// The session after the idle bookkeeping of a poll at `now`.
pub open spec fn after_idle_check(s: TrackingModel, idle_secs: u64, now: Timestamp) -> TrackingModel {
    TrackingModel {
        accumulated_idle: idle_after(s, idle_secs, now),
        last_user_activity: if idle_secs >= IDLE_THRESHOLD_SECS {
            s.last_user_activity
        } else {
            now
        },
        last_idle_check: now,
        ..s
    }
}

/// Whether a poll at `now` that observes `active_app` closes an interval: an
/// application is attributed, its start is known, and either the application
/// changed or at least one whole second passed.
pub open spec fn closes_interval(s: TrackingModel, active_app: Seq<char>, now: Timestamp) -> bool {
    &&& s.is_tracking
    &&& s.current_app.is_some()
    &&& s.app_start_instant.is_some()
    &&& (s.current_app.unwrap() != active_app || elapsed_secs(s.app_start_instant.unwrap(), now)
        != 0)
}

/// The session after a poll at `now` that observed `active_app` and `idle_secs`.
pub open spec fn after_tick(
    s: TrackingModel,
    active_app: Seq<char>,
    idle_secs: u64,
    now: Timestamp,
) -> TrackingModel {
    if !s.is_tracking {
        s
    } else if s.current_app.is_none() || closes_interval(s, active_app, now) {
        TrackingModel {
            current_app: Some(active_app),
            app_start_instant: Some(now),
            ..after_idle_check(s, idle_secs, now)
        }
    } else {
        after_idle_check(s, idle_secs, now)
    }
}

/// The record that a poll at `now` emits, stamped with `wall`, if it emits one:
/// the interval of the application attributed so far.
pub open spec fn tick_record(
    s: TrackingModel,
    active_app: Seq<char>,
    idle_secs: u64,
    now: Timestamp,
    wall: WallClock,
) -> Option<UsageModel> {
    if closes_interval(s, active_app, now) {
        Some(
            UsageModel {
                app: s.current_app.unwrap(),
                duration: elapsed_secs(s.app_start_instant.unwrap(), now),
                idle_duration: idle_after(s, idle_secs, now),
                timestamp: wall,
            },
        )
    } else {
        None
    }
}

/// The session after a start at `now`: unchanged if it is tracking already.
pub open spec fn after_start(s: TrackingModel, now: Timestamp) -> TrackingModel {
    if s.is_tracking {
        s
    } else {
        TrackingModel {
            is_tracking: true,
            start_instant: Some(now),
            current_app: None,
            app_start_instant: None,
            screenshot_running: true,
            last_user_activity: now,
            last_idle_check: now,
            accumulated_idle: 0,
        }
    }
}

/// Whether a start has the caller spawn a screenshot loop: exactly when the
/// session is not tracking yet.
pub open spec fn start_spawns_worker(s: TrackingModel) -> bool {
    !s.is_tracking
}

/// The session after a stop.
pub open spec fn after_stop(s: TrackingModel) -> TrackingModel {
    TrackingModel {
        is_tracking: false,
        screenshot_running: false,
        current_app: None,
        app_start_instant: None,
        ..s
    }
}

/// A poll of a tracking session that attributes no application yet emits no
/// record and attributes the observed application from `now` on.
pub proof fn lemma_first_tick_opens_interval(
    s: TrackingModel,
    active_app: Seq<char>,
    idle_secs: u64,
    now: Timestamp,
    wall: WallClock,
)
    requires
        s.is_tracking,
        s.current_app.is_none(),
    ensures
        tick_record(s, active_app, idle_secs, now, wall).is_none(),
        after_tick(s, active_app, idle_secs, now).current_app == Some(active_app),
        after_tick(s, active_app, idle_secs, now).app_start_instant == Some(now),
{
}

/// A poll that observes the attributed application again before a whole second
/// has passed emits no record and leaves the start of the interval where it was.
pub proof fn lemma_same_app_zero_elapsed_is_silent(
    s: TrackingModel,
    active_app: Seq<char>,
    idle_secs: u64,
    now: Timestamp,
    wall: WallClock,
)
    requires
        s.current_app == Some(active_app),
        s.app_start_instant.is_some(),
        elapsed_secs(s.app_start_instant.unwrap(), now) == 0,
    ensures
        tick_record(s, active_app, idle_secs, now, wall).is_none(),
        after_tick(s, active_app, idle_secs, now).app_start_instant == s.app_start_instant,
        after_tick(s, active_app, idle_secs, now).current_app == s.current_app,
{
}

/// A poll that observes the attributed application again after at least one
/// whole second emits its record with that duration and rolls the start of the
/// interval to `now`.
pub proof fn lemma_same_app_rolls_interval(
    s: TrackingModel,
    active_app: Seq<char>,
    idle_secs: u64,
    now: Timestamp,
    wall: WallClock,
)
    requires
        s.is_tracking,
        s.current_app == Some(active_app),
        s.app_start_instant.is_some(),
        elapsed_secs(s.app_start_instant.unwrap(), now) > 0,
    ensures
        tick_record(s, active_app, idle_secs, now, wall) == Some(
            UsageModel {
                app: active_app,
                duration: elapsed_secs(s.app_start_instant.unwrap(), now),
                idle_duration: idle_after(s, idle_secs, now),
                timestamp: wall,
            },
        ),
        after_tick(s, active_app, idle_secs, now).app_start_instant == Some(now),
        after_tick(s, active_app, idle_secs, now).current_app == Some(active_app),
{
}

/// A poll that observes another application than the attributed one emits
/// exactly the record of the attributed one, whose duration is the whole seconds
/// since its interval began (zero included), and attributes the observed
/// application from `now` on.
pub proof fn lemma_switch_closes_previous_app(
    s: TrackingModel,
    previous_app: Seq<char>,
    active_app: Seq<char>,
    idle_secs: u64,
    now: Timestamp,
    wall: WallClock,
)
    requires
        s.is_tracking,
        s.current_app == Some(previous_app),
        s.app_start_instant.is_some(),
        previous_app != active_app,
    ensures
        tick_record(s, active_app, idle_secs, now, wall) == Some(
            UsageModel {
                app: previous_app,
                duration: elapsed_secs(s.app_start_instant.unwrap(), now),
                idle_duration: idle_after(s, idle_secs, now),
                timestamp: wall,
            },
        ),
        after_tick(s, active_app, idle_secs, now).current_app == Some(active_app),
        after_tick(s, active_app, idle_secs, now).app_start_instant == Some(now),
{
}

/// The first poll of a tracking session that observes less idle time than the
/// threshold resets the idle seconds to exactly zero and records `now` as the
/// last activity.
pub proof fn lemma_activity_resets_idle(
    s: TrackingModel,
    active_app: Seq<char>,
    idle_secs: u64,
    now: Timestamp,
)
    requires
        s.is_tracking,
        idle_secs < IDLE_THRESHOLD_SECS,
    ensures
        after_tick(s, active_app, idle_secs, now).accumulated_idle == 0,
        after_tick(s, active_app, idle_secs, now).last_user_activity == now,
        after_tick(s, active_app, idle_secs, now).last_idle_check == now,
{
}

/// While the observed idle time stays at or above the threshold, a poll of a
/// well-formed tracking session adds exactly the whole seconds since the last
/// idle check to the idle seconds: the sum is never cut short, the idle seconds
/// never decrease, and they grow whenever a whole second has passed.
pub proof fn lemma_idle_accumulates(
    s: TrackingModel,
    active_app: Seq<char>,
    idle_secs: u64,
    now: Timestamp,
)
    requires
        s.wf(),
        s.is_tracking,
        idle_secs >= IDLE_THRESHOLD_SECS,
    ensures
        after_tick(s, active_app, idle_secs, now).accumulated_idle == s.accumulated_idle
            + elapsed_secs(s.last_idle_check, now),
        after_tick(s, active_app, idle_secs, now).accumulated_idle >= s.accumulated_idle,
        elapsed_secs(s.last_idle_check, now) > 0 ==> after_tick(
            s,
            active_app,
            idle_secs,
            now,
        ).accumulated_idle > s.accumulated_idle,
        after_tick(s, active_app, idle_secs, now).last_user_activity == s.last_user_activity,
        after_tick(s, active_app, idle_secs, now).last_idle_check == now,
{
    if s.last_idle_check.nanos <= now.nanos {
        lemma_idle_fits(s, now);
    }
}

/// Of two consecutive polls of a well-formed tracking session, the second, if it
/// observes idle time at or above the threshold, adds exactly the whole seconds
/// between the two polls to the idle seconds that the first left.
pub proof fn lemma_idle_grows_between_ticks(
    s: TrackingModel,
    first_app: Seq<char>,
    first_idle: u64,
    first_now: Timestamp,
    second_app: Seq<char>,
    second_idle: u64,
    second_now: Timestamp,
)
    requires
        s.wf(),
        s.is_tracking,
        s.last_idle_check.nanos <= first_now.nanos <= second_now.nanos,
        second_idle >= IDLE_THRESHOLD_SECS,
    ensures
        ({
            let first = after_tick(s, first_app, first_idle, first_now);
            let second = after_tick(first, second_app, second_idle, second_now);
            second.accumulated_idle == first.accumulated_idle + elapsed_secs(first_now, second_now)
        }),
{
    let first = after_tick(s, first_app, first_idle, first_now);
    lemma_tick_keeps_wf(s, first_app, first_idle, first_now);
    lemma_idle_accumulates(first, second_app, second_idle, second_now);
}

/// In a well-formed session the idle seconds plus the whole seconds since the
/// last idle check fit between the last activity and `now`.
pub proof fn lemma_idle_fits(s: TrackingModel, now: Timestamp)
    requires
        s.wf(),
        s.last_idle_check.nanos <= now.nanos,
    ensures
        (s.accumulated_idle + elapsed_secs(s.last_idle_check, now)) * NANOS_PER_SEC <= now.nanos
            - s.last_user_activity.nanos,
        s.accumulated_idle + elapsed_secs(s.last_idle_check, now) <= u64::MAX,
{
    let e = elapsed_secs(s.last_idle_check, now);
    assert(e * NANOS_PER_SEC <= now.nanos - s.last_idle_check.nanos);
    assert((s.accumulated_idle + e) * NANOS_PER_SEC == s.accumulated_idle * NANOS_PER_SEC + e
        * NANOS_PER_SEC);
}

/// A poll at a `now` not before the last idle check keeps a well-formed session
/// well-formed.
pub proof fn lemma_tick_keeps_wf(
    s: TrackingModel,
    active_app: Seq<char>,
    idle_secs: u64,
    now: Timestamp,
)
    requires
        s.wf(),
        s.last_idle_check.nanos <= now.nanos,
    ensures
        after_tick(s, active_app, idle_secs, now).wf(),
        after_tick(s, active_app, idle_secs, now).is_tracking == s.is_tracking,
        after_tick(s, active_app, idle_secs, now).start_instant == s.start_instant,
        after_tick(s, active_app, idle_secs, now).screenshot_running == s.screenshot_running,
{
    lemma_idle_fits(s, now);
}

/// Starting twice in succession leaves the session as starting once does, and
/// the second start asks for no further screenshot loop: of the two starts at
/// most the first spawns one.
pub proof fn lemma_start_is_idempotent(s: TrackingModel, first_now: Timestamp, second_now: Timestamp)
    ensures
        after_start(after_start(s, first_now), second_now) == after_start(s, first_now),
        after_start(s, first_now).is_tracking,
        after_start(s, first_now).screenshot_running || s.is_tracking,
        !start_spawns_worker(after_start(s, first_now)),
{
}

/// Whatever the session held, after a stop it attributes no application, runs
/// no screenshot loop and keeps the start of the session.
pub proof fn lemma_stop_clears_attribution(s: TrackingModel)
    ensures
        after_stop(s).current_app.is_none(),
        after_stop(s).app_start_instant.is_none(),
        !after_stop(s).screenshot_running,
        !after_stop(s).is_tracking,
        after_stop(s).start_instant == s.start_instant,
        after_stop(after_stop(s)) == after_stop(s),
{
}

/// Whole seconds without input, from the system's tick count now and at the
/// last input.
pub fn idle_seconds_from_ticks(current_tick: u32, last_input_tick: u32) -> (secs: u64)
    ensures
        secs == idle_secs_of_ticks(current_tick, last_input_tick),
{
    let idle_ms: u64 = if current_tick >= last_input_tick {
        (current_tick - last_input_tick) as u64
    } else {
        0
    };
    idle_ms / MILLIS_PER_SEC
}

/// The name under which usage is attributed: the name that the lookup of the
/// foreground application gave, or `Unknown` where it gave none.
pub fn active_app_or_unknown(lookup: Option<String>) -> (app: String)
    ensures
        app@ == match lookup {
            Some(name) => name@,
            None => "Unknown"@,
        },
{
    match lookup {
        Some(name) => name,
        None => String::from_str("Unknown"),
    }
}

/// Stores `token` as the bearer credential.
pub fn set_auth_token(token: String, auth: &mut AuthState)
    ensures
        final(auth)@ == Some(token@),
{
    auth.token = Some(token);
}

/// Removes the bearer credential.
pub fn clear_auth_token(auth: &mut AuthState)
    ensures
        final(auth)@ == None::<Seq<char>>,
{
    auth.token = None;
}

/// Starts tracking at `now` unless the session is tracking already. Returns
/// whether the caller has to spawn the screenshot loop: exactly when tracking
/// was off before the call.
pub fn start_tracking(tracking: &mut TrackingState, now: Timestamp) -> (spawn_worker: bool)
    ensures
        final(tracking)@ == after_start(old(tracking)@, now),
        spawn_worker == start_spawns_worker(old(tracking)@),
        old(tracking)@.wf() ==> final(tracking)@.wf(),
{
    if tracking.is_tracking {
        return false;
    }
    tracking.is_tracking = true;
    tracking.start_instant = Some(now);
    tracking.last_user_activity = now;
    tracking.last_idle_check = now;
    tracking.accumulated_idle = 0;
    tracking.current_app = None;
    tracking.app_start_instant = None;
    tracking.screenshot_running = true;
    true
}

/// Stops tracking: no application stays attributed and the screenshot loop is
/// told to end. The start of the session is kept.
pub fn stop_tracking(tracking: &mut TrackingState)
    ensures
        final(tracking)@ == after_stop(old(tracking)@),
        final(tracking)@.current_app.is_none(),
        !final(tracking)@.screenshot_running,
        !final(tracking)@.is_tracking,
        old(tracking)@.wf() ==> final(tracking)@.wf(),
{
    tracking.is_tracking = false;
    tracking.screenshot_running = false;
    tracking.current_app = None;
    tracking.app_start_instant = None;
}

/// Whole seconds from the session's last start to `now`; zero if it never started.
pub fn get_elapsed(tracking: &TrackingState, now: Timestamp) -> (secs: u64)
    ensures
        secs == match tracking@.start_instant {
            Some(start) => elapsed_secs(start, now),
            None => 0,
        },
{
    match tracking.start_instant {
        Some(start) => now.secs_since(start),
        None => 0,
    }
}

/// One poll at `now`, stamped with the wall-clock reading `wall`: does the idle
/// bookkeeping, then opens, continues or closes the attributed interval, and
/// returns the record of a closed one.
pub fn tick_usage_at(
    tracking: &mut TrackingState,
    active_app: String,
    idle_secs: u64,
    now: Timestamp,
    wall: WallClock,
) -> (record: Option<UsageRecord>)
    ensures
        final(tracking)@ == after_tick(old(tracking)@, active_app@, idle_secs, now),
        match record {
            Some(r) => tick_record(old(tracking)@, active_app@, idle_secs, now, wall) == Some(r@),
            None => tick_record(old(tracking)@, active_app@, idle_secs, now, wall).is_none(),
        },
        old(tracking)@.wf() && old(tracking)@.last_idle_check.nanos <= now.nanos
            ==> final(tracking)@.wf(),
{
    if !tracking.is_tracking {
        return None;
    }
    proof {
        if old(tracking)@.wf() && old(tracking)@.last_idle_check.nanos <= now.nanos {
            lemma_tick_keeps_wf(old(tracking)@, active_app@, idle_secs, now);
        }
    }
    if idle_secs >= IDLE_THRESHOLD_SECS {
        let check_elapsed: u64 = now.secs_since(tracking.last_idle_check);
        tracking.accumulated_idle = tracking.accumulated_idle.saturating_add(check_elapsed);
    } else {
        tracking.accumulated_idle = 0;
        tracking.last_user_activity = now;
    }
    tracking.last_idle_check = now;

    let attributed: Option<String> = tracking.current_app.take();
    match (attributed, tracking.app_start_instant) {
        (None, _) => {
            tracking.current_app = Some(active_app);
            tracking.app_start_instant = Some(now);
            None
        },
        (Some(app), Some(start)) => {
            let elapsed: u64 = now.secs_since(start);
            if app == active_app && elapsed == 0 {
                tracking.current_app = Some(app);
                return None;
            }
            tracking.current_app = Some(active_app);
            tracking.app_start_instant = Some(now);
            Some(
                UsageRecord {
                    app,
                    duration: elapsed,
                    idle_duration: tracking.accumulated_idle,
                    timestamp: wall,
                },
            )
        },
        (Some(app), None) => {
            tracking.current_app = Some(app);
            None
        },
    }
}

/// One poll at `now`, stamped with the wall clock as read during the call.
/// Session and record are those of `tick_usage_at` for some reading of the wall
/// clock not before the epoch; nothing else depends on that reading.
pub fn tick_usage(
    tracking: &mut TrackingState,
    active_app: String,
    idle_secs: u64,
    now: Timestamp,
) -> (record: Option<UsageRecord>)
    ensures
        final(tracking)@ == after_tick(old(tracking)@, active_app@, idle_secs, now),
        match record {
            Some(r) => r.timestamp.epoch_millis >= 0 && tick_record(
                old(tracking)@,
                active_app@,
                idle_secs,
                now,
                r.timestamp,
            ) == Some(r@),
            None => !closes_interval(old(tracking)@, active_app@, now),
        },
        old(tracking)@.wf() && old(tracking)@.last_idle_check.nanos <= now.nanos
            ==> final(tracking)@.wf(),
{
    let wall = wall_clock_now();
    tick_usage_at(tracking, active_app, idle_secs, now, wall)
}

} // verus!
