//! Clock readings as plain values: a monotonic reading for attributing time, and a
//! wall-clock reading for stamping what is emitted.

use vstd::prelude::*;

verus! {

/// Nanoseconds in one second.
pub const NANOS_PER_SEC: u64 = 1_000_000_000;

/// The largest whole number of seconds whose nanosecond count fits a `Timestamp`.
pub const MAX_WHOLE_SECS: u64 = 18_446_744_073;

/// A reading of a monotonic clock, in nanoseconds since an origin that the host
/// fixes once per process.
#[derive(Clone, Copy, Debug, PartialEq, Eq, Structural)]
pub struct Timestamp {
    pub nanos: u64,
}

/// A reading of the wall clock, in milliseconds since the Unix epoch (UTC).
#[derive(Clone, Copy, Debug, PartialEq, Eq, Structural)]
pub struct WallClock {
    pub epoch_millis: i64,
}

/// Whole seconds that passed from `from` to `to`; zero when `to` is not later.
pub open spec fn elapsed_secs(from: Timestamp, to: Timestamp) -> u64 {
    if to.nanos >= from.nanos {
        ((to.nanos - from.nanos) / (NANOS_PER_SEC as int)) as u64
    } else {
        0
    }
}

impl Timestamp {
    /// The reading `nanos` nanoseconds after the origin.
    pub fn from_nanos(nanos: u64) -> (t: Timestamp)
        ensures
            t.nanos == nanos,
    {
        Timestamp { nanos }
    }

    /// The reading `secs` whole seconds after the origin.
    pub fn from_secs(secs: u64) -> (t: Timestamp)
        requires
            secs <= MAX_WHOLE_SECS,
        ensures
            t.nanos == secs * NANOS_PER_SEC,
    {
        Timestamp { nanos: secs * NANOS_PER_SEC }
    }

    /// Whole seconds from `earlier` to `self`, never negative.
    pub fn secs_since(self, earlier: Timestamp) -> (secs: u64)
        ensures
            secs == elapsed_secs(earlier, self),
    {
        if self.nanos >= earlier.nanos {
            (self.nanos - earlier.nanos) / NANOS_PER_SEC
        } else {
            0
        }
    }
}

/// Reads the wall clock through `chrono::Utc::now` and keeps its
/// `timestamp_millis`. The reading depends on the machine's clock at the moment
/// of the call; all that is claimed is that it does not lie before the epoch,
/// since `Utc::now` does not return for a clock set before it.
#[verifier::external_body]
pub(crate) fn wall_clock_now() -> (wall: WallClock)
    ensures
        wall.epoch_millis >= 0,
{
    WallClock { epoch_millis: chrono::Utc::now().timestamp_millis() }
}

} // verus!
