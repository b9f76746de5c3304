use activity_tracker::clock::{Timestamp, MAX_WHOLE_SECS, NANOS_PER_SEC};

#[test]
fn from_secs_counts_nanoseconds() {
    assert_eq!(Timestamp::from_secs(0).nanos, 0);
    assert_eq!(Timestamp::from_secs(5).nanos, 5_000_000_000);
    assert_eq!(
        Timestamp::from_secs(MAX_WHOLE_SECS).nanos,
        MAX_WHOLE_SECS * NANOS_PER_SEC
    );
}

#[test]
fn from_nanos_keeps_the_count() {
    assert_eq!(Timestamp::from_nanos(123).nanos, 123);
    assert_eq!(Timestamp::from_nanos(u64::MAX).nanos, u64::MAX);
}

#[test]
fn secs_since_truncates_to_whole_seconds() {
    let start = Timestamp::from_nanos(900_000_000);
    assert_eq!(Timestamp::from_nanos(1_100_000_000).secs_since(start), 0);
    assert_eq!(Timestamp::from_nanos(1_899_999_999).secs_since(start), 0);
    assert_eq!(Timestamp::from_nanos(1_900_000_000).secs_since(start), 1);
    assert_eq!(Timestamp::from_nanos(u64::MAX).secs_since(Timestamp::from_nanos(0)), 18_446_744_073);
}

#[test]
fn secs_since_is_never_negative() {
    let later = Timestamp::from_secs(10);
    assert_eq!(Timestamp::from_secs(3).secs_since(later), 0);
    assert_eq!(later.secs_since(later), 0);
}
