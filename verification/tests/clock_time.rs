use atlas::clock::{Timestamp, MAX_SECS, MIN_SECS, NANOS_PER_SEC};
use chrono::{DateTime, Utc};

fn at(secs: i64, nanos: u32) -> Timestamp {
    Timestamp::new(secs, nanos).unwrap()
}

#[test]
fn range_is_the_range_of_the_calendar() {
    assert!(Timestamp::new(MIN_SECS, 0).is_some());
    assert!(Timestamp::new(MIN_SECS - 1, 0).is_none());
    assert!(Timestamp::new(MAX_SECS, NANOS_PER_SEC - 1).is_some());
    assert!(Timestamp::new(MAX_SECS + 1, 0).is_none());
    assert!(Timestamp::new(0, NANOS_PER_SEC).is_none());
    assert!(DateTime::<Utc>::from_timestamp(MIN_SECS, 0).is_some());
    assert!(DateTime::<Utc>::from_timestamp(MIN_SECS - 1, 0).is_none());
    assert!(DateTime::<Utc>::from_timestamp(MAX_SECS, NANOS_PER_SEC - 1).is_some());
    assert!(DateTime::<Utc>::from_timestamp(MAX_SECS + 1, 0).is_none());
    assert_eq!(DateTime::<Utc>::MIN_UTC.timestamp(), MIN_SECS);
    assert_eq!(DateTime::<Utc>::MAX_UTC.timestamp(), MAX_SECS);
}

#[test]
fn accessors_give_back_the_parts() {
    let t = at(-12, 345);
    assert_eq!(t.secs(), -12);
    assert_eq!(t.nanos(), 345);
}

#[test]
fn whole_seconds_round_toward_zero() {
    assert_eq!(at(10, 0).seconds_since(&at(3, 0)), 7);
    assert_eq!(at(3, 0).seconds_since(&at(10, 0)), -7);
    assert_eq!(at(10, 900_000_000).seconds_since(&at(3, 0)), 7);
    assert_eq!(at(10, 0).seconds_since(&at(3, 1)), 6);
    assert_eq!(at(3, 1).seconds_since(&at(10, 0)), -6);
    assert_eq!(at(3, 0).seconds_since(&at(10, 900_000_000)), -7);
    assert_eq!(at(1, 100).seconds_since(&at(0, 900_000_000)), 0);
    assert_eq!(at(0, 900_000_000).seconds_since(&at(1, 100)), 0);
    assert_eq!(at(5, 5).seconds_since(&at(5, 5)), 0);
    assert_eq!(at(-1, 0).seconds_since(&at(-3, 500_000_000)), 1);
}

#[test]
fn whole_seconds_over_the_whole_range() {
    let first = at(MIN_SECS, 0);
    let last = at(MAX_SECS, NANOS_PER_SEC - 1);
    assert_eq!(last.seconds_since(&first), MAX_SECS - MIN_SECS);
    assert_eq!(first.seconds_since(&last), MIN_SECS - MAX_SECS);
}

#[test]
fn now_lies_between_two_readings_of_the_clock() {
    let before = Utc::now().timestamp();
    let now = Timestamp::now();
    let after = Utc::now().timestamp();
    assert!(before <= now.secs() && now.secs() <= after);
    assert!(now.nanos() < NANOS_PER_SEC);
}

#[test]
fn clamping_holds_any_parts() {
    let t = Timestamp::clamped(12, 34);
    assert_eq!((t.secs(), t.nanos()), (12, 34));
    let t = Timestamp::clamped(i64::MIN, 0);
    assert_eq!((t.secs(), t.nanos()), (MIN_SECS, 0));
    let t = Timestamp::clamped(i64::MAX, u32::MAX);
    assert_eq!((t.secs(), t.nanos()), (MAX_SECS, NANOS_PER_SEC - 1));
    let t = Timestamp::clamped(59, 1_500_000_000);
    assert_eq!((t.secs(), t.nanos()), (59, 999_999_999));
    let now = Utc::now();
    let t = Timestamp::clamped(now.timestamp(), now.timestamp_subsec_nanos());
    assert_eq!((t.secs(), t.nanos()), (now.timestamp(), now.timestamp_subsec_nanos()));
}
