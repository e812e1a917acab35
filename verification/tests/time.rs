use taskmanager::time::{
    divide_toward_zero, Timestamp, EARLIEST_SECOND, LATEST_SECOND, LONGEST_SPAN_SECONDS,
    NANOS_PER_SECOND, SECONDS_PER_DAY,
};

fn at(secs: i64, nanos: u32) -> Timestamp {
    Timestamp::new(secs, nanos).expect("timestamp in range")
}

#[test]
fn timestamp_keeps_seconds_and_nanoseconds() {
    let t = at(1_704_067_200, 123_456_789);
    assert_eq!(t.seconds(), 1_704_067_200);
    assert_eq!(t.subsec_nanos(), 123_456_789);
    let before_epoch = at(-1, 999_999_999);
    assert_eq!(before_epoch.seconds(), -1);
    assert_eq!(before_epoch.subsec_nanos(), 999_999_999);
}

#[test]
fn timestamp_range_is_that_of_chrono() {
    let min = chrono::NaiveDateTime::MIN.and_utc();
    let max = chrono::NaiveDateTime::MAX.and_utc();
    assert_eq!(min.timestamp(), EARLIEST_SECOND);
    assert_eq!(max.timestamp(), LATEST_SECOND);
    assert_eq!(LATEST_SECOND - EARLIEST_SECOND, LONGEST_SPAN_SECONDS);
    assert!(chrono::DateTime::from_timestamp(EARLIEST_SECOND, 0).is_some());
    assert!(chrono::DateTime::from_timestamp(EARLIEST_SECOND - 1, 0).is_none());
    assert!(chrono::DateTime::from_timestamp(LATEST_SECOND, 999_999_999).is_some());
    assert!(chrono::DateTime::from_timestamp(LATEST_SECOND + 1, 0).is_none());
}

#[test]
fn timestamp_new_accepts_exactly_the_range() {
    assert!(Timestamp::new(EARLIEST_SECOND, 0).is_some());
    assert!(Timestamp::new(LATEST_SECOND, 999_999_999).is_some());
    assert!(Timestamp::new(EARLIEST_SECOND - 1, 0).is_none());
    assert!(Timestamp::new(LATEST_SECOND + 1, 0).is_none());
    assert!(Timestamp::new(0, 1_000_000_000).is_none());
    assert!(Timestamp::new(59, 1_500_000_000).is_none());
    assert!(Timestamp::new(i64::MIN, 0).is_none());
    assert!(Timestamp::new(i64::MAX, u32::MAX).is_none());
}

#[test]
fn seconds_since_counts_whole_seconds() {
    assert_eq!(at(100, 0).seconds_since(&at(40, 0)), 60);
    assert_eq!(at(40, 0).seconds_since(&at(100, 0)), -60);
    assert_eq!(at(7, 0).seconds_since(&at(7, 0)), 0);
}

#[test]
fn seconds_since_rounds_toward_zero() {
    // 1.5 s forward and backward
    assert_eq!(at(11, 500_000_000).seconds_since(&at(10, 0)), 1);
    assert_eq!(at(10, 0).seconds_since(&at(11, 500_000_000)), -1);
    // 0.999999999 s either way
    assert_eq!(at(10, 999_999_999).seconds_since(&at(10, 0)), 0);
    assert_eq!(at(10, 0).seconds_since(&at(10, 999_999_999)), 0);
    // the nanoseconds borrow from the seconds
    assert_eq!(at(12, 100).seconds_since(&at(10, 200)), 1);
    assert_eq!(at(10, 200).seconds_since(&at(12, 100)), -1);
}

#[test]
fn seconds_since_spans_the_whole_range() {
    let first = at(EARLIEST_SECOND, 0);
    let last = at(LATEST_SECOND, 999_999_999);
    assert_eq!(last.seconds_since(&first), LONGEST_SPAN_SECONDS);
    assert_eq!(first.seconds_since(&last), -LONGEST_SPAN_SECONDS);
}

#[test]
fn days_since_counts_whole_days() {
    let start = at(1_704_067_200, 0);
    assert_eq!(at(1_704_067_200 + 8 * SECONDS_PER_DAY, 0).days_since(&start), 8);
    assert_eq!(at(1_704_067_200 + 8 * SECONDS_PER_DAY - 1, 999_999_999).days_since(&start), 7);
    assert_eq!(at(1_704_067_200 + SECONDS_PER_DAY - 1, 0).days_since(&start), 0);
    assert_eq!(start.days_since(&at(1_704_067_200 + SECONDS_PER_DAY - 1, 0)), 0);
    assert_eq!(start.days_since(&at(1_704_067_200 + 3 * SECONDS_PER_DAY + 5, 0)), -3);
    assert_eq!(
        at(LATEST_SECOND, 0).days_since(&at(EARLIEST_SECOND, 0)),
        LONGEST_SPAN_SECONDS / SECONDS_PER_DAY
    );
}

#[test]
fn divide_toward_zero_in_all_four_quadrants() {
    assert_eq!(divide_toward_zero(7, 2), 3);
    assert_eq!(divide_toward_zero(-7, 2), -3);
    assert_eq!(divide_toward_zero(7, -2), -3);
    assert_eq!(divide_toward_zero(-7, -2), 3);
    assert_eq!(divide_toward_zero(0, -5), 0);
    assert_eq!(divide_toward_zero(6, 3), 2);
    assert_eq!(divide_toward_zero(-6, 3), -2);
    assert_eq!(divide_toward_zero(i64::MAX, 1), i64::MAX);
    assert_eq!(divide_toward_zero(i64::MIN + 1, -1), i64::MAX);
}

#[test]
fn now_reads_a_plausible_clock() {
    let first = Timestamp::now();
    let second = Timestamp::now();
    // after 2020-01-01, and not running backward by more than a second
    assert!(first.seconds() > 1_577_836_800);
    assert!(second.seconds_since(&first) >= -1);
    assert!((first.subsec_nanos() as i64) < NANOS_PER_SECOND);
}
