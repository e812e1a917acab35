use taskmanager::time::{Timestamp, LONGEST_SPAN_SECONDS, SECONDS_PER_DAY};
use taskmanager::urgency::{
    age_floor, deadline_floor, urgency_floor, DEFAULT_URGENCY, MAXIMUM_URGENCY, MINIMUM_URGENCY,
    URGENCY_MULTIPLIER, URGENCY_SCALE,
};

const T: i64 = 1_704_067_200;

fn at(secs: i64, nanos: u32) -> Timestamp {
    Timestamp::new(secs, nanos).expect("timestamp in range")
}

#[test]
fn constants_are_in_thousandths() {
    assert_eq!(URGENCY_SCALE, 1_000);
    assert_eq!(URGENCY_MULTIPLIER, URGENCY_SCALE / 2);
    assert_eq!(DEFAULT_URGENCY, 3 * URGENCY_SCALE);
    assert_eq!(MINIMUM_URGENCY, 0);
    assert_eq!(MAXIMUM_URGENCY, 10 * URGENCY_SCALE);
}

#[test]
fn age_floor_is_half_a_unit_per_day() {
    assert_eq!(age_floor(0), 0);
    assert_eq!(age_floor(1), 500);
    assert_eq!(age_floor(6), 3_000);
    assert_eq!(age_floor(8), 4_000);
    assert_eq!(age_floor(19), 9_500);
    assert_eq!(age_floor(20), 10_000);
}

#[test]
fn age_floor_is_capped() {
    assert_eq!(age_floor(21), 10_000);
    assert_eq!(age_floor(1_000_000), 10_000);
    assert_eq!(age_floor(LONGEST_SPAN_SECONDS / SECONDS_PER_DAY), 10_000);
}

#[test]
fn age_floor_of_a_task_from_the_future_is_negative() {
    assert_eq!(age_floor(-3), -1_500);
}

#[test]
fn deadline_floor_is_the_elapsed_share() {
    assert_eq!(deadline_floor(0, 100), 0);
    assert_eq!(deadline_floor(50, 100), 5_000);
    assert_eq!(deadline_floor(100, 100), 10_000);
    assert_eq!(deadline_floor(1, 3), 3_333);
    assert_eq!(deadline_floor(2, 3), 6_666);
    assert_eq!(deadline_floor(3_600, 30 * SECONDS_PER_DAY), 13);
}

#[test]
fn deadline_floor_has_no_ceiling() {
    assert_eq!(deadline_floor(10 * SECONDS_PER_DAY, SECONDS_PER_DAY), 100_000);
    assert_eq!(deadline_floor(LONGEST_SPAN_SECONDS, 1), LONGEST_SPAN_SECONDS * 10_000);
}

#[test]
fn deadline_floor_rounds_toward_zero() {
    assert_eq!(deadline_floor(100, -7), -142_857);
    assert_eq!(deadline_floor(-100, 7), -142_857);
    assert_eq!(deadline_floor(-100, -7), 142_857);
    assert_eq!(deadline_floor(-1, 30_000), 0);
}

#[test]
fn deadline_floor_of_a_task_due_at_its_start() {
    assert_eq!(deadline_floor(0, 0), 10_000);
    assert_eq!(deadline_floor(5, 0), 10_000);
    assert_eq!(deadline_floor(LONGEST_SPAN_SECONDS, 0), 10_000);
    assert_eq!(deadline_floor(-1, 0), 0);
}

#[test]
fn urgency_floor_without_due_date_goes_by_days() {
    let start = at(T, 0);
    assert_eq!(urgency_floor(&start, None, &at(T + 8 * SECONDS_PER_DAY, 0)), 4_000);
    assert_eq!(urgency_floor(&start, None, &at(T + 8 * SECONDS_PER_DAY - 1, 0)), 3_500);
    assert_eq!(urgency_floor(&start, None, &at(T + 400 * SECONDS_PER_DAY, 0)), 10_000);
}

#[test]
fn urgency_floor_with_due_date_goes_by_seconds() {
    let start = at(T, 0);
    let due = at(T + SECONDS_PER_DAY, 0);
    assert_eq!(urgency_floor(&start, Some(&due), &at(T + SECONDS_PER_DAY / 2, 0)), 5_000);
    assert_eq!(urgency_floor(&start, Some(&due), &at(T + 10 * SECONDS_PER_DAY, 0)), 100_000);
    // both spans are cut to whole seconds before they are divided
    let late_start = at(T, 600_000_000);
    let due_soon = at(T + 2, 500_000_000);
    assert_eq!(urgency_floor(&late_start, Some(&due_soon), &at(T + 1, 700_000_000)), 10_000);
}
