//! The urgency model: the least urgency that a task's age, or the approach of its
//! due date, demands of it.
//!
//! Urgencies are fixed-point numbers, counted in thousandths: `3_000` is the
//! urgency 3.0. Every quotient is rounded toward zero.

use vstd::prelude::*;
use crate::time::{divide_toward_zero, lemma_truncated_quotient_bounded, truncated_quotient, whole_days, whole_seconds, Timestamp, LONGEST_SPAN_SECONDS};

verus! {

/// Thousandths in one unit of urgency.
pub const URGENCY_SCALE: i64 = 1_000;

/// Urgency gained per whole day of age by a task without a due date: 0.5.
pub const URGENCY_MULTIPLIER: i64 = 500;

/// Urgency of a newly added task: 3.0.
pub const DEFAULT_URGENCY: i64 = 3_000;

/// The least urgency that can be set by hand: 0.0.
pub const MINIMUM_URGENCY: i64 = 0;

/// The greatest urgency that can be set by hand, and the ceiling of the age-based
/// floor: 10.0. A task past its due date rises above it.
pub const MAXIMUM_URGENCY: i64 = 10_000;

/// The floor of a task with a due date: the share of the time from start to due date
/// that has elapsed, scaled so that the due date itself gives [`MAXIMUM_URGENCY`].
///
/// There is no ceiling: past the due date the floor keeps growing. A due date that
/// precedes the start makes the floor negative once time has passed. Where start and
/// due date are less than a second apart there is no share to speak of; the task is
/// then due as soon as it has started, so the floor is [`MAXIMUM_URGENCY`] from the
/// start on and zero before it.
pub open spec fn spec_deadline_floor(elapsed_seconds: int, total_seconds: int) -> int {
    if total_seconds == 0 {
        if elapsed_seconds >= 0 {
            MAXIMUM_URGENCY as int
        } else {
            0
        }
    } else {
        truncated_quotient(elapsed_seconds * MAXIMUM_URGENCY, total_seconds)
    }
}

/// The floor of a task without a due date: [`URGENCY_MULTIPLIER`] for each whole day
/// of age, but never more than [`MAXIMUM_URGENCY`].
pub open spec fn spec_age_floor(days: int) -> int {
    if days * URGENCY_MULTIPLIER > MAXIMUM_URGENCY {
        MAXIMUM_URGENCY as int
    } else {
        days * URGENCY_MULTIPLIER
    }
}

/// The floor of a task started at `start` and due at `due`, if it has a due date, as
/// of `now`; all three in nanoseconds since the epoch.
pub open spec fn spec_urgency_floor(start: int, due: Option<int>, now: int) -> int {
    match due {
        Some(due) => spec_deadline_floor(whole_seconds(now - start), whole_seconds(due - start)),
        None => spec_age_floor(whole_days(now - start)),
    }
}

/// Computes [`spec_deadline_floor`] from the whole seconds elapsed since the start and
/// the whole seconds from start to due date.
pub fn deadline_floor(elapsed_seconds: i64, total_seconds: i64) -> (floor: i64)
    requires
        -LONGEST_SPAN_SECONDS <= elapsed_seconds <= LONGEST_SPAN_SECONDS,
        -LONGEST_SPAN_SECONDS <= total_seconds <= LONGEST_SPAN_SECONDS,
    ensures
        floor == spec_deadline_floor(elapsed_seconds as int, total_seconds as int),
        -LONGEST_SPAN_SECONDS * MAXIMUM_URGENCY <= floor <= LONGEST_SPAN_SECONDS * MAXIMUM_URGENCY,
{
    if total_seconds == 0 {
        if elapsed_seconds >= 0 {
            MAXIMUM_URGENCY
        } else {
            0
        }
    } else {
        let scaled: i64 = elapsed_seconds * MAXIMUM_URGENCY;
        proof {
            lemma_truncated_quotient_bounded(scaled as int, total_seconds as int);
        }
        divide_toward_zero(scaled, total_seconds)
    }
}

/// Computes [`spec_age_floor`] from the age in whole days.
pub fn age_floor(days: i64) -> (floor: i64)
    requires
        -LONGEST_SPAN_SECONDS <= days <= LONGEST_SPAN_SECONDS,
    ensures
        floor == spec_age_floor(days as int),
        floor <= MAXIMUM_URGENCY,
{
    let raised: i64 = days * URGENCY_MULTIPLIER;
    if raised > MAXIMUM_URGENCY {
        MAXIMUM_URGENCY
    } else {
        raised
    }
}

/// Computes [`spec_urgency_floor`]: the least urgency that a task started at `start`,
/// and due at `due` if it has a due date, must have at `now`.
pub fn urgency_floor(start: &Timestamp, due: Option<&Timestamp>, now: &Timestamp) -> (floor: i64)
    ensures
        floor == spec_urgency_floor(
            start@,
            match due {
                Some(d) => Some(d@),
                None => None,
            },
            now@,
        ),
        -LONGEST_SPAN_SECONDS * MAXIMUM_URGENCY <= floor <= LONGEST_SPAN_SECONDS * MAXIMUM_URGENCY,
{
    match due {
        Some(due) => {
            let total: i64 = due.seconds_since(start);
            let elapsed: i64 = now.seconds_since(start);
            deadline_floor(elapsed, total)
        },
        None => {
            let days: i64 = now.days_since(start);
            age_floor(days)
        },
    }
}

/// The age-based floor never exceeds [`MAXIMUM_URGENCY`], however old the task.
pub proof fn lemma_age_floor_capped(days: int)
    ensures
        spec_age_floor(days) <= MAXIMUM_URGENCY,
{
}

/// Without a due date the floor never exceeds [`MAXIMUM_URGENCY`].
pub proof fn lemma_floor_capped_without_due_date(start: int, now: int)
    ensures
        spec_urgency_floor(start, None, now) <= MAXIMUM_URGENCY,
{
}

/// The deadline-based floor has no ceiling: once `times` whole spans from start to due
/// date have elapsed, the floor is at least `times` times [`MAXIMUM_URGENCY`].
pub proof fn lemma_deadline_floor_uncapped(elapsed_seconds: int, total_seconds: int, times: int)
    requires
        total_seconds > 0,
        times >= 0,
        elapsed_seconds >= times * total_seconds,
    ensures
        spec_deadline_floor(elapsed_seconds, total_seconds) >= times * MAXIMUM_URGENCY,
{
    let scaled: int = elapsed_seconds * MAXIMUM_URGENCY;
    let wanted: int = times * MAXIMUM_URGENCY;
    assert(elapsed_seconds >= 0) by (nonlinear_arith)
        requires
            total_seconds > 0,
            times >= 0,
            elapsed_seconds >= times * total_seconds,
    ;
    assert(scaled >= wanted * total_seconds) by (nonlinear_arith)
        requires
            scaled == elapsed_seconds * 10_000,
            wanted == times * 10_000,
            elapsed_seconds >= times * total_seconds,
    ;
    assert(scaled / total_seconds >= wanted) by (nonlinear_arith)
        requires
            total_seconds > 0,
            scaled >= wanted * total_seconds,
    ;
}

/// A due date that precedes the start gives a floor that is never positive once the
/// task has started, so it raises no urgency that is not negative.
pub proof fn lemma_backdated_floor_inert(elapsed_seconds: int, total_seconds: int)
    requires
        total_seconds < 0,
        elapsed_seconds >= 0,
    ensures
        spec_deadline_floor(elapsed_seconds, total_seconds) <= 0,
{
    let scaled: int = elapsed_seconds * MAXIMUM_URGENCY;
    assert(scaled / (-total_seconds) >= 0) by (nonlinear_arith)
        requires
            scaled >= 0,
            -total_seconds > 0,
    ;
}

} // verus!
