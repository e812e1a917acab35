//! Points in time, and the whole seconds and days that lie between two of them.
//!
//! A [`Timestamp`] is a naive date and time (no time zone attached), held as whole
//! seconds since 1970-01-01T00:00:00 plus the nanoseconds into that second. The
//! calendar arithmetic itself is chrono's.

use vstd::prelude::*;

verus! {

/// Nanoseconds in one second.
pub const NANOS_PER_SECOND: i64 = 1_000_000_000;

/// Seconds in one day.
pub const SECONDS_PER_DAY: i64 = 86_400;

/// Second count of the earliest representable instant, -262143-01-01T00:00:00.
pub const EARLIEST_SECOND: i64 = -8_334_601_228_800;

/// Second count of the last representable second, +262142-12-31T23:59:59.
pub const LATEST_SECOND: i64 = 8_210_266_876_799;

/// The largest number of whole seconds between two timestamps.
pub const LONGEST_SPAN_SECONDS: i64 = 16_544_868_105_599;

/// The quotient `n / d` rounded toward zero, for any nonzero `d`.
pub open spec fn truncated_quotient(n: int, d: int) -> int
    recommends
        d != 0,
{
    if n >= 0 && d > 0 {
        n / d
    } else if n >= 0 {
        -(n / (-d))
    } else if d > 0 {
        -((-n) / d)
    } else {
        (-n) / (-d)
    }
}

/// A quotient rounded toward zero is no larger in magnitude than its dividend.
pub proof fn lemma_truncated_quotient_bounded(n: int, d: int)
    requires
        d != 0,
    ensures
        n >= 0 ==> -n <= truncated_quotient(n, d) <= n,
        n <= 0 ==> n <= truncated_quotient(n, d) <= -n,
{
    let an: int = if n >= 0 { n } else { -n };
    let ad: int = if d > 0 { d } else { -d };
    assert(0 <= an / ad <= an) by (nonlinear_arith)
        requires
            an >= 0,
            ad >= 1,
    ;
}

/// Computes [`truncated_quotient`]. The bounds keep the negations within `i64`.
pub fn divide_toward_zero(n: i64, d: i64) -> (q: i64)
    requires
        d != 0,
        i64::MIN < n,
        i64::MIN < d,
    ensures
        q == truncated_quotient(n as int, d as int),
{
    if n >= 0 && d > 0 {
        n / d
    } else if n >= 0 {
        let m: i64 = n / (-d);
        -m
    } else if d > 0 {
        let m: i64 = (-n) / d;
        -m
    } else {
        (-n) / (-d)
    }
}

/// Whole seconds in a span of `nanos` nanoseconds, rounded toward zero.
pub open spec fn whole_seconds(nanos: int) -> int {
    truncated_quotient(nanos, NANOS_PER_SECOND as int)
}

/// Whole days in a span of `nanos` nanoseconds: the whole seconds, divided by the
/// length of a day and rounded toward zero again.
pub open spec fn whole_days(nanos: int) -> int {
    truncated_quotient(whole_seconds(nanos), SECONDS_PER_DAY as int)
}

/// A naive date and time with nanosecond resolution.
///
/// Its view is the number of nanoseconds since 1970-01-01T00:00:00.
#[derive(Clone, Copy, Debug, PartialEq, Eq, Structural)]
pub struct Timestamp {
    secs: i64,
    nanos: u32,
}

impl View for Timestamp {
    type V = int;

    closed spec fn view(&self) -> int {
        self.secs * NANOS_PER_SECOND + self.nanos
    }
}

impl Timestamp {
    /// Every timestamp lies within the range of dates that chrono can represent and
    /// holds less than a full second of nanoseconds.
    #[verifier::type_invariant]
    pub closed spec fn wf(self) -> bool {
        &&& EARLIEST_SECOND <= self.secs <= LATEST_SECOND
        &&& self.nanos < NANOS_PER_SECOND
    }

    /// The nanosecond counts that some timestamp has.
    pub open spec fn in_range(nanos: int) -> bool {
        EARLIEST_SECOND * NANOS_PER_SECOND <= nanos < (LATEST_SECOND + 1) * NANOS_PER_SECOND
    }

    /// A well-formed timestamp's view lies in range.
    pub proof fn lemma_view_in_range(self)
        requires
            self.wf(),
        ensures
            Self::in_range(self@),
    {
    }

    /// Two well-formed timestamps with the same view are the same timestamp.
    pub proof fn lemma_view_injective(self, other: Timestamp)
        requires
            self.wf(),
            other.wf(),
            self@ == other@,
        ensures
            self == other,
    {
    }

    /// The timestamp `secs` seconds and `nanos` nanoseconds after the epoch, if it is
    /// in range and `nanos` is less than a second.
    pub fn new(secs: i64, nanos: u32) -> (r: Option<Timestamp>)
        ensures
            r is Some <==> EARLIEST_SECOND <= secs <= LATEST_SECOND && nanos < NANOS_PER_SECOND,
            r matches Some(t) ==> t.wf() && t@ == secs * NANOS_PER_SECOND + nanos,
    {
        if EARLIEST_SECOND <= secs && secs <= LATEST_SECOND && nanos < 1_000_000_000 {
            Some(Timestamp { secs, nanos })
        } else {
            None
        }
    }

    /// Whole seconds since the epoch, rounded down.
    pub fn seconds(&self) -> (r: i64)
        ensures
            r == self@ / (NANOS_PER_SECOND as int),
            EARLIEST_SECOND <= r <= LATEST_SECOND,
    {
        proof {
            use_type_invariant(self);
        }
        self.secs
    }

    /// Nanoseconds into the current second.
    pub fn subsec_nanos(&self) -> (r: u32)
        ensures
            r == self@ % (NANOS_PER_SECOND as int),
    {
        proof {
            use_type_invariant(self);
        }
        self.nanos
    }

    /// Whole seconds from `earlier` to `self`, rounded toward zero; negative when
    /// `self` is the earlier of the two.
    pub fn seconds_since(&self, earlier: &Timestamp) -> (r: i64)
        ensures
            r == whole_seconds(self@ - earlier@),
            -LONGEST_SPAN_SECONDS <= r <= LONGEST_SPAN_SECONDS,
    {
        proof {
            use_type_invariant(self);
            use_type_invariant(earlier);
        }
        whole_seconds_between(self, earlier)
    }

    /// Whole days from `earlier` to `self`, rounded toward zero.
    pub fn days_since(&self, earlier: &Timestamp) -> (r: i64)
        ensures
            r == whole_days(self@ - earlier@),
            -(LONGEST_SPAN_SECONDS / SECONDS_PER_DAY) <= r <= LONGEST_SPAN_SECONDS / SECONDS_PER_DAY,
    {
        proof {
            use_type_invariant(self);
            use_type_invariant(earlier);
        }
        whole_days_between(self, earlier)
    }

    /// The local wall-clock time at the moment of the call.
    pub fn now() -> (r: Timestamp)
        ensures
            r.wf(),
    {
        local_clock()
    }
}

/// `chrono::NaiveDateTime::signed_duration_since`, read with `TimeDelta::num_seconds`.
///
/// Trusted: for two datetimes without a leap-second fraction, chrono's difference is
/// the exact difference of their instants, and `num_seconds` is that difference in
/// whole seconds, rounded toward zero.
#[verifier::external_body]
fn whole_seconds_between(later: &Timestamp, earlier: &Timestamp) -> (r: i64)
    requires
        later.wf(),
        earlier.wf(),
    ensures
        r == whole_seconds(later@ - earlier@),
{
    let a = chrono::DateTime::from_timestamp(later.secs, later.nanos).unwrap().naive_utc();
    let b = chrono::DateTime::from_timestamp(earlier.secs, earlier.nanos).unwrap().naive_utc();
    a.signed_duration_since(b).num_seconds()
}

/// `chrono::NaiveDateTime::signed_duration_since`, read with `TimeDelta::num_days`.
///
/// Trusted: `num_days` is `num_seconds` divided by 86 400, rounded toward zero.
#[verifier::external_body]
fn whole_days_between(later: &Timestamp, earlier: &Timestamp) -> (r: i64)
    requires
        later.wf(),
        earlier.wf(),
    ensures
        r == whole_days(later@ - earlier@),
{
    let a = chrono::DateTime::from_timestamp(later.secs, later.nanos).unwrap().naive_utc();
    let b = chrono::DateTime::from_timestamp(earlier.secs, earlier.nanos).unwrap().naive_utc();
    a.signed_duration_since(b).num_days()
}

/// `chrono::Local::now`, as a naive local datetime.
///
/// Trusted: the reading lies within chrono's range of dates (chrono fails on a clock
/// outside it) and, coming from the system clock, carries no leap-second fraction.
/// Nothing is claimed of its value.
#[verifier::external_body]
fn local_clock() -> (r: Timestamp)
    ensures
        r.wf(),
{
    let t = chrono::Local::now().naive_local().and_utc();
    Timestamp { secs: t.timestamp(), nanos: t.timestamp_subsec_nanos() }
}

} // verus!
