//! Due dates as the user writes them: a day, a month and a year, separated by
//! slashes. The task is then due at five in the afternoon of that day.

use vstd::prelude::*;
use vstd::string::StringExecFns;
use chrono::format::ParseErrorKind;
use crate::time::{Timestamp, EARLIEST_SECOND, LATEST_SECOND, NANOS_PER_SECOND};

verus! {

/// Why chrono refused a text as a date and time. The variants are chrono's own kinds
/// of parse error.
#[derive(Clone, Copy, Debug, PartialEq, Eq, Structural)]
pub enum ParseFailure {
    /// A field is out of its permitted range.
    OutOfRange,
    /// No date and time has the given set of fields.
    Impossible,
    /// The fields do not determine a date and time.
    NotEnough,
    /// The text holds characters that the format does not allow.
    Invalid,
    /// The text ends too early.
    TooShort,
    /// Text is left over after the last item of the format.
    TooLong,
    /// The format itself is bad.
    BadFormat,
    /// A kind of failure that chrono does not name.
    Unnamed,
}

/// Why a text gave no due date.
#[derive(Clone, Copy, Debug, PartialEq, Eq, Structural)]
pub enum DateError {
    /// The text is not a date of the form day/month/year.
    Unparsed(ParseFailure),
    /// The text is a date, but one that no [`Timestamp`] holds.
    Unrepresentable,
}

/// What `chrono::NaiveDateTime::parse_from_str` returns for a text and a format: the
/// datetime as seconds since the epoch and nanoseconds into the second, or the kind
/// of the error.
pub uninterp spec fn parsed_datetime(text: Seq<char>, format: Seq<char>) -> Result<(i64, u32), ParseFailure>;

/// `chrono::NaiveDateTime::parse_from_str`.
///
/// Trusted: the outcome depends on the text and the format alone. Nothing is claimed
/// of what it is.
#[verifier::external_body]
fn parse_naive_datetime(text: &str, format: &str) -> (r: Result<(i64, u32), ParseFailure>)
    ensures
        r == parsed_datetime(text@, format@),
{
    match chrono::NaiveDateTime::parse_from_str(text, format) {
        Ok(t) => Ok((t.and_utc().timestamp(), t.and_utc().timestamp_subsec_nanos())),
        Err(e) => Err(match e.kind() {
            ParseErrorKind::OutOfRange => ParseFailure::OutOfRange,
            ParseErrorKind::Impossible => ParseFailure::Impossible,
            ParseErrorKind::NotEnough => ParseFailure::NotEnough,
            ParseErrorKind::Invalid => ParseFailure::Invalid,
            ParseErrorKind::TooShort => ParseFailure::TooShort,
            ParseErrorKind::TooLong => ParseFailure::TooLong,
            ParseErrorKind::BadFormat => ParseFailure::BadFormat,
            _ => ParseFailure::Unnamed,
        }),
    }
}

/// The text that is parsed for a date: the date, then the time of day at which a
/// task falls due.
pub open spec fn due_text(date: Seq<char>) -> Seq<char> {
    date + " 17:00:00"@
}

/// The format in which [`due_text`] is read: day/month/year, then the time of day.
pub open spec fn due_format() -> Seq<char> {
    "%d/%m/%Y %H:%M:%S"@
}

/// The instant, in nanoseconds since the epoch, that a parse outcome stands for, or
/// the reason why it stands for none.
pub open spec fn due_instant(parsed: Result<(i64, u32), ParseFailure>) -> Result<int, DateError> {
    match parsed {
        Ok((secs, nanos)) => if EARLIEST_SECOND <= secs <= LATEST_SECOND && nanos < NANOS_PER_SECOND {
            Ok(secs * NANOS_PER_SECOND + nanos)
        } else {
            Err(DateError::Unrepresentable)
        },
        Err(kind) => Err(DateError::Unparsed(kind)),
    }
}

/// The due date that the user's text `date` stands for.
pub open spec fn spec_due_date(date: Seq<char>) -> Result<int, DateError> {
    due_instant(parsed_datetime(due_text(date), due_format()))
}

/// Whether `found` is the timestamp, or the error, that `wanted` calls for.
pub open spec fn agrees(found: Result<Timestamp, DateError>, wanted: Result<int, DateError>) -> bool {
    match wanted {
        Ok(instant) => found matches Ok(t) && t@ == instant,
        Err(e) => found == Err::<Timestamp, DateError>(e),
    }
}

/// Turns a parse outcome into a timestamp: [`due_instant`], computed.
pub fn timestamp_of_parse(parsed: Result<(i64, u32), ParseFailure>) -> (r: Result<Timestamp, DateError>)
    ensures
        agrees(r, due_instant(parsed)),
{
    match parsed {
        Ok((secs, nanos)) => match Timestamp::new(secs, nanos) {
            Some(t) => Ok(t),
            None => Err(DateError::Unrepresentable),
        },
        Err(kind) => Err(DateError::Unparsed(kind)),
    }
}

/// Reads a date of the form day/month/year, such as `24/12/2031`, as five in the
/// afternoon of that day.
pub fn parse_due_date(date: &str) -> (r: Result<Timestamp, DateError>)
    ensures
        agrees(r, spec_due_date(date@)),
{
    let mut text: String = String::from_str(date);
    text.append(" 17:00:00");
    timestamp_of_parse(parse_naive_datetime(text.as_str(), "%d/%m/%Y %H:%M:%S"))
}

} // verus!
