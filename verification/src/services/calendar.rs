//! Calendar arithmetic, done by the `chrono` crate.
//!
//! Nothing here is proved: each function states what `chrono` is trusted to
//! return, and the spec functions without a body stand for its results.

use chrono::Datelike;
use vstd::prelude::*;

verus! {

/// The pattern of a date without time of day.
pub const DATE_PATTERN: &'static str = "%Y-%m-%d";

/// The pattern of a date with time of day, in UTC.
pub const DATE_TIME_PATTERN: &'static str = "%Y-%m-%d %H:%M:%S UTC";

/// The text `chrono` writes for the UTC time `timestamp` seconds after the
/// epoch under `pattern`; `None` where `chrono` cannot represent the time.
pub uninterp spec fn utc_text(timestamp: int, pattern: Seq<char>) -> Option<Seq<char>>;

/// The ISO year and ISO week that `chrono` gives to the UTC time `timestamp`
/// seconds after the epoch; `None` where it cannot represent the time.
pub uninterp spec fn iso_week_of(timestamp: int) -> Option<(int, int)>;

/// The seconds between the epoch and midnight UTC of the day that `text`
/// names as `YYYY-MM-DD`; `None` where `chrono` does not read `text` so.
pub uninterp spec fn midnight_of(text: Seq<char>) -> Option<int>;

/// Whether `pattern` is one of the two patterns this crate formats with.
pub open spec fn known_pattern(pattern: Seq<char>) -> bool {
    pattern == DATE_PATTERN@ || pattern == DATE_TIME_PATTERN@
}

/// Calls `chrono::DateTime::from_timestamp` and formats the result with
/// `DateTime::format`. Trusted: the text is a function of the timestamp and
/// the pattern alone, and there is none exactly where `from_timestamp`
/// returns `None`.
#[verifier::external_body]
pub(crate) fn format_utc(timestamp: i64, pattern: &str) -> (text: Option<String>)
    requires
        known_pattern(pattern@),
    ensures
        match text {
            Some(t) => utc_text(timestamp as int, pattern@) == Some(t@),
            None => utc_text(timestamp as int, pattern@) is None,
        },
{
    chrono::DateTime::from_timestamp(timestamp, 0).map(|at| at.format(pattern).to_string())
}

/// Calls `chrono::DateTime::from_timestamp` and reads the result's
/// `iso_week`. Trusted: year and week are a function of the timestamp alone.
#[verifier::external_body]
pub(crate) fn iso_week(timestamp: i64) -> (week: Option<(i32, u32)>)
    ensures
        match week {
            Some(w) => iso_week_of(timestamp as int) == Some((w.0 as int, w.1 as int)),
            None => iso_week_of(timestamp as int) is None,
        },
{
    chrono::DateTime::from_timestamp(timestamp, 0).map(
        |at| (at.iso_week().year(), at.iso_week().week()),
    )
}

/// Calls `chrono::Utc::now` and returns its timestamp, ISO year and ISO week.
/// Nothing is claimed of the reading.
#[verifier::external_body]
pub(crate) fn utc_now() -> (reading: (i64, i32, u32)) {
    let at = chrono::Utc::now();
    (at.timestamp(), at.iso_week().year(), at.iso_week().week())
}

/// Calls `chrono::NaiveDate::parse_from_str` with the date pattern and
/// returns the timestamp of that day's midnight in UTC. Trusted: the result
/// is a function of the text alone.
#[verifier::external_body]
pub(crate) fn parse_midnight(text: &str) -> (seconds: Option<i64>)
    ensures
        match seconds {
            Some(s) => midnight_of(text@) == Some(s as int),
            None => midnight_of(text@) is None,
        },
{
    chrono::NaiveDate::parse_from_str(text, DATE_PATTERN).ok().map(
        |day| day.and_time(chrono::NaiveTime::MIN).and_utc().timestamp(),
    )
}

} // verus!
