//! UTC calendar facts about millisecond timestamps, and ISO dates, through
//! `chrono`.

use chrono::{DateTime, NaiveDate, TimeZone, Utc};
use vstd::prelude::*;

verus! {

/// The earliest millisecond timestamp that `chrono` holds as a UTC date-time:
/// -262143-01-01T00:00:00.000Z.
pub const MIN_UTC_MILLIS: i64 = -8_334_601_228_800_000i64;

/// The latest millisecond timestamp that `chrono` holds as a UTC date-time:
/// +262142-12-31T23:59:59.999Z.
pub const MAX_UTC_MILLIS: i64 = 8_210_266_876_799_999i64;

/// Milliseconds in a UTC day (UTC has no leap seconds in `chrono`'s model).
pub const MILLIS_PER_DAY: i64 = 86_400_000i64;

/// The earliest epoch day of a `chrono` date: -262143-01-01.
pub const MIN_EPOCH_DAY: i32 = -96_465_292i32;

/// The latest epoch day of a `chrono` date: +262142-12-31.
pub const MAX_EPOCH_DAY: i32 = 95_026_236i32;

/// Whether `day` days after 1970-01-01 is a date that `chrono` can represent.
pub open spec fn epoch_day_in_range(day: int) -> bool {
    MIN_EPOCH_DAY <= day <= MAX_EPOCH_DAY
}

/// The text that `chrono` writes for the date `day` days after 1970-01-01
/// with the format `%Y-%m-%d` (such as `2024-01-02`).
pub uninterp spec fn ymd_text(day: int) -> Seq<char>;

/// Whether `ms` milliseconds after the Unix epoch is a UTC date-time that
/// `chrono` can represent.
pub open spec fn utc_millis_in_range(ms: int) -> bool {
    MIN_UTC_MILLIS <= ms <= MAX_UTC_MILLIS
}

/// The UTC calendar day of the timestamp `ms`, counted in days from
/// 1970-01-01 (day 0); days before it are negative.
pub open spec fn epoch_day_of_millis(ms: int) -> int {
    // `/` in specifications rounds toward negative infinity for a positive divisor
    ms / (MILLIS_PER_DAY as int)
}

/// The epoch day (1970-01-01 is day 0) of the date that `chrono`'s
/// `NaiveDate::parse_from_str(s, "%Y-%m-%d")` reads from `s`, or `None` where
/// it returns an error.
pub uninterp spec fn ymd_epoch_day(s: Seq<char>) -> Option<int>;

#[verifier::external_type_specification]
#[verifier::external_body]
pub struct ExParseError(chrono::ParseError);

/// Calls `chrono`'s `TimeZone::timestamp_millis_opt` on `Utc` and tells
/// whether it gives a single date-time.  `chrono` builds the date-time from
/// `ms.div_euclid(1000)` seconds, and it fails exactly when the day lies
/// outside `NaiveDate::MIN ..= NaiveDate::MAX`, which is the range claimed here.
#[verifier::external_body]
pub(crate) fn utc_timestamp_valid(ms: i64) -> (r: bool)
    ensures
        r == utc_millis_in_range(ms as int),
{
    Utc.timestamp_millis_opt(ms).single().is_some()
}

/// Calls `chrono`'s `DateTime::from_timestamp_millis` and reads the UTC
/// calendar date of the result (`date_naive`) as days from 1970-01-01
/// (`to_epoch_days`).  The claim: `None` exactly out of range, and otherwise
/// the floor of `ms` divided by the milliseconds of a day.
#[verifier::external_body]
pub(crate) fn utc_epoch_day(ms: i64) -> (r: Option<i32>)
    ensures
        match r {
            Some(d) => utc_millis_in_range(ms as int) && d as int == epoch_day_of_millis(ms as int),
            None => !utc_millis_in_range(ms as int),
        },
{
    match DateTime::from_timestamp_millis(ms) {
        Some(dt) => Some(dt.date_naive().to_epoch_days()),
        None => None,
    }
}

/// Calls `chrono`'s `NaiveDate::parse_from_str(s, "%Y-%m-%d")` and gives the
/// parsed date as days from 1970-01-01 (`to_epoch_days`).  The claim: success
/// and the day are those that `ymd_epoch_day` names; nothing more is said of
/// which strings `chrono` accepts.
#[verifier::external_body]
pub(crate) fn parse_ymd_date(s: &str) -> (r: Result<i32, chrono::ParseError>)
    ensures
        match r {
            Ok(d) => ymd_epoch_day(s@) == Some(d as int),
            Err(_) => ymd_epoch_day(s@) is None,
        },
{
    match NaiveDate::parse_from_str(s, "%Y-%m-%d") {
        Ok(date) => Ok(date.to_epoch_days()),
        Err(e) => Err(e),
    }
}

/// Calls `chrono`'s `NaiveDate::from_epoch_days` and writes the date with
/// `format("%Y-%m-%d")`.  The claim: `None` exactly for a day outside
/// `NaiveDate::MIN ..= NaiveDate::MAX`, and otherwise the text that
/// `ymd_text` names; nothing more is said of that text.
#[verifier::external_body]
pub(crate) fn format_ymd(day: i32) -> (r: Option<String>)
    ensures
        match r {
            Some(text) => epoch_day_in_range(day as int) && text@ == ymd_text(day as int),
            None => !epoch_day_in_range(day as int),
        },
{
    match NaiveDate::from_epoch_days(day) {
        Some(date) => Some(date.format("%Y-%m-%d").to_string()),
        None => None,
    }
}

} // verus!
