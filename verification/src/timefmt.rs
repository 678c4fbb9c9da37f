//! Calendar dates of timestamps.

use vstd::prelude::*;
use chrono::TimeZone;

verus! {

/// The last second that the calendar reaches: the end of the year 262142.
pub const MAX_TIMESTAMP: u64 = 8_210_266_876_799;

/// The date in UTC of the second `timestamp` after the beginning of 1970,
/// written as year, month and day with hyphens between them.
pub uninterp spec fn date_text(timestamp: u64) -> Seq<char>;

/// `Utc.timestamp_opt` and `DateTime::format` of `chrono`, with the pattern
/// `%Y-%m-%d`. The calendar reaches every second up to `MAX_TIMESTAMP`; the
/// date is a function of the second alone, in UTC.
#[verifier::external_body]
pub(crate) fn format_date(timestamp: u64) -> (out: String)
    requires
        timestamp <= MAX_TIMESTAMP,
    ensures
        out@ == date_text(timestamp),
{
    chrono::Utc.timestamp_opt(timestamp as i64, 0).unwrap().format("%Y-%m-%d").to_string()
}

/// The date of a timestamp that the calendar reaches.
pub fn format_timestamp(timestamp: u64) -> (out: String)
    requires
        timestamp <= MAX_TIMESTAMP,
    ensures
        out@ == date_text(timestamp),
{
    format_date(timestamp)
}

/// The date of a timestamp, `None` where the calendar does not reach it.
pub fn try_format_timestamp(timestamp: u64) -> (out: Option<String>)
    ensures
        match out {
            Some(date) => timestamp <= MAX_TIMESTAMP && date@ == date_text(timestamp),
            None => timestamp > MAX_TIMESTAMP,
        },
{
    if timestamp <= MAX_TIMESTAMP {
        Some(format_date(timestamp))
    } else {
        None
    }
}

} // verus!
