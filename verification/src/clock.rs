//! Wall-clock text for Unix timestamps, read in UTC.

use vstd::prelude::*;
use vstd::string::*;

use crate::text::digit_char;

verus! {

/// Whether the calendar of the `chrono` crate reaches the UTC day on which
/// the second `secs` after the Unix epoch falls.
pub uninterp spec fn utc_date_exists(secs: int) -> bool;

/// A number below one hundred written with exactly two digits.
pub open spec fn two_digits(n: int) -> Seq<char> {
    seq![digit_char(n / 10), digit_char(n % 10)]
}

/// The time of day `HH:MM:SS` at `secs` seconds after the Unix epoch, in
/// UTC and without leap seconds: days are 86400 seconds long, also before
/// the epoch.
pub open spec fn clock_text(secs: int) -> Seq<char> {
    let second_of_day = secs % 86400;
    two_digits(second_of_day / 3600) + seq![':'] + two_digits((second_of_day / 60) % 60) + seq![
        ':',
    ] + two_digits(second_of_day % 60)
}

/// The text shown for a timestamp: its UTC time of day, or `invalid time`
/// where the date lies outside the calendar.
pub open spec fn timestamp_text(secs: int) -> Seq<char> {
    if utc_date_exists(secs) {
        clock_text(secs)
    } else {
        "invalid time"@
    }
}

/// Calls `chrono::DateTime::<Utc>::from_timestamp` with no nanoseconds and,
/// where that gives a date, `DateTime::format` with `%H:%M:%S`.
///
/// Trusted: the result is `Some` exactly for the timestamps whose date
/// chrono can represent, and then holds the zero-padded hour, minute and
/// second of the UTC day, which chrono takes from the timestamp's
/// Euclidean remainder by 86400.
#[verifier::external_body]
fn utc_clock(timestamp: i64) -> (clock: Option<String>)
    ensures
        clock is Some <==> utc_date_exists(timestamp as int),
        clock matches Some(text) ==> text@ == clock_text(timestamp as int),
{
    match chrono::DateTime::<chrono::Utc>::from_timestamp(timestamp, 0) {
        Some(moment) => Some(moment.format("%H:%M:%S").to_string()),
        None => None,
    }
}

/// The text for a clock reading that may be missing: the reading itself, or
/// `invalid time`.
pub fn label_clock(clock: Option<String>) -> (r: String)
    ensures
        r@ == (match clock {
            Some(text) => text@,
            None => "invalid time"@,
        }),
{
    match clock {
        Some(text) => text,
        None => String::from_str("invalid time"),
    }
}

/// Formats a Unix timestamp as its UTC time of day, `HH:MM:SS`, or as
/// `invalid time` where no such date exists.
pub fn format_timestamp(timestamp: i64) -> (r: String)
    ensures
        r@ == timestamp_text(timestamp as int),
{
    label_clock(utc_clock(timestamp))
}

} // verus!
