//! The calendar, as `chrono` reads it.
//!
//! A [`Timestamp`] counts seconds; which day of the month that is, and how a
//! date is written, is `chrono`'s business. The two functions here hand a
//! timestamp to `chrono` and bring back plain values. Verus takes their
//! contracts on trust.
use crate::time::Timestamp;
use std::fmt::Write;
use vstd::prelude::*;

verus! {

/// The day of the month, from 1, that `chrono` finds for the instant
/// `seconds` and `nanos` on a clock `offset` seconds east of UTC, or `None`
/// where `chrono` has no date and time for these values.
pub uninterp spec fn chrono_day(seconds: i64, nanos: u32, offset: i32) -> Option<u32>;

/// The text that `chrono` writes for the instant `seconds` and `nanos` on a
/// clock `offset` seconds east of UTC under the `strftime` pattern
/// `pattern`, or `None` where `chrono` has no date and time for these values
/// or rejects the pattern.
pub uninterp spec fn chrono_text(seconds: i64, nanos: u32, offset: i32, pattern: Seq<char>) -> Option<Seq<char>>;

/// Calls `chrono::Datelike::day` on the `chrono::DateTime<FixedOffset>` that
/// `FixedOffset::east_opt` and `TimeZone::timestamp_opt` make of the
/// timestamp.
///
/// Trusted: the result is what `chrono` computes from the three fields.
/// `None` comes back where `east_opt` or `timestamp_opt` refuses the
/// values.
#[verifier::external_body]
pub(crate) fn day_of_month(timestamp: &Timestamp) -> (day: Option<u32>)
    ensures
        day == chrono_day(timestamp.seconds, timestamp.nanos, timestamp.offset),
{
    let zone = chrono::FixedOffset::east_opt(timestamp.offset)?;
    let moment =
        chrono::TimeZone::timestamp_opt(&zone, timestamp.seconds, timestamp.nanos).single()?;
    Some(chrono::Datelike::day(&moment))
}

/// Calls `chrono::DateTime::format` on the `chrono::DateTime<FixedOffset>`
/// that `FixedOffset::east_opt` and `TimeZone::timestamp_opt` make of the
/// timestamp, and writes the result to a string.
///
/// Trusted: the result is what `chrono` writes for the three fields and the
/// pattern. `None` comes back where `east_opt` or `timestamp_opt` refuses
/// the values, and where writing fails, as it does on a pattern that
/// `chrono` does not accept.
#[verifier::external_body]
pub(crate) fn formatted(timestamp: &Timestamp, pattern: &str) -> (text: Option<String>)
    ensures
        text.deep_view() == chrono_text(
            timestamp.seconds,
            timestamp.nanos,
            timestamp.offset,
            pattern@,
        ),
{
    let zone = chrono::FixedOffset::east_opt(timestamp.offset)?;
    let moment =
        chrono::TimeZone::timestamp_opt(&zone, timestamp.seconds, timestamp.nanos).single()?;
    let mut text = String::new();
    write!(text, "{}", moment.format(pattern)).ok()?;
    Some(text)
}

} // verus!
