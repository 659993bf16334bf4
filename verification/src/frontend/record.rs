//! How the span of a cold phase is put into words.
//!
//! Dates and times of day are written by `chrono`, on the clock that the
//! timestamps of the phase carry. What is decided here is which of them are
//! written: the time of day alone where the phase ends on the day it starts
//! or on the next, and dates where it does not.
use crate::calendar::{chrono_day, chrono_text, day_of_month, formatted};
use crate::common::{ColdPhase, ColdPhaseView};
use crate::time::Timestamp;
use vstd::prelude::*;
use vstd::string::StringExecFns;

verus! {

/// The pattern of a date: year, month and day.
pub const DATE_PATTERN: &'static str = "%Y-%m-%d";

/// The pattern of a time of day: hours and minutes.
pub const TIME_PATTERN: &'static str = "%H:%M";

/// The pattern of a date with the time of day.
pub const DATE_TIME_PATTERN: &'static str = "%Y-%m-%d %H:%M";

/// The day of the month of a timestamp, where `chrono` has one for it.
pub open spec fn day_of(timestamp: Timestamp) -> Option<u32> {
    chrono_day(timestamp.seconds, timestamp.nanos, timestamp.offset)
}

/// A timestamp written under a pattern, where `chrono` writes it.
pub open spec fn text_of(timestamp: Timestamp, pattern: Seq<char>) -> Option<Seq<char>> {
    chrono_text(timestamp.seconds, timestamp.nanos, timestamp.offset, pattern)
}

/// Whether a phase that starts on the day `start_day` of a month and ends
/// on the day `end_day` is short enough to be told by its times of day
/// alone: it ends on the same day of the month or on the one after. A phase
/// that ends on an earlier day of the month, in the month after, is not.
pub open spec fn spec_days_are_close(start_day: u32, end_day: u32) -> bool {
    end_day - start_day == 0 || end_day - start_day == 1
}

/// Whether the two days of the month are the same or follow each other.
#[verifier::when_used_as_spec(spec_days_are_close)]
pub fn days_are_close(start_day: u32, end_day: u32) -> (out: bool)
    ensures
        out == spec_days_are_close(start_day, end_day),
{
    end_day == start_day || (end_day > start_day && end_day - start_day == 1)
}

/// The words for a span from `start` to `end`.
pub open spec fn spec_between(start: Seq<char>, end: Seq<char>) -> Seq<char> {
    "between "@ + start + " and "@ + end
}

/// The words for a span: `between`, the start, `and`, the end.
pub fn between(start: &str, end: &str) -> (text: String)
    ensures
        text@ == spec_between(start@, end@),
{
    let mut text = String::from_str("between ");
    text.append(start);
    text.append(" and ");
    text.append(end);
    text
}

/// The words for the dates from `start` to `end`.
pub open spec fn spec_date_range(start: Seq<char>, end: Seq<char>) -> Seq<char> {
    start + " - "@ + end
}

/// The words for a range of dates: the first, a dash, the last.
pub fn date_range(start: &str, end: &str) -> (text: String)
    ensures
        text@ == spec_date_range(start@, end@),
{
    let mut text = String::from_str(start);
    text.append(" - ");
    text.append(end);
    text
}

/// The pattern under which the two ends of a phase are written.
pub open spec fn time_pattern(start_day: u32, end_day: u32) -> Seq<char> {
    if days_are_close(start_day, end_day) {
        TIME_PATTERN@
    } else {
        DATE_TIME_PATTERN@
    }
}

/// The span of a phase in words, or `None` where `chrono` cannot write one
/// of its ends.
pub open spec fn spec_format_time(phase: ColdPhaseView) -> Option<Seq<char>> {
    if day_of(phase.start) is None || day_of(phase.end) is None {
        None
    } else {
        let pattern = time_pattern(day_of(phase.start).unwrap(), day_of(phase.end).unwrap());
        if text_of(phase.start, pattern) is None || text_of(phase.end, pattern) is None {
            None
        } else {
            Some(
                spec_between(
                    text_of(phase.start, pattern).unwrap(),
                    text_of(phase.end, pattern).unwrap(),
                ),
            )
        }
    }
}

/// The span of a phase in words: `between 04:00 and 09:00` where the phase
/// ends on the day it starts or on the next, and with both dates written
/// out where it does not.
pub fn format_time(phase: &ColdPhase) -> (text: Option<String>)
    ensures
        text.deep_view() == spec_format_time(phase@),
{
    let start_day = match day_of_month(&phase.start) {
        Some(day) => day,
        None => { return None; },
    };
    let end_day = match day_of_month(&phase.end) {
        Some(day) => day,
        None => { return None; },
    };
    let pattern = if days_are_close(start_day, end_day) {
        TIME_PATTERN
    } else {
        DATE_TIME_PATTERN
    };
    let start = match formatted(&phase.start, pattern) {
        Some(start) => start,
        None => { return None; },
    };
    let end = match formatted(&phase.end, pattern) {
        Some(end) => end,
        None => { return None; },
    };
    Some(between(start.as_str(), end.as_str()))
}

/// The date or dates of a phase in words, or `None` where `chrono` cannot
/// write one that is needed.
pub open spec fn spec_format_date(phase: ColdPhaseView) -> Option<Seq<char>> {
    if text_of(phase.start, DATE_PATTERN@) is None {
        None
    } else if phase.start.same_date(&phase.end) {
        text_of(phase.start, DATE_PATTERN@)
    } else if text_of(phase.end, DATE_PATTERN@) is None {
        None
    } else {
        Some(
            spec_date_range(
                text_of(phase.start, DATE_PATTERN@).unwrap(),
                text_of(phase.end, DATE_PATTERN@).unwrap(),
            ),
        )
    }
}

/// The date of a phase in words: one date where the phase starts and ends
/// on the same date, and else both.
pub fn format_date(phase: &ColdPhase) -> (text: Option<String>)
    ensures
        text.deep_view() == spec_format_date(phase@),
{
    let start = match formatted(&phase.start, DATE_PATTERN) {
        Some(start) => start,
        None => { return None; },
    };
    if phase.start.same_date(&phase.end) {
        Some(start)
    } else {
        match formatted(&phase.end, DATE_PATTERN) {
            Some(end) => Some(date_range(start.as_str(), end.as_str())),
            None => None,
        }
    }
}

} // verus!
