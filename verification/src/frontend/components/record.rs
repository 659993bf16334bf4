//! The record that the panel shows for one cold phase.
use crate::calendar::formatted;
use crate::common::{ColdPhase, ColdPhaseView, RecordType};
use crate::frontend::record::{format_time, spec_format_time, text_of, DATE_PATTERN};
use crate::temperature::Temperature;
use vstd::prelude::*;

verus! {

/// The words of a record.
///
/// `date_start` is the date on which the phase starts, `date_end` the date
/// on which it ends where that is another date, `class` the style of the
/// record and `type_text` its heading, and `timestamp` the span of the
/// phase.
#[derive(Debug, PartialEq, Eq)]
pub struct RecordText {
    pub date_start: String,
    pub date_end: Option<String>,
    pub class: String,
    pub type_text: String,
    pub timestamp: String,
}

/// A [`RecordText`] as a mathematical value.
pub struct RecordTextView {
    pub date_start: Seq<char>,
    pub date_end: Option<Seq<char>>,
    pub class: Seq<char>,
    pub type_text: Seq<char>,
    pub timestamp: Seq<char>,
}

impl View for RecordText {
    type V = RecordTextView;

    open spec fn view(&self) -> RecordTextView {
        RecordTextView {
            date_start: self.date_start@,
            date_end: self.date_end.deep_view(),
            class: self.class@,
            type_text: self.type_text@,
            timestamp: self.timestamp@,
        }
    }
}

impl DeepView for RecordText {
    type V = RecordTextView;

    open spec fn deep_view(&self) -> RecordTextView {
        self@
    }
}

/// The threshold that a record of the given severity reports as crossed:
/// the danger threshold for a `Danger` phase, and the warning threshold for
/// a `Warning` phase.
pub fn crossed_threshold(
    record_type: RecordType,
    warning_threshold: Temperature,
    danger_threshold: Temperature,
) -> (threshold: Temperature)
    ensures
        threshold == match record_type {
            RecordType::Warning => warning_threshold,
            RecordType::Danger => danger_threshold,
        },
{
    match record_type {
        RecordType::Warning => warning_threshold,
        RecordType::Danger => danger_threshold,
    }
}

/// The words of the record of a phase, or `None` where `chrono` cannot
/// write a date or time that the record needs.
pub open spec fn record_text_of(phase: ColdPhaseView) -> Option<RecordTextView> {
    if text_of(phase.start, DATE_PATTERN@) is None || spec_format_time(phase) is None {
        None
    } else if !phase.start.same_date(&phase.end) && text_of(phase.end, DATE_PATTERN@) is None {
        None
    } else {
        Some(
            RecordTextView {
                date_start: text_of(phase.start, DATE_PATTERN@).unwrap(),
                date_end: if phase.start.same_date(&phase.end) {
                    None
                } else {
                    text_of(phase.end, DATE_PATTERN@)
                },
                class: match phase.record_type {
                    RecordType::Warning => "warning"@,
                    RecordType::Danger => "danger"@,
                },
                type_text: match phase.record_type {
                    RecordType::Warning => "WARNING"@,
                    RecordType::Danger => "DANGER"@,
                },
                timestamp: spec_format_time(phase).unwrap(),
            },
        )
    }
}

/// The words of the record of a phase.
pub fn view(phase: &ColdPhase) -> (text: Option<RecordText>)
    ensures
        text.deep_view() == record_text_of(phase@),
{
    let date_start = match formatted(&phase.start, DATE_PATTERN) {
        Some(date) => date,
        None => { return None; },
    };
    let timestamp = match format_time(phase) {
        Some(span) => span,
        None => { return None; },
    };
    let date_end = if phase.start.same_date(&phase.end) {
        None
    } else {
        match formatted(&phase.end, DATE_PATTERN) {
            Some(date) => Some(date),
            None => { return None; },
        }
    };
    Some(
        RecordText {
            date_start,
            date_end,
            class: phase.record_type.label(),
            type_text: phase.record_type.title(),
            timestamp,
        },
    )
}

} // verus!
