//! One line of the hourly list.
use crate::calendar::formatted;
use crate::common::RecordType;
use crate::frontend::record::{text_of, DATE_TIME_PATTERN};
use crate::temperature::Temperature;
use crate::time::Timestamp;
use vstd::prelude::*;

verus! {

/// The severity of a line.
pub type Type = RecordType;

/// A cold hour: how severe it is, how cold, when and where.
#[derive(Debug, PartialEq, Eq)]
pub struct Props {
    pub record_type: Type,
    pub temp: Temperature,
    pub timestamp: Timestamp,
    pub location: String,
}

/// [`Props`] as a mathematical value.
pub struct PropsView {
    pub record_type: Type,
    pub temp: Temperature,
    pub timestamp: Timestamp,
    pub location: Seq<char>,
}

impl View for Props {
    type V = PropsView;

    open spec fn view(&self) -> PropsView {
        PropsView {
            record_type: self.record_type,
            temp: self.temp,
            timestamp: self.timestamp,
            location: self.location@,
        }
    }
}

impl DeepView for Props {
    type V = PropsView;

    open spec fn deep_view(&self) -> PropsView {
        self@
    }
}

impl Clone for Props {
    fn clone(&self) -> (out: Props)
        ensures
            out@ == self@,
    {
        Props {
            record_type: self.record_type,
            temp: self.temp,
            timestamp: self.timestamp,
            location: self.location.clone(),
        }
    }
}

/// The words of a line: its style, its heading and its time.
#[derive(Debug, PartialEq, Eq)]
pub struct Line {
    pub class: String,
    pub text: String,
    pub timestamp: String,
}

/// A [`Line`] as a mathematical value.
pub struct LineView {
    pub class: Seq<char>,
    pub text: Seq<char>,
    pub timestamp: Seq<char>,
}

impl View for Line {
    type V = LineView;

    open spec fn view(&self) -> LineView {
        LineView { class: self.class@, text: self.text@, timestamp: self.timestamp@ }
    }
}

impl DeepView for Line {
    type V = LineView;

    open spec fn deep_view(&self) -> LineView {
        self@
    }
}

/// The words of the line for a cold hour, or `None` where `chrono` cannot
/// write its time.
pub open spec fn line_of(props: PropsView) -> Option<LineView> {
    match text_of(props.timestamp, DATE_TIME_PATTERN@) {
        Some(timestamp) => Some(
            LineView {
                class: match props.record_type {
                    RecordType::Warning => "warning"@,
                    RecordType::Danger => "danger"@,
                },
                text: match props.record_type {
                    RecordType::Warning => "WARNING"@,
                    RecordType::Danger => "DANGER"@,
                },
                timestamp,
            },
        ),
        None => None,
    }
}

/// The words of the line for a cold hour: the severity in lower case as its
/// style and in upper case as its heading, and the date and time of day of
/// the hour.
pub fn view(props: &Props) -> (line: Option<Line>)
    ensures
        line.deep_view() == line_of(props@),
{
    match formatted(&props.timestamp, DATE_TIME_PATTERN) {
        Some(timestamp) => Some(
            Line { class: props.record_type.label(), text: props.record_type.title(), timestamp },
        ),
        None => None,
    }
}

} // verus!
