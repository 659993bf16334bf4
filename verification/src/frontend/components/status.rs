//! The status bar at the bottom of the screen.
use crate::common::{Status, StatusView};
use vstd::prelude::*;

verus! {

/// The style of the bar for a line of information.
pub const INFO_CLASS: &'static str = "status-bar info";

/// The style of the bar while something is in progress.
pub const PROGRESS_CLASS: &'static str = "status-bar progress";

/// The style of the bar for a warning.
pub const WARNING_CLASS: &'static str = "status-bar warning";

/// The style of the bar for an error.
pub const ERROR_CLASS: &'static str = "status-bar error";

/// An event that reaches the bar.
#[derive(Debug, PartialEq, Eq)]
pub enum Msg {
    StatusUpdate(Option<Status>),
}

/// Takes an event: the bar shows the new status and is drawn again.
pub fn update(status: &mut Option<Status>, msg: Msg) -> (should_render: bool)
    ensures
        msg == Msg::StatusUpdate(*final(status)),
        should_render,
{
    match msg {
        Msg::StatusUpdate(update) => {
            *status = update;
        },
    }
    true
}

/// The style of the bar for a status.
pub open spec fn class_of(status: StatusView) -> Seq<char> {
    match status {
        StatusView::Info(_) => INFO_CLASS@,
        StatusView::Progress(_) => PROGRESS_CLASS@,
        StatusView::Warning { .. } => WARNING_CLASS@,
        StatusView::Error { .. } => ERROR_CLASS@,
    }
}

/// The style of the bar for a status.
pub fn class(status: &Status) -> (name: &'static str)
    ensures
        name@ == class_of(status@),
{
    match status {
        Status::Info(_) => INFO_CLASS,
        Status::Progress(_) => PROGRESS_CLASS,
        Status::Warning { .. } => WARNING_CLASS,
        Status::Error { .. } => ERROR_CLASS,
    }
}

} // verus!
