//! Cold phases in a temperature forecast.
//!
//! A forecast is a chronological series of samples, one per hour or so. A
//! cold phase is a stretch of it in which the temperature stays at or below
//! a warning threshold; it is as severe as its coldest reading, which makes
//! it a danger phase where that reading is at or below a second, lower
//! threshold.
//!
//! - [`backend`] merges a series of samples into its cold phases, and
//!   [`laws`] proves what holds of the phases of every series.
//! - [`temperature`] and [`time`] hold the two quantities that the phases
//!   are made of: temperatures as exact encodings with the order of the
//!   numbers, and timestamps that keep the offset of their clock.
//! - [`common`] holds the data that travels between backend and
//!   application.
//! - [`frontend`] decides for the application that shows the phases what
//!   follows from each event, and [`components`] does so for the hourly
//!   list, a simpler screen that this root starts.
//! - [`calendar`], [`json`] and [`text`] are where the library calls
//!   `chrono`, `serde_json` and the standard library for what it does not
//!   compute itself.
use crate::common::{Coordinate, Location};
use crate::components::frost::{Msg as FrostMsg, MsgView as FrostMsgView};
use vstd::prelude::*;

pub mod backend;
pub mod calendar;
pub mod common;
pub mod components;
pub mod frontend;
pub mod json;
pub mod laws;
pub mod temperature;
pub mod text;
pub mod time;

verus! {

/// What the hourly list reports where the device gave no reason for not
/// telling its position.
pub const UNKNOWN_ERROR_TEXT: &'static str = "unknown error occurred";

/// What the hourly list is started with: the position of the device, or
/// that it is on its way, or why there is none.
#[derive(Debug, PartialEq, Eq)]
pub struct Props {
    pub waiting_for_location: bool,
    pub location_access_failed: Option<String>,
    pub location: Option<Location>,
}

/// [`Props`] as a mathematical value.
pub struct PropsView {
    pub waiting_for_location: bool,
    pub location_access_failed: Option<Seq<char>>,
    pub location: Option<Location>,
}

impl View for Props {
    type V = PropsView;

    open spec fn view(&self) -> PropsView {
        PropsView {
            waiting_for_location: self.waiting_for_location,
            location_access_failed: self.location_access_failed.deep_view(),
            location: self.location,
        }
    }
}

impl Clone for Props {
    fn clone(&self) -> (out: Props)
        ensures
            out@ == self@,
    {
        Props {
            waiting_for_location: self.waiting_for_location,
            location_access_failed: match &self.location_access_failed {
                Some(reason) => Some(reason.clone()),
                None => None,
            },
            location: self.location,
        }
    }
}

/// What the root of the hourly list knows of the position.
#[derive(Debug, PartialEq, Eq)]
pub struct Model {
    pub pos: Option<Location>,
    pub waiting_for_location: bool,
    pub location_error: Option<String>,
}

/// A [`Model`] as a mathematical value.
pub struct ModelView {
    pub pos: Option<Location>,
    pub waiting_for_location: bool,
    pub location_error: Option<Seq<char>>,
}

impl View for Model {
    type V = ModelView;

    open spec fn view(&self) -> ModelView {
        ModelView {
            pos: self.pos,
            waiting_for_location: self.waiting_for_location,
            location_error: self.location_error.deep_view(),
        }
    }
}

/// What the root tells the list once the list exists: the position where
/// there is one, else that it is on its way, else why there is none.
pub open spec fn first_message(model: ModelView) -> FrostMsgView {
    if model.pos is Some {
        FrostMsgView::GotLocation(model.pos.unwrap())
    } else if model.waiting_for_location {
        FrostMsgView::WaitingForLocation
    } else if model.location_error is Some {
        FrostMsgView::LocationFailed(model.location_error.unwrap())
    } else {
        FrostMsgView::LocationFailed(UNKNOWN_ERROR_TEXT@)
    }
}

impl Model {
    /// The root for what the list is started with.
    pub fn create(props: Props) -> (model: Model)
        ensures
            model.pos == props.location,
            model.waiting_for_location == props.waiting_for_location,
            model.location_error == props.location_access_failed,
    {
        Model {
            pos: props.location,
            waiting_for_location: props.waiting_for_location,
            location_error: props.location_access_failed,
        }
    }

    /// Takes the news that the list exists: says what to tell the list, and
    /// that the root need not be drawn again.
    pub fn update(&self) -> (out: (bool, FrostMsg))
        ensures
            !out.0,
            out.1@ == first_message(self@),
    {
        let msg = if let Some(pos) = self.pos {
            FrostMsg::GotLocation(pos)
        } else if self.waiting_for_location {
            FrostMsg::WaitingForLocation
        } else if let Some(reason) = &self.location_error {
            FrostMsg::LocationFailed(reason.clone())
        } else {
            FrostMsg::LocationFailed(UNKNOWN_ERROR_TEXT.to_owned())
        };
        (false, msg)
    }
}

/// What the list is started with while the device is asked for its
/// position.
pub fn requesting_location() -> (props: Props)
    ensures
        props@ == (PropsView {
            waiting_for_location: true,
            location_access_failed: None,
            location: None,
        }),
{
    Props { waiting_for_location: true, location_access_failed: None, location: None }
}

/// What the list is started with at a known position.
pub fn start(lat: Coordinate, lon: Coordinate) -> (props: Props)
    ensures
        props@ == (PropsView {
            waiting_for_location: false,
            location_access_failed: None,
            location: Some((lat, lon)),
        }),
{
    Props { waiting_for_location: false, location_access_failed: None, location: Some((lat, lon)) }
}

/// What a device means by the code with which it declines to tell its
/// position.
pub open spec fn location_failure(code: u16) -> Seq<char> {
    if code == 1 {
        "User denied the request for Geolocation."@
    } else if code == 2 {
        "Location information is unavailable."@
    } else if code == 3 {
        "The request to get the user location timed out."@
    } else if code == 4 {
        "Geolocation is not supported by the browser."@
    } else {
        "An unknown error occurred."@
    }
}

/// What the list is started with where the device declined, under `code`,
/// to tell its position.
pub fn get_location_failed(code: u16) -> (props: Props)
    ensures
        props@ == (PropsView {
            waiting_for_location: false,
            location_access_failed: Some(location_failure(code)),
            location: None,
        }),
{
    let message = if code == 1 {
        "User denied the request for Geolocation."
    } else if code == 2 {
        "Location information is unavailable."
    } else if code == 3 {
        "The request to get the user location timed out."
    } else if code == 4 {
        "Geolocation is not supported by the browser."
    } else {
        "An unknown error occurred."
    };
    Props {
        waiting_for_location: false,
        location_access_failed: Some(message.to_owned()),
        location: None,
    }
}

} // verus!
