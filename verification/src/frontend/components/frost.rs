//! The panel that lists the cold phases.
use crate::common::{
    BackendError, BackendErrorView, ColdPhase, ColdPhaseView, WeatherDataStatus,
    WeatherDataStatusView,
};
use vstd::prelude::*;
use vstd::string::StringExecFns;

verus! {

/// What the panel says where the forecast holds no cold phase.
pub const WARM_TEXT: &'static str = "Looks like it's going to be warm the next few days.";

/// What the panel says while the forecast is on its way.
pub const FETCHING_TEXT: &'static str = "Fetching weather data...";

/// What the panel says above the error that the backend answered with.
pub const ERROR_HEADER: &'static str = "there was an error getting the current weather data:";

/// What the panel says before the reason why the forecast could not be
/// fetched.
pub const FETCH_ERROR_PREFIX: &'static str = "Error fetching weather data: ";

/// What the panel says before the reason why the forecast could not be
/// read.
pub const PARSE_ERROR_PREFIX: &'static str = "Error parsing weather data: ";

/// What the panel shows.
#[derive(Debug, PartialEq, Eq)]
pub enum Panel {
    /// One record for each cold phase, in order.
    Records(Vec<ColdPhase>),
    /// A line of text in place of the records.
    Text(String),
    /// The error that the backend answered with, under [`ERROR_HEADER`].
    Error(BackendError),
    /// Nothing.
    Empty,
}

/// A [`Panel`] as a mathematical value.
pub enum PanelView {
    Records(Seq<ColdPhaseView>),
    Text(Seq<char>),
    Error(BackendErrorView),
    Empty,
}

impl View for Panel {
    type V = PanelView;

    open spec fn view(&self) -> PanelView {
        match self {
            Panel::Records(phases) => PanelView::Records(phases.deep_view()),
            Panel::Text(text) => PanelView::Text(text@),
            Panel::Error(error) => PanelView::Error(error@),
            Panel::Empty => PanelView::Empty,
        }
    }
}

/// What the panel shows for the state of the forecast: the phases where
/// there are any, a friendly line where the forecast holds none, and else
/// what the application is waiting for or why it has no forecast.
pub open spec fn panel_of(weather: Option<WeatherDataStatusView>) -> PanelView {
    match weather {
        Some(WeatherDataStatusView::WeatherDataRetrieved(Ok(data))) => if data.cold_phases.len()
            == 0 {
            PanelView::Text(WARM_TEXT@)
        } else {
            PanelView::Records(data.cold_phases)
        },
        Some(WeatherDataStatusView::WeatherDataRetrieved(Err(error))) => PanelView::Error(error),
        Some(WeatherDataStatusView::WaitingForWeatherData) => PanelView::Text(FETCHING_TEXT@),
        Some(WeatherDataStatusView::FetchError(reason)) => PanelView::Text(
            FETCH_ERROR_PREFIX@ + reason,
        ),
        Some(WeatherDataStatusView::ParseError(reason)) => PanelView::Text(
            PARSE_ERROR_PREFIX@ + reason,
        ),
        None => PanelView::Empty,
    }
}

/// What the panel shows for the state of the forecast.
pub fn view(weather: &Option<WeatherDataStatus>) -> (panel: Panel)
    ensures
        panel@ == panel_of(weather.deep_view()),
{
    match weather {
        Some(WeatherDataStatus::WeatherDataRetrieved(Ok(data))) => {
            if data.cold_phases.len() == 0 {
                Panel::Text(WARM_TEXT.to_owned())
            } else {
                let phases = data.cold_phases.clone();
                assert(phases.deep_view() =~= data.cold_phases.deep_view());
                Panel::Records(phases)
            }
        },
        Some(WeatherDataStatus::WeatherDataRetrieved(Err(error))) => Panel::Error(error.clone()),
        Some(WeatherDataStatus::WaitingForWeatherData) => Panel::Text(FETCHING_TEXT.to_owned()),
        Some(WeatherDataStatus::FetchError(reason)) => {
            let mut text = String::from_str(FETCH_ERROR_PREFIX);
            text.append(reason.as_str());
            Panel::Text(text)
        },
        Some(WeatherDataStatus::ParseError(reason)) => {
            let mut text = String::from_str(PARSE_ERROR_PREFIX);
            text.append(reason.as_str());
            Panel::Text(text)
        },
        None => Panel::Empty,
    }
}

} // verus!
