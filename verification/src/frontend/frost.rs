//! The panel of cold phases where it looks after its own forecast.
//!
//! This panel is handed the status of the position only. It requests the
//! forecast itself whenever the position changes, always under the default
//! thresholds, and while it has no news of the forecast it reports on the
//! position instead.
use crate::common::{
    LocationStatus, LocationStatusView, WeatherDataStatus, WeatherDataStatusView,
};
use crate::frontend::components::frost::{Panel, PanelView};
use crate::frontend::{
    default_thresholds, spec_weather_uri, weather_check, Command, CommandView,
};
use vstd::prelude::*;
use vstd::string::StringExecFns;

verus! {

/// What the panel says while the forecast is on its way.
pub const FETCHING_TEXT: &'static str = "Fetching weather data...";

/// What the panel says before the reason why the forecast could not be
/// fetched.
pub const FETCH_ERROR_PREFIX: &'static str = "Error fetching weather data: ";

/// What the panel says before the reason why the forecast could not be
/// read.
pub const PARSE_ERROR_PREFIX: &'static str = "Error parsing weather data: ";

/// What the panel says while the position is on its way.
pub const WAITING_TEXT: &'static str = "Waiting for access to device location...";

/// What the panel says before the reason why the device did not tell its
/// position.
pub const LOCATION_ERROR_PREFIX: &'static str = "Device location could not be determined: ";

/// What the panel says where no position is set.
pub const NO_LOCATION_TEXT: &'static str = "TODO: enter location manually";

/// The state of the panel.
#[derive(Debug, PartialEq, Eq)]
pub struct Props {
    pub location: LocationStatus,
    pub weather: Option<WeatherDataStatus>,
}

/// [`Props`] as a mathematical value.
pub struct PropsView {
    pub location: LocationStatusView,
    pub weather: Option<WeatherDataStatusView>,
}

impl View for Props {
    type V = PropsView;

    open spec fn view(&self) -> PropsView {
        PropsView { location: self.location@, weather: self.weather.deep_view() }
    }
}

impl Clone for Props {
    fn clone(&self) -> (out: Props)
        ensures
            out@ == self@,
    {
        Props {
            location: self.location.clone(),
            weather: match &self.weather {
                Some(weather) => Some(weather.clone()),
                None => None,
            },
        }
    }
}

/// An event that reaches the panel.
#[derive(Debug, PartialEq, Eq)]
pub enum Msg {
    WeatherUpdate(WeatherDataStatus),
}

/// Requests the forecast, under the default thresholds, where the position
/// is known.
pub fn check_for_weather_update(location: &LocationStatus) -> (command: Option<Command>)
    ensures
        match command {
            Some(command) => weather_check(location@, default_thresholds()) == seq![command@],
            None => weather_check(location@, default_thresholds()) == Seq::<CommandView>::empty(),
        },
{
    match location {
        LocationStatus::LocationRetrieved(lat, lon) => {
            let thresholds = default_thresholds();
            Some(
                Command::FetchWeather {
                    lat: *lat,
                    lon: *lon,
                    warning_threshold: thresholds.0,
                    danger_threshold: thresholds.1,
                },
            )
        },
        _ => None,
    }
}

/// Sets the panel up: it requests the forecast at once where the position
/// is known.
pub fn create(props: &Props) -> (command: Option<Command>)
    ensures
        match command {
            Some(command) => weather_check(props@.location, default_thresholds()) == seq![
                command@,
            ],
            None => weather_check(props@.location, default_thresholds()) == Seq::<
                CommandView,
            >::empty(),
        },
{
    check_for_weather_update(&props.location)
}

/// Takes an event: the panel has news of the forecast and is drawn again.
pub fn update(props: &mut Props, msg: Msg) -> (should_render: bool)
    ensures
        msg == Msg::WeatherUpdate(final(props).weather.unwrap()),
        final(props).weather is Some,
        final(props).location == old(props).location,
        should_render,
{
    match msg {
        Msg::WeatherUpdate(weather) => {
            props.weather = Some(weather);
        },
    }
    true
}

/// Takes a new state from outside: the panel requests the forecast again
/// where the position is another than before, and is drawn again.
pub fn change(props: &mut Props, next: Props) -> (out: (bool, Option<Command>))
    ensures
        *final(props) == next,
        out.0,
        match out.1 {
            Some(command) => old(props)@.location != next@.location && weather_check(
                next@.location,
                default_thresholds(),
            ) == seq![command@],
            None => old(props)@.location == next@.location || weather_check(
                next@.location,
                default_thresholds(),
            ) == Seq::<CommandView>::empty(),
        },
{
    let moved = !props.location.same_as(&next.location);
    *props = next;
    let command = if moved {
        check_for_weather_update(&props.location)
    } else {
        None
    };
    (true, command)
}

/// What the panel shows in a state: news of the forecast where it has any,
/// and else news of the position.
pub open spec fn panel_of(props: PropsView) -> PanelView {
    match props.weather {
        Some(WeatherDataStatusView::WeatherDataRetrieved(Ok(data))) => PanelView::Records(
            data.cold_phases,
        ),
        Some(WeatherDataStatusView::WeatherDataRetrieved(Err(error))) => PanelView::Error(error),
        Some(WeatherDataStatusView::WaitingForWeatherData) => PanelView::Text(FETCHING_TEXT@),
        Some(WeatherDataStatusView::FetchError(reason)) => PanelView::Text(
            FETCH_ERROR_PREFIX@ + reason,
        ),
        Some(WeatherDataStatusView::ParseError(reason)) => PanelView::Text(
            PARSE_ERROR_PREFIX@ + reason,
        ),
        None => match props.location {
            LocationStatusView::WaitingForLocation => PanelView::Text(WAITING_TEXT@),
            LocationStatusView::LocationRetrieved(_, _) => PanelView::Text(WAITING_TEXT@),
            LocationStatusView::LocationFailed(_, reason) => PanelView::Text(
                LOCATION_ERROR_PREFIX@ + reason,
            ),
            LocationStatusView::LocationNotSet => PanelView::Text(NO_LOCATION_TEXT@),
        },
    }
}

/// A line of text in the panel: a prefix and what follows it.
fn line(prefix: &str, rest: &str) -> (panel: Panel)
    ensures
        panel@ == PanelView::Text(prefix@ + rest@),
{
    let mut text = String::from_str(prefix);
    text.append(rest);
    Panel::Text(text)
}

/// What the panel shows in a state.
pub fn view(props: &Props) -> (panel: Panel)
    ensures
        panel@ == panel_of(props@),
{
    match &props.weather {
        Some(WeatherDataStatus::WeatherDataRetrieved(Ok(data))) => {
            let phases = data.cold_phases.clone();
            assert(phases.deep_view() =~= data.cold_phases.deep_view());
            Panel::Records(phases)
        },
        Some(WeatherDataStatus::WeatherDataRetrieved(Err(error))) => Panel::Error(error.clone()),
        Some(WeatherDataStatus::WaitingForWeatherData) => Panel::Text(FETCHING_TEXT.to_owned()),
        Some(WeatherDataStatus::FetchError(reason)) => line(FETCH_ERROR_PREFIX, reason.as_str()),
        Some(WeatherDataStatus::ParseError(reason)) => line(PARSE_ERROR_PREFIX, reason.as_str()),
        None => match &props.location {
            LocationStatus::WaitingForLocation => Panel::Text(WAITING_TEXT.to_owned()),
            LocationStatus::LocationRetrieved(_, _) => Panel::Text(WAITING_TEXT.to_owned()),
            LocationStatus::LocationFailed(_, reason) => line(
                LOCATION_ERROR_PREFIX,
                reason.as_str(),
            ),
            LocationStatus::LocationNotSet => Panel::Text(NO_LOCATION_TEXT.to_owned()),
        },
    }
}

/// The default warning threshold as the address of the forecast writes it.
pub const DEFAULT_WARNING_TEXT: &'static str = "5.0";

/// The default danger threshold as the address of the forecast writes it.
pub const DEFAULT_DANGER_TEXT: &'static str = "0.0";

/// The address under which the backend has the forecast for a position
/// under the default thresholds.
pub fn weather_uri(lat: &str, lon: &str) -> (uri: String)
    ensures
        uri@ == spec_weather_uri(lat@, lon@, DEFAULT_WARNING_TEXT@, DEFAULT_DANGER_TEXT@),
{
    crate::frontend::weather_uri(lat, lon, DEFAULT_WARNING_TEXT, DEFAULT_DANGER_TEXT)
}

} // verus!
