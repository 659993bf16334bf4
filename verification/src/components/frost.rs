//! The state of the hourly list and what each event does to it.
use crate::common::{Location, RecordType, Sample, SampleView};
use crate::components::record::{Props as RecordProps, PropsView as RecordPropsView};
use crate::temperature::Temperature;
use crate::time::Timestamp;
use vstd::prelude::*;
use vstd::string::StringExecFns;

verus! {

/// The encoding of 0 degrees: an hour at or below it is a `Danger` hour.
pub const DANGER_BITS: u32 = 0x0000_0000;

/// The encoding of 5 degrees: an hour below it is a `Warning` hour.
pub const WARNING_BITS: u32 = 0x40a0_0000;

/// What the list says while the forecast is on its way.
pub const FETCHING_TEXT: &'static str = "Fetching weather data...";

/// What the list says before the reason why the forecast could not be
/// fetched.
pub const FETCH_ERROR_PREFIX: &'static str = "Error fetching weather data: ";

/// What the list says before the reason why the forecast could not be
/// read.
pub const PARSE_ERROR_PREFIX: &'static str = "Error parsing weather data: ";

/// What the list says while the position is on its way.
pub const WAITING_TEXT: &'static str = "Waiting for access to device location...";

/// What the list says before the reason why the device did not tell its
/// position.
pub const LOCATION_ERROR_PREFIX: &'static str = "Device location could not be determined: ";

/// What the list says where the device did not tell its position and gave
/// no reason.
pub const LOCATION_ERROR_TEXT: &'static str = "Device location could not be determined.";

/// The state of the list. Every event fills exactly one of the fields and
/// clears the others.
#[derive(Debug, PartialEq, Eq)]
pub struct Frost {
    pub waiting_for_location: bool,
    pub pos: Option<Location>,
    pub weather_data: Option<Vec<Sample>>,
    pub location_error: Option<String>,
    pub fetch_error: Option<String>,
    pub parse_error: Option<String>,
}

/// [`Frost`] as a mathematical value.
pub struct FrostView {
    pub waiting_for_location: bool,
    pub pos: Option<Location>,
    pub weather_data: Option<Seq<SampleView>>,
    pub location_error: Option<Seq<char>>,
    pub fetch_error: Option<Seq<char>>,
    pub parse_error: Option<Seq<char>>,
}

impl View for Frost {
    type V = FrostView;

    open spec fn view(&self) -> FrostView {
        FrostView {
            waiting_for_location: self.waiting_for_location,
            pos: self.pos,
            weather_data: self.weather_data.deep_view(),
            location_error: self.location_error.deep_view(),
            fetch_error: self.fetch_error.deep_view(),
            parse_error: self.parse_error.deep_view(),
        }
    }
}

/// An event that reaches the list.
#[derive(Debug, PartialEq, Eq)]
pub enum Msg {
    WaitingForLocation,
    LocationFailed(String),
    GotLocation(Location),
    WeatherDataArrived(Vec<Sample>),
    WeatherDataFetchError(String),
    WeatherDataParseError(String),
}

/// A [`Msg`] as a mathematical value.
pub enum MsgView {
    WaitingForLocation,
    LocationFailed(Seq<char>),
    GotLocation(Location),
    WeatherDataArrived(Seq<SampleView>),
    WeatherDataFetchError(Seq<char>),
    WeatherDataParseError(Seq<char>),
}

impl View for Msg {
    type V = MsgView;

    open spec fn view(&self) -> MsgView {
        match self {
            Msg::WaitingForLocation => MsgView::WaitingForLocation,
            Msg::LocationFailed(reason) => MsgView::LocationFailed(reason@),
            Msg::GotLocation(pos) => MsgView::GotLocation(*pos),
            Msg::WeatherDataArrived(samples) => MsgView::WeatherDataArrived(samples.deep_view()),
            Msg::WeatherDataFetchError(reason) => MsgView::WeatherDataFetchError(reason@),
            Msg::WeatherDataParseError(reason) => MsgView::WeatherDataParseError(reason@),
        }
    }
}

/// The state with nothing in it.
pub open spec fn cleared() -> FrostView {
    FrostView {
        waiting_for_location: false,
        pos: None,
        weather_data: None,
        location_error: None,
        fetch_error: None,
        parse_error: None,
    }
}

/// The state after an event, whatever it was before.
pub open spec fn updated(msg: MsgView) -> FrostView {
    match msg {
        MsgView::WaitingForLocation => FrostView { waiting_for_location: true, ..cleared() },
        MsgView::LocationFailed(reason) => FrostView { location_error: Some(reason), ..cleared() },
        MsgView::GotLocation(pos) => FrostView { pos: Some(pos), ..cleared() },
        MsgView::WeatherDataArrived(samples) => FrostView {
            weather_data: Some(samples),
            ..cleared()
        },
        MsgView::WeatherDataFetchError(reason) => FrostView {
            fetch_error: Some(reason),
            ..cleared()
        },
        MsgView::WeatherDataParseError(reason) => FrostView {
            parse_error: Some(reason),
            ..cleared()
        },
    }
}

impl Frost {
    /// The state in which the list starts: with nothing in it.
    pub fn new() -> (state: Frost)
        ensures
            state@ == cleared(),
    {
        Frost {
            waiting_for_location: false,
            pos: None,
            weather_data: None,
            location_error: None,
            fetch_error: None,
            parse_error: None,
        }
    }

    /// Takes an event. The list is drawn again, and where the event is a
    /// position, the forecast for it is to be fetched: the result holds
    /// that position.
    pub fn update(&mut self, msg: Msg) -> (out: (bool, Option<Location>))
        ensures
            final(self)@ == updated(msg@),
            out.0,
            out.1 == match msg {
                Msg::GotLocation(pos) => Some(pos),
                _ => None,
            },
    {
        let mut next = Frost::new();
        let mut fetch: Option<Location> = None;
        match msg {
            Msg::WaitingForLocation => {
                next.waiting_for_location = true;
            },
            Msg::LocationFailed(reason) => {
                next.location_error = Some(reason);
            },
            Msg::GotLocation(pos) => {
                next.pos = Some(pos);
                fetch = Some(pos);
            },
            Msg::WeatherDataArrived(samples) => {
                next.weather_data = Some(samples);
            },
            Msg::WeatherDataFetchError(reason) => {
                next.fetch_error = Some(reason);
            },
            Msg::WeatherDataParseError(reason) => {
                next.parse_error = Some(reason);
            },
        }
        *self = next;
        (true, fetch)
    }
}

/// What the list shows.
#[derive(Debug, PartialEq, Eq)]
pub enum Content {
    /// A line of text in place of the list.
    Text(String),
    /// One line for each cold hour, in order.
    Records(Vec<RecordProps>),
}

/// [`Content`] as a mathematical value.
pub enum ContentView {
    Text(Seq<char>),
    Records(Seq<RecordPropsView>),
}

impl View for Content {
    type V = ContentView;

    open spec fn view(&self) -> ContentView {
        match self {
            Content::Text(text) => ContentView::Text(text@),
            Content::Records(records) => ContentView::Records(records.deep_view()),
        }
    }
}

/// The line of the list for a sample: none where the sample is not later
/// than `now` or has no temperature, a `Danger` line where it is at or
/// below 0 degrees, a `Warning` line where it is below 5 degrees, and none
/// where it is warmer or its temperature is a NaN.
pub open spec fn record_of(sample: SampleView, now: Timestamp) -> Option<RecordPropsView> {
    if !now.is_before(&sample.timestamp) || sample.temperature is None {
        None
    } else if sample.temperature.unwrap().le(&Temperature { bits: DANGER_BITS }) {
        Some(
            RecordPropsView {
                record_type: RecordType::Danger,
                temp: sample.temperature.unwrap(),
                timestamp: sample.timestamp,
                location: sample.location,
            },
        )
    } else if sample.temperature.unwrap().lt(&Temperature { bits: WARNING_BITS }) {
        Some(
            RecordPropsView {
                record_type: RecordType::Warning,
                temp: sample.temperature.unwrap(),
                timestamp: sample.timestamp,
                location: sample.location,
            },
        )
    } else {
        None
    }
}

/// The lines of the list for a series of samples, in the order of the
/// samples.
pub open spec fn records_of(samples: Seq<SampleView>, now: Timestamp) -> Seq<RecordPropsView> {
    samples.filter_map(|sample: SampleView| record_of(sample, now))
}

/// The lines of the list: one for each sample later than `now` that is
/// below 5 degrees.
pub fn format_weather_data(response: &Vec<Sample>, now: Timestamp) -> (out: Vec<RecordProps>)
    ensures
        out.deep_view() == records_of(response.deep_view(), now),
{
    let ghost all = response.deep_view();
    let mut out: Vec<RecordProps> = Vec::new();
    let mut i: usize = 0;
    assert(all.take(0) =~= Seq::<SampleView>::empty());
    assert(out.deep_view() =~= Seq::<RecordPropsView>::empty());
    while i < response.len()
        invariant
            i <= response.len(),
            all == response.deep_view(),
            out.deep_view() == records_of(all.take(i as int), now),
        decreases response.len() - i,
    {
        let data = &response[i];
        let ghost before = out.deep_view();
        proof {
            let f = |sample: SampleView| record_of(sample, now);
            let longer = all.take(i + 1);
            assert(longer.drop_last() =~= all.take(i as int));
            assert(longer.last() == data@);
            assert(records_of(longer, now) =~= match record_of(data@, now) {
                Some(record) => before.push(record),
                None => before,
            });
        }
        if now.is_before(&data.timestamp) {
            if let Some(temp) = data.temperature {
                if temp.le(&Temperature { bits: DANGER_BITS }) {
                    let record = RecordProps {
                        record_type: RecordType::Danger,
                        temp,
                        timestamp: data.timestamp,
                        location: data.location.clone(),
                    };
                    out.push(record);
                    assert(out.deep_view() =~= before.push(record_of(data@, now).unwrap()));
                } else if temp.lt(&Temperature { bits: WARNING_BITS }) {
                    let record = RecordProps {
                        record_type: RecordType::Warning,
                        temp,
                        timestamp: data.timestamp,
                        location: data.location.clone(),
                    };
                    out.push(record);
                    assert(out.deep_view() =~= before.push(record_of(data@, now).unwrap()));
                }
            }
        }
        i = i + 1;
    }
    assert(all.take(i as int) =~= all);
    out
}

/// What the list shows in a state, by the first of these that holds: the
/// forecast is being fetched for a position; it could not be fetched; it
/// could not be read; it is there; the position is on its way; the device
/// did not tell it.
pub open spec fn content_of(state: FrostView, now: Timestamp) -> ContentView {
    if state.pos is Some {
        ContentView::Text(FETCHING_TEXT@)
    } else if state.fetch_error is Some {
        ContentView::Text(FETCH_ERROR_PREFIX@ + state.fetch_error.unwrap())
    } else if state.parse_error is Some {
        ContentView::Text(PARSE_ERROR_PREFIX@ + state.parse_error.unwrap())
    } else if state.weather_data is Some {
        ContentView::Records(records_of(state.weather_data.unwrap(), now))
    } else if state.waiting_for_location {
        ContentView::Text(WAITING_TEXT@)
    } else if state.location_error is Some {
        ContentView::Text(LOCATION_ERROR_PREFIX@ + state.location_error.unwrap())
    } else {
        ContentView::Text(LOCATION_ERROR_TEXT@)
    }
}

/// A line of text in place of the list: a prefix and what follows it.
fn line(prefix: &str, rest: &str) -> (content: Content)
    ensures
        content@ == ContentView::Text(prefix@ + rest@),
{
    let mut text = String::from_str(prefix);
    text.append(rest);
    Content::Text(text)
}

/// What the list shows in a state at the time `now`.
pub fn view(state: &Frost, now: Timestamp) -> (content: Content)
    ensures
        content@ == content_of(state@, now),
{
    if state.pos.is_some() {
        return Content::Text(FETCHING_TEXT.to_owned());
    }
    if let Some(reason) = &state.fetch_error {
        return line(FETCH_ERROR_PREFIX, reason.as_str());
    }
    if let Some(reason) = &state.parse_error {
        return line(PARSE_ERROR_PREFIX, reason.as_str());
    }
    if let Some(samples) = &state.weather_data {
        return Content::Records(format_weather_data(samples, now));
    }
    if state.waiting_for_location {
        return Content::Text(WAITING_TEXT.to_owned());
    }
    if let Some(reason) = &state.location_error {
        return line(LOCATION_ERROR_PREFIX, reason.as_str());
    }
    Content::Text(LOCATION_ERROR_TEXT.to_owned())
}

/// The event that the answer to a request for the forecast amounts to.
///
/// `success` tells whether the answer came with a status of success, and
/// `status` is that status in words. `body` is `Err` with the reason where
/// the answer had no body that could be had, and else holds the samples or,
/// as `Err`, why the body could not be read as a forecast.
pub fn fetch_weather_data(
    success: bool,
    status: String,
    body: Result<Result<Vec<Sample>, String>, String>,
) -> (msg: Msg)
    ensures
        msg@ == if !success {
            MsgView::WeatherDataFetchError(status@)
        } else {
            match body {
                Ok(Ok(samples)) => MsgView::WeatherDataArrived(samples.deep_view()),
                Ok(Err(reason)) => MsgView::WeatherDataParseError(reason@),
                Err(reason) => MsgView::WeatherDataParseError(reason@),
            }
        },
{
    if !success {
        Msg::WeatherDataFetchError(status)
    } else {
        match body {
            Ok(Ok(samples)) => Msg::WeatherDataArrived(samples),
            Ok(Err(reason)) => Msg::WeatherDataParseError(reason),
            Err(reason) => Msg::WeatherDataParseError(reason),
        }
    }
}

/// The address under which the backend has the forecast for a position.
pub fn weather_uri(lat: &str, lon: &str) -> (uri: String)
    ensures
        uri@ == "/weather?lat="@ + lat@ + "&lon="@ + lon@,
{
    let mut uri = String::from_str("/weather?lat=");
    uri.append(lat);
    uri.append("&lon=");
    uri.append(lon);
    uri
}

} // verus!
