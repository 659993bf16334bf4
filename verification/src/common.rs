//! The data of the library: what the accumulator reads and produces, what
//! the backend answers, and what the application knows of the position and
//! of the forecast.
use crate::json::{pretty_object, serde_json_pretty_object};
use crate::temperature::Temperature;
use crate::time::Timestamp;
use vstd::prelude::*;
use vstd::string::StringExecFns;

verus! {

/// How severe a cold phase is. The two levels are ordered
/// `Warning < Danger`, and a phase only ever moves up.
#[derive(Clone, Copy, Debug, PartialEq, Eq, Structural)]
pub enum RecordType {
    Warning,
    Danger,
}

impl RecordType {
    /// The place of the level in the order `Warning < Danger`.
    pub open spec fn rank(&self) -> int {
        match self {
            RecordType::Warning => 0,
            RecordType::Danger => 1,
        }
    }

    /// The level of a single reading that is at or below the warning
    /// threshold: `Danger` when it is at or below `danger_threshold` too.
    pub open spec fn spec_of_reading(
        temperature: Temperature,
        danger_threshold: Temperature,
    ) -> RecordType {
        if temperature.le(&danger_threshold) {
            RecordType::Danger
        } else {
            RecordType::Warning
        }
    }

    /// The higher of two levels.
    pub open spec fn spec_join(&self, other: RecordType) -> RecordType {
        if *self == RecordType::Danger || other == RecordType::Danger {
            RecordType::Danger
        } else {
            RecordType::Warning
        }
    }

    /// The level of a single reading that is at or below the warning
    /// threshold.
    #[verifier::when_used_as_spec(spec_of_reading)]
    pub fn of_reading(temperature: Temperature, danger_threshold: Temperature) -> (out:
        RecordType)
        ensures
            out == RecordType::spec_of_reading(temperature, danger_threshold),
    {
        if temperature.le(&danger_threshold) {
            RecordType::Danger
        } else {
            RecordType::Warning
        }
    }

    /// The higher of two levels.
    #[verifier::when_used_as_spec(spec_join)]
    pub fn join(&self, other: RecordType) -> (out: RecordType)
        ensures
            out == self.spec_join(other),
            out.rank() >= self.rank(),
            out.rank() >= other.rank(),
            out == *self || out == other,
    {
        match (self, other) {
            (RecordType::Warning, RecordType::Warning) => RecordType::Warning,
            _ => RecordType::Danger,
        }
    }

    /// The name of the level in lower case: `warning` or `danger`.
    pub fn label(&self) -> (out: String)
        ensures
            out@ == match self {
                RecordType::Warning => "warning"@,
                RecordType::Danger => "danger"@,
            },
    {
        match self {
            RecordType::Warning => "warning".to_owned(),
            RecordType::Danger => "danger".to_owned(),
        }
    }

    /// The name of the level in upper case: `WARNING` or `DANGER`.
    pub fn title(&self) -> (out: String)
        ensures
            out@ == match self {
                RecordType::Warning => "WARNING"@,
                RecordType::Danger => "DANGER"@,
            },
    {
        match self {
            RecordType::Warning => "WARNING".to_owned(),
            RecordType::Danger => "DANGER".to_owned(),
        }
    }
}

/// One observation of a weather station.
///
/// `temperature` is `None` where the station reported none; such a sample
/// takes no part in any cold phase and ends none.
#[derive(Debug, PartialEq, Eq)]
pub struct Sample {
    pub timestamp: Timestamp,
    pub temperature: Option<Temperature>,
    pub location: String,
}

/// A [`Sample`] as a mathematical value.
pub struct SampleView {
    pub timestamp: Timestamp,
    pub temperature: Option<Temperature>,
    pub location: Seq<char>,
}

impl View for Sample {
    type V = SampleView;

    open spec fn view(&self) -> SampleView {
        SampleView {
            timestamp: self.timestamp,
            temperature: self.temperature,
            location: self.location@,
        }
    }
}

impl DeepView for Sample {
    type V = SampleView;

    open spec fn deep_view(&self) -> SampleView {
        self@
    }
}

impl Clone for Sample {
    fn clone(&self) -> (out: Sample)
        ensures
            out@ == self@,
    {
        Sample {
            timestamp: self.timestamp,
            temperature: self.temperature,
            location: self.location.clone(),
        }
    }
}

/// A sample that carries a temperature: what a cold phase is made of.
pub struct Reading {
    pub timestamp: Timestamp,
    pub temperature: Temperature,
    pub location: Seq<char>,
}

/// A period during which every reading was at or below the warning
/// threshold.
///
/// `min_temp` is the lowest reading of the period, `start` the time of its
/// first reading, `end` one hour after the time of its last reading, and
/// `location` the station of its first reading. `record_type` is `Danger`
/// exactly when some reading of the period was at or below the danger
/// threshold.
#[derive(Debug, PartialEq, Eq)]
pub struct ColdPhase {
    pub location: String,
    pub min_temp: Temperature,
    pub start: Timestamp,
    pub end: Timestamp,
    pub record_type: RecordType,
}

/// A [`ColdPhase`] as a mathematical value.
pub struct ColdPhaseView {
    pub location: Seq<char>,
    pub min_temp: Temperature,
    pub start: Timestamp,
    pub end: Timestamp,
    pub record_type: RecordType,
}

impl View for ColdPhase {
    type V = ColdPhaseView;

    open spec fn view(&self) -> ColdPhaseView {
        ColdPhaseView {
            location: self.location@,
            min_temp: self.min_temp,
            start: self.start,
            end: self.end,
            record_type: self.record_type,
        }
    }
}

impl DeepView for ColdPhase {
    type V = ColdPhaseView;

    open spec fn deep_view(&self) -> ColdPhaseView {
        self@
    }
}

impl ColdPhaseView {
    /// The phase that a first cold reading opens.
    pub open spec fn opened(reading: Reading, danger_threshold: Temperature) -> ColdPhaseView {
        ColdPhaseView {
            location: reading.location,
            min_temp: reading.temperature,
            start: reading.timestamp,
            end: reading.timestamp.padded(),
            record_type: RecordType::of_reading(reading.temperature, danger_threshold),
        }
    }

    /// The phase after one more cold reading: the minimum follows the reading
    /// down, the severity moves up to `Danger` if the reading is at or below
    /// the danger threshold, and the end moves to one hour after the reading.
    pub open spec fn extended(
        self,
        temperature: Temperature,
        timestamp: Timestamp,
        danger_threshold: Temperature,
    ) -> ColdPhaseView {
        ColdPhaseView {
            location: self.location,
            min_temp: if temperature.lt(&self.min_temp) {
                temperature
            } else {
                self.min_temp
            },
            start: self.start,
            end: timestamp.padded(),
            record_type: self.record_type.join(RecordType::of_reading(temperature, danger_threshold)),
        }
    }
}

impl ColdPhase {
    /// Opens a phase at a first cold reading. The phase ends one hour after
    /// it starts.
    pub fn open(
        location: String,
        temperature: Temperature,
        timestamp: Timestamp,
        danger_threshold: Temperature,
    ) -> (phase: ColdPhase)
        requires
            timestamp.can_pad(),
        ensures
            phase@ == ColdPhaseView::opened(
                Reading { timestamp, temperature, location: location@ },
                danger_threshold,
            ),
            phase.start.is_before(&phase.end),
    {
        ColdPhase {
            location,
            min_temp: temperature,
            start: timestamp,
            end: timestamp.plus_one_hour(),
            record_type: RecordType::of_reading(temperature, danger_threshold),
        }
    }

    /// Extends the phase by one more cold reading. The severity never moves
    /// down: once the phase is a `Danger` phase, it stays one. The minimum
    /// never moves up, and the phase still ends after it starts where the
    /// reading is not from before its start.
    pub fn extend(
        &mut self,
        temperature: Temperature,
        timestamp: Timestamp,
        danger_threshold: Temperature,
    )
        requires
            timestamp.can_pad(),
        ensures
            final(self)@ == old(self)@.extended(temperature, timestamp, danger_threshold),
            final(self).location == old(self).location,
            final(self).record_type.rank() >= old(self).record_type.rank(),
            old(self).record_type == RecordType::Danger ==> final(self).record_type
                == RecordType::Danger,
            final(self).min_temp == old(self).min_temp || final(self).min_temp.lt(
                &old(self).min_temp,
            ),
            old(self).start.not_after(&timestamp) ==> final(self).start.is_before(
                &final(self).end,
            ),
    {
        if temperature.lt(&self.min_temp) {
            self.min_temp = temperature;
        }
        self.record_type = self.record_type.join(
            RecordType::of_reading(temperature, danger_threshold),
        );
        self.end = timestamp.plus_one_hour();
    }
}

impl Clone for ColdPhase {
    fn clone(&self) -> (out: ColdPhase)
        ensures
            out@ == self@,
    {
        ColdPhase {
            location: self.location.clone(),
            min_temp: self.min_temp,
            start: self.start,
            end: self.end,
            record_type: self.record_type,
        }
    }
}

/// What the backend answers: the cold phases of a forecast and the station
/// that the forecast comes from, where there is one.
///
/// An empty list of phases is a full answer, "no cold phase ahead"; that the
/// forecast could not be had is a [`BackendError`] instead.
#[derive(Debug, PartialEq, Eq)]
pub struct BackendResponse {
    pub location: Option<String>,
    pub cold_phases: Vec<ColdPhase>,
}

/// A [`BackendResponse`] as a mathematical value.
pub struct BackendResponseView {
    pub location: Option<Seq<char>>,
    pub cold_phases: Seq<ColdPhaseView>,
}

impl View for BackendResponse {
    type V = BackendResponseView;

    open spec fn view(&self) -> BackendResponseView {
        BackendResponseView {
            location: self.location.deep_view(),
            cold_phases: self.cold_phases.deep_view(),
        }
    }
}

impl DeepView for BackendResponse {
    type V = BackendResponseView;

    open spec fn deep_view(&self) -> BackendResponseView {
        self@
    }
}

impl Clone for BackendResponse {
    fn clone(&self) -> (out: BackendResponse)
        ensures
            out@ == self@,
    {
        let location = match &self.location {
            Some(name) => Some(name.clone()),
            None => None,
        };
        let cold_phases = self.cold_phases.clone();
        assert(cold_phases.deep_view() =~= self.cold_phases.deep_view());
        BackendResponse { location, cold_phases }
    }
}

/// The key under which the application keeps the position in the browser's
/// storage.
pub const LOCATION_KEY: &'static str = "location";

/// The key under which the application keeps the thresholds in the
/// browser's storage.
pub const THRESHOLD_KEY: &'static str = "thresholds";

/// A latitude or longitude in degrees, held as the bit pattern of an
/// IEEE 754 single-precision number. The library passes coordinates on and
/// never computes with them.
#[derive(Clone, Copy, Debug, PartialEq, Eq, Structural)]
pub struct Coordinate {
    pub bits: u32,
}

/// A position: latitude, then longitude.
pub type Location = (Coordinate, Coordinate);

/// The warning threshold, then the danger threshold.
pub type Thresholds = (Temperature, Temperature);

/// What the upstream weather service answers in place of a forecast.
#[derive(Debug, PartialEq, Eq)]
pub struct BrightskyApiError {
    pub title: String,
    pub description: String,
}

/// A [`BrightskyApiError`] as a mathematical value.
pub struct BrightskyApiErrorView {
    pub title: Seq<char>,
    pub description: Seq<char>,
}

impl View for BrightskyApiError {
    type V = BrightskyApiErrorView;

    open spec fn view(&self) -> BrightskyApiErrorView {
        BrightskyApiErrorView { title: self.title@, description: self.description@ }
    }
}

impl DeepView for BrightskyApiError {
    type V = BrightskyApiErrorView;

    open spec fn deep_view(&self) -> BrightskyApiErrorView {
        self@
    }
}

impl Clone for BrightskyApiError {
    fn clone(&self) -> (out: BrightskyApiError)
        ensures
            out@ == self@,
    {
        BrightskyApiError { title: self.title.clone(), description: self.description.clone() }
    }
}

/// The name under which an error of the upstream service carries its
/// title.
pub const TITLE_KEY: &'static str = "title";

/// The name under which an error of the upstream service carries its
/// description.
pub const DESCRIPTION_KEY: &'static str = "description";

impl BrightskyApiErrorView {
    /// The error in words: the JSON object of its title and description,
    /// pretty-printed, and a line feed; `None` where `serde_json` fails to
    /// write the object.
    pub open spec fn message(self) -> Option<Seq<char>> {
        match serde_json_pretty_object(
            TITLE_KEY@,
            self.title,
            DESCRIPTION_KEY@,
            self.description,
        ) {
            Some(object) => Some(object + "\n"@),
            None => None,
        }
    }
}

impl BrightskyApiError {
    /// The error in words: the JSON object of its title and description,
    /// pretty-printed, on lines of its own.
    pub fn message(&self) -> (text: Option<String>)
        ensures
            text.deep_view() == self@.message(),
    {
        match pretty_object(
            TITLE_KEY,
            self.title.as_str(),
            DESCRIPTION_KEY,
            self.description.as_str(),
        ) {
            Some(mut object) => {
                object.append("\n");
                Some(object)
            },
            None => None,
        }
    }
}

/// Why the backend has no answer: the upstream service reported an error,
/// or it could not be reached.
#[derive(Debug, PartialEq, Eq)]
pub enum BackendError {
    BrightskyError(BrightskyApiError),
    NetworkError(String),
}

/// A [`BackendError`] as a mathematical value.
pub enum BackendErrorView {
    BrightskyError(BrightskyApiErrorView),
    NetworkError(Seq<char>),
}

impl View for BackendError {
    type V = BackendErrorView;

    open spec fn view(&self) -> BackendErrorView {
        match self {
            BackendError::BrightskyError(e) => BackendErrorView::BrightskyError(e@),
            BackendError::NetworkError(e) => BackendErrorView::NetworkError(e@),
        }
    }
}

impl DeepView for BackendError {
    type V = BackendErrorView;

    open spec fn deep_view(&self) -> BackendErrorView {
        self@
    }
}

impl Clone for BackendError {
    fn clone(&self) -> (out: BackendError)
        ensures
            out@ == self@,
    {
        match self {
            BackendError::BrightskyError(e) => BackendError::BrightskyError(e.clone()),
            BackendError::NetworkError(e) => BackendError::NetworkError(e.clone()),
        }
    }
}

impl BackendErrorView {
    /// The error in words: what the upstream service reported, or why it
    /// could not be reached.
    pub open spec fn message(self) -> Option<Seq<char>> {
        match self {
            BackendErrorView::BrightskyError(error) => error.message(),
            BackendErrorView::NetworkError(reason) => Some(reason),
        }
    }
}

impl BackendError {
    /// The error in words: what the upstream service reported, or why it
    /// could not be reached.
    pub fn message(&self) -> (text: Option<String>)
        ensures
            text.deep_view() == self@.message(),
    {
        match self {
            BackendError::BrightskyError(error) => error.message(),
            BackendError::NetworkError(reason) => Some(reason.clone()),
        }
    }
}

impl From<BrightskyApiError> for BackendError {
    fn from(e: BrightskyApiError) -> (out: BackendError)
        ensures
            out == BackendError::BrightskyError(e),
    {
        BackendError::BrightskyError(e)
    }
}

impl vstd::std_specs::convert::FromSpecImpl<BrightskyApiError> for BackendError {
    open spec fn obeys_from_spec() -> bool {
        true
    }

    open spec fn from_spec(e: BrightskyApiError) -> BackendError {
        BackendError::BrightskyError(e)
    }
}

/// The answer of the backend, or the reason why there is none.
pub type BackendResult = Result<BackendResponse, BackendError>;

/// A [`BackendResult`] as a mathematical value.
pub open spec fn backend_result_view(result: BackendResult) -> Result<
    BackendResponseView,
    BackendErrorView,
> {
    match result {
        Ok(response) => Ok(response@),
        Err(error) => Err(error@),
    }
}

/// Where the application stands with the position of the device.
#[derive(Debug, PartialEq, Eq)]
pub enum LocationStatus {
    WaitingForLocation,
    LocationFailed(u16, String),
    LocationRetrieved(Coordinate, Coordinate),
    LocationNotSet,
}

/// A [`LocationStatus`] as a mathematical value.
pub enum LocationStatusView {
    WaitingForLocation,
    LocationFailed(u16, Seq<char>),
    LocationRetrieved(Coordinate, Coordinate),
    LocationNotSet,
}

impl View for LocationStatus {
    type V = LocationStatusView;

    open spec fn view(&self) -> LocationStatusView {
        match self {
            LocationStatus::WaitingForLocation => LocationStatusView::WaitingForLocation,
            LocationStatus::LocationFailed(code, message) => LocationStatusView::LocationFailed(
                *code,
                message@,
            ),
            LocationStatus::LocationRetrieved(lat, lon) => LocationStatusView::LocationRetrieved(
                *lat,
                *lon,
            ),
            LocationStatus::LocationNotSet => LocationStatusView::LocationNotSet,
        }
    }
}

impl DeepView for LocationStatus {
    type V = LocationStatusView;

    open spec fn deep_view(&self) -> LocationStatusView {
        self@
    }
}

impl Clone for LocationStatus {
    fn clone(&self) -> (out: LocationStatus)
        ensures
            out@ == self@,
    {
        match self {
            LocationStatus::WaitingForLocation => LocationStatus::WaitingForLocation,
            LocationStatus::LocationFailed(code, message) => LocationStatus::LocationFailed(
                *code,
                message.clone(),
            ),
            LocationStatus::LocationRetrieved(lat, lon) => LocationStatus::LocationRetrieved(
                *lat,
                *lon,
            ),
            LocationStatus::LocationNotSet => LocationStatus::LocationNotSet,
        }
    }
}

impl LocationStatus {
    /// Whether two statuses are the same: the same kind, with the same
    /// code and message or the same coordinates, bit for bit.
    pub fn same_as(&self, other: &LocationStatus) -> (out: bool)
        ensures
            out == (self@ == other@),
    {
        match (self, other) {
            (LocationStatus::WaitingForLocation, LocationStatus::WaitingForLocation) => true,
            (
                LocationStatus::LocationFailed(code, message),
                LocationStatus::LocationFailed(other_code, other_message),
            ) => *code == *other_code && *message == *other_message,
            (
                LocationStatus::LocationRetrieved(lat, lon),
                LocationStatus::LocationRetrieved(other_lat, other_lon),
            ) => lat.bits == other_lat.bits && lon.bits == other_lon.bits,
            (LocationStatus::LocationNotSet, LocationStatus::LocationNotSet) => true,
            _ => false,
        }
    }
}

/// Whether the user lets the application show notifications.
#[derive(Clone, Copy, Debug, PartialEq, Eq, Structural)]
pub enum NotificationPermissionStatus {
    Granted,
    Denied,
    Default,
    Unsupported,
}

impl NotificationPermissionStatus {
    /// The permission that the browser reports under a name, and
    /// `Unsupported` where it reports no name or one that is not known.
    pub open spec fn spec_from_name(name: Option<Seq<char>>) -> NotificationPermissionStatus {
        if name is None {
            NotificationPermissionStatus::Unsupported
        } else if name.unwrap() == "granted"@ {
            NotificationPermissionStatus::Granted
        } else if name.unwrap() == "denied"@ {
            NotificationPermissionStatus::Denied
        } else if name.unwrap() == "default"@ {
            NotificationPermissionStatus::Default
        } else {
            NotificationPermissionStatus::Unsupported
        }
    }

    /// The permission that the browser reports as `granted`, `denied` or
    /// `default`.
    pub fn from_name(name: Option<&str>) -> (out: NotificationPermissionStatus)
        ensures
            out == NotificationPermissionStatus::spec_from_name(name.deep_view()),
    {
        match name {
            Some(name) => {
                let name = name.to_owned();
                if name == "granted".to_owned() {
                    NotificationPermissionStatus::Granted
                } else if name == "denied".to_owned() {
                    NotificationPermissionStatus::Denied
                } else if name == "default".to_owned() {
                    NotificationPermissionStatus::Default
                } else {
                    NotificationPermissionStatus::Unsupported
                }
            },
            None => NotificationPermissionStatus::Unsupported,
        }
    }
}

/// Where the application stands with the forecast.
#[derive(Debug, PartialEq, Eq)]
pub enum WeatherDataStatus {
    WaitingForWeatherData,
    FetchError(String),
    ParseError(String),
    WeatherDataRetrieved(BackendResult),
}

/// A [`WeatherDataStatus`] as a mathematical value.
pub enum WeatherDataStatusView {
    WaitingForWeatherData,
    FetchError(Seq<char>),
    ParseError(Seq<char>),
    WeatherDataRetrieved(Result<BackendResponseView, BackendErrorView>),
}

impl View for WeatherDataStatus {
    type V = WeatherDataStatusView;

    open spec fn view(&self) -> WeatherDataStatusView {
        match self {
            WeatherDataStatus::WaitingForWeatherData => WeatherDataStatusView::WaitingForWeatherData,
            WeatherDataStatus::FetchError(e) => WeatherDataStatusView::FetchError(e@),
            WeatherDataStatus::ParseError(e) => WeatherDataStatusView::ParseError(e@),
            WeatherDataStatus::WeatherDataRetrieved(result) => {
                WeatherDataStatusView::WeatherDataRetrieved(backend_result_view(*result))
            },
        }
    }
}

impl DeepView for WeatherDataStatus {
    type V = WeatherDataStatusView;

    open spec fn deep_view(&self) -> WeatherDataStatusView {
        self@
    }
}

impl Clone for WeatherDataStatus {
    fn clone(&self) -> (out: WeatherDataStatus)
        ensures
            out@ == self@,
    {
        match self {
            WeatherDataStatus::WaitingForWeatherData => WeatherDataStatus::WaitingForWeatherData,
            WeatherDataStatus::FetchError(e) => WeatherDataStatus::FetchError(e.clone()),
            WeatherDataStatus::ParseError(e) => WeatherDataStatus::ParseError(e.clone()),
            WeatherDataStatus::WeatherDataRetrieved(Ok(response)) => {
                WeatherDataStatus::WeatherDataRetrieved(Ok(response.clone()))
            },
            WeatherDataStatus::WeatherDataRetrieved(Err(error)) => {
                WeatherDataStatus::WeatherDataRetrieved(Err(error.clone()))
            },
        }
    }
}

/// What the status bar shows.
#[derive(Debug, PartialEq, Eq)]
pub enum Status {
    Progress(String),
    Info(String),
    Warning { title: String, body: String },
    Error { title: String, body: String },
}

/// A [`Status`] as a mathematical value.
pub enum StatusView {
    Progress(Seq<char>),
    Info(Seq<char>),
    Warning { title: Seq<char>, body: Seq<char> },
    Error { title: Seq<char>, body: Seq<char> },
}

impl View for Status {
    type V = StatusView;

    open spec fn view(&self) -> StatusView {
        match self {
            Status::Progress(text) => StatusView::Progress(text@),
            Status::Info(text) => StatusView::Info(text@),
            Status::Warning { title, body } => StatusView::Warning { title: title@, body: body@ },
            Status::Error { title, body } => StatusView::Error { title: title@, body: body@ },
        }
    }
}

impl DeepView for Status {
    type V = StatusView;

    open spec fn deep_view(&self) -> StatusView {
        self@
    }
}

impl Clone for Status {
    fn clone(&self) -> (out: Status)
        ensures
            out@ == self@,
    {
        match self {
            Status::Progress(text) => Status::Progress(text.clone()),
            Status::Info(text) => Status::Info(text.clone()),
            Status::Warning { title, body } => Status::Warning {
                title: title.clone(),
                body: body.clone(),
            },
            Status::Error { title, body } => Status::Error {
                title: title.clone(),
                body: body.clone(),
            },
        }
    }
}

} // verus!
