//! The state of the application and what each event does to it.
//!
//! The application itself only carries out commands: it asks the device for
//! its position, keeps values in the browser's storage, requests the
//! forecast and shows notifications. Which command follows from which event,
//! and what the state is afterwards, is decided here.
use crate::common::{
    backend_result_view, BackendResponse, BackendResponseView, BackendResult, ColdPhase,
    ColdPhaseView, Coordinate, Location, LocationStatus, LocationStatusView,
    NotificationPermissionStatus, RecordType, Status, StatusView, Thresholds, WeatherDataStatus,
    WeatherDataStatusView,
};
use crate::temperature::Temperature;
use vstd::prelude::*;
use vstd::string::StringExecFns;

pub mod components;
pub mod frost;
pub mod record;

verus! {

/// The encoding of 5 degrees, the warning threshold where none is stored.
pub const DEFAULT_WARNING_BITS: u32 = 0x40a0_0000;

/// The encoding of 0 degrees, the danger threshold where none is stored.
pub const DEFAULT_DANGER_BITS: u32 = 0x0000_0000;

/// The encoding of 9000 degrees, from which the search for the lowest
/// temperature of a forecast starts.
pub const NOTIFICATION_CEILING_BITS: u32 = 0x460c_a000;

/// The icon of a notification.
pub const NOTIFICATION_ICON: &'static str = "/icon.png";

/// The tag under which notifications replace each other.
pub const NOTIFICATION_TAG: &'static str = "frost";

/// The thresholds where none are stored.
pub open spec fn spec_default_thresholds() -> Thresholds {
    (Temperature { bits: DEFAULT_WARNING_BITS }, Temperature { bits: DEFAULT_DANGER_BITS })
}

/// The thresholds where none are stored: 5 and 0 degrees.
#[verifier::when_used_as_spec(spec_default_thresholds)]
pub fn default_thresholds() -> (out: Thresholds)
    ensures
        out == spec_default_thresholds(),
{
    (Temperature { bits: DEFAULT_WARNING_BITS }, Temperature { bits: DEFAULT_DANGER_BITS })
}

/// A place that the user picked from the suggestions. Only a suggestion
/// comes with a position.
#[derive(Debug, PartialEq, Eq)]
pub struct Place {
    pub name: String,
    pub position: Option<Location>,
}

/// A [`Place`] as a mathematical value.
pub struct PlaceView {
    pub name: Seq<char>,
    pub position: Option<Location>,
}

impl View for Place {
    type V = PlaceView;

    open spec fn view(&self) -> PlaceView {
        PlaceView { name: self.name@, position: self.position }
    }
}

impl Clone for Place {
    fn clone(&self) -> (out: Place)
        ensures
            out@ == self@,
    {
        Place { name: self.name.clone(), position: self.position }
    }
}

/// The state of the application.
#[derive(Debug, PartialEq, Eq)]
pub struct Props {
    pub location: LocationStatus,
    pub weather: WeatherDataStatus,
    pub status: Option<Status>,
    pub notification_permission: NotificationPermissionStatus,
    pub geolocation_supported: bool,
    pub notifications_supported: bool,
    pub location_name: Option<String>,
    pub thresholds: Thresholds,
}

/// [`Props`] as a mathematical value.
pub struct PropsView {
    pub location: LocationStatusView,
    pub weather: WeatherDataStatusView,
    pub status: Option<StatusView>,
    pub notification_permission: NotificationPermissionStatus,
    pub geolocation_supported: bool,
    pub notifications_supported: bool,
    pub location_name: Option<Seq<char>>,
    pub thresholds: Thresholds,
}

impl View for Props {
    type V = PropsView;

    open spec fn view(&self) -> PropsView {
        PropsView {
            location: self.location@,
            weather: self.weather@,
            status: self.status.deep_view(),
            notification_permission: self.notification_permission,
            geolocation_supported: self.geolocation_supported,
            notifications_supported: self.notifications_supported,
            location_name: self.location_name.deep_view(),
            thresholds: self.thresholds,
        }
    }
}

impl Clone for Props {
    fn clone(&self) -> (out: Props)
        ensures
            out@ == self@,
    {
        Props {
            location: self.location.clone(),
            weather: self.weather.clone(),
            status: match &self.status {
                Some(status) => Some(status.clone()),
                None => None,
            },
            notification_permission: self.notification_permission,
            geolocation_supported: self.geolocation_supported,
            notifications_supported: self.notifications_supported,
            location_name: match &self.location_name {
                Some(name) => Some(name.clone()),
                None => None,
            },
            thresholds: self.thresholds,
        }
    }
}

/// An event that reaches the application.
#[derive(Debug, PartialEq, Eq)]
pub enum Msg {
    RequestDeviceLocation,
    LocationUpdate(LocationStatus),
    WeatherUpdate(WeatherDataStatus),
    NotificationPermissionUpdate(NotificationPermissionStatus),
    PlaceSelected(Place),
    Refresh,
}

/// A [`Msg`] as a mathematical value.
pub enum MsgView {
    RequestDeviceLocation,
    LocationUpdate(LocationStatusView),
    WeatherUpdate(WeatherDataStatusView),
    NotificationPermissionUpdate(NotificationPermissionStatus),
    PlaceSelected(PlaceView),
    Refresh,
}

impl View for Msg {
    type V = MsgView;

    open spec fn view(&self) -> MsgView {
        match self {
            Msg::RequestDeviceLocation => MsgView::RequestDeviceLocation,
            Msg::LocationUpdate(status) => MsgView::LocationUpdate(status@),
            Msg::WeatherUpdate(status) => MsgView::WeatherUpdate(status@),
            Msg::NotificationPermissionUpdate(permission) => MsgView::NotificationPermissionUpdate(
                *permission,
            ),
            Msg::PlaceSelected(place) => MsgView::PlaceSelected(place@),
            Msg::Refresh => MsgView::Refresh,
        }
    }
}

impl DeepView for Msg {
    type V = MsgView;

    open spec fn deep_view(&self) -> MsgView {
        self@
    }
}

impl Clone for Msg {
    fn clone(&self) -> (out: Msg)
        ensures
            out@ == self@,
    {
        match self {
            Msg::RequestDeviceLocation => Msg::RequestDeviceLocation,
            Msg::LocationUpdate(status) => Msg::LocationUpdate(status.clone()),
            Msg::WeatherUpdate(status) => Msg::WeatherUpdate(status.clone()),
            Msg::NotificationPermissionUpdate(permission) => Msg::NotificationPermissionUpdate(
                *permission,
            ),
            Msg::PlaceSelected(place) => Msg::PlaceSelected(place.clone()),
            Msg::Refresh => Msg::Refresh,
        }
    }
}

/// What the application is to do after an event.
#[derive(Debug, PartialEq, Eq)]
pub enum Command {
    /// Ask the device for its position.
    GetLocation,
    /// Keep the position in the browser's storage, under
    /// [`LOCATION_KEY`](crate::common::LOCATION_KEY).
    StoreLocation(Coordinate, Coordinate),
    /// Keep the thresholds in the browser's storage, under
    /// [`THRESHOLD_KEY`](crate::common::THRESHOLD_KEY).
    StoreThresholds(Temperature, Temperature),
    /// Request the forecast for a position from the backend.
    FetchWeather {
        lat: Coordinate,
        lon: Coordinate,
        warning_threshold: Temperature,
        danger_threshold: Temperature,
    },
    /// Tell the user how cold it will get.
    ShowNotification { record_type: RecordType, temp_min: Temperature },
    /// Hand a message to the application as its next event.
    SendMessage(Msg),
}

/// A [`Command`] as a mathematical value.
pub enum CommandView {
    GetLocation,
    StoreLocation(Coordinate, Coordinate),
    StoreThresholds(Temperature, Temperature),
    FetchWeather {
        lat: Coordinate,
        lon: Coordinate,
        warning_threshold: Temperature,
        danger_threshold: Temperature,
    },
    ShowNotification { record_type: RecordType, temp_min: Temperature },
    SendMessage(MsgView),
}

impl View for Command {
    type V = CommandView;

    open spec fn view(&self) -> CommandView {
        match self {
            Command::GetLocation => CommandView::GetLocation,
            Command::StoreLocation(lat, lon) => CommandView::StoreLocation(*lat, *lon),
            Command::StoreThresholds(warning, danger) => CommandView::StoreThresholds(
                *warning,
                *danger,
            ),
            Command::FetchWeather { lat, lon, warning_threshold, danger_threshold } => {
                CommandView::FetchWeather {
                    lat: *lat,
                    lon: *lon,
                    warning_threshold: *warning_threshold,
                    danger_threshold: *danger_threshold,
                }
            },
            Command::ShowNotification { record_type, temp_min } => CommandView::ShowNotification {
                record_type: *record_type,
                temp_min: *temp_min,
            },
            Command::SendMessage(msg) => CommandView::SendMessage(msg@),
        }
    }
}

impl Clone for Command {
    fn clone(&self) -> (out: Command)
        ensures
            out@ == self@,
    {
        match self {
            Command::GetLocation => Command::GetLocation,
            Command::StoreLocation(lat, lon) => Command::StoreLocation(*lat, *lon),
            Command::StoreThresholds(warning, danger) => Command::StoreThresholds(
                *warning,
                *danger,
            ),
            Command::FetchWeather { lat, lon, warning_threshold, danger_threshold } => {
                Command::FetchWeather {
                    lat: *lat,
                    lon: *lon,
                    warning_threshold: *warning_threshold,
                    danger_threshold: *danger_threshold,
                }
            },
            Command::ShowNotification { record_type, temp_min } => Command::ShowNotification {
                record_type: *record_type,
                temp_min: *temp_min,
            },
            Command::SendMessage(msg) => Command::SendMessage(msg.clone()),
        }
    }
}

impl DeepView for Command {
    type V = CommandView;

    open spec fn deep_view(&self) -> CommandView {
        self@
    }
}

/// The outcome of an event: whether the screen must be drawn again, and
/// what the application is to do, in this order.
#[derive(Debug, PartialEq, Eq)]
pub struct Update {
    pub should_render: bool,
    pub commands: Vec<Command>,
}

/// Whether some phase is a `Danger` phase.
pub open spec fn any_danger(phases: Seq<ColdPhaseView>) -> bool {
    exists|i: int| 0 <= i < phases.len() && (#[trigger] phases[i]).record_type == RecordType::Danger
}

/// The severity of a forecast: `Danger` where some phase is, else
/// `Warning`.
pub open spec fn worst_record_type(phases: Seq<ColdPhaseView>) -> RecordType {
    if any_danger(phases) {
        RecordType::Danger
    } else {
        RecordType::Warning
    }
}

/// The lowest minimum of the phases of a forecast, and 9000 degrees where
/// there is no phase.
pub open spec fn lowest_min_temp(phases: Seq<ColdPhaseView>) -> Temperature
    decreases phases.len(),
{
    if phases.len() == 0 {
        Temperature { bits: NOTIFICATION_CEILING_BITS }
    } else {
        lowest_min_temp(phases.drop_last()).min(&phases.last().min_temp)
    }
}

/// The lowest minimum is a number; it is at most 9000 degrees and at most
/// the minimum of every phase whose minimum is a number; and it is 9000
/// degrees or the minimum of one of the phases.
pub proof fn lemma_lowest_min_temp_is_lowest(phases: Seq<ColdPhaseView>)
    ensures
        !lowest_min_temp(phases).is_nan(),
        lowest_min_temp(phases).le(&Temperature { bits: NOTIFICATION_CEILING_BITS }),
        forall|i: int|
            0 <= i < phases.len() && !(#[trigger] phases[i]).min_temp.is_nan() ==> lowest_min_temp(
                phases,
            ).le(&phases[i].min_temp),
        lowest_min_temp(phases) == (Temperature { bits: NOTIFICATION_CEILING_BITS }) || exists|
            i: int,
        |
            0 <= i < phases.len() && (#[trigger] phases[i]).min_temp == lowest_min_temp(phases),
    decreases phases.len(),
{
    if phases.len() > 0 {
        let earlier = phases.drop_last();
        lemma_lowest_min_temp_is_lowest(earlier);
        let before = lowest_min_temp(earlier);
        let lowest = lowest_min_temp(phases);
        assert forall|i: int|
            0 <= i < phases.len() && !(#[trigger] phases[i]).min_temp.is_nan() implies lowest.le(
            &phases[i].min_temp,
        ) by {
            if i < earlier.len() {
                assert(earlier[i] == phases[i]);
            }
        }
        if lowest == before {
            if before != (Temperature { bits: NOTIFICATION_CEILING_BITS }) {
                let i = choose|i: int|
                    0 <= i < earlier.len() && (#[trigger] earlier[i]).min_temp == before;
                assert(phases[i] == earlier[i]);
            }
        } else {
            assert(phases[phases.len() - 1].min_temp == lowest);
        }
    }
}

/// The notification that sums up the phases of a forecast.
pub open spec fn notification_of(phases: Seq<ColdPhaseView>) -> CommandView {
    CommandView::ShowNotification {
        record_type: worst_record_type(phases),
        temp_min: lowest_min_temp(phases),
    }
}

/// The notification that sums up the phases of a forecast: as severe as its
/// most severe phase, with the lowest temperature of all phases.
pub fn send_weather_notification(data: &Vec<ColdPhase>) -> (command: Command)
    ensures
        command@ == notification_of(data.deep_view()),
{
    let ghost all = data.deep_view();
    let mut record_type = RecordType::Warning;
    let mut temp_min = Temperature { bits: NOTIFICATION_CEILING_BITS };
    let mut i: usize = 0;
    assert(all.take(0) =~= Seq::<ColdPhaseView>::empty());
    while i < data.len()
        invariant
            i <= data.len(),
            all == data.deep_view(),
            record_type == worst_record_type(all.take(i as int)),
            temp_min == lowest_min_temp(all.take(i as int)),
        decreases data.len() - i,
    {
        let ghost seen = all.take(i as int);
        let ghost longer = all.take(i + 1);
        proof {
            assert(longer.drop_last() =~= seen);
            assert(longer.last() == data[i as int]@);
            if any_danger(seen) {
                let k = choose|k: int|
                    0 <= k < seen.len() && (#[trigger] seen[k]).record_type == RecordType::Danger;
                assert(longer[k] == seen[k]);
            }
            if any_danger(longer) {
                let k = choose|k: int|
                    0 <= k < longer.len() && (#[trigger] longer[k]).record_type
                        == RecordType::Danger;
                if k < seen.len() {
                    assert(seen[k] == longer[k]);
                }
            }
        }
        record_type = record_type.join(data[i].record_type);
        temp_min = temp_min.min(&data[i].min_temp);
        i = i + 1;
    }
    assert(all.take(i as int) =~= all);
    Command::ShowNotification { record_type, temp_min }
}

/// What a fresh forecast makes the application tell the user: nothing where
/// there is no cold phase or the user has not granted notifications, and
/// else the notification that sums up the phases.
pub open spec fn weather_notification(
    permission: NotificationPermissionStatus,
    data: BackendResponseView,
) -> Seq<CommandView> {
    if data.cold_phases.len() > 0 && permission == NotificationPermissionStatus::Granted {
        seq![notification_of(data.cold_phases)]
    } else {
        Seq::empty()
    }
}

/// The notification for a fresh forecast, if one is due.
pub fn try_send_weather_notification(
    permission: NotificationPermissionStatus,
    data: &BackendResponse,
) -> (command: Option<Command>)
    ensures
        match command {
            Some(command) => weather_notification(permission, data@) == seq![command@],
            None => weather_notification(permission, data@) == Seq::<CommandView>::empty(),
        },
{
    if data.cold_phases.len() == 0 {
        return None;
    }
    match permission {
        NotificationPermissionStatus::Granted => Some(
            send_weather_notification(&data.cold_phases),
        ),
        _ => None,
    }
}

/// The request for a forecast that a known position calls for.
pub open spec fn weather_check(
    location: LocationStatusView,
    thresholds: Thresholds,
) -> Seq<CommandView> {
    match location {
        LocationStatusView::LocationRetrieved(lat, lon) => seq![
            CommandView::FetchWeather {
                lat,
                lon,
                warning_threshold: thresholds.0,
                danger_threshold: thresholds.1,
            },
        ],
        _ => Seq::empty(),
    }
}

/// Requests the forecast where the position is known.
pub fn check_for_weather_update(props: &Props) -> (command: Option<Command>)
    ensures
        match command {
            Some(command) => weather_check(props@.location, props.thresholds) == seq![command@],
            None => weather_check(props@.location, props.thresholds) == Seq::<
                CommandView,
            >::empty(),
        },
{
    match &props.location {
        LocationStatus::LocationRetrieved(lat, lon) => Some(
            Command::FetchWeather {
                lat: *lat,
                lon: *lon,
                warning_threshold: props.thresholds.0,
                danger_threshold: props.thresholds.1,
            },
        ),
        _ => None,
    }
}

/// The status line after news of the position.
pub open spec fn status_after_location(
    location: LocationStatusView,
    before: Option<StatusView>,
) -> Option<StatusView> {
    match location {
        LocationStatusView::WaitingForLocation => Some(
            StatusView::Progress("Waiting for location service..."@),
        ),
        LocationStatusView::LocationFailed(_, message) => Some(
            StatusView::Error { title: "Error getting location:"@, body: message },
        ),
        _ => before,
    }
}

/// The status line after news of the forecast. A forecast, or the backend's
/// refusal, clears the line where the application was waiting for it.
pub open spec fn status_after_weather(
    weather: WeatherDataStatusView,
    waiting: bool,
    before: Option<StatusView>,
) -> Option<StatusView> {
    match weather {
        WeatherDataStatusView::WaitingForWeatherData => Some(
            StatusView::Progress("Fetching weather data..."@),
        ),
        WeatherDataStatusView::FetchError(message) => Some(
            StatusView::Error { title: "Error fetching weather data:"@, body: message },
        ),
        WeatherDataStatusView::ParseError(message) => Some(
            StatusView::Error { title: "Received invalid weather data:"@, body: message },
        ),
        WeatherDataStatusView::WeatherDataRetrieved(_) => if waiting {
            None
        } else {
            before
        },
    }
}

/// The name of the place after news of the forecast: a forecast names the
/// place where it has no name yet.
pub open spec fn name_after_weather(
    weather: WeatherDataStatusView,
    before: Option<Seq<char>>,
) -> Option<Seq<char>> {
    match weather {
        WeatherDataStatusView::WeatherDataRetrieved(Ok(data)) => if before is None {
            data.location
        } else {
            before
        },
        _ => before,
    }
}

/// The state after an event.
pub open spec fn updated(props: PropsView, msg: MsgView) -> PropsView {
    match msg {
        MsgView::RequestDeviceLocation => PropsView {
            location_name: None,
            location: LocationStatusView::WaitingForLocation,
            status: Some(StatusView::Progress("Requesting location from device..."@)),
            ..props
        },
        MsgView::LocationUpdate(location) => PropsView {
            location,
            location_name: if location is WaitingForLocation {
                None
            } else {
                props.location_name
            },
            status: status_after_location(location, props.status),
            ..props
        },
        MsgView::WeatherUpdate(weather) => PropsView {
            weather,
            status: status_after_weather(
                weather,
                props.weather is WaitingForWeatherData,
                props.status,
            ),
            location_name: name_after_weather(weather, props.location_name),
            ..props
        },
        MsgView::NotificationPermissionUpdate(permission) => PropsView {
            notification_permission: permission,
            ..props
        },
        MsgView::PlaceSelected(place) => if place.position is Some {
            PropsView { location_name: Some(place.name), ..props }
        } else {
            PropsView {
                status: Some(
                    StatusView::Error {
                        title: "Invalid location"@,
                        body: "Please select a suggestion from the dropdown list!"@,
                    },
                ),
                ..props
            }
        },
        MsgView::Refresh => props,
    }
}

/// What the application is to do after an event, in this order.
pub open spec fn commands(props: PropsView, msg: MsgView) -> Seq<CommandView> {
    match msg {
        MsgView::RequestDeviceLocation => seq![CommandView::GetLocation],
        MsgView::LocationUpdate(LocationStatusView::LocationRetrieved(lat, lon)) => seq![
            CommandView::StoreLocation(lat, lon),
        ] + weather_check(LocationStatusView::LocationRetrieved(lat, lon), props.thresholds),
        MsgView::WeatherUpdate(WeatherDataStatusView::WeatherDataRetrieved(Ok(data))) => {
            weather_notification(props.notification_permission, data)
        },
        MsgView::PlaceSelected(place) => match place.position {
            Some((lat, lon)) => seq![
                CommandView::SendMessage(
                    MsgView::LocationUpdate(LocationStatusView::LocationRetrieved(lat, lon)),
                ),
            ],
            None => Seq::empty(),
        },
        MsgView::Refresh => weather_check(props.location, props.thresholds),
        _ => Seq::empty(),
    }
}

/// Whether the screen must be drawn again after an event.
pub open spec fn should_render(msg: MsgView) -> bool {
    match msg {
        MsgView::RequestDeviceLocation => true,
        MsgView::LocationUpdate(_) => true,
        MsgView::WeatherUpdate(_) => true,
        MsgView::PlaceSelected(place) => place.position is None,
        MsgView::Refresh => false,
        MsgView::NotificationPermissionUpdate(_) => false,
    }
}

/// Takes an event: moves the state on and says what the application is to
/// do.
pub fn update(props: &mut Props, msg: Msg) -> (out: Update)
    ensures
        final(props)@ == updated(old(props)@, msg@),
        out.commands.deep_view() == commands(old(props)@, msg@),
        out.should_render == should_render(msg@),
{
    let mut commands: Vec<Command> = Vec::new();
    assert(commands.deep_view() =~= Seq::<CommandView>::empty());
    let mut should_render = true;
    match msg {
        Msg::RequestDeviceLocation => {
            props.location_name = None;
            props.location = LocationStatus::WaitingForLocation;
            props.status = Some(Status::Progress("Requesting location from device...".to_owned()));
            commands.push(Command::GetLocation);
            assert(commands.deep_view() =~= seq![CommandView::GetLocation]);
        },
        Msg::LocationUpdate(location) => {
            match &location {
                LocationStatus::WaitingForLocation => {
                    props.location_name = None;
                    props.status = Some(
                        Status::Progress("Waiting for location service...".to_owned()),
                    );
                },
                LocationStatus::LocationFailed(_, message) => {
                    props.status = Some(
                        Status::Error {
                            title: "Error getting location:".to_owned(),
                            body: message.clone(),
                        },
                    );
                },
                LocationStatus::LocationRetrieved(lat, lon) => {
                    commands.push(Command::StoreLocation(*lat, *lon));
                    commands.push(
                        Command::FetchWeather {
                            lat: *lat,
                            lon: *lon,
                            warning_threshold: props.thresholds.0,
                            danger_threshold: props.thresholds.1,
                        },
                    );
                    assert(commands.deep_view() =~= seq![CommandView::StoreLocation(*lat, *lon)]
                        + weather_check(location@, props.thresholds));
                },
                LocationStatus::LocationNotSet => {},
            }
            props.location = location;
        },
        Msg::WeatherUpdate(weather) => {
            match &weather {
                WeatherDataStatus::WaitingForWeatherData => {
                    props.status = Some(Status::Progress("Fetching weather data...".to_owned()));
                },
                WeatherDataStatus::FetchError(message) => {
                    props.status = Some(
                        Status::Error {
                            title: "Error fetching weather data:".to_owned(),
                            body: message.clone(),
                        },
                    );
                },
                WeatherDataStatus::ParseError(message) => {
                    props.status = Some(
                        Status::Error {
                            title: "Received invalid weather data:".to_owned(),
                            body: message.clone(),
                        },
                    );
                },
                WeatherDataStatus::WeatherDataRetrieved(result) => {
                    if let WeatherDataStatus::WaitingForWeatherData = &props.weather {
                        props.status = None;
                    }
                    if let Ok(data) = result {
                        if let Some(command) = try_send_weather_notification(
                            props.notification_permission,
                            data,
                        ) {
                            commands.push(command);
                            assert(commands.deep_view() =~= seq![command@]);
                        }
                        if props.location_name.is_none() {
                            props.location_name = match &data.location {
                                Some(name) => Some(name.clone()),
                                None => None,
                            };
                        }
                    }
                },
            }
            props.weather = weather;
        },
        Msg::PlaceSelected(place) => {
            match place.position {
                Some((lat, lon)) => {
                    props.location_name = Some(place.name);
                    commands.push(
                        Command::SendMessage(
                            Msg::LocationUpdate(LocationStatus::LocationRetrieved(lat, lon)),
                        ),
                    );
                    assert(commands.deep_view() =~= seq![
                        CommandView::SendMessage(
                            MsgView::LocationUpdate(
                                LocationStatusView::LocationRetrieved(lat, lon),
                            ),
                        ),
                    ]);
                    should_render = false;
                },
                None => {
                    props.status = Some(
                        Status::Error {
                            title: "Invalid location".to_owned(),
                            body: "Please select a suggestion from the dropdown list!".to_owned(),
                        },
                    );
                },
            }
        },
        Msg::Refresh => {
            if let Some(command) = check_for_weather_update(props) {
                commands.push(command);
                assert(commands.deep_view() =~= seq![command@]);
            }
            should_render = false;
        },
        Msg::NotificationPermissionUpdate(permission) => {
            props.notification_permission = permission;
            should_render = false;
        },
    }
    Update { should_render, commands }
}

/// The state in which the application starts.
pub open spec fn initial_props(
    stored_location: Option<Location>,
    stored_thresholds: Option<Thresholds>,
    geolocation_supported: bool,
    notifications_supported: bool,
) -> PropsView {
    PropsView {
        location: match stored_location {
            Some((lat, lon)) => LocationStatusView::LocationRetrieved(lat, lon),
            None => LocationStatusView::LocationNotSet,
        },
        weather: WeatherDataStatusView::WaitingForWeatherData,
        status: Some(
            StatusView::Info(
                if stored_location is Some {
                    "Fetching weather data..."@
                } else {
                    "Location not set."@
                },
            ),
        ),
        notification_permission: NotificationPermissionStatus::Default,
        geolocation_supported,
        notifications_supported,
        location_name: None,
        thresholds: match stored_thresholds {
            Some(thresholds) => thresholds,
            None => default_thresholds(),
        },
    }
}

/// What the application is to do when it starts: where no thresholds were
/// stored, or none that could be read, the default ones are.
pub open spec fn initial_commands(stored_thresholds: Option<Thresholds>) -> Seq<CommandView> {
    if stored_thresholds is None {
        seq![CommandView::StoreThresholds(default_thresholds().0, default_thresholds().1)]
    } else {
        Seq::empty()
    }
}

/// Starts the application from what the browser's storage held:
/// `stored_location` and `stored_thresholds` are `None` where nothing was
/// stored or what was stored could not be read.
pub fn launch(
    stored_location: Option<Location>,
    stored_thresholds: Option<Thresholds>,
    geolocation_supported: bool,
    notifications_supported: bool,
) -> (out: (Props, Vec<Command>))
    ensures
        out.0@ == initial_props(
            stored_location,
            stored_thresholds,
            geolocation_supported,
            notifications_supported,
        ),
        out.1.deep_view() == initial_commands(stored_thresholds),
{
    let mut commands: Vec<Command> = Vec::new();
    assert(commands.deep_view() =~= Seq::<CommandView>::empty());
    let location = match stored_location {
        Some((lat, lon)) => LocationStatus::LocationRetrieved(lat, lon),
        None => LocationStatus::LocationNotSet,
    };
    let thresholds = match stored_thresholds {
        Some(thresholds) => thresholds,
        None => {
            let thresholds = default_thresholds();
            commands.push(Command::StoreThresholds(thresholds.0, thresholds.1));
            assert(commands.deep_view() =~= seq![
                CommandView::StoreThresholds(thresholds.0, thresholds.1),
            ]);
            thresholds
        },
    };
    let status = match stored_location {
        Some(_) => Some(Status::Info("Fetching weather data...".to_owned())),
        None => Some(Status::Info("Location not set.".to_owned())),
    };
    let props = Props {
        location,
        weather: WeatherDataStatus::WaitingForWeatherData,
        status,
        notification_permission: NotificationPermissionStatus::Default,
        geolocation_supported,
        notifications_supported,
        location_name: None,
        thresholds,
    };
    (props, commands)
}

/// The event that follows a request for the forecast: the application waits
/// for the answer where the request could be sent, and has a fetch error
/// where it could not.
pub fn fetch_started(failure: Option<String>) -> (msg: Msg)
    ensures
        msg@ == MsgView::WeatherUpdate(
            match failure {
                Some(message) => WeatherDataStatusView::FetchError(message@),
                None => WeatherDataStatusView::WaitingForWeatherData,
            },
        ),
{
    match failure {
        Some(message) => Msg::WeatherUpdate(WeatherDataStatus::FetchError(message)),
        None => Msg::WeatherUpdate(WeatherDataStatus::WaitingForWeatherData),
    }
}

/// The event that the answer to a request for the forecast amounts to.
///
/// `body` is `Err` with the reason where the request failed. Where there is
/// a body, it holds the backend's answer or, as `Err`, why the body could
/// not be read as one. That the backend answered with an error of its own
/// is a forecast retrieved, not a failure to fetch or to read.
pub fn fetch_weather_data(body: Result<Result<BackendResult, String>, String>) -> (msg: Msg)
    ensures
        msg@ == MsgView::WeatherUpdate(
            match body {
                Ok(Ok(result)) => WeatherDataStatusView::WeatherDataRetrieved(
                    backend_result_view(result),
                ),
                Ok(Err(message)) => WeatherDataStatusView::ParseError(message@),
                Err(message) => WeatherDataStatusView::FetchError(message@),
            },
        ),
{
    let status = match body {
        Ok(Ok(result)) => WeatherDataStatus::WeatherDataRetrieved(result),
        Ok(Err(message)) => WeatherDataStatus::ParseError(message),
        Err(message) => WeatherDataStatus::FetchError(message),
    };
    Msg::WeatherUpdate(status)
}

/// The address under which the backend has the forecast for a position
/// under two thresholds.
pub open spec fn spec_weather_uri(
    lat: Seq<char>,
    lon: Seq<char>,
    warning_threshold: Seq<char>,
    danger_threshold: Seq<char>,
) -> Seq<char> {
    "/weather?lat="@ + lat + "&lon="@ + lon + "&warning_threshold="@ + warning_threshold
        + "&danger_threshold="@ + danger_threshold
}

/// The address under which the backend has the forecast: a query of
/// latitude, longitude and the two thresholds, each as the caller wrote it.
pub fn weather_uri(lat: &str, lon: &str, warning_threshold: &str, danger_threshold: &str) -> (uri:
    String)
    ensures
        uri@ == spec_weather_uri(lat@, lon@, warning_threshold@, danger_threshold@),
{
    let mut uri = String::from_str("/weather?lat=");
    uri.append(lat);
    uri.append("&lon=");
    uri.append(lon);
    uri.append("&warning_threshold=");
    uri.append(warning_threshold);
    uri.append("&danger_threshold=");
    uri.append(danger_threshold);
    uri
}

} // verus!
