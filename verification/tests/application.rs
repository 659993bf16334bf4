use frost::backend::parse_response;
use frost::common::{
    BackendError, BackendResponse, BackendResult, BrightskyApiError, ColdPhase, Coordinate,
    LocationStatus, NotificationPermissionStatus, RecordType, Sample, Status, WeatherDataStatus,
    LOCATION_KEY, THRESHOLD_KEY,
};
use frost::frontend::components::frost::{view as panel, Panel};
use frost::frontend::components::header::{location_button_disabled, notifications_icon};
use frost::frontend::components::place_picker::{
    rendered, update as pick, view as field, Field, Msg as Picker,
};
use frost::frontend::components::status::{class, update as show, Msg as Shown};
use frost::frontend::frost::{
    change, create, update as panel_update, view as own_panel, Msg as PanelMsg, Props as PanelProps,
};
use frost::frontend::{
    check_for_weather_update, default_thresholds, fetch_started, fetch_weather_data, launch,
    send_weather_notification, try_send_weather_notification, update, Command, Msg, Place, Props,
    Update, NOTIFICATION_CEILING_BITS, NOTIFICATION_ICON, NOTIFICATION_TAG,
};
use frost::temperature::Temperature;
use frost::time::Timestamp;

fn celsius(value: f32) -> Temperature {
    Temperature::from_bits(value.to_bits())
}

fn degrees(value: f32) -> Coordinate {
    Coordinate { bits: value.to_bits() }
}

fn phase(min: f32, record_type: RecordType) -> ColdPhase {
    ColdPhase {
        location: "Münster/Osnabrück".to_string(),
        min_temp: celsius(min),
        start: Timestamp { seconds: 1_587_434_400, nanos: 0, offset: 7_200 },
        end: Timestamp { seconds: 1_587_452_400, nanos: 0, offset: 7_200 },
        record_type,
    }
}

fn response(phases: Vec<ColdPhase>) -> BackendResponse {
    BackendResponse { location: Some("Münster/Osnabrück".to_string()), cold_phases: phases }
}

fn props() -> Props {
    Props {
        location: LocationStatus::LocationNotSet,
        weather: WeatherDataStatus::WaitingForWeatherData,
        status: Some(Status::Info("Location not set.".to_string())),
        notification_permission: NotificationPermissionStatus::Default,
        geolocation_supported: true,
        notifications_supported: true,
        location_name: None,
        thresholds: (celsius(5.0), celsius(0.0)),
    }
}

fn fetch(lat: f32, lon: f32) -> Command {
    Command::FetchWeather {
        lat: degrees(lat),
        lon: degrees(lon),
        warning_threshold: celsius(5.0),
        danger_threshold: celsius(0.0),
    }
}

#[test]
fn the_defaults_are_five_and_zero_degrees() {
    assert_eq!(default_thresholds(), (celsius(5.0), celsius(0.0)));
    assert_eq!(NOTIFICATION_CEILING_BITS, 9000f32.to_bits());
    assert_eq!(LOCATION_KEY, "location");
    assert_eq!(THRESHOLD_KEY, "thresholds");
    assert_eq!(NOTIFICATION_ICON, "/icon.png");
    assert_eq!(NOTIFICATION_TAG, "frost");
}

#[test]
fn launching_without_anything_stored() {
    let (state, commands) = launch(None, None, true, false);
    assert_eq!(
        state,
        Props {
            location: LocationStatus::LocationNotSet,
            weather: WeatherDataStatus::WaitingForWeatherData,
            status: Some(Status::Info("Location not set.".to_string())),
            notification_permission: NotificationPermissionStatus::Default,
            geolocation_supported: true,
            notifications_supported: false,
            location_name: None,
            thresholds: (celsius(5.0), celsius(0.0)),
        }
    );
    assert_eq!(commands, vec![Command::StoreThresholds(celsius(5.0), celsius(0.0))]);
}

#[test]
fn launching_with_position_and_thresholds_stored() {
    let stored = (celsius(3.0), celsius(-2.0));
    let (state, commands) = launch(Some((degrees(52.1), degrees(7.7))), Some(stored), false, true);
    assert_eq!(state.location, LocationStatus::LocationRetrieved(degrees(52.1), degrees(7.7)));
    assert_eq!(state.status, Some(Status::Info("Fetching weather data...".to_string())));
    assert_eq!(state.thresholds, stored);
    assert!(!state.geolocation_supported);
    assert!(state.notifications_supported);
    assert!(commands.is_empty());
}

#[test]
fn asking_the_device_for_its_position() {
    let mut state = props();
    state.location_name = Some("Münster".to_string());
    let out = update(&mut state, Msg::RequestDeviceLocation);
    assert_eq!(out, Update { should_render: true, commands: vec![Command::GetLocation] });
    assert_eq!(state.location, LocationStatus::WaitingForLocation);
    assert_eq!(state.location_name, None);
    assert_eq!(
        state.status,
        Some(Status::Progress("Requesting location from device...".to_string()))
    );
}

#[test]
fn a_position_is_stored_and_its_forecast_requested() {
    let mut state = props();
    let found = LocationStatus::LocationRetrieved(degrees(52.1344), degrees(7.6969));
    let out = update(&mut state, Msg::LocationUpdate(found.clone()));
    assert!(out.should_render);
    assert_eq!(
        out.commands,
        vec![Command::StoreLocation(degrees(52.1344), degrees(7.6969)), fetch(52.1344, 7.6969)]
    );
    assert_eq!(state.location, found);
    // The status line stays as it was.
    assert_eq!(state.status, Some(Status::Info("Location not set.".to_string())));
}

#[test]
fn waiting_for_the_position_clears_the_name() {
    let mut state = props();
    state.location_name = Some("Münster".to_string());
    let out = update(&mut state, Msg::LocationUpdate(LocationStatus::WaitingForLocation));
    assert_eq!(out, Update { should_render: true, commands: vec![] });
    assert_eq!(state.location_name, None);
    assert_eq!(state.status, Some(Status::Progress("Waiting for location service...".to_string())));
}

#[test]
fn a_failed_position_is_reported() {
    let mut state = props();
    state.location_name = Some("Münster".to_string());
    let failed = LocationStatus::LocationFailed(1, "denied".to_string());
    let out = update(&mut state, Msg::LocationUpdate(failed.clone()));
    assert_eq!(out, Update { should_render: true, commands: vec![] });
    assert_eq!(state.location, failed);
    assert_eq!(state.location_name, Some("Münster".to_string()));
    assert_eq!(
        state.status,
        Some(Status::Error {
            title: "Error getting location:".to_string(),
            body: "denied".to_string()
        })
    );
}

#[test]
fn an_unset_position_changes_the_position_only() {
    let mut state = props();
    state.location = LocationStatus::WaitingForLocation;
    let before = state.clone();
    let out = update(&mut state, Msg::LocationUpdate(LocationStatus::LocationNotSet));
    assert_eq!(out, Update { should_render: true, commands: vec![] });
    assert_eq!(state, Props { location: LocationStatus::LocationNotSet, ..before });
}

#[test]
fn news_of_the_forecast_is_shown_in_the_status_line() {
    let mut state = props();
    let out = update(&mut state, Msg::WeatherUpdate(WeatherDataStatus::WaitingForWeatherData));
    assert_eq!(out, Update { should_render: true, commands: vec![] });
    assert_eq!(state.status, Some(Status::Progress("Fetching weather data...".to_string())));

    update(&mut state, Msg::WeatherUpdate(WeatherDataStatus::FetchError("offline".to_string())));
    assert_eq!(state.weather, WeatherDataStatus::FetchError("offline".to_string()));
    assert_eq!(
        state.status,
        Some(Status::Error {
            title: "Error fetching weather data:".to_string(),
            body: "offline".to_string()
        })
    );

    update(&mut state, Msg::WeatherUpdate(WeatherDataStatus::ParseError("eof".to_string())));
    assert_eq!(
        state.status,
        Some(Status::Error {
            title: "Received invalid weather data:".to_string(),
            body: "eof".to_string()
        })
    );
}

#[test]
fn a_forecast_clears_the_status_line_of_one_who_waited() {
    let mut state = props();
    let data = WeatherDataStatus::WeatherDataRetrieved(Ok(response(vec![])));
    let out = update(&mut state, Msg::WeatherUpdate(data.clone()));
    assert_eq!(out, Update { should_render: true, commands: vec![] });
    assert_eq!(state.status, None);
    assert_eq!(state.weather, data);
    assert_eq!(state.location_name, Some("Münster/Osnabrück".to_string()));
}

#[test]
fn a_forecast_leaves_the_status_line_of_one_who_did_not_wait() {
    let mut state = props();
    state.weather = WeatherDataStatus::FetchError("offline".to_string());
    state.location_name = Some("Home".to_string());
    let data = WeatherDataStatus::WeatherDataRetrieved(Ok(response(vec![])));
    update(&mut state, Msg::WeatherUpdate(data));
    assert_eq!(state.status, Some(Status::Info("Location not set.".to_string())));
    assert_eq!(state.location_name, Some("Home".to_string()));
}

#[test]
fn an_error_of_the_backend_is_a_forecast_retrieved() {
    let mut state = props();
    let error = BackendError::NetworkError("upstream down".to_string());
    let data = WeatherDataStatus::WeatherDataRetrieved(Err(error));
    let out = update(&mut state, Msg::WeatherUpdate(data.clone()));
    assert_eq!(out, Update { should_render: true, commands: vec![] });
    assert_eq!(state.status, None);
    assert_eq!(state.weather, data);
    assert_eq!(state.location_name, None);
}

#[test]
fn cold_phases_are_notified_of_where_permitted() {
    let phases = vec![phase(3.0, RecordType::Warning), phase(-1.5, RecordType::Danger)];
    let data = WeatherDataStatus::WeatherDataRetrieved(Ok(response(phases)));

    let mut state = props();
    let out = update(&mut state, Msg::WeatherUpdate(data.clone()));
    assert!(out.commands.is_empty());

    let mut state = props();
    state.notification_permission = NotificationPermissionStatus::Granted;
    let out = update(&mut state, Msg::WeatherUpdate(data));
    assert_eq!(
        out.commands,
        vec![Command::ShowNotification {
            record_type: RecordType::Danger,
            temp_min: celsius(-1.5)
        }]
    );
}

#[test]
fn no_cold_phase_is_not_notified_of() {
    let granted = NotificationPermissionStatus::Granted;
    assert_eq!(try_send_weather_notification(granted, &response(vec![])), None);
    let one = response(vec![phase(2.0, RecordType::Warning)]);
    for denied in [
        NotificationPermissionStatus::Denied,
        NotificationPermissionStatus::Default,
        NotificationPermissionStatus::Unsupported,
    ] {
        assert_eq!(try_send_weather_notification(denied, &one), None);
    }
    assert_eq!(
        try_send_weather_notification(granted, &one),
        Some(Command::ShowNotification {
            record_type: RecordType::Warning,
            temp_min: celsius(2.0)
        })
    );
}

#[test]
fn a_notification_sums_the_phases_up() {
    let warnings =
        vec![phase(4.0, RecordType::Warning), phase(1.0, RecordType::Warning), phase(2.0, RecordType::Warning)];
    assert_eq!(
        send_weather_notification(&warnings),
        Command::ShowNotification { record_type: RecordType::Warning, temp_min: celsius(1.0) }
    );
    let hot = vec![phase(9500.0, RecordType::Danger)];
    assert_eq!(
        send_weather_notification(&hot),
        Command::ShowNotification { record_type: RecordType::Danger, temp_min: celsius(9000.0) }
    );
    assert_eq!(
        send_weather_notification(&Vec::new()),
        Command::ShowNotification { record_type: RecordType::Warning, temp_min: celsius(9000.0) }
    );
    let lowest: f32 = [4.0f32, 1.0, 2.0].iter().fold(9000f32, |a, b| a.min(*b));
    assert_eq!(lowest, 1.0);
}

#[test]
fn a_picked_suggestion_becomes_the_position() {
    let mut state = props();
    let place =
        Place { name: "Osnabrück".to_string(), position: Some((degrees(52.27), degrees(8.05))) };
    let out = update(&mut state, Msg::PlaceSelected(place));
    assert!(!out.should_render);
    assert_eq!(
        out.commands,
        vec![Command::SendMessage(Msg::LocationUpdate(LocationStatus::LocationRetrieved(
            degrees(52.27),
            degrees(8.05)
        )))]
    );
    assert_eq!(state.location_name, Some("Osnabrück".to_string()));
    assert_eq!(state.location, LocationStatus::LocationNotSet);
}

#[test]
fn a_typed_place_is_refused() {
    let mut state = props();
    let before = state.clone();
    let out =
        update(&mut state, Msg::PlaceSelected(Place { name: "nowhere".to_string(), position: None }));
    assert_eq!(out, Update { should_render: true, commands: vec![] });
    assert_eq!(
        state,
        Props {
            status: Some(Status::Error {
                title: "Invalid location".to_string(),
                body: "Please select a suggestion from the dropdown list!".to_string()
            }),
            ..before
        }
    );
}

#[test]
fn refreshing_requests_the_forecast_for_a_known_position() {
    let mut state = props();
    let before = state.clone();
    let out = update(&mut state, Msg::Refresh);
    assert_eq!(out, Update { should_render: false, commands: vec![] });
    assert_eq!(state, before);

    state.location = LocationStatus::LocationRetrieved(degrees(1.0), degrees(2.0));
    state.thresholds = (celsius(8.0), celsius(-8.0));
    let out = update(&mut state, Msg::Refresh);
    assert!(!out.should_render);
    assert_eq!(
        out.commands,
        vec![Command::FetchWeather {
            lat: degrees(1.0),
            lon: degrees(2.0),
            warning_threshold: celsius(8.0),
            danger_threshold: celsius(-8.0),
        }]
    );
    assert_eq!(check_for_weather_update(&state), Some(out.commands[0].clone()));
}

#[test]
fn the_permission_is_taken_as_given() {
    let mut state = props();
    let before = state.clone();
    let granted = NotificationPermissionStatus::Granted;
    let out = update(&mut state, Msg::NotificationPermissionUpdate(granted));
    assert_eq!(out, Update { should_render: false, commands: vec![] });
    assert_eq!(state, Props { notification_permission: granted, ..before });
}

#[test]
fn the_permission_has_its_names() {
    let from = NotificationPermissionStatus::from_name;
    assert_eq!(from(Some("granted")), NotificationPermissionStatus::Granted);
    assert_eq!(from(Some("denied")), NotificationPermissionStatus::Denied);
    assert_eq!(from(Some("default")), NotificationPermissionStatus::Default);
    assert_eq!(from(Some("Granted")), NotificationPermissionStatus::Unsupported);
    assert_eq!(from(Some("")), NotificationPermissionStatus::Unsupported);
    assert_eq!(from(None), NotificationPermissionStatus::Unsupported);
}

#[test]
fn a_request_that_could_not_be_sent_is_a_fetch_error() {
    assert_eq!(fetch_started(None), Msg::WeatherUpdate(WeatherDataStatus::WaitingForWeatherData));
    assert_eq!(
        fetch_started(Some("bad uri".to_string())),
        Msg::WeatherUpdate(WeatherDataStatus::FetchError("bad uri".to_string()))
    );
}

#[test]
fn an_answer_is_a_forecast_or_says_why_not() {
    let ok: BackendResult = Ok(response(vec![]));
    assert_eq!(
        fetch_weather_data(Ok(Ok(ok.clone()))),
        Msg::WeatherUpdate(WeatherDataStatus::WeatherDataRetrieved(ok))
    );
    let refused: BackendResult = Err(BackendError::NetworkError("down".to_string()));
    assert_eq!(
        fetch_weather_data(Ok(Ok(refused.clone()))),
        Msg::WeatherUpdate(WeatherDataStatus::WeatherDataRetrieved(refused))
    );
    assert_eq!(
        fetch_weather_data(Ok(Err("expected value".to_string()))),
        Msg::WeatherUpdate(WeatherDataStatus::ParseError("expected value".to_string()))
    );
    assert_eq!(
        fetch_weather_data(Err("timeout".to_string())),
        Msg::WeatherUpdate(WeatherDataStatus::FetchError("timeout".to_string()))
    );
}

#[test]
fn no_cold_phase_is_not_an_error() {
    let samples = vec![Sample {
        timestamp: Timestamp { seconds: 0, nanos: 0, offset: 0 },
        temperature: Some(celsius(20.0)),
        location: "a".to_string(),
    }];
    let found: Result<BackendResult, String> =
        parse_response(Ok(samples), celsius(5.0), celsius(0.0), None);
    assert_eq!(
        found,
        Ok(Ok(BackendResponse { location: Some("a".to_string()), cold_phases: vec![] }))
    );

    let api_error =
        BrightskyApiError { title: "Not Found".to_string(), description: "nothing".to_string() };
    let refused: Result<BackendResult, String> =
        parse_response(Err(Ok(api_error.clone())), celsius(5.0), celsius(0.0), None);
    assert_eq!(refused, Ok(Err(BackendError::BrightskyError(api_error))));

    let unread: Result<BackendResult, String> =
        parse_response(Err(Err("not json".to_string())), celsius(5.0), celsius(0.0), None);
    assert_eq!(unread, Err("not json".to_string()));
}

#[test]
fn the_panel_shows_the_forecast() {
    let phases = vec![phase(3.0, RecordType::Warning)];
    let retrieved = Some(WeatherDataStatus::WeatherDataRetrieved(Ok(response(phases.clone()))));
    assert_eq!(panel(&retrieved), Panel::Records(phases));
    let warm = Some(WeatherDataStatus::WeatherDataRetrieved(Ok(response(vec![]))));
    assert_eq!(
        panel(&warm),
        Panel::Text("Looks like it's going to be warm the next few days.".to_string())
    );
    let error = BackendError::NetworkError("down".to_string());
    let refused = Some(WeatherDataStatus::WeatherDataRetrieved(Err(error.clone())));
    assert_eq!(panel(&refused), Panel::Error(error));
    assert_eq!(
        panel(&Some(WeatherDataStatus::WaitingForWeatherData)),
        Panel::Text("Fetching weather data...".to_string())
    );
    assert_eq!(
        panel(&Some(WeatherDataStatus::FetchError("offline".to_string()))),
        Panel::Text("Error fetching weather data: offline".to_string())
    );
    assert_eq!(
        panel(&Some(WeatherDataStatus::ParseError("eof".to_string()))),
        Panel::Text("Error parsing weather data: eof".to_string())
    );
    assert_eq!(panel(&None), Panel::Empty);
}

#[test]
fn the_header_follows_what_the_device_can_do() {
    assert_eq!(notifications_icon(true), "fas fa-sync-alt");
    assert_eq!(notifications_icon(false), "fas fa-bell-slash");
    assert!(location_button_disabled(false));
    assert!(!location_button_disabled(true));
}

#[test]
fn the_place_picker_shows_an_input_or_the_place() {
    let mut state = Picker::PlacePicked(None);
    assert_eq!(field(&state), Field::Button("No Location Selected".to_string()));
    assert!(!rendered(&state));
    assert!(pick(&mut state, Picker::PickPlace));
    assert_eq!(state, Picker::PickPlace);
    assert_eq!(field(&state), Field::Input);
    assert!(rendered(&state));
    assert!(pick(&mut state, Picker::PlacePicked(Some("Münster".to_string()))));
    assert_eq!(field(&state), Field::Button("Münster".to_string()));
}

#[test]
fn the_status_bar_is_styled_by_the_kind_of_status() {
    assert_eq!(class(&Status::Info("a".to_string())), "status-bar info");
    assert_eq!(class(&Status::Progress("a".to_string())), "status-bar progress");
    let warning = Status::Warning { title: "a".to_string(), body: "b".to_string() };
    assert_eq!(class(&warning), "status-bar warning");
    let error = Status::Error { title: "a".to_string(), body: "b".to_string() };
    assert_eq!(class(&error), "status-bar error");

    let mut shown = None;
    assert!(show(&mut shown, Shown::StatusUpdate(Some(error.clone()))));
    assert_eq!(shown, Some(error));
    assert!(show(&mut shown, Shown::StatusUpdate(None)));
    assert_eq!(shown, None);
}

#[test]
fn the_panel_that_fetches_for_itself_starts_at_a_known_position() {
    let unset = PanelProps { location: LocationStatus::LocationNotSet, weather: None };
    assert_eq!(create(&unset), None);
    let known = PanelProps {
        location: LocationStatus::LocationRetrieved(degrees(1.0), degrees(2.0)),
        weather: None,
    };
    assert_eq!(create(&known), Some(fetch(1.0, 2.0)));
}

#[test]
fn the_panel_that_fetches_for_itself_follows_the_position() {
    let mut state = PanelProps { location: LocationStatus::WaitingForLocation, weather: None };
    let here = LocationStatus::LocationRetrieved(degrees(1.0), degrees(2.0));
    let next = PanelProps { location: here.clone(), weather: None };
    assert_eq!(change(&mut state, next.clone()), (true, Some(fetch(1.0, 2.0))));
    assert_eq!(state, next);
    // The same position again asks for nothing.
    assert_eq!(change(&mut state, next.clone()), (true, None));
    // Another state of the position without coordinates asks for nothing.
    let lost = PanelProps {
        location: LocationStatus::LocationFailed(2, "unavailable".to_string()),
        weather: None,
    };
    assert_eq!(change(&mut state, lost.clone()), (true, None));
    assert_eq!(state, lost);

    assert!(panel_update(&mut state, PanelMsg::WeatherUpdate(WeatherDataStatus::WaitingForWeatherData)));
    assert_eq!(state.weather, Some(WeatherDataStatus::WaitingForWeatherData));
    assert_eq!(state.location, lost.location);
}

#[test]
fn the_panel_that_fetches_for_itself_reports_on_the_position() {
    let show = |location: LocationStatus| own_panel(&PanelProps { location, weather: None });
    let waiting = Panel::Text("Waiting for access to device location...".to_string());
    assert_eq!(show(LocationStatus::WaitingForLocation), waiting);
    assert_eq!(show(LocationStatus::LocationRetrieved(degrees(1.0), degrees(2.0))), waiting);
    assert_eq!(
        show(LocationStatus::LocationFailed(1, "denied".to_string())),
        Panel::Text("Device location could not be determined: denied".to_string())
    );
    assert_eq!(
        show(LocationStatus::LocationNotSet),
        Panel::Text("TODO: enter location manually".to_string())
    );

    let with = |weather: WeatherDataStatus| {
        own_panel(&PanelProps { location: LocationStatus::WaitingForLocation, weather: Some(weather) })
    };
    assert_eq!(with(WeatherDataStatus::WeatherDataRetrieved(Ok(response(vec![])))), Panel::Records(vec![]));
    let phases = vec![phase(3.0, RecordType::Warning)];
    assert_eq!(
        with(WeatherDataStatus::WeatherDataRetrieved(Ok(response(phases.clone())))),
        Panel::Records(phases)
    );
    let error = BackendError::NetworkError("down".to_string());
    assert_eq!(with(WeatherDataStatus::WeatherDataRetrieved(Err(error.clone()))), Panel::Error(error));
    assert_eq!(
        with(WeatherDataStatus::WaitingForWeatherData),
        Panel::Text("Fetching weather data...".to_string())
    );
    assert_eq!(
        with(WeatherDataStatus::FetchError("offline".to_string())),
        Panel::Text("Error fetching weather data: offline".to_string())
    );
    assert_eq!(
        with(WeatherDataStatus::ParseError("eof".to_string())),
        Panel::Text("Error parsing weather data: eof".to_string())
    );
}

#[test]
fn positions_are_compared_bit_for_bit() {
    let a = LocationStatus::LocationRetrieved(degrees(0.0), degrees(1.0));
    let b = LocationStatus::LocationRetrieved(degrees(-0.0), degrees(1.0));
    assert!(a.same_as(&a));
    assert!(!a.same_as(&b));
    let failed = LocationStatus::LocationFailed(1, "x".to_string());
    assert!(failed.same_as(&LocationStatus::LocationFailed(1, "x".to_string())));
    assert!(!failed.same_as(&LocationStatus::LocationFailed(2, "x".to_string())));
    assert!(!failed.same_as(&LocationStatus::LocationFailed(1, "y".to_string())));
    assert!(LocationStatus::LocationNotSet.same_as(&LocationStatus::LocationNotSet));
    assert!(!LocationStatus::LocationNotSet.same_as(&LocationStatus::WaitingForLocation));
}
