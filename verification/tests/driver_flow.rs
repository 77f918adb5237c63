use weather_lookup::classify::Emphasis;
use weather_lookup::driver::DriverEffect;
use weather_lookup::driver::DriverEvent;
use weather_lookup::driver::DriverState;
use weather_lookup::driver::driver_step;
use weather_lookup::model::CurrentConditions;
use weather_lookup::model::ForecastFieldSet;
use weather_lookup::model::ForecastResult;
use weather_lookup::model::ResolvedLocation;
use weather_lookup::model::WeatherError;

fn standard_fields() -> ForecastFieldSet {
    ForecastFieldSet {
        current_temperature: true,
        current_wind_speed: true,
        current_precipitation: true,
        hourly_temperature: false,
        hourly_humidity: false,
        hourly_wind_speed: false,
        hourly_precipitation: false,
        hourly_timestamps: false,
    }
}

#[test]
fn not_found_exits_cleanly_and_never_fetches() {
    let (next, effects) = driver_step(
        DriverState::Resolving,
        DriverEvent::Resolved(Err(WeatherError::LocationNotFound)),
        standard_fields(),
    );
    match next {
        DriverState::Done(code) => assert_eq!(code, 0),
        _ => panic!("expected a finished run"),
    }
    assert_eq!(effects.len(), 1);
    for effect in &effects {
        assert!(!matches!(effect, DriverEffect::FetchForecast { .. }));
    }
    match &effects[0] {
        DriverEffect::EmitErr(message) => assert_eq!(message, "location not found"),
        _ => panic!("expected an error-stream message"),
    }
}

#[test]
fn resolution_transport_failure_is_run_fatal() {
    let (next, effects) = driver_step(
        DriverState::Resolving,
        DriverEvent::Resolved(Err(WeatherError::Transport(String::from("timed out")))),
        standard_fields(),
    );
    match next {
        DriverState::Done(code) => assert_eq!(code, 1),
        _ => panic!("expected a finished run"),
    }
    match &effects[0] {
        DriverEffect::EmitErr(message) => assert_eq!(message, "network error: timed out"),
        _ => panic!("expected an error-stream message"),
    }
}

#[test]
fn successful_resolution_requests_a_fetch() {
    let location = ResolvedLocation {
        display_label: Some(String::from("Testville")),
        latitude: 5500,
        longitude: 3800,
    };
    let (next, effects) = driver_step(
        DriverState::Resolving,
        DriverEvent::Resolved(Ok(location)),
        standard_fields(),
    );
    assert!(matches!(next, DriverState::Fetching(_)));
    assert_eq!(effects.len(), 1);
    match &effects[0] {
        DriverEffect::FetchForecast { latitude, longitude, fields } => {
            assert_eq!(*latitude, 5500);
            assert_eq!(*longitude, 3800);
            assert_eq!(*fields, standard_fields());
        }
        _ => panic!("expected a fetch request"),
    }
}

#[test]
fn successful_fetch_renders_and_finishes() {
    let location = ResolvedLocation {
        display_label: Some(String::from("Testville")),
        latitude: 5500,
        longitude: 3800,
    };
    let forecast = ForecastResult {
        current: Some(CurrentConditions {
            temperature_celsius: Some(150),
            wind_speed: Some(300),
            precipitation_probability_percent: Some(7000),
        }),
        hourly: None,
    };
    let (next, effects) = driver_step(
        DriverState::Fetching(location),
        DriverEvent::Fetched(Ok(forecast)),
        standard_fields(),
    );
    match next {
        DriverState::Done(code) => assert_eq!(code, 0),
        _ => panic!("expected a finished run"),
    }
    match &effects[0] {
        DriverEffect::EmitOut(lines) => {
            assert_eq!(lines.len(), 4);
            assert_eq!(lines[0].text, "Location: Testville");
            assert_eq!(lines[1].text, "Current temperature: 1.50\u{b0}C");
            assert_eq!(lines[1].emphasis, Emphasis::Warm);
            assert_eq!(lines[2].emphasis, Emphasis::Calm);
            assert_eq!(lines[3].text, "Precipitation probability: 70.00%");
            assert_eq!(lines[3].emphasis, Emphasis::High);
        }
        _ => panic!("expected rendered output"),
    }
}

#[test]
fn fetch_failure_reports_and_exits_cleanly() {
    let location = ResolvedLocation { display_label: None, latitude: 0, longitude: 0 };
    let (next, effects) = driver_step(
        DriverState::Fetching(location),
        DriverEvent::Fetched(Err(WeatherError::Transport(String::from("reset")))),
        standard_fields(),
    );
    match next {
        DriverState::Done(code) => assert_eq!(code, 0),
        _ => panic!("expected a finished run"),
    }
    match &effects[0] {
        DriverEffect::EmitErr(message) => {
            assert_eq!(message, "could not retrieve the forecast: network error: reset");
        }
        _ => panic!("expected an error-stream message"),
    }
}

#[test]
fn mismatched_event_changes_nothing() {
    let (next, effects) = driver_step(
        DriverState::Resolving,
        DriverEvent::Fetched(Ok(ForecastResult { current: None, hourly: None })),
        standard_fields(),
    );
    assert!(matches!(next, DriverState::Resolving));
    assert!(effects.is_empty());
}
