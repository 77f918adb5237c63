use weather_lookup::classify::Emphasis;
use weather_lookup::classify::precipitation_emphasis;
use weather_lookup::classify::temperature_emphasis;
use weather_lookup::classify::wind_emphasis;
use weather_lookup::model::CurrentConditions;
use weather_lookup::model::ForecastResult;
use weather_lookup::model::HourlySeries;
use weather_lookup::model::ResolvedLocation;
use weather_lookup::render::render;

#[test]
fn high_wind_beats_moderate_tier() {
    // 20.10 m/s exceeds both thresholds and must classify high.
    assert_eq!(wind_emphasis(2010), Emphasis::High);
    assert_eq!(wind_emphasis(1501), Emphasis::High);
}

#[test]
fn wind_moderate_and_calm_tiers() {
    assert_eq!(wind_emphasis(1500), Emphasis::Moderate);
    assert_eq!(wind_emphasis(600), Emphasis::Moderate);
    assert_eq!(wind_emphasis(500), Emphasis::Calm);
    assert_eq!(wind_emphasis(0), Emphasis::Calm);
}

#[test]
fn high_precipitation_beats_moderate_tier() {
    // 61% exceeds both thresholds and must classify high.
    assert_eq!(precipitation_emphasis(6100), Emphasis::High);
}

#[test]
fn precipitation_moderate_and_low_tiers() {
    assert_eq!(precipitation_emphasis(6000), Emphasis::Moderate);
    assert_eq!(precipitation_emphasis(3100), Emphasis::Moderate);
    assert_eq!(precipitation_emphasis(3000), Emphasis::Low);
    assert_eq!(precipitation_emphasis(0), Emphasis::Low);
}

#[test]
fn temperature_two_tiers() {
    assert_eq!(temperature_emphasis(1), Emphasis::Warm);
    assert_eq!(temperature_emphasis(0), Emphasis::Cold);
    assert_eq!(temperature_emphasis(-350), Emphasis::Cold);
}

#[test]
fn missing_current_renders_single_explanatory_line() {
    let location = ResolvedLocation {
        display_label: Some(String::from("Testville")),
        latitude: 5500,
        longitude: 3800,
    };
    let forecast = ForecastResult { current: None, hourly: None };
    let lines = render(&location, &forecast);
    assert_eq!(lines.len(), 2);
    assert_eq!(lines[0].text, "Location: Testville");
    assert_eq!(lines[1].text, "Could not retrieve current weather data.");
    for line in &lines {
        assert_eq!(line.emphasis, Emphasis::Neutral);
    }
}

#[test]
fn fixed_coordinates_scenario_renders_cold_high_and_latest() {
    // ByCoordinates(55.0, 38.0): no display label.
    let location = ResolvedLocation { display_label: None, latitude: 5500, longitude: 3800 };
    let forecast = ForecastResult {
        current: Some(CurrentConditions {
            temperature_celsius: Some(-350),
            wind_speed: Some(2010),
            precipitation_probability_percent: None,
        }),
        hourly: Some(HourlySeries {
            temperature_celsius: Some(vec![100, 200, 300]),
            humidity_percent: Some(vec![1000, 2000, 3000]),
            wind_speed: Some(vec![500, 600, 700]),
            precipitation_probability_percent: None,
            timestamps: Some(vec![
                String::from("t0"),
                String::from("t1"),
                String::from("t2"),
            ]),
        }),
    };
    let lines = render(&location, &forecast);
    assert_eq!(lines.len(), 8);
    assert_eq!(lines[0].text, "Location: Unknown location");
    assert_eq!(lines[1].text, "Current temperature: -3.50\u{b0}C");
    assert_eq!(lines[1].emphasis, Emphasis::Cold);
    assert_eq!(lines[2].text, "Wind speed: 20.10 m/s");
    assert_eq!(lines[2].emphasis, Emphasis::High);
    assert_eq!(lines[3].text, "Precipitation probability: 0.00%");
    assert_eq!(lines[3].emphasis, Emphasis::Low);
    assert_eq!(lines[4].text, "Latest hourly temperature: 3.00\u{b0}C");
    assert_eq!(lines[5].text, "Latest hourly humidity: 30.00%");
    assert_eq!(lines[6].text, "Latest hourly wind speed: 7.00 m/s");
    assert_eq!(lines[7].text, "Latest hourly precipitation probability: 0.00%");
}

#[test]
fn latest_index_is_last_of_five() {
    let location = ResolvedLocation { display_label: None, latitude: 0, longitude: 0 };
    let forecast = ForecastResult {
        current: None,
        hourly: Some(HourlySeries {
            temperature_celsius: Some(vec![100, 200, 300, 400, 500]),
            humidity_percent: Some(vec![1100, 1200, 1300, 1400, 1500]),
            wind_speed: Some(vec![210, 220, 230, 240, 250]),
            precipitation_probability_percent: Some(vec![10, 20, 30, 40, 50]),
            timestamps: Some(vec![
                String::from("t0"),
                String::from("t1"),
                String::from("t2"),
                String::from("t3"),
                String::from("t4"),
            ]),
        }),
    };
    let lines = render(&location, &forecast);
    // the latest values are always those at index 4
    assert_eq!(lines[2].text, "Latest hourly temperature: 5.00\u{b0}C");
    assert_eq!(lines[3].text, "Latest hourly humidity: 15.00%");
    assert_eq!(lines[4].text, "Latest hourly wind speed: 2.50 m/s");
    assert_eq!(lines[5].text, "Latest hourly precipitation probability: 0.50%");
}

#[test]
fn short_series_substitutes_zero_default() {
    // the timestamp series has five positions, the wind series only two:
    // the wind value falls back to the 0.00 default.
    let location = ResolvedLocation { display_label: None, latitude: 0, longitude: 0 };
    let forecast = ForecastResult {
        current: None,
        hourly: Some(HourlySeries {
            temperature_celsius: Some(vec![100, 200, 300, 400, 500]),
            humidity_percent: None,
            wind_speed: Some(vec![210, 220]),
            precipitation_probability_percent: None,
            timestamps: Some(vec![
                String::from("t0"),
                String::from("t1"),
                String::from("t2"),
                String::from("t3"),
                String::from("t4"),
            ]),
        }),
    };
    let lines = render(&location, &forecast);
    assert_eq!(lines[2].text, "Latest hourly temperature: 5.00\u{b0}C");
    assert_eq!(lines[3].text, "Latest hourly humidity: 0.00%");
    assert_eq!(lines[4].text, "Latest hourly wind speed: 0.00 m/s");
}

#[test]
fn absent_optional_values_render_as_zero() {
    let location = ResolvedLocation {
        display_label: Some(String::from("Somewhere")),
        latitude: 0,
        longitude: 0,
    };
    let forecast = ForecastResult {
        current: Some(CurrentConditions {
            temperature_celsius: None,
            wind_speed: None,
            precipitation_probability_percent: None,
        }),
        hourly: None,
    };
    let lines = render(&location, &forecast);
    assert_eq!(lines.len(), 4);
    assert_eq!(lines[1].text, "Current temperature: 0.00\u{b0}C");
    assert_eq!(lines[1].emphasis, Emphasis::Cold);
    assert_eq!(lines[2].text, "Wind speed: 0.00 m/s");
    assert_eq!(lines[2].emphasis, Emphasis::Calm);
    assert_eq!(lines[3].text, "Precipitation probability: 0.00%");
    assert_eq!(lines[3].emphasis, Emphasis::Low);
}
