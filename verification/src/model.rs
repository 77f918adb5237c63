//! The request/response data model of the weather pipeline.
//!
//! Every numeric weather value and coordinate is a fixed-point count of
//! hundredths (`i64` centi-units): a temperature of `-3.50` degrees is
//! `-350`. Optional fields stay optional: an absent value is distinct
//! from zero until the presenter applies its documented default.

use vstd::prelude::*;

verus! {

/// A user-supplied location hint.
pub enum LocationQuery {
    /// A free-text place name, resolved through the geocoding service.
    ByName(String),
    /// No hint: resolved through the IP-geolocation service.
    ByIp,
    /// A fixed coordinate pair, latitude then longitude, in hundredths
    /// of a degree.
    ByCoordinates(i64, i64),
}

/// A resolved location: a display label (if any) and a coordinate pair
/// in hundredths of a degree.
pub struct ResolvedLocation {
    pub display_label: Option<String>,
    pub latitude: i64,
    pub longitude: i64,
}

/// Current conditions, each field absent when the forecast service
/// omitted it.
pub struct CurrentConditions {
    /// Temperature in hundredths of a degree Celsius.
    pub temperature_celsius: Option<i64>,
    /// Wind speed in hundredths of a meter per second.
    pub wind_speed: Option<i64>,
    /// Precipitation probability in hundredths of a percent point.
    pub precipitation_probability_percent: Option<i64>,
}

/// Parallel hourly series; each series is absent when it was not
/// requested or not returned.
pub struct HourlySeries {
    pub temperature_celsius: Option<Vec<i64>>,
    pub humidity_percent: Option<Vec<i64>>,
    pub wind_speed: Option<Vec<i64>>,
    pub precipitation_probability_percent: Option<Vec<i64>>,
    /// Timestamps of the hourly positions; when present, its length
    /// determines the "latest" index.
    pub timestamps: Option<Vec<String>>,
}

/// A parsed forecast response.
pub struct ForecastResult {
    pub current: Option<CurrentConditions>,
    pub hourly: Option<HourlySeries>,
}

/// Which current-conditions and hourly fields a forecast request asks for.
#[derive(Clone, Copy, PartialEq, Eq, Structural, Debug)]
pub struct ForecastFieldSet {
    pub current_temperature: bool,
    pub current_wind_speed: bool,
    pub current_precipitation: bool,
    pub hourly_temperature: bool,
    pub hourly_humidity: bool,
    pub hourly_wind_speed: bool,
    pub hourly_precipitation: bool,
    pub hourly_timestamps: bool,
}

impl ForecastFieldSet {
    /// True when at least one current-conditions field is requested.
    pub open spec fn spec_any_current(self) -> bool {
        self.current_temperature || self.current_wind_speed || self.current_precipitation
    }

    /// True when at least one hourly field is requested.
    pub open spec fn spec_any_hourly(self) -> bool {
        self.hourly_temperature || self.hourly_humidity || self.hourly_wind_speed
            || self.hourly_precipitation || self.hourly_timestamps
    }
}

/// The error taxonomy of the pipeline.
#[derive(Debug)]
pub enum WeatherError {
    /// A network or connection failure, wrapping the underlying cause.
    Transport(String),
    /// A malformed or unexpectedly shaped response, wrapping the cause.
    Decode(String),
    /// The geocoding service returned zero candidates.
    LocationNotFound,
    /// The IP-geolocation response lacked a latitude or a longitude.
    MissingCoordinates,
}

/// The display text of each error variant.
pub open spec fn spec_error_message(e: WeatherError) -> Seq<char> {
    match e {
        WeatherError::Transport(cause) => "network error: "@ + cause@,
        WeatherError::Decode(cause) => "malformed response: "@ + cause@,
        WeatherError::LocationNotFound => "location not found"@,
        WeatherError::MissingCoordinates => "response lacked coordinates"@,
    }
}

impl WeatherError {
    /// Renders the error for the user, exactly as `spec_error_message`
    /// describes.
    pub fn message(&self) -> (r: String)
        ensures
            r@ == spec_error_message(*self),
    {
        match self {
            WeatherError::Transport(cause) => {
                let mut s = String::from_str("network error: ");
                s.append(cause.as_str());
                s
            },
            WeatherError::Decode(cause) => {
                let mut s = String::from_str("malformed response: ");
                s.append(cause.as_str());
                s
            },
            WeatherError::LocationNotFound => String::from_str("location not found"),
            WeatherError::MissingCoordinates => String::from_str("response lacked coordinates"),
        }
    }
}

} // verus!
