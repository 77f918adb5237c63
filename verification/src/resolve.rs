//! The location resolver's decision logic.
//!
//! Resolution by name or by IP needs one network round-trip; the caller
//! performs it and hands the parsed response back to the functions here,
//! which select the candidate, apply the documented label defaults, and
//! read the numeric-string coordinates.

use vstd::prelude::*;
use crate::model::LocationQuery;
use crate::model::ResolvedLocation;
use crate::model::WeatherError;
use crate::parse::parse_coordinate;
use crate::parse::spec_coordinate_value;
use crate::parse::spec_valid_coordinate;

verus! {

/// One candidate of the geocoding service: an optional display name and
/// the coordinates as numeric strings.
pub struct GeocodeCandidate {
    pub display_name: Option<String>,
    pub lat: String,
    pub lon: String,
}

/// The parsed response of the IP-geolocation service; every field may
/// be absent. Coordinates are in hundredths of a degree.
pub struct IpLocation {
    pub city: Option<String>,
    pub region: Option<String>,
    pub country: Option<String>,
    pub latitude: Option<i64>,
    pub longitude: Option<i64>,
}

/// The label a geocode candidate displays; a missing display name
/// defaults to a placeholder.
pub open spec fn spec_candidate_label(c: GeocodeCandidate) -> Seq<char> {
    match c.display_name {
        Some(l) => l@,
        None => "Unknown location"@,
    }
}

/// The label an IP-resolved location displays: city, region and country,
/// each defaulting to a placeholder when absent.
pub open spec fn spec_ip_label(info: IpLocation) -> Seq<char> {
    (match info.city {
        Some(v) => v@,
        None => "Unknown city"@,
    }) + ", "@ + (match info.region {
        Some(v) => v@,
        None => "Unknown region"@,
    }) + ", "@ + (match info.country {
        Some(v) => v@,
        None => "Unknown country"@,
    })
}

/// The geocoding request URL for a place name.
pub open spec fn spec_geocode_url(name: Seq<char>) -> Seq<char> {
    "https://nominatim.openstreetmap.org/search?q="@ + name + "&format=json&addressdetails=1"@
}

/// Builds the geocoding request URL. The name must be non-empty: an
/// empty name is a caller error, not a network error.
pub fn geocode_url(name: &str) -> (r: String)
    requires
        name@.len() > 0,
    ensures
        r@ == spec_geocode_url(name@),
{
    let mut s = String::from_str("https://nominatim.openstreetmap.org/search?q=");
    s.append(name);
    s.append("&format=json&addressdetails=1");
    s
}

/// Selects the first geocode candidate: zero candidates is
/// `LocationNotFound`; an unreadable coordinate string is a decode
/// error; otherwise the resolved location carries the candidate's label
/// (with its default applied) and parsed coordinates.
pub fn select_candidate(candidates: &Vec<GeocodeCandidate>) -> (r: Result<
    ResolvedLocation,
    WeatherError,
>)
    ensures
        candidates@.len() == 0 <==> (r matches Err(WeatherError::LocationNotFound)),
        candidates@.len() > 0 && spec_valid_coordinate(candidates@[0].lat@)
            && spec_valid_coordinate(candidates@[0].lon@) ==> (r matches Ok(loc) && (
        loc.latitude as int == spec_coordinate_value(candidates@[0].lat@) && loc.longitude as int
            == spec_coordinate_value(candidates@[0].lon@) && (loc.display_label matches Some(l)
            && l@ == spec_candidate_label(candidates@[0])))),
        candidates@.len() > 0 && !(spec_valid_coordinate(candidates@[0].lat@)
            && spec_valid_coordinate(candidates@[0].lon@)) ==> (r matches Err(
            WeatherError::Decode(_),
        )),
{
    if candidates.len() == 0 {
        return Err(WeatherError::LocationNotFound);
    }
    let c = &candidates[0];
    let latitude = match parse_coordinate(c.lat.as_str()) {
        Some(v) => v,
        None => {
            return Err(
                WeatherError::Decode(String::from_str("unreadable candidate latitude")),
            );
        },
    };
    let longitude = match parse_coordinate(c.lon.as_str()) {
        Some(v) => v,
        None => {
            return Err(
                WeatherError::Decode(String::from_str("unreadable candidate longitude")),
            );
        },
    };
    let label = match &c.display_name {
        Some(l) => l.clone(),
        None => String::from_str("Unknown location"),
    };
    Ok(ResolvedLocation { display_label: Some(label), latitude, longitude })
}

/// Resolves an IP-geolocation response: both coordinates must be
/// present, and the label is built from the optional place fields with
/// their documented defaults.
pub fn resolve_ip(info: &IpLocation) -> (r: Result<ResolvedLocation, WeatherError>)
    ensures
        (info.latitude is None || info.longitude is None) <==> (r matches Err(
            WeatherError::MissingCoordinates,
        )),
        info.latitude is Some && info.longitude is Some ==> (r matches Ok(loc) && (loc.latitude
            == info.latitude.unwrap() && loc.longitude == info.longitude.unwrap() && (
        loc.display_label matches Some(l) && l@ == spec_ip_label(*info)))),
{
    let latitude = match info.latitude {
        Some(v) => v,
        None => {
            return Err(WeatherError::MissingCoordinates);
        },
    };
    let longitude = match info.longitude {
        Some(v) => v,
        None => {
            return Err(WeatherError::MissingCoordinates);
        },
    };
    let mut label = match &info.city {
        Some(v) => v.clone(),
        None => String::from_str("Unknown city"),
    };
    label.append(", ");
    match &info.region {
        Some(v) => label.append(v.as_str()),
        None => label.append("Unknown region"),
    }
    label.append(", ");
    match &info.country {
        Some(v) => label.append(v.as_str()),
        None => label.append("Unknown country"),
    }
    proof {
        assert(label@ =~= spec_ip_label(*info));
    }
    Ok(ResolvedLocation { display_label: Some(label), latitude, longitude })
}

/// Fixed coordinates pass through unchanged, with no display label.
pub fn resolve_coordinates(latitude: i64, longitude: i64) -> (r: ResolvedLocation)
    ensures
        r.display_label is None,
        r.latitude == latitude,
        r.longitude == longitude,
{
    ResolvedLocation { display_label: None, latitude, longitude }
}

/// What resolving a query requires of the caller: a geocoding request,
/// an IP-geolocation request, or nothing at all.
pub enum ResolveStep {
    /// Send a geocoding request for this name and hand the candidates to
    /// `select_candidate`.
    Geocode(String),
    /// Send an IP-geolocation request and hand the response to
    /// `resolve_ip`.
    IpLookup,
    /// The query already resolves, with no network call.
    Ready(ResolvedLocation),
}

/// Dispatches a location query to the step that resolves it. A name
/// must be non-empty: an empty name is a caller error.
pub fn resolve_step(query: LocationQuery) -> (r: ResolveStep)
    requires
        query matches LocationQuery::ByName(n) ==> n@.len() > 0,
    ensures
        query matches LocationQuery::ByName(n) ==> (r matches ResolveStep::Geocode(m) && m == n),
        query is ByIp ==> r is IpLookup,
        query matches LocationQuery::ByCoordinates(la, lo) ==> (r matches ResolveStep::Ready(loc)
            && loc.latitude == la && loc.longitude == lo && loc.display_label is None),
{
    match query {
        LocationQuery::ByName(n) => ResolveStep::Geocode(n),
        LocationQuery::ByIp => ResolveStep::IpLookup,
        LocationQuery::ByCoordinates(la, lo) => ResolveStep::Ready(
            ResolvedLocation { display_label: None, latitude: la, longitude: lo },
        ),
    }
}

} // verus!
