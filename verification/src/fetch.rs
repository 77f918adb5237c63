//! The forecast fetcher's request construction.
//!
//! The fetcher issues one GET request to the forecast service; the query
//! string carries the coordinates and the comma-separated lists of the
//! requested current-conditions and hourly fields. Building that query is
//! pure string work and is verified here; the transport itself lives
//! outside the library.

use vstd::prelude::*;
use crate::model::ForecastFieldSet;
use crate::numfmt::format_centi;
use crate::numfmt::spec_centi;

verus! {

/// `sub` occurs verbatim somewhere inside `s`.
pub open spec fn contains_seq(s: Seq<char>, sub: Seq<char>) -> bool {
    exists|i: int|
        0 <= i && i + sub.len() <= s.len() && #[trigger] s.subrange(i, i + sub.len() as int) == sub
}

/// An occurrence inside `a` is an occurrence inside `a + b`.
pub proof fn lemma_contains_concat_left(a: Seq<char>, b: Seq<char>, sub: Seq<char>)
    requires
        contains_seq(a, sub),
    ensures
        contains_seq(a + b, sub),
{
    let i = choose|i: int|
        0 <= i && i + sub.len() <= a.len() && #[trigger] a.subrange(i, i + sub.len() as int)
            == sub;
    assert((a + b).subrange(i, i + sub.len() as int) =~= sub);
}

/// An occurrence inside `b` is an occurrence inside `a + b`.
pub proof fn lemma_contains_concat_right(a: Seq<char>, b: Seq<char>, sub: Seq<char>)
    requires
        contains_seq(b, sub),
    ensures
        contains_seq(a + b, sub),
{
    let i = choose|i: int|
        0 <= i && i + sub.len() <= b.len() && #[trigger] b.subrange(i, i + sub.len() as int)
            == sub;
    assert((a + b).subrange(a.len() + i, a.len() + i + sub.len() as int) =~= sub);
}

/// Every sequence occurs in itself.
pub proof fn lemma_contains_self(s: Seq<char>)
    ensures
        contains_seq(s, s),
{
    assert(s.subrange(0, 0 + s.len() as int) =~= s);
}

/// Appends one field name to a comma-separated list when it is requested.
pub open spec fn spec_with_item(list: Seq<char>, wanted: bool, name: Seq<char>) -> Seq<char> {
    if !wanted {
        list
    } else if list.len() == 0 {
        name
    } else {
        list + ","@ + name
    }
}

/// Appending an item keeps every occurrence the list already had.
pub proof fn lemma_with_item_keeps(list: Seq<char>, wanted: bool, name: Seq<char>, sub: Seq<char>)
    requires
        contains_seq(list, sub),
    ensures
        contains_seq(spec_with_item(list, wanted, name), sub),
{
    if wanted {
        if list.len() == 0 {
            assert(sub.len() == 0);
            assert(name.subrange(0, 0) =~= sub);
        } else {
            lemma_contains_concat_left(list, ","@, sub);
            lemma_contains_concat_left(list + ","@, name, sub);
        }
    }
}

/// An appended item occurs in the resulting list.
pub proof fn lemma_with_item_adds(list: Seq<char>, name: Seq<char>)
    ensures
        contains_seq(spec_with_item(list, true, name), name),
{
    lemma_contains_self(name);
    if list.len() != 0 {
        lemma_contains_concat_right(list + ","@, name, name);
    }
}

/// The comma-separated list of requested current-conditions fields, in
/// the service's own field names.
pub open spec fn spec_current_list(f: ForecastFieldSet) -> Seq<char> {
    spec_with_item(
        spec_with_item(
            spec_with_item(Seq::<char>::empty(), f.current_temperature, "temperature_2m"@),
            f.current_wind_speed,
            "wind_speed_10m"@,
        ),
        f.current_precipitation,
        "precipitation_probability"@,
    )
}

/// The comma-separated list of requested hourly fields.
pub open spec fn spec_hourly_list(f: ForecastFieldSet) -> Seq<char> {
    spec_with_item(
        spec_with_item(
            spec_with_item(
                spec_with_item(
                    spec_with_item(Seq::<char>::empty(), f.hourly_temperature, "temperature_2m"@),
                    f.hourly_humidity,
                    "relative_humidity_2m"@,
                ),
                f.hourly_wind_speed,
                "wind_speed_10m"@,
            ),
            f.hourly_precipitation,
            "precipitation_probability"@,
        ),
        f.hourly_timestamps,
        "time"@,
    )
}

/// The full query string: the coordinates, then a `&current=` list when
/// any current field is requested, then a `&hourly=` list when any
/// hourly field is requested.
pub open spec fn spec_forecast_query(latitude: int, longitude: int, f: ForecastFieldSet) -> Seq<
    char,
> {
    "latitude="@ + spec_centi(latitude) + "&longitude="@ + spec_centi(longitude) + (
    if f.spec_any_current() {
        "&current="@ + spec_current_list(f)
    } else {
        Seq::<char>::empty()
    }) + (if f.spec_any_hourly() {
        "&hourly="@ + spec_hourly_list(f)
    } else {
        Seq::<char>::empty()
    })
}

/// The full request URL: the forecast service endpoint plus the query.
pub open spec fn spec_forecast_url(latitude: int, longitude: int, f: ForecastFieldSet) -> Seq<
    char,
> {
    "https://api.open-meteo.com/v1/forecast?"@ + spec_forecast_query(latitude, longitude, f)
}

/// Round trip of the field set: every requested field name appears
/// verbatim in the constructed request URL.
pub proof fn lemma_requested_fields_in_url(latitude: int, longitude: int, f: ForecastFieldSet)
    ensures
        f.current_temperature ==> contains_seq(
            spec_forecast_url(latitude, longitude, f),
            "temperature_2m"@,
        ),
        f.current_wind_speed ==> contains_seq(
            spec_forecast_url(latitude, longitude, f),
            "wind_speed_10m"@,
        ),
        f.current_precipitation ==> contains_seq(
            spec_forecast_url(latitude, longitude, f),
            "precipitation_probability"@,
        ),
        f.hourly_temperature ==> contains_seq(
            spec_forecast_url(latitude, longitude, f),
            "temperature_2m"@,
        ),
        f.hourly_humidity ==> contains_seq(
            spec_forecast_url(latitude, longitude, f),
            "relative_humidity_2m"@,
        ),
        f.hourly_wind_speed ==> contains_seq(
            spec_forecast_url(latitude, longitude, f),
            "wind_speed_10m"@,
        ),
        f.hourly_precipitation ==> contains_seq(
            spec_forecast_url(latitude, longitude, f),
            "precipitation_probability"@,
        ),
        f.hourly_timestamps ==> contains_seq(
            spec_forecast_url(latitude, longitude, f),
            "time"@,
        ),
{
    let head = "latitude="@ + spec_centi(latitude) + "&longitude="@ + spec_centi(longitude);
    let curpart: Seq<char> = if f.spec_any_current() {
        "&current="@ + spec_current_list(f)
    } else {
        Seq::<char>::empty()
    };
    let hourpart: Seq<char> = if f.spec_any_hourly() {
        "&hourly="@ + spec_hourly_list(f)
    } else {
        Seq::<char>::empty()
    };
    let query = spec_forecast_query(latitude, longitude, f);
    assert(query == head + curpart + hourpart);

    let c1 = spec_with_item(Seq::<char>::empty(), f.current_temperature, "temperature_2m"@);
    let c2 = spec_with_item(c1, f.current_wind_speed, "wind_speed_10m"@);
    if f.current_temperature {
        lemma_with_item_adds(Seq::<char>::empty(), "temperature_2m"@);
        lemma_with_item_keeps(c1, f.current_wind_speed, "wind_speed_10m"@, "temperature_2m"@);
        lemma_with_item_keeps(
            c2,
            f.current_precipitation,
            "precipitation_probability"@,
            "temperature_2m"@,
        );
    }
    if f.current_wind_speed {
        lemma_with_item_adds(c1, "wind_speed_10m"@);
        lemma_with_item_keeps(
            c2,
            f.current_precipitation,
            "precipitation_probability"@,
            "wind_speed_10m"@,
        );
    }
    if f.current_precipitation {
        lemma_with_item_adds(c2, "precipitation_probability"@);
    }

    let h1 = spec_with_item(Seq::<char>::empty(), f.hourly_temperature, "temperature_2m"@);
    let h2 = spec_with_item(h1, f.hourly_humidity, "relative_humidity_2m"@);
    let h3 = spec_with_item(h2, f.hourly_wind_speed, "wind_speed_10m"@);
    let h4 = spec_with_item(h3, f.hourly_precipitation, "precipitation_probability"@);
    if f.hourly_temperature {
        lemma_with_item_adds(Seq::<char>::empty(), "temperature_2m"@);
        lemma_with_item_keeps(h1, f.hourly_humidity, "relative_humidity_2m"@, "temperature_2m"@);
        lemma_with_item_keeps(h2, f.hourly_wind_speed, "wind_speed_10m"@, "temperature_2m"@);
        lemma_with_item_keeps(
            h3,
            f.hourly_precipitation,
            "precipitation_probability"@,
            "temperature_2m"@,
        );
        lemma_with_item_keeps(h4, f.hourly_timestamps, "time"@, "temperature_2m"@);
    }
    if f.hourly_humidity {
        lemma_with_item_adds(h1, "relative_humidity_2m"@);
        lemma_with_item_keeps(h2, f.hourly_wind_speed, "wind_speed_10m"@, "relative_humidity_2m"@);
        lemma_with_item_keeps(
            h3,
            f.hourly_precipitation,
            "precipitation_probability"@,
            "relative_humidity_2m"@,
        );
        lemma_with_item_keeps(h4, f.hourly_timestamps, "time"@, "relative_humidity_2m"@);
    }
    if f.hourly_wind_speed {
        lemma_with_item_adds(h2, "wind_speed_10m"@);
        lemma_with_item_keeps(
            h3,
            f.hourly_precipitation,
            "precipitation_probability"@,
            "wind_speed_10m"@,
        );
        lemma_with_item_keeps(h4, f.hourly_timestamps, "time"@, "wind_speed_10m"@);
    }
    if f.hourly_precipitation {
        lemma_with_item_adds(h3, "precipitation_probability"@);
        lemma_with_item_keeps(h4, f.hourly_timestamps, "time"@, "precipitation_probability"@);
    }
    if f.hourly_timestamps {
        lemma_with_item_adds(h4, "time"@);
    }

    assert forall|name: Seq<char>|
        contains_seq(spec_current_list(f), name) && f.spec_any_current() implies contains_seq(
        spec_forecast_url(latitude, longitude, f),
        name,
    ) by {
        lemma_contains_concat_right("&current="@, spec_current_list(f), name);
        lemma_contains_concat_right(head, curpart, name);
        lemma_contains_concat_left(head + curpart, hourpart, name);
        lemma_contains_concat_right(
            "https://api.open-meteo.com/v1/forecast?"@,
            query,
            name,
        );
    }
    assert forall|name: Seq<char>|
        contains_seq(spec_hourly_list(f), name) && f.spec_any_hourly() implies contains_seq(
        spec_forecast_url(latitude, longitude, f),
        name,
    ) by {
        lemma_contains_concat_right("&hourly="@, spec_hourly_list(f), name);
        lemma_contains_concat_right(head + curpart, hourpart, name);
        lemma_contains_concat_right(
            "https://api.open-meteo.com/v1/forecast?"@,
            query,
            name,
        );
    }
}

/// Appends one field name (preceded by a comma when the list is not
/// empty) when the field is requested.
fn append_item(s: &mut String, wanted: bool, name: &str)
    ensures
        final(s)@ == spec_with_item(old(s)@, wanted, name@),
{
    if wanted {
        if !s.as_str().is_empty() {
            s.append(",");
        }
        s.append(name);
    }
}

/// Builds the comma-separated current-conditions field list.
fn current_list(f: &ForecastFieldSet) -> (r: String)
    ensures
        r@ == spec_current_list(*f),
{
    let mut s = String::new();
    append_item(&mut s, f.current_temperature, "temperature_2m");
    append_item(&mut s, f.current_wind_speed, "wind_speed_10m");
    append_item(&mut s, f.current_precipitation, "precipitation_probability");
    s
}

/// Builds the comma-separated hourly field list.
fn hourly_list(f: &ForecastFieldSet) -> (r: String)
    ensures
        r@ == spec_hourly_list(*f),
{
    let mut s = String::new();
    append_item(&mut s, f.hourly_temperature, "temperature_2m");
    append_item(&mut s, f.hourly_humidity, "relative_humidity_2m");
    append_item(&mut s, f.hourly_wind_speed, "wind_speed_10m");
    append_item(&mut s, f.hourly_precipitation, "precipitation_probability");
    append_item(&mut s, f.hourly_timestamps, "time");
    s
}

/// Builds the query string of one forecast request, exactly as
/// `spec_forecast_query` describes.
pub fn forecast_query(latitude: i64, longitude: i64, fields: &ForecastFieldSet) -> (r: String)
    ensures
        r@ == spec_forecast_query(latitude as int, longitude as int, *fields),
{
    let mut s = String::from_str("latitude=");
    let lat_text = format_centi(latitude);
    s.append(lat_text.as_str());
    s.append("&longitude=");
    let lon_text = format_centi(longitude);
    s.append(lon_text.as_str());
    if fields.current_temperature || fields.current_wind_speed || fields.current_precipitation {
        s.append("&current=");
        let list = current_list(fields);
        s.append(list.as_str());
    }
    if fields.hourly_temperature || fields.hourly_humidity || fields.hourly_wind_speed
        || fields.hourly_precipitation || fields.hourly_timestamps {
        s.append("&hourly=");
        let list = hourly_list(fields);
        s.append(list.as_str());
    }
    proof {
        assert(s@ =~= spec_forecast_query(latitude as int, longitude as int, *fields));
    }
    s
}

/// The client identifier outbound requests carry as a courtesy header.
pub fn client_identifier() -> (r: String)
    ensures
        r@ == "weather-lookup/0.1"@,
{
    String::from_str("weather-lookup/0.1")
}

/// Builds the full request URL of one forecast request, exactly as
/// `spec_forecast_url` describes.
pub fn forecast_url(latitude: i64, longitude: i64, fields: &ForecastFieldSet) -> (r: String)
    ensures
        r@ == spec_forecast_url(latitude as int, longitude as int, *fields),
{
    let mut s = String::from_str("https://api.open-meteo.com/v1/forecast?");
    let query = forecast_query(latitude, longitude, fields);
    s.append(query.as_str());
    s
}

} // verus!
