//! The presenter: renders a resolved location and a forecast as display
//! lines.
//!
//! Rendering is a pure function; every line carries the emphasis tier the
//! consumer should apply. Absent optional values render with a `0.00`
//! default, classified as if genuinely zero — a documented simplification,
//! not an accident.

use vstd::prelude::*;
use crate::classify::Emphasis;
use crate::classify::precipitation_emphasis;
use crate::classify::spec_precipitation_emphasis;
use crate::classify::spec_temperature_emphasis;
use crate::classify::spec_wind_emphasis;
use crate::classify::temperature_emphasis;
use crate::classify::wind_emphasis;
use crate::model::CurrentConditions;
use crate::model::ForecastResult;
use crate::model::HourlySeries;
use crate::model::ResolvedLocation;
use crate::numfmt::format_centi;
use crate::numfmt::spec_centi;

verus! {

/// One display line: the emphasis it carries and its text.
pub struct RenderedLine {
    pub emphasis: Emphasis,
    pub text: String,
}

/// The mathematical image of a rendered line.
pub struct LineSpec {
    pub emphasis: Emphasis,
    pub text: Seq<char>,
}

/// The image of a line.
pub open spec fn line_view(l: RenderedLine) -> LineSpec {
    LineSpec { emphasis: l.emphasis, text: l.text@ }
}

/// The images of a sequence of lines.
pub open spec fn lines_view(v: Seq<RenderedLine>) -> Seq<LineSpec> {
    v.map_values(|l: RenderedLine| line_view(l))
}

/// The label shown for a location; a missing label shows a placeholder.
pub open spec fn spec_label(loc: ResolvedLocation) -> Seq<char> {
    match loc.display_label {
        Some(l) => l@,
        None => "Unknown location"@,
    }
}

/// An absent optional value displays as zero.
pub open spec fn opt_or_zero(v: Option<i64>) -> int {
    match v {
        Some(x) => x as int,
        None => 0,
    }
}

/// The three metric lines shown for current conditions.
pub open spec fn spec_current_lines(c: CurrentConditions) -> Seq<LineSpec> {
    let t = opt_or_zero(c.temperature_celsius);
    let w = opt_or_zero(c.wind_speed);
    let p = opt_or_zero(c.precipitation_probability_percent);
    seq![
        (LineSpec {
            emphasis: spec_temperature_emphasis(t),
            text: "Current temperature: "@ + spec_centi(t) + "\u{b0}C"@,
        }),
        (LineSpec {
            emphasis: spec_wind_emphasis(w),
            text: "Wind speed: "@ + spec_centi(w) + " m/s"@,
        }),
        (LineSpec {
            emphasis: spec_precipitation_emphasis(p),
            text: "Precipitation probability: "@ + spec_centi(p) + "%"@,
        }),
    ]
}

/// The number of positions in the series that determines the "latest"
/// index: the timestamp series when present, otherwise the temperature
/// series, otherwise zero.
pub open spec fn spec_latest_count(h: HourlySeries) -> nat {
    match h.timestamps {
        Some(ts) => ts@.len(),
        None => match h.temperature_celsius {
            Some(t) => t@.len(),
            None => 0,
        },
    }
}

/// The value a series shows at the latest index: position `n - 1`, or
/// zero when the series is absent or too short (or `n` is zero).
pub open spec fn spec_latest_value(s: Option<Vec<i64>>, n: nat) -> int {
    if n == 0 {
        0
    } else {
        match s {
            Some(v) => if n - 1 < v@.len() {
                v@[n - 1] as int
            } else {
                0
            },
            None => 0,
        }
    }
}

/// The four "most recent" lines shown for hourly data.
pub open spec fn spec_hourly_lines(h: HourlySeries) -> Seq<LineSpec> {
    let n = spec_latest_count(h);
    seq![
        (LineSpec {
            emphasis: Emphasis::Neutral,
            text: "Latest hourly temperature: "@
                + spec_centi(spec_latest_value(h.temperature_celsius, n)) + "\u{b0}C"@,
        }),
        (LineSpec {
            emphasis: Emphasis::Neutral,
            text: "Latest hourly humidity: "@
                + spec_centi(spec_latest_value(h.humidity_percent, n)) + "%"@,
        }),
        (LineSpec {
            emphasis: Emphasis::Neutral,
            text: "Latest hourly wind speed: "@
                + spec_centi(spec_latest_value(h.wind_speed, n)) + " m/s"@,
        }),
        (LineSpec {
            emphasis: Emphasis::Neutral,
            text: "Latest hourly precipitation probability: "@
                + spec_centi(spec_latest_value(h.precipitation_probability_percent, n)) + "%"@,
        }),
    ]
}

/// The line shown instead of the metric lines when the response had no
/// `current` object.
pub open spec fn spec_missing_current_line() -> LineSpec {
    LineSpec { emphasis: Emphasis::Neutral, text: "Could not retrieve current weather data."@ }
}

/// Everything `render` emits: the location line, then either the three
/// metric lines or the missing-data line, then the latest-hourly lines
/// when hourly data is present.
pub open spec fn spec_render(loc: ResolvedLocation, f: ForecastResult) -> Seq<LineSpec> {
    seq![
        (LineSpec { emphasis: Emphasis::Neutral, text: "Location: "@ + spec_label(loc) }),
    ] + (match f.current {
        Some(c) => spec_current_lines(c),
        None => seq![spec_missing_current_line()],
    }) + (match f.hourly {
        Some(h) => spec_hourly_lines(h),
        None => Seq::<LineSpec>::empty(),
    })
}

/// A forecast response without a `current` object renders as the
/// missing-data line in place of the metric lines: every emitted line is
/// neutral, so no classified metric line appears at all.
pub proof fn lemma_missing_current_renders_no_metrics(loc: ResolvedLocation, f: ForecastResult)
    requires
        f.current is None,
    ensures
        spec_render(loc, f)[1] == spec_missing_current_line(),
        forall|i: int|
            0 <= i < spec_render(loc, f).len() ==> spec_render(loc, f)[i].emphasis
                == Emphasis::Neutral,
{
    let r = spec_render(loc, f);
    assert forall|i: int| 0 <= i < r.len() implies r[i].emphasis == Emphasis::Neutral by {
        match f.hourly {
            Some(h) => {
                assert(r =~= seq![
                    (LineSpec { emphasis: Emphasis::Neutral, text: "Location: "@ + spec_label(loc) }),
                    spec_missing_current_line(),
                ] + spec_hourly_lines(h));
            },
            None => {
                assert(r =~= seq![
                    (LineSpec { emphasis: Emphasis::Neutral, text: "Location: "@ + spec_label(loc) }),
                    spec_missing_current_line(),
                ]);
            },
        }
    }
}

/// When the timestamp series determines a positive latest count `n`,
/// every present series of that same length shows exactly its last
/// element, the one at index `n - 1`.
pub proof fn lemma_latest_index_reads_last(h: HourlySeries, s: Option<Vec<i64>>)
    requires
        h.timestamps is Some,
        spec_latest_count(h) > 0,
        s is Some,
        s.unwrap()@.len() == spec_latest_count(h),
    ensures
        spec_latest_value(s, spec_latest_count(h)) == s.unwrap()@.last(),
{
}

/// The position count of the latest-index-determining series.
fn latest_count(h: &HourlySeries) -> (n: usize)
    ensures
        n as nat == spec_latest_count(*h),
{
    match &h.timestamps {
        Some(ts) => ts.len(),
        None => match &h.temperature_celsius {
            Some(t) => t.len(),
            None => 0,
        },
    }
}

/// Reads the latest value of one hourly series, as `spec_latest_value`
/// describes.
fn latest_value(s: &Option<Vec<i64>>, n: usize) -> (v: i64)
    ensures
        v as int == spec_latest_value(*s, n as nat),
{
    if n == 0 {
        0
    } else {
        match s {
            Some(values) => if n - 1 < values.len() {
                values[n - 1]
            } else {
                0
            },
            None => 0,
        }
    }
}

/// Renders a value with a prefix and a suffix into one emphasized line.
fn metric_line(prefix: &str, value: i64, suffix: &str, emphasis: Emphasis) -> (r: RenderedLine)
    ensures
        (line_view(r) == LineSpec {
            emphasis: emphasis,
            text: prefix@ + spec_centi(value as int) + suffix@,
        }),
{
    let mut text = String::from_str(prefix);
    let formatted = format_centi(value);
    text.append(formatted.as_str());
    text.append(suffix);
    RenderedLine { emphasis, text }
}

/// Renders the location and the forecast into display lines, exactly as
/// `spec_render` describes.
pub fn render(location: &ResolvedLocation, forecast: &ForecastResult) -> (r: Vec<RenderedLine>)
    ensures
        lines_view(r@) == spec_render(*location, *forecast),
{
    let mut out: Vec<RenderedLine> = Vec::new();

    let mut label_text = String::from_str("Location: ");
    match &location.display_label {
        Some(l) => label_text.append(l.as_str()),
        None => label_text.append("Unknown location"),
    }
    out.push(RenderedLine { emphasis: Emphasis::Neutral, text: label_text });

    match &forecast.current {
        Some(c) => {
            let t = match c.temperature_celsius {
                Some(x) => x,
                None => 0,
            };
            let w = match c.wind_speed {
                Some(x) => x,
                None => 0,
            };
            let p = match c.precipitation_probability_percent {
                Some(x) => x,
                None => 0,
            };
            out.push(metric_line("Current temperature: ", t, "\u{b0}C", temperature_emphasis(t)));
            out.push(metric_line("Wind speed: ", w, " m/s", wind_emphasis(w)));
            out.push(metric_line("Precipitation probability: ", p, "%", precipitation_emphasis(p)));
        },
        None => {
            out.push(
                RenderedLine {
                    emphasis: Emphasis::Neutral,
                    text: String::from_str("Could not retrieve current weather data."),
                },
            );
        },
    }

    match &forecast.hourly {
        Some(h) => {
            let n = latest_count(h);
            let lt = latest_value(&h.temperature_celsius, n);
            let lh = latest_value(&h.humidity_percent, n);
            let lw = latest_value(&h.wind_speed, n);
            let lp = latest_value(&h.precipitation_probability_percent, n);
            out.push(metric_line("Latest hourly temperature: ", lt, "\u{b0}C", Emphasis::Neutral));
            out.push(metric_line("Latest hourly humidity: ", lh, "%", Emphasis::Neutral));
            out.push(metric_line("Latest hourly wind speed: ", lw, " m/s", Emphasis::Neutral));
            out.push(
                metric_line(
                    "Latest hourly precipitation probability: ",
                    lp,
                    "%",
                    Emphasis::Neutral,
                ),
            );
        },
        None => {},
    }

    proof {
        assert(lines_view(out@) =~= spec_render(*location, *forecast));
    }
    out
}

} // verus!
