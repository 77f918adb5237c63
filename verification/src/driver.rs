//! The pipeline driver: a state machine from resolve to fetch to render.
//!
//! The driver decides; the caller performs. Each step takes the current
//! state and the outcome of the last outside action, and returns the
//! next state together with the effects the caller must perform. A run
//! that found no location or failed to fetch still ends cleanly with
//! exit code zero; only a resolution transport or decode failure is
//! run-fatal.

use vstd::prelude::*;
use crate::model::ForecastFieldSet;
use crate::model::ForecastResult;
use crate::model::ResolvedLocation;
use crate::model::WeatherError;
use crate::model::spec_error_message;
use crate::render::RenderedLine;
use crate::render::lines_view;
use crate::render::render;
use crate::render::spec_render;

verus! {

/// Where a run stands.
pub enum DriverState {
    /// Waiting for the resolver's outcome.
    Resolving,
    /// The location is resolved; waiting for the fetcher's outcome.
    Fetching(ResolvedLocation),
    /// The run is over, with this process exit code.
    Done(u8),
}

/// The outcome of the outside action the driver last asked for.
pub enum DriverEvent {
    /// The resolver finished.
    Resolved(Result<ResolvedLocation, WeatherError>),
    /// The fetcher finished.
    Fetched(Result<ForecastResult, WeatherError>),
}

/// What the caller must perform after a step.
pub enum DriverEffect {
    /// Fetch the forecast for these coordinates and fields.
    FetchForecast { latitude: i64, longitude: i64, fields: ForecastFieldSet },
    /// Print these lines on the output stream.
    EmitOut(Vec<RenderedLine>),
    /// Print this message on the error stream.
    EmitErr(String),
}

/// The exit code a resolution error ends the run with: transport and
/// decode failures are run-fatal, a missing location or missing
/// coordinates end the run cleanly.
pub open spec fn spec_resolve_exit_code(e: WeatherError) -> u8 {
    match e {
        WeatherError::Transport(_) => 1u8,
        WeatherError::Decode(_) => 1u8,
        WeatherError::LocationNotFound => 0u8,
        WeatherError::MissingCoordinates => 0u8,
    }
}

/// What one driver step does: the exact next state and effects for
/// every state and event, including an event that does not belong to
/// the state, which changes nothing.
pub open spec fn spec_driver_step(
    state: DriverState,
    event: DriverEvent,
    fields: ForecastFieldSet,
    next: DriverState,
    effects: Seq<DriverEffect>,
) -> bool {
    match state {
        DriverState::Resolving => match event {
            DriverEvent::Resolved(outcome) => match outcome {
                Ok(loc) => next == DriverState::Fetching(loc) && effects.len() == 1 && effects[0]
                    == (DriverEffect::FetchForecast {
                    latitude: loc.latitude,
                    longitude: loc.longitude,
                    fields,
                }),
                Err(e) => next == DriverState::Done(spec_resolve_exit_code(e)) && effects.len()
                    == 1 && (effects[0] matches DriverEffect::EmitErr(m) && m@
                    == spec_error_message(e)),
            },
            DriverEvent::Fetched(_) => next == state && effects.len() == 0,
        },
        DriverState::Fetching(loc) => match event {
            DriverEvent::Fetched(outcome) => match outcome {
                Ok(forecast) => next == DriverState::Done(0) && effects.len() == 1 && (effects[0]
                    matches DriverEffect::EmitOut(lines) && lines_view(lines@) == spec_render(
                    loc,
                    forecast,
                )),
                Err(e) => next == DriverState::Done(0) && effects.len() == 1 && (effects[0]
                    matches DriverEffect::EmitErr(m) && m@ == "could not retrieve the forecast: "@
                    + spec_error_message(e)),
            },
            DriverEvent::Resolved(_) => next == state && effects.len() == 0,
        },
        DriverState::Done(_) => next == state && effects.len() == 0,
    }
}

/// Performs one driver step, exactly as `spec_driver_step` describes.
pub fn driver_step(state: DriverState, event: DriverEvent, fields: ForecastFieldSet) -> (r: (
    DriverState,
    Vec<DriverEffect>,
))
    ensures
        spec_driver_step(state, event, fields, r.0, r.1@),
{
    match state {
        DriverState::Resolving => match event {
            DriverEvent::Resolved(outcome) => match outcome {
                Ok(loc) => {
                    let mut effects: Vec<DriverEffect> = Vec::new();
                    let latitude = loc.latitude;
                    let longitude = loc.longitude;
                    effects.push(DriverEffect::FetchForecast { latitude, longitude, fields });
                    (DriverState::Fetching(loc), effects)
                },
                Err(e) => {
                    let mut effects: Vec<DriverEffect> = Vec::new();
                    let message = e.message();
                    effects.push(DriverEffect::EmitErr(message));
                    let exit_code: u8 = match &e {
                        WeatherError::Transport(_) => 1,
                        WeatherError::Decode(_) => 1,
                        WeatherError::LocationNotFound => 0,
                        WeatherError::MissingCoordinates => 0,
                    };
                    (DriverState::Done(exit_code), effects)
                },
            },
            DriverEvent::Fetched(_) => (DriverState::Resolving, Vec::new()),
        },
        DriverState::Fetching(loc) => match event {
            DriverEvent::Fetched(outcome) => match outcome {
                Ok(forecast) => {
                    let mut effects: Vec<DriverEffect> = Vec::new();
                    let lines = render(&loc, &forecast);
                    effects.push(DriverEffect::EmitOut(lines));
                    (DriverState::Done(0), effects)
                },
                Err(e) => {
                    let mut effects: Vec<DriverEffect> = Vec::new();
                    let mut message = String::from_str("could not retrieve the forecast: ");
                    let cause = e.message();
                    message.append(cause.as_str());
                    effects.push(DriverEffect::EmitErr(message));
                    (DriverState::Done(0), effects)
                },
            },
            DriverEvent::Resolved(_) => (DriverState::Fetching(loc), Vec::new()),
        },
        DriverState::Done(code) => (DriverState::Done(code), Vec::new()),
    }
}

/// A resolution that found no candidates ends the run cleanly: the next
/// state is done with exit code zero, and no step of the whole run ever
/// asks for a fetch.
pub proof fn lemma_not_found_never_fetches(
    fields: ForecastFieldSet,
    next: DriverState,
    effects: Seq<DriverEffect>,
)
    requires
        spec_driver_step(
            DriverState::Resolving,
            DriverEvent::Resolved(Err(WeatherError::LocationNotFound)),
            fields,
            next,
            effects,
        ),
    ensures
        next == DriverState::Done(0),
        forall|i: int|
            0 <= i < effects.len() ==> !(#[trigger] effects[i] is FetchForecast),
{
}

} // verus!
