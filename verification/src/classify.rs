//! Threshold-based emphasis of weather values.
//!
//! The presenter classifies each displayed value into an emphasis tier;
//! the higher threshold is always evaluated first, so a value above it
//! never falls into a lower tier merely because it also clears the lower
//! threshold.

use vstd::prelude::*;

verus! {

/// Wind speeds above this count of hundredths (15 m/s) are high.
pub const WIND_HIGH_CENTI: i64 = 1500;

/// Wind speeds above this count of hundredths (5 m/s) are moderate.
pub const WIND_MODERATE_CENTI: i64 = 500;

/// Precipitation probabilities above this count of hundredths (60%) are high.
pub const PRECIPITATION_HIGH_CENTI: i64 = 6000;

/// Precipitation probabilities above this count of hundredths (30%) are
/// moderate.
pub const PRECIPITATION_MODERATE_CENTI: i64 = 3000;

/// The emphasis a rendered line carries; the consumer maps it to a color
/// or other visual tag.
#[derive(Clone, Copy, PartialEq, Eq, Structural, Debug)]
pub enum Emphasis {
    /// A temperature above zero.
    Warm,
    /// A temperature at or below zero.
    Cold,
    /// A wind speed or precipitation probability above the high threshold.
    High,
    /// A value above the moderate threshold only.
    Moderate,
    /// A wind speed at or below the moderate threshold.
    Calm,
    /// A precipitation probability at or below the moderate threshold.
    Low,
    /// A line with no classified value.
    Neutral,
}

/// Two-tier temperature emphasis: above zero is warm, otherwise cold.
pub open spec fn spec_temperature_emphasis(t: int) -> Emphasis {
    if t > 0 {
        Emphasis::Warm
    } else {
        Emphasis::Cold
    }
}

/// Three-tier wind emphasis, high threshold first.
pub open spec fn spec_wind_emphasis(w: int) -> Emphasis {
    if w > WIND_HIGH_CENTI as int {
        Emphasis::High
    } else if w > WIND_MODERATE_CENTI as int {
        Emphasis::Moderate
    } else {
        Emphasis::Calm
    }
}

/// Three-tier precipitation emphasis, high threshold first.
pub open spec fn spec_precipitation_emphasis(p: int) -> Emphasis {
    if p > PRECIPITATION_HIGH_CENTI as int {
        Emphasis::High
    } else if p > PRECIPITATION_MODERATE_CENTI as int {
        Emphasis::Moderate
    } else {
        Emphasis::Low
    }
}

/// Classifies a temperature, in hundredths of a degree.
pub fn temperature_emphasis(t: i64) -> (r: Emphasis)
    ensures
        r == spec_temperature_emphasis(t as int),
{
    if t > 0 {
        Emphasis::Warm
    } else {
        Emphasis::Cold
    }
}

/// Classifies a wind speed, in hundredths of a meter per second.
pub fn wind_emphasis(w: i64) -> (r: Emphasis)
    ensures
        r == spec_wind_emphasis(w as int),
{
    if w > WIND_HIGH_CENTI {
        Emphasis::High
    } else if w > WIND_MODERATE_CENTI {
        Emphasis::Moderate
    } else {
        Emphasis::Calm
    }
}

/// Classifies a precipitation probability, in hundredths of a percent
/// point.
pub fn precipitation_emphasis(p: i64) -> (r: Emphasis)
    ensures
        r == spec_precipitation_emphasis(p as int),
{
    if p > PRECIPITATION_HIGH_CENTI {
        Emphasis::High
    } else if p > PRECIPITATION_MODERATE_CENTI {
        Emphasis::Moderate
    } else {
        Emphasis::Low
    }
}

/// A wind speed above the high threshold is always classified high, even
/// though it also exceeds the moderate threshold.
pub proof fn lemma_high_wind_dominates(w: int)
    requires
        w > WIND_HIGH_CENTI as int,
    ensures
        w > WIND_MODERATE_CENTI as int,
        spec_wind_emphasis(w) == Emphasis::High,
{
}

/// A precipitation probability above the high threshold is always
/// classified high, even though it also exceeds the moderate threshold.
pub proof fn lemma_high_precipitation_dominates(p: int)
    requires
        p > PRECIPITATION_HIGH_CENTI as int,
    ensures
        p > PRECIPITATION_MODERATE_CENTI as int,
        spec_precipitation_emphasis(p) == Emphasis::High,
{
}

} // verus!
