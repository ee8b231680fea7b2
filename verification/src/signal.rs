//! How a visual state is shown on an RGB light: which color, and whether it
//! is steady, glows or blinks.

use vstd::prelude::*;
use crate::status::{AggregationSummary, VisualState};

verus! {

/// The colors that a visual state is shown in.
#[derive(Clone, Copy, Debug, PartialEq, Eq, Structural)]
pub enum LedColor {
    Red,
    Green,
    Blue,
    Yellow,
    Teal,
}

/// What the light does.
#[derive(Clone, Copy, Debug, PartialEq, Eq, Structural)]
pub enum LedPattern {
    /// The color, on.
    Steady(LedColor),
    /// The color, fading in and out.
    Glow(LedColor),
    /// The color, on and off.
    Blink(LedColor),
}

/// The pattern of a state, given the number of confirmed failures behind it.
///
/// - `Healthy` is steady green, and nothing else is.
/// - `Unhealthy` blinks red.
/// - `Degraded` glows: teal where nothing failed and the doubt comes from
///   unknowns alone, yellow where something failed.
/// - `Mixed` glows teal.
/// - `Unreachable` and `Ambiguous` glow blue: nothing is known.
pub open spec fn pattern_of(state: VisualState, failed: int) -> LedPattern {
    match state {
        VisualState::Healthy => LedPattern::Steady(LedColor::Green),
        VisualState::Unhealthy => LedPattern::Blink(LedColor::Red),
        VisualState::Degraded => if failed <= 0 {
            LedPattern::Glow(LedColor::Teal)
        } else {
            LedPattern::Glow(LedColor::Yellow)
        },
        VisualState::Mixed => LedPattern::Glow(LedColor::Teal),
        VisualState::Unreachable => LedPattern::Glow(LedColor::Blue),
        VisualState::Ambiguous => LedPattern::Glow(LedColor::Blue),
    }
}

/// The pattern that shows `state`, with the counts behind it.
pub fn pattern_for(state: VisualState, summary: &AggregationSummary) -> (pattern: LedPattern)
    ensures
        pattern == pattern_of(state, summary.failed as int),
{
    match state {
        VisualState::Healthy => LedPattern::Steady(LedColor::Green),
        VisualState::Unhealthy => LedPattern::Blink(LedColor::Red),
        VisualState::Degraded => if summary.failed == 0 {
            LedPattern::Glow(LedColor::Teal)
        } else {
            LedPattern::Glow(LedColor::Yellow)
        },
        VisualState::Mixed => LedPattern::Glow(LedColor::Teal),
        VisualState::Unreachable => LedPattern::Glow(LedColor::Blue),
        VisualState::Ambiguous => LedPattern::Glow(LedColor::Blue),
    }
}

/// The light is green for `Healthy` alone, and red for `Unhealthy` alone.
pub proof fn green_and_red_are_certain(state: VisualState, failed: int)
    ensures
        pattern_of(state, failed) == LedPattern::Steady(LedColor::Green) <==> state
            == VisualState::Healthy,
        pattern_of(state, failed) == LedPattern::Blink(LedColor::Red) <==> state
            == VisualState::Unhealthy,
{
}

} // verus!
