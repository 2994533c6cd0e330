//! The rules of the search that look at numbers already at hand: where a
//! coordinate's step comes from, the floor under the error prediction terms,
//! and which of the three probed positions a coordinate keeps.

use vstd::prelude::*;
use crate::number::{at_most, below, le, lt};

verus! {

/// Where the step of a coordinate is taken from, before the elasticity
/// scales it.
#[derive(Copy, Clone, Debug, PartialEq, Eq, Structural)]
pub enum StepSource {
    /// The error prediction term at this index: a term of higher order sets
    /// the step of the term below it, and the lowest term that of the
    /// weights.
    Prediction(usize),
    /// The minimum step of the settings.
    Minimum,
}

/// The source of the step of coordinate `index`, with `terms` error
/// prediction terms in front of the weights.
pub open spec fn step_source(terms: usize, index: usize) -> StepSource {
    if index + 1 < terms {
        StepSource::Prediction((index + 1) as usize)
    } else if index + 1 == terms {
        StepSource::Minimum
    } else if terms > 0 {
        StepSource::Prediction(0)
    } else {
        StepSource::Minimum
    }
}

/// Picks the source of the step of coordinate `index`.
pub fn pick_step_source(terms: usize, index: usize) -> (r: StepSource)
    ensures
        r == step_source(terms, index),
        r matches StepSource::Prediction(at) ==> at < terms,
{
    if index < terms {
        if index + 1 < terms {
            StepSource::Prediction(index + 1)
        } else {
            StepSource::Minimum
        }
    } else if terms > 0 {
        StepSource::Prediction(0)
    } else {
        StepSource::Minimum
    }
}

/// The step of coordinate `index` before scaling, read from the cells of the
/// search state.
pub open spec fn step_base(terms: usize, minimum: u64, cells: Seq<u64>, index: usize) -> u64 {
    match step_source(terms, index) {
        StepSource::Prediction(at) => cells[at as int],
        StepSource::Minimum => minimum,
    }
}

/// A value held to a floor: the floor replaces a value at or below it.
/// A NaN is not at or below anything and passes.
pub open spec fn floored(value: u64, floor: u64) -> u64 {
    if le(value, floor) {
        floor
    } else {
        value
    }
}

/// Holds a value to a floor.
pub fn hold_floor(value: u64, floor: u64) -> (r: u64)
    ensures
        r == floored(value, floor),
{
    if at_most(value, floor) {
        floor
    } else {
        value
    }
}

/// The value of coordinate `index` after the floor rule: error prediction
/// terms are held to the floor, weights are left alone.
pub open spec fn clamped(terms: usize, floor: u64, index: usize, value: u64) -> u64 {
    if index < terms {
        floored(value, floor)
    } else {
        value
    }
}

/// Applies the floor rule to a value meant for coordinate `index`.
pub fn clamp_if_prediction(terms: usize, floor: u64, index: usize, value: u64) -> (r: u64)
    ensures
        r == clamped(terms, floor, index, value),
{
    if index < terms {
        hold_floor(value, floor)
    } else {
        value
    }
}

/// What a coordinate does once its three positions are scored.
#[derive(Copy, Clone, Debug, PartialEq, Eq, Structural)]
pub enum Decision {
    /// Back to the value it had before the probes.
    Revert,
    /// To the upper position.
    MoveUp,
    /// Stay at the lower position, where the last probe left it.
    StayDown,
}

/// The decision for the scores at the old, the upper and the lower position.
/// A tie with the old position favours no movement; a tie between up and down
/// favours down. No comparison with a NaN holds: a NaN at either probe
/// leaves the coordinate down, and a NaN at the old position is never gone
/// back to.
pub open spec fn decision(baseline: u64, up: u64, down: u64) -> Decision {
    if le(baseline, up) && le(baseline, down) {
        Decision::Revert
    } else if lt(up, down) {
        Decision::MoveUp
    } else {
        Decision::StayDown
    }
}

/// Decides between the old, the upper and the lower position.
pub fn decide(baseline: u64, up: u64, down: u64) -> (r: Decision)
    ensures
        r == decision(baseline, up, down),
{
    if at_most(baseline, up) && at_most(baseline, down) {
        Decision::Revert
    } else if below(up, down) {
        Decision::MoveUp
    } else {
        Decision::StayDown
    }
}

} // verus!
