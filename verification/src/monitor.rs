//! The convergence monitor and the reset schedule: the counters of a run and
//! what they decide once the error of the current weights is known.

use vstd::prelude::*;
use crate::number::{at_most, equal, le, same};
use crate::settings::TrainingSettings;

verus! {

/// The counters of one training run.
#[derive(Copy, Clone, Debug)]
pub struct Monitor {
    /// Completed sweeps.
    pub iterations: u64,
    /// The error seen at the start of the previous iteration, if there was
    /// one.
    pub last_score: Option<u64>,
    /// How many iterations in a row started with the error of the one before.
    pub stagnation: u64,
}

/// How an iteration begins.
#[derive(Copy, Clone, Debug, PartialEq, Eq, Structural)]
pub enum Verdict {
    /// The error is at or below the accepted accuracy.
    Success,
    /// The iterations are used up, or the error has not changed over twice
    /// the reset interval.
    Failure,
    /// Another sweep follows.
    Continue,
}

/// The verdict on an error: accuracy is looked at first, so a run that
/// reaches it on its last iteration still succeeds.
pub open spec fn verdict(settings: TrainingSettings, monitor: Monitor, score: u64) -> Verdict {
    if le(score, settings.accuracy_error) {
        Verdict::Success
    } else if monitor.iterations >= settings.max_iterations || monitor.stagnation >= 2
        * settings.reset_interval {
        Verdict::Failure
    } else {
        Verdict::Continue
    }
}

/// The counters after an error was seen: an error equal to the last one
/// lengthens the stagnation, any other ends it. A NaN equals nothing.
pub open spec fn observed(monitor: Monitor, score: u64) -> Monitor {
    Monitor {
        iterations: monitor.iterations,
        last_score: Some(score),
        stagnation: if monitor.last_score matches Some(last) && same(last, score) {
            (monitor.stagnation + 1) as u64
        } else {
            0
        },
    }
}

/// Whether the error prediction terms are reset before this iteration's
/// sweep: on every multiple of the reset interval, the first iteration
/// included.
pub open spec fn reset_due(settings: TrainingSettings, monitor: Monitor) -> bool {
    settings.reset_interval > 0 && monitor.iterations % settings.reset_interval == 0
}

impl Monitor {
    /// The counters at the start of a run.
    pub fn new() -> (r: Monitor)
        ensures
            r == (Monitor { iterations: 0, last_score: None, stagnation: 0 }),
    {
        Monitor { iterations: 0, last_score: None, stagnation: 0 }
    }

    /// Judges the error with which an iteration begins.
    pub fn judge(&self, settings: &TrainingSettings, score: u64) -> (r: Verdict)
        ensures
            r == verdict(*settings, *self, score),
    {
        if at_most(score, settings.accuracy_error) {
            Verdict::Success
        } else if self.iterations >= settings.max_iterations || (self.stagnation
            >= settings.reset_interval && self.stagnation - settings.reset_interval
            >= settings.reset_interval) {
            Verdict::Failure
        } else {
            Verdict::Continue
        }
    }

    /// Records the error with which an iteration begins.
    pub fn observe(&mut self, score: u64)
        requires
            old(self).stagnation < u64::MAX,
        ensures
            *final(self) == observed(*old(self), score),
    {
        let repeated: bool = match self.last_score {
            Some(last) => equal(last, score),
            None => false,
        };
        if repeated {
            self.stagnation = self.stagnation + 1;
        } else {
            self.stagnation = 0;
        }
        self.last_score = Some(score);
    }

    /// Tells whether a reset precedes this iteration's sweep.
    pub fn is_reset_due(&self, settings: &TrainingSettings) -> (r: bool)
        ensures
            r == reset_due(*settings, *self),
    {
        settings.reset_interval > 0 && self.iterations % settings.reset_interval == 0
    }
}

} // verus!
