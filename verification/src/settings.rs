//! The hyperparameters of one training run.

use vstd::prelude::*;

verus! {

/// Stores training settings.
///
/// The three numbers are binary64 bit patterns.
#[derive(Copy, Clone, Debug)]
pub struct TrainingSettings {
    /// Acceptable accuracy in error: training succeeds once the error of the
    /// weights is at or below it.
    pub accuracy_error: u64,
    /// The minimum step value, and the floor of every error prediction term.
    ///
    /// When `error_predictions` is `0`, this is used as fixed step.
    pub step: u64,
    /// Maximum number of iterations.
    pub max_iterations: u64,
    /// The number of error prediction terms.
    ///
    /// More terms accelerate the search, but might lead to instability.
    pub error_predictions: usize,
    /// The interval to reset error predictions, in case they are far off or
    /// become unstable. An unchanged error over twice this many iterations
    /// ends the training, so with an interval of `0` the first error that
    /// misses the accuracy already does.
    pub reset_interval: u64,
    /// A factor greater than zero to prevent under or over-stepping.
    ///
    /// Every step is a product of this factor: predicted errors say nothing
    /// of the gradient in the domain, and the elasticity stands in for it.
    pub elasticity: u64,
    /// Whether to hand out a snapshot each reset interval.
    pub debug: bool,
}

} // verus!
