//! The result record of a training run.

use vstd::prelude::*;

verus! {

/// Stores fit data.
///
/// The error and the entries of both vectors are binary64 bit patterns.
#[derive(Clone, Debug)]
pub struct Fit {
    /// The error of the fit.
    pub error: u64,
    /// Weights of best fit (so far).
    pub weights: Vec<u64>,
    /// Error predictions weights.
    pub error_predictions: Vec<u64>,
    /// The number of iterations to produce the result.
    pub iterations: u64,
}

/// A fit as a mathematical value.
pub struct FitView {
    pub error: u64,
    pub weights: Seq<u64>,
    pub error_predictions: Seq<u64>,
    pub iterations: u64,
}

impl View for Fit {
    type V = FitView;

    open spec fn view(&self) -> FitView {
        FitView {
            error: self.error,
            weights: self.weights@,
            error_predictions: self.error_predictions@,
            iterations: self.iterations,
        }
    }
}

/// The two outcomes of a training as mathematical values: `Ok` when the
/// accuracy was reached, `Err` when the training gave up.
pub open spec fn outcome_view(outcome: Result<Fit, Fit>) -> Result<FitView, FitView> {
    match outcome {
        Ok(fit) => Ok(fit@),
        Err(fit) => Err(fit@),
    }
}

/// The fit that an outcome carries.
pub open spec fn outcome_fit(outcome: Result<FitView, FitView>) -> FitView {
    match outcome {
        Ok(fit) => fit,
        Err(fit) => fit,
    }
}

} // verus!
