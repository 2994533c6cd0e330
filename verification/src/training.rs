//! The training, stated directly: what a run returns when its host answers
//! as four fixed functions do.

use vstd::prelude::*;
use crate::fit::FitView;
use crate::machine::{fresh_terms, Request};
use crate::monitor::{observed, reset_due, verdict, Monitor, Verdict};
use crate::number::{magnitude, TWO, ZERO};
use crate::policy::{clamped, decision, step_base, Decision};
use crate::settings::TrainingSettings;

verus! {

/// A host as mathematics: the error function and the three operations on
/// binary64 numbers, each a function of its arguments alone.
pub struct Oracle {
    pub error: spec_fn(Seq<u64>) -> u64,
    pub sum: spec_fn(u64, u64) -> u64,
    pub difference: spec_fn(u64, u64) -> u64,
    pub product: spec_fn(u64, u64) -> u64,
}

impl Oracle {
    /// The answer to a request. A snapshot and an outcome are answered with
    /// zero: no one looks at the answer.
    pub open spec fn answer(self, request: Request) -> u64 {
        match request {
            Request::Evaluate(weights) => (self.error)(weights),
            Request::Sum(a, b) => (self.sum)(a, b),
            Request::Difference(a, b) => (self.difference)(a, b),
            Request::Product(a, b) => (self.product)(a, b),
            Request::Report(fit) => ZERO,
            Request::Finish(outcome) => ZERO,
        }
    }

    /// The error of the weights of a search state with `terms` prediction
    /// terms in front.
    pub open spec fn raw_score(self, terms: usize, cells: Seq<u64>) -> u64 {
        (self.error)(cells.subrange(terms as int, cells.len() as int))
    }

    /// A score raised by its distance from one prediction term.
    pub open spec fn raised(self, score: u64, term: u64) -> u64 {
        (self.sum)(score, magnitude((self.difference)(score, term)))
    }

    /// A score carried through the prediction terms from `term` on, in
    /// order: each term works on the score that the terms before it left.
    pub open spec fn cascade_score(self, terms: usize, cells: Seq<u64>, term: usize, score: u64) -> u64
        decreases terms - term,
    {
        if term < terms {
            self.cascade_score(
                terms,
                cells,
                (term + 1) as usize,
                self.raised(score, cells[term as int]),
            )
        } else {
            score
        }
    }

    /// The score that the sweep minimises: the error of the weights carried
    /// through all prediction terms.
    pub open spec fn augmented_score(self, terms: usize, cells: Seq<u64>) -> u64 {
        self.cascade_score(terms, cells, 0, self.raw_score(terms, cells))
    }

    /// The step of coordinate `index`: the elasticity times the base that
    /// the coordinate's place in the search state selects.
    pub open spec fn step_for(self, settings: TrainingSettings, cells: Seq<u64>, index: usize) -> u64 {
        (self.product)(
            settings.elasticity,
            step_base(settings.error_predictions, settings.step, cells, index),
        )
    }

    /// The search state with coordinate `index` moved to `value`, held to the
    /// floor if the coordinate is a prediction term.
    pub open spec fn probe(settings: TrainingSettings, cells: Seq<u64>, index: usize, value: u64) -> Seq<
        u64,
    > {
        cells.update(
            index as int,
            clamped(settings.error_predictions, settings.step, index, value),
        )
    }

    /// The search state after the turn of coordinate `index`.
    pub open spec fn turn(self, settings: TrainingSettings, cells: Seq<u64>, index: usize) -> Seq<
        u64,
    > {
        let terms = settings.error_predictions;
        let baseline = self.augmented_score(terms, cells);
        let origin = cells[index as int];
        let step = self.step_for(settings, cells, index);
        let up = Self::probe(settings, cells, index, (self.sum)(origin, step));
        let upper = self.augmented_score(terms, up);
        let twice = (self.product)(TWO, step);
        let down = Self::probe(
            settings,
            up,
            index,
            (self.difference)(up[index as int], twice),
        );
        let lower = self.augmented_score(terms, down);
        match decision(baseline, upper, lower) {
            Decision::Revert => cells,
            Decision::MoveUp => down.update(index as int, (self.sum)(down[index as int], twice)),
            Decision::StayDown => down,
        }
    }

    /// The search state after the turns of all coordinates from `index` on,
    /// in ascending order: each turn starts from what the turns before it
    /// left.
    pub open spec fn sweep(self, settings: TrainingSettings, cells: Seq<u64>, index: usize) -> Seq<
        u64,
    >
        decreases cells.len() - index,
    {
        if index < cells.len() <= usize::MAX {
            self.sweep(settings, self.turn(settings, cells, index), (index + 1) as usize)
        } else {
            cells
        }
    }

    /// The search state as a sweep finds it: with fresh prediction terms if a
    /// reset is due.
    pub open spec fn prepared(settings: TrainingSettings, monitor: Monitor, cells: Seq<u64>) -> Seq<
        u64,
    > {
        let terms = settings.error_predictions;
        if reset_due(settings, monitor) {
            fresh_terms(terms, settings.step) + cells.subrange(terms as int, cells.len() as int)
        } else {
            cells
        }
    }

    /// The outcome of a run that stands, between two iterations, at this
    /// search state with these counters.
    pub open spec fn run(self, settings: TrainingSettings, monitor: Monitor, cells: Seq<u64>) -> Result<
        FitView,
        FitView,
    >
        decreases settings.max_iterations - monitor.iterations,
    {
        let terms = settings.error_predictions;
        let score = self.raw_score(terms, cells);
        let fit = FitView {
            error: score,
            weights: cells.subrange(terms as int, cells.len() as int),
            error_predictions: cells.subrange(0, terms as int),
            iterations: monitor.iterations,
        };
        match verdict(settings, monitor, score) {
            Verdict::Success => Ok(fit),
            Verdict::Failure => Err(fit),
            Verdict::Continue => {
                let swept = self.sweep(settings, Self::prepared(settings, monitor, cells), 0);
                let seen = observed(monitor, score);
                self.run(
                    settings,
                    Monitor { iterations: (monitor.iterations + 1) as u64, ..seen },
                    swept,
                )
            },
        }
    }

    /// The outcome of a training on the given weights.
    pub open spec fn training(self, settings: TrainingSettings, weights: Seq<u64>) -> Result<
        FitView,
        FitView,
    > {
        self.run(
            settings,
            Monitor { iterations: 0, last_score: None, stagnation: 0 },
            fresh_terms(settings.error_predictions, settings.step) + weights,
        )
    }
}

} // verus!
