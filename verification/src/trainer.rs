//! The training machine in executable form.

use vstd::prelude::*;
use crate::fit::Fit;
use crate::machine::{fresh_terms, Machine, Probe, Request, Stage, Turn};
use crate::monitor::{Monitor, Verdict};
use crate::number::{absolute, TWO, ZERO};
use crate::policy::{clamp_if_prediction, decide, pick_step_source, Decision, StepSource};
use crate::settings::TrainingSettings;

verus! {

/// A request to the host, which answers with one binary64 bit pattern.
#[derive(Debug)]
pub enum Action {
    /// The error of these weights.
    Evaluate(Vec<u64>),
    /// The sum of the two numbers.
    Sum(u64, u64),
    /// The first number less the second.
    Difference(u64, u64),
    /// The product of the two numbers.
    Product(u64, u64),
    /// To take note of this snapshot; any answer resumes the run.
    Report(Fit),
    /// Nothing more: the run is over. `Ok` if the accepted accuracy was
    /// reached, `Err` if the iterations were used up or the error stayed
    /// unchanged over twice the reset interval.
    Finish(Result<Fit, Fit>),
}

impl View for Action {
    type V = Request;

    open spec fn view(&self) -> Request {
        match *self {
            Action::Evaluate(weights) => Request::Evaluate(weights@),
            Action::Sum(a, b) => Request::Sum(a, b),
            Action::Difference(a, b) => Request::Difference(a, b),
            Action::Product(a, b) => Request::Product(a, b),
            Action::Report(fit) => Request::Report(fit@),
            Action::Finish(outcome) => Request::Finish(
                match outcome {
                    Ok(fit) => Ok(fit@),
                    Err(fit) => Err(fit@),
                },
            ),
        }
    }
}

/// A training run in progress.
pub struct Trainer {
    settings: TrainingSettings,
    cells: Vec<u64>,
    monitor: Monitor,
    stage: Stage,
    turn: Turn,
}

impl View for Trainer {
    type V = Machine;

    closed spec fn view(&self) -> Machine {
        Machine {
            settings: self.settings,
            cells: self.cells@,
            monitor: self.monitor,
            stage: self.stage,
            turn: self.turn,
        }
    }
}

/// Copies the cells from `from` up to `to`.
fn copy_cells(cells: &Vec<u64>, from: usize, to: usize) -> (r: Vec<u64>)
    requires
        from <= to <= cells.len(),
    ensures
        r@ == cells@.subrange(from as int, to as int),
{
    let mut r: Vec<u64> = Vec::new();
    let mut at: usize = from;
    while at < to
        invariant
            from <= at <= to <= cells.len(),
            r@ == cells@.subrange(from as int, at as int),
        decreases to - at,
    {
        r.push(cells[at]);
        at = at + 1;
        assert(r@ =~= cells@.subrange(from as int, at as int));
    }
    r
}

impl Trainer {
    /// Starts a run on the given weights: the search state is the error
    /// prediction terms, the first at the minimum step and the others at
    /// zero, followed by the weights.
    pub fn new(settings: TrainingSettings, weights: &[u64]) -> (r: Trainer)
        requires
            settings.error_predictions + weights@.len() <= usize::MAX,
        ensures
            r@ == Machine::initial(settings, weights@),
            r@.wf(),
    {
        let mut cells: Vec<u64> = Vec::new();
        let mut term: usize = 0;
        while term < settings.error_predictions
            invariant
                term <= settings.error_predictions,
                cells@ == fresh_terms(term, settings.step),
            decreases settings.error_predictions - term,
        {
            cells.push(
                if term == 0 {
                    settings.step
                } else {
                    ZERO
                },
            );
            term = term + 1;
            assert(cells@ =~= fresh_terms(term, settings.step));
        }
        let mut at: usize = 0;
        while at < weights.len()
            invariant
                at <= weights@.len(),
                cells@ == fresh_terms(settings.error_predictions, settings.step)
                    + weights@.subrange(0, at as int),
            decreases weights@.len() - at,
        {
            cells.push(weights[at]);
            at = at + 1;
            assert(cells@ =~= fresh_terms(settings.error_predictions, settings.step)
                + weights@.subrange(0, at as int));
        }
        assert(weights@.subrange(0, at as int) =~= weights@);
        proof {
            crate::machine::lemma_initial_wf(settings, weights@);
        }
        Trainer {
            settings,
            cells,
            monitor: Monitor::new(),
            stage: Stage::Opening,
            turn: Turn { index: 0, origin: ZERO, step: ZERO, twice: ZERO, baseline: ZERO, upper: ZERO },
        }
    }

    /// A snapshot of the run with the given error of the weights.
    fn fit(&self, error: u64) -> (r: Fit)
        requires
            self@.terms() <= self@.cells.len(),
        ensures
            r@ == self@.fit(error),
    {
        Fit {
            error,
            weights: copy_cells(&self.cells, self.settings.error_predictions, self.cells.len()),
            error_predictions: copy_cells(&self.cells, 0, self.settings.error_predictions),
            iterations: self.monitor.iterations,
        }
    }

    /// The request the run is waiting on.
    pub fn request(&self) -> (r: Action)
        requires
            self@.wf(),
        ensures
            r@ == self@.pending(),
    {
        match self.stage {
            Stage::Opening => Action::Evaluate(
                copy_cells(&self.cells, self.settings.error_predictions, self.cells.len()),
            ),
            Stage::Reported { score } => Action::Report(self.fit(score)),
            Stage::Error { probe } => Action::Evaluate(
                copy_cells(&self.cells, self.settings.error_predictions, self.cells.len()),
            ),
            Stage::Gap { probe, term, score } => Action::Difference(score, self.cells[term]),
            Stage::Raised { probe, term, score, gap } => Action::Sum(score, gap),
            Stage::Step => {
                let base: u64 = match pick_step_source(
                    self.settings.error_predictions,
                    self.turn.index,
                ) {
                    StepSource::Prediction(at) => self.cells[at],
                    StepSource::Minimum => self.settings.step,
                };
                Action::Product(self.settings.elasticity, base)
            },
            Stage::Lift => Action::Sum(self.turn.origin, self.turn.step),
            Stage::Double => Action::Product(TWO, self.turn.step),
            Stage::Lower => Action::Difference(self.cells[self.turn.index], self.turn.twice),
            Stage::Restore => Action::Sum(self.cells[self.turn.index], self.turn.twice),
            Stage::Finished { success, error } => {
                let fit = self.fit(error);
                Action::Finish(
                    if success {
                        Ok(fit)
                    } else {
                        Err(fit)
                    },
                )
            },
        }
    }

    /// Sets the turn's coordinate.
    fn place(&mut self, value: u64)
        requires
            old(self)@.turn.index < old(self)@.cells.len(),
        ensures
            final(self)@ == old(self)@.placed(value),
    {
        self.cells.set(self.turn.index, value);
    }

    /// Resets the error prediction terms.
    fn reset(&mut self)
        requires
            old(self)@.terms() <= old(self)@.cells.len(),
        ensures
            final(self)@ == old(self)@.reset(),
    {
        let ghost start = self@;
        let terms: usize = self.settings.error_predictions;
        let mut term: usize = 0;
        assert(start.cells =~= fresh_terms(0, start.settings.step) + start.cells.subrange(
            0,
            start.cells.len() as int,
        ));
        while term < terms
            invariant
                term <= terms <= start.cells.len(),
                terms == start.settings.error_predictions,
                self@ == (Machine {
                    cells: fresh_terms(term, start.settings.step) + start.cells.subrange(
                        term as int,
                        start.cells.len() as int,
                    ),
                    ..start
                }),
            decreases terms - term,
        {
            self.cells.set(
                term,
                if term == 0 {
                    self.settings.step
                } else {
                    ZERO
                },
            );
            term = term + 1;
            assert(self.cells@ =~= fresh_terms(term, start.settings.step) + start.cells.subrange(
                term as int,
                start.cells.len() as int,
            ));
        }
    }

    /// Begins the turn of coordinate `index`, or, past the last coordinate,
    /// the next iteration.
    fn proceed(&mut self, index: usize)
        requires
            old(self)@.monitor.iterations < u64::MAX,
        ensures
            final(self)@ == old(self)@.proceed(index),
    {
        if index < self.cells.len() {
            self.stage = Stage::Error { probe: Probe::Baseline };
            self.turn.index = index;
        } else {
            self.stage = Stage::Opening;
            self.monitor.iterations = self.monitor.iterations + 1;
        }
    }

    /// Opens an iteration with the error of the weights.
    fn opened(&mut self, score: u64)
        requires
            old(self)@.wf(),
            old(self)@.stage == Stage::Opening,
        ensures
            final(self)@ == old(self)@.opened(score),
    {
        match self.monitor.judge(&self.settings, score) {
            Verdict::Success => {
                self.stage = Stage::Finished { success: true, error: score };
            },
            Verdict::Failure => {
                self.stage = Stage::Finished { success: false, error: score };
            },
            Verdict::Continue => {
                let due: bool = self.monitor.is_reset_due(&self.settings);
                self.monitor.observe(score);
                if due {
                    if self.settings.debug {
                        self.stage = Stage::Reported { score };
                    } else {
                        self.reset();
                        self.proceed(0);
                    }
                } else {
                    self.proceed(0);
                }
            },
        }
    }

    /// Carries a probe's score on to prediction term `term`, or settles it.
    fn cascade(&mut self, probe: Probe, term: usize, score: u64)
        requires
            old(self)@.wf(),
            old(self)@.sweeping(),
            old(self)@.turn.index < old(self)@.cells.len(),
        ensures
            final(self)@ == old(self)@.cascade(probe, term, score),
    {
        if term < self.settings.error_predictions {
            self.stage = Stage::Gap { probe, term, score };
        } else {
            self.scored(probe, score);
        }
    }

    /// Settles a probe's score.
    fn scored(&mut self, probe: Probe, score: u64)
        requires
            old(self)@.wf(),
            old(self)@.sweeping(),
            old(self)@.turn.index < old(self)@.cells.len(),
        ensures
            final(self)@ == old(self)@.scored(probe, score),
    {
        match probe {
            Probe::Baseline => {
                self.turn.baseline = score;
                self.turn.origin = self.cells[self.turn.index];
                self.stage = Stage::Step;
            },
            Probe::Up => {
                self.turn.upper = score;
                self.stage = Stage::Double;
            },
            Probe::Down => match decide(self.turn.baseline, self.turn.upper, score) {
                Decision::Revert => {
                    self.place(self.turn.origin);
                    self.proceed(self.turn.index + 1);
                },
                Decision::MoveUp => {
                    self.stage = Stage::Restore;
                },
                Decision::StayDown => {
                    self.proceed(self.turn.index + 1);
                },
            },
        }
    }

    /// Takes the host's answer to the pending request and returns the next
    /// request. Once the run is over the answer changes nothing and the
    /// outcome is returned again.
    pub fn advance(&mut self, reply: u64) -> (r: Action)
        requires
            old(self)@.wf(),
        ensures
            final(self)@ == old(self)@.next(reply),
            final(self)@.wf(),
            r@ == final(self)@.pending(),
    {
        proof {
            crate::machine::lemma_next_wf(self@, reply);
        }
        match self.stage {
            Stage::Opening => {
                self.opened(reply);
            },
            Stage::Reported { score } => {
                self.reset();
                self.proceed(0);
            },
            Stage::Error { probe } => {
                self.cascade(probe, 0, reply);
            },
            Stage::Gap { probe, term, score } => {
                self.stage = Stage::Raised { probe, term, score, gap: absolute(reply) };
            },
            Stage::Raised { probe, term, score, gap } => {
                self.cascade(probe, term + 1, reply);
            },
            Stage::Step => {
                self.turn.step = reply;
                self.stage = Stage::Lift;
            },
            Stage::Lift => {
                let value: u64 = clamp_if_prediction(
                    self.settings.error_predictions,
                    self.settings.step,
                    self.turn.index,
                    reply,
                );
                self.place(value);
                self.stage = Stage::Error { probe: Probe::Up };
            },
            Stage::Double => {
                self.turn.twice = reply;
                self.stage = Stage::Lower;
            },
            Stage::Lower => {
                let value: u64 = clamp_if_prediction(
                    self.settings.error_predictions,
                    self.settings.step,
                    self.turn.index,
                    reply,
                );
                self.place(value);
                self.stage = Stage::Error { probe: Probe::Down };
            },
            Stage::Restore => {
                self.place(reply);
                self.proceed(self.turn.index + 1);
            },
            Stage::Finished { success, error } => {},
        }
        self.request()
    }
}

} // verus!
