//! The training as a mathematical machine: a state, the request it makes of
//! its host in that state, and the state that follows once the host has
//! answered.
//!
//! One iteration opens with the error of the weights, on which the run ends or
//! goes on. If it goes on, the error prediction terms are reset where the
//! schedule says so, and every coordinate of the search state takes its turn,
//! in ascending order: its score is taken where it stands, one step up and one
//! step down, and it keeps the position the decision rule names. A score is
//! the error of the weights, raised once for each prediction term, in order,
//! by its distance from that term.

use vstd::prelude::*;
use crate::fit::FitView;
use crate::monitor::{observed, reset_due, verdict, Monitor, Verdict};
use crate::number::{le, magnitude, TWO, ZERO};
use crate::policy::{clamped, decision, step_base, Decision};
use crate::settings::TrainingSettings;

verus! {

/// The three positions of a coordinate that are scored in its turn.
#[derive(Copy, Clone, Debug, PartialEq, Eq, Structural)]
pub enum Probe {
    /// Where the coordinate stood.
    Baseline,
    /// One step up.
    Up,
    /// One step down.
    Down,
}

/// What the machine is waiting for.
#[derive(Copy, Clone, Debug, PartialEq, Eq, Structural)]
pub enum Stage {
    /// The error of the weights, with which an iteration opens.
    Opening,
    /// The return from a snapshot, handed out before a reset.
    Reported { score: u64 },
    /// The error of the weights, from which a probe's score starts.
    Error { probe: Probe },
    /// The difference between the score so far and prediction term `term`.
    Gap { probe: Probe, term: usize, score: u64 },
    /// The score so far raised by the distance `gap` from term `term`.
    Raised { probe: Probe, term: usize, score: u64, gap: u64 },
    /// The coordinate's step: the elasticity times its base.
    Step,
    /// The coordinate one step above where it stood.
    Lift,
    /// Twice the step.
    Double,
    /// The coordinate two steps below the upper position.
    Lower,
    /// The coordinate two steps above the lower position.
    Restore,
    /// Nothing: the run is over, with this error.
    Finished { success: bool, error: u64 },
}

/// What a coordinate's turn has gathered so far.
#[derive(Copy, Clone, Debug, PartialEq, Eq, Structural)]
pub struct Turn {
    /// The coordinate whose turn it is.
    pub index: usize,
    /// Its value before the probes.
    pub origin: u64,
    /// Its step.
    pub step: u64,
    /// Twice its step.
    pub twice: u64,
    /// The score where it stood.
    pub baseline: u64,
    /// The score at the upper position.
    pub upper: u64,
}

/// A request to the host. Every number is a binary64 bit pattern, and so is
/// every answer.
pub enum Request {
    /// The error of these weights.
    Evaluate(Seq<u64>),
    /// The sum of the two numbers.
    Sum(u64, u64),
    /// The first number less the second.
    Difference(u64, u64),
    /// The product of the two numbers.
    Product(u64, u64),
    /// To take note of this snapshot; the answer is not looked at.
    Report(FitView),
    /// Nothing more: this is the outcome of the run.
    Finish(Result<FitView, FitView>),
}

/// The prediction terms as a run or a reset sets them: the first at the
/// minimum step, all others at zero.
pub open spec fn fresh_terms(terms: usize, step: u64) -> Seq<u64> {
    Seq::new(
        terms as nat,
        |j: int|
            if j == 0 {
                step
            } else {
                ZERO
            },
    )
}

/// The state of a training run.
pub struct Machine {
    pub settings: TrainingSettings,
    /// The search state: the error prediction terms, then the weights.
    pub cells: Seq<u64>,
    pub monitor: Monitor,
    pub stage: Stage,
    pub turn: Turn,
}

impl Machine {
    /// The number of error prediction terms.
    pub open spec fn terms(self) -> usize {
        self.settings.error_predictions
    }

    /// The error prediction terms: the front of the search state.
    pub open spec fn predictions(self) -> Seq<u64> {
        self.cells.subrange(0, self.terms() as int)
    }

    /// The weights: the rest of the search state.
    pub open spec fn weights(self) -> Seq<u64> {
        self.cells.subrange(self.terms() as int, self.cells.len() as int)
    }

    /// A snapshot of the run with the given error of the weights.
    pub open spec fn fit(self, error: u64) -> FitView {
        FitView {
            error,
            weights: self.weights(),
            error_predictions: self.predictions(),
            iterations: self.monitor.iterations,
        }
    }

    /// The state in which a run begins.
    pub open spec fn initial(settings: TrainingSettings, weights: Seq<u64>) -> Machine {
        Machine {
            settings,
            cells: fresh_terms(settings.error_predictions, settings.step) + weights,
            monitor: Monitor { iterations: 0, last_score: None, stagnation: 0 },
            stage: Stage::Opening,
            turn: Turn { index: 0, origin: ZERO, step: ZERO, twice: ZERO, baseline: ZERO, upper: ZERO },
        }
    }

    /// Whether the run is between the opening of an iteration and the end of
    /// its sweep.
    pub open spec fn sweeping(self) -> bool {
        &&& self.monitor.iterations < self.settings.max_iterations
        &&& self.monitor.stagnation <= self.monitor.iterations
        &&& self.settings.reset_interval > 0
    }

    /// Whether the counters are those of a run between two iterations.
    pub open spec fn resting(self) -> bool {
        ||| self.monitor.stagnation < self.monitor.iterations
        ||| (self.monitor.iterations == 0 && self.monitor.stagnation == 0
            && self.monitor.last_score is None)
    }

    /// What holds of every state a run passes through.
    pub open spec fn wf(self) -> bool {
        &&& self.terms() <= self.cells.len() <= usize::MAX
        &&& self.monitor.iterations <= self.settings.max_iterations
        &&& match self.stage {
            Stage::Opening => self.resting(),
            Stage::Finished { success, error } => {
                &&& self.resting()
                &&& success == le(error, self.settings.accuracy_error)
                &&& !success ==> self.monitor.iterations == self.settings.max_iterations
                    || self.monitor.stagnation >= 2 * self.settings.reset_interval
            },
            Stage::Reported { score } => self.sweeping() && reset_due(self.settings, self.monitor),
            Stage::Gap { probe, term, score } => {
                &&& self.sweeping()
                &&& self.turn.index < self.cells.len()
                &&& term < self.terms()
            },
            Stage::Raised { probe, term, score, gap } => {
                &&& self.sweeping()
                &&& self.turn.index < self.cells.len()
                &&& term < self.terms()
            },
            _ => self.sweeping() && self.turn.index < self.cells.len(),
        }
    }

    /// The request the machine makes in this state.
    pub open spec fn pending(self) -> Request {
        match self.stage {
            Stage::Opening => Request::Evaluate(self.weights()),
            Stage::Reported { score } => Request::Report(self.fit(score)),
            Stage::Error { probe } => Request::Evaluate(self.weights()),
            Stage::Gap { probe, term, score } => Request::Difference(score, self.cells[term as int]),
            Stage::Raised { probe, term, score, gap } => Request::Sum(score, gap),
            Stage::Step => Request::Product(
                self.settings.elasticity,
                step_base(self.terms(), self.settings.step, self.cells, self.turn.index),
            ),
            Stage::Lift => Request::Sum(self.turn.origin, self.turn.step),
            Stage::Double => Request::Product(TWO, self.turn.step),
            Stage::Lower => Request::Difference(self.cells[self.turn.index as int], self.turn.twice),
            Stage::Restore => Request::Sum(self.cells[self.turn.index as int], self.turn.twice),
            Stage::Finished { success, error } => Request::Finish(
                if success {
                    Ok(self.fit(error))
                } else {
                    Err(self.fit(error))
                },
            ),
        }
    }

    /// The state with the turn's coordinate set to `value`.
    pub open spec fn placed(self, value: u64) -> Machine {
        Machine { cells: self.cells.update(self.turn.index as int, value), ..self }
    }

    /// The state with the turn's coordinate set to `value`, held to the floor
    /// if it is a prediction term.
    pub open spec fn probed(self, value: u64) -> Machine {
        self.placed(clamped(self.terms(), self.settings.step, self.turn.index, value))
    }

    /// The state after a reset: the prediction terms are fresh, the weights
    /// untouched.
    pub open spec fn reset(self) -> Machine {
        Machine { cells: fresh_terms(self.terms(), self.settings.step) + self.weights(), ..self }
    }

    /// The state in which coordinate `index` begins its turn, or, past the
    /// last coordinate, the next iteration opens.
    pub open spec fn proceed(self, index: usize) -> Machine {
        if index < self.cells.len() {
            Machine {
                stage: Stage::Error { probe: Probe::Baseline },
                turn: Turn { index, ..self.turn },
                ..self
            }
        } else {
            Machine {
                stage: Stage::Opening,
                monitor: Monitor {
                    iterations: (self.monitor.iterations + 1) as u64,
                    ..self.monitor
                },
                ..self
            }
        }
    }

    /// The state once an iteration has opened with the error `score`.
    pub open spec fn opened(self, score: u64) -> Machine {
        match verdict(self.settings, self.monitor, score) {
            Verdict::Success => Machine {
                stage: Stage::Finished { success: true, error: score },
                ..self
            },
            Verdict::Failure => Machine {
                stage: Stage::Finished { success: false, error: score },
                ..self
            },
            Verdict::Continue => {
                let seen = Machine { monitor: observed(self.monitor, score), ..self };
                if reset_due(self.settings, self.monitor) {
                    if self.settings.debug {
                        Machine { stage: Stage::Reported { score }, ..seen }
                    } else {
                        seen.reset().proceed(0)
                    }
                } else {
                    seen.proceed(0)
                }
            },
        }
    }

    /// The state once the score of a probe has passed the prediction terms
    /// below `term` and stands at `score`.
    pub open spec fn cascade(self, probe: Probe, term: usize, score: u64) -> Machine {
        if term < self.terms() {
            Machine { stage: Stage::Gap { probe, term, score }, ..self }
        } else {
            self.scored(probe, score)
        }
    }

    /// The state once a probe is scored.
    pub open spec fn scored(self, probe: Probe, score: u64) -> Machine {
        match probe {
            Probe::Baseline => Machine {
                stage: Stage::Step,
                turn: Turn {
                    baseline: score,
                    origin: self.cells[self.turn.index as int],
                    ..self.turn
                },
                ..self
            },
            Probe::Up => Machine {
                stage: Stage::Double,
                turn: Turn { upper: score, ..self.turn },
                ..self
            },
            Probe::Down => match decision(self.turn.baseline, self.turn.upper, score) {
                Decision::Revert => self.placed(self.turn.origin).proceed(
                    (self.turn.index + 1) as usize,
                ),
                Decision::MoveUp => Machine { stage: Stage::Restore, ..self },
                Decision::StayDown => self.proceed((self.turn.index + 1) as usize),
            },
        }
    }

    /// The state that follows once the host has answered the pending request
    /// with `reply`.
    pub open spec fn next(self, reply: u64) -> Machine {
        match self.stage {
            Stage::Opening => self.opened(reply),
            Stage::Reported { score } => self.reset().proceed(0),
            Stage::Error { probe } => self.cascade(probe, 0, reply),
            Stage::Gap { probe, term, score } => Machine {
                stage: Stage::Raised { probe, term, score, gap: magnitude(reply) },
                ..self
            },
            Stage::Raised { probe, term, score, gap } => self.cascade(
                probe,
                (term + 1) as usize,
                reply,
            ),
            Stage::Step => Machine {
                stage: Stage::Lift,
                turn: Turn { step: reply, ..self.turn },
                ..self
            },
            Stage::Lift => Machine { stage: Stage::Error { probe: Probe::Up }, ..self.probed(reply) },
            Stage::Double => Machine {
                stage: Stage::Lower,
                turn: Turn { twice: reply, ..self.turn },
                ..self
            },
            Stage::Lower => Machine {
                stage: Stage::Error { probe: Probe::Down },
                ..self.probed(reply)
            },
            Stage::Restore => self.placed(reply).proceed((self.turn.index + 1) as usize),
            Stage::Finished { success, error } => self,
        }
    }

    /// The state after the host has answered with each of `replies` in turn.
    pub open spec fn after(self, replies: Seq<u64>) -> Machine
        decreases replies.len(),
    {
        if replies.len() == 0 {
            self
        } else {
            self.after(replies.drop_last()).next(replies.last())
        }
    }
}

/// A run begins in a state that is well formed.
pub proof fn lemma_initial_wf(settings: TrainingSettings, weights: Seq<u64>)
    requires
        settings.error_predictions + weights.len() <= usize::MAX,
    ensures
        Machine::initial(settings, weights).wf(),
        Machine::initial(settings, weights).weights() == weights,
        Machine::initial(settings, weights).predictions() == fresh_terms(
            settings.error_predictions,
            settings.step,
        ),
{
    let m = Machine::initial(settings, weights);
    assert(m.weights() =~= weights);
    assert(m.predictions() =~= fresh_terms(settings.error_predictions, settings.step));
}

/// Every answer takes a well formed state to a well formed state, and leaves
/// the settings and the length of the search state as they were.
pub proof fn lemma_next_wf(m: Machine, reply: u64)
    requires
        m.wf(),
    ensures
        m.next(reply).wf(),
        m.next(reply).settings == m.settings,
        m.next(reply).cells.len() == m.cells.len(),
{
    lemma_reset_keeps(m);
    match m.stage {
        Stage::Opening => {
            let seen = Machine { monitor: observed(m.monitor, reply), ..m };
            lemma_reset_keeps(seen);
        },
        Stage::Raised { probe, term, score, gap } => {
            assert(m.cascade(probe, (term + 1) as usize, reply).wf());
        },
        _ => {},
    }
}

/// A reset keeps the length of the search state and its weights.
pub proof fn lemma_reset_keeps(m: Machine)
    requires
        m.terms() <= m.cells.len(),
    ensures
        m.reset().cells.len() == m.cells.len(),
        m.reset().weights() == m.weights(),
        m.reset().predictions() == fresh_terms(m.terms(), m.settings.step),
{
    assert(m.reset().weights() =~= m.weights());
    assert(m.reset().predictions() =~= fresh_terms(m.terms(), m.settings.step));
}

impl Machine {
    /// Whether the run is over.
    pub open spec fn finished(self) -> bool {
        self.stage is Finished
    }

    /// Openings still possible, this one included: none once the run is
    /// over.
    pub open spec fn openings_left(self) -> int {
        if self.finished() {
            0
        } else {
            self.settings.max_iterations as int - self.monitor.iterations as int + 1
        }
    }

    /// Turns still to come in this iteration, counting the opening and the
    /// report as turns of their own.
    pub open spec fn turns_left(self) -> int {
        match self.stage {
            Stage::Finished { success, error } => 0,
            Stage::Opening => self.cells.len() as int + 2,
            Stage::Reported { score } => self.cells.len() as int + 1,
            _ => self.cells.len() as int - self.turn.index as int,
        }
    }

    /// Parts of the current turn still to come.
    pub open spec fn parts_left(self) -> int {
        match self.stage {
            Stage::Error { probe } => probe_parts(probe),
            Stage::Gap { probe, term, score } => probe_parts(probe),
            Stage::Raised { probe, term, score, gap } => probe_parts(probe),
            Stage::Step => 7,
            Stage::Lift => 6,
            Stage::Double => 4,
            Stage::Lower => 3,
            Stage::Restore => 1,
            _ => 0,
        }
    }

    /// Requests still to come for the score being taken.
    pub open spec fn requests_left(self) -> int {
        match self.stage {
            Stage::Error { probe } => 2 * (self.terms() as int) + 1,
            Stage::Gap { probe, term, score } => 2 * (self.terms() as int - term as int),
            Stage::Raised { probe, term, score, gap } => 2 * (self.terms() as int - term as int) - 1,
            _ => 0,
        }
    }

    /// Whether `self` is strictly closer to the end of the run than
    /// `before`: by openings, then turns, then parts of a turn, then
    /// requests of a score.
    pub open spec fn closer_than(self, before: Machine) -> bool {
        ||| self.openings_left() < before.openings_left()
        ||| (self.openings_left() == before.openings_left() && self.turns_left()
            < before.turns_left())
        ||| (self.openings_left() == before.openings_left() && self.turns_left()
            == before.turns_left() && self.parts_left() < before.parts_left())
        ||| (self.openings_left() == before.openings_left() && self.turns_left()
            == before.turns_left() && self.parts_left() == before.parts_left()
            && self.requests_left() < before.requests_left())
    }
}

/// Parts of a turn still to come while a probe is scored.
pub open spec fn probe_parts(probe: Probe) -> int {
    match probe {
        Probe::Baseline => 8,
        Probe::Up => 5,
        Probe::Down => 2,
    }
}

/// Every answer brings a run that is not over closer to its end, whatever the
/// answer is: no host can keep a run going for ever.
pub proof fn lemma_next_closer(m: Machine, reply: u64)
    requires
        m.wf(),
        !m.finished(),
    ensures
        m.next(reply).closer_than(m),
        m.next(reply).openings_left() >= 0,
        m.next(reply).turns_left() >= 0,
        m.next(reply).parts_left() >= 0,
        m.next(reply).requests_left() >= 0,
{
    lemma_next_wf(m, reply);
    lemma_reset_keeps(m);
    match m.stage {
        Stage::Opening => {
            let seen = Machine { monitor: observed(m.monitor, reply), ..m };
            lemma_reset_keeps(seen);
        },
        _ => {},
    }
}

/// With no iteration allowed no answer moves the weights, and a run that is
/// over stays as it is.
pub proof fn lemma_next_weights(m: Machine, reply: u64)
    requires
        m.wf(),
    ensures
        m.settings.max_iterations == 0 ==> m.next(reply).weights() == m.weights(),
        m.finished() ==> m.next(reply) == m,
{
    lemma_reset_keeps(m);
}

} // verus!
