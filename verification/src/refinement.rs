//! The machine computes the training: driven by a host that answers as fixed
//! functions do, it finishes with the outcome that the direct definition
//! gives for those functions.

use vstd::prelude::*;
use crate::machine::{lemma_next_wf, lemma_reset_keeps, Machine, Probe, Request, Stage};
use crate::monitor::{observed, reset_due, verdict, Monitor, Verdict};
use crate::policy::{decision, Decision};
use crate::settings::TrainingSettings;
use crate::training::Oracle;

verus! {

impl Machine {
    /// The state after one request answered by the oracle.
    pub open spec fn served(self, oracle: Oracle) -> Machine {
        self.next(oracle.answer(self.pending()))
    }

    /// The state after `steps` requests answered by the oracle.
    pub open spec fn driven(self, oracle: Oracle, steps: nat) -> Machine
        decreases steps,
    {
        if steps == 0 {
            self
        } else {
            self.served(oracle).driven(oracle, (steps - 1) as nat)
        }
    }

    /// Whether two states differ at most in what a turn has gathered.
    pub open spec fn alike(self, other: Machine) -> bool {
        &&& self.settings == other.settings
        &&& self.cells == other.cells
        &&& self.monitor == other.monitor
        &&& self.stage == other.stage
    }
}

/// Driving for `first` requests and then for `then` more is driving for
/// their sum.
pub proof fn lemma_driven_adds(m: Machine, oracle: Oracle, first: nat, then: nat)
    ensures
        m.driven(oracle, first).driven(oracle, then) == m.driven(oracle, first + then),
    decreases first,
{
    if first > 0 {
        lemma_driven_adds(m.served(oracle), oracle, (first - 1) as nat, then);
    }
}

/// Driving keeps a state well formed, with its settings and the length of
/// its search state.
pub proof fn lemma_driven_wf(m: Machine, oracle: Oracle, steps: nat)
    requires
        m.wf(),
    ensures
        m.driven(oracle, steps).wf(),
        m.driven(oracle, steps).settings == m.settings,
        m.driven(oracle, steps).cells.len() == m.cells.len(),
    decreases steps,
{
    if steps > 0 {
        lemma_next_wf(m, oracle.answer(m.pending()));
        lemma_driven_wf(m.served(oracle), oracle, (steps - 1) as nat);
    }
}

/// A run that is over stays as it is.
pub proof fn lemma_driven_finished(m: Machine, oracle: Oracle, steps: nat)
    requires
        m.finished(),
    ensures
        m.driven(oracle, steps) == m,
    decreases steps,
{
    if steps > 0 {
        lemma_driven_finished(m.served(oracle), oracle, (steps - 1) as nat);
    }
}

/// From the request for the distance to prediction term `term`, two requests
/// for each remaining term settle the probe with the score that the cascade
/// gives.
pub proof fn lemma_cascade(m: Machine, oracle: Oracle, probe: Probe, term: usize, score: u64)
    requires
        m.terms() <= m.cells.len() <= usize::MAX,
        term <= m.terms(),
    ensures
        m.cascade(probe, term, score).driven(oracle, (2 * (m.terms() - term)) as nat) == m.scored(
            probe,
            oracle.cascade_score(m.terms(), m.cells, term, score),
        ),
    decreases m.terms() - term,
{
    if term < m.terms() {
        let gap = m.cascade(probe, term, score);
        let raised = gap.served(oracle);
        let after = raised.served(oracle);
        let lifted = oracle.raised(score, m.cells[term as int]);
        assert(after == m.cascade(probe, (term + 1) as usize, lifted));
        lemma_cascade(m, oracle, probe, (term + 1) as usize, lifted);
        let rest = (2 * (m.terms() - (term + 1))) as nat;
        assert(gap.driven(oracle, rest + 2) == raised.driven(oracle, rest + 1));
        assert(raised.driven(oracle, rest + 1) == after.driven(oracle, rest));
    }
}

/// From the request for the error of the weights, one request and two more
/// for each prediction term settle the probe with the augmented score.
pub proof fn lemma_score(m: Machine, oracle: Oracle, probe: Probe)
    requires
        m.terms() <= m.cells.len() <= usize::MAX,
        m.stage == (Stage::Error { probe }),
    ensures
        m.driven(oracle, (2 * m.terms() + 1) as nat) == m.scored(
            probe,
            oracle.augmented_score(m.terms(), m.cells),
        ),
{
    let raw = oracle.raw_score(m.terms(), m.cells);
    assert(m.served(oracle) == m.cascade(probe, 0, raw));
    lemma_cascade(m, oracle, probe, 0, raw);
    assert(m.driven(oracle, (2 * m.terms() + 1) as nat) == m.served(oracle).driven(
        oracle,
        (2 * m.terms()) as nat,
    ));
}

/// One more request after `steps` is one request served from where `steps`
/// led.
pub proof fn lemma_driven_step(m: Machine, oracle: Oracle, steps: nat)
    ensures
        m.driven(oracle, steps + 1) == m.driven(oracle, steps).served(oracle),
{
    let there = m.driven(oracle, steps);
    assert(there.driven(oracle, 1) == there.served(oracle)) by {
        assert(there.served(oracle).driven(oracle, 0) == there.served(oracle));
    }
    lemma_driven_adds(m, oracle, steps, 1);
}

/// The turn of a coordinate: from the request that opens it, a number of
/// requests leads to the state in which the next coordinate's turn, or the
/// next iteration, begins, and the search state is then what the definition
/// of a turn gives.
pub proof fn lemma_turn(m: Machine, oracle: Oracle) -> (steps: nat)
    requires
        m.wf(),
        m.stage == (Stage::Error { probe: Probe::Baseline }),
    ensures
        m.driven(oracle, steps).alike(
            (Machine { cells: oracle.turn(m.settings, m.cells, m.turn.index), ..m }).proceed(
                (m.turn.index + 1) as usize,
            ),
        ),
        m.turn.index + 1 < m.cells.len() ==> m.driven(oracle, steps).turn.index == m.turn.index
            + 1,
{
    let terms = m.terms();
    let index = m.turn.index;
    let score_steps = (2 * terms + 1) as nat;
    let baseline = oracle.augmented_score(terms, m.cells);
    let origin = m.cells[index as int];
    let step = oracle.step_for(m.settings, m.cells, index);
    let up = Oracle::probe(m.settings, m.cells, index, (oracle.sum)(origin, step));
    let upper = oracle.augmented_score(terms, up);
    let twice = (oracle.product)(crate::number::TWO, step);
    let down = Oracle::probe(m.settings, up, index, (oracle.difference)(up[index as int], twice));
    let lower = oracle.augmented_score(terms, down);

    // The baseline score, then the step and the upper position.
    let s1 = m.driven(oracle, score_steps);
    lemma_score(m, oracle, Probe::Baseline);
    assert(s1 == m.scored(Probe::Baseline, baseline));
    let s2 = s1.served(oracle);
    lemma_driven_step(m, oracle, score_steps);
    assert(s2.stage == Stage::Lift && s2.turn.step == step);
    let s3 = s2.served(oracle);
    lemma_driven_step(m, oracle, score_steps + 1);
    assert(s3.cells == up);
    assert(s3.stage == (Stage::Error { probe: Probe::Up }));
    assert(s3 == m.driven(oracle, score_steps + 2));

    // The upper score, then twice the step and the lower position.
    let s4 = s3.driven(oracle, score_steps);
    lemma_score(s3, oracle, Probe::Up);
    lemma_driven_adds(m, oracle, score_steps + 2, score_steps);
    assert(s4 == s3.scored(Probe::Up, upper));
    let s5 = s4.served(oracle);
    lemma_driven_step(m, oracle, 2 * score_steps + 2);
    assert(s5.stage == Stage::Lower && s5.turn.twice == twice);
    let s6 = s5.served(oracle);
    lemma_driven_step(m, oracle, 2 * score_steps + 3);
    assert(s6.cells == down);
    assert(s6.stage == (Stage::Error { probe: Probe::Down }));
    assert(s6 == m.driven(oracle, 2 * score_steps + 4));

    // The lower score and the decision.
    let s7 = s6.driven(oracle, score_steps);
    lemma_score(s6, oracle, Probe::Down);
    lemma_driven_adds(m, oracle, 2 * score_steps + 4, score_steps);
    assert(s7 == s6.scored(Probe::Down, lower));
    assert(s6.turn.baseline == baseline && s6.turn.upper == upper && s6.turn.origin == origin);
    assert(s7 == m.driven(oracle, 3 * score_steps + 4));
    match decision(baseline, upper, lower) {
        Decision::Revert => {
            assert(down.update(index as int, origin) =~= m.cells);
            3 * score_steps + 4
        },
        Decision::MoveUp => {
            lemma_driven_step(m, oracle, 3 * score_steps + 4);
            3 * score_steps + 5
        },
        Decision::StayDown => 3 * score_steps + 4,
    }
}

/// The rest of a sweep: from the request that opens a coordinate's turn, a
/// number of requests leads to the opening of the next iteration, and the
/// search state is then what the definition of a sweep gives.
pub proof fn lemma_sweep(m: Machine, oracle: Oracle) -> (steps: nat)
    requires
        m.wf(),
        m.stage == (Stage::Error { probe: Probe::Baseline }),
    ensures
        m.driven(oracle, steps).alike(
            Machine {
                cells: oracle.sweep(m.settings, m.cells, m.turn.index),
                stage: Stage::Opening,
                monitor: Monitor { iterations: (m.monitor.iterations + 1) as u64, ..m.monitor },
                ..m
            },
        ),
    decreases m.cells.len() - m.turn.index,
{
    let index = m.turn.index;
    let turned = oracle.turn(m.settings, m.cells, index);
    let first = lemma_turn(m, oracle);
    let there = m.driven(oracle, first);
    lemma_driven_wf(m, oracle, first);
    if index + 1 < m.cells.len() {
        let rest = lemma_sweep(there, oracle);
        lemma_driven_adds(m, oracle, first, rest);
        first + rest
    } else {
        assert(oracle.sweep(m.settings, turned, (index + 1) as usize) == turned);
        first
    }
}

/// A run from the opening of an iteration: a number of requests leads to a
/// state that finishes with the outcome the definition of a run gives.
pub proof fn lemma_run(m: Machine, oracle: Oracle) -> (steps: nat)
    requires
        m.wf(),
        m.stage == Stage::Opening,
    ensures
        m.driven(oracle, steps).pending() == Request::Finish(
            oracle.run(m.settings, m.monitor, m.cells),
        ),
    decreases m.settings.max_iterations - m.monitor.iterations,
{
    let score = oracle.raw_score(m.terms(), m.cells);
    let opened = m.served(oracle);
    assert(opened == m.opened(score));
    lemma_driven_step(m, oracle, 0);
    lemma_next_wf(m, score);
    match verdict(m.settings, m.monitor, score) {
        Verdict::Continue => {
            let seen = Machine { monitor: observed(m.monitor, score), ..m };
            lemma_reset_keeps(seen);
            // The state in which the sweep begins, after the report if one
            // is due.
            let lead: nat = if reset_due(m.settings, m.monitor) && m.settings.debug {
                2
            } else {
                1
            };
            let begun = m.driven(oracle, lead);
            if lead == 2 {
                lemma_driven_step(m, oracle, 1);
            }
            lemma_driven_wf(m, oracle, lead);
            let prepared = Oracle::prepared(m.settings, m.monitor, m.cells);
            assert(begun.cells == prepared);
            if m.cells.len() == 0 {
                let rest = lemma_run(begun, oracle);
                lemma_driven_adds(m, oracle, lead, rest);
                lead + rest
            } else {
                assert(begun.turn.index == 0);
                assert(begun.monitor == observed(m.monitor, score));
                let swept = lemma_sweep(begun, oracle);
                let rested = begun.driven(oracle, swept);
                lemma_driven_wf(begun, oracle, swept);
                lemma_driven_adds(m, oracle, lead, swept);
                let rest = lemma_run(rested, oracle);
                lemma_driven_adds(m, oracle, lead + swept, rest);
                lead + swept + rest
            }
        },
        _ => 1,
    }
}

/// The machine computes the training: started on the given weights and
/// answered by the oracle, it reaches, after a number of requests, a state
/// that finishes with the outcome of the training as defined.
pub proof fn theorem_machine_computes_training(
    settings: TrainingSettings,
    weights: Seq<u64>,
    oracle: Oracle,
) -> (steps: nat)
    requires
        settings.error_predictions + weights.len() <= usize::MAX,
    ensures
        Machine::initial(settings, weights).driven(oracle, steps).pending() == Request::Finish(
            oracle.training(settings, weights),
        ),
{
    crate::machine::lemma_initial_wf(settings, weights);
    lemma_run(Machine::initial(settings, weights), oracle)
}

} // verus!
