//! What holds of every training run.

use vstd::prelude::*;
use crate::fit::outcome_fit;
use crate::machine::{fresh_terms, lemma_initial_wf, lemma_next_wf, Machine, Request, Stage};
use crate::monitor::{observed, verdict, Monitor, Verdict};
use crate::number::{is_nan, le};
use crate::policy::floored;
use crate::refinement::{
    lemma_driven_adds,
    lemma_driven_finished,
    lemma_driven_step,
    lemma_driven_wf,
    theorem_machine_computes_training,
};
use crate::settings::TrainingSettings;
use crate::training::Oracle;

verus! {

/// Whether each of `replies` is the oracle's answer to the request that was
/// pending when it was given, in a run that began in state `m`.
pub open spec fn faithful(m: Machine, oracle: Oracle, replies: Seq<u64>) -> bool {
    forall|i: int|
        0 <= i < replies.len() ==> replies[i] == oracle.answer(
            #[trigger] m.after(replies.take(i)).pending(),
        )
}

/// Answers keep a state well formed, with its settings and the length of its
/// search state.
pub proof fn lemma_after_wf(m: Machine, replies: Seq<u64>)
    requires
        m.wf(),
    ensures
        m.after(replies).wf(),
        m.after(replies).settings == m.settings,
        m.after(replies).cells.len() == m.cells.len(),
    decreases replies.len(),
{
    if replies.len() > 0 {
        lemma_after_wf(m, replies.drop_last());
        lemma_next_wf(m.after(replies.drop_last()), replies.last());
    }
}

/// A run answered faithfully is the run driven by the oracle.
pub proof fn lemma_faithful_is_driven(m: Machine, oracle: Oracle, replies: Seq<u64>)
    requires
        faithful(m, oracle, replies),
    ensures
        m.after(replies) == m.driven(oracle, replies.len()),
    decreases replies.len(),
{
    if replies.len() > 0 {
        let front = replies.drop_last();
        assert forall|i: int| 0 <= i < front.len() implies front[i] == oracle.answer(
            #[trigger] m.after(front.take(i)).pending(),
        ) by {
            assert(front.take(i) =~= replies.take(i));
        }
        lemma_faithful_is_driven(m, oracle, front);
        assert(replies.take(front.len() as int) =~= front);
        lemma_driven_step(m, oracle, front.len());
    }
}

/// Determinism. The outcome of a run is a function of the settings, the
/// initial weights and the functions by which the host answers: every run
/// whose answers are those of the oracle, once over, has finished with the
/// outcome of the training as defined for that oracle.
pub proof fn law_outcome_is_determined(
    settings: TrainingSettings,
    weights: Seq<u64>,
    oracle: Oracle,
    replies: Seq<u64>,
)
    requires
        settings.error_predictions + weights.len() <= usize::MAX,
        faithful(Machine::initial(settings, weights), oracle, replies),
        Machine::initial(settings, weights).after(replies).finished(),
    ensures
        Machine::initial(settings, weights).after(replies).pending() == Request::Finish(
            oracle.training(settings, weights),
        ),
{
    let start = Machine::initial(settings, weights);
    let steps = theorem_machine_computes_training(settings, weights, oracle);
    let taken = replies.len();
    lemma_faithful_is_driven(start, oracle, replies);
    if taken <= steps {
        lemma_driven_adds(start, oracle, taken, (steps - taken) as nat);
        lemma_driven_finished(start.driven(oracle, taken), oracle, (steps - taken) as nat);
    } else {
        lemma_driven_adds(start, oracle, steps, (taken - steps) as nat);
        lemma_driven_finished(start.driven(oracle, steps), oracle, (taken - steps) as nat);
    }
}

/// Determinism, of two runs: on the same settings and weights, answered by
/// the same functions, two runs that are over have finished alike, fit and
/// iteration count included.
pub proof fn law_repeated_runs_agree(
    settings: TrainingSettings,
    weights: Seq<u64>,
    oracle: Oracle,
    first: Seq<u64>,
    second: Seq<u64>,
)
    requires
        settings.error_predictions + weights.len() <= usize::MAX,
        faithful(Machine::initial(settings, weights), oracle, first),
        faithful(Machine::initial(settings, weights), oracle, second),
        Machine::initial(settings, weights).after(first).finished(),
        Machine::initial(settings, weights).after(second).finished(),
    ensures
        Machine::initial(settings, weights).after(first).pending() == Machine::initial(
            settings,
            weights,
        ).after(second).pending(),
{
    law_outcome_is_determined(settings, weights, oracle, first);
    law_outcome_is_determined(settings, weights, oracle, second);
}

/// The iteration bound. Whatever the host answers, a run never counts more
/// iterations than the settings allow; and a run that failed either used
/// them all up or saw its error unchanged over twice the reset interval.
pub proof fn law_iterations_bounded(settings: TrainingSettings, weights: Seq<u64>, replies: Seq<u64>)
    requires
        settings.error_predictions + weights.len() <= usize::MAX,
    ensures
        ({
            let m = Machine::initial(settings, weights).after(replies);
            &&& m.monitor.iterations <= settings.max_iterations
            &&& m.pending() matches Request::Finish(outcome) ==> {
                &&& outcome_fit(outcome).iterations == m.monitor.iterations
                &&& outcome is Ok <==> le(outcome_fit(outcome).error, settings.accuracy_error)
                &&& outcome is Err ==> outcome_fit(outcome).iterations == settings.max_iterations
                    || m.monitor.stagnation >= 2 * settings.reset_interval
            }
        }),
{
    lemma_initial_wf(settings, weights);
    lemma_after_wf(Machine::initial(settings, weights), replies);
}

/// The shape of every fit. Whatever the host answers, each snapshot and each
/// outcome that a run hands out carries as many error prediction terms as
/// the settings name, and as many weights as the run was given.
pub proof fn law_fit_shape(settings: TrainingSettings, weights: Seq<u64>, replies: Seq<u64>)
    requires
        settings.error_predictions + weights.len() <= usize::MAX,
    ensures
        ({
            let m = Machine::initial(settings, weights).after(replies);
            &&& m.pending() matches Request::Report(fit) ==> fit.error_predictions.len()
                == settings.error_predictions && fit.weights.len() == weights.len()
            &&& m.pending() matches Request::Finish(outcome) ==> outcome_fit(
                outcome,
            ).error_predictions.len() == settings.error_predictions && outcome_fit(
                outcome,
            ).weights.len() == weights.len()
        }),
{
    lemma_initial_wf(settings, weights);
    lemma_after_wf(Machine::initial(settings, weights), replies);
}

/// The outcome of the training as defined has the shape and the bound of
/// every outcome, and is `Ok` exactly when its error is within the accepted
/// accuracy.
pub proof fn law_training_outcome(settings: TrainingSettings, weights: Seq<u64>, oracle: Oracle)
    requires
        settings.error_predictions + weights.len() <= usize::MAX,
    ensures
        ({
            let outcome = oracle.training(settings, weights);
            let fit = outcome_fit(outcome);
            &&& fit.iterations <= settings.max_iterations
            &&& fit.error_predictions.len() == settings.error_predictions
            &&& fit.weights.len() == weights.len()
            &&& outcome is Ok <==> le(fit.error, settings.accuracy_error)
        }),
{
    let start = Machine::initial(settings, weights);
    let steps = theorem_machine_computes_training(settings, weights, oracle);
    lemma_initial_wf(settings, weights);
    lemma_driven_wf(start, oracle, steps);
}

/// The floor. A value held to a floor is at or above it, unless one of the
/// two is a NaN.
pub proof fn law_floor_holds(value: u64, floor: u64)
    ensures
        le(floor, floored(value, floor)) <==> !is_nan(value) && !is_nan(floor),
{
}

/// The floor, in a turn. Each position at which an error prediction term is
/// probed is at or above the minimum step, unless the step or the host's
/// answer is a NaN; weights are probed where the host's answer puts them.
pub proof fn law_probes_respect_floor(m: Machine, reply: u64)
    requires
        m.wf(),
        m.stage == Stage::Lift || m.stage == Stage::Lower,
    ensures
        ({
            let index = m.turn.index as int;
            let probed = m.next(reply).cells[index];
            &&& index < m.terms() && !is_nan(reply) && !is_nan(m.settings.step) ==> le(
                m.settings.step,
                probed,
            )
            &&& index >= m.terms() ==> probed == reply
        }),
{
}

/// The floor, at a reset. Fresh error prediction terms begin with the
/// minimum step and go on with zeros.
pub proof fn law_fresh_terms(terms: usize, step: u64, at: int)
    requires
        0 <= at < terms,
    ensures
        fresh_terms(terms, step).len() == terms,
        fresh_terms(terms, step)[at] == if at == 0 {
            step
        } else {
            crate::number::ZERO
        },
{
}

/// Without error prediction terms the augmented score is the error of the
/// weights, and every step is the elasticity times the minimum step.
pub proof fn law_no_terms(oracle: Oracle, settings: TrainingSettings, cells: Seq<u64>, index: usize)
    requires
        settings.error_predictions == 0,
    ensures
        oracle.augmented_score(0, cells) == oracle.raw_score(0, cells),
        oracle.raw_score(0, cells) == (oracle.error)(cells),
        oracle.step_for(settings, cells, index) == (oracle.product)(
            settings.elasticity,
            settings.step,
        ),
{
    assert(cells.subrange(0, cells.len() as int) =~= cells);
}

/// Ties favour no movement. A coordinate whose score is no better one step
/// up and no better one step down is, after its turn, where it was, and so is
/// every other coordinate.
pub proof fn law_tie_reverts(oracle: Oracle, settings: TrainingSettings, cells: Seq<u64>, index: usize)
    requires
        index < cells.len(),
        ({
            let terms = settings.error_predictions;
            let step = oracle.step_for(settings, cells, index);
            let up = Oracle::probe(settings, cells, index, (oracle.sum)(cells[index as int], step));
            let down = Oracle::probe(
                settings,
                up,
                index,
                (oracle.difference)(up[index as int], (oracle.product)(crate::number::TWO, step)),
            );
            &&& le(oracle.augmented_score(terms, cells), oracle.augmented_score(terms, up))
            &&& le(oracle.augmented_score(terms, cells), oracle.augmented_score(terms, down))
        }),
    ensures
        oracle.turn(settings, cells, index) == cells,
{
}

/// The iteration at which a run on a flat error gives up: the first at which
/// the error has stayed unchanged over twice the reset interval, if the
/// iterations last that long.
pub open spec fn stagnation_end(settings: TrainingSettings) -> int {
    if settings.reset_interval == 0 {
        0
    } else if settings.max_iterations <= 2 * settings.reset_interval {
        settings.max_iterations as int
    } else {
        2 * settings.reset_interval + 1
    }
}

/// Whether the counters are those of a run that has seen the error `plateau`
/// at the start of every iteration so far.
pub open spec fn on_plateau(monitor: Monitor, plateau: u64) -> bool {
    if monitor.iterations == 0 {
        monitor.stagnation == 0 && monitor.last_score is None
    } else {
        monitor.stagnation == monitor.iterations - 1 && monitor.last_score == Some(plateau)
    }
}

/// A run on a flat error, from any iteration on.
pub proof fn lemma_plateau_run(
    oracle: Oracle,
    settings: TrainingSettings,
    monitor: Monitor,
    cells: Seq<u64>,
    plateau: u64,
)
    requires
        forall|weights: Seq<u64>| #[trigger] (oracle.error)(weights) == plateau,
        !is_nan(plateau),
        !le(plateau, settings.accuracy_error),
        on_plateau(monitor, plateau),
        monitor.iterations <= stagnation_end(settings),
    ensures
        oracle.run(settings, monitor, cells) is Err,
        outcome_fit(oracle.run(settings, monitor, cells)).error == plateau,
        outcome_fit(oracle.run(settings, monitor, cells)).iterations == stagnation_end(settings),
    decreases settings.max_iterations - monitor.iterations,
{
    let score = oracle.raw_score(settings.error_predictions, cells);
    assert(score == plateau);
    if verdict(settings, monitor, score) == Verdict::Continue {
        let seen = observed(monitor, score);
        let swept = oracle.sweep(settings, Oracle::prepared(settings, monitor, cells), 0);
        lemma_plateau_run(
            oracle,
            settings,
            Monitor { iterations: (monitor.iterations + 1) as u64, ..seen },
            swept,
            plateau,
        );
    }
}

/// Stagnation ends a run. On an error function that is flat, at a value that
/// is a number and misses the accepted accuracy, the training fails with
/// that value as its error: after one iteration more than twice the reset
/// interval, or when the iterations are used up before that, and at once if
/// the reset interval is zero.
pub proof fn law_flat_error_fails(
    oracle: Oracle,
    settings: TrainingSettings,
    weights: Seq<u64>,
    plateau: u64,
)
    requires
        forall|at: Seq<u64>| #[trigger] (oracle.error)(at) == plateau,
        !is_nan(plateau),
        !le(plateau, settings.accuracy_error),
    ensures
        oracle.training(settings, weights) is Err,
        outcome_fit(oracle.training(settings, weights)).error == plateau,
        outcome_fit(oracle.training(settings, weights)).iterations == stagnation_end(settings),
{
    lemma_plateau_run(
        oracle,
        settings,
        Monitor { iterations: 0, last_score: None, stagnation: 0 },
        fresh_terms(settings.error_predictions, settings.step) + weights,
        plateau,
    );
}

/// What the floor rule keeps true of the error prediction term at `place`:
/// it is at or above the minimum step, or it is a zero that a reset left in
/// a term above the first and that no sweep has moved since.
pub open spec fn held(settings: TrainingSettings, place: int, term: u64) -> bool {
    le(settings.step, term) || (place >= 1 && term == crate::number::ZERO)
}

/// Whether an answer is one that true arithmetic could give where the floor
/// rule depends on it: a probe of a prediction term is answered with a
/// number, and the move of a prediction term back up with a number at or
/// above the minimum step.
pub open spec fn sound_reply(m: Machine, reply: u64) -> bool {
    m.turn.index < m.terms() ==> match m.stage {
        Stage::Lift => !is_nan(reply),
        Stage::Lower => !is_nan(reply),
        Stage::Restore => le(m.settings.step, reply),
        _ => true,
    }
}

/// Whether each of `replies` is sound where it was given, in a run that
/// began in state `m`.
pub open spec fn sound(m: Machine, replies: Seq<u64>) -> bool {
    forall|i: int|
        0 <= i < replies.len() ==> sound_reply(#[trigger] m.after(replies.take(i)), replies[i])
}

/// Whether the turn in progress has taken down the value its coordinate had
/// before the probes.
pub open spec fn origin_taken(stage: Stage) -> bool {
    match stage {
        Stage::Opening => false,
        Stage::Reported { score } => false,
        Stage::Finished { success, error } => false,
        Stage::Error { probe } => probe != crate::machine::Probe::Baseline,
        Stage::Gap { probe, term, score } => probe != crate::machine::Probe::Baseline,
        Stage::Raised { probe, term, score, gap } => probe != crate::machine::Probe::Baseline,
        _ => true,
    }
}

/// Whether every error prediction term, and the value a term's turn would
/// go back to, is held.
pub open spec fn floor_kept(m: Machine) -> bool {
    &&& forall|place: int| 0 <= place < m.terms() ==> held(m.settings, place, #[trigger] m.cells[place])
    &&& origin_taken(m.stage) && m.turn.index < m.terms() ==> held(
        m.settings,
        m.turn.index as int,
        m.turn.origin,
    )
}

/// A sound answer keeps the terms held.
pub proof fn lemma_next_keeps_floor(m: Machine, reply: u64)
    requires
        m.wf(),
        !is_nan(m.settings.step),
        floor_kept(m),
        sound_reply(m, reply),
    ensures
        floor_kept(m.next(reply)),
{
    let after = m.next(reply);
    lemma_next_wf(m, reply);
    crate::machine::lemma_reset_keeps(m);
    let seen = Machine { monitor: observed(m.monitor, reply), ..m };
    crate::machine::lemma_reset_keeps(seen);
    assert forall|place: int| 0 <= place < after.terms() implies held(
        after.settings,
        place,
        #[trigger] after.cells[place],
    ) by {
        assert(held(m.settings, place, m.cells[place]));
    }
}

/// Sound answers keep the terms held, from the start of a run on.
pub proof fn lemma_after_keeps_floor(settings: TrainingSettings, weights: Seq<u64>, replies: Seq<u64>)
    requires
        settings.error_predictions + weights.len() <= usize::MAX,
        !is_nan(settings.step),
        sound(Machine::initial(settings, weights), replies),
    ensures
        floor_kept(Machine::initial(settings, weights).after(replies)),
    decreases replies.len(),
{
    let start = Machine::initial(settings, weights);
    lemma_initial_wf(settings, weights);
    if replies.len() > 0 {
        let front = replies.drop_last();
        assert forall|i: int| 0 <= i < front.len() implies sound_reply(
            #[trigger] start.after(front.take(i)),
            front[i],
        ) by {
            assert(front.take(i) =~= replies.take(i));
        }
        lemma_after_keeps_floor(settings, weights, front);
        lemma_after_wf(start, front);
        assert(replies.take(front.len() as int) =~= front);
        lemma_next_keeps_floor(start.after(front), replies.last());
    }
}

/// The floor. In a run on a minimum step that is a number, answered soundly,
/// every error prediction term of every snapshot and outcome is at or above
/// the minimum step, or is a zero that a reset left in a term above the
/// first.
pub proof fn law_terms_held(settings: TrainingSettings, weights: Seq<u64>, replies: Seq<u64>, place: int)
    requires
        settings.error_predictions + weights.len() <= usize::MAX,
        !is_nan(settings.step),
        sound(Machine::initial(settings, weights), replies),
        0 <= place < settings.error_predictions,
    ensures
        ({
            let m = Machine::initial(settings, weights).after(replies);
            &&& m.pending() matches Request::Report(fit) ==> held(
                settings,
                place,
                fit.error_predictions[place],
            )
            &&& m.pending() matches Request::Finish(outcome) ==> held(
                settings,
                place,
                outcome_fit(outcome).error_predictions[place],
            )
        }),
{
    let m = Machine::initial(settings, weights).after(replies);
    lemma_initial_wf(settings, weights);
    lemma_after_wf(Machine::initial(settings, weights), replies);
    lemma_after_keeps_floor(settings, weights, replies);
    assert(held(m.settings, place, m.cells[place]));
}

/// A reset interval of zero. A run goes on past an opening only with a reset
/// interval above zero, so the schedule never divides by zero: with an
/// interval of zero every count of unchanged errors is already twice the
/// interval, and the first error that misses the accuracy ends the run.
pub proof fn law_continue_needs_interval(settings: TrainingSettings, monitor: Monitor, score: u64)
    ensures
        verdict(settings, monitor, score) == Verdict::Continue ==> settings.reset_interval > 0
            && monitor.iterations < settings.max_iterations && !le(
            score,
            settings.accuracy_error,
        ),
        settings.reset_interval == 0 ==> verdict(settings, monitor, score) != Verdict::Continue,
{
}

} // verus!
