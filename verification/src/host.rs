//! Training against a host: the party that knows the error function and does
//! the arithmetic on binary64 numbers.
//!
//! The host is four functions, handed over as values, and a fifth that takes
//! note of snapshots. What the training returns is stated over what those
//! functions promise of their results.

use vstd::prelude::*;
use crate::fit::{outcome_fit, outcome_view, Fit};
use crate::laws::{faithful, law_outcome_is_determined, lemma_after_wf};
use crate::machine::{lemma_initial_wf, lemma_next_closer, lemma_next_weights, Machine, Request};
use crate::number::{le, ZERO};
use crate::settings::TrainingSettings;
use crate::trainer::{Action, Trainer};
use crate::training::Oracle;

verus! {

/// Whether `reply` is an answer that the host's functions may give to
/// `request`. A snapshot is answered with zero.
pub open spec fn may_answer<F, S, D, P>(
    error: F,
    sum: S,
    difference: D,
    product: P,
    request: Request,
    reply: u64,
) -> bool where
    F: Fn(&[u64]) -> u64,
    S: Fn(u64, u64) -> u64,
    D: Fn(u64, u64) -> u64,
    P: Fn(u64, u64) -> u64,
 {
    match request {
        Request::Evaluate(weights) => exists|at: &[u64]|
            at@ == weights && #[trigger] call_ensures(error, (at,), reply),
        Request::Sum(a, b) => call_ensures(sum, (a, b), reply),
        Request::Difference(a, b) => call_ensures(difference, (a, b), reply),
        Request::Product(a, b) => call_ensures(product, (a, b), reply),
        Request::Report(fit) => reply == ZERO,
        Request::Finish(outcome) => reply == ZERO,
    }
}

/// Whether each of `replies` is an answer that the host's functions may give
/// to the request that was pending when it was given, in a run that began in
/// state `m`.
pub open spec fn answered<F, S, D, P>(
    error: F,
    sum: S,
    difference: D,
    product: P,
    m: Machine,
    replies: Seq<u64>,
) -> bool where
    F: Fn(&[u64]) -> u64,
    S: Fn(u64, u64) -> u64,
    D: Fn(u64, u64) -> u64,
    P: Fn(u64, u64) -> u64,
 {
    forall|i: int|
        0 <= i < replies.len() ==> may_answer(
            error,
            sum,
            difference,
            product,
            #[trigger] m.after(replies.take(i)).pending(),
            replies[i],
        )
}

/// Whether the host's functions return what the oracle's functions give:
/// whether each promises of its result that it is the oracle's value.
pub open spec fn answers_as<F, S, D, P>(
    error: F,
    sum: S,
    difference: D,
    product: P,
    oracle: Oracle,
) -> bool where
    F: Fn(&[u64]) -> u64,
    S: Fn(u64, u64) -> u64,
    D: Fn(u64, u64) -> u64,
    P: Fn(u64, u64) -> u64,
 {
    &&& forall|at: &[u64], r: u64| #[trigger]
        call_ensures(error, (at,), r) ==> r == (oracle.error)(at@)
    &&& forall|a: u64, b: u64, r: u64| #[trigger]
        call_ensures(sum, (a, b), r) ==> r == (oracle.sum)(a, b)
    &&& forall|a: u64, b: u64, r: u64| #[trigger]
        call_ensures(difference, (a, b), r) ==> r == (oracle.difference)(a, b)
    &&& forall|a: u64, b: u64, r: u64| #[trigger]
        call_ensures(product, (a, b), r) ==> r == (oracle.product)(a, b)
}

/// Answers of a host whose functions return what the oracle's give are the
/// oracle's answers.
pub proof fn lemma_answered_is_faithful<F, S, D, P>(
    error: F,
    sum: S,
    difference: D,
    product: P,
    oracle: Oracle,
    m: Machine,
    replies: Seq<u64>,
) where
    F: Fn(&[u64]) -> u64,
    S: Fn(u64, u64) -> u64,
    D: Fn(u64, u64) -> u64,
    P: Fn(u64, u64) -> u64,

    requires
        answered(error, sum, difference, product, m, replies),
        answers_as(error, sum, difference, product, oracle),
    ensures
        faithful(m, oracle, replies),
{
    assert forall|i: int| 0 <= i < replies.len() implies replies[i] == oracle.answer(
        #[trigger] m.after(replies.take(i)).pending(),
    ) by {
        let request = m.after(replies.take(i)).pending();
        assert(may_answer(error, sum, difference, product, request, replies[i]));
    }
}

/// Trains to fit a vector of weights on a black-box function returning error.
///
/// Returns `Ok` if acceptable accuracy error was achieved.
/// Returns `Err` if exceeding max iterations or score was unchanged
/// for twice the reset interval.
///
/// `error` is the function to minimise; `sum`, `difference` and `product` do
/// the arithmetic; `report` takes note of a snapshot each reset interval when
/// the settings ask for it. Every number is a binary64 bit pattern.
///
/// The outcome is the one the training machine finishes with on answers that
/// the four functions gave. Where they return what the functions of an
/// oracle give, it is the outcome of the training as defined for that
/// oracle.
pub fn train<F, S, D, P, R>(
    settings: TrainingSettings,
    weights: &[u64],
    error: F,
    sum: S,
    difference: D,
    product: P,
    report: R,
) -> (r: Result<Fit, Fit>) where
    F: Fn(&[u64]) -> u64,
    S: Fn(u64, u64) -> u64,
    D: Fn(u64, u64) -> u64,
    P: Fn(u64, u64) -> u64,
    R: Fn(&Fit) -> (),

    requires
        settings.error_predictions + weights@.len() <= usize::MAX,
        forall|at: &[u64]| at@.len() == weights@.len() ==> call_requires(error, (at,)),
        forall|a: u64, b: u64| call_requires(sum, (a, b)),
        forall|a: u64, b: u64| call_requires(difference, (a, b)),
        forall|a: u64, b: u64| call_requires(product, (a, b)),
        forall|fit: &Fit|
            fit@.weights.len() == weights@.len() && fit@.error_predictions.len()
                == settings.error_predictions ==> call_requires(report, (fit,)),
    ensures
        exists|replies: Seq<u64>|
            #![trigger Machine::initial(settings, weights@).after(replies)]
            answered(
                error,
                sum,
                difference,
                product,
                Machine::initial(settings, weights@),
                replies,
            ) && Machine::initial(settings, weights@).after(replies).pending()
                == Request::Finish(outcome_view(r)),
        forall|oracle: Oracle| #[trigger]
            answers_as(error, sum, difference, product, oracle) ==> outcome_view(r)
                == oracle.training(settings, weights@),
        r is Ok <==> le(outcome_fit(outcome_view(r)).error, settings.accuracy_error),
        outcome_fit(outcome_view(r)).iterations <= settings.max_iterations,
        outcome_fit(outcome_view(r)).weights.len() == weights@.len(),
        outcome_fit(outcome_view(r)).error_predictions.len() == settings.error_predictions,
        settings.max_iterations == 0 ==> outcome_fit(outcome_view(r)).weights == weights@,
{
    let ghost start = Machine::initial(settings, weights@);
    let mut trainer = Trainer::new(settings, weights);
    let mut action = trainer.request();
    let ghost mut replies: Seq<u64> = Seq::empty();
    proof {
        lemma_initial_wf(settings, weights@);
    }
    loop
        invariant
            forall|at: &[u64]| at@.len() == weights@.len() ==> call_requires(error, (at,)),
            forall|a: u64, b: u64| call_requires(sum, (a, b)),
            forall|a: u64, b: u64| call_requires(difference, (a, b)),
            forall|a: u64, b: u64| call_requires(product, (a, b)),
            forall|fit: &Fit|
                fit@.weights.len() == weights@.len() && fit@.error_predictions.len()
                    == settings.error_predictions ==> call_requires(report, (fit,)),
            settings.error_predictions + weights@.len() <= usize::MAX,
            start == Machine::initial(settings, weights@),
            trainer@.wf(),
            action@ == trainer@.pending(),
            trainer@ == start.after(replies),
            answered(error, sum, difference, product, start, replies),
            trainer@.settings == settings,
            trainer@.cells.len() == settings.error_predictions + weights@.len(),
            settings.max_iterations == 0 ==> trainer@.weights() == weights@,
        decreases
                trainer@.openings_left(),
                trainer@.turns_left(),
                trainer@.parts_left(),
                trainer@.requests_left(),
    {
        let reply: u64 = match action {
            Action::Finish(outcome) => {
                proof {
                    assert forall|oracle: Oracle| #[trigger]
                        answers_as(error, sum, difference, product, oracle) implies outcome_view(
                        outcome,
                    ) == oracle.training(settings, weights@) by {
                        lemma_answered_is_faithful(
                            error,
                            sum,
                            difference,
                            product,
                            oracle,
                            start,
                            replies,
                        );
                        law_outcome_is_determined(settings, weights@, oracle, replies);
                    }
                }
                return outcome;
            },
            Action::Evaluate(at) => error(at.as_slice()),
            Action::Sum(a, b) => sum(a, b),
            Action::Difference(a, b) => difference(a, b),
            Action::Product(a, b) => product(a, b),
            Action::Report(fit) => {
                report(&fit);
                ZERO
            },
        };
        proof {
            lemma_next_closer(trainer@, reply);
            crate::machine::lemma_next_wf(trainer@, reply);
            lemma_next_weights(trainer@, reply);
            let longer = replies.push(reply);
            assert(longer.drop_last() =~= replies);
            assert(may_answer(error, sum, difference, product, trainer@.pending(), reply));
            assert forall|i: int| 0 <= i < longer.len() implies may_answer(
                error,
                sum,
                difference,
                product,
                #[trigger] start.after(longer.take(i)).pending(),
                longer[i],
            ) by {
                if i < replies.len() {
                    assert(longer.take(i) =~= replies.take(i));
                } else {
                    assert(longer.take(i) =~= replies);
                }
            }
            replies = longer;
        }
        action = trainer.advance(reply);
    }
}

} // verus!
