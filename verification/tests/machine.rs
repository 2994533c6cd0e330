use error_predictive_learning::trainer::{Action, Trainer};
use error_predictive_learning::TrainingSettings;

fn b(x: f64) -> u64 {
    x.to_bits()
}

fn settings(error_predictions: usize, debug: bool) -> TrainingSettings {
    TrainingSettings {
        accuracy_error: b(0.0),
        step: b(0.25),
        max_iterations: 10,
        error_predictions,
        reset_interval: 3,
        elasticity: b(1.5),
        debug,
    }
}

fn expect_evaluate(action: &Action, weights: &[f64]) {
    match action {
        Action::Evaluate(got) => {
            let want: Vec<u64> = weights.iter().map(|w| w.to_bits()).collect();
            assert_eq!(got, &want);
        }
        other => panic!("expected an evaluation, got {:?}", other),
    }
}

fn expect_sum(action: &Action, a: f64, c: f64) {
    match action {
        Action::Sum(x, y) => assert_eq!((*x, *y), (b(a), b(c))),
        other => panic!("expected a sum, got {:?}", other),
    }
}

fn expect_difference(action: &Action, a: f64, c: f64) {
    match action {
        Action::Difference(x, y) => assert_eq!((*x, *y), (b(a), b(c))),
        other => panic!("expected a difference, got {:?}", other),
    }
}

fn expect_product(action: &Action, a: f64, c: f64) {
    match action {
        Action::Product(x, y) => assert_eq!((*x, *y), (b(a), b(c))),
        other => panic!("expected a product, got {:?}", other),
    }
}

#[test]
fn a_run_opens_with_the_error_of_the_weights() {
    let trainer = Trainer::new(settings(2, false), &[b(1.0), b(-2.0)]);
    expect_evaluate(&trainer.request(), &[1.0, -2.0]);
}

#[test]
fn request_does_not_move_the_run() {
    let trainer = Trainer::new(settings(2, false), &[b(1.0)]);
    expect_evaluate(&trainer.request(), &[1.0]);
    expect_evaluate(&trainer.request(), &[1.0]);
}

#[test]
fn a_run_succeeds_on_an_error_within_the_accuracy() {
    let mut trainer = Trainer::new(settings(2, false), &[b(1.0), b(-2.0)]);
    match trainer.advance(b(0.0)) {
        Action::Finish(Ok(fit)) => {
            assert_eq!(fit.error, b(0.0));
            assert_eq!(fit.weights, vec![b(1.0), b(-2.0)]);
            assert_eq!(fit.error_predictions, vec![b(0.25), b(0.0)]);
            assert_eq!(fit.iterations, 0);
        }
        other => panic!("expected success, got {:?}", other),
    }
}

#[test]
fn a_finished_run_repeats_its_outcome() {
    let mut trainer = Trainer::new(settings(0, false), &[b(1.0)]);
    assert!(matches!(trainer.advance(b(-1.0)), Action::Finish(Ok(_))));
    match trainer.advance(b(77.0)) {
        Action::Finish(Ok(fit)) => {
            assert_eq!(fit.error, b(-1.0));
            assert_eq!(fit.weights, vec![b(1.0)]);
            assert_eq!(fit.iterations, 0);
        }
        other => panic!("expected the same success, got {:?}", other),
    }
    assert!(matches!(trainer.request(), Action::Finish(Ok(_))));
}

#[test]
fn a_turn_without_terms_asks_in_order() {
    // One weight, no prediction terms: the score is the error itself.
    let mut trainer = Trainer::new(settings(0, false), &[b(1.0)]);
    // opening: error 8 misses the accuracy, so the sweep begins
    expect_evaluate(&trainer.advance(b(8.0)), &[1.0]);
    // baseline 8, then the step: elasticity times the minimum step
    expect_product(&trainer.advance(b(8.0)), 1.5, 0.25);
    // the step is 0.375; up: 1 + 0.375
    expect_sum(&trainer.advance(b(0.375)), 1.0, 0.375);
    expect_evaluate(&trainer.advance(b(1.375)), &[1.375]);
    // upper score 7, then twice the step
    expect_product(&trainer.advance(b(7.0)), 2.0, 0.375);
    // down: 1.375 - 0.75
    expect_difference(&trainer.advance(b(0.75)), 1.375, 0.75);
    expect_evaluate(&trainer.advance(b(0.625)), &[0.625]);
    // lower score 9: up is strictly better, back up by twice the step
    expect_sum(&trainer.advance(b(9.0)), 0.625, 0.75);
    // the sweep is over: the next iteration opens on the moved weight
    expect_evaluate(&trainer.advance(b(1.375)), &[1.375]);
    match trainer.advance(b(0.0)) {
        Action::Finish(Ok(fit)) => {
            assert_eq!(fit.weights, vec![b(1.375)]);
            assert_eq!(fit.iterations, 1);
        }
        other => panic!("expected success, got {:?}", other),
    }
}

#[test]
fn a_score_cascades_through_the_terms_in_order() {
    // Two terms [0.25, 0] and one weight. Raw error 3:
    // 3 + |3 - 0.25| = 5.75, then 5.75 + |5.75 - 0| = 11.5.
    let mut trainer = Trainer::new(settings(2, false), &[b(1.0)]);
    expect_evaluate(&trainer.advance(b(3.0)), &[1.0]);
    expect_difference(&trainer.advance(b(3.0)), 3.0, 0.25);
    expect_sum(&trainer.advance(b(2.75)), 3.0, 2.75);
    expect_difference(&trainer.advance(b(5.75)), 5.75, 0.0);
    expect_sum(&trainer.advance(b(5.75)), 5.75, 5.75);
    // the baseline is settled; term 0 takes its step from term 1
    expect_product(&trainer.advance(b(11.5)), 1.5, 0.0);
}

#[test]
fn the_distance_to_a_term_is_an_absolute_value() {
    // Raw error 0.125 with term 0.25: the difference is negative.
    let mut trainer = Trainer::new(settings(1, false), &[b(1.0)]);
    expect_evaluate(&trainer.advance(b(0.125)), &[1.0]);
    expect_difference(&trainer.advance(b(0.125)), 0.125, 0.25);
    expect_sum(&trainer.advance(b(-0.125)), 0.125, 0.125);
}

#[test]
fn a_term_is_held_to_the_floor_at_both_probes() {
    let mut trainer = Trainer::new(settings(1, false), &[b(1.0)]);
    expect_evaluate(&trainer.advance(b(3.0)), &[1.0]);
    expect_difference(&trainer.advance(b(3.0)), 3.0, 0.25);
    expect_sum(&trainer.advance(b(2.75)), 3.0, 2.75);
    // the only term is the highest: its step is from the minimum step
    expect_product(&trainer.advance(b(5.75)), 1.5, 0.25);
    expect_sum(&trainer.advance(b(0.375)), 0.25, 0.375);
    // an answer below the floor is replaced by the floor
    expect_evaluate(&trainer.advance(b(0.125)), &[1.0]);
    expect_difference(&trainer.advance(b(3.0)), 3.0, 0.25);
    expect_sum(&trainer.advance(b(2.75)), 3.0, 2.75);
    expect_product(&trainer.advance(b(5.75)), 2.0, 0.375);
    expect_difference(&trainer.advance(b(0.75)), 0.25, 0.75);
    // so is the lower position
    expect_evaluate(&trainer.advance(b(-0.5)), &[1.0]);
    expect_difference(&trainer.advance(b(3.0)), 3.0, 0.25);
}

#[test]
fn a_weight_takes_its_step_from_the_lowest_term() {
    let mut trainer = Trainer::new(settings(1, false), &[b(1.0)]);
    expect_evaluate(&trainer.advance(b(3.0)), &[1.0]);
    trainer.advance(b(3.0));
    trainer.advance(b(2.75));
    expect_product(&trainer.advance(b(5.75)), 1.5, 0.25);
    expect_sum(&trainer.advance(b(0.375)), 0.25, 0.375);
    expect_evaluate(&trainer.advance(b(0.625)), &[1.0]);
    trainer.advance(b(3.0));
    trainer.advance(b(2.375));
    expect_product(&trainer.advance(b(5.375)), 2.0, 0.375);
    expect_difference(&trainer.advance(b(0.75)), 0.625, 0.75);
    // the lower position falls to the floor
    expect_evaluate(&trainer.advance(b(-0.125)), &[1.0]);
    trainer.advance(b(3.0));
    trainer.advance(b(2.75));
    // scores 5.75, 5.375, 5.75: up is strictly better than down
    expect_sum(&trainer.advance(b(5.75)), 0.25, 0.75);
    // the term moves to 1.0 and the weight's turn begins
    expect_evaluate(&trainer.advance(b(1.0)), &[1.0]);
    expect_difference(&trainer.advance(b(3.0)), 3.0, 1.0);
    expect_sum(&trainer.advance(b(2.0)), 3.0, 2.0);
    expect_product(&trainer.advance(b(5.0)), 1.5, 1.0);
}

#[test]
fn a_report_precedes_the_reset_when_asked_for() {
    let mut trainer = Trainer::new(settings(2, true), &[b(1.0)]);
    match trainer.advance(b(3.0)) {
        Action::Report(fit) => {
            assert_eq!(fit.error, b(3.0));
            assert_eq!(fit.weights, vec![b(1.0)]);
            assert_eq!(fit.error_predictions, vec![b(0.25), b(0.0)]);
            assert_eq!(fit.iterations, 0);
        }
        other => panic!("expected a report, got {:?}", other),
    }
    // whatever is answered, the sweep begins
    expect_evaluate(&trainer.advance(b(123.0)), &[1.0]);
    expect_difference(&trainer.advance(b(3.0)), 3.0, 0.25);
}

#[test]
fn an_empty_search_state_goes_from_opening_to_opening() {
    let mut trainer = Trainer::new(settings(0, false), &[]);
    expect_evaluate(&trainer.request(), &[]);
    expect_evaluate(&trainer.advance(b(1.0)), &[]);
    expect_evaluate(&trainer.advance(b(2.0)), &[]);
    match trainer.advance(b(0.0)) {
        Action::Finish(Ok(fit)) => assert_eq!(fit.iterations, 2),
        other => panic!("expected success, got {:?}", other),
    }
}

#[test]
fn a_tie_reverts_the_coordinate() {
    let mut trainer = Trainer::new(settings(0, false), &[b(1.0)]);
    trainer.advance(b(8.0));
    trainer.advance(b(8.0));
    trainer.advance(b(0.375));
    trainer.advance(b(1.375));
    trainer.advance(b(8.0));
    trainer.advance(b(0.75));
    trainer.advance(b(0.625));
    // all three scores are 8: the weight goes back to 1
    expect_evaluate(&trainer.advance(b(8.0)), &[1.0]);
}

#[test]
fn a_tie_between_up_and_down_stays_down() {
    let mut trainer = Trainer::new(settings(0, false), &[b(1.0)]);
    trainer.advance(b(8.0));
    trainer.advance(b(8.0));
    trainer.advance(b(0.375));
    trainer.advance(b(1.375));
    trainer.advance(b(7.0));
    trainer.advance(b(0.75));
    trainer.advance(b(0.625));
    expect_evaluate(&trainer.advance(b(7.0)), &[0.625]);
}
