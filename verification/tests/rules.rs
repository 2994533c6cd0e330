use error_predictive_learning::monitor::{Monitor, Verdict};
use error_predictive_learning::policy::{
    clamp_if_prediction, decide, hold_floor, pick_step_source, Decision, StepSource,
};
use error_predictive_learning::TrainingSettings;

fn b(x: f64) -> u64 {
    x.to_bits()
}

fn settings(max_iterations: u64, reset_interval: u64) -> TrainingSettings {
    TrainingSettings {
        accuracy_error: b(0.5),
        step: b(0.01),
        max_iterations,
        error_predictions: 2,
        reset_interval,
        elasticity: b(1.55),
        debug: false,
    }
}

#[test]
fn step_source_of_a_lower_term_is_the_next_term() {
    assert_eq!(pick_step_source(3, 0), StepSource::Prediction(1));
    assert_eq!(pick_step_source(3, 1), StepSource::Prediction(2));
}

#[test]
fn step_source_of_the_highest_term_is_the_minimum() {
    assert_eq!(pick_step_source(3, 2), StepSource::Minimum);
    assert_eq!(pick_step_source(1, 0), StepSource::Minimum);
}

#[test]
fn step_source_of_a_weight_is_the_lowest_term() {
    assert_eq!(pick_step_source(3, 3), StepSource::Prediction(0));
    assert_eq!(pick_step_source(3, 17), StepSource::Prediction(0));
    assert_eq!(pick_step_source(1, usize::MAX), StepSource::Prediction(0));
}

#[test]
fn step_source_without_terms_is_the_minimum() {
    assert_eq!(pick_step_source(0, 0), StepSource::Minimum);
    assert_eq!(pick_step_source(0, 5), StepSource::Minimum);
    assert_eq!(pick_step_source(0, usize::MAX), StepSource::Minimum);
}

#[test]
fn floor_replaces_what_is_at_or_below_it() {
    assert_eq!(hold_floor(b(0.0), b(0.01)), b(0.01));
    assert_eq!(hold_floor(b(-3.0), b(0.01)), b(0.01));
    assert_eq!(hold_floor(b(0.01), b(0.01)), b(0.01));
    assert_eq!(hold_floor(b(0.02), b(0.01)), b(0.02));
    assert_eq!(hold_floor(b(-0.0), b(0.0)), b(0.0));
}

#[test]
fn floor_lets_a_nan_pass() {
    let quiet = f64::NAN.to_bits();
    assert_eq!(hold_floor(quiet, b(0.01)), quiet);
    assert_eq!(hold_floor(b(0.0), quiet), b(0.0));
}

#[test]
fn floor_applies_to_prediction_terms_only() {
    assert_eq!(clamp_if_prediction(2, b(0.01), 0, b(-1.0)), b(0.01));
    assert_eq!(clamp_if_prediction(2, b(0.01), 1, b(-1.0)), b(0.01));
    assert_eq!(clamp_if_prediction(2, b(0.01), 2, b(-1.0)), b(-1.0));
    assert_eq!(clamp_if_prediction(0, b(0.01), 0, b(-1.0)), b(-1.0));
}

#[test]
fn decision_reverts_when_nothing_is_better() {
    assert_eq!(decide(b(1.0), b(2.0), b(3.0)), Decision::Revert);
    assert_eq!(decide(b(1.0), b(1.0), b(1.0)), Decision::Revert);
    assert_eq!(decide(b(1.0), b(1.0), b(2.0)), Decision::Revert);
}

#[test]
fn decision_moves_up_only_when_up_is_strictly_better_than_down() {
    assert_eq!(decide(b(1.0), b(0.5), b(0.75)), Decision::MoveUp);
    assert_eq!(decide(b(1.0), b(0.5), b(2.0)), Decision::MoveUp);
    assert_eq!(decide(b(1.0), b(0.5), b(0.5)), Decision::StayDown);
    assert_eq!(decide(b(1.0), b(0.75), b(0.5)), Decision::StayDown);
    assert_eq!(decide(b(1.0), b(2.0), b(0.5)), Decision::StayDown);
}

#[test]
fn decision_stays_down_on_a_nan_probe() {
    let quiet = f64::NAN.to_bits();
    assert_eq!(decide(b(1.0), quiet, b(2.0)), Decision::StayDown);
    assert_eq!(decide(b(1.0), b(0.5), quiet), Decision::StayDown);
    assert_eq!(decide(b(1.0), b(2.0), quiet), Decision::StayDown);
    assert_eq!(decide(quiet, quiet, quiet), Decision::StayDown);
}

#[test]
fn decision_never_reverts_to_a_nan_baseline() {
    let quiet = f64::NAN.to_bits();
    assert_eq!(decide(quiet, b(1.0), b(2.0)), Decision::MoveUp);
    assert_eq!(decide(quiet, b(2.0), b(1.0)), Decision::StayDown);
    assert_eq!(decide(quiet, b(1.0), b(1.0)), Decision::StayDown);
}

#[test]
fn verdict_looks_at_accuracy_first() {
    let monitor = Monitor { iterations: 10, last_score: Some(b(1.0)), stagnation: 100 };
    assert_eq!(monitor.judge(&settings(10, 5), b(0.5)), Verdict::Success);
    assert_eq!(monitor.judge(&settings(10, 5), b(0.25)), Verdict::Success);
    assert_eq!(monitor.judge(&settings(10, 5), b(0.75)), Verdict::Failure);
}

#[test]
fn verdict_fails_on_the_iteration_cap() {
    let monitor = Monitor { iterations: 10, last_score: None, stagnation: 0 };
    assert_eq!(monitor.judge(&settings(10, 5), b(1.0)), Verdict::Failure);
    assert_eq!(monitor.judge(&settings(11, 5), b(1.0)), Verdict::Continue);
    assert_eq!(monitor.judge(&settings(0, 5), b(1.0)), Verdict::Failure);
}

#[test]
fn verdict_fails_on_twice_the_reset_interval() {
    let almost = Monitor { iterations: 50, last_score: Some(b(1.0)), stagnation: 9 };
    let there = Monitor { iterations: 50, last_score: Some(b(1.0)), stagnation: 10 };
    assert_eq!(almost.judge(&settings(100, 5), b(1.0)), Verdict::Continue);
    assert_eq!(there.judge(&settings(100, 5), b(1.0)), Verdict::Failure);
    let fresh = Monitor::new();
    assert_eq!(fresh.judge(&settings(100, 0), b(1.0)), Verdict::Failure);
}

#[test]
fn verdict_with_a_huge_reset_interval_does_not_wrap() {
    let monitor = Monitor { iterations: 50, last_score: Some(b(1.0)), stagnation: 40 };
    assert_eq!(monitor.judge(&settings(100, u64::MAX), b(1.0)), Verdict::Continue);
    assert_eq!(monitor.judge(&settings(100, (1u64 << 63) + 3), b(1.0)), Verdict::Continue);
}

#[test]
fn a_nan_error_is_no_success() {
    let monitor = Monitor::new();
    assert_eq!(monitor.judge(&settings(100, 5), f64::NAN.to_bits()), Verdict::Continue);
}

#[test]
fn observing_counts_repeats_of_the_last_error() {
    let mut monitor = Monitor::new();
    monitor.observe(b(1.0));
    assert_eq!(monitor.stagnation, 0);
    assert_eq!(monitor.last_score, Some(b(1.0)));
    monitor.observe(b(1.0));
    assert_eq!(monitor.stagnation, 1);
    monitor.observe(b(1.0));
    assert_eq!(monitor.stagnation, 2);
    monitor.observe(b(2.0));
    assert_eq!(monitor.stagnation, 0);
    assert_eq!(monitor.last_score, Some(b(2.0)));
    assert_eq!(monitor.iterations, 0);
}

#[test]
fn observing_treats_the_zeros_as_equal_and_a_nan_as_new() {
    let mut monitor = Monitor::new();
    monitor.observe(b(0.0));
    monitor.observe(b(-0.0));
    assert_eq!(monitor.stagnation, 1);
    monitor.observe(f64::NAN.to_bits());
    assert_eq!(monitor.stagnation, 0);
    monitor.observe(f64::NAN.to_bits());
    assert_eq!(monitor.stagnation, 0);
}

#[test]
fn reset_is_due_on_multiples_of_the_interval() {
    let at = |iterations: u64| Monitor { iterations, last_score: None, stagnation: 0 };
    assert!(at(0).is_reset_due(&settings(100, 5)));
    assert!(!at(1).is_reset_due(&settings(100, 5)));
    assert!(!at(4).is_reset_due(&settings(100, 5)));
    assert!(at(5).is_reset_due(&settings(100, 5)));
    assert!(at(10).is_reset_due(&settings(100, 5)));
    assert!(at(7).is_reset_due(&settings(100, 1)));
    assert!(!at(0).is_reset_due(&settings(100, 0)));
}
