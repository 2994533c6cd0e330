use error_predictive_learning::number::{absolute, at_most, below, equal, nan};

fn samples() -> Vec<f64> {
    vec![
        0.0,
        -0.0,
        1.0,
        -1.0,
        2.0,
        0.5,
        -0.5,
        1e-28,
        -1e-28,
        5e-324,
        -5e-324,
        f64::MIN_POSITIVE,
        f64::MAX,
        f64::MIN,
        f64::INFINITY,
        f64::NEG_INFINITY,
        f64::NAN,
        -f64::NAN,
        0.12345678987654321,
        -9.876543210123456789,
    ]
}

#[test]
fn ordering_agrees_with_binary64() {
    for a in samples() {
        for b in samples() {
            assert_eq!(at_most(a.to_bits(), b.to_bits()), a <= b);
            assert_eq!(below(a.to_bits(), b.to_bits()), a < b);
            assert_eq!(equal(a.to_bits(), b.to_bits()), a == b);
        }
    }
}

#[test]
fn absolute_agrees_with_binary64() {
    for a in samples() {
        assert_eq!(absolute(a.to_bits()), a.abs().to_bits());
        assert_eq!(nan(a.to_bits()), a.is_nan());
    }
}

#[test]
fn zeros_are_equal_and_nan_is_not() {
    let zero = 0.0f64.to_bits();
    let minus_zero = (-0.0f64).to_bits();
    assert!(equal(zero, minus_zero));
    assert!(at_most(zero, minus_zero));
    assert!(!below(minus_zero, zero));
    let quiet = f64::NAN.to_bits();
    assert!(!equal(quiet, quiet));
    assert!(!at_most(quiet, quiet));
}

#[test]
fn constants_are_the_encodings() {
    assert_eq!(error_predictive_learning::number::ZERO, 0.0f64.to_bits());
    assert_eq!(error_predictive_learning::number::TWO, 2.0f64.to_bits());
    assert_eq!(error_predictive_learning::number::INFINITY, f64::INFINITY.to_bits());
    assert_eq!(error_predictive_learning::number::SIGN, (-0.0f64).to_bits());
}
