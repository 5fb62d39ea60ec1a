use mlrs_algorithm::FitError;
use mlrs_algorithm::Linear;
use mlrs_algorithm::PredictError;

/// Carries a slice of binary64 values into the bit-pattern form the
/// library computes on.
fn bits(values: &[f64]) -> Vec<u64> {
    values.iter().map(|v| v.to_bits()).collect()
}

/// Carries the library's bit-pattern output back to binary64 values.
fn floats(values: &[u64]) -> Vec<f64> {
    values.iter().map(|v| f64::from_bits(*v)).collect()
}

#[test]
fn test_linear_fit_model_is_already_fitted() {
    let mut model = Linear::new();
    let x = bits(&[1.0, 2.0, 3.0]);
    let y = bits(&[5.0, 6.0, 7.0]);

    assert_eq!(model.fit(&x, &y), Ok(()));
    assert_eq!(model.fit(&x, &y), Err(FitError::AlreadyFitted));
}

#[test]
fn test_linear_fit_input_vectors_different_length() {
    let mut model = Linear::new();
    let x = bits(&[1.0, 2.0, 3.0]);
    let y = bits(&[5.0, 6.0]);

    assert_eq!(model.fit(&x, &y), Err(FitError::LengthMismatch));
}

#[test]
fn test_linear_fit_input_vectors_too_short() {
    let mut model = Linear::new();
    let x = bits(&[1.0]);
    let y = bits(&[5.0]);

    assert_eq!(model.fit(&x, &y), Err(FitError::InsufficientData));
}

#[test]
fn test_linear_predict() {
    let mut model = Linear::new();
    let x = bits(&[1.0, 2.0, 3.0]);
    let y = bits(&[5.0, 6.0, 7.0]);

    model.fit(&x, &y).unwrap();

    let want = 8.0;
    let got = f64::from_bits(model.predict(&bits(&[4.0])).unwrap()[0]);

    assert_eq!(got, want, "wanted {}, got {}", want, got);
}

#[test]
fn test_linear_predict_model_not_fitted() {
    let model = Linear::new();
    assert_eq!(model.predict(&bits(&[1.0])), Err(PredictError::NotFitted));
}

#[test]
fn test_predict_not_fitted_empty_input() {
    let model = Linear::new();
    assert_eq!(model.predict(&Vec::new()), Err(PredictError::NotFitted));
}

#[test]
fn test_fit_empty_inputs() {
    let mut model = Linear::new();
    assert_eq!(model.fit(&Vec::new(), &Vec::new()), Err(FitError::InsufficientData));
}

#[test]
fn test_failed_fit_leaves_model_unfit() {
    let mut model = Linear::new();
    let x = bits(&[1.0, 2.0, 3.0]);
    let y = bits(&[5.0, 6.0]);

    assert_eq!(model.fit(&x, &y), Err(FitError::LengthMismatch));
    assert_eq!(model.predict(&x), Err(PredictError::NotFitted));
}

#[test]
fn test_already_fitted_reported_before_other_errors() {
    let mut model = Linear::new();
    let x = bits(&[1.0, 2.0, 3.0]);
    let y = bits(&[5.0, 6.0, 7.0]);

    model.fit(&x, &y).unwrap();

    let short = bits(&[1.0]);
    assert_eq!(model.fit(&x, &short), Err(FitError::AlreadyFitted));
    assert_eq!(model.fit(&short, &short), Err(FitError::AlreadyFitted));
}

#[test]
fn test_predict_preserves_length_and_order() {
    let mut model = Linear::new();
    let x = bits(&[0.0, 1.0, 2.0]);
    let y = bits(&[1.0, 3.0, 5.0]);

    model.fit(&x, &y).unwrap();

    let input = [0.5, -1.0, 10.0, 0.0];
    let got = floats(&model.predict(&bits(&input)).unwrap());

    assert_eq!(got.len(), input.len());
    for (g, v) in got.iter().zip(input.iter()) {
        let want = 1.0 + 2.0 * v;
        assert_eq!(*g, want, "wanted {}, got {}", want, g);
    }
}

#[test]
fn test_predict_twice_is_identical() {
    let mut model = Linear::new();
    let x = bits(&[1.0, 2.0, 3.0]);
    let y = bits(&[5.0, 6.0, 7.0]);

    model.fit(&x, &y).unwrap();

    let input = bits(&[4.0, -2.5, 37655.2, 0.0]);
    let first = model.predict(&input).unwrap();
    let second = model.predict(&input).unwrap();

    assert_eq!(first, second);
}

#[test]
fn test_linear_predict_far_from_data() {
    let mut model = Linear::new();
    let x = bits(&[1.0, 2.0, 3.0]);
    let y = bits(&[5.0, 6.0, 7.0]);

    model.fit(&x, &y).unwrap();

    // The fitted line is exactly y = x + 4, so the expected value is what
    // binary64 arithmetic gives for intercept + slope * input.
    let want = 4.0 + 1.0 * 37655.2_f64;
    let got = f64::from_bits(model.predict(&bits(&[37655.2])).unwrap()[0]);

    assert_eq!(got.to_bits(), want.to_bits(), "wanted {}, got {}", want, got);
}

#[test]
fn test_fit_with_identical_x_values_is_unguarded() {
    let mut model = Linear::new();
    let x = bits(&[2.0, 2.0]);
    let y = bits(&[1.0, 3.0]);

    // All x values identical: the shared denominator is zero and the
    // parameters come out non-finite rather than as a typed error.
    assert_eq!(model.fit(&x, &y), Ok(()));

    let got = f64::from_bits(model.predict(&bits(&[2.0])).unwrap()[0]);
    assert!(got.is_nan());
}
