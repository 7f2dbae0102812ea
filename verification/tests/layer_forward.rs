use nn_layer::activation::Activation;
use nn_layer::layer::Layer;
use nn_layer::matrix::{Matrix, ShapeMismatch};

fn fx(x: f64) -> i64 {
    (x * 10000.0).round() as i64
}

/// The 3-feature x 4-batch input used across these tests.
fn input_3x4() -> Matrix {
    let data = vec![
        fx(1.0), fx(2.0), fx(3.0), fx(2.5),
        fx(2.0), fx(5.0), fx(-1.0), fx(2.0),
        fx(-1.5), fx(2.7), fx(3.3), fx(-0.8),
    ];
    Matrix::new(3, 4, data).unwrap()
}

#[test]
fn matrix_new_rejects_wrong_backing_length() {
    assert_eq!(Matrix::new(2, 2, vec![1, 2, 3]).unwrap_err(), ShapeMismatch);
    assert!(Matrix::new(2, 2, vec![1, 2, 3, 4]).is_ok());
}

#[test]
fn layer_new_rejects_bias_length_mismatch() {
    let w = Matrix::new(2, 3, vec![0; 6]).unwrap();
    assert_eq!(Layer::new(w, vec![0; 3]).unwrap_err(), ShapeMismatch);
    let w = Matrix::new(2, 3, vec![0; 6]).unwrap();
    assert!(Layer::new(w, vec![0; 2]).is_ok());
}

#[test]
fn forward_output_has_out_rows_and_input_columns() {
    let layer = Layer::random_init(2, 3);
    let out = layer.forward(&input_3x4(), Activation::Relu).unwrap();
    assert_eq!(out.rows(), 2);
    assert_eq!(out.cols(), 4);
}

#[test]
fn forward_rejects_input_with_wrong_feature_rows() {
    let layer = Layer::random_init(2, 5);
    assert_eq!(
        layer.forward(&input_3x4(), Activation::Relu).unwrap_err(),
        ShapeMismatch
    );
}

#[test]
fn random_init_weights_small_and_biases_zero() {
    let layer = Layer::random_init(4, 5);
    assert_eq!(layer.biases, vec![0; 4]);
    for i in 0..4 {
        for j in 0..5 {
            let w = layer.weights.get(i, j);
            // a unit draw scaled by 0.02 and shifted by -0.01: within
            // [-0.01, 0.01) in fixed point
            assert!(-100 <= w && w < 100);
        }
    }
}

#[test]
fn forward_matches_the_linear_transform_formula() {
    // weights (2 x 3):  [[1.0, 0.5, 2.0], [-1.0, 1.0, -0.5]], zero bias
    let w = Matrix::new(
        2,
        3,
        vec![fx(1.0), fx(0.5), fx(2.0), fx(-1.0), fx(1.0), fx(-0.5)],
    )
    .unwrap();
    let layer = Layer::new(w, vec![0, 0]).unwrap();
    let out = layer.forward(&input_3x4(), Activation::Relu).unwrap();
    // row 0: in0 + 0.5*in1 + 2*in2, then relu
    let expected_row0 = [0, 99000, 91000, 19000];
    // row 1: -in0 + in1 - 0.5*in2, then relu
    let expected_row1 = [17500, 16500, 0, 0];
    for b in 0..4 {
        assert_eq!(out.get(0, b), expected_row0[b]);
        assert_eq!(out.get(1, b), expected_row1[b]);
    }
}

#[test]
fn forward_applies_bias_to_every_batch_column() {
    // one output row, identity-free weights, bias 0.5 broadcast over the batch
    let w = Matrix::new(1, 3, vec![fx(1.0), 0, 0]).unwrap();
    let layer = Layer::new(w, vec![fx(0.5)]).unwrap();
    let out = layer.forward(&input_3x4(), Activation::Linear).unwrap();
    assert_eq!(out.get(0, 0), fx(1.5));
    assert_eq!(out.get(0, 1), fx(2.5));
    assert_eq!(out.get(0, 2), fx(3.5));
    assert_eq!(out.get(0, 3), fx(3.0));
}
