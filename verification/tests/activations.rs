use nn_layer::activation::{linear, relu, step, Activation};
use nn_layer::fx::FX_SCALE;

#[test]
fn linear_is_identity() {
    for v in [0i64, 1, -1, FX_SCALE, -FX_SCALE, i64::MAX, i64::MIN] {
        let mut x = v;
        linear(&mut x);
        assert_eq!(x, v);
    }
}

#[test]
fn relu_keeps_nonnegative_and_zeroes_negative() {
    let mut x = 25000i64;
    relu(&mut x);
    assert_eq!(x, 25000);
    let mut y = 0i64;
    relu(&mut y);
    assert_eq!(y, 0);
    let mut z = -15000i64;
    relu(&mut z);
    assert_eq!(z, 0);
}

#[test]
fn relu_is_idempotent() {
    for v in [-30000i64, -1, 0, 1, 42, 99000] {
        let mut once = v;
        relu(&mut once);
        let mut twice = once;
        relu(&mut twice);
        assert_eq!(twice, once);
    }
}

#[test]
fn step_is_one_on_positive_zero_otherwise() {
    let mut x = 1i64;
    step(&mut x);
    assert_eq!(x, FX_SCALE);
    let mut y = 0i64;
    step(&mut y);
    assert_eq!(y, 0);
    let mut z = -1i64;
    step(&mut z);
    assert_eq!(z, 0);
}

#[test]
fn step_range_is_exactly_zero_and_one() {
    for v in [i64::MIN, -FX_SCALE, -1, 0, 1, 7, FX_SCALE, i64::MAX] {
        let mut x = v;
        step(&mut x);
        assert!(x == 0 || x == FX_SCALE);
        assert_eq!(x == FX_SCALE, v > 0);
        assert_eq!(x == 0, v <= 0);
    }
}

#[test]
fn apply_dispatches_to_each_activation() {
    assert_eq!(Activation::Step.apply(123), FX_SCALE);
    assert_eq!(Activation::Step.apply(-123), 0);
    assert_eq!(Activation::Linear.apply(-123), -123);
    assert_eq!(Activation::Relu.apply(-123), 0);
    assert_eq!(Activation::Relu.apply(123), 123);
}
