use vstd::prelude::*;
use crate::fx::FX_SCALE;

verus! {

/// A pluggable, stateless elementwise activation, applied after the linear
/// transform. Each variant is a pure function from scalar to scalar with no
/// cross-element effect.
#[derive(Clone, Copy, PartialEq, Eq, Structural, Debug)]
pub enum Activation {
    /// `1` for positive inputs, `0` otherwise (the boundary maps to `0`).
    Step,
    /// The identity.
    Linear,
    /// `max(x, 0)`.
    Relu,
}

/// What `step` returns: one for positive inputs, zero for the rest
/// (in fixed point, one is `FX_SCALE`).
pub open spec fn step_spec(x: int) -> int {
    if x > 0 {
        FX_SCALE as int
    } else {
        0
    }
}

/// What `relu` returns: the input where it is nonnegative, zero below.
pub open spec fn relu_spec(x: int) -> int {
    if x >= 0 {
        x
    } else {
        0
    }
}

/// What a given activation returns on a scalar.
pub open spec fn act_spec(a: Activation, x: int) -> int {
    match a {
        Activation::Step => step_spec(x),
        Activation::Linear => x,
        Activation::Relu => relu_spec(x),
    }
}

/// Replaces the scalar with one if it was positive, zero otherwise.
pub fn step(x: &mut i64)
    ensures
        *final(x) as int == step_spec(*old(x) as int),
{
    if *x > 0 {
        *x = FX_SCALE;
    } else {
        *x = 0;
    }
}

/// Leaves the scalar unchanged: the identity activation.
pub fn linear(x: &mut i64)
    ensures
        *final(x) == *old(x),
{
}

/// Replaces the scalar with the larger of it and zero.
pub fn relu(x: &mut i64)
    ensures
        *final(x) as int == relu_spec(*old(x) as int),
{
    if *x < 0 {
        *x = 0;
    }
}

impl Activation {
    /// Applies the activation to one scalar and returns the result.
    pub fn apply(&self, v: i64) -> (r: i64)
        ensures
            r as int == act_spec(*self, v as int),
    {
        let mut t = v;
        match self {
            Activation::Step => step(&mut t),
            Activation::Linear => linear(&mut t),
            Activation::Relu => relu(&mut t),
        }
        t
    }
}

/// `relu` is idempotent: applying it twice gives the same scalar as
/// applying it once.
pub proof fn lemma_relu_idempotent(x: int)
    ensures
        relu_spec(relu_spec(x)) == relu_spec(x),
{
}

/// `relu` returns its input on nonnegative inputs and zero on negative ones.
pub proof fn lemma_relu_cases(x: int)
    ensures
        x >= 0 ==> relu_spec(x) == x,
        x < 0 ==> relu_spec(x) == 0,
{
}

/// The range of `step` is exactly the two-element set {zero, one}: it
/// returns one exactly on the positive inputs and zero on all others.
pub proof fn lemma_step_range(x: int)
    ensures
        step_spec(x) == 0 || step_spec(x) == FX_SCALE as int,
        x > 0 <==> step_spec(x) == FX_SCALE as int,
        x <= 0 <==> step_spec(x) == 0,
{
}

} // verus!
