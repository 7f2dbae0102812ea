//! A minimal feed-forward neural-network layer library.
//!
//! Scalars are fixed-point numbers (see [`fx`]): an `i64` raw value stands
//! for `raw / FX_SCALE`. A [`layer::Layer`] owns a weight matrix and a bias
//! vector, and `forward` applies the linear transform followed by a
//! pluggable elementwise activation. Shapes are checked dynamically; a
//! mismatch is reported as [`matrix::ShapeMismatch`] before any computation
//! runs.

pub mod activation;
pub mod fx;
pub mod layer;
pub mod matrix;
pub mod pipeline;
