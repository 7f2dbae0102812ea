use vstd::prelude::*;
use rand::Rng;
use crate::activation::{act_spec, Activation};
use crate::fx::{fx_mul, fx_mul_spec, sat_add, sat_add_spec, FX_SCALE};
use crate::matrix::{lemma_row_major_index, Matrix, ShapeMismatch};

verus! {

/// The unit draw scaled to make one weight: two hundredths, in fixed point.
pub const INIT_SCALE: i64 = 200;

/// The shift applied to a scaled draw: one hundredth, in fixed point.
pub const INIT_SHIFT: i64 = 100;

/// Relies on rand::thread_rng and rand::Rng::gen_range: an independent
/// uniform draw from the half-open range [0, FX_SCALE), which is the
/// fixed-point unit interval. The range is never empty, so the call cannot
/// panic; nothing more than the bounds is assumed of a random result.
#[verifier::external_body]
fn rand_unit() -> (r: i64)
    ensures
        0 <= r < FX_SCALE,
{
    rand::thread_rng().gen_range(0..FX_SCALE)
}

/// One linear transform: a weight matrix and a bias vector, fixed at
/// construction and never mutated by `forward`.
#[derive(Debug)]
pub struct Layer {
    pub weights: Matrix,
    pub biases: Vec<i64>,
}

impl Layer {
    /// Well-formed: the weight matrix is well-formed and the bias vector
    /// has one entry per weight row.
    pub open spec fn wf(&self) -> bool {
        self.weights.wf() && self.biases@.len() == self.weights.nrows()
    }

    /// The output feature dimension: the number of weight rows.
    pub open spec fn out_dim(&self) -> int {
        self.weights.nrows()
    }

    /// The input feature dimension: the number of weight columns.
    pub open spec fn in_dim(&self) -> int {
        self.weights.ncols()
    }

    /// The weight applied to input feature `j` for output feature `i`.
    pub open spec fn weight_at(&self, i: int, j: int) -> int {
        self.weights.at(i, j)
    }

    /// The bias added to every batch entry of output feature `i`.
    pub open spec fn bias_at(&self, i: int) -> int {
        self.biases@[i] as int
    }

    /// The saturating dot product of the first `n` weights of row `i` with
    /// the first `n` feature rows of batch column `b`, accumulated left to
    /// right: each product is a saturating fixed-point multiplication and
    /// each partial sum a saturating addition.
    pub open spec fn dot(&self, inputs: Matrix, i: int, b: int, n: int) -> int
        decreases n,
    {
        if n <= 0 {
            0
        } else {
            sat_add_spec(
                self.dot(inputs, i, b, n - 1),
                fx_mul_spec(self.weight_at(i, n - 1), inputs.at(n - 1, b)),
            )
        }
    }

    /// One entry of the forward pass: the dot product of weight row `i`
    /// with input column `b`, plus the bias of row `i`, passed through the
    /// activation.
    pub open spec fn forward_entry(&self, inputs: Matrix, act: Activation, i: int, b: int) -> int {
        act_spec(act, sat_add_spec(self.dot(inputs, i, b, self.in_dim()), self.bias_at(i)))
    }

    /// Stores a weight matrix and a bias vector verbatim. Succeeds exactly
    /// when the bias vector has one entry per weight row.
    pub fn new(weights: Matrix, biases: Vec<i64>) -> (r: Result<Layer, ShapeMismatch>)
        requires
            weights.wf(),
        ensures
            (r is Ok) <==> biases@.len() == weights.nrows(),
            r matches Ok(l) ==> l.wf() && l.out_dim() == weights.nrows() && l.in_dim()
                == weights.ncols()
                && (forall|i: int, j: int|
                    0 <= i < l.out_dim() && 0 <= j < l.in_dim() ==> l.weight_at(i, j)
                        == weights.at(i, j))
                && (forall|i: int| 0 <= i < l.out_dim() ==> l.bias_at(i) == biases@[i]),
    {
        if biases.len() == weights.rows() {
            Ok(Layer { weights, biases })
        } else {
            Err(ShapeMismatch)
        }
    }

    /// Builds a layer with small random weights and zero biases. Each
    /// weight is an independent uniform unit draw scaled by two hundredths
    /// and shifted down by one hundredth, so it lies in the half-open
    /// interval [-0.01, 0.01) around zero; every bias is exactly zero.
    #[verifier::loop_isolation(false)]
    pub fn random_init(size_out: usize, size_in: usize) -> (l: Layer)
        requires
            size_out * size_in <= usize::MAX,
        ensures
            l.wf(),
            l.out_dim() == size_out,
            l.in_dim() == size_in,
            forall|i: int, j: int|
                0 <= i < size_out && 0 <= j < size_in ==> -(INIT_SHIFT as int)
                    <= #[trigger] l.weight_at(i, j) < INIT_SHIFT as int,
            forall|i: int| 0 <= i < size_out ==> l.bias_at(i) == 0,
    {
        let n = size_out * size_in;
        let mut data: Vec<i64> = Vec::new();
        let mut k: usize = 0;
        while k < n
            invariant
                k <= n,
                data@.len() == k,
                forall|t: int|
                    0 <= t < k ==> -(INIT_SHIFT as int) <= #[trigger] data@[t] < INIT_SHIFT as int,
            decreases n - k,
        {
            let u = rand_unit();
            proof {
                lemma_unit_draw_scaled(u as int);
            }
            let w = sat_add(fx_mul(u, INIT_SCALE), -INIT_SHIFT);
            data.push(w);
            k = k + 1;
        }
        let weights = Matrix::from_raw(size_out, size_in, data);
        proof {
            assert forall|i2: int, j2: int| 0 <= i2 < size_out && 0 <= j2 < size_in implies -(
            INIT_SHIFT as int) <= #[trigger] weights.at(i2, j2) < INIT_SHIFT as int by {
                lemma_row_major_index(i2, j2, size_out as int, size_in as int);
            };
        }
        let mut biases: Vec<i64> = Vec::new();
        let mut i: usize = 0;
        while i < size_out
            invariant
                i <= size_out,
                biases@.len() == i,
                forall|t: int| 0 <= t < i ==> biases@[t] == 0,
            decreases size_out - i,
        {
            biases.push(0);
            i = i + 1;
        }
        Layer { weights, biases }
    }

    /// The forward pass. Succeeds exactly when the input has one feature
    /// row per weight column; the result then has one row per output
    /// feature and the same number of batch columns as the input, and each
    /// entry is the linear transform of the matching input column followed
    /// by the activation. The layer itself is never changed.
    #[verifier::loop_isolation(false)]
    pub fn forward(&self, inputs: &Matrix, activation: Activation) -> (r: Result<
        Matrix,
        ShapeMismatch,
    >)
        requires
            self.wf(),
            inputs.wf(),
        ensures
            (r is Ok) <==> inputs.nrows() == self.in_dim(),
            r matches Ok(out) ==> out.wf() && out.nrows() == self.out_dim() && out.ncols()
                == inputs.ncols()
                && (forall|i: int, b: int|
                    0 <= i < self.out_dim() && 0 <= b < inputs.ncols() ==> out.at(i, b)
                        == self.forward_entry(*inputs, activation, i, b)),
    {
        if inputs.rows() != self.weights.cols() {
            return Err(ShapeMismatch);
        }
        let size_out = self.weights.rows();
        let size_in = self.weights.cols();
        let batches = inputs.cols();
        let mut data: Vec<i64> = Vec::new();
        let mut i: usize = 0;
        while i < size_out
            invariant
                i <= size_out,
                data@.len() == i * batches,
                forall|p: int, q: int|
                    0 <= p < i && 0 <= q < batches ==> data@[p * batches + q]
                        == self.forward_entry(*inputs, activation, p, q),
            decreases size_out - i,
        {
            let mut b: usize = 0;
            while b < batches
                invariant
                    i < size_out,
                    b <= batches,
                    data@.len() == i * batches + b,
                    forall|p: int, q: int|
                        0 <= p < i && 0 <= q < batches ==> data@[p * batches + q]
                            == self.forward_entry(*inputs, activation, p, q),
                    forall|q: int|
                        0 <= q < b ==> data@[i * batches + q] == self.forward_entry(
                            *inputs,
                            activation,
                            i as int,
                            q,
                        ),
                decreases batches - b,
            {
                let mut acc: i64 = 0;
                let mut j: usize = 0;
                while j < size_in
                    invariant
                        i < size_out,
                        b < batches,
                        j <= size_in,
                        acc as int == self.dot(*inputs, i as int, b as int, j as int),
                    decreases size_in - j,
                {
                    acc = sat_add(acc, fx_mul(self.weights.get(i, j), inputs.get(j, b)));
                    j = j + 1;
                }
                let v = activation.apply(sat_add(acc, self.biases[i]));
                proof {
                    lemma_row_major_index(i as int, b as int, size_out as int, batches as int);
                    assert forall|p: int, q: int| 0 <= p < i && 0 <= q < batches implies #[trigger] (
                    p * batches + q) < i * batches + b by {
                        lemma_row_major_index(p, q, i as int, batches as int);
                    };
                }
                data.push(v);
                b = b + 1;
            }
            proof {
                assert((i + 1) * batches == i * batches + batches) by (nonlinear_arith);
            }
            i = i + 1;
        }
        let out = Matrix::from_raw(size_out, batches, data);
        Ok(out)
    }
}

/// A unit draw scaled by two hundredths stays within [0, 200): neither the
/// rescaling division nor the following shift can saturate.
proof fn lemma_unit_draw_scaled(u: int)
    requires
        0 <= u < FX_SCALE,
    ensures
        sat_add_spec(fx_mul_spec(u, INIT_SCALE as int), -(INIT_SHIFT as int)) == (u * (
        INIT_SCALE as int
        )) / (FX_SCALE as int) - INIT_SHIFT,
        -(INIT_SHIFT as int) <= sat_add_spec(
            fx_mul_spec(u, INIT_SCALE as int),
            -(INIT_SHIFT as int),
        ) < INIT_SHIFT as int,
{
    assert(0 <= (u * 200) / 10000 < 200) by (nonlinear_arith)
        requires
            0 <= u < 10000,
    ;
}

} // verus!
