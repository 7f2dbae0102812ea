use vstd::prelude::*;
use crate::activation::Activation;
use crate::layer::Layer;
use crate::matrix::{Matrix, ShapeMismatch};

verus! {

/// One forward step: `y` is exactly what `l.forward` returns on `x` — one
/// row per output feature, the batch columns of `x`, and each entry the
/// linear transform followed by the activation.
pub open spec fn step_rel(l: Layer, act: Activation, x: Matrix, y: Matrix) -> bool {
    &&& y.wf()
    &&& y.nrows() == l.out_dim()
    &&& y.ncols() == x.ncols()
    &&& forall|i: int, b: int|
        0 <= i < y.nrows() && 0 <= b < y.ncols() ==> y.at(i, b) == l.forward_entry(x, act, i, b)
}

/// The layers chain on an input with `in_rows` feature rows: the first
/// layer accepts `in_rows` features, and each following layer accepts
/// exactly what the one before it produces.
pub open spec fn chain_ok(layers: Seq<Layer>, in_rows: int) -> bool
    decreases layers.len(),
{
    layers.len() == 0 || (layers[0].in_dim() == in_rows && chain_ok(
        layers.skip(1),
        layers[0].out_dim(),
    ))
}

/// The number of feature rows the chain produces: those of the last layer,
/// or of the input itself when there is no layer.
pub open spec fn chain_out_rows(layers: Seq<Layer>, in_rows: int) -> int {
    if layers.len() == 0 {
        in_rows
    } else {
        layers[layers.len() - 1].out_dim()
    }
}

/// `y` is the result of feeding `x` through all the layers in order: a
/// sequence of intermediate matrices joins them, one forward step each.
pub open spec fn chain_rel(layers: Seq<Layer>, act: Activation, x: Matrix, y: Matrix) -> bool {
    exists|ms: Seq<Matrix>|
        {
            &&& ms.len() == layers.len() + 1
            &&& ms[0] == x
            &&& ms[layers.len() as int] == y
            &&& forall|k: int|
                0 <= k < layers.len() ==> #[trigger] step_rel(layers[k], act, ms[k], ms[k + 1])
        }
}

/// Feeds the input through every layer in order, each layer's output
/// becoming the next layer's input, with the same activation at every
/// stage. Succeeds exactly when the dimensions chain; the result then has
/// the last layer's output rows, the input's batch columns, and is the
/// composition of the individual forward passes.
#[verifier::loop_isolation(false)]
pub fn run_pipeline(layers: &Vec<Layer>, inputs: Matrix, activation: Activation) -> (r: Result<
    Matrix,
    ShapeMismatch,
>)
    requires
        inputs.wf(),
        forall|k: int| 0 <= k < layers@.len() ==> (#[trigger] layers@[k]).wf(),
    ensures
        (r is Ok) <==> chain_ok(layers@, inputs.nrows()),
        r matches Ok(out) ==> out.wf() && out.nrows() == chain_out_rows(layers@, inputs.nrows())
            && out.ncols() == inputs.ncols() && chain_rel(layers@, activation, inputs, out),
{
    let ghost all = layers@;
    let mut cur = inputs;
    let ghost mut ms: Seq<Matrix> = seq![inputs];
    let mut k: usize = 0;
    proof {
        assert(all.skip(0) =~= all);
    }
    while k < layers.len()
        invariant
            k <= all.len(),
            cur.wf(),
            cur.ncols() == inputs.ncols(),
            cur.nrows() == chain_out_rows(all.take(k as int), inputs.nrows()),
            ms.len() == k + 1,
            ms[0] == inputs,
            ms[k as int] == cur,
            forall|t: int| 0 <= t < k ==> #[trigger] step_rel(all[t], activation, ms[t], ms[t + 1]),
            chain_ok(all, inputs.nrows()) <==> chain_ok(all.skip(k as int), cur.nrows()),
        decreases all.len() - k,
    {
        proof {
            assert(all.skip(k as int)[0] == all[k as int]);
        }
        match layers[k].forward(&cur, activation) {
            Ok(next) => {
                proof {
                    assert(all.skip(k as int).skip(1) =~= all.skip(k as int + 1));
                    assert(all.take(k as int + 1)[k as int] == all[k as int]);
                    ms = ms.push(next);
                }
                cur = next;
                k = k + 1;
            },
            Err(e) => {
                proof {
                    assert(!chain_ok(all.skip(k as int), cur.nrows()));
                }
                return Err(e);
            },
        }
    }
    proof {
        assert(all.take(all.len() as int) =~= all);
        assert(chain_ok(all.skip(all.len() as int), cur.nrows()));
        assert(chain_rel(all, activation, inputs, cur)) by {
            assert(ms.len() == all.len() + 1 && ms[0] == inputs && ms[all.len() as int] == cur
                && forall|t: int|
                0 <= t < all.len() ==> #[trigger] step_rel(all[t], activation, ms[t], ms[t + 1]));
        }
    }
    Ok(cur)
}

} // verus!
