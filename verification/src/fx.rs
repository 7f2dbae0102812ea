use vstd::prelude::*;

verus! {

/// Scalars are fixed-point numbers: the raw `i64` value `v` stands for the
/// real number `v / FX_SCALE`. `FX_SCALE` is therefore the representation
/// of one, and `0` the representation of zero.
pub const FX_SCALE: i64 = 10000;

/// The exact integer `x`, clamped to the `i64` range. All fixed-point
/// arithmetic in this library saturates at the representable bounds; this
/// is the documented overflow policy.
pub open spec fn clamp_i64(x: int) -> int {
    if x > i64::MAX {
        i64::MAX as int
    } else if x < i64::MIN {
        i64::MIN as int
    } else {
        x
    }
}

/// Saturating fixed-point addition: the exact sum, clamped.
pub open spec fn sat_add_spec(a: int, b: int) -> int {
    clamp_i64(a + b)
}

/// Division of a raw double-width product by `FX_SCALE`, truncated toward
/// zero (the rounding of Rust's integer division).
pub open spec fn scale_down(p: int) -> int {
    if p >= 0 {
        p / (FX_SCALE as int)
    } else {
        -((-p) / (FX_SCALE as int))
    }
}

/// Saturating fixed-point multiplication: the exact integer product,
/// rescaled with truncation toward zero, then clamped.
pub open spec fn fx_mul_spec(a: int, b: int) -> int {
    clamp_i64(scale_down(a * b))
}

/// The absolute value of a scalar, as the unsigned type so that
/// `i64::MIN` needs no special case.
fn abs64(a: i64) -> (r: u64)
    ensures
        r as int == if a < 0 { -(a as int) } else { a as int },
{
    if a >= 0 {
        a as u64
    } else {
        let w: i128 = a as i128;
        (-w) as u64
    }
}

pub fn sat_add(a: i64, b: i64) -> (r: i64)
    ensures
        r as int == sat_add_spec(a as int, b as int),
{
    match a.checked_add(b) {
        Some(s) => s,
        None => {
            if b > 0 {
                i64::MAX
            } else {
                i64::MIN
            }
        },
    }
}

proof fn lemma_abs_product(a: int, b: int, ma: int, mb: int)
    by (nonlinear_arith)
    requires
        ma == if a < 0 { -a } else { a },
        mb == if b < 0 { -b } else { b },
    ensures
        a * b == if (a < 0) != (b < 0) { -(ma * mb) } else { ma * mb },
        ma * mb >= 0,
{
}

proof fn lemma_abs_product_bound(ma: int, mb: int)
    by (nonlinear_arith)
    requires
        0 <= ma <= 0x8000_0000_0000_0000,
        0 <= mb <= 0x8000_0000_0000_0000,
    ensures
        ma * mb <= 0x4000_0000_0000_0000_0000_0000_0000_0000,
{
}

pub fn fx_mul(a: i64, b: i64) -> (r: i64)
    ensures
        r as int == fx_mul_spec(a as int, b as int),
{
    let neg: bool = (a < 0) != (b < 0);
    let ma: u128 = abs64(a) as u128;
    let mb: u128 = abs64(b) as u128;
    proof {
        lemma_abs_product(a as int, b as int, ma as int, mb as int);
        lemma_abs_product_bound(ma as int, mb as int);
    }
    let m: u128 = ma * mb;
    let q: u128 = m / (FX_SCALE as u128);
    if neg {
        if q >= 9223372036854775808u128 {
            i64::MIN
        } else {
            -(q as i64)
        }
    } else {
        if q > i64::MAX as u128 {
            i64::MAX
        } else {
            q as i64
        }
    }
}

} // verus!
