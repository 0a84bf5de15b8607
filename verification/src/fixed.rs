//! Saturating fixed-point scalar arithmetic.
//!
//! Every scalar of the shading pipeline is an `i64` counting thousandths:
//! the raw value [`FX_ONE`] (1000) stands for 1.0, and a noise sample in
//! [-1, 1] is a raw value in [-1000, 1000]. All operations are total:
//! instead of overflowing they saturate at the `i64` range, and a division
//! by zero yields zero. Each executable operation is pinned to a spec
//! function that states its result exactly.

use vstd::prelude::*;

verus! {

/// Raw fixed-point value of 1.0.
pub const FX_ONE: i64 = 1000;

/// Clamp an unbounded integer into the `i64` range.
pub open spec fn sat64(x: int) -> int {
    if x > i64::MAX {
        i64::MAX as int
    } else if x < i64::MIN {
        i64::MIN as int
    } else {
        x
    }
}

/// Absolute value of an unbounded integer.
pub open spec fn iabs(x: int) -> int {
    if x < 0 {
        -x
    } else {
        x
    }
}

/// Division by a positive divisor, truncated toward zero, as the machine
/// division of signed integers truncates.
pub open spec fn trunc_div(p: int, q: int) -> int {
    if p >= 0 {
        p / q
    } else {
        -((-p) / q)
    }
}

/// Fixed-point product: (a * b) / 1000, truncated toward zero, saturated.
pub open spec fn spec_fx_mul(a: int, b: int) -> int {
    sat64(trunc_div(a * b, 1000))
}

/// Saturating sum.
pub open spec fn spec_fx_add(a: int, b: int) -> int {
    sat64(a + b)
}

/// Saturating difference.
pub open spec fn spec_fx_sub(a: int, b: int) -> int {
    sat64(a - b)
}

/// Saturating absolute value (`i64::MIN` saturates to `i64::MAX`).
pub open spec fn spec_fx_abs(a: int) -> int {
    sat64(iabs(a))
}

/// Fixed-point quotient: (a * 1000) / b, truncated toward zero, saturated;
/// zero when the divisor is zero.
pub open spec fn spec_fx_div(a: int, b: int) -> int {
    if b == 0 {
        0
    } else {
        let m = (iabs(a) * 1000) / iabs(b);
        if (a < 0) == (b < 0) {
            sat64(m)
        } else {
            sat64(-m)
        }
    }
}

/// Magnitude of a scalar as an unsigned value; total, unlike `i64::abs`.
pub fn fx_abs_u(a: i64) -> (r: u64)
    ensures
        r as int == iabs(a as int),
{
    if a >= 0 {
        a as u64
    } else {
        (-(a as i128)) as u64
    }
}

/// Saturating addition of two fixed-point scalars.
pub fn fx_add(a: i64, b: i64) -> (r: i64)
    ensures
        r as int == spec_fx_add(a as int, b as int),
{
    let s: i128 = a as i128 + b as i128;
    if s > i64::MAX as i128 {
        i64::MAX
    } else if s < i64::MIN as i128 {
        i64::MIN
    } else {
        s as i64
    }
}

/// Saturating subtraction of two fixed-point scalars.
pub fn fx_sub(a: i64, b: i64) -> (r: i64)
    ensures
        r as int == spec_fx_sub(a as int, b as int),
{
    let s: i128 = a as i128 - b as i128;
    if s > i64::MAX as i128 {
        i64::MAX
    } else if s < i64::MIN as i128 {
        i64::MIN
    } else {
        s as i64
    }
}

/// Magnitudes multiply to the magnitude of the product.
proof fn lemma_abs_mul(a: int, b: int)
    ensures
        iabs(a) * iabs(b) == iabs(a * b),
        ((a < 0) != (b < 0) && a * b != 0) ==> a * b < 0,
        ((a < 0) == (b < 0)) ==> a * b >= 0,
{
    if a >= 0 && b >= 0 {
        assert(a * b >= 0) by (nonlinear_arith)
            requires
                a >= 0,
                b >= 0,
        ;
    } else if a >= 0 && b < 0 {
        assert(a * b <= 0 && a * (-b) == -(a * b)) by (nonlinear_arith)
            requires
                a >= 0,
                b < 0,
        ;
    } else if a < 0 && b >= 0 {
        assert(a * b <= 0 && (-a) * b == -(a * b)) by (nonlinear_arith)
            requires
                a < 0,
                b >= 0,
        ;
    } else {
        assert(a * b > 0 && (-a) * (-b) == a * b) by (nonlinear_arith)
            requires
                a < 0,
                b < 0,
        ;
    }
}

/// Saturate a magnitude and a sign into an `i64`.
fn sat_signed(m: u128, neg: bool) -> (r: i64)
    ensures
        r as int == sat64(if neg { -(m as int) } else { m as int }),
{
    if neg {
        if m >= 9223372036854775808u128 {
            i64::MIN
        } else {
            -(m as i64)
        }
    } else {
        if m > i64::MAX as u128 {
            i64::MAX
        } else {
            m as i64
        }
    }
}

/// Saturating fixed-point multiplication.
pub fn fx_mul(a: i64, b: i64) -> (r: i64)
    ensures
        r as int == spec_fx_mul(a as int, b as int),
{
    let am = fx_abs_u(a);
    let bm = fx_abs_u(b);
    proof {
        assert((am as int) * (bm as int) <= u128::MAX) by (nonlinear_arith)
            requires
                0 <= am <= u64::MAX,
                0 <= bm <= u64::MAX,
        ;
    }
    let p: u128 = (am as u128) * (bm as u128);
    let q: u128 = p / 1000;
    let neg = (a < 0) != (b < 0);
    proof {
        lemma_abs_mul(a as int, b as int);
        assert(p == iabs((a as int) * (b as int)));
        assert(q == iabs((a as int) * (b as int)) / 1000);
        if neg {
            assert(trunc_div((a as int) * (b as int), 1000) == -(q as int));
        } else {
            assert(trunc_div((a as int) * (b as int), 1000) == q as int);
        }
    }
    sat_signed(q, neg)
}

/// Saturating fixed-point division; zero when the divisor is zero.
pub fn fx_div(a: i64, b: i64) -> (r: i64)
    ensures
        r as int == spec_fx_div(a as int, b as int),
{
    if b == 0 {
        return 0;
    }
    let am = fx_abs_u(a);
    let bm = fx_abs_u(b);
    let num: u128 = (am as u128) * 1000;
    let q: u128 = num / (bm as u128);
    let neg = (a < 0) != (b < 0);
    sat_signed(q, neg)
}

/// Saturating absolute value.
pub fn fx_abs(a: i64) -> (r: i64)
    ensures
        r as int == spec_fx_abs(a as int),
{
    let m = fx_abs_u(a);
    if m > i64::MAX as u64 {
        i64::MAX
    } else {
        m as i64
    }
}

/// Saturating plain integer product (no rescaling): sat64(a * b).
pub open spec fn spec_sat_mul(a: int, b: int) -> int {
    sat64(a * b)
}

/// Saturating plain integer multiplication, used to scale the frame time
/// counter into fixed-point units.
pub fn sat_mul(a: i64, b: i64) -> (r: i64)
    ensures
        r as int == spec_sat_mul(a as int, b as int),
{
    let am = fx_abs_u(a);
    let bm = fx_abs_u(b);
    proof {
        assert((am as int) * (bm as int) <= u128::MAX) by (nonlinear_arith)
            requires
                0 <= am <= u64::MAX,
                0 <= bm <= u64::MAX,
        ;
    }
    let p: u128 = (am as u128) * (bm as u128);
    let neg = (a < 0) != (b < 0);
    proof {
        lemma_abs_mul(a as int, b as int);
    }
    sat_signed(p, neg)
}

/// Clamp a scalar into the unit range [-1.0, 1.0].
pub open spec fn spec_clamp_unit(v: int) -> int {
    if v > 1000 {
        1000
    } else if v < -1000 {
        -1000
    } else {
        v
    }
}

/// Clamp a scalar into the unit range [-1.0, 1.0].
pub fn clamp_unit(v: i64) -> (r: i64)
    ensures
        r as int == spec_clamp_unit(v as int),
{
    if v > 1000 {
        1000
    } else if v < -1000 {
        -1000
    } else {
        v
    }
}

} // verus!
