//! Fixed-point periodic and radial functions for the procedural patterns.
//!
//! The pipeline needs a sine, a cosine, an arcsine, a two-argument
//! arctangent and a vector magnitude. They are defined here directly over
//! fixed-point scalars (see [`crate::fixed`]): the sine is the classical
//! rational approximation 16t(pi - t) / (5 pi^2 - 4t(pi - t)) on a half
//! period, extended by point symmetry, with the half period represented by
//! the raw value [`FX_PI`]. All functions are total and exactly pinned to
//! their spec mirrors.

use vstd::prelude::*;
use crate::fixed::{
    iabs, sat64, spec_fx_add, spec_fx_sub, spec_fx_mul, spec_fx_div, spec_fx_abs,
    spec_clamp_unit, fx_abs_u, fx_add, fx_sub, fx_mul, fx_div, fx_abs, clamp_unit,
};

verus! {

/// Raw fixed-point half period of the sine (pi, rounded to an even raw value).
pub const FX_PI: i64 = 3142;

/// Raw fixed-point quarter period (pi / 2).
pub const FX_HALF_PI: i64 = 1571;

/// Raw fixed-point full period (2 pi).
pub const FX_TAU: i64 = 6284;

/// Reduce an angle into one period [0, 2 pi), mirroring negative angles.
pub open spec fn sin_reduce(x: int) -> int {
    let m = iabs(x) % 6284;
    if x >= 0 {
        m
    } else if m == 0 {
        0
    } else {
        6284 - m
    }
}

/// The rational sine approximation on the half period t in [0, pi]:
/// 16 t (pi - t) / (5 pi^2 - 4 t (pi - t)), in raw fixed-point units.
pub open spec fn sin_half(t: int) -> int {
    let y = t * (3142 - t);
    (16000 * y) / (49360820 - 4 * y)
}

/// Fixed-point sine of an angle in raw radians; result in [-1000, 1000].
pub open spec fn spec_fx_sin(x: int) -> int {
    let t = sin_reduce(x);
    if t < 3142 {
        sin_half(t)
    } else {
        -sin_half(t - 3142)
    }
}

/// Fixed-point cosine: the sine shifted a quarter period forward.
pub open spec fn spec_fx_cos(x: int) -> int {
    spec_fx_sin(spec_fx_add(x, 1571))
}

fn sin_half_exec(t: u64) -> (r: i64)
    requires
        t <= 3142,
    ensures
        r as int == sin_half(t as int),
        0 <= r <= 1000,
{
    proof {
        assert(t * (3142 - t) <= 1571 * 1571) by (nonlinear_arith)
            requires
                0 <= t <= 3142,
        ;
    }
    let y: u64 = t * (3142 - t);
    let num: u64 = 16000 * y;
    let den: u64 = 49360820 - 4 * y;
    proof {
        assert(num / den <= 1000) by (nonlinear_arith)
            requires
                den > 0,
                num <= 1000 * den,
        ;
    }
    (num / den) as i64
}

/// Fixed-point sine of an angle in raw radians.
pub fn fx_sin(x: i64) -> (r: i64)
    ensures
        r as int == spec_fx_sin(x as int),
        -1000 <= r <= 1000,
{
    let m0 = fx_abs_u(x);
    let rem: u64 = m0 % 6284;
    let t: u64 = if x >= 0 {
        rem
    } else if rem == 0 {
        0
    } else {
        6284 - rem
    };
    if t < 3142 {
        sin_half_exec(t)
    } else {
        let s = sin_half_exec(t - 3142);
        -s
    }
}

/// Fixed-point cosine of an angle in raw radians.
pub fn fx_cos(x: i64) -> (r: i64)
    ensures
        r as int == spec_fx_cos(x as int),
        -1000 <= r <= 1000,
{
    fx_sin(fx_add(x, 1571))
}

/// Fixed-point arcsine: the odd cubic y + 0.571 y^3 on the clamped unit
/// range, exact at -1, 0 and 1 (giving -pi/2, 0 and pi/2).
pub open spec fn spec_fx_asin(v: int) -> int {
    let y = spec_clamp_unit(v);
    spec_fx_add(spec_fx_mul(spec_fx_mul(spec_fx_mul(y, y), y), 571), y)
}

/// Fixed-point arcsine of a unit-range scalar.
pub fn fx_asin(v: i64) -> (r: i64)
    ensures
        r as int == spec_fx_asin(v as int),
{
    let y = clamp_unit(v);
    fx_add(fx_mul(fx_mul(fx_mul(y, y), y), 571), y)
}

/// Arctangent on the unit range: (pi/4) z + 0.273 z (1 - |z|), exact at
/// -1, 0 and 1.
pub open spec fn spec_atan_unit(z: int) -> int {
    spec_fx_add(
        spec_fx_mul(z, 785),
        spec_fx_mul(spec_fx_mul(z, 273), spec_fx_sub(1000, spec_fx_abs(z))),
    )
}

fn atan_unit(z: i64) -> (r: i64)
    ensures
        r as int == spec_atan_unit(z as int),
{
    fx_add(fx_mul(z, 785), fx_mul(fx_mul(z, 273), fx_sub(1000, fx_abs(z))))
}

/// Fixed-point two-argument arctangent: the angle of the point (o, s),
/// by octant reduction onto [`spec_atan_unit`]; zero at the origin.
pub open spec fn spec_fx_atan2(s: int, o: int) -> int {
    if s == 0 && o == 0 {
        0
    } else if iabs(s) <= iabs(o) {
        let base = spec_atan_unit(spec_fx_div(s, o));
        if o >= 0 {
            base
        } else if s >= 0 {
            spec_fx_add(base, 3142)
        } else {
            spec_fx_sub(base, 3142)
        }
    } else {
        let base = spec_atan_unit(spec_fx_div(o, s));
        if s > 0 {
            spec_fx_sub(1571, base)
        } else {
            spec_fx_sub(-1571, base)
        }
    }
}

/// Fixed-point two-argument arctangent of s over o.
pub fn fx_atan2(s: i64, o: i64) -> (r: i64)
    ensures
        r as int == spec_fx_atan2(s as int, o as int),
{
    if s == 0 && o == 0 {
        return 0;
    }
    let sm = fx_abs_u(s);
    let om = fx_abs_u(o);
    if sm <= om {
        let base = atan_unit(fx_div(s, o));
        if o >= 0 {
            base
        } else if s >= 0 {
            fx_add(base, 3142)
        } else {
            fx_sub(base, 3142)
        }
    } else {
        let base = atan_unit(fx_div(o, s));
        if s > 0 {
            fx_sub(1571, base)
        } else {
            fx_sub(-1571, base)
        }
    }
}

/// The integer square root: the unique r >= 0 with r^2 <= n < (r+1)^2.
pub open spec fn sqrt_floor(n: int) -> int {
    choose|r: int| 0 <= r && #[trigger] (r * r) <= n && n < (r + 1) * (r + 1)
}

proof fn lemma_sqrt_unique(n: int, r1: int, r2: int)
    requires
        0 <= r1 && r1 * r1 <= n && n < (r1 + 1) * (r1 + 1),
        0 <= r2 && r2 * r2 <= n && n < (r2 + 1) * (r2 + 1),
    ensures
        r1 == r2,
{
    assert(r1 == r2) by (nonlinear_arith)
        requires
            0 <= r1 && r1 * r1 <= n && n < (r1 + 1) * (r1 + 1),
            0 <= r2 && r2 * r2 <= n && n < (r2 + 1) * (r2 + 1),
    ;
}

fn isqrt(n: u128) -> (r: u128)
    ensures
        0 <= r * r <= n < (r + 1) * (r + 1),
{
    let mut lo: u128 = 0;
    let mut hi: u128 = 18446744073709551616u128;
    proof {
        assert((18446744073709551616u128 as int) * (18446744073709551616u128 as int) > u128::MAX)
            by (nonlinear_arith);
    }
    while hi - lo > 1
        invariant
            lo < hi,
            hi <= 18446744073709551616u128,
            (lo as int) * (lo as int) <= n,
            (n as int) < (hi as int) * (hi as int),
        decreases hi - lo,
    {
        let mid: u128 = lo + (hi - lo) / 2;
        proof {
            assert((mid as int) * (mid as int) <= u128::MAX) by (nonlinear_arith)
                requires
                    0 <= mid < 18446744073709551616u128,
            ;
        }
        if mid * mid <= n {
            lo = mid;
        } else {
            hi = mid;
        }
    }
    lo
}

/// Magnitude of a fixed-point 3-vector: the integer square root of the sum
/// of the squared raw components (the square root of a fixed-point square
/// is again in raw fixed-point units), saturated.
pub open spec fn spec_fx_mag(x: int, y: int, z: int) -> int {
    sat64(sqrt_floor(x * x + y * y + z * z))
}

/// Magnitude of a fixed-point 3-vector.
pub fn fx_mag(x: i64, y: i64, z: i64) -> (r: i64)
    ensures
        r as int == spec_fx_mag(x as int, y as int, z as int),
{
    proof {
        assert((x as int) * (x as int) <= 85070591730234615865843651857942052864int && 0 <= (x as int) * (x as int))
            by (nonlinear_arith)
            requires
                i64::MIN <= x <= i64::MAX,
        ;
        assert((y as int) * (y as int) <= 85070591730234615865843651857942052864int && 0 <= (y as int) * (y as int))
            by (nonlinear_arith)
            requires
                i64::MIN <= y <= i64::MAX,
        ;
        assert((z as int) * (z as int) <= 85070591730234615865843651857942052864int && 0 <= (z as int) * (z as int))
            by (nonlinear_arith)
            requires
                i64::MIN <= z <= i64::MAX,
        ;
        assert(85070591730234615865843651857942052864int + 85070591730234615865843651857942052864int
            + 85070591730234615865843651857942052864int <= u128::MAX as int);
    }
    let xx: u128 = ((x as i128) * (x as i128)) as u128;
    let yy: u128 = ((y as i128) * (y as i128)) as u128;
    let zz: u128 = ((z as i128) * (z as i128)) as u128;
    let s: u128 = xx + yy + zz;
    let root = isqrt(s);
    proof {
        lemma_sqrt_unique(
            s as int,
            root as int,
            sqrt_floor((x as int) * (x as int) + (y as int) * (y as int) + (z as int) * (z as int)),
        );
    }
    if root > i64::MAX as u128 {
        i64::MAX
    } else {
        root as i64
    }
}

} // verus!
