//! The RGB color value type with clamped channel arithmetic.
//!
//! A channel holds an 8-bit value. Blend factors and intensity factors are
//! raw fixed-point scalars (see [`crate::fixed`]) and are deliberately not
//! clamped to [0, 1]: an out-of-range factor extrapolates, and only the
//! channel result clamps at the representable 0..=255 range, so no factor
//! can make the arithmetic wrap or fail.

use vstd::prelude::*;
use crate::fixed::{spec_fx_add, spec_fx_mul, fx_add, fx_mul};

verus! {

/// An RGB color with 8-bit channels.
#[derive(Clone, Copy, PartialEq, Eq, Structural, Debug)]
pub struct Color {
    pub r: u8,
    pub g: u8,
    pub b: u8,
}

/// Clamp an integer into the 8-bit channel range.
pub open spec fn clamp255(v: int) -> int {
    if v > 255 {
        255
    } else if v < 0 {
        0
    } else {
        v
    }
}

/// One channel of a linear blend: c + (o - c) * t, truncated and clamped.
pub open spec fn spec_lerp_chan(c: int, o: int, t: int) -> int {
    clamp255(spec_fx_add(c, spec_fx_mul(o - c, t)))
}

/// Linear blend of a color toward another by a fixed-point factor.
pub open spec fn spec_lerp(c: Color, o: Color, t: int) -> Color {
    Color {
        r: spec_lerp_chan(c.r as int, o.r as int, t) as u8,
        g: spec_lerp_chan(c.g as int, o.g as int, t) as u8,
        b: spec_lerp_chan(c.b as int, o.b as int, t) as u8,
    }
}

/// One channel scaled by a fixed-point factor, truncated and clamped.
pub open spec fn spec_scale_chan(c: int, k: int) -> int {
    clamp255(spec_fx_mul(c, k))
}

/// Uniform intensity scaling of a color by a fixed-point factor.
pub open spec fn spec_scale(c: Color, k: int) -> Color {
    Color {
        r: spec_scale_chan(c.r as int, k) as u8,
        g: spec_scale_chan(c.g as int, k) as u8,
        b: spec_scale_chan(c.b as int, k) as u8,
    }
}

fn lerp_chan(c: u8, o: u8, t: i64) -> (res: u8)
    ensures
        res as int == spec_lerp_chan(c as int, o as int, t as int),
{
    let d: i64 = o as i64 - c as i64;
    let v = fx_add(c as i64, fx_mul(d, t));
    if v > 255 {
        255
    } else if v < 0 {
        0
    } else {
        v as u8
    }
}

fn scale_chan(c: u8, k: i64) -> (res: u8)
    ensures
        res as int == spec_scale_chan(c as int, k as int),
{
    let v = fx_mul(c as i64, k);
    if v > 255 {
        255
    } else if v < 0 {
        0
    } else {
        v as u8
    }
}

impl Color {
    /// Build a color from its three channels.
    pub fn new(r: u8, g: u8, b: u8) -> (c: Color)
        ensures
            c == (Color { r, g, b }),
    {
        Color { r, g, b }
    }

    /// Linear blend toward `other` by the fixed-point factor `t`. The
    /// factor is not clamped; each channel clamps at 0..=255.
    pub fn lerp(&self, other: &Color, t: i64) -> (res: Color)
        ensures
            res == spec_lerp(*self, *other, t as int),
    {
        Color {
            r: lerp_chan(self.r, other.r, t),
            g: lerp_chan(self.g, other.g, t),
            b: lerp_chan(self.b, other.b, t),
        }
    }

    /// Scale every channel by the fixed-point factor `k`, clamping at the
    /// channel range instead of wrapping.
    pub fn scale(&self, k: i64) -> (res: Color)
        ensures
            res == spec_scale(*self, k as int),
    {
        Color { r: scale_chan(self.r, k), g: scale_chan(self.g, k), b: scale_chan(self.b, k) }
    }
}

} // verus!
