//! Fixed-point vectors and matrices for the vertex transform.
//!
//! Vectors carry raw fixed-point components. Matrices are row-major, named
//! `mRC` for row R, column C. All products use the saturating fixed-point
//! operations of [`crate::fixed`], so every operation here is total.

use vstd::prelude::*;
use crate::fixed::{
    spec_fx_add, spec_fx_sub, spec_fx_mul, spec_fx_div, fx_add, fx_sub, fx_mul, fx_div,
};

verus! {

/// A fixed-point 2-vector (texture coordinates).
#[derive(Clone, Copy, PartialEq, Eq, Structural, Debug)]
pub struct Vec2 {
    pub x: i64,
    pub y: i64,
}

/// A fixed-point 3-vector.
#[derive(Clone, Copy, PartialEq, Eq, Structural, Debug)]
pub struct Vec3 {
    pub x: i64,
    pub y: i64,
    pub z: i64,
}

/// A fixed-point 4-vector (homogeneous coordinates).
#[derive(Clone, Copy, PartialEq, Eq, Structural, Debug)]
pub struct Vec4 {
    pub x: i64,
    pub y: i64,
    pub z: i64,
    pub w: i64,
}

/// A row-major fixed-point 3x3 matrix.
#[derive(Clone, Copy, PartialEq, Eq, Structural, Debug)]
pub struct Mat3 {
    pub m00: i64,
    pub m01: i64,
    pub m02: i64,
    pub m10: i64,
    pub m11: i64,
    pub m12: i64,
    pub m20: i64,
    pub m21: i64,
    pub m22: i64,
}

/// A row-major fixed-point 4x4 matrix.
#[derive(Clone, Copy, PartialEq, Eq, Structural, Debug)]
pub struct Mat4 {
    pub m00: i64,
    pub m01: i64,
    pub m02: i64,
    pub m03: i64,
    pub m10: i64,
    pub m11: i64,
    pub m12: i64,
    pub m13: i64,
    pub m20: i64,
    pub m21: i64,
    pub m22: i64,
    pub m23: i64,
    pub m30: i64,
    pub m31: i64,
    pub m32: i64,
    pub m33: i64,
}

/// Four-term fixed-point dot product, summed left to right.
pub open spec fn spec_dot4(ax: i64, ay: i64, az: i64, aw: i64, bx: i64, by: i64, bz: i64, bw: i64) -> int {
    spec_fx_add(
        spec_fx_add(
            spec_fx_add(spec_fx_mul(ax as int, bx as int), spec_fx_mul(ay as int, by as int)),
            spec_fx_mul(az as int, bz as int),
        ),
        spec_fx_mul(aw as int, bw as int),
    )
}

fn dot4(ax: i64, ay: i64, az: i64, aw: i64, bx: i64, by: i64, bz: i64, bw: i64) -> (r: i64)
    ensures
        r as int == spec_dot4(ax, ay, az, aw, bx, by, bz, bw),
{
    fx_add(fx_add(fx_add(fx_mul(ax, bx), fx_mul(ay, by)), fx_mul(az, bz)), fx_mul(aw, bw))
}

/// Three-term fixed-point dot product, summed left to right.
pub open spec fn spec_dot3(ax: i64, ay: i64, az: i64, bx: i64, by: i64, bz: i64) -> int {
    spec_fx_add(
        spec_fx_add(spec_fx_mul(ax as int, bx as int), spec_fx_mul(ay as int, by as int)),
        spec_fx_mul(az as int, bz as int),
    )
}

fn dot3(ax: i64, ay: i64, az: i64, bx: i64, by: i64, bz: i64) -> (r: i64)
    ensures
        r as int == spec_dot3(ax, ay, az, bx, by, bz),
{
    fx_add(fx_add(fx_mul(ax, bx), fx_mul(ay, by)), fx_mul(az, bz))
}

/// The 4x4 identity, with 1.0 on the diagonal.
pub open spec fn spec_mat4_identity() -> Mat4 {
    Mat4 {
        m00: 1000, m01: 0, m02: 0, m03: 0,
        m10: 0, m11: 1000, m12: 0, m13: 0,
        m20: 0, m21: 0, m22: 1000, m23: 0,
        m30: 0, m31: 0, m32: 0, m33: 1000,
    }
}

/// The 3x3 identity, with 1.0 on the diagonal.
pub open spec fn spec_mat3_identity() -> Mat3 {
    Mat3 { m00: 1000, m01: 0, m02: 0, m10: 0, m11: 1000, m12: 0, m20: 0, m21: 0, m22: 1000 }
}

/// Product of a 4x4 matrix and a 4-vector.
pub open spec fn spec_mat4_mul_vec4(m: Mat4, v: Vec4) -> Vec4 {
    Vec4 {
        x: (spec_dot4(m.m00, m.m01, m.m02, m.m03, v.x, v.y, v.z, v.w)) as i64,
        y: (spec_dot4(m.m10, m.m11, m.m12, m.m13, v.x, v.y, v.z, v.w)) as i64,
        z: (spec_dot4(m.m20, m.m21, m.m22, m.m23, v.x, v.y, v.z, v.w)) as i64,
        w: (spec_dot4(m.m30, m.m31, m.m32, m.m33, v.x, v.y, v.z, v.w)) as i64,
    }
}

/// Product of two 4x4 matrices.
pub open spec fn spec_mat4_mul(a: Mat4, b: Mat4) -> Mat4 {
    Mat4 {
        m00: (spec_dot4(a.m00, a.m01, a.m02, a.m03, b.m00, b.m10, b.m20, b.m30)) as i64,
        m01: (spec_dot4(a.m00, a.m01, a.m02, a.m03, b.m01, b.m11, b.m21, b.m31)) as i64,
        m02: (spec_dot4(a.m00, a.m01, a.m02, a.m03, b.m02, b.m12, b.m22, b.m32)) as i64,
        m03: (spec_dot4(a.m00, a.m01, a.m02, a.m03, b.m03, b.m13, b.m23, b.m33)) as i64,
        m10: (spec_dot4(a.m10, a.m11, a.m12, a.m13, b.m00, b.m10, b.m20, b.m30)) as i64,
        m11: (spec_dot4(a.m10, a.m11, a.m12, a.m13, b.m01, b.m11, b.m21, b.m31)) as i64,
        m12: (spec_dot4(a.m10, a.m11, a.m12, a.m13, b.m02, b.m12, b.m22, b.m32)) as i64,
        m13: (spec_dot4(a.m10, a.m11, a.m12, a.m13, b.m03, b.m13, b.m23, b.m33)) as i64,
        m20: (spec_dot4(a.m20, a.m21, a.m22, a.m23, b.m00, b.m10, b.m20, b.m30)) as i64,
        m21: (spec_dot4(a.m20, a.m21, a.m22, a.m23, b.m01, b.m11, b.m21, b.m31)) as i64,
        m22: (spec_dot4(a.m20, a.m21, a.m22, a.m23, b.m02, b.m12, b.m22, b.m32)) as i64,
        m23: (spec_dot4(a.m20, a.m21, a.m22, a.m23, b.m03, b.m13, b.m23, b.m33)) as i64,
        m30: (spec_dot4(a.m30, a.m31, a.m32, a.m33, b.m00, b.m10, b.m20, b.m30)) as i64,
        m31: (spec_dot4(a.m30, a.m31, a.m32, a.m33, b.m01, b.m11, b.m21, b.m31)) as i64,
        m32: (spec_dot4(a.m30, a.m31, a.m32, a.m33, b.m02, b.m12, b.m22, b.m32)) as i64,
        m33: (spec_dot4(a.m30, a.m31, a.m32, a.m33, b.m03, b.m13, b.m23, b.m33)) as i64,
    }
}

/// The upper-left 3x3 block of a 4x4 matrix.
pub open spec fn spec_mat3_from_mat4(m: Mat4) -> Mat3 {
    Mat3 {
        m00: m.m00, m01: m.m01, m02: m.m02,
        m10: m.m10, m11: m.m11, m12: m.m12,
        m20: m.m20, m21: m.m21, m22: m.m22,
    }
}

/// Transpose of a 3x3 matrix.
pub open spec fn spec_mat3_transpose(m: Mat3) -> Mat3 {
    Mat3 {
        m00: m.m00, m01: m.m10, m02: m.m20,
        m10: m.m01, m11: m.m11, m12: m.m21,
        m20: m.m02, m21: m.m12, m22: m.m22,
    }
}

/// Determinant of a 3x3 matrix by cofactor expansion along the first row.
pub open spec fn spec_cof(a: i64, b: i64, c: i64, d: i64) -> int {
    spec_fx_sub(spec_fx_mul(a as int, b as int), spec_fx_mul(c as int, d as int))
}

pub open spec fn spec_mat3_det(m: Mat3) -> int {
    spec_fx_add(
        spec_fx_sub(
            spec_fx_mul(m.m00 as int, spec_cof(m.m11, m.m22, m.m12, m.m21)),
            spec_fx_mul(m.m01 as int, spec_cof(m.m10, m.m22, m.m12, m.m20)),
        ),
        spec_fx_mul(m.m02 as int, spec_cof(m.m10, m.m21, m.m11, m.m20)),
    )
}

/// Inverse of a 3x3 matrix by the adjugate over the determinant, or the
/// identity when the determinant is zero (the singular fallback).
pub open spec fn spec_mat3_inverse_or_identity(m: Mat3) -> Mat3 {
    let det = spec_mat3_det(m);
    if det == 0 {
        spec_mat3_identity()
    } else {
        Mat3 {
            m00: (spec_fx_div(spec_cof(m.m11, m.m22, m.m12, m.m21), det)) as i64,
            m01: (spec_fx_div(spec_cof(m.m02, m.m21, m.m01, m.m22), det)) as i64,
            m02: (spec_fx_div(spec_cof(m.m01, m.m12, m.m02, m.m11), det)) as i64,
            m10: (spec_fx_div(spec_cof(m.m12, m.m20, m.m10, m.m22), det)) as i64,
            m11: (spec_fx_div(spec_cof(m.m00, m.m22, m.m02, m.m20), det)) as i64,
            m12: (spec_fx_div(spec_cof(m.m02, m.m10, m.m00, m.m12), det)) as i64,
            m20: (spec_fx_div(spec_cof(m.m10, m.m21, m.m11, m.m20), det)) as i64,
            m21: (spec_fx_div(spec_cof(m.m01, m.m20, m.m00, m.m21), det)) as i64,
            m22: (spec_fx_div(spec_cof(m.m00, m.m11, m.m01, m.m10), det)) as i64,
        }
    }
}

/// Product of a 3x3 matrix and a 3-vector.
pub open spec fn spec_mat3_mul_vec3(m: Mat3, v: Vec3) -> Vec3 {
    Vec3 {
        x: (spec_dot3(m.m00, m.m01, m.m02, v.x, v.y, v.z)) as i64,
        y: (spec_dot3(m.m10, m.m11, m.m12, v.x, v.y, v.z)) as i64,
        z: (spec_dot3(m.m20, m.m21, m.m22, v.x, v.y, v.z)) as i64,
    }
}

impl Vec2 {
    /// Build a 2-vector from raw fixed-point components.
    pub fn new(x: i64, y: i64) -> (v: Vec2)
        ensures
            v == (Vec2 { x, y }),
    {
        Vec2 { x, y }
    }
}

impl Vec3 {
    /// Build a 3-vector from raw fixed-point components.
    pub fn new(x: i64, y: i64, z: i64) -> (v: Vec3)
        ensures
            v == (Vec3 { x, y, z }),
    {
        Vec3 { x, y, z }
    }
}

impl Vec4 {
    /// Build a 4-vector from raw fixed-point components.
    pub fn new(x: i64, y: i64, z: i64, w: i64) -> (v: Vec4)
        ensures
            v == (Vec4 { x, y, z, w }),
    {
        Vec4 { x, y, z, w }
    }
}

impl Mat4 {
    /// The identity matrix.
    pub fn identity() -> (m: Mat4)
        ensures
            m == spec_mat4_identity(),
    {
        Mat4 {
            m00: 1000, m01: 0, m02: 0, m03: 0,
            m10: 0, m11: 1000, m12: 0, m13: 0,
            m20: 0, m21: 0, m22: 1000, m23: 0,
            m30: 0, m31: 0, m32: 0, m33: 1000,
        }
    }

    /// Apply the matrix to a homogeneous 4-vector.
    pub fn mul_vec4(&self, v: &Vec4) -> (r: Vec4)
        ensures
            r == spec_mat4_mul_vec4(*self, *v),
    {
        Vec4 {
            x: dot4(self.m00, self.m01, self.m02, self.m03, v.x, v.y, v.z, v.w),
            y: dot4(self.m10, self.m11, self.m12, self.m13, v.x, v.y, v.z, v.w),
            z: dot4(self.m20, self.m21, self.m22, self.m23, v.x, v.y, v.z, v.w),
            w: dot4(self.m30, self.m31, self.m32, self.m33, v.x, v.y, v.z, v.w),
        }
    }

    /// Multiply by another matrix on the right.
    pub fn mul_mat4(&self, b: &Mat4) -> (r: Mat4)
        ensures
            r == spec_mat4_mul(*self, *b),
    {
        Mat4 {
            m00: dot4(self.m00, self.m01, self.m02, self.m03, b.m00, b.m10, b.m20, b.m30),
            m01: dot4(self.m00, self.m01, self.m02, self.m03, b.m01, b.m11, b.m21, b.m31),
            m02: dot4(self.m00, self.m01, self.m02, self.m03, b.m02, b.m12, b.m22, b.m32),
            m03: dot4(self.m00, self.m01, self.m02, self.m03, b.m03, b.m13, b.m23, b.m33),
            m10: dot4(self.m10, self.m11, self.m12, self.m13, b.m00, b.m10, b.m20, b.m30),
            m11: dot4(self.m10, self.m11, self.m12, self.m13, b.m01, b.m11, b.m21, b.m31),
            m12: dot4(self.m10, self.m11, self.m12, self.m13, b.m02, b.m12, b.m22, b.m32),
            m13: dot4(self.m10, self.m11, self.m12, self.m13, b.m03, b.m13, b.m23, b.m33),
            m20: dot4(self.m20, self.m21, self.m22, self.m23, b.m00, b.m10, b.m20, b.m30),
            m21: dot4(self.m20, self.m21, self.m22, self.m23, b.m01, b.m11, b.m21, b.m31),
            m22: dot4(self.m20, self.m21, self.m22, self.m23, b.m02, b.m12, b.m22, b.m32),
            m23: dot4(self.m20, self.m21, self.m22, self.m23, b.m03, b.m13, b.m23, b.m33),
            m30: dot4(self.m30, self.m31, self.m32, self.m33, b.m00, b.m10, b.m20, b.m30),
            m31: dot4(self.m30, self.m31, self.m32, self.m33, b.m01, b.m11, b.m21, b.m31),
            m32: dot4(self.m30, self.m31, self.m32, self.m33, b.m02, b.m12, b.m22, b.m32),
            m33: dot4(self.m30, self.m31, self.m32, self.m33, b.m03, b.m13, b.m23, b.m33),
        }
    }

    /// The upper-left 3x3 block.
    pub fn upper_left(&self) -> (r: Mat3)
        ensures
            r == spec_mat3_from_mat4(*self),
    {
        Mat3 {
            m00: self.m00, m01: self.m01, m02: self.m02,
            m10: self.m10, m11: self.m11, m12: self.m12,
            m20: self.m20, m21: self.m21, m22: self.m22,
        }
    }
}

impl Mat3 {
    /// The identity matrix.
    pub fn identity() -> (m: Mat3)
        ensures
            m == spec_mat3_identity(),
    {
        Mat3 { m00: 1000, m01: 0, m02: 0, m10: 0, m11: 1000, m12: 0, m20: 0, m21: 0, m22: 1000 }
    }

    /// Transpose.
    pub fn transpose(&self) -> (r: Mat3)
        ensures
            r == spec_mat3_transpose(*self),
    {
        Mat3 {
            m00: self.m00, m01: self.m10, m02: self.m20,
            m10: self.m01, m11: self.m11, m12: self.m21,
            m20: self.m02, m21: self.m12, m22: self.m22,
        }
    }

    /// Determinant.
    pub fn det(&self) -> (r: i64)
        ensures
            r as int == spec_mat3_det(*self),
    {
        fx_add(
            fx_sub(
                fx_mul(self.m00, fx_sub(fx_mul(self.m11, self.m22), fx_mul(self.m12, self.m21))),
                fx_mul(self.m01, fx_sub(fx_mul(self.m10, self.m22), fx_mul(self.m12, self.m20))),
            ),
            fx_mul(self.m02, fx_sub(fx_mul(self.m10, self.m21), fx_mul(self.m11, self.m20))),
        )
    }

    /// The inverse by the adjugate over the determinant, or the identity
    /// when the matrix is singular (determinant zero).
    pub fn inverse_or_identity(&self) -> (r: Mat3)
        ensures
            r == spec_mat3_inverse_or_identity(*self),
    {
        let det = self.det();
        if det == 0 {
            Mat3::identity()
        } else {
            Mat3 {
                m00: fx_div(fx_sub(fx_mul(self.m11, self.m22), fx_mul(self.m12, self.m21)), det),
                m01: fx_div(fx_sub(fx_mul(self.m02, self.m21), fx_mul(self.m01, self.m22)), det),
                m02: fx_div(fx_sub(fx_mul(self.m01, self.m12), fx_mul(self.m02, self.m11)), det),
                m10: fx_div(fx_sub(fx_mul(self.m12, self.m20), fx_mul(self.m10, self.m22)), det),
                m11: fx_div(fx_sub(fx_mul(self.m00, self.m22), fx_mul(self.m02, self.m20)), det),
                m12: fx_div(fx_sub(fx_mul(self.m02, self.m10), fx_mul(self.m00, self.m12)), det),
                m20: fx_div(fx_sub(fx_mul(self.m10, self.m21), fx_mul(self.m11, self.m20)), det),
                m21: fx_div(fx_sub(fx_mul(self.m01, self.m20), fx_mul(self.m00, self.m21)), det),
                m22: fx_div(fx_sub(fx_mul(self.m00, self.m11), fx_mul(self.m01, self.m10)), det),
            }
        }
    }

    /// Apply the matrix to a 3-vector.
    pub fn mul_vec3(&self, v: &Vec3) -> (r: Vec3)
        ensures
            r == spec_mat3_mul_vec3(*self, *v),
    {
        Vec3 {
            x: dot3(self.m00, self.m01, self.m02, v.x, v.y, v.z),
            y: dot3(self.m10, self.m11, self.m12, v.x, v.y, v.z),
            z: dot3(self.m20, self.m21, self.m22, v.x, v.y, v.z),
        }
    }
}

} // verus!
