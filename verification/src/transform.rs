//! The vertex transformer: model space to screen space, with a re-oriented
//! normal.
//!
//! The homogeneous position runs through projection x view x model, is
//! perspective-divided by the resulting w, re-homogenized and mapped by the
//! viewport matrix. Two numeric edge cases have explicit policies: when w
//! is zero the divide is skipped (the clip-space components pass through
//! unscaled), and when the upper-left 3x3 block of the model matrix is
//! singular the normal matrix falls back to the identity, so the normal
//! passes through unchanged.

use vstd::prelude::*;
use crate::fixed::{spec_fx_div, fx_div};
use crate::linalg::{
    Vec3, Vec4, spec_mat3_from_mat4, spec_mat3_inverse_or_identity, spec_mat3_mul_vec3,
    spec_mat3_transpose, spec_mat4_mul, spec_mat4_mul_vec4,
};
use crate::noise::NoiseSource;
use crate::types::{Uniforms, Vertex};

verus! {

/// The perspective divide: each component over w, skipped when w is zero;
/// the result is re-homogenized (w set back to 1).
pub open spec fn spec_perspective_divide(clip: Vec4) -> Vec4 {
    if clip.w == 0 {
        Vec4 { x: clip.x, y: clip.y, z: clip.z, w: 1000 }
    } else {
        Vec4 {
            x: (spec_fx_div(clip.x as int, clip.w as int)) as i64,
            y: (spec_fx_div(clip.y as int, clip.w as int)) as i64,
            z: (spec_fx_div(clip.z as int, clip.w as int)) as i64,
            w: 1000,
        }
    }
}

/// The transformed vertex: the screen-space position from the matrix chain
/// and the normal re-oriented by the inverse-transpose of the model
/// matrix's upper-left block (or passed through over a singular block).
pub open spec fn spec_vertex_shader<N: NoiseSource>(vertex: Vertex, uniforms: Uniforms<N>) -> Vertex {
    let position = Vec4 { x: vertex.position.x, y: vertex.position.y, z: vertex.position.z, w: 1000 };
    let pvm = spec_mat4_mul(
        spec_mat4_mul(uniforms.projection_matrix, uniforms.view_matrix),
        uniforms.model_matrix,
    );
    let clip = spec_mat4_mul_vec4(pvm, position);
    let ndc = spec_perspective_divide(clip);
    let screen = spec_mat4_mul_vec4(uniforms.viewport_matrix, ndc);
    let normal_matrix = spec_mat3_inverse_or_identity(
        spec_mat3_transpose(spec_mat3_from_mat4(uniforms.model_matrix)),
    );
    Vertex {
        position: vertex.position,
        normal: vertex.normal,
        tex_coords: vertex.tex_coords,
        color: vertex.color,
        transformed_position: Vec3 { x: screen.x, y: screen.y, z: screen.z },
        transformed_normal: spec_mat3_mul_vec3(normal_matrix, vertex.normal),
    }
}

/// Map a model-space vertex to screen space. Pure: the result is exactly
/// [`spec_vertex_shader`] of the inputs, the original fields are carried
/// forward untouched, and only the two derived fields are produced.
pub fn vertex_shader<N: NoiseSource>(vertex: &Vertex, uniforms: &Uniforms<N>) -> (r: Vertex)
    ensures
        r == spec_vertex_shader(*vertex, *uniforms),
{
    let position = Vec4 {
        x: vertex.position.x,
        y: vertex.position.y,
        z: vertex.position.z,
        w: 1000,
    };

    let pvm = uniforms.projection_matrix.mul_mat4(&uniforms.view_matrix).mul_mat4(
        &uniforms.model_matrix,
    );
    let clip = pvm.mul_vec4(&position);

    let ndc = if clip.w == 0 {
        Vec4 { x: clip.x, y: clip.y, z: clip.z, w: 1000 }
    } else {
        Vec4 {
            x: fx_div(clip.x, clip.w),
            y: fx_div(clip.y, clip.w),
            z: fx_div(clip.z, clip.w),
            w: 1000,
        }
    };

    let screen = uniforms.viewport_matrix.mul_vec4(&ndc);

    let normal_matrix = uniforms.model_matrix.upper_left().transpose().inverse_or_identity();
    let transformed_normal = normal_matrix.mul_vec3(&vertex.normal);

    Vertex {
        position: vertex.position,
        normal: vertex.normal,
        tex_coords: vertex.tex_coords,
        color: vertex.color,
        transformed_position: Vec3 { x: screen.x, y: screen.y, z: screen.z },
        transformed_normal,
    }
}

} // verus!
