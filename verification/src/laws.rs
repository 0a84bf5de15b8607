//! Laws of the pipeline, proved once for every input.
//!
//! These public proof functions state the global guarantees that do not
//! fit a single function's contract: the identity transform leaves a
//! position unchanged, a singular model block leaves the normal unchanged,
//! and a gated overlay blends monotonically in its gating sample.

use vstd::prelude::*;
use vstd::arithmetic::div_mod::{
    lemma_div_is_ordered, lemma_div_multiples_vanish, lemma_div_pos_is_pos,
};
use vstd::arithmetic::mul::lemma_mul_inequality;
use crate::color::{Color, spec_lerp, spec_lerp_chan};
use crate::fixed::{spec_fx_div, spec_fx_mul, spec_fx_sub, trunc_div};
use crate::linalg::{
    Vec3, Vec4, spec_mat3_det, spec_mat3_from_mat4, spec_mat3_identity,
    spec_mat3_inverse_or_identity, spec_mat3_mul_vec3, spec_mat3_transpose, spec_mat4_identity,
    spec_mat4_mul, spec_mat4_mul_vec4,
};
use crate::noise::NoiseSource;
use crate::transform::{spec_perspective_divide, spec_vertex_shader};
use crate::types::{Uniforms, Vertex};

verus! {

/// Multiplying by the fixed-point one (or zero) is exact for every scalar.
proof fn lemma_fx_mul_unit(x: int)
    requires
        i64::MIN <= x <= i64::MAX,
    ensures
        spec_fx_mul(1000, x) == x,
        spec_fx_mul(x, 1000) == x,
        spec_fx_mul(0, x) == 0,
        spec_fx_mul(x, 0) == 0,
{
    if x >= 0 {
        lemma_div_multiples_vanish(x, 1000);
        assert(trunc_div(1000 * x, 1000) == x);
    } else {
        lemma_div_multiples_vanish(-x, 1000);
        assert((-(1000 * x)) / 1000 == -x);
        assert(trunc_div(1000 * x, 1000) == x);
    }
    lemma_div_multiples_vanish(0, 1000);
}

/// Dividing by the fixed-point one is exact for every scalar.
proof fn lemma_fx_div_unit(x: int)
    requires
        i64::MIN <= x <= i64::MAX,
    ensures
        spec_fx_div(x, 1000) == x,
{
    if x >= 0 {
        lemma_div_multiples_vanish(x, 1000);
    } else {
        lemma_div_multiples_vanish(-x, 1000);
    }
}

/// The identity matrix maps every homogeneous vector to itself.
proof fn lemma_mat4_identity_vec(v: Vec4)
    ensures
        spec_mat4_mul_vec4(spec_mat4_identity(), v) == v,
{
    lemma_fx_mul_unit(v.x as int);
    lemma_fx_mul_unit(v.y as int);
    lemma_fx_mul_unit(v.z as int);
    lemma_fx_mul_unit(v.w as int);
}

/// The 3x3 identity maps every vector to itself.
proof fn lemma_mat3_identity_vec(v: Vec3)
    ensures
        spec_mat3_mul_vec3(spec_mat3_identity(), v) == v,
{
    lemma_fx_mul_unit(v.x as int);
    lemma_fx_mul_unit(v.y as int);
    lemma_fx_mul_unit(v.z as int);
}

/// The identity matrix is a unit of the matrix product.
proof fn lemma_mat4_identity_mul()
    ensures
        spec_mat4_mul(spec_mat4_identity(), spec_mat4_identity()) == spec_mat4_identity(),
{
    lemma_fx_mul_unit(1000);
    lemma_fx_mul_unit(0);
}

/// Transform identity law: with the model, view, projection and viewport
/// matrices all the identity, the transformed position of any vertex is
/// its model position, for every finite fixed-point position (the lifted w
/// is 1, so the perspective divide is exact).
pub proof fn transform_identity_law<N: NoiseSource>(vertex: Vertex, uniforms: Uniforms<N>)
    requires
        uniforms.model_matrix == spec_mat4_identity(),
        uniforms.view_matrix == spec_mat4_identity(),
        uniforms.projection_matrix == spec_mat4_identity(),
        uniforms.viewport_matrix == spec_mat4_identity(),
    ensures
        spec_vertex_shader(vertex, uniforms).transformed_position == vertex.position,
{
    let position = Vec4 {
        x: vertex.position.x,
        y: vertex.position.y,
        z: vertex.position.z,
        w: 1000,
    };
    lemma_mat4_identity_mul();
    lemma_mat4_identity_vec(position);
    let clip = spec_mat4_mul_vec4(spec_mat4_identity(), position);
    assert(clip == position);
    lemma_fx_div_unit(position.x as int);
    lemma_fx_div_unit(position.y as int);
    lemma_fx_div_unit(position.z as int);
    assert(spec_perspective_divide(clip) == position);
    lemma_mat4_identity_vec(spec_perspective_divide(clip));
}

/// Normal fallback law: when the matrix the transformer inverts — the
/// transposed upper-left 3x3 block of the model matrix — is singular
/// (determinant zero, as for an all-zero block), the transformed normal of
/// any vertex equals its input normal unchanged.
pub proof fn normal_fallback_law<N: NoiseSource>(vertex: Vertex, uniforms: Uniforms<N>)
    requires
        spec_mat3_det(spec_mat3_transpose(spec_mat3_from_mat4(uniforms.model_matrix))) == 0,
    ensures
        spec_vertex_shader(vertex, uniforms).transformed_normal == vertex.normal,
{
    let block = spec_mat3_transpose(spec_mat3_from_mat4(uniforms.model_matrix));
    assert(spec_mat3_inverse_or_identity(block) == spec_mat3_identity());
    lemma_mat3_identity_vec(vertex.normal);
}

/// Division by 1000 truncated toward zero preserves order.
proof fn lemma_trunc_div_1000_monotone(p1: int, p2: int)
    requires
        p1 <= p2,
    ensures
        trunc_div(p1, 1000) <= trunc_div(p2, 1000),
{
    if p1 >= 0 {
        lemma_div_is_ordered(p1, p2, 1000);
    } else if p2 >= 0 {
        lemma_div_pos_is_pos(-p1, 1000);
        lemma_div_pos_is_pos(p2, 1000);
    } else {
        lemma_div_is_ordered(-p2, -p1, 1000);
    }
}

/// The fixed-point product is monotone in its second factor when the first
/// is nonnegative, and antitone when the first is nonpositive.
proof fn lemma_fx_mul_monotone(d: int, t1: int, t2: int)
    requires
        t1 <= t2,
    ensures
        d >= 0 ==> spec_fx_mul(d, t1) <= spec_fx_mul(d, t2),
        d <= 0 ==> spec_fx_mul(d, t2) <= spec_fx_mul(d, t1),
{
    if d >= 0 {
        lemma_mul_inequality(t1, t2, d);
        assert(t1 * d == d * t1) by (nonlinear_arith);
        assert(t2 * d == d * t2) by (nonlinear_arith);
        lemma_trunc_div_1000_monotone(d * t1, d * t2);
    } else {
        lemma_mul_inequality(t1, t2, -d);
        assert(t1 * (-d) == -(d * t1)) by (nonlinear_arith);
        assert(t2 * (-d) == -(d * t2)) by (nonlinear_arith);
        lemma_trunc_div_1000_monotone(d * t2, d * t1);
    }
}

/// A blended channel moves monotonically with the blend factor: toward the
/// overlay channel while the factor grows, in whichever direction the
/// overlay lies from the base.
proof fn lemma_lerp_chan_monotone(c: int, o: int, t1: int, t2: int)
    requires
        0 <= t1 <= t2,
    ensures
        c <= o ==> spec_lerp_chan(c, o, t1) <= spec_lerp_chan(c, o, t2),
        o <= c ==> spec_lerp_chan(c, o, t2) <= spec_lerp_chan(c, o, t1),
{
    lemma_fx_mul_monotone(o - c, t1, t2);
}

/// The blend weight of a threshold-gated overlay: the gating sample's
/// excess over the threshold, rescaled by the remap factor k.
pub open spec fn spec_overlay_weight(s: int, threshold: int, k: int) -> int {
    spec_fx_mul(spec_fx_sub(s, threshold), k)
}

/// The fixed-point product is commutative.
proof fn lemma_fx_mul_comm(a: int, b: int)
    ensures
        spec_fx_mul(a, b) == spec_fx_mul(b, a),
{
    assert(a * b == b * a) by (nonlinear_arith);
}

/// Overlay monotonicity law: for any threshold-gated overlay — every gated
/// overlay of the shader library has this shape — a larger gating sample
/// past the threshold yields at least as large a blend weight, and each
/// channel of the blended color moves monotonically toward the overlay
/// color's channel: the overlay fades in with no discontinuous jump beyond
/// the remap scaling.
pub proof fn overlay_monotonicity_law(base: Color, overlay: Color, threshold: int, k: int, s1: int, s2: int)
    requires
        threshold < s1 <= s2,
        0 <= k,
    ensures
        spec_overlay_weight(s1, threshold, k) <= spec_overlay_weight(s2, threshold, k),
        base.r <= overlay.r ==> spec_lerp(base, overlay, spec_overlay_weight(s1, threshold, k)).r
            <= spec_lerp(base, overlay, spec_overlay_weight(s2, threshold, k)).r,
        overlay.r <= base.r ==> spec_lerp(base, overlay, spec_overlay_weight(s2, threshold, k)).r
            <= spec_lerp(base, overlay, spec_overlay_weight(s1, threshold, k)).r,
        base.g <= overlay.g ==> spec_lerp(base, overlay, spec_overlay_weight(s1, threshold, k)).g
            <= spec_lerp(base, overlay, spec_overlay_weight(s2, threshold, k)).g,
        overlay.g <= base.g ==> spec_lerp(base, overlay, spec_overlay_weight(s2, threshold, k)).g
            <= spec_lerp(base, overlay, spec_overlay_weight(s1, threshold, k)).g,
        base.b <= overlay.b ==> spec_lerp(base, overlay, spec_overlay_weight(s1, threshold, k)).b
            <= spec_lerp(base, overlay, spec_overlay_weight(s2, threshold, k)).b,
        overlay.b <= base.b ==> spec_lerp(base, overlay, spec_overlay_weight(s2, threshold, k)).b
            <= spec_lerp(base, overlay, spec_overlay_weight(s1, threshold, k)).b,
{
    let d1 = spec_fx_sub(s1, threshold);
    let d2 = spec_fx_sub(s2, threshold);
    lemma_fx_mul_comm(d1, k);
    lemma_fx_mul_comm(d2, k);
    lemma_fx_mul_monotone(k, d1, d2);
    let w1 = spec_overlay_weight(s1, threshold, k);
    let w2 = spec_overlay_weight(s2, threshold, k);
    assert(0 <= d1);
    lemma_mul_inequality(0, d1, k);
    lemma_div_pos_is_pos(d1 * k, 1000);
    assert(0 <= w1);
    lemma_lerp_chan_monotone(base.r as int, overlay.r as int, w1, w2);
    lemma_lerp_chan_monotone(base.g as int, overlay.g as int, w1, w2);
    lemma_lerp_chan_monotone(base.b as int, overlay.b as int, w1, w2);
}

} // verus!
