//! The value types the pipeline is written over: vertices, fragments, the
//! per-frame uniform state, and the closed set of celestial body kinds.

use vstd::prelude::*;
use crate::color::Color;
use crate::linalg::{Vec2, Vec3, Mat4};
use crate::noise::NoiseSource;

verus! {

/// The closed set of body kinds the fragment shader can color. Exactly one
/// is active per `Uniforms` snapshot, and each maps to exactly one surface
/// shader configuration.
#[derive(Clone, Copy, PartialEq, Eq, Structural, Debug)]
pub enum CelestialBody {
    Sun,
    RockyPlanet,
    GasGiant,
    CloudyPlanet,
    RingedPlanet,
    IcePlanet,
    ColorPlanet,
    Moon,
    OceanPlanet,
    AuroraPlanet,
    NaturePlanet,
}

/// A mesh vertex. The model-space fields come from the scene; the two
/// transformed fields are derived, produced only by the vertex transformer,
/// which never mutates its input and returns a fresh value.
#[derive(Clone, Copy, PartialEq, Eq, Structural, Debug)]
pub struct Vertex {
    pub position: Vec3,
    pub normal: Vec3,
    pub tex_coords: Vec2,
    pub color: Color,
    pub transformed_position: Vec3,
    pub transformed_normal: Vec3,
}

impl Vertex {
    /// A model-space vertex; the derived screen-space fields start at zero
    /// until the transformer has run.
    pub fn new(position: Vec3, normal: Vec3, tex_coords: Vec2, color: Color) -> (v: Vertex)
        ensures
            v == (Vertex {
                position,
                normal,
                tex_coords,
                color,
                transformed_position: Vec3 { x: 0, y: 0, z: 0 },
                transformed_normal: Vec3 { x: 0, y: 0, z: 0 },
            }),
    {
        Vertex {
            position,
            normal,
            tex_coords,
            color,
            transformed_position: Vec3 { x: 0, y: 0, z: 0 },
            transformed_normal: Vec3 { x: 0, y: 0, z: 0 },
        }
    }
}

/// One rasterized sample point: the interpolated surface position and a
/// fixed-point light intensity (1000 is full intensity; emissive bodies may
/// hand in more).
#[derive(Clone, Copy, PartialEq, Eq, Structural, Debug)]
pub struct Fragment {
    pub vertex_position: Vec3,
    pub intensity: i64,
}

impl Fragment {
    /// A fragment at a surface position with a light intensity.
    pub fn new(vertex_position: Vec3, intensity: i64) -> (f: Fragment)
        ensures
            f == (Fragment { vertex_position, intensity }),
    {
        Fragment { vertex_position, intensity }
    }
}

/// The read-only per-frame state shared by every shading call: the four
/// transform matrices, the frame time counter, the noise source handle and
/// the active body kind. Constructed once per frame by the driver and only
/// ever borrowed by the pipeline.
pub struct Uniforms<N: NoiseSource> {
    pub model_matrix: Mat4,
    pub view_matrix: Mat4,
    pub projection_matrix: Mat4,
    pub viewport_matrix: Mat4,
    pub time: i64,
    pub noise: N,
    pub current_body: CelestialBody,
}

} // verus!
