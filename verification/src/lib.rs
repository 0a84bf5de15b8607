//! Shading stage of a software 3D renderer: a vertex transformer that maps
//! model-space vertices to screen space, and a procedural fragment shader
//! that colors a closed family of celestial bodies.
//!
//! Every scalar of the pipeline is a saturating fixed-point number (see
//! [`fixed`]), so every shading function is a total, deterministic function
//! of its arguments, and each carries a contract that pins its result down
//! exactly.

pub mod color;
pub mod fixed;
pub mod laws;
pub mod linalg;
pub mod noise;
pub mod shaders;
pub mod transform;
pub mod trig;
pub mod types;
