//! The noise-source interface.
//!
//! Noise generation is an external collaborator of this pipeline: the
//! shaders only sample a deterministic scalar field at 2D or 3D fixed-point
//! coordinates and rely on the sample lying in the unit range [-1, 1]. The
//! trait ties each executable sampling method to a spec function of the
//! same source, so everything shaded from the samples is a function of the
//! field and the coordinates alone.

use vstd::prelude::*;
use crate::fixed::{spec_clamp_unit, clamp_unit};

verus! {

/// A deterministic scalar noise field, sampled at fixed-point coordinates.
pub trait NoiseSource {
    /// The field's value at a planar coordinate.
    spec fn spec_noise2(&self, x: int, y: int) -> int;

    /// The field's value at a spatial coordinate.
    spec fn spec_noise3(&self, x: int, y: int, z: int) -> int;

    /// Sample the field in the plane; deterministic and in [-1, 1].
    fn get_noise_2d(&self, x: i64, y: i64) -> (r: i64)
        ensures
            r as int == self.spec_noise2(x as int, y as int),
            -1000 <= r <= 1000,
    ;

    /// Sample the field in space; deterministic and in [-1, 1].
    fn get_noise_3d(&self, x: i64, y: i64, z: i64) -> (r: i64)
        ensures
            r as int == self.spec_noise3(x as int, y as int, z as int),
            -1000 <= r <= 1000,
    ;
}

/// A noise source that answers every query with the same sample, clamped
/// to the unit range. The zero field is the baseline the tests shade
/// against.
#[derive(Clone, Copy, PartialEq, Eq, Structural, Debug)]
pub struct ConstantNoise {
    pub value: i64,
}

impl NoiseSource for ConstantNoise {
    open spec fn spec_noise2(&self, x: int, y: int) -> int {
        spec_clamp_unit(self.value as int)
    }

    open spec fn spec_noise3(&self, x: int, y: int, z: int) -> int {
        spec_clamp_unit(self.value as int)
    }

    fn get_noise_2d(&self, x: i64, y: i64) -> (r: i64) {
        clamp_unit(self.value)
    }

    fn get_noise_3d(&self, x: i64, y: i64, z: i64) -> (r: i64) {
        clamp_unit(self.value)
    }
}

impl ConstantNoise {
    /// The constant field of a given sample value.
    pub fn new(value: i64) -> (n: ConstantNoise)
        ensures
            n == (ConstantNoise { value }),
    {
        ConstantNoise { value }
    }
}

} // verus!
