//! The per-draw-call parameter bundles: matrices, the frame counter, and the
//! noise fields, immutable for the duration of one render call.

use crate::linalg::Mat4;
use crate::noise::NoiseField;
use vstd::prelude::*;

verus! {

/// The read-only bundle every vertex and fragment computation sees: the
/// transform chain, a frame counter, and two noise fields (a surface field
/// and a secondary cloud field).
#[derive(Clone, Copy, PartialEq, Eq, Structural, Debug)]
pub struct Uniforms {
    pub model_matrix: Mat4,
    pub view_matrix: Mat4,
    pub projection_matrix: Mat4,
    pub viewport_matrix: Mat4,
    pub time: u32,
    pub noise: NoiseField,
    pub cloud_noise: NoiseField,
}

impl Uniforms {
    /// Both noise fields have parameters in the provable ranges.
    pub open spec fn wf(self) -> bool {
        self.noise.wf() && self.cloud_noise.wf()
    }
}

/// The uniforms a planet is rendered with.
#[derive(Clone, Copy, PartialEq, Eq, Structural, Debug)]
pub struct UniformsPlanet {
    pub model_matrix: Mat4,
    pub view_matrix: Mat4,
    pub projection_matrix: Mat4,
    pub viewport_matrix: Mat4,
    pub time: u32,
    pub noise: NoiseField,
}

/// The uniforms a moon is rendered with; a moon differs from its planet
/// only in its model matrix and noise seed.
#[derive(Clone, Copy, PartialEq, Eq, Structural, Debug)]
pub struct UniformsMoon {
    pub model_matrix: Mat4,
    pub view_matrix: Mat4,
    pub projection_matrix: Mat4,
    pub viewport_matrix: Mat4,
    pub time: u32,
    pub noise: NoiseField,
}

impl UniformsPlanet {
    /// The full bundle, with the surface field doubling as the cloud field.
    pub fn to_uniforms(&self) -> (u: Uniforms)
        ensures
            u == (Uniforms {
                model_matrix: self.model_matrix,
                view_matrix: self.view_matrix,
                projection_matrix: self.projection_matrix,
                viewport_matrix: self.viewport_matrix,
                time: self.time,
                noise: self.noise,
                cloud_noise: self.noise,
            }),
    {
        Uniforms {
            model_matrix: self.model_matrix,
            view_matrix: self.view_matrix,
            projection_matrix: self.projection_matrix,
            viewport_matrix: self.viewport_matrix,
            time: self.time,
            noise: self.noise,
            cloud_noise: self.noise,
        }
    }
}

impl UniformsMoon {
    /// The full bundle, with the surface field doubling as the cloud field.
    pub fn to_uniforms(&self) -> (u: Uniforms)
        ensures
            u == (Uniforms {
                model_matrix: self.model_matrix,
                view_matrix: self.view_matrix,
                projection_matrix: self.projection_matrix,
                viewport_matrix: self.viewport_matrix,
                time: self.time,
                noise: self.noise,
                cloud_noise: self.noise,
            }),
    {
        Uniforms {
            model_matrix: self.model_matrix,
            view_matrix: self.view_matrix,
            projection_matrix: self.projection_matrix,
            viewport_matrix: self.viewport_matrix,
            time: self.time,
            noise: self.noise,
            cloud_noise: self.noise,
        }
    }
}

} // verus!
