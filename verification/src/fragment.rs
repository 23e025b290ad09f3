//! Fragments: one candidate pixel produced by the rasterizer, carrying its
//! interpolated attributes, consumed once by a shader.

use crate::linalg::Vec3;
use vstd::prelude::*;

verus! {

/// One covered pixel with its interpolated attributes: integer pixel
/// coordinates, fixed-point depth, the interpolated normal, a lighting
/// intensity scalar, and the interpolated object-space position used for
/// noise sampling.
#[derive(Clone, Copy, PartialEq, Eq, Structural, Debug)]
pub struct Fragment {
    pub x: i64,
    pub y: i64,
    pub depth: i64,
    pub normal: Vec3,
    pub intensity: i64,
    pub vertex_position: Vec3,
}

impl Fragment {
    pub fn new(
        x: i64,
        y: i64,
        depth: i64,
        normal: Vec3,
        intensity: i64,
        vertex_position: Vec3,
    ) -> (f: Fragment)
        ensures
            f == (Fragment { x, y, depth, normal, intensity, vertex_position }),
    {
        Fragment { x, y, depth, normal, intensity, vertex_position }
    }
}

} // verus!
