//! Mesh vertices: object-space attributes plus the screen-space position and
//! transformed normal produced by the vertex stage.

use crate::color::Color;
use crate::linalg::{Vec2, Vec3};
use vstd::prelude::*;

verus! {

/// A vertex: object-space position, normal and texture coordinates, a base
/// color, and the results of the transform stage. A vertex is never mutated
/// in place; the transform stage returns a fresh copy.
#[derive(Clone, Copy, PartialEq, Eq, Structural, Debug)]
pub struct Vertex {
    pub position: Vec3,
    pub normal: Vec3,
    pub tex_coords: Vec2,
    pub color: Color,
    pub transformed_position: Vec3,
    pub transformed_normal: Vec3,
}

impl Vertex {
    /// A freshly loaded vertex; the transformed attributes start out as the
    /// object-space ones.
    pub fn new(position: Vec3, normal: Vec3, tex_coords: Vec2, color: Color) -> (v: Vertex)
        ensures
            v == (Vertex {
                position,
                normal,
                tex_coords,
                color,
                transformed_position: position,
                transformed_normal: normal,
            }),
    {
        Vertex {
            position,
            normal,
            tex_coords,
            color,
            transformed_position: position,
            transformed_normal: normal,
        }
    }
}

} // verus!
