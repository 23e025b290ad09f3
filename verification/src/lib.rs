//! A software 3D rasterization pipeline: vertex transformation, barycentric
//! triangle rasterization with depth buffering, and procedural noise-driven
//! fragment shading, all over deterministic fixed-point arithmetic.

pub mod color;
pub mod fixed;
pub mod fragment;
pub mod framebuffer;
pub mod linalg;
pub mod noise;
pub mod pipeline;
pub mod raster;
pub mod shaders;
pub mod transform;
pub mod uniforms;
pub mod vertex;
