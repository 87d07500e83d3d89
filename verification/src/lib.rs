//! A software 3D rendering pipeline on fixed-point arithmetic.
//!
//! Geometry moves through the classic stages: model/view/projection
//! transforms with a perspective divide, primitive assembly into
//! triangles, barycentric rasterization with a depth test, and a
//! layered procedural fragment shader driven by fractal value noise.
//! A small scene system animates entities along world-anchored or
//! parent-relative circular orbits.
//!
//! All scalar quantities are Q16.16 fixed-point numbers held in `i64`
//! (see [`fixed`]), so every stage is exact integer arithmetic.

use vstd::prelude::*;

pub mod assembler;
pub mod displace;
pub mod fixed;
pub mod framebuffer;
pub mod matrix;
pub mod motion;
pub mod noise;
pub mod pipeline;
pub mod raster;
pub mod shader;
pub mod vec3;

verus! {

} // verus!
