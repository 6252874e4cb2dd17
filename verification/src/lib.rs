//! A software 3D rendering pipeline over fixed-point arithmetic.
//!
//! The crate turns a triangle-list mesh into colored, depth-tested pixels:
//! matrix builders and a vertex stage, primitive assembly with frustum and
//! back-face culling, a barycentric rasterizer, a z-buffered frame buffer,
//! and a library of procedural, noise-based surface shaders.
//!
//! All quantities are fixed-point numbers: an `i64` holds the real value
//! scaled by 2^16 (`fixed::FX_ONE`). The arithmetic saturates at a generous
//! bound instead of wrapping, so every operation is total and its result is
//! pinned exactly by a specification function.

pub mod fixed;
pub mod vec3;
pub mod trig;
pub mod matrix;
pub mod geometry;
pub mod framebuffer;
pub mod noise;
pub mod shaders;
pub mod raster;
pub mod render;
