//! A Whitted-style recursive ray tracer over fixed-point arithmetic.
//!
//! Every quantity the renderer computes with — coordinates, directions,
//! colors in linear space, material weights — is a fixed-point number: an
//! `i64` holding the value scaled by `fx::FX_ONE`. All arithmetic saturates
//! at `fx::FX_MAX`, so every operation is total and each function's result
//! is pinned exactly by its contract.

pub mod fx;
pub mod vec3;
pub mod color;
pub mod material;
pub mod light;
pub mod ray_intersect;
pub mod sphere;
pub mod cube;
pub mod camera;
pub mod textures;
pub mod framebuffer;
pub mod snell;
pub mod tracer;
