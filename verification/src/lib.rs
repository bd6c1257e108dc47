//! Exact-arithmetic core of a multi-pass 3D renderer.
//!
//! The renderer draws each frame in three ordered passes: a depth-only
//! shadow pass from the light's point of view, a sky/atmosphere pass, and
//! a shadow-attenuated scene pass.  This crate holds the verified core of
//! that pipeline: the camera and projection transform model, the
//! light-space matrices and the bias matrix that turn a world position
//! into a shadow-map lookup, the depth-target and soft-shadow sampling
//! semantics, the sky-scattering uniform derivation, the mesh placement
//! and vertex-normal accumulation, and the per-frame pass orchestration.
//!
//! All values are modelled with exact rational arithmetic (integer
//! numerators over positive integer denominators), so every matrix
//! identity and range property below is exact rather than approximate.
//! The GPU, the windowing system and the floating-point conversion at the
//! device boundary live outside this crate.

pub mod camera;
pub mod matrix;
pub mod model;
pub mod rational;
pub mod renderer;
pub mod shadow_map;
pub mod shadow_render_system;
pub mod sky_render_system;
pub mod vector;
