//! Verified core of a small deferred-shading renderer: vertex layouts, quad
//! meshes and their shared index buffer, the camera's view angles, input
//! handling, the fixed-timestep frame clock and the order of render passes.

pub mod config;
pub mod cube;
pub mod frame_clock;
pub mod gbuffer;
pub mod input;
pub mod mesh;
pub mod model;
pub mod orientation;
pub mod pipeline;
pub mod texture;
pub mod vertex;
