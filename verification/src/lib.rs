//! An offline path-tracing renderer with a verified fixed-point core.
//!
//! Every scalar the renderer computes with is an [`fixed::Fx`] fixed-point
//! number, so all geometry, shading and orchestration logic is exact integer
//! arithmetic with contracts Verus checks. Randomness flows through an
//! explicit [`sampler::Sampler`] value, so every function's result is pinned
//! down by its inputs and the sampler state it consumed.

pub mod animation;
pub mod camera;
pub mod color;
pub mod fixed;
pub mod material;
pub mod matrix3;
pub mod node;
pub mod ray;
pub mod renderable;
pub mod render;
pub mod sampler;
pub mod scene;
pub mod sphere;
pub mod transform;
pub mod trig;
pub mod utils;
pub mod vector2;
pub mod vector3;
