//! The decision logic of a Monte-Carlo path tracer, verified: nearest-hit
//! selection over a scene, the bounce and termination policy of the radiance
//! integrator, quantization of colors to bytes, and the output image buffer.

pub mod nearest;
pub mod integrator;
pub mod color;
pub mod image;
