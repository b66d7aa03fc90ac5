//! A small 2D rendering toolkit core: a fixed-capacity vertex/index staging
//! buffer (`mesh`) and a sprite batcher (`batcher`) that accumulates textured
//! quads and decides when a batch must be flushed to the graphics device.
//!
//! The library holds no graphics context. Every operation that would touch
//! the device hands back a plain description of the work (bytes to upload,
//! the draw call to issue, the texture to bind) for the caller to perform.
//! Floating-point components are carried as their IEEE-754 bit patterns.

mod gl_consts;
pub mod encode;
pub mod layout;
pub mod mesh;
pub mod quad;
pub mod texture;
pub mod batcher;
pub mod laws;
pub mod greeting;
