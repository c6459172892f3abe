//! A verified model of a render-to-texture post-processing chain.
//!
//! The library captures the logic of such a chain independently of any
//! rendering engine: allocation of an off-screen color target, a composite
//! material holding a texture binding and scalar uniforms, a per-frame
//! parameter driver that rewrites those uniforms, render-layer tags and
//! camera ordering, and reinterpretation of a stacked 2D image as an
//! array texture. Engine work (GPU submission, asset loading, windowing)
//! is outside the library; callers hand it plain values.

pub mod chain;
pub mod driver;
pub mod texture_array;
pub mod layer;
pub mod material;
pub mod target;
