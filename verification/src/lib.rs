//! A verified model of a thin graphics and windowing layer.
//!
//! The library holds everything such a layer decides: how a vertex is laid
//! out, which byte range a buffer lock maps, what a pipeline looks like once
//! its options are resolved, and in which order a render pass hands work to
//! the engine. Talking to the engine itself is left to the caller.

pub mod backend;
pub mod g4;
pub mod krafix;
pub mod sys;
pub mod window;

pub use crate::window::{
    Callbacks, FramebufferOptions, InitOptions, Kinc, KincBuilder, RawFramebufferOptions,
    RawWindowOptions, Window, WindowFeatures, WindowMode, WindowOptions,
};
