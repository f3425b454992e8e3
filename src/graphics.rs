//! The GPU preview surface and the texture loader.

pub mod context;
pub mod gpu;
pub mod registry;
pub mod shader;
pub mod texture;
