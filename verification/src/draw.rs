//! What the renderer creates once and what it issues each frame, as plain
//! data that a rendering backend carries out.

pub mod render;
pub mod shader;
