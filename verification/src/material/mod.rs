//! Pipeline configuration values and uniform block layout.

pub mod blend;
pub mod depth_and_stencil;
pub mod pipeline;
pub mod shader;
pub mod target_format;
