//! Decision logic of a GPU post-processing pipeline: which effects run, in
//! which order, at which sizes, and how the uniform blocks are laid out.

pub mod error;
pub mod effect;
pub mod postprocess;
pub mod postprocess_renderer;
pub mod renderer;
pub mod geometry;
pub mod postprocess_flags;
pub mod material;
pub mod temprory_render_target;
