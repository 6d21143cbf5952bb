use vstd::prelude::*;

verus! {

/// Errors reported by the post-processing pipeline.
#[derive(Debug, Clone, Copy, PartialEq, Eq, Structural)]
pub enum EPostprocessError {
    /// A transform matrix did not hold the expected number of values.
    ParamMatrixSizeError,
    /// A render target used a texture format the pipeline cannot draw into.
    NotSupportTargetFormat,
}

} // verus!
