use vstd::prelude::*;

verus! {

/// How an image mask treats the masked content.
#[derive(Clone, Copy, Debug, PartialEq, Eq, Structural)]
pub enum EMaskMode {
    /// Drop pixels whose mask value is below the factor.
    Clip,
    /// Drop pixels whose mask value is below the factor, and multiply the others by the mask value.
    ClipAndMultiplyAlpha,
}

} // verus!
