use vstd::prelude::*;

verus! {

/// Colour formats a post-process can render into.
#[derive(Debug, Copy, Clone, PartialEq, Eq, Structural)]
pub enum ETexutureFormat {
    Rgba8UnormSrgb,
    Rgba8Unorm,
    Bgra8UnormSrgb,
    Bgra8Unorm,
}

/// Bit offset of the target format in a pipeline key.
pub const MOVE_E_TARGET_FORMAT: u128 = 10;

} // verus!
