use vstd::prelude::*;

verus! {

/// Colour blending of a render pass (room for sixteen settings).
#[derive(Debug, Copy, Clone, PartialEq, Eq, Structural)]
pub enum EBlend {
    /// No blending: the pass overwrites the target.
    NoBlend,
    /// SrcAlpha, OneMinusSrcAlpha
    Combine,
    /// One, One
    Add,
    /// One, OneMinusSrcAlpha
    Premultiply,
}

/// Bit offset of the blend setting in a pipeline key.
pub const MOVE_E_BLEND: u128 = 16;

} // verus!
