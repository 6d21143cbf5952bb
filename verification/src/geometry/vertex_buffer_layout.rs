use vstd::prelude::*;

verus! {

/// Which vertex buffers a pipeline reads.
#[derive(Debug, Copy, Clone, PartialEq, Eq, Structural)]
pub enum EVertexBufferLayout {
    Position2D,
    Position2DGlitchInstance,
}

/// Bit offset of the vertex layout in a pipeline key.
pub const MOVE_E_VERTEX_BUFFER_LAYOUT: u128 = 10;

} // verus!
