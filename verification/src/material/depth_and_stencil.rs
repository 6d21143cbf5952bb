use vstd::prelude::*;

verus! {

/// Depth / stencil formats a pipeline can render with (four supported).
#[derive(Debug, Clone, Copy, PartialEq, Eq, Structural)]
pub enum EDepthStencilFormat {
    NoDepthStencil,
    Depth32Float,
    Depth24Plus,
    Depth24PlusStencil8,
}

} // verus!
