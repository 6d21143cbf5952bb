use vstd::prelude::*;

verus! {

/// Most levels a dual blur (and the blur inside a bloom) renders.
pub const MAX_LEVEL: usize = 4;

/// The number of levels rendered for a requested iteration count: the request,
/// capped at `MAX_LEVEL`.
pub fn level_count(iteration: u8) -> (levels: usize)
    ensures
        levels == if iteration as usize <= MAX_LEVEL {
            iteration as usize
        } else {
            MAX_LEVEL
        },
{
    let requested = iteration as usize;
    if MAX_LEVEL < requested {
        MAX_LEVEL
    } else {
        requested
    }
}

} // verus!
