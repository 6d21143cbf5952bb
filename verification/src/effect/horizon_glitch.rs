use vstd::prelude::*;

verus! {

/// The age of a horizontal glitch after one frame, and whether a fresh set of
/// stripes is drawn for that frame.
#[derive(Debug, Clone, Copy, PartialEq, Eq, Structural)]
pub struct GlitchLifeStep {
    /// A fresh set of stripes replaces the previous one.
    pub regenerate: bool,
    /// Age of the glitch after the frame, in milliseconds.
    pub life: u16,
}

/// The age a glitch restarts from: its age, or zero once it has outlived its lifetime.
pub open spec fn restarted_life(life: u16, lifetime: u16) -> int {
    if life > lifetime {
        0
    } else {
        life as int
    }
}

/// Advances a glitch of age `life` (milliseconds) by a frame of `delta_time`
/// milliseconds: a glitch older than its `lifetime` restarts at age zero; a fresh
/// set of stripes is drawn whenever the age is zero at the start of the frame;
/// the age then grows by the frame time taken modulo 2^16. The age must not
/// overflow 16 bits.
pub fn glitch_life_step(life: u16, lifetime: u16, delta_time: u64) -> (step: GlitchLifeStep)
    requires
        restarted_life(life, lifetime) + (delta_time as u16) <= u16::MAX,
    ensures
        step.regenerate == (restarted_life(life, lifetime) == 0),
        step.life == restarted_life(life, lifetime) + (delta_time as u16),
{
    let mut life = life;
    if life > lifetime {
        life = 0;
    }
    let regenerate = life == 0;
    life = life + delta_time as u16;
    GlitchLifeStep { regenerate, life }
}

} // verus!
