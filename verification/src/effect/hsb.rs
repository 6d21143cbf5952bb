use vstd::prelude::*;

verus! {

/// Hue / saturation / brightness shift.
#[derive(Clone, Copy, Debug, PartialEq, Eq, Structural)]
pub struct HSB {
    /// [-180, 180]
    pub hue: i16,
    /// [-100, 100]
    pub saturate: i8,
    /// [-100, 100]
    pub brightness: i8,
}

impl HSB {
    /// The shift that changes nothing.
    pub open spec fn neutral() -> HSB {
        HSB { hue: 0, saturate: 0, brightness: 0 }
    }

    /// The effect has to be rendered exactly when some component is shifted.
    pub fn is_enabled(&self) -> (enabled: bool)
        ensures
            enabled == (*self != Self::neutral()),
    {
        !(self.hue == 0 && self.saturate == 0 && self.brightness == 0)
    }
}

impl Default for HSB {
    fn default() -> (shift: Self)
        ensures
            shift == Self::neutral(),
    {
        HSB { hue: 0, saturate: 0, brightness: 0 }
    }
}

} // verus!
