use vstd::prelude::*;

verus! {

/// Colour balance: the weight of each channel, where 255 leaves a channel untouched.
#[derive(Clone, Copy, Debug, PartialEq, Eq, Structural)]
pub struct ColorBalance {
    /// R channel
    pub r: u8,
    /// G channel
    pub g: u8,
    /// B channel
    pub b: u8,
}

impl ColorBalance {
    /// The balance that changes nothing: every channel at full weight.
    pub open spec fn neutral() -> ColorBalance {
        ColorBalance { r: 255, g: 255, b: 255 }
    }

    /// The effect has to be rendered exactly when some channel is below full weight.
    pub fn is_enabled(&self) -> (enabled: bool)
        ensures
            enabled == (*self != Self::neutral()),
    {
        self.r != 255 || self.g != 255 || self.b != 255
    }
}

impl Default for ColorBalance {
    fn default() -> (balance: Self)
        ensures
            balance == Self::neutral(),
    {
        ColorBalance { r: 255, g: 255, b: 255 }
    }
}

/// `c` is one of `a`, `b`, `x` and lies between the other two: the median of the three.
pub open spec fn is_median(c: u8, a: u8, b: u8, x: u8) -> bool {
    ||| (c == a && ((b <= c && c <= x) || (x <= c && c <= b)))
    ||| (c == b && ((a <= c && c <= x) || (x <= c && c <= a)))
    ||| (c == x && ((a <= c && c <= b) || (b <= c && c <= a)))
}

/// The channel weight the balance is measured against: the median of the three
/// channels. The shader shifts each channel by its distance from this value.
pub fn balance_center(balance: &ColorBalance) -> (center: u8)
    ensures
        is_median(center, balance.r, balance.g, balance.b),
{
    let lo = if balance.r < balance.g {
        balance.r
    } else {
        balance.g
    };
    let hi = if balance.r < balance.g {
        balance.g
    } else {
        balance.r
    };
    let capped = if hi < balance.b {
        hi
    } else {
        balance.b
    };
    if lo < capped {
        capped
    } else {
        lo
    }
}

} // verus!
