//! Whole wheel deltas, in Win32 units and the Win32 sign convention.

use vstd::prelude::*;

verus! {

/// One notch of a physical mouse wheel, as Win32 defines it.
pub const WHEEL_DELTA: i32 = 120;

/// Whole wheel deltas ready to inject.
#[derive(Debug, Clone, Copy, PartialEq, Eq, Structural)]
pub struct WheelDelta {
    /// Horizontal, positive to the right.
    pub x: i32,
    /// Vertical, positive away from the user (scroll up).
    pub y: i32,
}

impl WheelDelta {
    pub fn is_zero(&self) -> (r: bool)
        ensures
            r == (self.x == 0 && self.y == 0),
    {
        self.x == 0 && self.y == 0
    }
}

} // verus!
