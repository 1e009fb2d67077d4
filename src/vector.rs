//! Integer grid displacements.

use vstd::prelude::*;

verus! {

/// A displacement on the grid, x to the right and y upwards.
#[derive(Clone, Copy, PartialEq, Eq, Structural, Hash, Debug)]
pub struct V {
    pub x: i8,
    pub y: i8,
}

impl Default for V {
    fn default() -> (r: Self)
        ensures
            r.x == 0,
            r.y == 0,
    {
        V { x: 0, y: 0 }
    }
}

impl V {
    /// Component-wise sum; both components must stay in the range of `i8`.
    pub fn add(self, rhs: V) -> (r: V)
        requires
            i8::MIN <= self.x + rhs.x <= i8::MAX,
            i8::MIN <= self.y + rhs.y <= i8::MAX,
        ensures
            r.x == self.x + rhs.x,
            r.y == self.y + rhs.y,
    {
        V { x: self.x + rhs.x, y: self.y + rhs.y }
    }

    /// Component-wise difference; both components must stay in the range of `i8`.
    pub fn sub(self, rhs: V) -> (r: V)
        requires
            i8::MIN <= self.x - rhs.x <= i8::MAX,
            i8::MIN <= self.y - rhs.y <= i8::MAX,
        ensures
            r.x == self.x - rhs.x,
            r.y == self.y - rhs.y,
    {
        V { x: self.x - rhs.x, y: self.y - rhs.y }
    }
}

} // verus!
