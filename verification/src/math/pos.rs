//! Pixel positions.

use vstd::prelude::*;

verus! {

/// Position of something on a bitmap, in pixels.
#[derive(Debug, Clone, Copy, PartialEq, Eq, Hash, Structural)]
pub struct Pos {
    pub x: i16,
    pub y: i16,
}

/// Shorthand constructor.
pub fn pos(x: i16, y: i16) -> (p: Pos)
    ensures
        p == (Pos { x, y }),
{
    Pos { x, y }
}

impl Pos {
    pub fn zero() -> (p: Pos)
        ensures
            p == (Pos { x: 0i16, y: 0i16 }),
    {
        Pos { x: 0, y: 0 }
    }

    /// Component-wise sum.
    pub fn add(self, rhs: Pos) -> (p: Pos)
        requires
            i16::MIN <= self.x + rhs.x <= i16::MAX,
            i16::MIN <= self.y + rhs.y <= i16::MAX,
        ensures
            p.x == self.x + rhs.x,
            p.y == self.y + rhs.y,
    {
        Pos { x: self.x + rhs.x, y: self.y + rhs.y }
    }

    /// Component-wise difference.
    pub fn sub(self, rhs: Pos) -> (p: Pos)
        requires
            i16::MIN <= self.x - rhs.x <= i16::MAX,
            i16::MIN <= self.y - rhs.y <= i16::MAX,
        ensures
            p.x == self.x - rhs.x,
            p.y == self.y - rhs.y,
    {
        Pos { x: self.x - rhs.x, y: self.y - rhs.y }
    }

    /// Both components scaled by `rhs`.
    pub fn mul(self, rhs: i16) -> (p: Pos)
        requires
            i16::MIN <= self.x * rhs <= i16::MAX,
            i16::MIN <= self.y * rhs <= i16::MAX,
        ensures
            p.x == self.x * rhs,
            p.y == self.y * rhs,
    {
        Pos { x: self.x * rhs, y: self.y * rhs }
    }
}

} // verus!
