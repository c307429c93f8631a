//! Rectangle sizes.

use vstd::prelude::*;

verus! {

/// Size of a rectangle, in pixels.
#[derive(Debug, Clone, Copy, PartialEq, Eq, Hash, Structural)]
pub struct Size {
    pub w: u16,
    pub h: u16,
}

/// Shorthand constructor.
pub fn size(w: u16, h: u16) -> (s: Size)
    ensures
        s == (Size { w, h }),
{
    Size { w, h }
}

impl Size {
    pub fn zero() -> (s: Size)
        ensures
            s == (Size { w: 0u16, h: 0u16 }),
    {
        Size { w: 0, h: 0 }
    }

    /// Component-wise sum.
    pub fn add(self, rhs: Size) -> (s: Size)
        requires
            self.w + rhs.w <= u16::MAX,
            self.h + rhs.h <= u16::MAX,
        ensures
            s.w == self.w + rhs.w,
            s.h == self.h + rhs.h,
    {
        Size { w: self.w + rhs.w, h: self.h + rhs.h }
    }

    /// Component-wise difference.
    pub fn sub(self, rhs: Size) -> (s: Size)
        requires
            rhs.w <= self.w,
            rhs.h <= self.h,
        ensures
            s.w == self.w - rhs.w,
            s.h == self.h - rhs.h,
    {
        Size { w: self.w - rhs.w, h: self.h - rhs.h }
    }

    /// Both components scaled by `rhs`.
    pub fn mul(self, rhs: u16) -> (s: Size)
        requires
            self.w * rhs <= u16::MAX,
            self.h * rhs <= u16::MAX,
        ensures
            s.w == self.w * rhs,
            s.h == self.h * rhs,
    {
        Size { w: self.w * rhs, h: self.h * rhs }
    }

    /// Both components divided by `rhs`, rounding down.
    pub fn div(self, rhs: u16) -> (s: Size)
        requires
            rhs > 0,
        ensures
            s.w == self.w as int / rhs as int,
            s.h == self.h as int / rhs as int,
    {
        Size { w: self.w / rhs, h: self.h / rhs }
    }
}

} // verus!
