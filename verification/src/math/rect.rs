//! Rectangles with a position and a size.

use vstd::prelude::*;

use crate::math::pos::Pos;
use crate::math::size::Size;

verus! {

/// A rectangle with a signed position and an unsigned size.
#[derive(Debug, Clone, Copy, PartialEq, Eq, Hash, Structural)]
pub struct Rect {
    pub x: i16,
    pub y: i16,
    pub w: u16,
    pub h: u16,
}

impl Rect {
    pub fn zero() -> (r: Rect)
        ensures
            r == (Rect { x: 0i16, y: 0i16, w: 0u16, h: 0u16 }),
    {
        Rect { x: 0, y: 0, w: 0, h: 0 }
    }

    pub fn from_xywh(x: i16, y: i16, w: u16, h: u16) -> (r: Rect)
        ensures
            r == (Rect { x, y, w, h }),
    {
        Rect { x, y, w, h }
    }

    pub fn from_pos_size(pos: Pos, size: Size) -> (r: Rect)
        ensures
            r == (Rect { x: pos.x, y: pos.y, w: size.w, h: size.h }),
    {
        Rect { x: pos.x, y: pos.y, w: size.w, h: size.h }
    }

    pub fn pos(&self) -> (p: Pos)
        ensures
            p == (Pos { x: self.x, y: self.y }),
    {
        Pos { x: self.x, y: self.y }
    }

    pub fn size(&self) -> (s: Size)
        ensures
            s == (Size { w: self.w, h: self.h }),
    {
        Size { w: self.w, h: self.h }
    }

    /// Whether the point `(px, py)` lies inside the rectangle, with the
    /// usual half-open convention: the left and top edges are inside, the
    /// right and bottom edges are not.
    pub fn contains(&self, px: i16, py: i16) -> (r: bool)
        ensures
            r == self.spec_contains(px as int, py as int),
    {
        (self.x as i32 <= px as i32 && (px as i32) < self.x as i32 + self.w as i32)
            && (self.y as i32 <= py as i32 && (py as i32) < self.y as i32 + self.h as i32)
    }

    pub open spec fn spec_contains(self, px: int, py: int) -> bool {
        &&& self.x as int <= px < self.x as int + self.w as int
        &&& self.y as int <= py < self.y as int + self.h as int
    }
}

} // verus!
