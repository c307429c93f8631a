//! Integer geometry for the renderer and the layout solver.

use vstd::prelude::*;

use crate::math::pos::Pos;
use crate::math::rect::Rect;
use crate::ui::Anchor;

pub mod pos;
pub mod rect;
pub mod size;

verus! {

/// Clamps a mathematical integer into the `i16` range.
pub open spec fn clamp_i16(v: int) -> int {
    if v < i16::MIN as int {
        i16::MIN as int
    } else if v > i16::MAX as int {
        i16::MAX as int
    } else {
        v
    }
}

/// The top-left x coordinate of a rectangle of width `w` whose origin point
/// (at fraction `frac / 256` of the width) sits at `x`.
pub open spec fn spec_origin_shift(x: int, w: int, frac: int) -> int {
    clamp_i16(x - (w * frac) / 256)
}

/// The coordinate at fraction `frac / 256` across a span starting at `x`
/// with length `w`.
pub open spec fn spec_anchor_coord(x: int, w: int, frac: int) -> int {
    clamp_i16(x + (w * frac) / 256)
}

/// The product of two 16-bit magnitudes, computed wide enough to never
/// overflow.
fn mul_u16(a: u16, b: u16) -> (r: i64)
    ensures
        r == a as int * b as int,
        0 <= r <= 0xffff_ffff,
{
    proof {
        assert(0 <= a as int * b as int <= 0xffff_ffff) by (nonlinear_arith)
            requires
                0 <= a as int <= 0xffff,
                0 <= b as int <= 0xffff,
        ;
    }
    a as i64 * b as i64
}

/// Saturating cast of a mathematical integer into `i16`.
pub(crate) fn clamp_to_i16(v: i64) -> (r: i16)
    ensures
        r as int == clamp_i16(v as int),
{
    if v < i16::MIN as i64 {
        i16::MIN
    } else if v > i16::MAX as i64 {
        i16::MAX
    } else {
        v as i16
    }
}

/// A rectangle together with the fractional origin point used to place it.
///
/// `origin` gives, in units of 1/256 of the rectangle's own size, the point
/// of the rectangle that `rect.x`/`rect.y` refer to, so that a widget can be
/// positioned by its centre or a corner other than the top-left one.
#[derive(Debug, Clone, Copy)]
pub struct LayoutRect {
    pub rect: Rect,
    pub origin: Anchor,
}

impl LayoutRect {
    pub fn new(rect: Rect, origin: Anchor) -> (r: LayoutRect)
        ensures
            r == (LayoutRect { rect, origin }),
    {
        LayoutRect { rect, origin }
    }

    /// Where the top-left corner lands once the origin point is honoured.
    pub fn top_left(&self) -> (p: Pos)
        ensures
            p.x as int == spec_origin_shift(self.rect.x as int, self.rect.w as int, self.origin.x as int),
            p.y as int == spec_origin_shift(self.rect.y as int, self.rect.h as int, self.origin.y as int),
    {
        let x = clamp_to_i16(self.rect.x as i64 - mul_u16(self.rect.w, self.origin.x) / 256);
        let y = clamp_to_i16(self.rect.y as i64 - mul_u16(self.rect.h, self.origin.y) / 256);
        Pos { x, y }
    }

    /// The centre of the placed rectangle.
    pub fn center_of_rect(&self) -> (p: Pos)
        ensures
            p.x as int == clamp_i16(spec_origin_shift(self.rect.x as int, self.rect.w as int, self.origin.x as int)
                + self.rect.w as int / 2),
            p.y as int == clamp_i16(spec_origin_shift(self.rect.y as int, self.rect.h as int, self.origin.y as int)
                + self.rect.h as int / 2),
    {
        let tl = self.top_left();
        let x = clamp_to_i16(tl.x as i64 + (self.rect.w / 2) as i64);
        let y = clamp_to_i16(tl.y as i64 + (self.rect.h / 2) as i64);
        Pos { x, y }
    }

    /// The point at fraction `anchor / 256` across the placed rectangle.
    pub fn anchor(&self, anchor: Anchor) -> (p: Pos)
        ensures
            p.x as int == spec_anchor_coord(
                spec_origin_shift(self.rect.x as int, self.rect.w as int, self.origin.x as int),
                self.rect.w as int,
                anchor.x as int,
            ),
            p.y as int == spec_anchor_coord(
                spec_origin_shift(self.rect.y as int, self.rect.h as int, self.origin.y as int),
                self.rect.h as int,
                anchor.y as int,
            ),
    {
        let tl = self.top_left();
        let x = clamp_to_i16(tl.x as i64 + mul_u16(self.rect.w, anchor.x) / 256);
        let y = clamp_to_i16(tl.y as i64 + mul_u16(self.rect.h, anchor.y) / 256);
        Pos { x, y }
    }

    /// The rectangle as placed: same size, top-left corner shifted by the
    /// origin point.
    pub fn to_rect(&self) -> (r: Rect)
        ensures
            r.x as int == spec_origin_shift(self.rect.x as int, self.rect.w as int, self.origin.x as int),
            r.y as int == spec_origin_shift(self.rect.y as int, self.rect.h as int, self.origin.y as int),
            r.w == self.rect.w,
            r.h == self.rect.h,
    {
        let tl = self.top_left();
        Rect { x: tl.x, y: tl.y, w: self.rect.w, h: self.rect.h }
    }
}

} // verus!
