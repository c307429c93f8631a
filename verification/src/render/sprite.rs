//! Sprites: rectangular regions of a spritesheet, and nine-slicing for
//! stretch-safe bordered boxes.

use vstd::prelude::*;

use crate::math::rect::Rect;

verus! {

/// A sprite: where it is located in its spritesheet.
#[derive(Debug, Clone, Copy, PartialEq, Eq, Hash, Structural)]
pub struct Sprite {
    pub rect: Rect,
}

impl Sprite {
    pub fn new(rect: Rect) -> (s: Sprite)
        ensures
            s == (Sprite { rect }),
    {
        Sprite { rect }
    }
}

/// One of the nine regions of a nine-sliced sprite.
#[derive(Debug, Clone, Copy, PartialEq, Eq, Hash, Structural)]
pub enum NineSlicePart {
    TopLeft,
    TopCenter,
    TopRight,
    CenterLeft,
    Center,
    CenterRight,
    BottomLeft,
    BottomCenter,
    BottomRight,
}

/// A sprite partitioned into nine regions by two vertical and two
/// horizontal guide bars, so that the corners stay fixed while the edges
/// and the centre tile when the sprite is stretched.
///
/// All four guide offsets are measured from the top-left corner of the
/// sprite. Guides outside the sprite rectangle are clamped, which yields
/// zero-sized regions that the renderer skips.
#[derive(Debug, Clone, Copy, PartialEq, Eq, Hash, Structural)]
pub struct NineSlicingSprite {
    pub sprite: Sprite,
    /// Position of the left vertical bar.
    pub vl: u16,
    /// Position of the right vertical bar.
    pub vr: u16,
    /// Position of the top horizontal bar.
    pub ht: u16,
    /// Position of the bottom horizontal bar.
    pub hb: u16,
}

pub open spec fn min_u16(a: int, b: int) -> int {
    if a < b {
        a
    } else {
        b
    }
}

/// The left guide, clamped into the sprite width.
pub open spec fn spec_vl(nss: NineSlicingSprite) -> int {
    min_u16(nss.vl as int, nss.sprite.rect.w as int)
}

/// The right guide, clamped between the left guide and the sprite width.
pub open spec fn spec_vr(nss: NineSlicingSprite) -> int {
    let c = min_u16(nss.vr as int, nss.sprite.rect.w as int);
    if c < spec_vl(nss) {
        spec_vl(nss)
    } else {
        c
    }
}

/// The top guide, clamped into the sprite height.
pub open spec fn spec_ht(nss: NineSlicingSprite) -> int {
    min_u16(nss.ht as int, nss.sprite.rect.h as int)
}

/// The bottom guide, clamped between the top guide and the sprite height.
pub open spec fn spec_hb(nss: NineSlicingSprite) -> int {
    let c = min_u16(nss.hb as int, nss.sprite.rect.h as int);
    if c < spec_ht(nss) {
        spec_ht(nss)
    } else {
        c
    }
}

/// The source rectangle of one of the nine regions, after guide clamping.
pub open spec fn spec_slice(nss: NineSlicingSprite, part: NineSlicePart) -> Rect {
    let x = nss.sprite.rect.x as int;
    let y = nss.sprite.rect.y as int;
    let w = nss.sprite.rect.w as int;
    let h = nss.sprite.rect.h as int;
    let vl = spec_vl(nss);
    let vr = spec_vr(nss);
    let ht = spec_ht(nss);
    let hb = spec_hb(nss);
    let (cx, cw) = match part {
        NineSlicePart::TopLeft | NineSlicePart::CenterLeft | NineSlicePart::BottomLeft => (x, vl),
        NineSlicePart::TopCenter | NineSlicePart::Center | NineSlicePart::BottomCenter => (
            x + vl,
            vr - vl,
        ),
        NineSlicePart::TopRight | NineSlicePart::CenterRight | NineSlicePart::BottomRight => (
            x + vr,
            w - vr,
        ),
    };
    let (cy, ch) = match part {
        NineSlicePart::TopLeft | NineSlicePart::TopCenter | NineSlicePart::TopRight => (y, ht),
        NineSlicePart::CenterLeft | NineSlicePart::Center | NineSlicePart::CenterRight => (
            y + ht,
            hb - ht,
        ),
        NineSlicePart::BottomLeft | NineSlicePart::BottomCenter | NineSlicePart::BottomRight => (
            y + hb,
            h - hb,
        ),
    };
    Rect { x: cx as i16, y: cy as i16, w: cw as u16, h: ch as u16 }
}

impl NineSlicingSprite {
    pub fn new(rect: Rect, vl: u16, vr: u16, ht: u16, hb: u16) -> (s: NineSlicingSprite)
        ensures
            s == (NineSlicingSprite { sprite: Sprite { rect }, vl, vr, ht, hb }),
    {
        NineSlicingSprite { sprite: Sprite { rect }, vl, vr, ht, hb }
    }

    /// Clamped left guide, in executable form.
    fn vl_clamped(&self) -> (r: u16)
        ensures
            r as int == spec_vl(*self),
    {
        if self.vl < self.sprite.rect.w {
            self.vl
        } else {
            self.sprite.rect.w
        }
    }

    /// Clamped right guide, in executable form.
    fn vr_clamped(&self) -> (r: u16)
        ensures
            r as int == spec_vr(*self),
    {
        let vl = self.vl_clamped();
        let c = if self.vr < self.sprite.rect.w {
            self.vr
        } else {
            self.sprite.rect.w
        };
        if c < vl {
            vl
        } else {
            c
        }
    }

    /// Clamped top guide, in executable form.
    fn ht_clamped(&self) -> (r: u16)
        ensures
            r as int == spec_ht(*self),
    {
        if self.ht < self.sprite.rect.h {
            self.ht
        } else {
            self.sprite.rect.h
        }
    }

    /// Clamped bottom guide, in executable form.
    fn hb_clamped(&self) -> (r: u16)
        ensures
            r as int == spec_hb(*self),
    {
        let ht = self.ht_clamped();
        let c = if self.hb < self.sprite.rect.h {
            self.hb
        } else {
            self.sprite.rect.h
        };
        if c < ht {
            ht
        } else {
            c
        }
    }

    /// Cuts out one of the nine regions.
    ///
    /// Requires only that the sprite rectangle itself fits in coordinate
    /// range; guides that lie outside it are clamped, so malformed guides
    /// degrade to zero-sized regions instead of failing.
    pub fn slice(&self, part: NineSlicePart) -> (s: Sprite)
        requires
            self.sprite.rect.x as int + self.sprite.rect.w as int <= i16::MAX as int,
            self.sprite.rect.y as int + self.sprite.rect.h as int <= i16::MAX as int,
        ensures
            s.rect == spec_slice(*self, part),
    {
        let x = self.sprite.rect.x;
        let y = self.sprite.rect.y;
        let w = self.sprite.rect.w;
        let h = self.sprite.rect.h;
        let vl = self.vl_clamped();
        let vr = self.vr_clamped();
        let ht = self.ht_clamped();
        let hb = self.hb_clamped();
        let (cx, cw): (i16, u16) = match part {
            NineSlicePart::TopLeft | NineSlicePart::CenterLeft | NineSlicePart::BottomLeft => (
                x,
                vl,
            ),
            NineSlicePart::TopCenter | NineSlicePart::Center | NineSlicePart::BottomCenter => (
                (x as i32 + vl as i32) as i16,
                vr - vl,
            ),
            NineSlicePart::TopRight | NineSlicePart::CenterRight | NineSlicePart::BottomRight => (
                (x as i32 + vr as i32) as i16,
                w - vr,
            ),
        };
        let (cy, ch): (i16, u16) = match part {
            NineSlicePart::TopLeft | NineSlicePart::TopCenter | NineSlicePart::TopRight => (y, ht),
            NineSlicePart::CenterLeft | NineSlicePart::Center | NineSlicePart::CenterRight => (
                (y as i32 + ht as i32) as i16,
                hb - ht,
            ),
            NineSlicePart::BottomLeft | NineSlicePart::BottomCenter | NineSlicePart::BottomRight => (
                (y as i32 + hb as i32) as i16,
                h - hb,
            ),
        };
        Sprite { rect: Rect { x: cx, y: cy, w: cw, h: ch } }
    }
}

} // verus!
