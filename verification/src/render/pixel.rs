//! A second packed-ARGB pixel type with its own composition functions,
//! kept alongside [`crate::render::color`] for callers that work directly
//! on pixel values.

use vstd::prelude::*;

verus! {

/// A pixel with 8-bit alpha, red, green and blue channels.
#[derive(Debug, Clone, Copy, PartialEq, Eq, Hash, Structural)]
pub struct Pixel {
    pub a: u8,
    pub r: u8,
    pub g: u8,
    pub b: u8,
}

/// What [`Pixel::from_hex`] returns: the four channels unpacked from a
/// `0xAARRGGBB` word.
pub open spec fn spec_pixel_from_hex(hex: u32) -> Pixel {
    Pixel {
        a: ((hex >> 24) & 0xff) as u8,
        r: ((hex >> 16) & 0xff) as u8,
        g: ((hex >> 8) & 0xff) as u8,
        b: (hex & 0xff) as u8,
    }
}

/// What [`Pixel::to_u32`] returns: the four channels packed into a
/// `0xAARRGGBB` word.
pub open spec fn spec_pixel_to_u32(p: Pixel) -> u32 {
    (((p.a as u32) << 24) | ((p.r as u32) << 16) | ((p.g as u32) << 8) | (p.b as u32)) as u32
}

impl Pixel {
    pub fn zero() -> (p: Pixel)
        ensures
            p == (Pixel { a: 0u8, r: 0u8, g: 0u8, b: 0u8 }),
    {
        Pixel { a: 0, r: 0, g: 0, b: 0 }
    }

    pub fn new(a: u8, r: u8, g: u8, b: u8) -> (p: Pixel)
        ensures
            p == (Pixel { a, r, g, b }),
    {
        Pixel { a, r, g, b }
    }

    /// Unpacks a `0xAARRGGBB` word.
    pub fn from_hex(hex: u32) -> (p: Pixel)
        ensures
            p == spec_pixel_from_hex(hex),
    {
        Pixel {
            a: ((hex >> 24) & 0xff) as u8,
            r: ((hex >> 16) & 0xff) as u8,
            g: ((hex >> 8) & 0xff) as u8,
            b: (hex & 0xff) as u8,
        }
    }

    /// Packs the channels into a `0xAARRGGBB` word.
    pub fn to_u32(self) -> (w: u32)
        ensures
            w == spec_pixel_to_u32(self),
    {
        ((self.a as u32) << 24) | ((self.r as u32) << 16) | ((self.g as u32) << 8) | (self.b as u32)
    }
}

/// One channel of `src over dst`, as in
/// [`crate::render::color::spec_over_channel`].
pub open spec fn spec_pixel_over_channel(sa: int, cs: int, cd: int) -> int {
    (cs * sa + cd * (255 - sa)) / 255
}

/// What [`over`] returns.
pub open spec fn spec_pixel_over(pixa: Pixel, pixb: Pixel) -> Pixel {
    Pixel {
        a: spec_pixel_over_channel(pixa.a as int, pixa.a as int, pixb.a as int) as u8,
        r: spec_pixel_over_channel(pixa.a as int, pixa.r as int, pixb.r as int) as u8,
        g: spec_pixel_over_channel(pixa.a as int, pixa.g as int, pixb.g as int) as u8,
        b: spec_pixel_over_channel(pixa.a as int, pixa.b as int, pixb.b as int) as u8,
    }
}

/// What [`add`] returns: channel-wise saturating sum.
pub open spec fn spec_pixel_add(pixa: Pixel, pixb: Pixel) -> Pixel {
    Pixel {
        a: crate::render::color::sat_add_u8(pixa.a as int, pixb.a as int) as u8,
        r: crate::render::color::sat_add_u8(pixa.r as int, pixb.r as int) as u8,
        g: crate::render::color::sat_add_u8(pixa.g as int, pixb.g as int) as u8,
        b: crate::render::color::sat_add_u8(pixa.b as int, pixb.b as int) as u8,
    }
}

/// One channel of the `over` blend, in executable form.
fn pixel_over_channel(sa: u8, cs: u8, cd: u8) -> (r: u8)
    ensures
        r as int == spec_pixel_over_channel(sa as int, cs as int, cd as int),
{
    proof {
        assert(0 <= cs as int * sa as int + cd as int * (255 - sa as int) <= 255 * 255) by (nonlinear_arith)
            requires
                0 <= sa as int <= 255,
                0 <= cs as int <= 255,
                0 <= cd as int <= 255,
        ;
    }
    ((cs as u32 * sa as u32 + cd as u32 * (255 - sa as u32)) / 255) as u8
}

/// Computes `A over B`: the standard straight-alpha blend.
pub fn over(pixa: Pixel, pixb: Pixel) -> (p: Pixel)
    ensures
        p == spec_pixel_over(pixa, pixb),
{
    Pixel {
        a: pixel_over_channel(pixa.a, pixa.a, pixb.a),
        r: pixel_over_channel(pixa.a, pixa.r, pixb.r),
        g: pixel_over_channel(pixa.a, pixa.g, pixb.g),
        b: pixel_over_channel(pixa.a, pixa.b, pixb.b),
    }
}

/// Computes `A + B` with per-channel saturation: channels never wrap.
pub fn add(pixa: Pixel, pixb: Pixel) -> (p: Pixel)
    ensures
        p == spec_pixel_add(pixa, pixb),
{
    Pixel {
        a: if pixa.a as u32 + pixb.a as u32 > 255 { 255 } else { pixa.a + pixb.a },
        r: if pixa.r as u32 + pixb.r as u32 > 255 { 255 } else { pixa.r + pixb.r },
        g: if pixa.g as u32 + pixb.g as u32 > 255 { 255 } else { pixa.g + pixb.g },
        b: if pixa.b as u32 + pixb.b as u32 > 255 { 255 } else { pixa.b + pixb.b },
    }
}

/// Computes `A`: pass the source through.
pub fn dst(pixa: Pixel, pixb: Pixel) -> (p: Pixel)
    ensures
        p == pixa,
{
    let _ = pixb;
    pixa
}

/// Computes `B`: keep the destination.
pub fn src(pixa: Pixel, pixb: Pixel) -> (p: Pixel)
    ensures
        p == pixb,
{
    let _ = pixa;
    pixb
}

} // verus!
