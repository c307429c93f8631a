//! Packed ARGB colors and alpha-composition functions.
//!
//! An alpha-composition function is a pure pixel combinator `(src, dst) ->
//! result`. The closed set used by the renderer is captured by
//! [`AlphaComp`], so that draw commands can carry the choice as plain data.

use vstd::prelude::*;

verus! {

/// A color with 8-bit alpha, red, green and blue channels.
#[derive(Debug, Clone, Copy, PartialEq, Eq, Hash, Structural)]
pub struct Color {
    pub a: u8,
    pub r: u8,
    pub g: u8,
    pub b: u8,
}

/// What [`Color::from_hex`] returns: the four channels unpacked from a
/// `0xAARRGGBB` word.
pub open spec fn spec_from_hex(hex: u32) -> Color {
    Color {
        a: ((hex >> 24) & 0xff) as u8,
        r: ((hex >> 16) & 0xff) as u8,
        g: ((hex >> 8) & 0xff) as u8,
        b: (hex & 0xff) as u8,
    }
}

/// What [`Color::to_u32`] returns: the four channels packed into a
/// `0xAARRGGBB` word.
pub open spec fn spec_to_u32(c: Color) -> u32 {
    (((c.a as u32) << 24) | ((c.r as u32) << 16) | ((c.g as u32) << 8) | (c.b as u32)) as u32
}

impl Color {
    /// Fully transparent black: every channel zero.
    pub fn transparent() -> (c: Color)
        ensures
            c == (Color { a: 0u8, r: 0u8, g: 0u8, b: 0u8 }),
    {
        Color { a: 0, r: 0, g: 0, b: 0 }
    }

    /// Fully opaque white: every channel at its maximum.
    pub fn white() -> (c: Color)
        ensures
            c == (Color { a: 255u8, r: 255u8, g: 255u8, b: 255u8 }),
    {
        Color { a: 255, r: 255, g: 255, b: 255 }
    }

    /// Unpacks a `0xAARRGGBB` word.
    pub fn from_hex(hex: u32) -> (c: Color)
        ensures
            c == spec_from_hex(hex),
    {
        Color {
            a: ((hex >> 24) & 0xff) as u8,
            r: ((hex >> 16) & 0xff) as u8,
            g: ((hex >> 8) & 0xff) as u8,
            b: (hex & 0xff) as u8,
        }
    }

    /// Packs the channels into a `0xAARRGGBB` word.
    pub fn to_u32(self) -> (w: u32)
        ensures
            w == spec_to_u32(self),
    {
        ((self.a as u32) << 24) | ((self.r as u32) << 16) | ((self.g as u32) << 8) | (self.b as u32)
    }

    /// Channel-wise bitwise and, used by the renderer's color masks.
    pub fn band(self, rhs: Color) -> (c: Color)
        ensures
            c == spec_band(self, rhs),
    {
        Color { a: self.a & rhs.a, r: self.r & rhs.r, g: self.g & rhs.g, b: self.b & rhs.b }
    }

    /// Channel-wise bitwise or, used by the renderer's color masks.
    pub fn bor(self, rhs: Color) -> (c: Color)
        ensures
            c == spec_bor(self, rhs),
    {
        Color { a: self.a | rhs.a, r: self.r | rhs.r, g: self.g | rhs.g, b: self.b | rhs.b }
    }
}

pub open spec fn spec_band(x: Color, y: Color) -> Color {
    Color { a: x.a & y.a, r: x.r & y.r, g: x.g & y.g, b: x.b & y.b }
}

pub open spec fn spec_bor(x: Color, y: Color) -> Color {
    Color { a: x.a | y.a, r: x.r | y.r, g: x.g | y.g, b: x.b | y.b }
}

/// The color mask applied to a source pixel before compositing:
/// `(c & mask_and) | mask_or`.
pub open spec fn spec_masked(c: Color, mask_and: Color, mask_or: Color) -> Color {
    spec_bor(spec_band(c, mask_and), mask_or)
}

/// One channel of `src over dst` in straight alpha, with 8-bit fixed-point
/// weights: `(cs*sa + cd*(255 - sa)) / 255`, rounding down.
pub open spec fn spec_over_channel(sa: int, cs: int, cd: int) -> int {
    (cs * sa + cd * (255 - sa)) / 255
}

/// What [`over`] returns: every channel, the alpha channel included, is the
/// fixed-point convex combination of source and destination weighted by the
/// source alpha.
pub open spec fn spec_over(pixa: Color, pixb: Color) -> Color {
    Color {
        a: spec_over_channel(pixa.a as int, pixa.a as int, pixb.a as int) as u8,
        r: spec_over_channel(pixa.a as int, pixa.r as int, pixb.r as int) as u8,
        g: spec_over_channel(pixa.a as int, pixa.g as int, pixb.g as int) as u8,
        b: spec_over_channel(pixa.a as int, pixa.b as int, pixb.b as int) as u8,
    }
}

/// What [`add`] returns: channel-wise saturating sum.
pub open spec fn spec_add(pixa: Color, pixb: Color) -> Color {
    Color {
        a: sat_add_u8(pixa.a as int, pixb.a as int) as u8,
        r: sat_add_u8(pixa.r as int, pixb.r as int) as u8,
        g: sat_add_u8(pixa.g as int, pixb.g as int) as u8,
        b: sat_add_u8(pixa.b as int, pixb.b as int) as u8,
    }
}

pub open spec fn sat_add_u8(x: int, y: int) -> int {
    if x + y > 255 {
        255
    } else {
        x + y
    }
}

/// What [`xor`] returns: channel-wise bitwise exclusive or.
pub open spec fn spec_xor(pixa: Color, pixb: Color) -> Color {
    Color {
        a: pixa.a ^ pixb.a,
        r: pixa.r ^ pixb.r,
        g: pixa.g ^ pixb.g,
        b: pixa.b ^ pixb.b,
    }
}

/// One channel of the `over` blend, in executable form.
fn over_channel(sa: u8, cs: u8, cd: u8) -> (r: u8)
    ensures
        r as int == spec_over_channel(sa as int, cs as int, cd as int),
{
    proof {
        assert(0 <= cs as int * sa as int + cd as int * (255 - sa as int) <= 255 * 255) by (nonlinear_arith)
            requires
                0 <= sa as int <= 255,
                0 <= cs as int <= 255,
                0 <= cd as int <= 255,
        ;
    }
    ((cs as u32 * sa as u32 + cd as u32 * (255 - sa as u32)) / 255) as u8
}

/// Computes `A over B`: the standard straight-alpha blend. A fully opaque
/// source replaces the destination; a fully transparent source leaves it
/// unchanged.
pub fn over(pixa: Color, pixb: Color) -> (c: Color)
    ensures
        c == spec_over(pixa, pixb),
{
    Color {
        a: over_channel(pixa.a, pixa.a, pixb.a),
        r: over_channel(pixa.a, pixa.r, pixb.r),
        g: over_channel(pixa.a, pixa.g, pixb.g),
        b: over_channel(pixa.a, pixa.b, pixb.b),
    }
}

/// Computes `A + B` with per-channel saturation: channels never wrap.
pub fn add(pixa: Color, pixb: Color) -> (c: Color)
    ensures
        c == spec_add(pixa, pixb),
{
    Color {
        a: if pixa.a as u32 + pixb.a as u32 > 255 { 255 } else { pixa.a + pixb.a },
        r: if pixa.r as u32 + pixb.r as u32 > 255 { 255 } else { pixa.r + pixb.r },
        g: if pixa.g as u32 + pixb.g as u32 > 255 { 255 } else { pixa.g + pixb.g },
        b: if pixa.b as u32 + pixb.b as u32 > 255 { 255 } else { pixa.b + pixb.b },
    }
}

/// Computes `A xor B` per channel, used for toggle and mask effects.
pub fn xor(pixa: Color, pixb: Color) -> (c: Color)
    ensures
        c == spec_xor(pixa, pixb),
{
    Color {
        a: pixa.a ^ pixb.a,
        r: pixa.r ^ pixb.r,
        g: pixa.g ^ pixb.g,
        b: pixa.b ^ pixb.b,
    }
}

/// Computes `A`: pass the source through, whatever its alpha. This is how
/// `Clear` can zero a buffer, which `over` never could.
pub fn dst(pixa: Color, pixb: Color) -> (c: Color)
    ensures
        c == pixa,
{
    let _ = pixb;
    pixa
}

/// Computes `B`: keep the destination unchanged.
pub fn src(pixa: Color, pixb: Color) -> (c: Color)
    ensures
        c == pixb,
{
    let _ = pixa;
    pixb
}

/// The closed set of alpha-composition functions, carried as plain data in
/// draw commands and widget properties.
#[derive(Debug, Clone, Copy, PartialEq, Eq, Hash, Structural)]
pub enum AlphaComp {
    Over,
    Add,
    Xor,
    Dst,
    Src,
}

/// What [`AlphaComp::combine`] returns for each variant.
pub open spec fn spec_combine(acf: AlphaComp, pixa: Color, pixb: Color) -> Color {
    match acf {
        AlphaComp::Over => spec_over(pixa, pixb),
        AlphaComp::Add => spec_add(pixa, pixb),
        AlphaComp::Xor => spec_xor(pixa, pixb),
        AlphaComp::Dst => pixa,
        AlphaComp::Src => pixb,
    }
}

impl AlphaComp {
    /// Applies the selected composition function to a source and a
    /// destination color.
    pub fn combine(self, pixa: Color, pixb: Color) -> (c: Color)
        ensures
            c == spec_combine(self, pixa, pixb),
    {
        match self {
            AlphaComp::Over => over(pixa, pixb),
            AlphaComp::Add => crate::render::color::add(pixa, pixb),
            AlphaComp::Xor => xor(pixa, pixb),
            AlphaComp::Dst => dst(pixa, pixb),
            AlphaComp::Src => src(pixa, pixb),
        }
    }
}


/// A fully opaque source replaces the destination under `over`: with
/// source alpha 255, every channel of the result is the source channel.
pub proof fn lemma_over_opaque(pixa: Color, pixb: Color)
    requires
        pixa.a == 255,
    ensures
        spec_over(pixa, pixb) == pixa,
{
    assert forall|cs: int, cd: int| 0 <= cs <= 255 && 0 <= cd <= 255 implies #[trigger]
        spec_over_channel(255, cs, cd) == cs by {
        assert((cs * 255 + cd * (255 - 255)) / 255 == cs) by (nonlinear_arith)
            requires
                0 <= cs <= 255,
                0 <= cd <= 255,
        ;
    }
}

/// A fully transparent source leaves the destination unchanged under
/// `over`.
pub proof fn lemma_over_transparent(pixa: Color, pixb: Color)
    requires
        pixa.a == 0,
    ensures
        spec_over(pixa, pixb) == pixb,
{
    assert forall|cs: int, cd: int| 0 <= cs <= 255 && 0 <= cd <= 255 implies #[trigger]
        spec_over_channel(0, cs, cd) == cd by {
        assert((cs * 0 + cd * (255 - 0)) / 255 == cd) by (nonlinear_arith)
            requires
                0 <= cs <= 255,
                0 <= cd <= 255,
        ;
    }
}

/// `add` saturates: every channel is the smaller of 255 and the plain
/// sum, so channels never wrap.
pub proof fn lemma_add_saturates(pixa: Color, pixb: Color)
    ensures
        spec_add(pixa, pixb).a as int == min_255(pixa.a as int + pixb.a as int),
        spec_add(pixa, pixb).r as int == min_255(pixa.r as int + pixb.r as int),
        spec_add(pixa, pixb).g as int == min_255(pixa.g as int + pixb.g as int),
        spec_add(pixa, pixb).b as int == min_255(pixa.b as int + pixb.b as int),
        spec_add(pixa, pixb).r <= 255,
{
}

/// The smaller of 255 and a sum.
pub open spec fn min_255(v: int) -> int {
    if v > 255 {
        255
    } else {
        v
    }
}

} // verus!

