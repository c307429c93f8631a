//! The layered renderer: a draw-command list interpreted against a stack of
//! equally-sized layer buffers.
//!
//! Buffer 0 is the visible surface; buffers above it are scratch layers
//! opened by `BeginComposite` and blended down by `EndComposite`, which is
//! what makes grouped composite effects (masking, group opacity) possible.
//! The whole interpretation is specified as a fold of [`spec_step`] over
//! the command list.

use vstd::prelude::*;
use vstd::assert_seqs_equal;

use crate::math::pos::Pos;
use crate::math::rect::Rect;
use crate::math::size::Size;
use crate::render::ascii_sheet::{ascii_char_to_sprite, spec_ascii_char_to_sprite, AsciiSheet};
use crate::render::bitmap::{
    spec_copy_area, spec_copy_area_rotated, spec_copy_full, spec_fill, spec_fill_area, Bitmap,
};
use crate::render::color::{AlphaComp, Color};
use crate::render::sprite::{NineSlicingSprite, Sprite};

pub mod ascii_sheet;
pub mod bitmap;
pub mod color;
pub mod pixel;
pub mod sprite;

verus! {

/// A quarter-turn rotation applied when blitting a sprite.
#[derive(Debug, Clone, Copy, PartialEq, Eq, Structural)]
pub enum Rotate {
    R0,
    R90,
    R180,
    R270,
}

/// Identifies a spritesheet registered with the [`Renderer`].
#[derive(Debug, Clone, Copy, PartialEq, Eq, Hash, Structural)]
pub struct SpritesheetId(pub usize);

/// A piece of measured text: the bytes to draw and the pixel size the
/// glyphs will cover.
#[derive(Debug, Clone, PartialEq, Eq)]
pub struct Text {
    text: Vec<u8>,
    size: Size,
}

impl Text {
    /// The measured bytes.
    pub fn text(&self) -> (r: &Vec<u8>)
        ensures
            r@ == self.spec_text(),
    {
        &self.text
    }

    /// The measured pixel size.
    pub fn size(&self) -> (s: Size)
        ensures
            s == self.spec_size(),
    {
        self.size
    }

    pub closed spec fn spec_text(&self) -> Seq<u8> {
        self.text@
    }

    pub closed spec fn spec_size(&self) -> Size {
        self.size
    }

    /// The size is always the one the measurement function gives.
    pub open spec fn wf(&self, sheet: AsciiSheet) -> bool {
        self.spec_size() == spec_text_size(self.spec_text(), sheet)
    }
}

/// Saturating u16 sum, used when accumulating glyph widths.
pub open spec fn sat_add_u16(x: int, y: int) -> int {
    if x + y > u16::MAX as int {
        u16::MAX as int
    } else {
        x + y
    }
}

/// The measured size of a run of text: glyph widths plus one pixel of
/// spacing between glyphs, and the height of the tallest glyph.
pub open spec fn spec_text_size(bytes: Seq<u8>, sheet: AsciiSheet) -> Size
    decreases bytes.len(),
{
    if bytes.len() == 0 {
        Size { w: 0u16, h: 0u16 }
    } else {
        let prev = spec_text_size(bytes.drop_last(), sheet);
        let g = spec_ascii_char_to_sprite(bytes.last(), sheet).rect;
        let w1 = if prev.w == 0 {
            prev.w as int
        } else {
            sat_add_u16(prev.w as int, 1)
        };
        let w2 = sat_add_u16(w1, g.w as int);
        let h2 = if g.h > prev.h {
            g.h as int
        } else {
            prev.h as int
        };
        Size { w: w2 as u16, h: h2 as u16 }
    }
}

/// The stack of layer buffers. All layers share one size; layers above the
/// first are allocated lazily and reused, never shrunk.
pub struct FramebufferStack {
    size: Size,
    fbs: Vec<Bitmap>,
}

/// `layers` extended with transparent layers of `npix` pixels until it has
/// at least `n` entries.
pub open spec fn spec_pad_layers(layers: Seq<Seq<u32>>, n: int, npix: int) -> Seq<Seq<u32>> {
    if layers.len() >= n {
        layers
    } else {
        layers + Seq::new(
            (n - layers.len()) as nat,
            |i: int| Seq::new(npix as nat, |j: int| 0u32),
        )
    }
}

impl FramebufferStack {
    /// The pixel contents of every layer, bottom first.
    pub closed spec fn layers(&self) -> Seq<Seq<u32>> {
        self.fbs@.map_values(|b: Bitmap| b@)
    }

    pub closed spec fn spec_size(&self) -> Size {
        self.size
    }

    /// The number of pixels in every layer.
    pub open spec fn npix(&self) -> int {
        self.spec_size().w as int * self.spec_size().h as int
    }

    /// There is at least the visible layer, and all layers have the same
    /// size.
    pub closed spec fn wf(&self) -> bool {
        &&& self.fbs@.len() >= 1
        &&& forall|i: int|
            0 <= i < self.fbs@.len() ==> (#[trigger] self.fbs@[i]).wf() && self.fbs@[i].spec_size()
                == self.size
    }

    pub fn new(framebuffer: Bitmap) -> (s: FramebufferStack)
        requires
            framebuffer.wf(),
        ensures
            s.wf(),
            s.spec_size() == framebuffer.spec_size(),
            s.layers() =~= seq![framebuffer@],
    {
        let size = framebuffer.size();
        let mut fbs: Vec<Bitmap> = Vec::new();
        fbs.push(framebuffer);
        let s = FramebufferStack { size, fbs };
        proof {
            assert_seqs_equal!(s.layers() == seq![framebuffer@]);
        }
        s
    }

    /// Allocates transparent layers until layer `zindex` exists.
    fn push_fbs(&mut self, zindex: usize)
        requires
            old(self).wf(),
        ensures
            final(self).wf(),
            final(self).spec_size() == old(self).spec_size(),
            final(self).layers() =~= spec_pad_layers(
                old(self).layers(),
                zindex as int + 1,
                old(self).npix(),
            ),
            final(self).layers().len() > zindex as int,
    {
        while zindex >= self.fbs.len()
            invariant
                self.wf(),
                self.size == old(self).spec_size(),
                self.fbs@.len() >= old(self).fbs@.len(),
                forall|i: int|
                    0 <= i < old(self).fbs@.len() ==> self.fbs@[i] == old(self).fbs@[i],
                forall|i: int|
                    old(self).fbs@.len() <= i < self.fbs@.len() ==> (#[trigger] self.fbs@[i])@
                        =~= Seq::new(old(self).npix() as nat, |j: int| 0u32),
                self.fbs@.len() == old(self).fbs@.len() || self.fbs@.len() <= zindex as int + 1,
            decreases zindex as int - self.fbs@.len() + 1,
        {
            let b = Bitmap::new(self.size);
            self.fbs.push(b);
        }
        proof {
            assert_seqs_equal!(self.layers() == spec_pad_layers(
                old(self).layers(), zindex as int + 1, old(self).npix()));
        }
    }

    /// Blends layer `zindex` down into the layer beneath it. Blending the
    /// bottom layer into itself, or a layer that was never allocated, is a
    /// no-op.
    pub fn blit_fb_down(&mut self, zindex: usize, acf: AlphaComp)
        requires
            old(self).wf(),
        ensures
            final(self).wf(),
            final(self).spec_size() == old(self).spec_size(),
            final(self).layers() =~= spec_blit_down(old(self).layers(), zindex as int, acf),
    {
        if zindex >= self.fbs.len() || zindex == 0 {
            proof {
                assert_seqs_equal!(self.layers()
                    == spec_blit_down(old(self).layers(), zindex as int, acf));
            }
            return ;
        }
        let src = duplicate_bitmap(&self.fbs[zindex]);
        let dst = &mut self.fbs[zindex - 1];
        dst.copy_bitmap(&src, acf);
        proof {
            assert_seqs_equal!(self.layers()
                == spec_blit_down(old(self).layers(), zindex as int, acf));
        }
    }
}

/// What [`FramebufferStack::blit_fb_down`] does to the layer contents.
pub open spec fn spec_blit_down(layers: Seq<Seq<u32>>, zindex: int, acf: AlphaComp) -> Seq<
    Seq<u32>,
> {
    if zindex <= 0 || zindex >= layers.len() {
        layers
    } else {
        layers.update(zindex - 1, spec_copy_full(layers[zindex - 1], layers[zindex], acf))
    }
}

/// A pixel-for-pixel copy of a bitmap.
fn duplicate_bitmap(b: &Bitmap) -> (r: Bitmap)
    requires
        b.wf(),
    ensures
        r.wf(),
        r.spec_size() == b.spec_size(),
        r@ == b@,
{
    let src = b.pixels();
    let n = src.len();
    let mut buffer: Vec<u32> = Vec::new();
    let mut i: usize = 0;
    while i < n
        invariant
            n == b@.len(),
            src@ == b@,
            i <= n,
            buffer@.len() == i as int,
            forall|j: int| 0 <= j < i as int ==> buffer@[j] == b@[j],
        decreases n - i,
    {
        buffer.push(src[i]);
        i += 1;
    }
    proof {
        assert_seqs_equal!(buffer@ == b@);
    }
    Bitmap::from_buffer(buffer, b.size())
}


/// A horizontal run of whole and clipped tiles: pairs `(offset, width)`
/// covering `[start, end)` with tiles of width `tile`, the last one
/// clipped, never overflowing `end`.
pub open spec fn spec_tile_spans(x: int, end: int, tile: int) -> Seq<(int, int)>
    decreases end - x,
{
    if tile <= 0 || x >= end {
        Seq::empty()
    } else if tile < end - x {
        seq![(x, tile)] + spec_tile_spans(x + tile, end, tile)
    } else {
        seq![(x, end - x)]
    }
}

/// Every span lies inside `[start, end)` and is at most one tile wide.
pub proof fn lemma_tile_spans_in_range(x: int, end: int, tile: int)
    ensures
        forall|i: int|
            0 <= i < spec_tile_spans(x, end, tile).len() ==> {
                let s = #[trigger] spec_tile_spans(x, end, tile)[i];
                x <= s.0 && 0 < s.1 <= tile && s.0 + s.1 <= end
            },
    decreases end - x,
{
    if tile <= 0 || x >= end {
    } else if tile < end - x {
        lemma_tile_spans_in_range(x + tile, end, tile);
        let all = spec_tile_spans(x, end, tile);
        let rest = spec_tile_spans(x + tile, end, tile);
        assert forall|i: int| 0 <= i < all.len() implies {
            let s = #[trigger] all[i];
            x <= s.0 && 0 < s.1 <= tile && s.0 + s.1 <= end
        } by {
            if i == 0 {
                assert(all[0] == (x, tile));
            } else {
                assert(all[i] == rest[i - 1]);
            }
        }
    } else {
        let all = spec_tile_spans(x, end, tile);
        assert forall|i: int| 0 <= i < all.len() implies {
            let s = #[trigger] all[i];
            x <= s.0 && 0 < s.1 <= tile && s.0 + s.1 <= end
        } by {
            assert(all[0] == (x, end - x));
        }
    }
}

/// The spans tile the interval exactly: their widths sum to `end - start`.
pub proof fn lemma_tile_spans_cover(x: int, end: int, tile: int)
    requires
        tile > 0,
        x <= end,
    ensures
        spans_width_sum(spec_tile_spans(x, end, tile)) == end - x,
    decreases end - x,
{
    if x >= end {
    } else if tile < end - x {
        lemma_tile_spans_cover(x + tile, end, tile);
        let all = spec_tile_spans(x, end, tile);
        let rest = spec_tile_spans(x + tile, end, tile);
        assert(all.drop_first() =~= rest);
        assert(all.first() == (x, tile));
        assert(spans_width_sum(all) == tile + spans_width_sum(rest));
    } else {
        let all = spec_tile_spans(x, end, tile);
        assert(all.drop_first() =~= Seq::<(int, int)>::empty());
        assert(all.first() == (x, end - x));
        assert(spans_width_sum(all) == (end - x) + spans_width_sum(Seq::<(int, int)>::empty()));
    }
}

/// The total width of a list of spans.
pub open spec fn spans_width_sum(spans: Seq<(int, int)>) -> int
    decreases spans.len(),
{
    if spans.len() == 0 {
        0
    } else {
        spans.first().1 + spans_width_sum(spans.drop_first())
    }
}

/// The integer view of an executable span list.
pub open spec fn spans_as_int(s: Seq<(u16, u16)>) -> Seq<(int, int)> {
    s.map_values(|p: (u16, u16)| (p.0 as int, p.1 as int))
}

/// Computes the tile spans covering `[start, end)` with `tile`-wide tiles.
fn tile_spans(start: u16, end: i32, tile: u16) -> (r: Vec<(u16, u16)>)
    requires
        end <= u16::MAX as int,
    ensures
        spans_as_int(r@) =~= spec_tile_spans(start as int, end as int, tile as int),
{
    let mut r: Vec<(u16, u16)> = Vec::new();
    if tile == 0 {
        return r;
    }
    let mut x: i32 = start as i32;
    while x < end
        invariant
            tile > 0,
            end <= u16::MAX as int,
            start as int <= x as int,
            spec_tile_spans(start as int, end as int, tile as int) =~= spans_as_int(r@)
                + spec_tile_spans(x as int, end as int, tile as int),
        decreases end + tile as int - x,
    {
        let wd: i32 = if (tile as i32) < end - x {
            tile as i32
        } else {
            end - x
        };
        let ghost before = r@;
        r.push((x as u16, wd as u16));
        proof {
            assert(spans_as_int(r@) =~= spans_as_int(before).push((x as int, wd as int)));
            if (tile as int) < end as int - x as int {
                assert(spec_tile_spans(x as int, end as int, tile as int)
                    =~= seq![(x as int, wd as int)]
                    + spec_tile_spans(x as int + tile as int, end as int, tile as int));
            } else {
                assert(spec_tile_spans(x as int, end as int, tile as int)
                    =~= seq![(x as int, wd as int)]);
                assert(spec_tile_spans(x as int + tile as int, end as int, tile as int)
                    =~= Seq::<(int, int)>::empty());
            }
            assert(spans_as_int(before) + seq![(x as int, wd as int)]
                =~= spans_as_int(before).push((x as int, wd as int)));
        }
        x = x + tile as i32;
    }
    r
}

/// The four border rectangles of a stroke: top, left, bottom, right.
/// Degenerate geometry (stroke wider than the rectangle) clamps to empty
/// bars instead of failing.
pub open spec fn spec_stroke_rects(rect: Rect, sw: int) -> (Rect, Rect, Rect, Rect) {
    let vh = if rect.h as int - 2 * sw > 0 {
        rect.h as int - 2 * sw
    } else {
        0
    };
    let lry = crate::math::clamp_i16(rect.y as int + sw);
    let top = Rect { x: rect.x, y: rect.y, w: rect.w, h: sw as u16 };
    let left = Rect { x: rect.x, y: lry as i16, w: sw as u16, h: vh as u16 };
    let bottom = Rect {
        x: rect.x,
        y: crate::math::clamp_i16(rect.y as int + rect.h as int - sw) as i16,
        w: rect.w,
        h: sw as u16,
    };
    let right = Rect {
        x: crate::math::clamp_i16(rect.x as int + rect.w as int - sw) as i16,
        y: lry as i16,
        w: sw as u16,
        h: vh as u16,
    };
    (top, left, bottom, right)
}

/// What a stroke leaves in a layer: the four border bars filled in order.
pub open spec fn spec_stroke_apply(
    dst: Seq<u32>,
    w: int,
    rect: Rect,
    sw: int,
    color: Color,
    acf: AlphaComp,
) -> Seq<u32> {
    let (top, left, bottom, right) = spec_stroke_rects(rect, sw);
    spec_fill_area(
        spec_fill_area(
            spec_fill_area(spec_fill_area(dst, w, top, color, acf), w, left, color, acf),
            w,
            bottom,
            color,
            acf,
        ),
        w,
        right,
        color,
        acf,
    )
}

/// One blit of a nine-slice corner: skipped when the region is empty.
pub open spec fn spec_corner_apply(
    dst: Seq<u32>,
    dw: int,
    src: Seq<u32>,
    sw: int,
    sh: int,
    slice: Rect,
    dpos: Pos,
    acf: AlphaComp,
    ma: Color,
    mo: Color,
) -> Seq<u32> {
    if slice.w == 0 || slice.h == 0 {
        dst
    } else {
        spec_copy_area(
            dst,
            dw,
            src,
            sw,
            sh,
            dpos,
            Pos { x: slice.x, y: slice.y },
            Size { w: slice.w, h: slice.h },
            acf,
            ma,
            mo,
        )
    }
}

/// A row of tiled blits at a fixed vertical position.
pub open spec fn spec_apply_hspans(
    dst: Seq<u32>,
    dw: int,
    src: Seq<u32>,
    sw: int,
    sh: int,
    spos: Pos,
    hgt: u16,
    base_x: int,
    y: i16,
    spans: Seq<(int, int)>,
    acf: AlphaComp,
    ma: Color,
    mo: Color,
) -> Seq<u32>
    decreases spans.len(),
{
    if spans.len() == 0 {
        dst
    } else {
        let prev = spec_apply_hspans(
            dst,
            dw,
            src,
            sw,
            sh,
            spos,
            hgt,
            base_x,
            y,
            spans.drop_last(),
            acf,
            ma,
            mo,
        );
        let sp = spans.last();
        spec_copy_area(
            prev,
            dw,
            src,
            sw,
            sh,
            Pos { x: crate::math::clamp_i16(base_x + sp.0) as i16, y },
            spos,
            Size { w: sp.1 as u16, h: hgt },
            acf,
            ma,
            mo,
        )
    }
}

/// A column of tiled blits at a fixed horizontal position.
pub open spec fn spec_apply_vspans(
    dst: Seq<u32>,
    dw: int,
    src: Seq<u32>,
    sw: int,
    sh: int,
    spos: Pos,
    wdt: u16,
    x: i16,
    base_y: int,
    spans: Seq<(int, int)>,
    acf: AlphaComp,
    ma: Color,
    mo: Color,
) -> Seq<u32>
    decreases spans.len(),
{
    if spans.len() == 0 {
        dst
    } else {
        let prev = spec_apply_vspans(
            dst,
            dw,
            src,
            sw,
            sh,
            spos,
            wdt,
            x,
            base_y,
            spans.drop_last(),
            acf,
            ma,
            mo,
        );
        let sp = spans.last();
        spec_copy_area(
            prev,
            dw,
            src,
            sw,
            sh,
            Pos { x, y: crate::math::clamp_i16(base_y + sp.0) as i16 },
            spos,
            Size { w: wdt, h: sp.1 as u16 },
            acf,
            ma,
            mo,
        )
    }
}

/// The centre region: one row of tiled blits per vertical span.
pub open spec fn spec_apply_center(
    dst: Seq<u32>,
    dw: int,
    src: Seq<u32>,
    sw: int,
    sh: int,
    spos: Pos,
    base_x: int,
    base_y: int,
    yspans: Seq<(int, int)>,
    xspans: Seq<(int, int)>,
    acf: AlphaComp,
    ma: Color,
    mo: Color,
) -> Seq<u32>
    decreases yspans.len(),
{
    if yspans.len() == 0 {
        dst
    } else {
        let prev = spec_apply_center(
            dst,
            dw,
            src,
            sw,
            sh,
            spos,
            base_x,
            base_y,
            yspans.drop_last(),
            xspans,
            acf,
            ma,
            mo,
        );
        let sp = yspans.last();
        spec_apply_hspans(
            prev,
            dw,
            src,
            sw,
            sh,
            spos,
            sp.1 as u16,
            base_x,
            crate::math::clamp_i16(base_y + sp.0) as i16,
            xspans,
            acf,
            ma,
            mo,
        )
    }
}

/// Whether a nine-slice's sprite rectangle fits the coordinate range the
/// slicer needs; commands that do not are skipped wholesale.
pub open spec fn spec_nss_fits(nss: NineSlicingSprite) -> bool {
    &&& nss.sprite.rect.x as int + nss.sprite.rect.w as int <= i16::MAX as int
    &&& nss.sprite.rect.y as int + nss.sprite.rect.h as int <= i16::MAX as int
}

/// What a nine-slice draw leaves in a layer: the four corners blitted
/// once, the edges tiled along their axis, and the centre tiled both ways,
/// every tile clipped to the destination rectangle.
pub open spec fn spec_nine_slice_apply(
    dst: Seq<u32>,
    dw: int,
    src: Seq<u32>,
    sw: int,
    sh: int,
    nss: NineSlicingSprite,
    rect: Rect,
    acf: AlphaComp,
    ma: Color,
    mo: Color,
) -> Seq<u32> {
    let tl = crate::render::sprite::spec_slice(nss, crate::render::sprite::NineSlicePart::TopLeft);
    let tc = crate::render::sprite::spec_slice(
        nss,
        crate::render::sprite::NineSlicePart::TopCenter,
    );
    let tr = crate::render::sprite::spec_slice(nss, crate::render::sprite::NineSlicePart::TopRight);
    let cl = crate::render::sprite::spec_slice(
        nss,
        crate::render::sprite::NineSlicePart::CenterLeft,
    );
    let cc = crate::render::sprite::spec_slice(nss, crate::render::sprite::NineSlicePart::Center);
    let cr = crate::render::sprite::spec_slice(
        nss,
        crate::render::sprite::NineSlicePart::CenterRight,
    );
    let bl = crate::render::sprite::spec_slice(
        nss,
        crate::render::sprite::NineSlicePart::BottomLeft,
    );
    let bc = crate::render::sprite::spec_slice(
        nss,
        crate::render::sprite::NineSlicePart::BottomCenter,
    );
    let br = crate::render::sprite::spec_slice(
        nss,
        crate::render::sprite::NineSlicePart::BottomRight,
    );
    let xspans = spec_tile_spans(
        crate::render::sprite::spec_vl(nss),
        rect.w as int - tr.w as int,
        tc.w as int,
    );
    let yspans = spec_tile_spans(
        crate::render::sprite::spec_ht(nss),
        rect.h as int - bl.h as int,
        cl.h as int,
    );
    let x0 = rect.x as int;
    let y0 = rect.y as int;
    let xr = crate::math::clamp_i16(x0 + rect.w as int - tr.w as int) as i16;
    let yb = crate::math::clamp_i16(y0 + rect.h as int - bl.h as int) as i16;
    let d0 = spec_corner_apply(dst, dw, src, sw, sh, tl, Pos { x: rect.x, y: rect.y }, acf, ma, mo);
    let d1 = if tc.w == 0 || tc.h == 0 {
        d0
    } else {
        spec_apply_hspans(
            d0,
            dw,
            src,
            sw,
            sh,
            Pos { x: tc.x, y: tc.y },
            tc.h,
            x0,
            rect.y,
            xspans,
            acf,
            ma,
            mo,
        )
    };
    let d2 = spec_corner_apply(d1, dw, src, sw, sh, tr, Pos { x: xr, y: rect.y }, acf, ma, mo);
    let d3 = if cl.w == 0 || cl.h == 0 {
        d2
    } else {
        spec_apply_vspans(
            d2,
            dw,
            src,
            sw,
            sh,
            Pos { x: cl.x, y: cl.y },
            cl.w,
            rect.x,
            y0,
            yspans,
            acf,
            ma,
            mo,
        )
    };
    let d4 = if cc.w == 0 || cc.h == 0 {
        d3
    } else {
        spec_apply_center(
            d3,
            dw,
            src,
            sw,
            sh,
            Pos { x: cc.x, y: cc.y },
            x0,
            y0,
            yspans,
            xspans,
            acf,
            ma,
            mo,
        )
    };
    let d5 = if cr.w == 0 || cr.h == 0 {
        d4
    } else {
        spec_apply_vspans(
            d4,
            dw,
            src,
            sw,
            sh,
            Pos { x: cr.x, y: cr.y },
            cr.w,
            xr,
            y0,
            yspans,
            acf,
            ma,
            mo,
        )
    };
    let d6 = spec_corner_apply(d5, dw, src, sw, sh, bl, Pos { x: rect.x, y: yb }, acf, ma, mo);
    let d7 = if bc.w == 0 || bc.h == 0 {
        d6
    } else {
        spec_apply_hspans(
            d6,
            dw,
            src,
            sw,
            sh,
            Pos { x: bc.x, y: bc.y },
            bc.h,
            x0,
            yb,
            xspans,
            acf,
            ma,
            mo,
        )
    };
    spec_corner_apply(d7, dw, src, sw, sh, br, Pos { x: xr, y: yb }, acf, ma, mo)
}

/// The x position at which the glyph after `bytes` starts, one pixel of
/// spacing after each glyph.
pub open spec fn spec_text_x(bytes: Seq<u8>, sheet: AsciiSheet, x0: int) -> int
    decreases bytes.len(),
{
    if bytes.len() == 0 {
        x0
    } else {
        let g = spec_ascii_char_to_sprite(bytes.last(), sheet).rect;
        crate::math::clamp_i16(spec_text_x(bytes.drop_last(), sheet, x0) + g.w as int + 1)
    }
}

/// What a text draw leaves in a layer: each glyph blitted left to right.
pub open spec fn spec_text_apply(
    dst: Seq<u32>,
    dw: int,
    src: Seq<u32>,
    sw: int,
    sh: int,
    bytes: Seq<u8>,
    pos: Pos,
    acf: AlphaComp,
    ma: Color,
    mo: Color,
    sheet: AsciiSheet,
) -> Seq<u32>
    decreases bytes.len(),
{
    if bytes.len() == 0 {
        dst
    } else {
        let prev = spec_text_apply(
            dst,
            dw,
            src,
            sw,
            sh,
            bytes.drop_last(),
            pos,
            acf,
            ma,
            mo,
            sheet,
        );
        let g = spec_ascii_char_to_sprite(bytes.last(), sheet).rect;
        spec_copy_area(
            prev,
            dw,
            src,
            sw,
            sh,
            Pos {
                x: spec_text_x(bytes.drop_last(), sheet, pos.x as int) as i16,
                y: pos.y,
            },
            Pos { x: g.x, y: g.y },
            Size { w: g.w, h: g.h },
            acf,
            ma,
            mo,
        )
    }
}

/// One instruction of the renderer's flat command stream, rebuilt every
/// frame.
#[derive(Debug, Clone, PartialEq, Eq)]
pub enum DrawCommand {
    /// Force-resets the active layer to transparent black.
    Clear,
    Fill { rect: Rect, color: Color, acf: AlphaComp },
    Stroke { rect: Rect, stroke_width: u16, color: Color, acf: AlphaComp },
    Sprite { pos: Pos, rotate: Rotate, sheet_id: SpritesheetId, sprite: Sprite, acf: AlphaComp },
    NineSlicingSprite { rect: Rect, sheet_id: SpritesheetId, nss: NineSlicingSprite, acf: AlphaComp },
    Text { text: Vec<u8>, pos: Pos, acf: AlphaComp },
    /// Sets the persistent and-mask applied to sprite and text sources.
    MaskAnd(Color),
    /// Sets the persistent or-mask applied to sprite and text sources.
    MaskOr(Color),
    /// Starts drawing into the next scratch layer up.
    BeginComposite,
    /// Blends the current scratch layer down and returns to the one below.
    EndComposite(AlphaComp),
}

/// The interpreter state as the contracts see it: the layer contents, the
/// two persistent masks, and the index of the active layer.
pub type DrawModel = (Seq<Seq<u32>>, Color, Color, int);

/// The effect of one draw command on the interpreter state.
pub open spec fn spec_step(
    m: DrawModel,
    cmd: DrawCommand,
    sheets: Seq<Bitmap>,
    sheet: AsciiSheet,
    ascii_bm: Bitmap,
    npix: int,
    w: int,
) -> DrawModel {
    let (layers, ma, mo, fb) = m;
    match cmd {
        DrawCommand::Clear => {
            let ls = spec_pad_layers(layers, fb + 1, npix);
            (
                ls.update(
                    fb,
                    spec_fill(
                        ls[fb],
                        Color { a: 0u8, r: 0u8, g: 0u8, b: 0u8 },
                        AlphaComp::Dst,
                    ),
                ),
                ma,
                mo,
                fb,
            )
        },
        DrawCommand::Fill { rect, color, acf } => {
            let ls = spec_pad_layers(layers, fb + 1, npix);
            (ls.update(fb, spec_fill_area(ls[fb], w, rect, color, acf)), ma, mo, fb)
        },
        DrawCommand::Stroke { rect, stroke_width, color, acf } => {
            if rect.w == 0 || rect.h == 0 {
                m
            } else {
                let ls = spec_pad_layers(layers, fb + 1, npix);
                (
                    ls.update(
                        fb,
                        spec_stroke_apply(ls[fb], w, rect, stroke_width as int, color, acf),
                    ),
                    ma,
                    mo,
                    fb,
                )
            }
        },
        DrawCommand::Sprite { pos, rotate, sheet_id, sprite, acf } => {
            if sprite.rect.w == 0 || sprite.rect.h == 0 || sheet_id.0 >= sheets.len() {
                m
            } else {
                let bm = sheets[sheet_id.0 as int];
                let ls = spec_pad_layers(layers, fb + 1, npix);
                (
                    ls.update(
                        fb,
                        spec_copy_area_rotated(
                            ls[fb],
                            w,
                            bm@,
                            bm.spec_size().w as int,
                            bm.spec_size().h as int,
                            pos,
                            Pos { x: sprite.rect.x, y: sprite.rect.y },
                            Size { w: sprite.rect.w, h: sprite.rect.h },
                            acf,
                            ma,
                            mo,
                            rotate,
                        ),
                    ),
                    ma,
                    mo,
                    fb,
                )
            }
        },
        DrawCommand::NineSlicingSprite { rect, sheet_id, nss, acf } => {
            if rect.w == 0 || rect.h == 0 || sheet_id.0 >= sheets.len() || !spec_nss_fits(nss) {
                m
            } else {
                let bm = sheets[sheet_id.0 as int];
                let ls = spec_pad_layers(layers, fb + 1, npix);
                (
                    ls.update(
                        fb,
                        spec_nine_slice_apply(
                            ls[fb],
                            w,
                            bm@,
                            bm.spec_size().w as int,
                            bm.spec_size().h as int,
                            nss,
                            rect,
                            acf,
                            ma,
                            mo,
                        ),
                    ),
                    ma,
                    mo,
                    fb,
                )
            }
        },
        DrawCommand::Text { text, pos, acf } => {
            let ls = spec_pad_layers(layers, fb + 1, npix);
            (
                ls.update(
                    fb,
                    spec_text_apply(
                        ls[fb],
                        w,
                        ascii_bm@,
                        ascii_bm.spec_size().w as int,
                        ascii_bm.spec_size().h as int,
                        text@,
                        pos,
                        acf,
                        ma,
                        mo,
                        sheet,
                    ),
                ),
                ma,
                mo,
                fb,
            )
        },
        DrawCommand::MaskAnd(c) => (layers, c, mo, fb),
        DrawCommand::MaskOr(c) => (layers, ma, c, fb),
        DrawCommand::BeginComposite => (layers, ma, mo, fb + 1),
        DrawCommand::EndComposite(acf) => {
            if fb > 0 {
                (spec_blit_down(layers, fb, acf), ma, mo, fb - 1)
            } else {
                m
            }
        },
    }
}

/// The interpreter as a fold of [`spec_step`] over the command stream.
pub open spec fn spec_draw(
    m: DrawModel,
    cmds: Seq<DrawCommand>,
    sheets: Seq<Bitmap>,
    sheet: AsciiSheet,
    ascii_bm: Bitmap,
    npix: int,
    w: int,
) -> DrawModel
    decreases cmds.len(),
{
    if cmds.len() == 0 {
        m
    } else {
        spec_step(
            spec_draw(m, cmds.drop_last(), sheets, sheet, ascii_bm, npix, w),
            cmds.last(),
            sheets,
            sheet,
            ascii_bm,
            npix,
            w,
        )
    }
}


impl FramebufferStack {
    /// Clears the active layer to transparent black.
    fn apply_clear(&mut self, fb_id: usize)
        requires
            old(self).wf(),
        ensures
            final(self).wf(),
            final(self).spec_size() == old(self).spec_size(),
            final(self).layers() =~= ({
                let ls = spec_pad_layers(old(self).layers(), fb_id as int + 1, old(self).npix());
                ls.update(
                    fb_id as int,
                    spec_fill(
                        ls[fb_id as int],
                        Color { a: 0u8, r: 0u8, g: 0u8, b: 0u8 },
                        AlphaComp::Dst,
                    ),
                )
            }),
    {
        self.push_fbs(fb_id);
        let ghost padded = self.layers();
        proof {
            assert(self.fbs@.len() == padded.len());
        }
        let fb = &mut self.fbs[fb_id];
        fb.fill(Color::transparent(), AlphaComp::Dst);
        proof {
            assert_seqs_equal!(self.layers() == padded.update(fb_id as int,
                spec_fill(padded[fb_id as int],
                    Color { a: 0u8, r: 0u8, g: 0u8, b: 0u8 }, AlphaComp::Dst)));
        }
    }

    /// Fills a rectangle of the active layer.
    fn apply_fill(&mut self, fb_id: usize, rect: Rect, color: Color, acf: AlphaComp)
        requires
            old(self).wf(),
        ensures
            final(self).wf(),
            final(self).spec_size() == old(self).spec_size(),
            final(self).layers() =~= ({
                let ls = spec_pad_layers(old(self).layers(), fb_id as int + 1, old(self).npix());
                ls.update(
                    fb_id as int,
                    spec_fill_area(
                        ls[fb_id as int],
                        old(self).spec_size().w as int,
                        rect,
                        color,
                        acf,
                    ),
                )
            }),
    {
        self.push_fbs(fb_id);
        let ghost padded = self.layers();
        proof {
            assert(self.fbs@.len() == padded.len());
        }
        let fb = &mut self.fbs[fb_id];
        fb.fill_area(color, rect, acf);
        proof {
            assert_seqs_equal!(self.layers() == padded.update(fb_id as int,
                spec_fill_area(padded[fb_id as int], old(self).spec_size().w as int,
                    rect, color, acf)));
        }
    }

    /// Strokes the four one-bar borders of a rectangle, in order: top,
    /// left, bottom, right.
    fn apply_stroke(&mut self, fb_id: usize, rect: Rect, stroke_width: u16, color: Color, acf: AlphaComp)
        requires
            old(self).wf(),
        ensures
            final(self).wf(),
            final(self).spec_size() == old(self).spec_size(),
            final(self).layers() =~= ({
                let ls = spec_pad_layers(old(self).layers(), fb_id as int + 1, old(self).npix());
                ls.update(
                    fb_id as int,
                    spec_stroke_apply(
                        ls[fb_id as int],
                        old(self).spec_size().w as int,
                        rect,
                        stroke_width as int,
                        color,
                        acf,
                    ),
                )
            }),
    {
        self.push_fbs(fb_id);
        let ghost padded = self.layers();
        proof {
            assert(self.fbs@.len() == padded.len());
        }
        let sw = stroke_width;
        let vh: u16 = if rect.h as i32 - 2 * sw as i32 > 0 {
            (rect.h as i32 - 2 * sw as i32) as u16
        } else {
            0
        };
        let lry = crate::math::clamp_to_i16(rect.y as i64 + sw as i64);
        let top = Rect { x: rect.x, y: rect.y, w: rect.w, h: sw };
        let left = Rect { x: rect.x, y: lry, w: sw, h: vh };
        let bottom = Rect {
            x: rect.x,
            y: crate::math::clamp_to_i16(rect.y as i64 + rect.h as i64 - sw as i64),
            w: rect.w,
            h: sw,
        };
        let right = Rect {
            x: crate::math::clamp_to_i16(rect.x as i64 + rect.w as i64 - sw as i64),
            y: lry,
            w: sw,
            h: vh,
        };
        proof {
            assert((top, left, bottom, right) == spec_stroke_rects(rect, sw as int));
        }
        let fb = &mut self.fbs[fb_id];
        fb.fill_area(color, top, acf);
        fb.fill_area(color, left, acf);
        fb.fill_area(color, bottom, acf);
        fb.fill_area(color, right, acf);
        proof {
            assert_seqs_equal!(self.layers() == padded.update(fb_id as int,
                spec_stroke_apply(padded[fb_id as int], old(self).spec_size().w as int,
                    rect, stroke_width as int, color, acf)));
        }
    }

    /// Blits one sprite, rotated, through the masks.
    fn apply_sprite(
        &mut self,
        fb_id: usize,
        bm: &Bitmap,
        pos: Pos,
        rotate: Rotate,
        sprite: Sprite,
        acf: AlphaComp,
        ma: Color,
        mo: Color,
    )
        requires
            old(self).wf(),
            bm.wf(),
        ensures
            final(self).wf(),
            final(self).spec_size() == old(self).spec_size(),
            final(self).layers() =~= ({
                let ls = spec_pad_layers(old(self).layers(), fb_id as int + 1, old(self).npix());
                ls.update(
                    fb_id as int,
                    spec_copy_area_rotated(
                        ls[fb_id as int],
                        old(self).spec_size().w as int,
                        bm@,
                        bm.spec_size().w as int,
                        bm.spec_size().h as int,
                        pos,
                        Pos { x: sprite.rect.x, y: sprite.rect.y },
                        Size { w: sprite.rect.w, h: sprite.rect.h },
                        acf,
                        ma,
                        mo,
                        rotate,
                    ),
                )
            }),
    {
        self.push_fbs(fb_id);
        let ghost padded = self.layers();
        proof {
            assert(self.fbs@.len() == padded.len());
        }
        let fb = &mut self.fbs[fb_id];
        fb.copy_bitmap_area_rotated(
            bm,
            pos,
            sprite.rect.pos(),
            sprite.rect.size(),
            acf,
            ma,
            mo,
            rotate,
        );
        proof {
            assert_seqs_equal!(self.layers() == padded.update(fb_id as int,
                spec_copy_area_rotated(padded[fb_id as int], old(self).spec_size().w as int,
                    bm@, bm.spec_size().w as int, bm.spec_size().h as int,
                    pos, Pos { x: sprite.rect.x, y: sprite.rect.y },
                    Size { w: sprite.rect.w, h: sprite.rect.h }, acf, ma, mo, rotate)));
        }
    }
}


impl FramebufferStack {
    /// Blits a run of text glyph by glyph, left to right, through the
    /// masks.
    fn apply_text(
        &mut self,
        fb_id: usize,
        ascii_bm: &Bitmap,
        sheet: &AsciiSheet,
        text: &Vec<u8>,
        pos: Pos,
        acf: AlphaComp,
        ma: Color,
        mo: Color,
    )
        requires
            old(self).wf(),
            ascii_bm.wf(),
        ensures
            final(self).wf(),
            final(self).spec_size() == old(self).spec_size(),
            final(self).layers() =~= ({
                let ls = spec_pad_layers(old(self).layers(), fb_id as int + 1, old(self).npix());
                ls.update(
                    fb_id as int,
                    spec_text_apply(
                        ls[fb_id as int],
                        old(self).spec_size().w as int,
                        ascii_bm@,
                        ascii_bm.spec_size().w as int,
                        ascii_bm.spec_size().h as int,
                        text@,
                        pos,
                        acf,
                        ma,
                        mo,
                        *sheet,
                    ),
                )
            }),
    {
        self.push_fbs(fb_id);
        let ghost padded = self.layers();
        proof {
            assert(self.fbs@.len() == padded.len());
        }
        let fb = &mut self.fbs[fb_id];
        let ghost entry = fb@;
        let ghost dw = old(self).spec_size().w as int;
        let mut cur_x: i16 = pos.x;
        let n = text.len();
        let mut i: usize = 0;
        while i < n
            invariant
                i <= n,
                n == text@.len(),
                ascii_bm.wf(),
                fb.wf(),
                fb.spec_size() == old(self).spec_size(),
                dw == old(self).spec_size().w as int,
                cur_x as int == spec_text_x(text@.take(i as int), *sheet, pos.x as int),
                fb@ == spec_text_apply(
                    entry,
                    dw,
                    ascii_bm@,
                    ascii_bm.spec_size().w as int,
                    ascii_bm.spec_size().h as int,
                    text@.take(i as int),
                    pos,
                    acf,
                    ma,
                    mo,
                    *sheet,
                ),
            decreases n - i,
        {
            let g = ascii_char_to_sprite(text[i], sheet);
            fb.copy_bitmap_area(
                ascii_bm,
                Pos { x: cur_x, y: pos.y },
                g.rect.pos(),
                g.rect.size(),
                acf,
                ma,
                mo,
            );
            proof {
                assert(text@.take(i as int + 1).drop_last() =~= text@.take(i as int));
                assert(text@.take(i as int + 1).last() == text@[i as int]);
            }
            cur_x = crate::math::clamp_to_i16(cur_x as i64 + g.rect.w as i64 + 1);
            i += 1;
        }
        proof {
            assert(text@.take(n as int) =~= text@);
            assert_seqs_equal!(self.layers() == padded.update(fb_id as int,
                spec_text_apply(padded[fb_id as int], dw, ascii_bm@,
                    ascii_bm.spec_size().w as int, ascii_bm.spec_size().h as int,
                    text@, pos, acf, ma, mo, *sheet)));
        }
    }
}


/// One corner blit of a nine-slice, skipped when the region is empty.
fn blit_corner(
    fb: &mut Bitmap,
    src: &Bitmap,
    slice: Sprite,
    dpos: Pos,
    acf: AlphaComp,
    ma: Color,
    mo: Color,
)
    requires
        old(fb).wf(),
        src.wf(),
    ensures
        final(fb).wf(),
        final(fb).spec_size() == old(fb).spec_size(),
        final(fb)@ == spec_corner_apply(
            old(fb)@,
            old(fb).spec_size().w as int,
            src@,
            src.spec_size().w as int,
            src.spec_size().h as int,
            slice.rect,
            dpos,
            acf,
            ma,
            mo,
        ),
{
    if slice.rect.w != 0 && slice.rect.h != 0 {
        fb.copy_bitmap_area(src, dpos, slice.rect.pos(), slice.rect.size(), acf, ma, mo);
    }
}

/// A row of tiled blits at a fixed vertical position.
fn blit_hspans(
    fb: &mut Bitmap,
    src: &Bitmap,
    spos: Pos,
    hgt: u16,
    base_x: i16,
    y: i16,
    spans: &Vec<(u16, u16)>,
    acf: AlphaComp,
    ma: Color,
    mo: Color,
)
    requires
        old(fb).wf(),
        src.wf(),
    ensures
        final(fb).wf(),
        final(fb).spec_size() == old(fb).spec_size(),
        final(fb)@ == spec_apply_hspans(
            old(fb)@,
            old(fb).spec_size().w as int,
            src@,
            src.spec_size().w as int,
            src.spec_size().h as int,
            spos,
            hgt,
            base_x as int,
            y,
            spans_as_int(spans@),
            acf,
            ma,
            mo,
        ),
{
    let ghost entry = fb@;
    let ghost isp = spans_as_int(spans@);
    let n = spans.len();
    let mut i: usize = 0;
    while i < n
        invariant
            i <= n,
            n == spans@.len(),
            isp == spans_as_int(spans@),
            src.wf(),
            fb.wf(),
            fb.spec_size() == old(fb).spec_size(),
            fb@ == spec_apply_hspans(
                entry,
                old(fb).spec_size().w as int,
                src@,
                src.spec_size().w as int,
                src.spec_size().h as int,
                spos,
                hgt,
                base_x as int,
                y,
                isp.take(i as int),
                acf,
                ma,
                mo,
            ),
        decreases n - i,
    {
        let (sx, wd) = spans[i];
        let dx = crate::math::clamp_to_i16(base_x as i64 + sx as i64);
        fb.copy_bitmap_area(
            src,
            Pos { x: dx, y },
            spos,
            Size { w: wd, h: hgt },
            acf,
            ma,
            mo,
        );
        proof {
            assert(isp[i as int] == (spans@[i as int].0 as int, spans@[i as int].1 as int));
            assert(isp.take(i as int + 1).drop_last() =~= isp.take(i as int));
            assert(isp.take(i as int + 1).last() == isp[i as int]);
        }
        i += 1;
    }
    proof {
        assert(isp.take(n as int) =~= isp);
    }
}

/// A column of tiled blits at a fixed horizontal position.
fn blit_vspans(
    fb: &mut Bitmap,
    src: &Bitmap,
    spos: Pos,
    wdt: u16,
    x: i16,
    base_y: i16,
    spans: &Vec<(u16, u16)>,
    acf: AlphaComp,
    ma: Color,
    mo: Color,
)
    requires
        old(fb).wf(),
        src.wf(),
    ensures
        final(fb).wf(),
        final(fb).spec_size() == old(fb).spec_size(),
        final(fb)@ == spec_apply_vspans(
            old(fb)@,
            old(fb).spec_size().w as int,
            src@,
            src.spec_size().w as int,
            src.spec_size().h as int,
            spos,
            wdt,
            x,
            base_y as int,
            spans_as_int(spans@),
            acf,
            ma,
            mo,
        ),
{
    let ghost entry = fb@;
    let ghost isp = spans_as_int(spans@);
    let n = spans.len();
    let mut i: usize = 0;
    while i < n
        invariant
            i <= n,
            n == spans@.len(),
            isp == spans_as_int(spans@),
            src.wf(),
            fb.wf(),
            fb.spec_size() == old(fb).spec_size(),
            fb@ == spec_apply_vspans(
                entry,
                old(fb).spec_size().w as int,
                src@,
                src.spec_size().w as int,
                src.spec_size().h as int,
                spos,
                wdt,
                x,
                base_y as int,
                isp.take(i as int),
                acf,
                ma,
                mo,
            ),
        decreases n - i,
    {
        let (sy, hg) = spans[i];
        let dy = crate::math::clamp_to_i16(base_y as i64 + sy as i64);
        fb.copy_bitmap_area(
            src,
            Pos { x, y: dy },
            spos,
            Size { w: wdt, h: hg },
            acf,
            ma,
            mo,
        );
        proof {
            assert(isp[i as int] == (spans@[i as int].0 as int, spans@[i as int].1 as int));
            assert(isp.take(i as int + 1).drop_last() =~= isp.take(i as int));
            assert(isp.take(i as int + 1).last() == isp[i as int]);
        }
        i += 1;
    }
    proof {
        assert(isp.take(n as int) =~= isp);
    }
}

/// The centre of a nine-slice: one tiled row per vertical span.
fn blit_center(
    fb: &mut Bitmap,
    src: &Bitmap,
    spos: Pos,
    base_x: i16,
    base_y: i16,
    yspans: &Vec<(u16, u16)>,
    xspans: &Vec<(u16, u16)>,
    acf: AlphaComp,
    ma: Color,
    mo: Color,
)
    requires
        old(fb).wf(),
        src.wf(),
    ensures
        final(fb).wf(),
        final(fb).spec_size() == old(fb).spec_size(),
        final(fb)@ == spec_apply_center(
            old(fb)@,
            old(fb).spec_size().w as int,
            src@,
            src.spec_size().w as int,
            src.spec_size().h as int,
            spos,
            base_x as int,
            base_y as int,
            spans_as_int(yspans@),
            spans_as_int(xspans@),
            acf,
            ma,
            mo,
        ),
{
    let ghost entry = fb@;
    let ghost iysp = spans_as_int(yspans@);
    let ghost ixsp = spans_as_int(xspans@);
    let n = yspans.len();
    let mut i: usize = 0;
    while i < n
        invariant
            i <= n,
            n == yspans@.len(),
            iysp == spans_as_int(yspans@),
            ixsp == spans_as_int(xspans@),
            src.wf(),
            fb.wf(),
            fb.spec_size() == old(fb).spec_size(),
            fb@ == spec_apply_center(
                entry,
                old(fb).spec_size().w as int,
                src@,
                src.spec_size().w as int,
                src.spec_size().h as int,
                spos,
                base_x as int,
                base_y as int,
                iysp.take(i as int),
                ixsp,
                acf,
                ma,
                mo,
            ),
        decreases n - i,
    {
        let (sy, hg) = yspans[i];
        let dy = crate::math::clamp_to_i16(base_y as i64 + sy as i64);
        blit_hspans(fb, src, spos, hg, base_x, dy, xspans, acf, ma, mo);
        proof {
            assert(iysp[i as int] == (yspans@[i as int].0 as int, yspans@[i as int].1 as int));
            assert(iysp.take(i as int + 1).drop_last() =~= iysp.take(i as int));
            assert(iysp.take(i as int + 1).last() == iysp[i as int]);
        }
        i += 1;
    }
    proof {
        assert(iysp.take(n as int) =~= iysp);
    }
}

impl FramebufferStack {
    /// Draws a nine-sliced sprite into a destination rectangle: corners
    /// pinned, edges tiled along their axis, centre tiled both ways.
    fn apply_nine_slice(
        &mut self,
        fb_id: usize,
        bm: &Bitmap,
        nss: NineSlicingSprite,
        rect: Rect,
        acf: AlphaComp,
        ma: Color,
        mo: Color,
    )
        requires
            old(self).wf(),
            bm.wf(),
            spec_nss_fits(nss),
        ensures
            final(self).wf(),
            final(self).spec_size() == old(self).spec_size(),
            final(self).layers() =~= ({
                let ls = spec_pad_layers(old(self).layers(), fb_id as int + 1, old(self).npix());
                ls.update(
                    fb_id as int,
                    spec_nine_slice_apply(
                        ls[fb_id as int],
                        old(self).spec_size().w as int,
                        bm@,
                        bm.spec_size().w as int,
                        bm.spec_size().h as int,
                        nss,
                        rect,
                        acf,
                        ma,
                        mo,
                    ),
                )
            }),
    {
        self.push_fbs(fb_id);
        let ghost padded = self.layers();
        proof {
            assert(self.fbs@.len() == padded.len());
        }
        let tl = nss.slice(crate::render::sprite::NineSlicePart::TopLeft);
        let tc = nss.slice(crate::render::sprite::NineSlicePart::TopCenter);
        let tr = nss.slice(crate::render::sprite::NineSlicePart::TopRight);
        let cl = nss.slice(crate::render::sprite::NineSlicePart::CenterLeft);
        let cc = nss.slice(crate::render::sprite::NineSlicePart::Center);
        let cr = nss.slice(crate::render::sprite::NineSlicePart::CenterRight);
        let bl = nss.slice(crate::render::sprite::NineSlicePart::BottomLeft);
        let bc = nss.slice(crate::render::sprite::NineSlicePart::BottomCenter);
        let br = nss.slice(crate::render::sprite::NineSlicePart::BottomRight);
        let xspans = tile_spans(tl.rect.w, rect.w as i32 - tr.rect.w as i32, tc.rect.w);
        let yspans = tile_spans(tl.rect.h, rect.h as i32 - bl.rect.h as i32, cl.rect.h);
        let xr = crate::math::clamp_to_i16(rect.x as i64 + rect.w as i64 - tr.rect.w as i64);
        let yb = crate::math::clamp_to_i16(rect.y as i64 + rect.h as i64 - bl.rect.h as i64);
        let fb = &mut self.fbs[fb_id];
        blit_corner(fb, bm, tl, Pos { x: rect.x, y: rect.y }, acf, ma, mo);
        if tc.rect.w != 0 && tc.rect.h != 0 {
            blit_hspans(fb, bm, tc.rect.pos(), tc.rect.h, rect.x, rect.y, &xspans, acf, ma, mo);
        }
        blit_corner(fb, bm, tr, Pos { x: xr, y: rect.y }, acf, ma, mo);
        if cl.rect.w != 0 && cl.rect.h != 0 {
            blit_vspans(fb, bm, cl.rect.pos(), cl.rect.w, rect.x, rect.y, &yspans, acf, ma, mo);
        }
        if cc.rect.w != 0 && cc.rect.h != 0 {
            blit_center(fb, bm, cc.rect.pos(), rect.x, rect.y, &yspans, &xspans, acf, ma, mo);
        }
        if cr.rect.w != 0 && cr.rect.h != 0 {
            blit_vspans(fb, bm, cr.rect.pos(), cr.rect.w, xr, rect.y, &yspans, acf, ma, mo);
        }
        blit_corner(fb, bm, bl, Pos { x: rect.x, y: yb }, acf, ma, mo);
        if bc.rect.w != 0 && bc.rect.h != 0 {
            blit_hspans(fb, bm, bc.rect.pos(), bc.rect.h, rect.x, yb, &xspans, acf, ma, mo);
        }
        blit_corner(fb, bm, br, Pos { x: xr, y: yb }, acf, ma, mo);
        proof {
            assert_seqs_equal!(self.layers() == padded.update(fb_id as int,
                spec_nine_slice_apply(padded[fb_id as int], old(self).spec_size().w as int,
                    bm@, bm.spec_size().w as int, bm.spec_size().h as int,
                    nss, rect, acf, ma, mo)));
        }
    }
}


/// The renderer: the layer stack, the font bitmap and table, and the
/// registered spritesheets.
pub struct Renderer {
    fb_stack: FramebufferStack,
    ascii_bitmap: Bitmap,
    ascii_sheet: AsciiSheet,
    spritesheets: Vec<Bitmap>,
}

impl Renderer {
    pub closed spec fn layers(&self) -> Seq<Seq<u32>> {
        self.fb_stack.layers()
    }

    pub closed spec fn spec_size(&self) -> Size {
        self.fb_stack.spec_size()
    }

    pub open spec fn npix(&self) -> int {
        self.spec_size().w as int * self.spec_size().h as int
    }

    pub closed spec fn spec_sheets(&self) -> Seq<Bitmap> {
        self.spritesheets@
    }

    pub closed spec fn spec_ascii_bitmap(&self) -> Bitmap {
        self.ascii_bitmap
    }

    pub closed spec fn spec_ascii_sheet(&self) -> AsciiSheet {
        self.ascii_sheet
    }

    pub closed spec fn wf(&self) -> bool {
        &&& self.fb_stack.wf()
        &&& self.ascii_bitmap.wf()
        &&& forall|i: int|
            0 <= i < self.spritesheets@.len() ==> (#[trigger] self.spritesheets@[i]).wf()
    }

    /// A renderer drawing into `framebuffer`, with `ascii_bitmap` as the
    /// font sheet.
    pub fn new(framebuffer: Bitmap, ascii_bitmap: Bitmap) -> (r: Renderer)
        requires
            framebuffer.wf(),
            ascii_bitmap.wf(),
        ensures
            r.wf(),
            r.spec_size() == framebuffer.spec_size(),
            r.layers() =~= seq![framebuffer@],
            r.spec_sheets() =~= Seq::<Bitmap>::empty(),
            r.spec_ascii_bitmap() == ascii_bitmap,
            r.spec_ascii_sheet() == crate::render::ascii_sheet::spec_ascii_sheet(),
    {
        Renderer {
            fb_stack: FramebufferStack::new(framebuffer),
            ascii_bitmap,
            ascii_sheet: crate::render::ascii_sheet::ascii_sheet(),
            spritesheets: Vec::new(),
        }
    }

    /// Registers a spritesheet and returns the id that draw commands use
    /// to refer to it.
    pub fn register_spritesheet(&mut self, sheet: Bitmap) -> (id: SpritesheetId)
        requires
            old(self).wf(),
            sheet.wf(),
        ensures
            final(self).wf(),
            id.0 == old(self).spec_sheets().len(),
            final(self).spec_sheets() =~= old(self).spec_sheets().push(sheet),
            final(self).layers() == old(self).layers(),
            final(self).spec_size() == old(self).spec_size(),
            final(self).spec_ascii_bitmap() == old(self).spec_ascii_bitmap(),
            final(self).spec_ascii_sheet() == old(self).spec_ascii_sheet(),
    {
        let id = SpritesheetId(self.spritesheets.len());
        self.spritesheets.push(sheet);
        id
    }

    /// The visible surface: layer 0 of the stack.
    pub fn first_framebuffer(&self) -> (r: &Bitmap)
        requires
            self.wf(),
        ensures
            r@ == self.layers()[0],
            r.spec_size() == self.spec_size(),
            r.wf(),
    {
        &self.fb_stack.fbs[0]
    }

    /// Replaces the layer stack with a fresh, transparent one of the given
    /// size. Spritesheets and the font survive a resize.
    pub fn resize(&mut self, size: Size)
        requires
            old(self).wf(),
        ensures
            final(self).wf(),
            final(self).spec_size() == size,
            final(self).layers().len() == 1,
            final(self).layers()[0] =~= Seq::new((size.w as int * size.h as int) as nat, |i: int| 0u32),
            final(self).spec_sheets() == old(self).spec_sheets(),
            final(self).spec_ascii_bitmap() == old(self).spec_ascii_bitmap(),
            final(self).spec_ascii_sheet() == old(self).spec_ascii_sheet(),
    {
        self.fb_stack = FramebufferStack::new(Bitmap::new(size));
    }

    /// Measures a run of ASCII text against the font table.
    pub fn text(&self, text: Vec<u8>) -> (t: Text)
        ensures
            t.spec_text() == text@,
            t.spec_size() == spec_text_size(text@, self.spec_ascii_sheet()),
            t.wf(self.spec_ascii_sheet()),
    {
        let mut w: u16 = 0;
        let mut h: u16 = 0;
        let n = text.len();
        let mut i: usize = 0;
        while i < n
            invariant
                i <= n,
                n == text@.len(),
                (Size { w, h }) == spec_text_size(text@.take(i as int), self.spec_ascii_sheet()),
            decreases n - i,
        {
            let g = ascii_char_to_sprite(text[i], &self.ascii_sheet);
            if w != 0 {
                w = if w as u32 + 1 > u16::MAX as u32 {
                    u16::MAX
                } else {
                    w + 1
                };
            }
            w = if w as u32 + g.rect.w as u32 > u16::MAX as u32 {
                u16::MAX
            } else {
                w + g.rect.w
            };
            if g.rect.h > h {
                h = g.rect.h;
            }
            proof {
                assert(text@.take(i as int + 1).drop_last() =~= text@.take(i as int));
                assert(text@.take(i as int + 1).last() == text@[i as int]);
            }
            i += 1;
        }
        proof {
            assert(text@.take(n as int) =~= text@);
        }
        Text { text, size: Size { w, h } }
    }

    /// Interprets a command stream against the layer stack: the final
    /// layer contents are exactly the [`spec_draw`] fold of the commands
    /// over the current contents, starting with a white and-mask, a
    /// transparent or-mask, and layer 0 active.
    pub fn draw(&mut self, commands: &Vec<DrawCommand>)
        requires
            old(self).wf(),
        ensures
            final(self).wf(),
            final(self).spec_size() == old(self).spec_size(),
            final(self).spec_sheets() == old(self).spec_sheets(),
            final(self).spec_ascii_bitmap() == old(self).spec_ascii_bitmap(),
            final(self).spec_ascii_sheet() == old(self).spec_ascii_sheet(),
            final(self).layers() =~= spec_draw(
                (
                    old(self).layers(),
                    Color { a: 255u8, r: 255u8, g: 255u8, b: 255u8 },
                    Color { a: 0u8, r: 0u8, g: 0u8, b: 0u8 },
                    0,
                ),
                commands@,
                old(self).spec_sheets(),
                old(self).spec_ascii_sheet(),
                old(self).spec_ascii_bitmap(),
                old(self).npix(),
                old(self).spec_size().w as int,
            ).0,
    {
        let ghost init: DrawModel = (
            old(self).layers(),
            Color { a: 255u8, r: 255u8, g: 255u8, b: 255u8 },
            Color { a: 0u8, r: 0u8, g: 0u8, b: 0u8 },
            0int,
        );
        let mut mask_and = Color::white();
        let mut mask_or = Color::transparent();
        let mut fb_id: usize = 0;
        let n = commands.len();
        let mut i: usize = 0;
        while i < n
            invariant
                i <= n,
                n == commands@.len(),
                fb_id as int <= i as int,
                self.fb_stack.wf(),
                self.fb_stack.spec_size() == old(self).spec_size(),
                self.ascii_bitmap == old(self).spec_ascii_bitmap(),
                self.ascii_sheet == old(self).spec_ascii_sheet(),
                self.spritesheets@ == old(self).spec_sheets(),
                self.ascii_bitmap.wf(),
                forall|k: int|
                    0 <= k < self.spritesheets@.len() ==> (#[trigger] self.spritesheets@[k]).wf(),
                (self.fb_stack.layers(), mask_and, mask_or, fb_id as int) == spec_draw(
                    init,
                    commands@.take(i as int),
                    old(self).spec_sheets(),
                    old(self).spec_ascii_sheet(),
                    old(self).spec_ascii_bitmap(),
                    old(self).npix(),
                    old(self).spec_size().w as int,
                ),
            decreases n - i,
        {
            let ghost pre: DrawModel = (self.fb_stack.layers(), mask_and, mask_or, fb_id as int);
            let cmd = &commands[i];
            match cmd {
                DrawCommand::Clear => {
                    self.fb_stack.apply_clear(fb_id);
                },
                DrawCommand::Fill { rect, color, acf } => {
                    self.fb_stack.apply_fill(fb_id, *rect, *color, *acf);
                },
                DrawCommand::Stroke { rect, stroke_width, color, acf } => {
                    if rect.w != 0 && rect.h != 0 {
                        self.fb_stack.apply_stroke(fb_id, *rect, *stroke_width, *color, *acf);
                    }
                },
                DrawCommand::Sprite { pos, rotate, sheet_id, sprite, acf } => {
                    if sprite.rect.w != 0 && sprite.rect.h != 0 && sheet_id.0
                        < self.spritesheets.len() {
                        let bm = &self.spritesheets[sheet_id.0];
                        self.fb_stack.apply_sprite(
                            fb_id,
                            bm,
                            *pos,
                            *rotate,
                            *sprite,
                            *acf,
                            mask_and,
                            mask_or,
                        );
                    }
                },
                DrawCommand::NineSlicingSprite { rect, sheet_id, nss, acf } => {
                    let fits = nss.sprite.rect.x as i32 + nss.sprite.rect.w as i32
                        <= i16::MAX as i32 && nss.sprite.rect.y as i32 + nss.sprite.rect.h as i32
                        <= i16::MAX as i32;
                    if rect.w != 0 && rect.h != 0 && sheet_id.0 < self.spritesheets.len() && fits {
                        let bm = &self.spritesheets[sheet_id.0];
                        self.fb_stack.apply_nine_slice(
                            fb_id,
                            bm,
                            *nss,
                            *rect,
                            *acf,
                            mask_and,
                            mask_or,
                        );
                    }
                },
                DrawCommand::Text { text, pos, acf } => {
                    let sheet = self.ascii_sheet;
                    self.fb_stack.apply_text(
                        fb_id,
                        &self.ascii_bitmap,
                        &sheet,
                        text,
                        *pos,
                        *acf,
                        mask_and,
                        mask_or,
                    );
                },
                DrawCommand::MaskAnd(c) => {
                    mask_and = *c;
                },
                DrawCommand::MaskOr(c) => {
                    mask_or = *c;
                },
                DrawCommand::BeginComposite => {
                    fb_id = fb_id + 1;
                },
                DrawCommand::EndComposite(acf) => {
                    if fb_id > 0 {
                        self.fb_stack.blit_fb_down(fb_id, *acf);
                        fb_id = fb_id - 1;
                    }
                },
            }
            proof {
                assert(commands@.take(i as int + 1).drop_last() =~= commands@.take(i as int));
                assert(commands@.take(i as int + 1).last() == commands@[i as int]);
                assert((self.fb_stack.layers(), mask_and, mask_or, fb_id as int) == spec_step(
                    pre,
                    commands@[i as int],
                    old(self).spec_sheets(),
                    old(self).spec_ascii_sheet(),
                    old(self).spec_ascii_bitmap(),
                    old(self).npix(),
                    old(self).spec_size().w as int,
                ));
            }
            i += 1;
        }
        proof {
            assert(commands@.take(n as int) =~= commands@);
        }
    }
}

} // verus!




