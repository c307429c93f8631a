//! A fixed-size ARGB pixel buffer with alpha-composed fill and blit
//! primitives.
//!
//! Every drawing primitive is specified pixel by pixel: the new buffer is a
//! pure function of the old buffer, the source pixels and the composition
//! function. Out-of-range geometry never fails; pixels that fall outside
//! either buffer are simply left alone, so malformed rectangles degrade to
//! smaller copies or to no-ops.

use vstd::prelude::*;
use vstd::assert_seqs_equal;

use crate::math::pos::Pos;
use crate::math::rect::Rect;
use crate::math::size::Size;
use crate::render::color::{
    spec_combine, spec_from_hex, spec_masked, spec_to_u32, AlphaComp, Color,
};
use crate::render::Rotate;

verus! {

/// One destination pixel after compositing a source color onto it.
pub open spec fn blend_u32(acf: AlphaComp, src: Color, dstw: u32) -> u32 {
    spec_to_u32(spec_combine(acf, src, spec_from_hex(dstw)))
}

/// What [`Bitmap::fill`] leaves in the buffer: every pixel composed with
/// the fill color.
pub open spec fn spec_fill(buf: Seq<u32>, color: Color, acf: AlphaComp) -> Seq<u32> {
    Seq::new(buf.len(), |i: int| blend_u32(acf, color, buf[i]))
}

/// What [`Bitmap::fill_area`] leaves in the buffer: pixels inside `rect`
/// (implicitly cropped to the `w`-wide grid) composed with the fill color,
/// all others unchanged.
pub open spec fn spec_fill_area(
    buf: Seq<u32>,
    w: int,
    rect: Rect,
    color: Color,
    acf: AlphaComp,
) -> Seq<u32> {
    if w <= 0 {
        buf
    } else {
        Seq::new(
            buf.len(),
            |i: int|
                {
                    let x = i % w;
                    let y = i / w;
                    if rect.x as int <= x < rect.x as int + rect.w as int && rect.y as int <= y
                        < rect.y as int + rect.h as int {
                        blend_u32(acf, color, buf[i])
                    } else {
                        buf[i]
                    }
                },
        )
    }
}

/// What [`Bitmap::copy_bitmap`] leaves in the buffer: each pixel composed
/// with the same-index source pixel, where one exists.
pub open spec fn spec_copy_full(dst: Seq<u32>, src: Seq<u32>, acf: AlphaComp) -> Seq<u32> {
    Seq::new(
        dst.len(),
        |i: int|
            if i < src.len() {
                blend_u32(acf, spec_from_hex(src[i]), dst[i])
            } else {
                dst[i]
            },
    )
}

/// The source offset that feeds destination offset `(i, j)` of a blit
/// rotated by `rot`. `w` and `h` are the size of the unrotated source
/// region.
pub open spec fn spec_rot_offset(rot: Rotate, i: int, j: int, w: int, h: int) -> (int, int) {
    match rot {
        Rotate::R0 => (i, j),
        Rotate::R90 => (j, h - 1 - i),
        Rotate::R180 => (w - 1 - i, h - 1 - j),
        Rotate::R270 => (w - 1 - j, i),
    }
}

/// The destination footprint of a blit rotated by `rot`: quarter turns swap
/// width and height.
pub open spec fn spec_rot_size(rot: Rotate, w: int, h: int) -> (int, int) {
    match rot {
        Rotate::R0 | Rotate::R180 => (w, h),
        Rotate::R90 | Rotate::R270 => (h, w),
    }
}

/// What [`Bitmap::copy_bitmap_area_rotated`] leaves in the destination:
/// for every destination pixel covered by both the (rotated) copy region
/// and the source bounds, the source pixel is masked with
/// `(src & mask_and) | mask_or` and composed onto the destination; every
/// other pixel is unchanged.
pub open spec fn spec_copy_area_rotated(
    dst: Seq<u32>,
    dw: int,
    src: Seq<u32>,
    sw: int,
    sh: int,
    dpos: Pos,
    spos: Pos,
    size: Size,
    acf: AlphaComp,
    mask_and: Color,
    mask_or: Color,
    rot: Rotate,
) -> Seq<u32> {
    if dw <= 0 || sw <= 0 {
        dst
    } else {
        let (rw, rh) = spec_rot_size(rot, size.w as int, size.h as int);
        Seq::new(
            dst.len(),
            |k: int|
                {
                    let i = k % dw - dpos.x as int;
                    let j = k / dw - dpos.y as int;
                    let (si, sj) = spec_rot_offset(rot, i, j, size.w as int, size.h as int);
                    let sx = spos.x as int + si;
                    let sy = spos.y as int + sj;
                    if 0 <= i < rw && 0 <= j < rh && 0 <= sx < sw && 0 <= sy < sh && sy * sw + sx
                        < src.len() {
                        blend_u32(
                            acf,
                            spec_masked(spec_from_hex(src[sy * sw + sx]), mask_and, mask_or),
                            dst[k],
                        )
                    } else {
                        dst[k]
                    }
                },
        )
    }
}

/// [`spec_copy_area_rotated`] without rotation: the contract of
/// [`Bitmap::copy_bitmap_area`].
pub open spec fn spec_copy_area(
    dst: Seq<u32>,
    dw: int,
    src: Seq<u32>,
    sw: int,
    sh: int,
    dpos: Pos,
    spos: Pos,
    size: Size,
    acf: AlphaComp,
    mask_and: Color,
    mask_or: Color,
) -> Seq<u32> {
    spec_copy_area_rotated(
        dst,
        dw,
        src,
        sw,
        sh,
        dpos,
        spos,
        size,
        acf,
        mask_and,
        mask_or,
        Rotate::R0,
    )
}

/// An ARGB bitmap: a row-major pixel buffer and its dimensions.
#[derive(Debug, Clone)]
pub struct Bitmap {
    buffer: Vec<u32>,
    size: Size,
}

impl View for Bitmap {
    type V = Seq<u32>;

    closed spec fn view(&self) -> Seq<u32> {
        self.buffer@
    }
}

impl Bitmap {
    /// The bitmap's size, as a spec-level value.
    pub closed spec fn spec_size(&self) -> Size {
        self.size
    }

    /// The buffer holds exactly one pixel per grid cell.
    pub open spec fn wf(&self) -> bool {
        self@.len() == self.spec_size().w as int * self.spec_size().h as int
    }

    /// Wraps an existing pixel buffer.
    pub fn from_buffer(buffer: Vec<u32>, size: Size) -> (b: Bitmap)
        requires
            buffer@.len() == size.w as int * size.h as int,
        ensures
            b.wf(),
            b.spec_size() == size,
            b@ == buffer@,
    {
        Bitmap { buffer, size }
    }

    /// A transparent-black bitmap of the given size.
    pub fn new(size: Size) -> (b: Bitmap)
        ensures
            b.wf(),
            b.spec_size() == size,
            b@ == Seq::new((size.w as int * size.h as int) as nat, |i: int| 0u32),
    {
        proof {
            assert((size.w as int) * (size.h as int) <= 0xffff * 0xffff) by (nonlinear_arith)
                requires
                    0 <= size.w as int <= 0xffff,
                    0 <= size.h as int <= 0xffff,
            ;
        }
        let n: usize = size.w as usize * size.h as usize;
        let mut buffer: Vec<u32> = Vec::new();
        while buffer.len() < n
            invariant
                buffer@.len() <= n,
                forall|i: int| 0 <= i < buffer@.len() ==> buffer@[i] == 0u32,
            decreases n - buffer@.len(),
        {
            buffer.push(0);
        }
        proof {
            assert_seqs_equal!(buffer@ == Seq::new((size.w as int * size.h as int) as nat, |i: int| 0u32));
        }
        Bitmap { buffer, size }
    }

    /// Replaces the buffer with a transparent-black one of the given size.
    /// This completely resets the pixel data.
    pub fn resize(&mut self, size: Size)
        ensures
            final(self).wf(),
            final(self).spec_size() == size,
            final(self)@ == Seq::new((size.w as int * size.h as int) as nat, |i: int| 0u32),
    {
        *self = Bitmap::new(size);
    }

    /// The raw pixels, row-major.
    pub fn pixels(&self) -> (r: &Vec<u32>)
        ensures
            r@ == self@,
    {
        &self.buffer
    }

    pub fn size(&self) -> (s: Size)
        ensures
            s == self.spec_size(),
    {
        self.size
    }

    /// A copy of one horizontal run of pixels, starting at `pos` and
    /// clamped to the right edge of the row.
    pub fn line(&self, pos: Pos, width: u16) -> (r: Vec<u32>)
        requires
            self.wf(),
            0 <= pos.x < self.spec_size().w,
            0 <= pos.y < self.spec_size().h,
        ensures
            r@ == self@.subrange(
                pos.y as int * self.spec_size().w as int + pos.x as int,
                pos.y as int * self.spec_size().w as int + pos.x as int + min_int(
                    width as int,
                    self.spec_size().w as int - pos.x as int,
                ),
            ),
    {
        let w = self.size.w as usize;
        let x = pos.x as usize;
        let y = pos.y as usize;
        let len = if (width as usize) < w - x {
            width as usize
        } else {
            w - x
        };
        let blen = self.buffer.len();
        proof {
            assert(y * w + w <= (w as int) * (self.spec_size().h as int)) by (nonlinear_arith)
                requires
                    0 <= y < self.spec_size().h as int,
                    w == self.spec_size().w as int,
            ;
            assert(y * w + w <= blen);
        }
        let start = y * w + x;
        let mut r: Vec<u32> = Vec::new();
        let mut i: usize = 0;
        while i < len
            invariant
                self.wf(),
                w == self.spec_size().w as int,
                x == pos.x as int,
                y == pos.y as int,
                start == y * w + x,
                x + len <= w,
                blen == self.buffer@.len(),
                start + len <= blen,
                len == min_int(width as int, self.spec_size().w as int - pos.x as int),
                i <= len,
                r@.len() == i as int,
                forall|j: int| 0 <= j < i as int ==> r@[j] == self@[start as int + j],
            decreases len - i,
        {
            r.push(self.buffer[start + i]);
            i += 1;
        }
        proof {
            assert_seqs_equal!(r@ == self@.subrange(start as int, start as int + len as int));
        }
        r
    }

    /// Composes `other` onto this bitmap, pixel for pixel at equal indices.
    pub fn copy_bitmap(&mut self, other: &Bitmap, acf: AlphaComp)
        ensures
            final(self).spec_size() == old(self).spec_size(),
            final(self)@ == spec_copy_full(old(self)@, other@, acf),
    {
        let len = self.buffer.len();
        let olen = other.buffer.len();
        let n = if len < olen {
            len
        } else {
            olen
        };
        let mut k: usize = 0;
        while k < n
            invariant
                k <= n,
                len == self.buffer@.len(),
                olen == other.buffer@.len(),
                n == min_int(len as int, olen as int),
                n <= self.buffer@.len(),
                n <= other.buffer@.len(),
                self.buffer@.len() == old(self)@.len(),
                self.size == old(self).spec_size(),
                other@ == other.buffer@,
                forall|j: int|
                    0 <= j < k as int ==> self.buffer@[j] == blend_u32(
                        acf,
                        spec_from_hex(other@[j]),
                        old(self)@[j],
                    ),
                forall|j: int| k as int <= j < self.buffer@.len() ==> self.buffer@[j] == old(self)@[j],
            decreases n - k,
        {
            let px = self.buffer[k];
            let opx = other.buffer[k];
            let c = acf.combine(Color::from_hex(opx), Color::from_hex(px));
            self.buffer.set(k, c.to_u32());
            k += 1;
        }
        proof {
            assert_seqs_equal!(self.buffer@ == spec_copy_full(old(self)@, other@, acf));
        }
    }

    /// Composes `color` onto every pixel.
    pub fn fill(&mut self, color: Color, acf: AlphaComp)
        ensures
            final(self).spec_size() == old(self).spec_size(),
            final(self)@ == spec_fill(old(self)@, color, acf),
    {
        let len = self.buffer.len();
        let mut k: usize = 0;
        while k < len
            invariant
                len == self.buffer@.len(),
                len == old(self)@.len(),
                self.size == old(self).spec_size(),
                forall|j: int|
                    0 <= j < k as int ==> self.buffer@[j] == blend_u32(acf, color, old(self)@[j]),
                forall|j: int| k as int <= j < len ==> self.buffer@[j] == old(self)@[j],
            decreases len - k,
        {
            let px = self.buffer[k];
            let c = acf.combine(color, Color::from_hex(px));
            self.buffer.set(k, c.to_u32());
            k += 1;
        }
        proof {
            assert_seqs_equal!(self.buffer@ == spec_fill(old(self)@, color, acf));
        }
    }

    /// Composes `color` onto every pixel inside `rect`, cropped to the
    /// buffer; a rectangle that lies outside draws nothing.
    pub fn fill_area(&mut self, color: Color, rect: Rect, acf: AlphaComp)
        requires
            old(self).wf(),
        ensures
            final(self).wf(),
            final(self).spec_size() == old(self).spec_size(),
            final(self)@ == spec_fill_area(
                old(self)@,
                old(self).spec_size().w as int,
                rect,
                color,
                acf,
            ),
    {
        let w = self.size.w as usize;
        if w == 0 {
            return ;
        }
        let len = self.buffer.len();
        let mut k: usize = 0;
        while k < len
            invariant
                self.wf(),
                w == self.spec_size().w as int,
                w > 0,
                len == self.buffer@.len(),
                len == old(self)@.len(),
                self.size == old(self).spec_size(),
                forall|j: int|
                    0 <= j < k as int ==> self.buffer@[j] == spec_fill_area(
                        old(self)@,
                        w as int,
                        rect,
                        color,
                        acf,
                    )[j],
                forall|j: int| k as int <= j < len ==> self.buffer@[j] == old(self)@[j],
            decreases len - k,
        {
            proof {
                assert(k as int % (w as int) < w as int && k as int / (w as int)
                    < self.spec_size().h as int) by (nonlinear_arith)
                    requires
                        w as int > 0,
                        0 <= k as int,
                        (k as int) < (w as int) * (self.spec_size().h as int),
                ;
            }
            let x = (k % w) as i32;
            let y = (k / w) as i32;
            if rect.x as i32 <= x && x < rect.x as i32 + rect.w as i32 && rect.y as i32 <= y && y
                < rect.y as i32 + rect.h as i32 {
                let px = self.buffer[k];
                let c = acf.combine(color, Color::from_hex(px));
                self.buffer.set(k, c.to_u32());
            }
            k += 1;
        }
        proof {
            assert_seqs_equal!(self.buffer@ == spec_fill_area(old(self)@,
                old(self).spec_size().w as int, rect, color, acf));
        }
    }

    /// Blits a rectangular region from `other`, masking each source pixel
    /// with `(src & mask_and) | mask_or` before compositing. Pixels outside
    /// either bitmap are skipped.
    pub fn copy_bitmap_area(
        &mut self,
        other: &Bitmap,
        this_pos: Pos,
        other_pos: Pos,
        size: Size,
        acf: AlphaComp,
        mask_and: Color,
        mask_or: Color,
    )
        requires
            old(self).wf(),
            other.wf(),
        ensures
            final(self).wf(),
            final(self).spec_size() == old(self).spec_size(),
            final(self)@ == spec_copy_area(
                old(self)@,
                old(self).spec_size().w as int,
                other@,
                other.spec_size().w as int,
                other.spec_size().h as int,
                this_pos,
                other_pos,
                size,
                acf,
                mask_and,
                mask_or,
            ),
    {
        self.copy_bitmap_area_rotated(
            other,
            this_pos,
            other_pos,
            size,
            acf,
            mask_and,
            mask_or,
            Rotate::R0,
        );
    }

    /// [`Bitmap::copy_bitmap_area`] with the copied region rotated by a
    /// quarter-turn multiple; the destination footprint swaps width and
    /// height for odd quarter turns.
    pub fn copy_bitmap_area_rotated(
        &mut self,
        other: &Bitmap,
        this_pos: Pos,
        other_pos: Pos,
        size: Size,
        acf: AlphaComp,
        mask_and: Color,
        mask_or: Color,
        rot: Rotate,
    )
        requires
            old(self).wf(),
            other.wf(),
        ensures
            final(self).wf(),
            final(self).spec_size() == old(self).spec_size(),
            final(self)@ == spec_copy_area_rotated(
                old(self)@,
                old(self).spec_size().w as int,
                other@,
                other.spec_size().w as int,
                other.spec_size().h as int,
                this_pos,
                other_pos,
                size,
                acf,
                mask_and,
                mask_or,
                rot,
            ),
    {
        let dw = self.size.w as usize;
        let sw = other.size.w as usize;
        let sh = other.size.h as usize;
        if dw == 0 || sw == 0 {
            return ;
        }
        let (rw, rh): (u16, u16) = match rot {
            Rotate::R0 | Rotate::R180 => (size.w, size.h),
            Rotate::R90 | Rotate::R270 => (size.h, size.w),
        };
        let len = self.buffer.len();
        let ghost gspec = spec_copy_area_rotated(
            old(self)@,
            old(self).spec_size().w as int,
            other@,
            other.spec_size().w as int,
            other.spec_size().h as int,
            this_pos,
            other_pos,
            size,
            acf,
            mask_and,
            mask_or,
            rot,
        );
        let mut k: usize = 0;
        while k < len
            invariant
                self.wf(),
                dw == self.spec_size().w as int,
                dw > 0,
                sw == other.spec_size().w as int,
                sw > 0,
                sh == other.spec_size().h as int,
                other.wf(),
                other@ == other.buffer@,
                len == self.buffer@.len(),
                len == old(self)@.len(),
                self.size == old(self).spec_size(),
                (rw as int, rh as int) == spec_rot_size(rot, size.w as int, size.h as int),
                gspec == spec_copy_area_rotated(
                    old(self)@,
                    old(self).spec_size().w as int,
                    other@,
                    other.spec_size().w as int,
                    other.spec_size().h as int,
                    this_pos,
                    other_pos,
                    size,
                    acf,
                    mask_and,
                    mask_or,
                    rot,
                ),
                forall|j: int| 0 <= j < k as int ==> self.buffer@[j] == gspec[j],
                forall|j: int| k as int <= j < len ==> self.buffer@[j] == old(self)@[j],
            decreases len - k,
        {
            proof {
                assert(k as int % (dw as int) < dw as int && k as int / (dw as int)
                    < self.spec_size().h as int) by (nonlinear_arith)
                    requires
                        dw as int > 0,
                        0 <= k as int,
                        (k as int) < (dw as int) * (self.spec_size().h as int),
                ;
            }
            let i = (k % dw) as i64 - this_pos.x as i64;
            let j = (k / dw) as i64 - this_pos.y as i64;
            if 0 <= i && i < rw as i64 && 0 <= j && j < rh as i64 {
                let (si, sj): (i64, i64) = match rot {
                    Rotate::R0 => (i, j),
                    Rotate::R90 => (j, size.h as i64 - 1 - i),
                    Rotate::R180 => (size.w as i64 - 1 - i, size.h as i64 - 1 - j),
                    Rotate::R270 => (size.w as i64 - 1 - j, i),
                };
                let sx = other_pos.x as i64 + si;
                let sy = other_pos.y as i64 + sj;
                if 0 <= sx && sx < sw as i64 && 0 <= sy && sy < sh as i64 {
                    proof {
                        assert((sy as int) * (sw as int) + (sx as int) < (sw as int) * (sh as int))
                            by (nonlinear_arith)
                            requires
                                0 <= (sx as int) < (sw as int),
                                0 <= (sy as int) < (sh as int),
                        ;
                    }
                    let olen = other.buffer.len();
                    proof {
                        assert((sw as int) * (sh as int) == other@.len());
                    }
                    let sidx = sy as usize * sw + sx as usize;
                    if sidx < other.buffer.len() {
                        let spx = other.buffer[sidx];
                        let dpx = self.buffer[k];
                        let masked = Color::from_hex(spx).band(mask_and).bor(mask_or);
                        let c = acf.combine(masked, Color::from_hex(dpx));
                        self.buffer.set(k, c.to_u32());
                    }
                }
            }
            proof {
                assert(self.buffer@[k as int] == gspec[k as int]);
            }
            k += 1;
        }
        proof {
            assert_seqs_equal!(self.buffer@ == gspec);
        }
    }
}

/// The smaller of two mathematical integers.
pub open spec fn min_int(a: int, b: int) -> int {
    if a < b {
        a
    } else {
        b
    }
}

} // verus!
