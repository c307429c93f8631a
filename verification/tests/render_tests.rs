use snaek::math::pos::Pos;
use snaek::math::rect::Rect;
use snaek::math::size::Size;
use snaek::math::LayoutRect;
use snaek::render::bitmap::Bitmap;
use snaek::render::color::{add, dst, over, src, xor, AlphaComp, Color};
use snaek::render::sprite::{NineSlicePart, NineSlicingSprite, Sprite};
use snaek::render::{DrawCommand, Renderer, Rotate, SpritesheetId};
use snaek::ui::Anchor;

fn rgba(a: u8, r: u8, g: u8, b: u8) -> Color {
    Color { a, r, g, b }
}

#[test]
fn over_with_opaque_source_replaces_destination() {
    let red = rgba(255, 255, 0, 0);
    let greens = [rgba(0, 0, 0, 0), rgba(255, 0, 255, 0), rgba(17, 3, 250, 99)];
    for dstc in greens {
        assert_eq!(over(red, dstc), red);
    }
}

#[test]
fn over_with_transparent_source_keeps_destination() {
    let clear = rgba(0, 200, 100, 50);
    let below = rgba(123, 45, 67, 89);
    assert_eq!(over(clear, below), below);
}

#[test]
fn over_blends_half_alpha() {
    let a = rgba(128, 200, 0, 0);
    let b = rgba(255, 0, 100, 0);
    let c = over(a, b);
    // (200*128 + 0*127)/255 = 100, (0*128 + 100*127)/255 = 49
    assert_eq!(c.r, 100);
    assert_eq!(c.g, 49);
}

#[test]
fn add_saturates_per_channel() {
    let a = rgba(200, 200, 1, 0);
    let b = rgba(100, 54, 2, 0);
    let c = add(a, b);
    assert_eq!(c.a, 255);
    assert_eq!(c.r, 254);
    assert_eq!(c.g, 3);
    assert_eq!(c.b, 0);
}

#[test]
fn xor_dst_src_behave() {
    let a = rgba(0xf0, 0x0f, 0xaa, 0x55);
    let b = rgba(0xff, 0xff, 0xaa, 0x55);
    let x = xor(a, b);
    assert_eq!((x.a, x.r, x.g, x.b), (0x0f, 0xf0, 0x00, 0x00));
    assert_eq!(dst(a, b), a);
    assert_eq!(src(a, b), b);
}

#[test]
fn color_hex_round_trip() {
    let c = Color::from_hex(0xff18_1425);
    assert_eq!((c.a, c.r, c.g, c.b), (0xff, 0x18, 0x14, 0x25));
    assert_eq!(c.to_u32(), 0xff18_1425);
}

#[test]
fn bitmap_fill_area_is_cropped() {
    let mut bm = Bitmap::new(Size { w: 4, h: 4 });
    let red = rgba(255, 255, 0, 0);
    bm.fill_area(red, Rect { x: 2, y: 2, w: 10, h: 10 }, AlphaComp::Dst);
    let px = bm.pixels();
    for y in 0..4usize {
        for x in 0..4usize {
            let inside = x >= 2 && y >= 2;
            let expect = if inside { red.to_u32() } else { 0 };
            assert_eq!(px[y * 4 + x], expect);
        }
    }
}

#[test]
fn bitmap_fill_area_outside_is_noop() {
    let mut bm = Bitmap::new(Size { w: 4, h: 4 });
    bm.fill_area(rgba(255, 1, 2, 3), Rect { x: -20, y: 0, w: 5, h: 5 }, AlphaComp::Dst);
    // Only the overlap with the buffer is painted: columns 0..-15 are gone.
    assert!(bm.pixels().iter().all(|&p| p == 0));
}

#[test]
fn bitmap_copy_area_applies_masks() {
    let src_bm = Bitmap::from_buffer(vec![0xffff_ffff; 4], Size { w: 2, h: 2 });
    let mut dst_bm = Bitmap::new(Size { w: 2, h: 2 });
    // Keep only the blue channel, then force alpha on.
    dst_bm.copy_bitmap_area(
        &src_bm,
        Pos { x: 0, y: 0 },
        Pos { x: 0, y: 0 },
        Size { w: 2, h: 2 },
        AlphaComp::Dst,
        rgba(0, 0, 0, 255),
        rgba(255, 0, 0, 0),
    );
    assert!(dst_bm.pixels().iter().all(|&p| p == 0xff00_00ff));
}

#[test]
fn bitmap_copy_area_clips_at_destination_edge() {
    let src_bm = Bitmap::from_buffer(vec![0xff00_0001; 9], Size { w: 3, h: 3 });
    let mut dst_bm = Bitmap::new(Size { w: 3, h: 3 });
    dst_bm.copy_bitmap_area(
        &src_bm,
        Pos { x: 2, y: 2 },
        Pos { x: 0, y: 0 },
        Size { w: 3, h: 3 },
        AlphaComp::Dst,
        Color { a: 255, r: 255, g: 255, b: 255 },
        Color { a: 0, r: 0, g: 0, b: 0 },
    );
    let px = dst_bm.pixels();
    // Only the corner lands inside the destination; the rest is clipped.
    for y in 0..3usize {
        for x in 0..3usize {
            let expect = if x == 2 && y == 2 { 0xff00_0001 } else { 0 };
            assert_eq!(px[y * 3 + x], expect);
        }
    }
}

#[test]
fn bitmap_copy_area_skips_out_of_range_source() {
    let src_bm = Bitmap::from_buffer(vec![0xff00_0001; 9], Size { w: 3, h: 3 });
    let mut dst_bm = Bitmap::new(Size { w: 3, h: 3 });
    dst_bm.copy_bitmap_area(
        &src_bm,
        Pos { x: 0, y: 0 },
        Pos { x: 2, y: 2 },
        Size { w: 3, h: 3 },
        AlphaComp::Dst,
        Color { a: 255, r: 255, g: 255, b: 255 },
        Color { a: 0, r: 0, g: 0, b: 0 },
    );
    let px = dst_bm.pixels();
    // Only the source's bottom-right corner exists; it lands at (0,0).
    for y in 0..3usize {
        for x in 0..3usize {
            let expect = if x == 0 && y == 0 { 0xff00_0001 } else { 0 };
            assert_eq!(px[y * 3 + x], expect);
        }
    }
}

#[test]
fn rotated_blit_quarter_turn() {
    // A 2x1 source: left pixel A, right pixel B.
    let src_bm = Bitmap::from_buffer(vec![0xff0000aa, 0xff0000bb], Size { w: 2, h: 1 });
    let mut dst_bm = Bitmap::new(Size { w: 2, h: 2 });
    dst_bm.copy_bitmap_area_rotated(
        &src_bm,
        Pos { x: 0, y: 0 },
        Pos { x: 0, y: 0 },
        Size { w: 2, h: 1 },
        AlphaComp::Dst,
        Color { a: 255, r: 255, g: 255, b: 255 },
        Color { a: 0, r: 0, g: 0, b: 0 },
        Rotate::R90,
    );
    let px = dst_bm.pixels();
    // Clockwise: the row becomes a column, A on top, B below.
    assert_eq!(px[0], 0xff0000aa);
    assert_eq!(px[2], 0xff0000bb);
}

#[test]
fn nine_slice_parts_partition_the_sprite() {
    let nss = NineSlicingSprite {
        sprite: Sprite { rect: Rect { x: 0, y: 0, w: 5, h: 5 } },
        vl: 2,
        vr: 3,
        ht: 2,
        hb: 3,
    };
    assert_eq!(nss.slice(NineSlicePart::TopLeft).rect, Rect { x: 0, y: 0, w: 2, h: 2 });
    assert_eq!(nss.slice(NineSlicePart::Center).rect, Rect { x: 2, y: 2, w: 1, h: 1 });
    assert_eq!(nss.slice(NineSlicePart::BottomRight).rect, Rect { x: 3, y: 3, w: 2, h: 2 });
}

#[test]
fn nine_slice_malformed_guides_degrade_to_empty() {
    let nss = NineSlicingSprite {
        sprite: Sprite { rect: Rect { x: 0, y: 0, w: 5, h: 5 } },
        vl: 9,
        vr: 2,
        ht: 0,
        hb: 0,
    };
    let tc = nss.slice(NineSlicePart::TopCenter).rect;
    assert_eq!(tc.w, 0);
    let tr = nss.slice(NineSlicePart::TopRight).rect;
    assert_eq!(tr.w, 0);
}

fn sheet_5x5() -> Bitmap {
    // Row-major 5x5, each pixel encodes its coordinates, fully opaque.
    let mut buf = Vec::new();
    for y in 0..5u32 {
        for x in 0..5u32 {
            buf.push(0xff00_0000 | (x << 8) | y);
        }
    }
    Bitmap::from_buffer(buf, Size { w: 5, h: 5 })
}

fn src_px(x: u32, y: u32) -> u32 {
    0xff00_0000 | (x << 8) | y
}

#[test]
fn nine_slice_tiling_covers_without_overflow() {
    let fb = Bitmap::new(Size { w: 50, h: 5 });
    let ascii = Bitmap::new(Size { w: 1, h: 1 });
    let mut renderer = Renderer::new(fb, ascii);
    let id = renderer.register_spritesheet(sheet_5x5());
    let nss = NineSlicingSprite {
        sprite: Sprite { rect: Rect { x: 0, y: 0, w: 5, h: 5 } },
        vl: 2,
        vr: 3,
        ht: 2,
        hb: 3,
    };
    let cmds = vec![DrawCommand::NineSlicingSprite {
        rect: Rect { x: 0, y: 0, w: 50, h: 5 },
        sheet_id: id,
        nss,
        acf: AlphaComp::Dst,
    }];
    renderer.draw(&cmds);
    let px = renderer.first_framebuffer().pixels();
    // The centre tile (source column 2) repeats over 50 - 2 - 2 = 46
    // columns of the middle row, never spilling into the right edge.
    for x in 2..48usize {
        assert_eq!(px[2 * 50 + x], src_px(2, 2), "column {x}");
    }
    // Corners stay pinned and the right edge comes from source columns 3-4.
    assert_eq!(px[0], src_px(0, 0));
    assert_eq!(px[2 * 50 + 48], src_px(3, 2));
    assert_eq!(px[2 * 50 + 49], src_px(4, 2));
}

#[test]
fn draw_fill_clear_and_composite() {
    let fb = Bitmap::new(Size { w: 4, h: 4 });
    let ascii = Bitmap::new(Size { w: 1, h: 1 });
    let mut renderer = Renderer::new(fb, ascii);
    let red = rgba(255, 255, 0, 0);
    let cmds = vec![
        DrawCommand::Fill { rect: Rect { x: 0, y: 0, w: 4, h: 4 }, color: red, acf: AlphaComp::Dst },
        DrawCommand::BeginComposite,
        DrawCommand::Clear,
        DrawCommand::Fill {
            rect: Rect { x: 0, y: 0, w: 1, h: 1 },
            color: rgba(255, 0, 255, 0),
            acf: AlphaComp::Dst,
        },
        DrawCommand::EndComposite(AlphaComp::Over),
    ];
    renderer.draw(&cmds);
    let px = renderer.first_framebuffer().pixels();
    assert_eq!(px[0], 0xff00_ff00, "the composited green pixel wins");
    assert_eq!(px[1], 0xffff_0000, "the rest stays red");
}

#[test]
fn draw_unbalanced_end_composite_is_guarded() {
    let fb = Bitmap::new(Size { w: 2, h: 2 });
    let ascii = Bitmap::new(Size { w: 1, h: 1 });
    let mut renderer = Renderer::new(fb, ascii);
    let red = rgba(255, 255, 0, 0);
    let cmds = vec![
        DrawCommand::EndComposite(AlphaComp::Over),
        DrawCommand::EndComposite(AlphaComp::Over),
        DrawCommand::Fill { rect: Rect { x: 0, y: 0, w: 2, h: 2 }, color: red, acf: AlphaComp::Dst },
    ];
    renderer.draw(&cmds);
    assert!(renderer.first_framebuffer().pixels().iter().all(|&p| p == 0xffff_0000));
}

#[test]
fn draw_stroke_outlines_rectangle() {
    let fb = Bitmap::new(Size { w: 4, h: 4 });
    let ascii = Bitmap::new(Size { w: 1, h: 1 });
    let mut renderer = Renderer::new(fb, ascii);
    let red = rgba(255, 255, 0, 0);
    let cmds = vec![DrawCommand::Stroke {
        rect: Rect { x: 0, y: 0, w: 4, h: 4 },
        stroke_width: 1,
        color: red,
        acf: AlphaComp::Dst,
    }];
    renderer.draw(&cmds);
    let px = renderer.first_framebuffer().pixels();
    for y in 0..4usize {
        for x in 0..4usize {
            let border = x == 0 || y == 0 || x == 3 || y == 3;
            let expect = if border { 0xffff_0000 } else { 0 };
            assert_eq!(px[y * 4 + x], expect, "at {x},{y}");
        }
    }
}

#[test]
fn draw_sprite_respects_mask_state() {
    let fb = Bitmap::new(Size { w: 2, h: 2 });
    let ascii = Bitmap::new(Size { w: 1, h: 1 });
    let mut renderer = Renderer::new(fb, ascii);
    let sheet = Bitmap::from_buffer(vec![0xffff_ffff; 4], Size { w: 2, h: 2 });
    let id = renderer.register_spritesheet(sheet);
    let cmds = vec![
        DrawCommand::MaskAnd(rgba(255, 0, 0, 255)),
        DrawCommand::Sprite {
            pos: Pos { x: 0, y: 0 },
            rotate: Rotate::R0,
            sheet_id: id,
            sprite: Sprite { rect: Rect { x: 0, y: 0, w: 2, h: 2 } },
            acf: AlphaComp::Dst,
        },
        DrawCommand::MaskAnd(rgba(255, 255, 255, 255)),
    ];
    renderer.draw(&cmds);
    assert!(renderer.first_framebuffer().pixels().iter().all(|&p| p == 0xff00_00ff));
}

#[test]
fn missing_spritesheet_draws_nothing() {
    let fb = Bitmap::new(Size { w: 2, h: 2 });
    let ascii = Bitmap::new(Size { w: 1, h: 1 });
    let mut renderer = Renderer::new(fb, ascii);
    let cmds = vec![DrawCommand::Sprite {
        pos: Pos { x: 0, y: 0 },
        rotate: Rotate::R0,
        sheet_id: SpritesheetId(7),
        sprite: Sprite { rect: Rect { x: 0, y: 0, w: 2, h: 2 } },
        acf: AlphaComp::Dst,
    }];
    renderer.draw(&cmds);
    assert!(renderer.first_framebuffer().pixels().iter().all(|&p| p == 0));
}

#[test]
fn text_measurement_counts_glyphs_and_spacing() {
    let fb = Bitmap::new(Size { w: 1, h: 1 });
    let ascii = Bitmap::new(Size { w: 1, h: 1 });
    let renderer = Renderer::new(fb, ascii);
    // 'A' is 4x6 and 'B' is 4x6 in the font table, plus 1px spacing.
    let t = renderer.text(b"AB".to_vec());
    assert_eq!(t.size(), Size { w: 9, h: 6 });
    let empty = renderer.text(Vec::new());
    assert_eq!(empty.size(), Size { w: 0, h: 0 });
}

#[test]
fn layout_rect_center_round_trip() {
    let lr = LayoutRect::new(
        Rect { x: 50, y: 50, w: 10, h: 10 },
        Anchor { x: 128, y: 128 },
    );
    assert_eq!(lr.to_rect(), Rect { x: 45, y: 45, w: 10, h: 10 });
    assert_eq!(lr.top_left(), Pos { x: 45, y: 45 });
}
