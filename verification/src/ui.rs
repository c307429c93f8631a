//! The retained widget tree with an immediate-mode build API.
//!
//! Every frame the caller re-declares its widgets with [`UiContext::build_widget`];
//! widgets are recognised across frames by a stable 64-bit key, so a widget
//! keeps its identity, and its interaction state, as long as its call site
//! keeps building it. Widgets not rebuilt in a frame are swept onto a free
//! list by [`UiContext::free_untouched_widgets`].

use std::collections::hash_map::DefaultHasher;
use std::collections::HashMap;
use std::hash::Hasher;

use vstd::prelude::*;
use vstd::std_specs::hash::DefaultHasherAdditionalSpecFns;
use vstd::string::StringSliceAdditionalSpecFns;

use crate::math::pos::Pos;
use crate::math::rect::Rect;
use crate::math::size::Size;
use crate::render::color::{AlphaComp, Color};
use crate::render::sprite::{NineSlicingSprite, Sprite};
use crate::render::{DrawCommand, Rotate, SpritesheetId, Text};

pub mod components;
pub mod layout;

verus! {

broadcast use vstd::std_specs::hash::group_hash_axioms;

/// ID of a widget: a 1-based handle into the widget arena.
///
/// The first widget ever built is the root of the tree; all other widgets
/// are attached beneath it with [`UiContext::add_child`].
#[derive(Debug, Clone, Copy, PartialEq, Eq, Hash, Structural)]
pub struct WidgetId(usize);

impl WidgetId {
    /// The arena slot this id refers to: ids are 1-based.
    pub open spec fn index(self) -> int {
        self.raw() - 1
    }

    /// The raw 1-based value.
    pub closed spec fn raw(self) -> int {
        self.0 as int
    }

    /// The raw 1-based value, for range checks.
    pub fn raw_value(&self) -> (r: usize)
        ensures
            r as int == self.raw(),
    {
        self.0
    }
}

/// A key that uniquely identifies a logical widget across frames.
///
/// Callers derive it from a call-site hash plus loop indices, so that the
/// same declaration site names the same widget every frame.
#[derive(Debug, Clone, Copy, PartialEq, Eq, Hash, Structural)]
pub struct WidgetKey(u64);

impl WidgetKey {
    pub closed spec fn raw(self) -> u64 {
        self.0
    }

    /// Wraps a raw 64-bit key.
    pub fn new(raw: u64) -> (k: WidgetKey)
        ensures
            k.raw() == raw,
    {
        WidgetKey(raw)
    }

    /// A key derived from this one and an index, for widgets built in
    /// loops: a fixed 64-bit mix of the two.
    pub fn scoped(self, n: u64) -> (k: WidgetKey)
        ensures
            k.raw() == spec_scoped_key(self.raw(), n),
    {
        let mixed = (((self.0 ^ n) as u128 * 0x9e37_79b9_7f4a_7c15u128) % 0x1_0000_0000_0000_0000u128) as u64;
        WidgetKey(mixed ^ (n << 1) ^ 1)
    }
}

impl Default for WidgetKey {
    /// The zero key, used by default-constructed properties.
    fn default() -> (k: Self)
        ensures
            k.raw() == 0,
    {
        WidgetKey(0)
    }
}

/// The key mix used by [`WidgetKey::scoped`].
pub open spec fn spec_scoped_key(k: u64, n: u64) -> u64 {
    ((((k ^ n) as int * 0x9e37_79b9_7f4a_7c15) % 0x1_0000_0000_0000_0000) as u64) ^ (n << 1) ^ 1
}

/// The little-endian bytes of a 64-bit value, as fed to the key hasher.
pub open spec fn spec_u64_bytes(x: u64) -> Seq<u8> {
    seq![
        (x & 0xff) as u8,
        ((x >> 8) & 0xff) as u8,
        ((x >> 16) & 0xff) as u8,
        ((x >> 24) & 0xff) as u8,
        ((x >> 32) & 0xff) as u8,
        ((x >> 40) & 0xff) as u8,
        ((x >> 48) & 0xff) as u8,
        ((x >> 56) & 0xff) as u8,
    ]
}

/// The little-endian bytes of a 64-bit value.
fn u64_bytes(x: u64) -> (r: Vec<u8>)
    ensures
        r@ == spec_u64_bytes(x),
{
    let mut r: Vec<u8> = Vec::new();
    r.push((x & 0xff) as u8);
    r.push(((x >> 8) & 0xff) as u8);
    r.push(((x >> 16) & 0xff) as u8);
    r.push(((x >> 24) & 0xff) as u8);
    r.push(((x >> 32) & 0xff) as u8);
    r.push(((x >> 40) & 0xff) as u8);
    r.push(((x >> 48) & 0xff) as u8);
    r.push(((x >> 56) & 0xff) as u8);
    proof {
        assert(r@ =~= spec_u64_bytes(x));
    }
    r
}

/// Builds a [`WidgetKey`] by hashing a call-site location and caller
/// chosen disambiguators, in a fixed order.
///
/// The view of the wrapped hasher records the sequence of byte runs
/// written so far, so the resulting key is a function of exactly what was
/// hashed.
pub struct WidgetKeyHasher(DefaultHasher);

impl WidgetKeyHasher {
    /// The byte runs hashed so far.
    pub closed spec fn view(&self) -> Seq<Seq<u8>> {
        self.0@
    }

    /// A fresh hasher with nothing written.
    pub fn new() -> (h: WidgetKeyHasher)
        ensures
            h@ == Seq::<Seq<u8>>::empty(),
    {
        WidgetKeyHasher(DefaultHasher::new())
    }

    /// Hashes a call-site location: module path, line and column.
    pub fn hash_loc(self, module: &str, line: u32, col: u32) -> (h: WidgetKeyHasher)
        ensures
            h@ == self@.push(module.spec_bytes()).push(spec_u64_bytes(line as u64)).push(
                spec_u64_bytes(col as u64),
            ),
    {
        let mut inner = self.0;
        inner.write(module.as_bytes());
        let lb = u64_bytes(line as u64);
        inner.write(lb.as_slice());
        let cb = u64_bytes(col as u64);
        inner.write(cb.as_slice());
        WidgetKeyHasher(inner)
    }

    /// Hashes one caller-supplied disambiguator.
    pub fn hash_n(self, n: u64) -> (h: WidgetKeyHasher)
        ensures
            h@ == self@.push(spec_u64_bytes(n)),
    {
        let mut inner = self.0;
        let nb = u64_bytes(n);
        inner.write(nb.as_slice());
        WidgetKeyHasher(inner)
    }

    /// Hashes an existing key, scoping this one under it.
    pub fn hash_key(self, key: WidgetKey) -> (h: WidgetKeyHasher)
        ensures
            h@ == self@.push(spec_u64_bytes(key.raw())),
    {
        let mut inner = self.0;
        let kb = u64_bytes(key.0);
        inner.write(kb.as_slice());
        WidgetKeyHasher(inner)
    }

    /// The finished key: a pure function of the byte runs written.
    pub fn finish(self) -> (k: WidgetKey)
        ensures
            k.raw() == DefaultHasher::spec_finish(self@),
    {
        WidgetKey(self.0.finish())
    }
}

/// What a widget's interaction state was going into this frame, returned
/// by [`UiContext::build_widget`] so a caller can write
/// `if button.clicked() { ... }` right after declaring the button.
#[derive(Debug, Clone, Copy, PartialEq, Eq, Structural)]
pub struct WidgetReaction {
    id: WidgetId,
    hovered: bool,
    pressed: bool,
    clicked: bool,
}

impl WidgetReaction {
    pub closed spec fn spec_id(&self) -> WidgetId {
        self.id
    }

    pub closed spec fn spec_hovered(&self) -> bool {
        self.hovered
    }

    pub closed spec fn spec_pressed(&self) -> bool {
        self.pressed
    }

    pub closed spec fn spec_clicked(&self) -> bool {
        self.clicked
    }

    pub fn id(&self) -> (r: WidgetId)
        ensures
            r == self.spec_id(),
    {
        self.id
    }

    pub fn hovered(&self) -> (r: bool)
        ensures
            r == self.spec_hovered(),
    {
        self.hovered
    }

    pub fn pressed(&self) -> (r: bool)
        ensures
            r == self.spec_pressed(),
    {
        self.pressed
    }

    pub fn clicked(&self) -> (r: bool)
        ensures
            r == self.spec_clicked(),
    {
        self.clicked
    }
}

/// A fractional attachment point, in units of 1/256: `(0, 0)` is the
/// top-left corner, `(128, 128)` the centre, `(256, 256)` the bottom-right
/// corner.
#[derive(Debug, Clone, Copy, PartialEq, Eq, Hash, Structural)]
pub struct Anchor {
    pub x: u16,
    pub y: u16,
}

/// The denominator of anchor fractions: this many units make one whole
/// width or height.
pub const ANCHOR_ONE: u16 = 256;

impl Anchor {
    pub fn new(x: u16, y: u16) -> (a: Anchor)
        ensures
            a == (Anchor { x, y }),
    {
        Anchor { x, y }
    }

    pub fn top_left() -> (a: Anchor)
        ensures
            a == (Anchor { x: 0u16, y: 0u16 }),
    {
        Anchor { x: 0, y: 0 }
    }

    pub fn top_center() -> (a: Anchor)
        ensures
            a == (Anchor { x: 128u16, y: 0u16 }),
    {
        Anchor { x: 128, y: 0 }
    }

    pub fn top_right() -> (a: Anchor)
        ensures
            a == (Anchor { x: 256u16, y: 0u16 }),
    {
        Anchor { x: 256, y: 0 }
    }

    pub fn center_left() -> (a: Anchor)
        ensures
            a == (Anchor { x: 0u16, y: 128u16 }),
    {
        Anchor { x: 0, y: 128 }
    }

    pub fn center() -> (a: Anchor)
        ensures
            a == (Anchor { x: 128u16, y: 128u16 }),
    {
        Anchor { x: 128, y: 128 }
    }

    pub fn center_right() -> (a: Anchor)
        ensures
            a == (Anchor { x: 256u16, y: 128u16 }),
    {
        Anchor { x: 256, y: 128 }
    }

    pub fn bottom_left() -> (a: Anchor)
        ensures
            a == (Anchor { x: 0u16, y: 256u16 }),
    {
        Anchor { x: 0, y: 256 }
    }

    pub fn bottom_center() -> (a: Anchor)
        ensures
            a == (Anchor { x: 128u16, y: 256u16 }),
    {
        Anchor { x: 128, y: 256 }
    }

    pub fn bottom_right() -> (a: Anchor)
        ensures
            a == (Anchor { x: 256u16, y: 256u16 }),
    {
        Anchor { x: 256, y: 256 }
    }
}

/// How one dimension of a widget is sized: explicit pixels, hug the
/// content, or fill the parent's remainder.
#[derive(Debug, Clone, Copy, PartialEq, Eq, Hash, Structural)]
pub enum WidgetDim {
    Fixed(u16),
    Hug,
    Fill,
}

/// The sizing mode of both widget dimensions.
#[derive(Debug, Clone, Copy, PartialEq, Eq, Hash, Structural)]
pub struct WidgetSize {
    pub w: WidgetDim,
    pub h: WidgetDim,
}

impl WidgetSize {
    pub fn new(w: WidgetDim, h: WidgetDim) -> (s: WidgetSize)
        ensures
            s == (WidgetSize { w, h }),
    {
        WidgetSize { w, h }
    }

    pub fn fill() -> (s: WidgetSize)
        ensures
            s == (WidgetSize { w: WidgetDim::Fill, h: WidgetDim::Fill }),
    {
        WidgetSize { w: WidgetDim::Fill, h: WidgetDim::Fill }
    }

    pub fn fixed(w: u16, h: u16) -> (s: WidgetSize)
        ensures
            s == (WidgetSize { w: WidgetDim::Fixed(w), h: WidgetDim::Fixed(h) }),
    {
        WidgetSize { w: WidgetDim::Fixed(w), h: WidgetDim::Fixed(h) }
    }

    pub fn hug() -> (s: WidgetSize)
        ensures
            s == (WidgetSize { w: WidgetDim::Hug, h: WidgetDim::Hug }),
    {
        WidgetSize { w: WidgetDim::Hug, h: WidgetDim::Hug }
    }
}

/// Inner padding of a widget, in pixels, per side.
#[derive(Debug, Clone, Copy, PartialEq, Eq, Hash, Structural)]
pub struct WidgetPadding {
    pub t: i16,
    pub r: i16,
    pub b: i16,
    pub l: i16,
}

impl WidgetPadding {
    /// Top, right, bottom, left.
    pub fn trbl(t: i16, r: i16, b: i16, l: i16) -> (p: WidgetPadding)
        ensures
            p == (WidgetPadding { t, r, b, l }),
    {
        WidgetPadding { t, r, b, l }
    }

    /// The same padding on all four sides.
    pub fn all(x: i16) -> (p: WidgetPadding)
        ensures
            p == (WidgetPadding { t: x, r: x, b: x, l: x }),
    {
        WidgetPadding { t: x, r: x, b: x, l: x }
    }

    /// Horizontal and vertical padding.
    pub fn hv(h: i16, v: i16) -> (p: WidgetPadding)
        ensures
            p == (WidgetPadding { t: v, r: h, b: v, l: h }),
    {
        WidgetPadding { t: v, r: h, b: v, l: h }
    }

    pub fn zero() -> (p: WidgetPadding)
        ensures
            p == (WidgetPadding { t: 0i16, r: 0i16, b: 0i16, l: 0i16 }),
    {
        WidgetPadding { t: 0, r: 0, b: 0, l: 0 }
    }
}

/// Behavior and paint flags of a widget, a bitset.
#[derive(Debug, Clone, Copy, PartialEq, Eq, Hash, Structural)]
pub struct WidgetFlags(pub u32);

impl WidgetFlags {
    pub fn none() -> (f: WidgetFlags)
        ensures
            f.0 == 0u32,
    {
        WidgetFlags(0)
    }

    /// The widget and its whole subtree ignore the pointer.
    pub fn disabled() -> (f: WidgetFlags)
        ensures
            f.0 == 1u32,
    {
        WidgetFlags(1)
    }

    pub fn can_focus() -> (f: WidgetFlags)
        ensures
            f.0 == 2u32,
    {
        WidgetFlags(2)
    }

    pub fn can_hover() -> (f: WidgetFlags)
        ensures
            f.0 == 4u32,
    {
        WidgetFlags(4)
    }

    pub fn can_click() -> (f: WidgetFlags)
        ensures
            f.0 == 8u32,
    {
        WidgetFlags(8)
    }

    pub fn draw_text() -> (f: WidgetFlags)
        ensures
            f.0 == 16u32,
    {
        WidgetFlags(16)
    }

    pub fn draw_border() -> (f: WidgetFlags)
        ensures
            f.0 == 32u32,
    {
        WidgetFlags(32)
    }

    pub fn draw_background() -> (f: WidgetFlags)
        ensures
            f.0 == 64u32,
    {
        WidgetFlags(64)
    }

    pub fn draw_sprite() -> (f: WidgetFlags)
        ensures
            f.0 == 128u32,
    {
        WidgetFlags(128)
    }

    /// Whether every flag in `flags` is set in `self`.
    pub fn has(&self, flags: WidgetFlags) -> (r: bool)
        ensures
            r == self.spec_has(flags),
    {
        self.0 & flags.0 == flags.0
    }

    pub open spec fn spec_has(self, flags: WidgetFlags) -> bool {
        self.0 & flags.0 == flags.0
    }

    /// The union of two flag sets.
    pub fn union(self, rhs: WidgetFlags) -> (f: WidgetFlags)
        ensures
            f.0 == self.0 | rhs.0,
    {
        WidgetFlags(self.0 | rhs.0)
    }
}

/// The order a widget's children are laid out in.
#[derive(Debug, Clone, Copy, PartialEq, Eq, Hash, Structural)]
pub enum FlexDirection {
    Horizontal,
    Vertical,
}

/// How a widget lays out its children: all stacked over the inner rect,
/// or flexed along an axis with a gap between them.
#[derive(Debug, Clone, Copy, PartialEq, Eq, Hash, Structural)]
pub enum WidgetLayout {
    Stacked,
    Flex { direction: FlexDirection, gap: i16 },
}

impl WidgetLayout {
    pub fn flex(direction: FlexDirection, gap: i16) -> (l: WidgetLayout)
        ensures
            l == (WidgetLayout::Flex { direction, gap }),
    {
        WidgetLayout::Flex { direction, gap }
    }

    pub fn stacked() -> (l: WidgetLayout)
        ensures
            l == WidgetLayout::Stacked,
    {
        WidgetLayout::Stacked
    }
}

/// The sprite a widget draws: a plain sprite or a nine-sliced box.
#[derive(Debug, Clone, Copy, PartialEq, Eq, Structural)]
pub enum WidgetSprite {
    Simple(SpritesheetId, Sprite),
    NineSlice(SpritesheetId, NineSlicingSprite),
}

/// All the declarative data a caller hands to [`UiContext::build_widget`]
/// for one widget and one frame.
#[derive(Debug, Clone)]
pub struct WidgetProps {
    pub key: WidgetKey,
    pub flags: WidgetFlags,
    pub color: Color,
    pub text: Option<Text>,
    pub border_color: Color,
    pub border_width: u16,
    pub mask_and: Option<Color>,
    pub mask_or: Option<Color>,
    pub acf: Option<AlphaComp>,
    pub sprite: Option<WidgetSprite>,
    pub rotate: Rotate,
    pub anchor: Anchor,
    pub origin: Anchor,
    pub pos: Pos,
    pub draw_offset: Pos,
    pub size: WidgetSize,
    pub padding: WidgetPadding,
    pub layout: WidgetLayout,
}

/// The properties a bare `new` gives out: everything off, top-left
/// anchoring, fill sizing disabled in favour of `Fill` on both axes.
pub open spec fn spec_props_new(key: WidgetKey) -> WidgetProps {
    WidgetProps {
        key,
        flags: WidgetFlags(0u32),
        color: Color { a: 0u8, r: 0u8, g: 0u8, b: 0u8 },
        text: None,
        border_color: Color { a: 0u8, r: 0u8, g: 0u8, b: 0u8 },
        border_width: 0u16,
        mask_and: None,
        mask_or: None,
        acf: None,
        sprite: None,
        rotate: Rotate::R0,
        anchor: Anchor { x: 0u16, y: 0u16 },
        origin: Anchor { x: 0u16, y: 0u16 },
        pos: Pos { x: 0i16, y: 0i16 },
        draw_offset: Pos { x: 0i16, y: 0i16 },
        size: WidgetSize { w: WidgetDim::Fill, h: WidgetDim::Fill },
        padding: WidgetPadding { t: 0i16, r: 0i16, b: 0i16, l: 0i16 },
        layout: WidgetLayout::Stacked,
    }
}

impl WidgetProps {
    pub fn new(key: WidgetKey) -> (p: WidgetProps)
        ensures
            p == spec_props_new(key),
    {
        WidgetProps {
            key,
            flags: WidgetFlags(0),
            color: Color::transparent(),
            text: None,
            border_color: Color::transparent(),
            border_width: 0,
            mask_and: None,
            mask_or: None,
            acf: None,
            sprite: None,
            rotate: Rotate::R0,
            anchor: Anchor::top_left(),
            origin: Anchor::top_left(),
            pos: Pos { x: 0, y: 0 },
            draw_offset: Pos { x: 0, y: 0 },
            size: WidgetSize::fill(),
            padding: WidgetPadding::zero(),
            layout: WidgetLayout::Stacked,
        }
    }

    pub fn with_flags(self, flags: WidgetFlags) -> (p: WidgetProps)
        ensures
            p == (WidgetProps { flags, ..self }),
    {
        WidgetProps { flags, ..self }
    }

    pub fn with_color(self, color: Color) -> (p: WidgetProps)
        ensures
            p == (WidgetProps { color, ..self }),
    {
        WidgetProps { color, ..self }
    }

    pub fn with_text(self, text: Option<Text>) -> (p: WidgetProps)
        ensures
            p == (WidgetProps { text, ..self }),
    {
        WidgetProps { text, ..self }
    }

    pub fn with_border_color(self, border_color: Color) -> (p: WidgetProps)
        ensures
            p == (WidgetProps { border_color, ..self }),
    {
        WidgetProps { border_color, ..self }
    }

    pub fn with_border_width(self, border_width: u16) -> (p: WidgetProps)
        ensures
            p == (WidgetProps { border_width, ..self }),
    {
        WidgetProps { border_width, ..self }
    }

    pub fn with_mask_and(self, mask_and: Option<Color>) -> (p: WidgetProps)
        ensures
            p == (WidgetProps { mask_and, ..self }),
    {
        WidgetProps { mask_and, ..self }
    }

    pub fn with_mask_or(self, mask_or: Option<Color>) -> (p: WidgetProps)
        ensures
            p == (WidgetProps { mask_or, ..self }),
    {
        WidgetProps { mask_or, ..self }
    }

    pub fn with_acf(self, acf: Option<AlphaComp>) -> (p: WidgetProps)
        ensures
            p == (WidgetProps { acf, ..self }),
    {
        WidgetProps { acf, ..self }
    }

    pub fn with_sprite(self, sprite: Option<WidgetSprite>) -> (p: WidgetProps)
        ensures
            p == (WidgetProps { sprite, ..self }),
    {
        WidgetProps { sprite, ..self }
    }

    pub fn with_rotate(self, rotate: Rotate) -> (p: WidgetProps)
        ensures
            p == (WidgetProps { rotate, ..self }),
    {
        WidgetProps { rotate, ..self }
    }

    pub fn with_anchor_origin(self, anchor: Anchor, origin: Anchor) -> (p: WidgetProps)
        ensures
            p == (WidgetProps { anchor, origin, ..self }),
    {
        WidgetProps { anchor, origin, ..self }
    }

    pub fn with_pos(self, pos: Pos) -> (p: WidgetProps)
        ensures
            p == (WidgetProps { pos, ..self }),
    {
        WidgetProps { pos, ..self }
    }

    pub fn with_draw_offset(self, draw_offset: Pos) -> (p: WidgetProps)
        ensures
            p == (WidgetProps { draw_offset, ..self }),
    {
        WidgetProps { draw_offset, ..self }
    }

    pub fn with_size(self, size: WidgetSize) -> (p: WidgetProps)
        ensures
            p == (WidgetProps { size, ..self }),
    {
        WidgetProps { size, ..self }
    }

    pub fn with_padding(self, padding: WidgetPadding) -> (p: WidgetProps)
        ensures
            p == (WidgetProps { padding, ..self }),
    {
        WidgetProps { padding, ..self }
    }

    pub fn with_layout(self, layout: WidgetLayout) -> (p: WidgetProps)
        ensures
            p == (WidgetProps { layout, ..self }),
    {
        WidgetProps { layout, ..self }
    }
}

/// The pointer state a frame reacts to: position in viewport coordinates
/// and, per button, the current and previous pressed state, so edges can
/// be detected without extra bookkeeping.
#[derive(Debug, Clone, Copy)]
pub struct Mouse {
    pub x: i16,
    pub y: i16,
    pub l_pressed: (bool, bool),
    pub r_pressed: (bool, bool),
    pub m_pressed: (bool, bool),
}

impl Mouse {
    /// A pointer at the origin with no buttons down.
    pub fn new() -> (m: Mouse)
        ensures
            m == (Mouse {
                x: 0i16,
                y: 0i16,
                l_pressed: (false, false),
                r_pressed: (false, false),
                m_pressed: (false, false),
            }),
    {
        Mouse { x: 0, y: 0, l_pressed: (false, false), r_pressed: (false, false), m_pressed: (
            false,
            false,
        ) }
    }

    pub fn l_pressed(&self) -> (r: bool)
        ensures
            r == self.l_pressed.0,
    {
        self.l_pressed.0
    }

    pub fn l_pressed_start(&self) -> (r: bool)
        ensures
            r == (self.l_pressed.0 && !self.l_pressed.1),
    {
        self.l_pressed.0 && !self.l_pressed.1
    }

    pub fn l_pressed_end(&self) -> (r: bool)
        ensures
            r == (!self.l_pressed.0 && self.l_pressed.1),
    {
        !self.l_pressed.0 && self.l_pressed.1
    }

    pub fn r_pressed(&self) -> (r: bool)
        ensures
            r == self.r_pressed.0,
    {
        self.r_pressed.0
    }

    pub fn r_pressed_start(&self) -> (r: bool)
        ensures
            r == (self.r_pressed.0 && !self.r_pressed.1),
    {
        self.r_pressed.0 && !self.r_pressed.1
    }

    pub fn r_pressed_end(&self) -> (r: bool)
        ensures
            r == (!self.r_pressed.0 && self.r_pressed.1),
    {
        !self.r_pressed.0 && self.r_pressed.1
    }

    pub fn m_pressed(&self) -> (r: bool)
        ensures
            r == self.m_pressed.0,
    {
        self.m_pressed.0
    }

    pub fn m_pressed_start(&self) -> (r: bool)
        ensures
            r == (self.m_pressed.0 && !self.m_pressed.1),
    {
        self.m_pressed.0 && !self.m_pressed.1
    }

    pub fn m_pressed_end(&self) -> (r: bool)
        ensures
            r == (!self.m_pressed.0 && self.m_pressed.1),
    {
        !self.m_pressed.0 && self.m_pressed.1
    }
}


/// A node of the retained tree, stored in a flat arena.
///
/// A widget is in exactly one of two states: live in the tree (linked to
/// parent and siblings) or on the free list. The free list uses its own
/// link field, `next_freed`, so that freeing never has to repurpose the
/// sibling links and the two states cannot be confused.
#[derive(Debug, Clone)]
pub struct Widget {
    pub parent: Option<WidgetId>,
    pub prev: Option<WidgetId>,
    pub next: Option<WidgetId>,
    pub first_child: Option<WidgetId>,
    pub last_child: Option<WidgetId>,
    /// The free-list link, meaningful only while `freed` is set.
    pub next_freed: Option<WidgetId>,
    pub children_count: usize,
    /// The declarative data of the frame that last built this widget.
    pub props: WidgetProps,
    /// The frame counter value when this widget was last built.
    pub last_frame_touched: u64,
    /// Whether the widget was swept because a frame did not rebuild it.
    pub freed: bool,
    pub hovered: bool,
    pub pressed: bool,
    pub clicked: bool,
    /// Valid after the layout pass of the current frame.
    pub solved_rect: Rect,
    /// Valid after the layout pass of the current frame.
    pub solved_min_size: Size,
}

/// A reused widget after `build_widget`: tree links reset, properties
/// replaced, interaction state carried over, stamped with this frame.
pub open spec fn spec_reset_widget(w: Widget, props: WidgetProps, frame: u64) -> Widget {
    Widget {
        parent: None,
        prev: None,
        next: None,
        first_child: None,
        last_child: None,
        next_freed: None,
        children_count: 0usize,
        props,
        last_frame_touched: frame,
        freed: false,
        hovered: w.hovered,
        pressed: w.pressed,
        clicked: w.clicked,
        solved_rect: w.solved_rect,
        solved_min_size: w.solved_min_size,
    }
}

/// A brand-new widget: no links, no interaction state, zero rects.
pub open spec fn spec_fresh_widget(props: WidgetProps, frame: u64) -> Widget {
    Widget {
        parent: None,
        prev: None,
        next: None,
        first_child: None,
        last_child: None,
        next_freed: None,
        children_count: 0usize,
        props,
        last_frame_touched: frame,
        freed: false,
        hovered: false,
        pressed: false,
        clicked: false,
        solved_rect: Rect { x: 0i16, y: 0i16, w: 0u16, h: 0u16 },
        solved_min_size: Size { w: 0u16, h: 0u16 },
    }
}

/// What `add_child` does to the arena: bumps the parent's child count,
/// appends the child to the sibling chain (patching the previous last
/// child, if any), and points the child at its parent — in that order.
pub open spec fn spec_add_child(ws: Seq<Widget>, wi: int, ci: int, wid: WidgetId, child_id: WidgetId) -> Seq<Widget> {
    let ws1 = ws.update(
        wi,
        Widget { children_count: ((ws[wi].children_count + 1) as usize), ..ws[wi] },
    );
    let ws4 = if ws1[wi].last_child is Some {
        let lc = ws1[wi].last_child->0;
        let li = lc.index();
        let ws2 = ws1.update(li, Widget { next: Some(child_id), ..ws1[li] });
        let ws3 = ws2.update(ci, Widget { prev: Some(lc), ..ws2[ci] });
        ws3.update(wi, Widget { last_child: Some(child_id), ..ws3[wi] })
    } else {
        ws1.update(wi, Widget { first_child: Some(child_id), last_child: Some(child_id), ..ws1[wi] })
    };
    ws4.update(ci, Widget { parent: Some(wid), ..ws4[ci] })
}

/// The widget-by-widget relation between the arena before and after a
/// sweep: only `freed`, the free-list link and the sibling links of stale
/// widgets may change, and a widget built this frame is untouched.
/// What the sweep may do to one widget.
pub open spec fn spec_sweep_keep(a: Widget, b: Widget, frame: u64) -> bool {
    &&& b.parent == a.parent
    &&& b.first_child == a.first_child
    &&& b.last_child == a.last_child
    &&& b.children_count == a.children_count
    &&& b.props == a.props
    &&& b.last_frame_touched == a.last_frame_touched
    &&& b.hovered == a.hovered
    &&& b.pressed == a.pressed
    &&& b.clicked == a.clicked
    &&& b.solved_rect == a.solved_rect
    &&& b.solved_min_size == a.solved_min_size
    &&& (a.last_frame_touched == frame ==> b == a)
    &&& (b.freed == a.freed || (b.freed && a.last_frame_touched != frame))
    &&& (b.prev == a.prev || b.prev is None)
    &&& (b.next == a.next || b.next is None)
}

pub open spec fn spec_sweep_rel(pre: Seq<Widget>, post: Seq<Widget>, frame: u64) -> bool {
    &&& post.len() == pre.len()
    &&& forall|j: int|
        0 <= j < pre.len() ==> #[trigger] spec_sweep_keep(pre[j], post[j], frame)
}

/// The retained widget tree: a flat arena of widgets, the key map that
/// gives widgets their stable identity, and the frame counter.
///
/// The key map is the single source of truth from key to id: every id it
/// holds is valid, and no two keys share an id.
pub struct UiContext {
    widgets: Vec<Widget>,
    first_freed: Option<WidgetId>,
    keys: HashMap<u64, WidgetId>,
    viewport_size: Size,
    current_frame: u64,
}

impl UiContext {
    pub closed spec fn widgets_seq(&self) -> Seq<Widget> {
        self.widgets@
    }

    pub closed spec fn keys_map(&self) -> Map<u64, WidgetId> {
        self.keys@
    }

    pub closed spec fn spec_first_freed(&self) -> Option<WidgetId> {
        self.first_freed
    }

    pub closed spec fn spec_viewport(&self) -> Size {
        self.viewport_size
    }

    pub closed spec fn spec_frame(&self) -> u64 {
        self.current_frame
    }

    /// Whether an id denotes a slot of this arena.
    pub open spec fn valid_id(&self, id: WidgetId) -> bool {
        1 <= id.raw() <= self.widgets_seq().len()
    }

    pub open spec fn link_ok(&self, o: Option<WidgetId>) -> bool {
        o is Some ==> self.valid_id(o->0)
    }

    pub open spec fn widget_links_ok(&self, w: Widget) -> bool {
        &&& self.link_ok(w.parent)
        &&& self.link_ok(w.prev)
        &&& self.link_ok(w.next)
        &&& self.link_ok(w.first_child)
        &&& self.link_ok(w.last_child)
        &&& self.link_ok(w.next_freed)
    }

    /// Arena well-formedness: every stored id points into the arena, and
    /// the key map is injective.
    pub open spec fn wf(&self) -> bool {
        &&& forall|i: int|
            0 <= i < self.widgets_seq().len() ==> self.widget_links_ok(
                #[trigger] self.widgets_seq()[i],
            )
        &&& self.link_ok(self.spec_first_freed())
        &&& forall|k: u64|
            self.keys_map().dom().contains(k) ==> self.valid_id(#[trigger] self.keys_map()[k])
        &&& forall|k1: u64, k2: u64|
            self.keys_map().dom().contains(k1) && self.keys_map().dom().contains(k2) && k1 != k2
                ==> #[trigger] self.keys_map()[k1] != #[trigger] self.keys_map()[k2]
    }

    /// The id of the root widget, as a spec-level constant.
    pub closed spec fn spec_root_widget() -> WidgetId {
        WidgetId(1usize)
    }

    /// The id of the root widget: the first widget ever built.
    pub fn root_widget() -> (r: WidgetId)
        ensures
            r == UiContext::spec_root_widget(),
            r.raw() == 1,
            r.index() == 0,
    {
        WidgetId(1)
    }

    /// An empty context for a viewport of the given size.
    pub fn new(viewport_size: Size) -> (ctx: UiContext)
        ensures
            ctx.wf(),
            ctx.widgets_seq().len() == 0,
            ctx.keys_map() == Map::<u64, WidgetId>::empty(),
            ctx.spec_viewport() == viewport_size,
            ctx.spec_frame() == 0,
            ctx.spec_first_freed() is None,
    {
        UiContext {
            widgets: Vec::new(),
            first_freed: None,
            keys: HashMap::new(),
            viewport_size,
            current_frame: 0,
        }
    }

    /// Changes the viewport the layout solver resolves against.
    pub fn resize(&mut self, viewport_size: Size)
        ensures
            final(self).spec_viewport() == viewport_size,
            final(self).widgets_seq() == old(self).widgets_seq(),
            final(self).keys_map() == old(self).keys_map(),
            final(self).spec_first_freed() == old(self).spec_first_freed(),
            final(self).spec_frame() == old(self).spec_frame(),
    {
        self.viewport_size = viewport_size;
    }

    /// The number of widgets in the arena.
    pub fn widget_count(&self) -> (n: usize)
        ensures
            n == self.widgets_seq().len(),
    {
        self.widgets.len()
    }

    /// The frame counter: how many end-of-frame sweeps have run.
    pub fn current_frame(&self) -> (f: u64)
        ensures
            f == self.spec_frame(),
    {
        self.current_frame
    }

    /// The viewport the layout solver resolves against.
    pub fn viewport(&self) -> (s: Size)
        ensures
            s == self.spec_viewport(),
    {
        self.viewport_size
    }

    /// A shared borrow of one widget.
    pub fn widget(&self, wid: WidgetId) -> (r: &Widget)
        requires
            self.valid_id(wid),
        ensures
            *r == self.widgets_seq()[wid.index()],
    {
        &self.widgets[wid.0 - 1]
    }

    /// An exclusive borrow of one widget. The caller is responsible for
    /// keeping the arena well-formed if it changes tree links.
    pub fn widget_mut(&mut self, wid: WidgetId) -> (r: &mut Widget)
        requires
            old(self).valid_id(wid),
        ensures
            *r == old(self).widgets_seq()[wid.index()],
            final(self).widgets_seq() == old(self).widgets_seq().update(
                wid.index(),
                *final(r),
            ),
            final(self).keys_map() == old(self).keys_map(),
            final(self).spec_first_freed() == old(self).spec_first_freed(),
            final(self).spec_viewport() == old(self).spec_viewport(),
            final(self).spec_frame() == old(self).spec_frame(),
    {
        &mut self.widgets[wid.0 - 1]
    }

    /// Declares a widget for this frame.
    ///
    /// A key seen before reuses its widget: the tree links are reset (they
    /// are re-established by this frame's `add_child` calls), the
    /// properties are replaced, and the reaction returned carries the
    /// interaction state computed at the end of the previous frame. A new
    /// key allocates a fresh widget with a fresh id and no interaction
    /// state. Either way the widget is stamped with the current frame, so
    /// the end-of-frame sweep will not free it.
    pub fn build_widget(&mut self, props: WidgetProps) -> (r: WidgetReaction)
        requires
            old(self).wf(),
            old(self).widgets_seq().len() + 1 < usize::MAX,
        ensures
            final(self).wf(),
            final(self).spec_viewport() == old(self).spec_viewport(),
            final(self).spec_frame() == old(self).spec_frame(),
            final(self).spec_first_freed() == old(self).spec_first_freed(),
            old(self).keys_map().contains_key(props.key.raw()) ==> {
                let id = old(self).keys_map()[props.key.raw()];
                let i = id.index();
                &&& r.spec_id() == id
                &&& r.spec_hovered() == old(self).widgets_seq()[i].hovered
                &&& r.spec_pressed() == old(self).widgets_seq()[i].pressed
                &&& r.spec_clicked() == old(self).widgets_seq()[i].clicked
                &&& final(self).keys_map() == old(self).keys_map()
                &&& final(self).widgets_seq() =~= old(self).widgets_seq().update(
                    i,
                    spec_reset_widget(old(self).widgets_seq()[i], props, old(self).spec_frame()),
                )
            },
            !old(self).keys_map().contains_key(props.key.raw()) ==> {
                &&& r.spec_id().raw() == old(self).widgets_seq().len() + 1
                &&& !r.spec_hovered() && !r.spec_pressed() && !r.spec_clicked()
                &&& final(self).keys_map() == old(self).keys_map().insert(
                    props.key.raw(),
                    r.spec_id(),
                )
                &&& final(self).widgets_seq() =~= old(self).widgets_seq().push(
                    spec_fresh_widget(props, old(self).spec_frame()),
                )
            },
            final(self).valid_id(r.spec_id()),
            final(self).widgets_seq()[r.spec_id().index()].freed == false,
            final(self).widgets_seq()[r.spec_id().index()].children_count == 0,
            final(self).widgets_seq()[r.spec_id().index()].props == props,
    {
        let k = props.key.0;
        let existing: Option<WidgetId> = match self.keys.get(&k) {
            Some(id) => Some(*id),
            None => None,
        };
        match existing {
            Some(id) => {
                let i = id.0 - 1;
                let frame = self.current_frame;
                let w = &mut self.widgets[i];
                let hovered = w.hovered;
                let pressed = w.pressed;
                let clicked = w.clicked;
                w.parent = None;
                w.prev = None;
                w.next = None;
                w.first_child = None;
                w.last_child = None;
                w.next_freed = None;
                w.children_count = 0;
                w.props = props;
                w.last_frame_touched = frame;
                w.freed = false;
                WidgetReaction { id, hovered, pressed, clicked }
            },
            None => {
                let id = WidgetId(self.widgets.len() + 1);
                self.keys.insert(k, id);
                let frame = self.current_frame;
                self.widgets.push(
                    Widget {
                        parent: None,
                        prev: None,
                        next: None,
                        first_child: None,
                        last_child: None,
                        next_freed: None,
                        children_count: 0,
                        props,
                        last_frame_touched: frame,
                        freed: false,
                        hovered: false,
                        pressed: false,
                        clicked: false,
                        solved_rect: Rect { x: 0, y: 0, w: 0, h: 0 },
                        solved_min_size: Size { w: 0, h: 0 },
                    },
                );
                WidgetReaction { id, hovered: false, pressed: false, clicked: false }
            },
        }
    }

    /// Appends `child_id` to the end of `wid`'s child list. Call order
    /// decides both paint order (later children paint on top) and
    /// hit-test priority (later children win).
    ///
    /// A widget must not be added as its own child, and both widgets must
    /// be live.
    #[verifier::rlimit(50)]
    pub fn add_child(&mut self, wid: WidgetId, child_id: WidgetId)
        requires
            old(self).wf(),
            old(self).valid_id(wid),
            old(self).valid_id(child_id),
            wid.raw() != child_id.raw(),
            !old(self).widgets_seq()[wid.index()].freed,
            !old(self).widgets_seq()[child_id.index()].freed,
            old(self).widgets_seq()[wid.index()].children_count < usize::MAX,
        ensures
            final(self).wf(),
            final(self).keys_map() == old(self).keys_map(),
            final(self).spec_viewport() == old(self).spec_viewport(),
            final(self).spec_frame() == old(self).spec_frame(),
            final(self).spec_first_freed() == old(self).spec_first_freed(),
            final(self).widgets_seq() =~= spec_add_child(
                old(self).widgets_seq(),
                wid.index(),
                child_id.index(),
                wid,
                child_id,
            ),
    {
        let wi = wid.0 - 1;
        let ci = child_id.0 - 1;
        let w = &mut self.widgets[wi];
        w.children_count = w.children_count + 1;
        let last = w.last_child;
        match last {
            Some(lc) => {
                let li = lc.0 - 1;
                self.widgets[li].next = Some(child_id);
                self.widgets[ci].prev = Some(lc);
                self.widgets[wi].last_child = Some(child_id);
            },
            None => {
                let w2 = &mut self.widgets[wi];
                w2.first_child = Some(child_id);
                w2.last_child = Some(child_id);
            },
        }
        self.widgets[ci].parent = Some(wid);
        proof {
            let ows = old(self).widgets_seq();
            let ws = self.widgets_seq();
            assert(ws =~= spec_add_child(ows, wid.index(), child_id.index(), wid, child_id));
            assert forall|i: int| 0 <= i < ws.len() implies self.widget_links_ok(
                #[trigger] ws[i],
            ) by {
                assert(old(self).widget_links_ok(ows[i]));
                assert(ws[i].parent == ows[i].parent || ws[i].parent == Some(wid));
                assert(ws[i].prev == ows[i].prev || ws[i].prev
                    == old(self).widgets_seq()[wid.index()].last_child);
                assert(ws[i].next == ows[i].next || ws[i].next == Some(child_id));
                assert(ws[i].first_child == ows[i].first_child || ws[i].first_child == Some(
                    child_id,
                ));
                assert(ws[i].last_child == ows[i].last_child || ws[i].last_child == Some(
                    child_id,
                ));
                assert(ws[i].next_freed == ows[i].next_freed);
            }
            assert(self.keys_map() == old(self).keys_map());
            assert(ws.len() == ows.len());
            assert forall|k: u64| self.keys_map().dom().contains(k) implies self.valid_id(
                #[trigger] self.keys_map()[k],
            ) by {
                assert(old(self).valid_id(old(self).keys_map()[k]));
            }
        }
    }
}


/// What the sweep does to one subtree, as a function of the arena, the
/// free-list head, the node and the frame being swept: a stale node is
/// marked freed and becomes the new free-list head, then the children,
/// read in sibling order, are swept the same way. `fuel` mirrors the
/// executable recursion bound, and the sibling walk is bounded by the
/// arena size, exactly as the code walks it.
pub open spec fn spec_sweep_node(
    ws: Seq<Widget>,
    ff: Option<WidgetId>,
    wid: WidgetId,
    frame: u64,
    fuel: nat,
) -> (Seq<Widget>, Option<WidgetId>)
    decreases fuel, 1int, 0int,
{
    if fuel == 0 {
        (ws, ff)
    } else {
        let w0 = ws[wid.index()];
        let marked = if w0.last_frame_touched != frame {
            (ws.update(wid.index(), Widget { freed: true, next_freed: ff, ..w0 }), Some(wid))
        } else {
            (ws, ff)
        };
        spec_sweep_children(marked.0, marked.1, w0.first_child, ws.len() as int, frame, fuel)
    }
}

/// The sweep folded over a sibling chain, at most `remaining` links long.
pub open spec fn spec_sweep_children(
    ws: Seq<Widget>,
    ff: Option<WidgetId>,
    child: Option<WidgetId>,
    remaining: int,
    frame: u64,
    fuel: nat,
) -> (Seq<Widget>, Option<WidgetId>)
    decreases fuel, 0int, remaining,
{
    if remaining <= 0 || child is None || fuel == 0 {
        (ws, ff)
    } else {
        let ch = child->0;
        let nxt = ws[ch.index()].next;
        let stepped = spec_sweep_node(ws, ff, ch, frame, (fuel - 1) as nat);
        spec_sweep_children(stepped.0, stepped.1, nxt, remaining - 1, frame, fuel)
    }
}

impl UiContext {
    /// One node of the end-of-frame sweep: widgets not built this frame
    /// are marked freed and pushed onto the free list, then the children
    /// are swept.
    ///
    /// `fuel` bounds the recursion; it never runs out on a well-formed
    /// tree, whose depth cannot exceed the arena size.
    fn free_untouched_widgets_rec(&mut self, wid: WidgetId, fuel: usize)
        requires
            old(self).wf(),
            old(self).valid_id(wid),
        ensures
            final(self).wf(),
            final(self).widgets_seq().len() == old(self).widgets_seq().len(),
            final(self).keys_map() == old(self).keys_map(),
            final(self).spec_viewport() == old(self).spec_viewport(),
            final(self).spec_frame() == old(self).spec_frame(),
            spec_sweep_rel(old(self).widgets_seq(), final(self).widgets_seq(), old(self).spec_frame()),
            fuel > 0 && old(self).widgets_seq()[wid.index()].last_frame_touched != old(self).spec_frame()
                ==> final(self).widgets_seq()[wid.index()].freed,
            (final(self).widgets_seq(), final(self).spec_first_freed()) == spec_sweep_node(
                old(self).widgets_seq(),
                old(self).spec_first_freed(),
                wid,
                old(self).spec_frame(),
                fuel as nat,
            ),
        decreases fuel,
    {
        if fuel == 0 {
            return ;
        }
        let frame = self.current_frame;
        let (last_touched, first_child) = {
            let w = self.widget(wid);
            (w.last_frame_touched, w.first_child)
        };
        if last_touched != frame {
            let ff = self.first_freed;
            let w = &mut self.widgets[wid.0 - 1];
            w.freed = true;
            w.next_freed = ff;
            self.first_freed = Some(wid);
            proof {
                let ows = old(self).widgets_seq();
                let ws = self.widgets_seq();
                assert forall|i: int| 0 <= i < ws.len() implies self.widget_links_ok(
                    #[trigger] ws[i],
                ) by {
                    assert(old(self).widget_links_ok(ows[i]));
                    assert(ws[i].parent == ows[i].parent && ws[i].prev == ows[i].prev && ws[i].next
                        == ows[i].next && ws[i].first_child == ows[i].first_child
                        && ws[i].last_child == ows[i].last_child);
                    assert(ws[i].next_freed == ows[i].next_freed || ws[i].next_freed
                        == old(self).spec_first_freed());
                }
                assert forall|k: u64| self.keys_map().dom().contains(k) implies self.valid_id(
                    #[trigger] self.keys_map()[k],
                ) by {
                    assert(old(self).valid_id(old(self).keys_map()[k]));
                }
            }
        }
        proof {
            assert forall|k1: u64, k2: u64|
                self.keys_map().dom().contains(k1) && self.keys_map().dom().contains(k2) && k1
                    != k2 implies #[trigger] self.keys_map()[k1] != #[trigger] self.keys_map()[k2] by {
                assert(old(self).keys_map()[k1] == self.keys_map()[k1]);
                assert(old(self).keys_map()[k2] == self.keys_map()[k2]);
            }
        }
        let ghost total = spec_sweep_node(
            old(self).widgets_seq(),
            old(self).spec_first_freed(),
            wid,
            old(self).spec_frame(),
            fuel as nat,
        );
        proof {
            assert(total == spec_sweep_children(
                self.widgets_seq(),
                self.spec_first_freed(),
                first_child,
                old(self).widgets_seq().len() as int,
                old(self).spec_frame(),
                fuel as nat,
            ));
        }
        let mut child = first_child;
        let mut remaining = self.widgets.len();
        while child.is_some() && remaining > 0
            invariant
                self.wf(),
                self.link_ok(child),
                old(self).valid_id(wid),
                self.widgets_seq().len() == old(self).widgets_seq().len(),
                self.keys_map() == old(self).keys_map(),
                self.spec_viewport() == old(self).spec_viewport(),
                self.spec_frame() == old(self).spec_frame(),
                spec_sweep_rel(old(self).widgets_seq(), self.widgets_seq(), old(self).spec_frame()),
                old(self).widgets_seq()[wid.index()].last_frame_touched != old(self).spec_frame()
                    ==> self.widgets_seq()[wid.index()].freed,
                total == spec_sweep_children(
                    self.widgets_seq(),
                    self.spec_first_freed(),
                    child,
                    remaining as int,
                    old(self).spec_frame(),
                    fuel as nat,
                ),
                fuel >= 1,
            decreases remaining,
        {
            let ch = child.unwrap();
            let nxt = self.widget(ch).next;
            let ghost mid = self.widgets_seq();
            let ghost midff = self.spec_first_freed();
            self.free_untouched_widgets_rec(ch, fuel - 1);
            proof {
                lemma_sweep_trans(
                    old(self).widgets_seq(),
                    mid,
                    self.widgets_seq(),
                    old(self).spec_frame(),
                );
                assert(spec_sweep_keep(
                    mid[wid.index()],
                    self.widgets_seq()[wid.index()],
                    old(self).spec_frame(),
                ));
                assert((self.widgets_seq(), self.spec_first_freed()) == spec_sweep_node(
                    mid,
                    midff,
                    ch,
                    old(self).spec_frame(),
                    (fuel - 1) as nat,
                ));
            }
            child = nxt;
            remaining = remaining - 1;
        }
        proof {
            assert(child is None || remaining == 0);
            assert(spec_sweep_children(
                self.widgets_seq(),
                self.spec_first_freed(),
                child,
                remaining as int,
                old(self).spec_frame(),
                fuel as nat,
            ) == (self.widgets_seq(), self.spec_first_freed()));
            assert(total == (self.widgets_seq(), self.spec_first_freed()));
        }
    }

    /// The end-of-frame sweep: every widget reachable from the root whose
    /// call site was not reached this frame is marked freed and chained
    /// onto the free list; then the frame counter advances, so the next
    /// frame's `build_widget` calls stamp a fresh frame number.
    pub fn free_untouched_widgets(&mut self)
        requires
            old(self).wf(),
            old(self).widgets_seq().len() >= 1,
            old(self).spec_frame() < u64::MAX,
        ensures
            final(self).wf(),
            final(self).widgets_seq().len() == old(self).widgets_seq().len(),
            final(self).keys_map() == old(self).keys_map(),
            final(self).spec_viewport() == old(self).spec_viewport(),
            final(self).spec_frame() == old(self).spec_frame() + 1,
            spec_sweep_rel(old(self).widgets_seq(), final(self).widgets_seq(), old(self).spec_frame()),
            old(self).widgets_seq()[0].last_frame_touched != old(self).spec_frame()
                ==> final(self).widgets_seq()[0].freed,
            (final(self).widgets_seq(), final(self).spec_first_freed()) == spec_sweep_node(
                old(self).widgets_seq(),
                old(self).spec_first_freed(),
                UiContext::spec_root_widget(),
                old(self).spec_frame(),
                old(self).widgets_seq().len() as nat,
            ),
    {
        let fuel = self.widgets.len();
        self.free_untouched_widgets_rec(UiContext::root_widget(), fuel);
        self.current_frame = self.current_frame + 1;
    }
}

/// What the interaction pass does to one subtree, as a function of the
/// arena, the node, whether something above already claimed the pointer,
/// the pointer state and the recursion fuel. A disabled node zeroes its
/// own state and swallows the subtree; otherwise the children are tested
/// topmost first (last added wins, each hovered child occluding the
/// siblings below it and the node itself), and the node's state becomes
/// [`spec_react_step`] of its flags, containment, occlusion and prior
/// pressed state. Returns the new arena and whether the node hovered.
pub open spec fn spec_react_node(
    ws: Seq<Widget>,
    wid: WidgetId,
    occluded: bool,
    mouse: Mouse,
    fuel: nat,
) -> (Seq<Widget>, bool)
    decreases fuel, 1int, 0int,
{
    let w0 = ws[wid.index()];
    if w0.props.flags.spec_has(WidgetFlags(1u32)) {
        (
            ws.update(
                wid.index(),
                Widget { hovered: false, pressed: false, clicked: false, ..w0 },
            ),
            false,
        )
    } else {
        let sub = if fuel == 0 {
            (ws, false)
        } else {
            spec_react_children(ws, w0.last_child, ws.len() as int, occluded, false, mouse, fuel)
        };
        let t = spec_react_step(
            w0.props.flags,
            w0.solved_rect.spec_contains(mouse.x as int, mouse.y as int),
            occluded || sub.1,
            w0.pressed,
            mouse.l_pressed.0,
            mouse.l_pressed.1,
        );
        (
            sub.0.update(
                wid.index(),
                Widget { hovered: t.0, pressed: t.1, clicked: t.2, ..sub.0[wid.index()] },
            ),
            t.0,
        )
    }
}

/// The interaction pass folded over a sibling chain from the topmost
/// child backwards, accumulating whether any child hovered so far.
pub open spec fn spec_react_children(
    ws: Seq<Widget>,
    child: Option<WidgetId>,
    remaining: int,
    occluded: bool,
    ach: bool,
    mouse: Mouse,
    fuel: nat,
) -> (Seq<Widget>, bool)
    decreases fuel, 0int, remaining,
{
    if remaining <= 0 || child is None || fuel == 0 {
        (ws, ach)
    } else {
        let ch = child->0;
        let prv = ws[ch.index()].prev;
        let stepped = spec_react_node(ws, ch, occluded || ach, mouse, (fuel - 1) as nat);
        spec_react_children(
            stepped.0,
            prv,
            remaining - 1,
            occluded,
            ach || stepped.1,
            mouse,
            fuel,
        )
    }
}

/// The per-widget interaction state machine, as a pure function of the
/// widget's flags, whether the pointer is geometrically inside its rect,
/// whether something on top of it already claimed the pointer, last
/// frame's pressed state, and the button's current and previous state.
///
/// Returns `(hovered, pressed, clicked)`:
/// - a disabled widget reports nothing;
/// - `hovered` needs the hover flag, the pointer inside, and no
///   occlusion;
/// - `pressed` holds from the press that started while hovered for as
///   long as the button stays down, even if the pointer drifts off;
/// - `clicked` fires exactly when the button is released while the
///   widget is both hovered and still pressed from before.
pub open spec fn spec_react_step(
    flags: WidgetFlags,
    inside: bool,
    occluded: bool,
    pressed_prev: bool,
    l_now: bool,
    l_prev: bool,
) -> (bool, bool, bool) {
    if flags.spec_has(WidgetFlags(1u32)) {
        (false, false, false)
    } else {
        let hovered_geom = !occluded && inside;
        let can_hover = flags.spec_has(WidgetFlags(4u32));
        let can_click = flags.spec_has(WidgetFlags(8u32));
        let l_start = l_now && !l_prev;
        let l_end = !l_now && l_prev;
        let hovered = can_hover && hovered_geom;
        let pressed = can_click && (if hovered_geom {
            l_start || (l_now && pressed_prev)
        } else {
            l_now && pressed_prev
        });
        let clicked = can_click && hovered_geom && l_end && pressed_prev;
        (hovered, pressed, clicked)
    }
}

/// The widget-by-widget relation between the arena before and after the
/// interaction pass: only `hovered`, `pressed` and `clicked` may change.
/// What the interaction pass may do to one widget.
pub open spec fn spec_react_keep(a: Widget, b: Widget) -> bool {
    &&& b.parent == a.parent
    &&& b.prev == a.prev
    &&& b.next == a.next
    &&& b.first_child == a.first_child
    &&& b.last_child == a.last_child
    &&& b.next_freed == a.next_freed
    &&& b.children_count == a.children_count
    &&& b.props == a.props
    &&& b.last_frame_touched == a.last_frame_touched
    &&& b.freed == a.freed
    &&& b.solved_rect == a.solved_rect
    &&& b.solved_min_size == a.solved_min_size
}

pub open spec fn spec_react_rel(pre: Seq<Widget>, post: Seq<Widget>) -> bool {
    &&& post.len() == pre.len()
    &&& forall|j: int| 0 <= j < pre.len() ==> #[trigger] spec_react_keep(pre[j], post[j])
}

/// Sweep relations compose.
pub proof fn lemma_sweep_trans(a: Seq<Widget>, b: Seq<Widget>, c: Seq<Widget>, frame: u64)
    requires
        spec_sweep_rel(a, b, frame),
        spec_sweep_rel(b, c, frame),
    ensures
        spec_sweep_rel(a, c, frame),
{
    assert forall|j: int| 0 <= j < a.len() implies #[trigger] spec_sweep_keep(
        a[j],
        c[j],
        frame,
    ) by {
        assert(spec_sweep_keep(a[j], b[j], frame));
        assert(spec_sweep_keep(b[j], c[j], frame));
    }
}

/// React relations compose.
pub proof fn lemma_react_trans(a: Seq<Widget>, b: Seq<Widget>, c: Seq<Widget>)
    requires
        spec_react_rel(a, b),
        spec_react_rel(b, c),
    ensures
        spec_react_rel(a, c),
{
    assert forall|j: int| 0 <= j < a.len() implies #[trigger] spec_react_keep(a[j], c[j]) by {
        assert(spec_react_keep(a[j], b[j]));
        assert(spec_react_keep(b[j], c[j]));
    }
}

/// Well-formedness survives any change that keeps every widget's links,
/// the key map and the free-list head.
pub proof fn lemma_wf_links_preserved(a: UiContext, b: UiContext)
    requires
        a.wf(),
        b.widgets_seq().len() == a.widgets_seq().len(),
        forall|j: int|
            0 <= j < a.widgets_seq().len() ==> {
                let x = #[trigger] a.widgets_seq()[j];
                let y = #[trigger] b.widgets_seq()[j];
                y.parent == x.parent && y.prev == x.prev && y.next == x.next && y.first_child
                    == x.first_child && y.last_child == x.last_child && y.next_freed
                    == x.next_freed
            },
        b.keys_map() == a.keys_map(),
        b.spec_first_freed() == a.spec_first_freed(),
    ensures
        b.wf(),
{
    assert forall|i: int| 0 <= i < b.widgets_seq().len() implies b.widget_links_ok(
        #[trigger] b.widgets_seq()[i],
    ) by {
        assert(a.widget_links_ok(a.widgets_seq()[i]));
    }
    assert forall|k: u64| b.keys_map().dom().contains(k) implies b.valid_id(
        #[trigger] b.keys_map()[k],
    ) by {
        assert(a.valid_id(a.keys_map()[k]));
    }
}

impl UiContext {
    /// One node of the interaction pass.
    ///
    /// Children are tested topmost first (last added wins): a hovered
    /// child occludes both its earlier siblings and this widget itself,
    /// and an occluded widget can never hover. A disabled widget swallows
    /// the whole subtree: nothing below it is even tested.
    ///
    /// Returns whether this widget ended up hovered.
    fn react_rec(&mut self, mouse: &Mouse, wid: WidgetId, occluded: bool, fuel: usize) -> (h: bool)
        requires
            old(self).wf(),
            old(self).valid_id(wid),
        ensures
            final(self).wf(),
            final(self).keys_map() == old(self).keys_map(),
            final(self).spec_viewport() == old(self).spec_viewport(),
            final(self).spec_frame() == old(self).spec_frame(),
            final(self).spec_first_freed() == old(self).spec_first_freed(),
            spec_react_rel(old(self).widgets_seq(), final(self).widgets_seq()),
            (final(self).widgets_seq(), h) == spec_react_node(
                old(self).widgets_seq(),
                wid,
                occluded,
                *mouse,
                fuel as nat,
            ),
        decreases fuel,
    {
        let (flags, rect, pressed_prev) = {
            let w = self.widget(wid);
            (w.props.flags, w.solved_rect, w.pressed)
        };
        if flags.has(WidgetFlags(1)) {
            let w = &mut self.widgets[wid.0 - 1];
            w.hovered = false;
            w.pressed = false;
            w.clicked = false;
            proof {
                lemma_wf_links_preserved(*old(self), *self);
            }
            return false;
        }
        let ghost total = spec_react_node(
            old(self).widgets_seq(),
            wid,
            occluded,
            *mouse,
            fuel as nat,
        );
        let mut any_child_hovered = false;
        if fuel > 0 {
            let ghost inter = spec_react_children(
                old(self).widgets_seq(),
                old(self).widgets_seq()[wid.index()].last_child,
                old(self).widgets_seq().len() as int,
                occluded,
                false,
                *mouse,
                fuel as nat,
            );
            let mut child = self.widget(wid).last_child;
            let mut remaining = self.widgets.len();
            while child.is_some() && remaining > 0
                invariant
                    self.wf(),
                    self.link_ok(child),
                    old(self).valid_id(wid),
                    self.keys_map() == old(self).keys_map(),
                    self.spec_viewport() == old(self).spec_viewport(),
                    self.spec_frame() == old(self).spec_frame(),
                    self.spec_first_freed() == old(self).spec_first_freed(),
                    spec_react_rel(old(self).widgets_seq(), self.widgets_seq()),
                    inter == spec_react_children(
                        self.widgets_seq(),
                        child,
                        remaining as int,
                        occluded,
                        any_child_hovered,
                        *mouse,
                        fuel as nat,
                    ),
                    fuel >= 1,
                decreases remaining,
            {
                let ch = child.unwrap();
                let prv = self.widget(ch).prev;
                let ghost mid = self.widgets_seq();
                let ghost pre_ach = any_child_hovered;
                let h = self.react_rec(mouse, ch, occluded || any_child_hovered, fuel - 1);
                proof {
                    lemma_react_trans(old(self).widgets_seq(), mid, self.widgets_seq());
                    assert((self.widgets_seq(), h) == spec_react_node(
                        mid,
                        ch,
                        occluded || pre_ach,
                        *mouse,
                        (fuel - 1) as nat,
                    ));
                }
                any_child_hovered = any_child_hovered || h;
                child = prv;
                remaining = remaining - 1;
            }
            proof {
                assert(inter == (self.widgets_seq(), any_child_hovered));
            }
        }
        let ghost prew = *self;
        let i = wid.0 - 1;
        let w = &mut self.widgets[i];
        let hovered_geom = !(occluded || any_child_hovered) && rect.contains(mouse.x, mouse.y);
        let can_hover = flags.has(WidgetFlags(4));
        let can_click = flags.has(WidgetFlags(8));
        let l_now = mouse.l_pressed.0;
        let l_prev = mouse.l_pressed.1;
        let l_start = l_now && !l_prev;
        let l_end = !l_now && l_prev;
        w.hovered = can_hover && hovered_geom;
        w.pressed = can_click && (if hovered_geom {
            l_start || (l_now && pressed_prev)
        } else {
            l_now && pressed_prev
        });
        w.clicked = can_click && hovered_geom && l_end && pressed_prev;
        let hv = w.hovered;
        proof {
            lemma_react_trans(
                old(self).widgets_seq(),
                prew.widgets_seq(),
                self.widgets_seq(),
            );
            lemma_wf_links_preserved(prew, *self);
            let a = old(self).widgets_seq()[wid.index()];
            assert((hv, self.widgets_seq()[wid.index()].pressed, self.widgets_seq()[wid.index()].clicked)
                == spec_react_step(
                a.props.flags,
                a.solved_rect.spec_contains(mouse.x as int, mouse.y as int),
                occluded || any_child_hovered,
                a.pressed,
                mouse.l_pressed.0,
                mouse.l_pressed.1,
            ));
            assert((self.widgets_seq(), hv) == total);
        }
        hv
    }

    /// The interaction pass: computes every widget's hover, press and
    /// click state from the pointer, for the next frame's build calls to
    /// read. The arena afterwards is exactly [`spec_react_node`] of the
    /// arena before, applied at the root with nothing occluding it, so a
    /// widget not reachable from the root keeps its state and is never
    /// hit-tested.
    pub fn react(&mut self, mouse: &Mouse)
        requires
            old(self).wf(),
            old(self).widgets_seq().len() >= 1,
        ensures
            final(self).wf(),
            final(self).keys_map() == old(self).keys_map(),
            final(self).spec_viewport() == old(self).spec_viewport(),
            final(self).spec_frame() == old(self).spec_frame(),
            final(self).spec_first_freed() == old(self).spec_first_freed(),
            spec_react_rel(old(self).widgets_seq(), final(self).widgets_seq()),
            final(self).widgets_seq() == spec_react_node(
                old(self).widgets_seq(),
                UiContext::spec_root_widget(),
                false,
                *mouse,
                old(self).widgets_seq().len() as nat,
            ).0,
    {
        let fuel = self.widgets.len();
        let _ = self.react_rec(mouse, UiContext::root_widget(), false, fuel);
    }
}


/// 1 if the condition holds, else 0; used to place optional draw commands.
pub open spec fn b2i(b: bool) -> int {
    if b {
        1
    } else {
        0
    }
}

/// The rectangle a widget paints into: its solved rect shifted by the
/// declarative draw offset, saturating at the coordinate range.
pub open spec fn spec_cmd_rect(w: Widget) -> Rect {
    Rect {
        x: crate::math::clamp_i16(w.solved_rect.x as int + w.props.draw_offset.x as int) as i16,
        y: crate::math::clamp_i16(w.solved_rect.y as int + w.props.draw_offset.y as int) as i16,
        w: w.solved_rect.w,
        h: w.solved_rect.h,
    }
}

/// The composition function a widget paints with: its override, or `over`.
pub open spec fn spec_cmd_acf(w: Widget) -> AlphaComp {
    match w.props.acf {
        Some(acf) => acf,
        None => AlphaComp::Over,
    }
}

/// Exactly which commands one widget emits, in order: set the masks,
/// draw the sprite, the background fill, the border stroke and the text,
/// then reset whichever masks were set.
pub open spec fn spec_widget_cmds_match(w: Widget, cs: Seq<DrawCommand>) -> bool {
    let rect = spec_cmd_rect(w);
    let acf = spec_cmd_acf(w);
    let n_ma = b2i(w.props.mask_and is Some);
    let n_mo = b2i(w.props.mask_or is Some);
    let n_sp = b2i(w.props.flags.spec_has(WidgetFlags(128u32)) && w.props.sprite is Some);
    let n_bg = b2i(w.props.flags.spec_has(WidgetFlags(64u32)));
    let n_bd = b2i(w.props.flags.spec_has(WidgetFlags(32u32)));
    let n_tx = b2i(w.props.flags.spec_has(WidgetFlags(16u32)) && w.props.text is Some);
    &&& cs.len() == n_ma + n_mo + n_sp + n_bg + n_bd + n_tx + n_ma + n_mo
    &&& (w.props.mask_and matches Some(c) ==> cs[0] == DrawCommand::MaskAnd(c))
    &&& (w.props.mask_or matches Some(c) ==> cs[n_ma] == DrawCommand::MaskOr(c))
    &&& (w.props.flags.spec_has(WidgetFlags(128u32)) ==> match w.props.sprite {
        Some(WidgetSprite::Simple(sheet_id, sprite)) => cs[n_ma + n_mo]
            == (DrawCommand::Sprite {
            pos: Pos { x: rect.x, y: rect.y },
            rotate: w.props.rotate,
            sheet_id,
            sprite,
            acf,
        }),
        Some(WidgetSprite::NineSlice(sheet_id, nss)) => cs[n_ma + n_mo]
            == (DrawCommand::NineSlicingSprite { rect, sheet_id, nss, acf }),
        None => true,
    })
    &&& (w.props.flags.spec_has(WidgetFlags(64u32)) ==> cs[n_ma + n_mo + n_sp]
        == (DrawCommand::Fill { rect, color: w.props.color, acf }))
    &&& (w.props.flags.spec_has(WidgetFlags(32u32)) ==> cs[n_ma + n_mo + n_sp + n_bg]
        == (DrawCommand::Stroke {
        rect,
        stroke_width: 1u16,
        color: w.props.border_color,
        acf,
    }))
    &&& (w.props.flags.spec_has(WidgetFlags(16u32)) ==> match w.props.text {
        Some(t) => {
            let c = cs[n_ma + n_mo + n_sp + n_bg + n_bd];
            &&& c matches DrawCommand::Text { text, pos, acf: a }
            &&& (c matches DrawCommand::Text { text, pos, acf: a } ==> text@ == t.spec_text()
                && pos == (Pos { x: rect.x, y: rect.y }) && a == acf)
        },
        None => true,
    })
    &&& (w.props.mask_and is Some ==> cs[n_ma + n_mo + n_sp + n_bg + n_bd + n_tx]
        == DrawCommand::MaskAnd(Color { a: 255u8, r: 255u8, g: 255u8, b: 255u8 }))
    &&& (w.props.mask_or is Some ==> cs[n_ma + n_mo + n_sp + n_bg + n_bd + n_tx + n_ma]
        == DrawCommand::MaskOr(Color { a: 0u8, r: 0u8, g: 0u8, b: 0u8 }))
}

/// How many commands one widget emits.
pub open spec fn spec_widget_cmd_count(w: Widget) -> int {
    let n_ma = b2i(w.props.mask_and is Some);
    let n_mo = b2i(w.props.mask_or is Some);
    let n_sp = b2i(w.props.flags.spec_has(WidgetFlags(128u32)) && w.props.sprite is Some);
    let n_bg = b2i(w.props.flags.spec_has(WidgetFlags(64u32)));
    let n_bd = b2i(w.props.flags.spec_has(WidgetFlags(32u32)));
    let n_tx = b2i(w.props.flags.spec_has(WidgetFlags(16u32)) && w.props.text is Some);
    n_ma + n_mo + n_sp + n_bg + n_bd + n_tx + n_ma + n_mo
}

/// How many commands the paint walk emits for one subtree: the widget's
/// own, then its children's, depth first.
pub open spec fn spec_walk_cmd_count(ws: Seq<Widget>, wid: WidgetId, fuel: nat) -> int
    decreases fuel, 1int, 0int,
{
    if fuel == 0 {
        0
    } else {
        spec_widget_cmd_count(ws[wid.index()]) + spec_children_cmd_count(
            ws,
            ws[wid.index()].first_child,
            ws.len() as int,
            fuel,
        )
    }
}

pub open spec fn spec_children_cmd_count(
    ws: Seq<Widget>,
    child: Option<WidgetId>,
    remaining: int,
    fuel: nat,
) -> int
    decreases fuel, 0int, remaining,
{
    if remaining <= 0 || child is None || fuel == 0 {
        0
    } else {
        let ch = child->0;
        spec_walk_cmd_count(ws, ch, (fuel - 1) as nat) + spec_children_cmd_count(
            ws,
            ws[ch.index()].next,
            remaining - 1,
            fuel,
        )
    }
}

/// The paint walk never counts negatively.
pub proof fn lemma_walk_cmd_count_nonneg(ws: Seq<Widget>, wid: WidgetId, fuel: nat)
    ensures
        spec_walk_cmd_count(ws, wid, fuel) >= 0,
    decreases fuel, 1int, 0int,
{
    if fuel != 0 {
        lemma_children_cmd_count_nonneg(ws, ws[wid.index()].first_child, ws.len() as int, fuel);
    }
}

pub proof fn lemma_children_cmd_count_nonneg(
    ws: Seq<Widget>,
    child: Option<WidgetId>,
    remaining: int,
    fuel: nat,
)
    ensures
        spec_children_cmd_count(ws, child, remaining, fuel) >= 0,
    decreases fuel, 0int, remaining,
{
    if !(remaining <= 0 || child is None || fuel == 0) {
        let ch = child->0;
        lemma_walk_cmd_count_nonneg(ws, ch, (fuel - 1) as nat);
        lemma_children_cmd_count_nonneg(ws, ws[ch.index()].next, remaining - 1, fuel);
    }
}

/// What the paint walk appends for one subtree: first the widget's own
/// commands, then each child's block in sibling order — parents paint
/// before children and earlier siblings before later ones, so the last
/// added child paints on top. A widget not reachable from the walk
/// contributes nothing.
pub open spec fn spec_walk_cmds_match(
    ws: Seq<Widget>,
    wid: WidgetId,
    cs: Seq<DrawCommand>,
    fuel: nat,
) -> bool
    decreases fuel, 1int, 0int,
{
    if fuel == 0 {
        cs.len() == 0
    } else {
        let oc = spec_widget_cmd_count(ws[wid.index()]);
        &&& cs.len() == spec_walk_cmd_count(ws, wid, fuel)
        &&& spec_widget_cmds_match(ws[wid.index()], cs.take(oc))
        &&& spec_children_cmds_match(
            ws,
            ws[wid.index()].first_child,
            ws.len() as int,
            cs.skip(oc),
            fuel,
        )
    }
}

pub open spec fn spec_children_cmds_match(
    ws: Seq<Widget>,
    child: Option<WidgetId>,
    remaining: int,
    cs: Seq<DrawCommand>,
    fuel: nat,
) -> bool
    decreases fuel, 0int, remaining,
{
    if remaining <= 0 || child is None || fuel == 0 {
        cs.len() == 0
    } else {
        let ch = child->0;
        let k = spec_walk_cmd_count(ws, ch, (fuel - 1) as nat);
        &&& cs.len() == spec_children_cmd_count(ws, child, remaining, fuel)
        &&& spec_walk_cmds_match(ws, ch, cs.take(k), (fuel - 1) as nat)
        &&& spec_children_cmds_match(ws, ws[ch.index()].next, remaining - 1, cs.skip(k), fuel)
    }
}

/// A copy of a byte vector.
fn dup_bytes(v: &Vec<u8>) -> (r: Vec<u8>)
    ensures
        r@ == v@,
{
    let mut r: Vec<u8> = Vec::new();
    let n = v.len();
    let mut i: usize = 0;
    while i < n
        invariant
            i <= n,
            n == v@.len(),
            r@.len() == i as int,
            forall|j: int| 0 <= j < i as int ==> r@[j] == v@[j],
        decreases n - i,
    {
        r.push(v[i]);
        i += 1;
    }
    proof {
        assert(r@ =~= v@);
    }
    r
}

impl UiContext {
    /// Emits the draw commands of a single widget.
    #[verifier::rlimit(100)]
    fn emit_widget_commands(w: &Widget, cmds: &mut Vec<DrawCommand>)
        ensures
            final(cmds)@.len() == old(cmds)@.len() + spec_widget_cmd_count(*w),
            final(cmds)@.take(old(cmds)@.len() as int) =~= old(cmds)@,
            spec_widget_cmds_match(*w, final(cmds)@.skip(old(cmds)@.len() as int)),
    {
        let acf = match w.props.acf {
            Some(a) => a,
            None => AlphaComp::Over,
        };
        let rect = Rect {
            x: crate::math::clamp_to_i16(w.solved_rect.x as i64 + w.props.draw_offset.x as i64),
            y: crate::math::clamp_to_i16(w.solved_rect.y as i64 + w.props.draw_offset.y as i64),
            w: w.solved_rect.w,
            h: w.solved_rect.h,
        };
        if let Some(mask_and) = w.props.mask_and {
            cmds.push(DrawCommand::MaskAnd(mask_and));
        }
        if let Some(mask_or) = w.props.mask_or {
            cmds.push(DrawCommand::MaskOr(mask_or));
        }
        if w.props.flags.has(WidgetFlags(128)) {
            match &w.props.sprite {
                Some(WidgetSprite::Simple(sheet_id, sprite)) => {
                    cmds.push(
                        DrawCommand::Sprite {
                            pos: Pos { x: rect.x, y: rect.y },
                            rotate: w.props.rotate,
                            sheet_id: *sheet_id,
                            sprite: *sprite,
                            acf,
                        },
                    );
                },
                Some(WidgetSprite::NineSlice(sheet_id, nss)) => {
                    cmds.push(
                        DrawCommand::NineSlicingSprite { rect, sheet_id: *sheet_id, nss: *nss, acf },
                    );
                },
                None => {},
            }
        }
        if w.props.flags.has(WidgetFlags(64)) {
            cmds.push(DrawCommand::Fill { rect, color: w.props.color, acf });
        }
        if w.props.flags.has(WidgetFlags(32)) {
            cmds.push(
                DrawCommand::Stroke { rect, stroke_width: 1, color: w.props.border_color, acf },
            );
        }
        if w.props.flags.has(WidgetFlags(16)) {
            if let Some(t) = &w.props.text {
                cmds.push(
                    DrawCommand::Text {
                        text: dup_bytes(t.text()),
                        pos: Pos { x: rect.x, y: rect.y },
                        acf,
                    },
                );
            }
        }
        if w.props.mask_and.is_some() {
            cmds.push(DrawCommand::MaskAnd(Color::white()));
        }
        if w.props.mask_or.is_some() {
            cmds.push(DrawCommand::MaskOr(Color::transparent()));
        }
    }

    /// Walks the subtree under `wid` depth first, appending each widget's
    /// draw commands; the appended run is exactly what
    /// [`spec_walk_cmds_match`] describes: parents before children,
    /// siblings in add order, which gives last-added-on-top painting.
    fn draw_widgets_rec(&self, cmds: &mut Vec<DrawCommand>, wid: WidgetId, fuel: usize)
        requires
            self.wf(),
            self.valid_id(wid),
        ensures
            final(cmds)@.len() == old(cmds)@.len() + spec_walk_cmd_count(
                self.widgets_seq(),
                wid,
                fuel as nat,
            ),
            final(cmds)@.take(old(cmds)@.len() as int) =~= old(cmds)@,
            spec_walk_cmds_match(
                self.widgets_seq(),
                wid,
                final(cmds)@.skip(old(cmds)@.len() as int),
                fuel as nat,
            ),
        decreases fuel,
    {
        if fuel == 0 {
            return ;
        }
        let ghost ws = self.widgets_seq();
        let ghost base = cmds@.len() as int;
        let first_child = {
            let w = self.widget(wid);
            UiContext::emit_widget_commands(w, cmds);
            w.first_child
        };
        let ghost oc = spec_widget_cmd_count(ws[wid.index()]);
        let ghost own = cmds@.skip(base);
        let mut child = first_child;
        let mut remaining = self.widgets.len();
        while child.is_some() && remaining > 0
            invariant
                self.wf(),
                self.link_ok(child),
                ws == self.widgets_seq(),
                oc == spec_widget_cmd_count(ws[wid.index()]),
                base + oc <= cmds@.len(),
                0 <= base,
                0 <= oc,
                cmds@.take(base) =~= old(cmds)@,
                base == old(cmds)@.len() as int,
                cmds@.subrange(base, base + oc) =~= own,
                spec_widget_cmds_match(ws[wid.index()], own),
                forall|rest: Seq<DrawCommand>|
                    #[trigger] spec_children_cmds_match(
                        ws,
                        child,
                        remaining as int,
                        rest,
                        fuel as nat,
                    ) ==> spec_children_cmds_match(
                        ws,
                        first_child,
                        ws.len() as int,
                        cmds@.skip(base + oc) + rest,
                        fuel as nat,
                    ),
                fuel >= 1,
            decreases remaining,
        {
            let ch = child.unwrap();
            let ghost mid = cmds@;
            self.draw_widgets_rec(cmds, ch, fuel - 1);
            proof {
                let k = spec_walk_cmd_count(ws, ch, (fuel - 1) as nat);
                let block = cmds@.skip(mid.len() as int);
                assert(cmds@.take(mid.len() as int) =~= mid);
                assert(block.len() == k);
                assert(cmds@.take(base) =~= mid.take(base));
                assert(cmds@.subrange(base, base + oc) =~= mid.subrange(base, base + oc));
                assert(cmds@.skip(base + oc) =~= mid.skip(base + oc) + block);
                let nxt = ws[ch.index()].next;
                assert forall|rest: Seq<DrawCommand>|
                    #[trigger] spec_children_cmds_match(
                        ws,
                        nxt,
                        remaining as int - 1,
                        rest,
                        fuel as nat,
                    ) implies spec_children_cmds_match(
                    ws,
                    first_child,
                    ws.len() as int,
                    cmds@.skip(base + oc) + rest,
                    fuel as nat,
                ) by {
                    assert((block + rest).take(k) =~= block);
                    assert((block + rest).skip(k) =~= rest);
                    assert(rest.len() == spec_children_cmd_count(
                        ws,
                        nxt,
                        remaining as int - 1,
                        fuel as nat,
                    ));
                    assert((block + rest).len() == spec_children_cmd_count(
                        ws,
                        child,
                        remaining as int,
                        fuel as nat,
                    ));
                    assert(spec_walk_cmds_match(ws, ch, (block + rest).take(k), (fuel - 1) as nat));
                    assert(spec_children_cmds_match(
                        ws,
                        nxt,
                        remaining as int - 1,
                        (block + rest).skip(k),
                        fuel as nat,
                    ));
                    assert(spec_children_cmds_match(
                        ws,
                        child,
                        remaining as int,
                        block + rest,
                        fuel as nat,
                    ));
                    assert(spec_children_cmds_match(
                        ws,
                        first_child,
                        ws.len() as int,
                        mid.skip(base + oc) + (block + rest),
                        fuel as nat,
                    ));
                    assert(cmds@.skip(base + oc) + rest =~= mid.skip(base + oc) + (block
                        + rest));
                }
            }
            child = self.widget(ch).next;
            remaining = remaining - 1;
        }
        proof {
            let empty = Seq::<DrawCommand>::empty();
            assert(spec_children_cmds_match(ws, child, remaining as int, empty, fuel as nat));
            assert(cmds@.skip(base + oc) + empty =~= cmds@.skip(base + oc));
            assert(spec_children_cmds_match(
                ws,
                first_child,
                ws.len() as int,
                cmds@.skip(base + oc),
                fuel as nat,
            ));
            lemma_children_cmd_count_nonneg(ws, first_child, ws.len() as int, fuel as nat);
            assert(cmds@.skip(base).take(oc) =~= cmds@.subrange(base, base + oc));
            assert(cmds@.skip(base).skip(oc) =~= cmds@.skip(base + oc));
            assert(spec_walk_cmds_match(ws, wid, cmds@.skip(base), fuel as nat));
        }
    }

    /// Emits the whole tree's draw commands, wrapped in a composite
    /// bracket so the UI blends over whatever is already on screen as one
    /// unit: `BeginComposite`, `Clear`, then exactly the depth-first walk
    /// of the tree under the root ([`spec_walk_cmds_match`]), then
    /// `EndComposite(over)`. A widget not reachable from the root — a
    /// swept widget in particular — contributes no command, stale id or
    /// not.
    pub fn draw_widgets(&self, cmds: &mut Vec<DrawCommand>)
        requires
            self.wf(),
            self.widgets_seq().len() >= 1,
        ensures
            final(cmds)@.len() == old(cmds)@.len() + 3 + spec_walk_cmd_count(
                self.widgets_seq(),
                UiContext::spec_root_widget(),
                self.widgets_seq().len() as nat,
            ),
            final(cmds)@.take(old(cmds)@.len() as int) =~= old(cmds)@,
            final(cmds)@[old(cmds)@.len() as int] == DrawCommand::BeginComposite,
            final(cmds)@[old(cmds)@.len() as int + 1] == DrawCommand::Clear,
            spec_walk_cmds_match(
                self.widgets_seq(),
                UiContext::spec_root_widget(),
                final(cmds)@.subrange(
                    old(cmds)@.len() as int + 2,
                    final(cmds)@.len() as int - 1,
                ),
                self.widgets_seq().len() as nat,
            ),
            final(cmds)@.last() == DrawCommand::EndComposite(AlphaComp::Over),
    {
        cmds.push(DrawCommand::BeginComposite);
        cmds.push(DrawCommand::Clear);
        let fuel = self.widgets.len();
        let ghost mid = cmds@;
        self.draw_widgets_rec(cmds, UiContext::root_widget(), fuel);
        proof {
            assert(cmds@.take(old(cmds)@.len() as int) =~= mid.take(old(cmds)@.len() as int));
            assert(cmds@[old(cmds)@.len() as int] == mid[old(cmds)@.len() as int]);
            assert(cmds@[old(cmds)@.len() as int + 1] == mid[old(cmds)@.len() as int + 1]);
        }
        let ghost pre = cmds@;
        let ghost walk = cmds@.skip(mid.len() as int);
        cmds.push(DrawCommand::EndComposite(AlphaComp::Over));
        proof {
            assert(cmds@.take(old(cmds)@.len() as int) =~= pre.take(old(cmds)@.len() as int));
            assert(cmds@[old(cmds)@.len() as int] == pre[old(cmds)@.len() as int]);
            assert(cmds@[old(cmds)@.len() as int + 1] == pre[old(cmds)@.len() as int + 1]);
            assert(cmds@.subrange(old(cmds)@.len() as int + 2, cmds@.len() as int - 1)
                =~= walk);
        }
    }
}


/// Key stability and reuse across frames.
///
/// `build_widget`'s contract says a build returns the id bound to its key,
/// binding a fresh id only for a never-seen key, and that nothing else —
/// not `add_child`, not the layout, draw or interaction passes, not the
/// sweep — ever changes the key map. This lemma closes the loop: once a
/// build with key `k` has returned `id`, the map binds `k` to `id`, so
/// every later build with `k` — in the same frame (the second call
/// overwrites the first's properties but keeps the id) or in any later
/// frame — returns the same `id`.
pub proof fn lemma_key_binding_stable(
    keys_before: Map<u64, WidgetId>,
    keys_after: Map<u64, WidgetId>,
    k: u64,
    id: WidgetId,
)
    requires
        keys_before.contains_key(k) ==> keys_after == keys_before && id == keys_before[k],
        !keys_before.contains_key(k) ==> keys_after == keys_before.insert(k, id),
    ensures
        keys_after.contains_key(k),
        keys_after[k] == id,
{
}

/// The sweep never disturbs a live widget: a widget built in the frame
/// being swept keeps every field, so garbage collection only ever takes
/// widgets whose call site was not reached.
pub proof fn lemma_sweep_spares_this_frame(pre: Seq<Widget>, post: Seq<Widget>, frame: u64, j: int)
    requires
        spec_sweep_rel(pre, post, frame),
        0 <= j < pre.len(),
        pre[j].last_frame_touched == frame,
    ensures
        post[j] == pre[j],
{
    assert(spec_sweep_keep(pre[j], post[j], frame));
}

/// Occlusion: whatever its flags and the pointer's position, a widget
/// with something on top of it — a hovered descendant, or a hovered
/// later sibling — reports not hovered and cannot click.
pub proof fn lemma_occlusion(
    flags: WidgetFlags,
    inside: bool,
    pressed_prev: bool,
    l_now: bool,
    l_prev: bool,
)
    ensures
        !spec_react_step(flags, inside, true, pressed_prev, l_now, l_prev).0,
        !spec_react_step(flags, inside, true, pressed_prev, l_now, l_prev).2,
{
}

/// Click edge detection, over the per-widget interaction step:
/// - releasing the button while the pointer is off the widget (or the
///   widget is occluded) never clicks, however the press started;
/// - a press held down keeps the widget pressed even after the pointer
///   drifts off it;
/// - releasing over a widget that is inside, unoccluded, enabled,
///   clickable and still pressed from before clicks exactly then;
/// - once the button is up, the very next frame no longer clicks.
pub proof fn lemma_click_edges(flags: WidgetFlags, pressed_prev: bool)
    ensures
        forall|inside: bool, occ: bool|
            !(inside && !occ) ==> !#[trigger] spec_react_step(
                flags,
                inside,
                occ,
                pressed_prev,
                false,
                true,
            ).2,
        flags.spec_has(WidgetFlags(8u32)) && !flags.spec_has(WidgetFlags(1u32)) && pressed_prev
            ==> spec_react_step(flags, false, false, pressed_prev, true, true).1,
        flags.spec_has(WidgetFlags(8u32)) && !flags.spec_has(WidgetFlags(1u32)) && pressed_prev
            ==> spec_react_step(flags, true, false, pressed_prev, false, true).2,
        forall|inside: bool, occ: bool, pp: bool|
            !#[trigger] spec_react_step(flags, inside, occ, pp, false, false).2,
{
}

} // verus!




