//! The two-pass layout solver: minimum sizes bottom-up, rectangles
//! top-down.
//!
//! The arithmetic lives in small pure functions with exact contracts —
//! the max rule for stacked hugging, the sum-plus-gaps rule for flexed
//! hugging, and the leftover division rule for `Fill` children — and the
//! tree walks apply them node by node.

use vstd::prelude::*;

use crate::math::pos::Pos;
use crate::math::rect::Rect;
use crate::math::size::Size;
use crate::math::LayoutRect;
use crate::ui::{
    Anchor, FlexDirection, UiContext, Widget, WidgetDim, WidgetId, WidgetLayout, WidgetPadding,
    WidgetSize,
};

verus! {

/// Clamps a mathematical integer into the `u16` range.
pub open spec fn clamp_u16(v: int) -> int {
    if v < 0 {
        0
    } else if v > u16::MAX as int {
        u16::MAX as int
    } else {
        v
    }
}

/// Saturating cast of a mathematical integer into `u16`.
fn clamp_to_u16(v: i64) -> (r: u16)
    ensures
        r as int == clamp_u16(v as int),
{
    if v < 0 {
        0
    } else if v > u16::MAX as i64 {
        u16::MAX
    } else {
        v as u16
    }
}

/// The largest of a list of sizes, zero for an empty list: the minimum
/// size of a hugging widget whose children all overlap.
pub open spec fn spec_stacked_min(mins: Seq<u16>) -> int
    decreases mins.len(),
{
    if mins.len() == 0 {
        0
    } else {
        let prev = spec_stacked_min(mins.drop_last());
        if mins.last() as int > prev {
            mins.last() as int
        } else {
            prev
        }
    }
}

/// The minimum main-axis size of a hugging widget with flexed children:
/// the first child's size, plus each later child's size with one gap,
/// clamping every step into the `u16` range.
pub open spec fn spec_flex_min(mins: Seq<u16>, gap: int) -> int
    decreases mins.len(),
{
    if mins.len() == 0 {
        0
    } else if mins.len() == 1 {
        mins[0] as int
    } else {
        clamp_u16(spec_flex_min(mins.drop_last(), gap) + clamp_u16(mins.last() as int + gap))
    }
}

/// The plain sum of a list of sizes.
pub open spec fn spec_sum(mins: Seq<u16>) -> int
    decreases mins.len(),
{
    if mins.len() == 0 {
        0
    } else {
        spec_sum(mins.drop_last()) + mins.last() as int
    }
}

/// The min-size law for flexed hugging, away from the saturation range:
/// with a non-negative gap and everything in range, the minimum size is
/// exactly the sum of the children plus one gap per interior edge.
pub proof fn lemma_flex_min_is_sum_plus_gaps(mins: Seq<u16>, gap: int)
    requires
        mins.len() >= 1,
        0 <= gap,
        spec_sum(mins) + gap * (mins.len() - 1) <= u16::MAX as int,
    ensures
        spec_flex_min(mins, gap) == spec_sum(mins) + gap * (mins.len() - 1),
    decreases mins.len(),
{
    if mins.len() == 1 {
        assert(gap * (mins.len() - 1) == 0) by (nonlinear_arith)
            requires
                mins.len() == 1,
        ;
        assert(spec_sum(mins.drop_last()) == 0);
        assert(spec_sum(mins) == mins[0] as int);
    } else {
        assert(spec_sum(mins) == spec_sum(mins.drop_last()) + mins.last() as int);
        assert(gap * (mins.len() - 1) == gap * (mins.len() - 2) + gap) by (nonlinear_arith);
        assert(gap * (mins.len() - 2) >= 0) by (nonlinear_arith)
            requires
                gap >= 0,
                mins.len() >= 2,
        ;
        assert(spec_sum(mins.drop_last()) >= 0) by {
            lemma_sum_nonneg(mins.drop_last());
        }
        lemma_flex_min_is_sum_plus_gaps(mins.drop_last(), gap);
        assert(spec_flex_min(mins, gap) == clamp_u16(
            spec_flex_min(mins.drop_last(), gap) + clamp_u16(mins.last() as int + gap),
        ));
        assert(clamp_u16(mins.last() as int + gap) == mins.last() as int + gap);
        assert(clamp_u16(
            spec_flex_min(mins.drop_last(), gap) + (mins.last() as int + gap),
        ) == spec_sum(mins) + gap * (mins.len() - 1));
    }
}

pub proof fn lemma_sum_nonneg(mins: Seq<u16>)
    ensures
        spec_sum(mins) >= 0,
    decreases mins.len(),
{
    if mins.len() > 0 {
        lemma_sum_nonneg(mins.drop_last());
    }
}

/// The width each `Fill` child receives: the inner size, minus the fixed
/// children and the gaps, floored at zero, divided evenly; the integer
/// remainder is simply lost.
pub open spec fn spec_fill_dim(
    inner: int,
    fixed_total: int,
    gap: int,
    child_count: int,
    fills: int,
) -> int {
    let gaps = gap * (if child_count > 0 {
        child_count - 1
    } else {
        0
    });
    let leftover = inner - fixed_total - gaps;
    let lo = if leftover < 0 {
        0
    } else {
        leftover
    };
    clamp_u16(lo / fills)
}

/// The largest of a list of minimum sizes.
pub fn stacked_children_min(mins: &Vec<u16>) -> (r: u16)
    ensures
        r as int == spec_stacked_min(mins@),
{
    let mut r: u16 = 0;
    let n = mins.len();
    let mut i: usize = 0;
    while i < n
        invariant
            i <= n,
            n == mins@.len(),
            r as int == spec_stacked_min(mins@.take(i as int)),
        decreases n - i,
    {
        let m = mins[i];
        if m > r {
            r = m;
        }
        proof {
            assert(mins@.take(i as int + 1).drop_last() =~= mins@.take(i as int));
            assert(mins@.take(i as int + 1).last() == mins@[i as int]);
        }
        i += 1;
    }
    proof {
        assert(mins@.take(n as int) =~= mins@);
    }
    r
}

/// The main-axis minimum of flexed children: sizes plus interior gaps,
/// saturating instead of wrapping.
pub fn flex_children_min(mins: &Vec<u16>, gap: i16) -> (r: u16)
    ensures
        r as int == spec_flex_min(mins@, gap as int),
{
    let n = mins.len();
    if n == 0 {
        return 0;
    }
    let mut r: u16 = mins[0];
    let mut i: usize = 1;
    proof {
        assert(mins@.take(1) =~= seq![mins@[0]]);
    }
    while i < n
        invariant
            1 <= i <= n,
            n == mins@.len(),
            r as int == spec_flex_min(mins@.take(i as int), gap as int),
        decreases n - i,
    {
        let step = clamp_to_u16(mins[i] as i64 + gap as i64);
        r = clamp_to_u16(r as i64 + step as i64);
        proof {
            assert(mins@.take(i as int + 1).drop_last() =~= mins@.take(i as int));
            assert(mins@.take(i as int + 1).last() == mins@[i as int]);
        }
        i += 1;
    }
    proof {
        assert(mins@.take(n as int) =~= mins@);
    }
    r
}

/// The size each `Fill` child resolves to on the main axis.
pub fn fill_dim(inner: u16, fixed_total: u64, gap: i16, child_count: u64, fills: u64) -> (r: u16)
    requires
        1 <= fills,
        fills <= child_count,
        fixed_total < 0x1_0000_0000_0000,
        child_count < 0x1_0000_0000,
    ensures
        r as int == spec_fill_dim(
            inner as int,
            fixed_total as int,
            gap as int,
            child_count as int,
            fills as int,
        ),
{
    proof {
        assert(-0x8000 * 0x1_0000_0000 <= (gap as int) * (child_count as int - 1) < 0x8000
            * 0x1_0000_0000) by (nonlinear_arith)
            requires
                -0x8000 <= (gap as int) <= 0x7fff,
                0 <= (child_count as int) < 0x1_0000_0000,
        ;
    }
    let gaps: i64 = if child_count > 0 {
        gap as i64 * (child_count as i64 - 1)
    } else {
        0
    };
    let leftover: i64 = inner as i64 - fixed_total as i64 - gaps;
    let lo: i64 = if leftover < 0 {
        0
    } else {
        leftover
    };
    let d: i64 = lo / (fills as i64);
    proof {
        assert(0 <= lo as int / (fills as int) <= lo as int) by (nonlinear_arith)
            requires
                lo as int >= 0,
                fills as int >= 1,
        ;
    }
    clamp_to_u16(d)
}

/// The size one dimension resolves to: explicit pixels, the precomputed
/// minimum for hugging, the parent's inner size for filling.
pub open spec fn spec_solve_dim(dim: WidgetDim, min: u16, parent: u16) -> u16 {
    match dim {
        WidgetDim::Fixed(n) => n,
        WidgetDim::Hug => min,
        WidgetDim::Fill => parent,
    }
}

pub fn solve_dim(dim: WidgetDim, min: u16, parent: u16) -> (r: u16)
    ensures
        r == spec_solve_dim(dim, min, parent),
{
    match dim {
        WidgetDim::Fixed(n) => n,
        WidgetDim::Hug => min,
        WidgetDim::Fill => parent,
    }
}

/// The widget-by-widget relation between the arena before and after the
/// layout solver: only the two solved fields may change.
pub open spec fn spec_layout_keep(a: Widget, b: Widget) -> bool {
    &&& b.parent == a.parent
    &&& b.prev == a.prev
    &&& b.next == a.next
    &&& b.first_child == a.first_child
    &&& b.last_child == a.last_child
    &&& b.next_freed == a.next_freed
    &&& b.children_count == a.children_count
    &&& b.props == a.props
    &&& b.last_frame_touched == a.last_frame_touched
    &&& b.freed == a.freed
    &&& b.hovered == a.hovered
    &&& b.pressed == a.pressed
    &&& b.clicked == a.clicked
}

pub open spec fn spec_layout_rel(pre: Seq<Widget>, post: Seq<Widget>) -> bool {
    &&& post.len() == pre.len()
    &&& forall|j: int| 0 <= j < pre.len() ==> #[trigger] spec_layout_keep(pre[j], post[j])
}

pub proof fn lemma_layout_trans(a: Seq<Widget>, b: Seq<Widget>, c: Seq<Widget>)
    requires
        spec_layout_rel(a, b),
        spec_layout_rel(b, c),
    ensures
        spec_layout_rel(a, c),
{
    assert forall|j: int| 0 <= j < a.len() implies #[trigger] spec_layout_keep(a[j], c[j]) by {
        assert(spec_layout_keep(a[j], b[j]));
        assert(spec_layout_keep(b[j], c[j]));
    }
}


/// The minimum size of one widget, from its sizing mode, layout, padding
/// and its children's minimum sizes: fixed sizes stand, hugging takes the
/// max of overlapping children or the gap-summed total along a flex axis,
/// filling contributes nothing, and the widget's own padding is added on
/// top, saturating.
pub open spec fn spec_widget_min_size(
    size: WidgetSize,
    layout: WidgetLayout,
    padding: WidgetPadding,
    child_min_ws: Seq<u16>,
    child_min_hs: Seq<u16>,
) -> Size {
    let base_w = match size.w {
        WidgetDim::Fixed(width) => width as int,
        WidgetDim::Hug => match layout {
            WidgetLayout::Stacked => spec_stacked_min(child_min_ws),
            WidgetLayout::Flex { direction: FlexDirection::Horizontal, gap } => spec_flex_min(
                child_min_ws,
                gap as int,
            ),
            WidgetLayout::Flex { direction: FlexDirection::Vertical, gap: _ } => spec_stacked_min(
                child_min_ws,
            ),
        },
        WidgetDim::Fill => 0,
    };
    let base_h = match size.h {
        WidgetDim::Fixed(height) => height as int,
        WidgetDim::Hug => match layout {
            WidgetLayout::Stacked => spec_stacked_min(child_min_hs),
            WidgetLayout::Flex { direction: FlexDirection::Horizontal, gap: _ } => spec_stacked_min(
                child_min_hs,
            ),
            WidgetLayout::Flex { direction: FlexDirection::Vertical, gap } => spec_flex_min(
                child_min_hs,
                gap as int,
            ),
        },
        WidgetDim::Fill => 0,
    };
    Size {
        w: clamp_u16(base_w + padding.l as int + padding.r as int) as u16,
        h: clamp_u16(base_h + padding.t as int + padding.b as int) as u16,
    }
}

/// Computes one widget's minimum size; pass 1 applies this at every node.
pub fn widget_min_size(
    size: WidgetSize,
    layout: WidgetLayout,
    padding: WidgetPadding,
    min_ws: &Vec<u16>,
    min_hs: &Vec<u16>,
) -> (r: Size)
    ensures
        r == spec_widget_min_size(size, layout, padding, min_ws@, min_hs@),
{
    let min_w: u16 = match size.w {
        WidgetDim::Fixed(width) => width,
        WidgetDim::Hug => match layout {
            WidgetLayout::Stacked => stacked_children_min(min_ws),
            WidgetLayout::Flex { direction: FlexDirection::Horizontal, gap } => {
                flex_children_min(min_ws, gap)
            },
            WidgetLayout::Flex { direction: FlexDirection::Vertical, gap: _ } => {
                stacked_children_min(min_ws)
            },
        },
        WidgetDim::Fill => 0,
    };
    let min_h: u16 = match size.h {
        WidgetDim::Fixed(height) => height,
        WidgetDim::Hug => match layout {
            WidgetLayout::Stacked => stacked_children_min(min_hs),
            WidgetLayout::Flex { direction: FlexDirection::Horizontal, gap: _ } => {
                stacked_children_min(min_hs)
            },
            WidgetLayout::Flex { direction: FlexDirection::Vertical, gap } => {
                flex_children_min(min_hs, gap)
            },
        },
        WidgetDim::Fill => 0,
    };
    Size {
        w: clamp_to_u16(min_w as i64 + padding.l as i64 + padding.r as i64),
        h: clamp_to_u16(min_h as i64 + padding.t as i64 + padding.b as i64),
    }
}

/// Where one widget lands inside its parent's rectangle: its size is
/// fixed, hugged or filled; the anchor point at fractional coordinates of
/// the parent, shifted by the declarative offset, is where the widget's
/// own origin point (at fractional coordinates of itself) is placed.
///
/// Anchoring and centring a widget both ways round-trips: with anchor
/// and origin both at the centre, a `w` by `h` widget in a parent of
/// width `W` starts at `parent.x + W/2 - w/2`.
pub open spec fn spec_place_widget(
    size: WidgetSize,
    min: Size,
    anchor: Anchor,
    origin: Anchor,
    offset: Pos,
    parent: Rect,
) -> Rect {
    let w = spec_solve_dim(size.w, min.w, parent.w);
    let h = spec_solve_dim(size.h, min.h, parent.h);
    let ax = crate::math::spec_anchor_coord(
        crate::math::spec_origin_shift(parent.x as int, parent.w as int, 0),
        parent.w as int,
        anchor.x as int,
    );
    let ay = crate::math::spec_anchor_coord(
        crate::math::spec_origin_shift(parent.y as int, parent.h as int, 0),
        parent.h as int,
        anchor.y as int,
    );
    let cx = crate::math::clamp_i16(ax + offset.x as int);
    let cy = crate::math::clamp_i16(ay + offset.y as int);
    Rect {
        x: crate::math::spec_origin_shift(cx, w as int, origin.x as int) as i16,
        y: crate::math::spec_origin_shift(cy, h as int, origin.y as int) as i16,
        w,
        h,
    }
}

/// Resolves one widget's rectangle; pass 2 applies this at every node.
pub fn place_widget(
    size: WidgetSize,
    min: Size,
    anchor: Anchor,
    origin: Anchor,
    offset: Pos,
    parent: Rect,
) -> (r: Rect)
    ensures
        r == spec_place_widget(size, min, anchor, origin, offset, parent),
{
    let solved_w = solve_dim(size.w, min.w, parent.w);
    let solved_h = solve_dim(size.h, min.h, parent.h);
    let parent_layout_rect = LayoutRect::new(parent, Anchor::top_left());
    let anchor_pos = parent_layout_rect.anchor(anchor);
    let current_pos = Pos {
        x: crate::math::clamp_to_i16(anchor_pos.x as i64 + offset.x as i64),
        y: crate::math::clamp_to_i16(anchor_pos.y as i64 + offset.y as i64),
    };
    let current_rect = Rect::from_pos_size(current_pos, Size { w: solved_w, h: solved_h });
    LayoutRect::new(current_rect, origin).to_rect()
}

/// The content rectangle left inside a widget once its padding is taken
/// off all four sides; the size saturates at zero.
pub open spec fn spec_inner_rect(rect: Rect, padding: WidgetPadding) -> Rect {
    Rect {
        x: crate::math::clamp_i16(rect.x as int + padding.l as int) as i16,
        y: crate::math::clamp_i16(rect.y as int + padding.t as int) as i16,
        w: clamp_u16(rect.w as int - padding.l as int - padding.r as int) as u16,
        h: clamp_u16(rect.h as int - padding.t as int - padding.b as int) as u16,
    }
}

/// Computes the inner content rectangle of a padded widget.
pub fn inner_rect(rect: Rect, padding: WidgetPadding) -> (r: Rect)
    ensures
        r == spec_inner_rect(rect, padding),
{
    Rect {
        x: crate::math::clamp_to_i16(rect.x as i64 + padding.l as i64),
        y: crate::math::clamp_to_i16(rect.y as i64 + padding.t as i64),
        w: clamp_to_u16(rect.w as i64 - padding.l as i64 - padding.r as i64),
        h: clamp_to_u16(rect.h as i64 - padding.t as i64 - padding.b as i64),
    }
}

/// What pass 1 does to one subtree: children first, then this widget's
/// `solved_min_size` becomes [`spec_widget_min_size`] of its sizing mode,
/// layout, padding and its children's (just solved) minimum sizes. `fuel`
/// mirrors the executable recursion bound; sibling walks are bounded by
/// the arena size, exactly as the code walks them.
pub open spec fn spec_min_node(ws: Seq<Widget>, wid: WidgetId, fuel: nat) -> Seq<Widget>
    decreases fuel, 1int, 0int,
{
    if fuel == 0 {
        ws
    } else {
        let first = ws[wid.index()].first_child;
        let ws1 = spec_min_children(ws, first, ws.len() as int, fuel);
        let mins = spec_collect_mins(
            ws1,
            first,
            ws1.len() as int,
            Seq::<u16>::empty(),
            Seq::<u16>::empty(),
        );
        let w1 = ws1[wid.index()];
        let sz = spec_widget_min_size(w1.props.size, w1.props.layout, w1.props.padding, mins.0, mins.1);
        ws1.update(wid.index(), Widget { solved_min_size: sz, ..w1 })
    }
}

/// Pass 1 folded over a sibling chain, at most `remaining` links long.
pub open spec fn spec_min_children(
    ws: Seq<Widget>,
    child: Option<WidgetId>,
    remaining: int,
    fuel: nat,
) -> Seq<Widget>
    decreases fuel, 0int, remaining,
{
    if remaining <= 0 || child is None || fuel == 0 {
        ws
    } else {
        let ch = child->0;
        let nxt = ws[ch.index()].next;
        spec_min_children(spec_min_node(ws, ch, (fuel - 1) as nat), nxt, remaining - 1, fuel)
    }
}

/// The children's minimum widths and heights, in sibling order.
pub open spec fn spec_collect_mins(
    ws: Seq<Widget>,
    child: Option<WidgetId>,
    remaining: int,
    accw: Seq<u16>,
    acch: Seq<u16>,
) -> (Seq<u16>, Seq<u16>)
    decreases remaining,
{
    if remaining <= 0 || child is None {
        (accw, acch)
    } else {
        let ch = child->0;
        spec_collect_mins(
            ws,
            ws[ch.index()].next,
            remaining - 1,
            accw.push(ws[ch.index()].solved_min_size.w),
            acch.push(ws[ch.index()].solved_min_size.h),
        )
    }
}

/// The `Fill` count, the total of the non-`Fill` children's resolved main
/// sizes (fixed pixels or hugged minimums), and the child count of a
/// sibling chain.
pub open spec fn spec_flex_counts(
    ws: Seq<Widget>,
    child: Option<WidgetId>,
    remaining: int,
    horizontal: bool,
    fills: int,
    fixed: int,
    count: int,
) -> (int, int, int)
    decreases remaining,
{
    if remaining <= 0 || child is None {
        (fills, fixed, count)
    } else {
        let ch = child->0;
        let w = ws[ch.index()];
        let dim = if horizontal {
            w.props.size.w
        } else {
            w.props.size.h
        };
        let m = if horizontal {
            w.solved_min_size.w
        } else {
            w.solved_min_size.h
        };
        let stepped = match dim {
            WidgetDim::Fill => (fills + 1, fixed),
            WidgetDim::Fixed(v) => (fills, fixed + v as int),
            WidgetDim::Hug => (fills, fixed + m as int),
        };
        spec_flex_counts(ws, w.next, remaining - 1, horizontal, stepped.0, stepped.1, count + 1)
    }
}

/// What pass 2 does to one subtree: this widget's `solved_rect` becomes
/// [`spec_place_widget`] of its properties, minimum size and the parent
/// rect; stacked children each get the padded inner rect; flexed children
/// split it along the axis, every `Fill` child [`spec_fill_dim`] wide,
/// advancing by one resolved size plus one gap per child.
pub open spec fn spec_rects_node(ws: Seq<Widget>, wid: WidgetId, parent_rect: Rect, fuel: nat) -> Seq<
    Widget,
>
    decreases fuel, 1int, 0int,
{
    if fuel == 0 {
        ws
    } else {
        let w0 = ws[wid.index()];
        let rect = spec_place_widget(
            w0.props.size,
            w0.solved_min_size,
            w0.props.anchor,
            w0.props.origin,
            w0.props.pos,
            parent_rect,
        );
        let ws1 = ws.update(wid.index(), Widget { solved_rect: rect, ..w0 });
        let inner = spec_inner_rect(rect, w0.props.padding);
        match w0.props.layout {
            WidgetLayout::Stacked => spec_rects_stacked(
                ws1,
                w0.first_child,
                ws.len() as int,
                inner,
                fuel,
            ),
            WidgetLayout::Flex { direction, gap } => {
                let horizontal = direction is Horizontal;
                let cnt = spec_flex_counts(
                    ws1,
                    w0.first_child,
                    ws.len() as int,
                    horizontal,
                    0,
                    0,
                    0,
                );
                let inner_main = if horizontal {
                    inner.w as int
                } else {
                    inner.h as int
                };
                let filling: u16 = if cnt.0 == 0 {
                    0u16
                } else {
                    spec_fill_dim(inner_main, cnt.1, gap as int, cnt.2, cnt.0) as u16
                };
                let start = if horizontal {
                    inner.x as int
                } else {
                    inner.y as int
                };
                spec_rects_flex(
                    ws1,
                    w0.first_child,
                    ws.len() as int,
                    start,
                    horizontal,
                    gap,
                    inner,
                    filling,
                    fuel,
                )
            },
        }
    }
}

/// Pass 2 folded over a stacked sibling chain: every child gets the same
/// inner rect.
pub open spec fn spec_rects_stacked(
    ws: Seq<Widget>,
    child: Option<WidgetId>,
    remaining: int,
    inner: Rect,
    fuel: nat,
) -> Seq<Widget>
    decreases fuel, 0int, remaining,
{
    if remaining <= 0 || child is None || fuel == 0 {
        ws
    } else {
        let ch = child->0;
        let nxt = ws[ch.index()].next;
        spec_rects_stacked(
            spec_rects_node(ws, ch, inner, (fuel - 1) as nat),
            nxt,
            remaining - 1,
            inner,
            fuel,
        )
    }
}

/// Pass 2 folded over a flexed sibling chain: each child gets a slice of
/// the inner rect at the running coordinate, `Fill` children `filling`
/// wide, and the coordinate advances by the child's size plus the gap.
pub open spec fn spec_rects_flex(
    ws: Seq<Widget>,
    child: Option<WidgetId>,
    remaining: int,
    cur: int,
    horizontal: bool,
    gap: i16,
    inner: Rect,
    filling: u16,
    fuel: nat,
) -> Seq<Widget>
    decreases fuel, 0int, remaining,
{
    if remaining <= 0 || child is None || fuel == 0 {
        ws
    } else {
        let ch = child->0;
        let w = ws[ch.index()];
        let dim = if horizontal {
            w.props.size.w
        } else {
            w.props.size.h
        };
        let m = if horizontal {
            w.solved_min_size.w
        } else {
            w.solved_min_size.h
        };
        let main: u16 = match dim {
            WidgetDim::Fill => filling,
            WidgetDim::Fixed(v) => v,
            WidgetDim::Hug => m,
        };
        let child_rect = if horizontal {
            Rect { x: cur as i16, y: inner.y, w: main, h: inner.h }
        } else {
            Rect { x: inner.x, y: cur as i16, w: inner.w, h: main }
        };
        let nxt = w.next;
        spec_rects_flex(
            spec_rects_node(ws, ch, child_rect, (fuel - 1) as nat),
            nxt,
            remaining - 1,
            crate::math::clamp_i16(cur + main as int + gap as int),
            horizontal,
            gap,
            inner,
            filling,
            fuel,
        )
    }
}

impl UiContext {
    /// The number of widgets in the arena.
    pub fn widgets_len(&self) -> (n: usize)
        ensures
            n == self.widgets_seq().len(),
    {
        self.widget_count()
    }

    /// Pass 1: solves the minimum sizes of the subtree under `wid`,
    /// children before parents; the arena afterwards is exactly
    /// [`spec_min_node`] of the arena before.
    fn solve_min_sizes_rec(&mut self, wid: WidgetId, fuel: usize)
        requires
            old(self).wf(),
            old(self).valid_id(wid),
        ensures
            final(self).wf(),
            final(self).keys_map() == old(self).keys_map(),
            final(self).spec_viewport() == old(self).spec_viewport(),
            final(self).spec_frame() == old(self).spec_frame(),
            final(self).spec_first_freed() == old(self).spec_first_freed(),
            spec_layout_rel(old(self).widgets_seq(), final(self).widgets_seq()),
            final(self).widgets_seq() == spec_min_node(old(self).widgets_seq(), wid, fuel as nat),
        decreases fuel,
    {
        if fuel == 0 {
            return ;
        }
        let first = self.widget(wid).first_child;
        let ghost inter = spec_min_children(
            old(self).widgets_seq(),
            first,
            old(self).widgets_seq().len() as int,
            fuel as nat,
        );
        let mut child = first;
        let mut remaining = self.widgets_len();
        while child.is_some() && remaining > 0
            invariant
                self.wf(),
                self.link_ok(child),
                old(self).valid_id(wid),
                self.widgets_seq().len() == old(self).widgets_seq().len(),
                self.keys_map() == old(self).keys_map(),
                self.spec_viewport() == old(self).spec_viewport(),
                self.spec_frame() == old(self).spec_frame(),
                self.spec_first_freed() == old(self).spec_first_freed(),
                spec_layout_rel(old(self).widgets_seq(), self.widgets_seq()),
                inter == spec_min_children(
                    self.widgets_seq(),
                    child,
                    remaining as int,
                    fuel as nat,
                ),
                fuel >= 1,
            decreases remaining,
        {
            let ch = child.unwrap();
            let nxt = self.widget(ch).next;
            let ghost mid = self.widgets_seq();
            self.solve_min_sizes_rec(ch, fuel - 1);
            proof {
                lemma_layout_trans(old(self).widgets_seq(), mid, self.widgets_seq());
                assert(self.widgets_seq() == spec_min_node(mid, ch, (fuel - 1) as nat));
            }
            child = nxt;
            remaining = remaining - 1;
        }
        let ghost frozen = *self;
        let mut min_ws: Vec<u16> = Vec::new();
        let mut min_hs: Vec<u16> = Vec::new();
        let ghost mins = spec_collect_mins(
            self.widgets_seq(),
            first,
            self.widgets_seq().len() as int,
            Seq::<u16>::empty(),
            Seq::<u16>::empty(),
        );
        let mut child = first;
        let mut remaining = self.widgets_len();
        while child.is_some() && remaining > 0
            invariant
                *self == frozen,
                self.wf(),
                self.link_ok(child),
                old(self).valid_id(wid),
                mins == spec_collect_mins(
                    self.widgets_seq(),
                    child,
                    remaining as int,
                    min_ws@,
                    min_hs@,
                ),
            decreases remaining,
        {
            let ch = child.unwrap();
            let m = self.widget(ch).solved_min_size;
            min_ws.push(m.w);
            min_hs.push(m.h);
            child = self.widget(ch).next;
            remaining = remaining - 1;
        }
        proof {
            assert(mins == (min_ws@, min_hs@));
        }
        let (size, layout, padding) = {
            let w = self.widget(wid);
            (w.props.size, w.props.layout, w.props.padding)
        };
        let solved = widget_min_size(size, layout, padding, &min_ws, &min_hs);
        let ghost prew = *self;
        let w = &mut self.widgets[wid.0 - 1];
        w.solved_min_size = solved;
        proof {
            crate::ui::lemma_wf_links_preserved(prew, *self);
            lemma_layout_trans(old(self).widgets_seq(), prew.widgets_seq(), self.widgets_seq());
            assert(self.widgets_seq() == spec_min_node(old(self).widgets_seq(), wid, fuel as nat));
        }
    }

    /// Pass 2: resolves the on-screen rectangles of the subtree under
    /// `wid` from the parent's rectangle, parents before children; the
    /// arena afterwards is exactly [`spec_rects_node`] of the arena
    /// before.
    fn solve_rects_rec(&mut self, wid: WidgetId, parent_rect: Rect, fuel: usize)
        requires
            old(self).wf(),
            old(self).valid_id(wid),
            old(self).widgets_seq().len() < 0x1_0000_0000,
        ensures
            final(self).wf(),
            final(self).keys_map() == old(self).keys_map(),
            final(self).spec_viewport() == old(self).spec_viewport(),
            final(self).spec_frame() == old(self).spec_frame(),
            final(self).spec_first_freed() == old(self).spec_first_freed(),
            spec_layout_rel(old(self).widgets_seq(), final(self).widgets_seq()),
            final(self).widgets_seq() == spec_rects_node(
                old(self).widgets_seq(),
                wid,
                parent_rect,
                fuel as nat,
            ),
        decreases fuel,
    {
        if fuel == 0 {
            return ;
        }
        let (size, layout, padding, anchor, origin, pos_off, min_size, first) = {
            let w = self.widget(wid);
            (
                w.props.size,
                w.props.layout,
                w.props.padding,
                w.props.anchor,
                w.props.origin,
                w.props.pos,
                w.solved_min_size,
                w.first_child,
            )
        };
        let solved_rect = place_widget(size, min_size, anchor, origin, pos_off, parent_rect);
        {
            let ghost prew = *self;
            let w = &mut self.widgets[wid.0 - 1];
            w.solved_rect = solved_rect;
            proof {
                crate::ui::lemma_wf_links_preserved(prew, *self);
            }
        }
        let inner = inner_rect(solved_rect, padding);
        match layout {
            WidgetLayout::Stacked => {
                let ghost inter = spec_rects_stacked(
                    self.widgets_seq(),
                    first,
                    old(self).widgets_seq().len() as int,
                    inner,
                    fuel as nat,
                );
                let mut child = first;
                let mut remaining = self.widgets_len();
                while child.is_some() && remaining > 0
                    invariant
                        self.wf(),
                        self.link_ok(child),
                        old(self).valid_id(wid),
                        self.widgets_seq().len() == old(self).widgets_seq().len(),
                        old(self).widgets_seq().len() < 0x1_0000_0000,
                        self.keys_map() == old(self).keys_map(),
                        self.spec_viewport() == old(self).spec_viewport(),
                        self.spec_frame() == old(self).spec_frame(),
                        self.spec_first_freed() == old(self).spec_first_freed(),
                        spec_layout_rel(old(self).widgets_seq(), self.widgets_seq()),
                        inter == spec_rects_stacked(
                            self.widgets_seq(),
                            child,
                            remaining as int,
                            inner,
                            fuel as nat,
                        ),
                        fuel >= 1,
                    decreases remaining,
                {
                    let ch = child.unwrap();
                    let nxt = self.widget(ch).next;
                    let ghost mid = self.widgets_seq();
                    self.solve_rects_rec(ch, inner, fuel - 1);
                    proof {
                        lemma_layout_trans(old(self).widgets_seq(), mid, self.widgets_seq());
                        assert(self.widgets_seq() == spec_rects_node(
                            mid,
                            ch,
                            inner,
                            (fuel - 1) as nat,
                        ));
                    }
                    child = nxt;
                    remaining = remaining - 1;
                }
            },
            WidgetLayout::Flex { direction, gap } => {
                let horizontal = match direction {
                    FlexDirection::Horizontal => true,
                    FlexDirection::Vertical => false,
                };
                let ghost counted = spec_flex_counts(
                    self.widgets_seq(),
                    first,
                    old(self).widgets_seq().len() as int,
                    horizontal,
                    0,
                    0,
                    0,
                );
                let ghost frozen = *self;
                let mut fills: u64 = 0;
                let mut fixed_total: u64 = 0;
                let mut count: u64 = 0;
                let mut child = first;
                let mut remaining = self.widgets_len();
                while child.is_some() && remaining > 0
                    invariant
                        *self == frozen,
                        self.wf(),
                        self.link_ok(child),
                        self.widgets_seq().len() < 0x1_0000_0000,
                        fills <= count,
                        count + remaining as int <= self.widgets_seq().len(),
                        fixed_total <= (count as int) * 0xffff,
                        counted == spec_flex_counts(
                            self.widgets_seq(),
                            child,
                            remaining as int,
                            horizontal,
                            fills as int,
                            fixed_total as int,
                            count as int,
                        ),
                    decreases remaining,
                {
                    let ch = child.unwrap();
                    let (dim, m, nxt) = {
                        let w = self.widget(ch);
                        if horizontal {
                            (w.props.size.w, w.solved_min_size.w, w.next)
                        } else {
                            (w.props.size.h, w.solved_min_size.h, w.next)
                        }
                    };
                    proof {
                        assert((count as int + 1) * 0xffff == (count as int) * 0xffff + 0xffff)
                            by (nonlinear_arith);
                        assert((count as int) * 0xffff <= 0xffff_ffff * 0xffff)
                            by (nonlinear_arith)
                            requires
                                0 <= (count as int) <= 0xffff_ffff,
                        ;
                    }
                    match dim {
                        WidgetDim::Fill => {
                            fills = fills + 1;
                        },
                        WidgetDim::Fixed(v) => {
                            fixed_total = fixed_total + v as u64;
                        },
                        WidgetDim::Hug => {
                            fixed_total = fixed_total + m as u64;
                        },
                    }
                    count = count + 1;
                    child = nxt;
                    remaining = remaining - 1;
                }
                proof {
                    assert(counted == (fills as int, fixed_total as int, count as int));
                }
                let inner_main = if horizontal {
                    inner.w
                } else {
                    inner.h
                };
                let filling: u16 = if fills == 0 {
                    0
                } else {
                    proof {
                        assert((count as int) * 0xffff < 0x1_0000_0000_0000) by (nonlinear_arith)
                            requires
                                0 <= (count as int) <= 0xffff_ffff,
                        ;
                    }
                    fill_dim(inner_main, fixed_total, gap, count, fills)
                };
                let start = if horizontal {
                    inner.x
                } else {
                    inner.y
                };
                let ghost inter = spec_rects_flex(
                    self.widgets_seq(),
                    first,
                    old(self).widgets_seq().len() as int,
                    start as int,
                    horizontal,
                    gap,
                    inner,
                    filling,
                    fuel as nat,
                );
                let mut cur: i16 = start;
                let mut child = first;
                let mut remaining = self.widgets_len();
                while child.is_some() && remaining > 0
                    invariant
                        self.wf(),
                        self.link_ok(child),
                        old(self).valid_id(wid),
                        self.widgets_seq().len() == old(self).widgets_seq().len(),
                        old(self).widgets_seq().len() < 0x1_0000_0000,
                        self.keys_map() == old(self).keys_map(),
                        self.spec_viewport() == old(self).spec_viewport(),
                        self.spec_frame() == old(self).spec_frame(),
                        self.spec_first_freed() == old(self).spec_first_freed(),
                        spec_layout_rel(old(self).widgets_seq(), self.widgets_seq()),
                        inter == spec_rects_flex(
                            self.widgets_seq(),
                            child,
                            remaining as int,
                            cur as int,
                            horizontal,
                            gap,
                            inner,
                            filling,
                            fuel as nat,
                        ),
                        fuel >= 1,
                    decreases remaining,
                {
                    let ch = child.unwrap();
                    let (dim, m, nxt) = {
                        let w = self.widget(ch);
                        if horizontal {
                            (w.props.size.w, w.solved_min_size.w, w.next)
                        } else {
                            (w.props.size.h, w.solved_min_size.h, w.next)
                        }
                    };
                    let child_main: u16 = match dim {
                        WidgetDim::Fill => filling,
                        WidgetDim::Fixed(v) => v,
                        WidgetDim::Hug => m,
                    };
                    let child_rect = if horizontal {
                        Rect { x: cur, y: inner.y, w: child_main, h: inner.h }
                    } else {
                        Rect { x: inner.x, y: cur, w: inner.w, h: child_main }
                    };
                    let ghost mid = self.widgets_seq();
                    self.solve_rects_rec(ch, child_rect, fuel - 1);
                    proof {
                        lemma_layout_trans(old(self).widgets_seq(), mid, self.widgets_seq());
                        assert(self.widgets_seq() == spec_rects_node(
                            mid,
                            ch,
                            child_rect,
                            (fuel - 1) as nat,
                        ));
                    }
                    cur = crate::math::clamp_to_i16(cur as i64 + child_main as i64 + gap as i64);
                    child = nxt;
                    remaining = remaining - 1;
                }
            },
        }
        proof {
            assert(self.widgets_seq() == spec_rects_node(
                old(self).widgets_seq(),
                wid,
                parent_rect,
                fuel as nat,
            ));
        }
    }

    /// Runs both layout passes for the whole tree: minimum sizes bottom
    /// up, then rectangles top down with the viewport as the root's
    /// parent rect. The arena afterwards is exactly the rect pass applied
    /// to the min pass: [`spec_rects_node`] after [`spec_min_node`], at
    /// the root, so every widget's solved fields follow the per-node
    /// sizing and placement rules, and a widget not reachable from the
    /// root keeps its stale values.
    pub fn solve_layout(&mut self)
        requires
            old(self).wf(),
            1 <= old(self).widgets_seq().len() < 0x1_0000_0000,
        ensures
            final(self).wf(),
            final(self).keys_map() == old(self).keys_map(),
            final(self).spec_viewport() == old(self).spec_viewport(),
            final(self).spec_frame() == old(self).spec_frame(),
            final(self).spec_first_freed() == old(self).spec_first_freed(),
            spec_layout_rel(old(self).widgets_seq(), final(self).widgets_seq()),
            final(self).widgets_seq() == spec_rects_node(
                spec_min_node(
                    old(self).widgets_seq(),
                    UiContext::spec_root_widget(),
                    old(self).widgets_seq().len() as nat,
                ),
                UiContext::spec_root_widget(),
                Rect {
                    x: 0i16,
                    y: 0i16,
                    w: old(self).spec_viewport().w,
                    h: old(self).spec_viewport().h,
                },
                old(self).widgets_seq().len() as nat,
            ),
    {
        let fuel = self.widgets_len();
        let root = UiContext::root_widget();
        self.solve_min_sizes_rec(root, fuel);
        let viewport = self.viewport();
        let ghost mid = self.widgets_seq();
        self.solve_rects_rec(
            root,
            Rect { x: 0, y: 0, w: viewport.w, h: viewport.h },
            fuel,
        );
        proof {
            lemma_layout_trans(old(self).widgets_seq(), mid, self.widgets_seq());
        }
    }
}


} // verus!
