use snaek::math::size::Size;
use snaek::render::DrawCommand;
use snaek::ui::{
    Anchor, FlexDirection, Mouse, UiContext, WidgetDim, WidgetFlags, WidgetKey, WidgetKeyHasher,
    WidgetLayout, WidgetProps, WidgetReaction, WidgetSize,
};

fn ctx100() -> UiContext {
    UiContext::new(Size { w: 100, h: 100 })
}

fn root_props() -> WidgetProps {
    WidgetProps::new(WidgetKey::new(1)).with_size(WidgetSize::fill())
}

fn end_frame(ui: &mut UiContext) {
    ui.free_untouched_widgets();
}

#[test]
fn same_key_twice_in_one_frame_keeps_id_and_last_props_win() {
    let mut ui = ctx100();
    let first = ui.build_widget(
        WidgetProps::new(WidgetKey::new(7)).with_size(WidgetSize::fixed(1, 1)),
    );
    let second = ui.build_widget(
        WidgetProps::new(WidgetKey::new(7)).with_size(WidgetSize::fixed(9, 9)),
    );
    assert_eq!(first.id(), second.id());
    let w = ui.widget(second.id());
    assert_eq!(w.props.size.w, WidgetDim::Fixed(9), "the second build's properties stick");
}

#[test]
fn widget_keeps_id_across_frames() {
    let mut ui = ctx100();
    let key = WidgetKey::new(42);
    let frame0 = ui.build_widget(WidgetProps::new(key));
    end_frame(&mut ui);
    let frame1 = ui.build_widget(WidgetProps::new(key));
    end_frame(&mut ui);
    let frame2 = ui.build_widget(WidgetProps::new(key));
    assert_eq!(frame0.id(), frame1.id());
    assert_eq!(frame1.id(), frame2.id());
}

#[test]
fn untouched_widget_is_swept_and_leaves_the_walks() {
    let mut ui = ctx100();
    // Frame 0: root with one child that paints a background.
    let root = ui.build_widget(root_props());
    let child = ui.build_widget(
        WidgetProps::new(WidgetKey::new(2))
            .with_flags(WidgetFlags(64).union(WidgetFlags(4)))
            .with_size(WidgetSize::fixed(10, 10)),
    );
    ui.add_child(root.id(), child.id());
    ui.solve_layout();
    end_frame(&mut ui);
    // Frame 1: the child's call site is not reached; rebuilding the root
    // resets its child list, so the stale widget drops out of every walk.
    let _root = ui.build_widget(root_props());
    ui.solve_layout();
    end_frame(&mut ui);
    let mut cmds: Vec<DrawCommand> = Vec::new();
    ui.draw_widgets(&mut cmds);
    assert!(
        !cmds.iter().any(|c| matches!(c, DrawCommand::Fill { .. })),
        "no command of the stale child appears in the paint walk"
    );
    ui.react(&mouse_at(5, 5, false, false));
    assert!(
        !ui.widget(child.id()).hovered,
        "the stale child is not visited by hit-testing, despite the live id"
    );
    // Rebuilding the key afterwards revives the same widget.
    let back = ui.build_widget(WidgetProps::new(WidgetKey::new(2)));
    assert_eq!(back.id(), child.id());
    assert!(!ui.widget(back.id()).freed);
}

#[test]
fn sweep_marks_reachable_stale_widgets_freed() {
    let mut ui = ctx100();
    // Frame 0: a root and a child, both built.
    let root = ui.build_widget(root_props());
    let child = ui.build_widget(WidgetProps::new(WidgetKey::new(2)));
    ui.add_child(root.id(), child.id());
    end_frame(&mut ui);
    // Frame 1: nothing is built at all, so the whole tree is stale but
    // still linked; the sweep marks every node freed.
    end_frame(&mut ui);
    assert!(ui.widget(root.id()).freed);
    assert!(ui.widget(child.id()).freed);
    // Rebuilding a freed key revives the same id, fresh and unfreed.
    let back = ui.build_widget(WidgetProps::new(WidgetKey::new(2)));
    assert_eq!(back.id(), child.id());
    assert!(!ui.widget(back.id()).freed);
}

#[test]
fn hug_stacked_takes_max_and_hug_flex_sums_with_gaps() {
    // P-law scenario: children of min widths {5, 12, 3}.
    for (layout, expect) in [
        (WidgetLayout::Stacked, 12u16),
        (WidgetLayout::flex(FlexDirection::Horizontal, 2), 24u16),
    ] {
        let mut ui = ctx100();
        let root = ui.build_widget(root_props());
        let parent = ui.build_widget(
            WidgetProps::new(WidgetKey::new(2))
                .with_size(WidgetSize::new(WidgetDim::Hug, WidgetDim::Hug))
                .with_layout(layout),
        );
        ui.add_child(root.id(), parent.id());
        for (i, w) in [(10u64, 5u16), (11, 12), (12, 3)] {
            let c = ui.build_widget(
                WidgetProps::new(WidgetKey::new(i)).with_size(WidgetSize::fixed(w, 4)),
            );
            ui.add_child(parent.id(), c.id());
        }
        ui.solve_layout();
        assert_eq!(ui.widget(parent.id()).solved_min_size.w, expect);
        assert_eq!(ui.widget(parent.id()).solved_rect.w, expect);
    }
}

#[test]
fn fill_children_share_leftover_evenly() {
    // P-law scenario: inner width 100, two Fill children and one Fixed(20).
    let mut ui = ctx100();
    let root = ui.build_widget(
        root_props().with_layout(WidgetLayout::flex(FlexDirection::Horizontal, 0)),
    );
    let a = ui.build_widget(
        WidgetProps::new(WidgetKey::new(2)).with_size(WidgetSize::new(
            WidgetDim::Fill,
            WidgetDim::Fill,
        )),
    );
    let b = ui.build_widget(
        WidgetProps::new(WidgetKey::new(3)).with_size(WidgetSize::new(
            WidgetDim::Fill,
            WidgetDim::Fill,
        )),
    );
    let c = ui.build_widget(
        WidgetProps::new(WidgetKey::new(4)).with_size(WidgetSize::new(
            WidgetDim::Fixed(20),
            WidgetDim::Fill,
        )),
    );
    ui.add_child(root.id(), a.id());
    ui.add_child(root.id(), b.id());
    ui.add_child(root.id(), c.id());
    ui.solve_layout();
    assert_eq!(ui.widget(a.id()).solved_rect.w, 40);
    assert_eq!(ui.widget(b.id()).solved_rect.w, 40);
    assert_eq!(ui.widget(c.id()).solved_rect.w, 20);
    assert_eq!(ui.widget(a.id()).solved_rect.x, 0);
    assert_eq!(ui.widget(b.id()).solved_rect.x, 40);
    assert_eq!(ui.widget(c.id()).solved_rect.x, 80);
}

#[test]
fn vertical_flex_mirrors_horizontal() {
    let mut ui = ctx100();
    let root = ui.build_widget(
        root_props().with_layout(WidgetLayout::flex(FlexDirection::Vertical, 0)),
    );
    let a = ui.build_widget(
        WidgetProps::new(WidgetKey::new(2)).with_size(WidgetSize::new(
            WidgetDim::Fill,
            WidgetDim::Fill,
        )),
    );
    let b = ui.build_widget(
        WidgetProps::new(WidgetKey::new(3)).with_size(WidgetSize::new(
            WidgetDim::Fill,
            WidgetDim::Fixed(20),
        )),
    );
    let c = ui.build_widget(
        WidgetProps::new(WidgetKey::new(4)).with_size(WidgetSize::new(
            WidgetDim::Fill,
            WidgetDim::Fill,
        )),
    );
    ui.add_child(root.id(), a.id());
    ui.add_child(root.id(), b.id());
    ui.add_child(root.id(), c.id());
    ui.solve_layout();
    assert_eq!(ui.widget(a.id()).solved_rect.h, 40);
    assert_eq!(ui.widget(b.id()).solved_rect.h, 20);
    assert_eq!(ui.widget(c.id()).solved_rect.h, 40);
    assert_eq!(ui.widget(b.id()).solved_rect.y, 40);
    assert_eq!(ui.widget(c.id()).solved_rect.y, 60);
}

#[test]
fn center_anchor_and_origin_land_in_the_middle() {
    // P-law scenario: Fixed(10,10), anchor and origin both centred, in a
    // 100x100 parent.
    let mut ui = ctx100();
    let root = ui.build_widget(root_props());
    let w = ui.build_widget(
        WidgetProps::new(WidgetKey::new(2))
            .with_size(WidgetSize::fixed(10, 10))
            .with_anchor_origin(Anchor { x: 128, y: 128 }, Anchor { x: 128, y: 128 }),
    );
    ui.add_child(root.id(), w.id());
    ui.solve_layout();
    let r = ui.widget(w.id()).solved_rect;
    assert_eq!((r.x, r.y, r.w, r.h), (45, 45, 10, 10));
}

fn clickable(key: u64) -> WidgetProps {
    WidgetProps::new(WidgetKey::new(key))
        .with_flags(WidgetFlags(4).union(WidgetFlags(8)))
        .with_size(WidgetSize::fixed(10, 10))
}

fn mouse_at(x: i16, y: i16, now: bool, before: bool) -> Mouse {
    Mouse {
        x,
        y,
        l_pressed: (now, before),
        r_pressed: (false, false),
        m_pressed: (false, false),
    }
}

#[test]
fn later_added_sibling_wins_hit_testing() {
    let mut ui = ctx100();
    let root = ui.build_widget(root_props());
    let below = ui.build_widget(clickable(2));
    let on_top = ui.build_widget(clickable(3));
    ui.add_child(root.id(), below.id());
    ui.add_child(root.id(), on_top.id());
    ui.solve_layout();
    ui.react(&mouse_at(5, 5, false, false));
    assert!(ui.widget(on_top.id()).hovered, "the widget painted last is hit first");
    assert!(!ui.widget(below.id()).hovered, "the occluded sibling is not hovered");
}

#[test]
fn hovered_child_occludes_its_parent() {
    let mut ui = ctx100();
    let root = ui.build_widget(root_props());
    let parent = ui.build_widget(clickable(2));
    let child = ui.build_widget(clickable(3));
    ui.add_child(root.id(), parent.id());
    ui.add_child(parent.id(), child.id());
    ui.solve_layout();
    ui.react(&mouse_at(5, 5, false, false));
    assert!(ui.widget(child.id()).hovered);
    assert!(!ui.widget(parent.id()).hovered);
}

#[test]
fn disabled_subtree_swallows_interaction() {
    let mut ui = ctx100();
    let root = ui.build_widget(root_props());
    let parent = ui.build_widget(clickable(2).with_flags(
        WidgetFlags(1).union(WidgetFlags(4)).union(WidgetFlags(8)),
    ));
    let child = ui.build_widget(clickable(3));
    ui.add_child(root.id(), parent.id());
    ui.add_child(parent.id(), child.id());
    ui.solve_layout();
    ui.react(&mouse_at(5, 5, true, false));
    assert!(!ui.widget(parent.id()).hovered);
    assert!(!ui.widget(child.id()).hovered, "children of a disabled widget are never tested");
    assert!(!ui.widget(child.id()).pressed);
}

fn frame(ui: &mut UiContext, key: u64, mouse: Mouse) -> WidgetReaction {
    let root = ui.build_widget(root_props());
    let btn = ui.build_widget(clickable(key));
    ui.add_child(root.id(), btn.id());
    ui.solve_layout();
    ui.free_untouched_widgets();
    ui.react(&mouse);
    btn
}

#[test]
fn release_off_widget_does_not_click() {
    let mut ui = ctx100();
    // Press on the widget, drag off while held, release off it.
    frame(&mut ui, 2, mouse_at(5, 5, true, false));
    let drag = frame(&mut ui, 2, mouse_at(50, 50, true, true));
    assert!(ui.widget(drag.id()).pressed);
    let last = frame(&mut ui, 2, mouse_at(50, 50, false, true));
    assert!(!ui.widget(last.id()).clicked);
    let after = frame(&mut ui, 2, mouse_at(50, 50, false, false));
    assert!(!after.clicked());
}

#[test]
fn click_fires_exactly_once_on_release_over_widget() {
    let mut ui = ctx100();
    frame(&mut ui, 2, mouse_at(5, 5, true, false));
    let release = frame(&mut ui, 2, mouse_at(5, 5, false, true));
    assert!(ui.widget(release.id()).clicked, "press and release both over the widget");
    let next = frame(&mut ui, 2, mouse_at(5, 5, false, false));
    assert!(!ui.widget(next.id()).clicked, "a click does not repeat");
}

#[test]
fn reaction_reports_previous_frame_state() {
    let mut ui = ctx100();
    frame(&mut ui, 2, mouse_at(5, 5, false, false));
    let hovered_frame = frame(&mut ui, 2, mouse_at(5, 5, false, false));
    // The reaction returned by build_widget carries the state computed at
    // the end of the previous frame.
    assert!(!hovered_frame.clicked());
    let r = ui.build_widget(clickable(2));
    assert!(r.hovered());
}

#[test]
fn key_hasher_is_deterministic() {
    let k1 = WidgetKeyHasher::new().hash_loc("m", 1, 2).hash_n(7).finish();
    let k2 = WidgetKeyHasher::new().hash_loc("m", 1, 2).hash_n(7).finish();
    assert_eq!(k1, k2);
    let scoped = WidgetKey::new(5).scoped(1);
    assert_eq!(scoped, WidgetKey::new(5).scoped(1));
}

#[test]
fn draw_widgets_wraps_commands_in_a_composite() {
    let mut ui = ctx100();
    let root = ui.build_widget(root_props().with_flags(WidgetFlags(64)));
    let _ = root;
    ui.solve_layout();
    let mut cmds: Vec<DrawCommand> = Vec::new();
    ui.draw_widgets(&mut cmds);
    assert!(matches!(cmds[0], DrawCommand::BeginComposite));
    assert!(matches!(cmds[1], DrawCommand::Clear));
    assert!(matches!(cmds[2], DrawCommand::Fill { .. }));
    assert!(matches!(cmds.last().unwrap(), DrawCommand::EndComposite(_)));
}
