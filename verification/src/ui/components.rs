//! Ready-made widget builders: buttons, digit displays, a clock.
//!
//! Each builder declares a small subtree of widgets under stable keys
//! derived from the caller's key, and reads last frame's reactions to
//! restyle itself (hover colours, pressed offsets).

use vstd::prelude::*;

use crate::math::pos::Pos;
use crate::render::color::{AlphaComp, Color};
use crate::render::sprite::{NineSlicingSprite, Sprite};
use crate::render::{SpritesheetId, Text};
use crate::ui::{
    lemma_wf_links_preserved, spec_props_new, Anchor, FlexDirection, UiContext, WidgetFlags,
    WidgetId, WidgetKey, WidgetLayout, WidgetPadding, WidgetProps, WidgetReaction, WidgetSize,
    WidgetSprite,
};

verus! {

impl WidgetProps {
    /// A text widget: hugging, drawing only its measured text.
    pub fn text(key: WidgetKey, text: Text) -> (p: WidgetProps)
        ensures
            p == (WidgetProps {
                flags: WidgetFlags(16u32),
                text: Some(text),
                size: WidgetSize { w: crate::ui::WidgetDim::Hug, h: crate::ui::WidgetDim::Hug },
                ..spec_props_new(key)
            }),
    {
        WidgetProps::new(key).with_flags(WidgetFlags(16)).with_text(Some(text)).with_size(
            WidgetSize::hug(),
        )
    }

    /// A sprite widget: hugging, drawing only its sprite.
    pub fn sprite(key: WidgetKey, sprite: WidgetSprite) -> (p: WidgetProps)
        ensures
            p == (WidgetProps {
                flags: WidgetFlags(128u32),
                sprite: Some(sprite),
                size: WidgetSize { w: crate::ui::WidgetDim::Hug, h: crate::ui::WidgetDim::Hug },
                ..spec_props_new(key)
            }),
    {
        WidgetProps::new(key).with_flags(WidgetFlags(128)).with_sprite(Some(sprite)).with_size(
            WidgetSize::hug(),
        )
    }

    /// A plain sprite widget.
    pub fn simple_sprite(key: WidgetKey, sheet_id: SpritesheetId, sprite: Sprite) -> (p:
        WidgetProps)
        ensures
            p == (WidgetProps {
                flags: WidgetFlags(128u32),
                sprite: Some(WidgetSprite::Simple(sheet_id, sprite)),
                size: WidgetSize { w: crate::ui::WidgetDim::Hug, h: crate::ui::WidgetDim::Hug },
                ..spec_props_new(key)
            }),
    {
        WidgetProps::sprite(key, WidgetSprite::Simple(sheet_id, sprite))
    }

    /// A nine-sliced sprite widget.
    pub fn nine_slice_sprite(key: WidgetKey, sheet_id: SpritesheetId, sprite: NineSlicingSprite)
        -> (p: WidgetProps)
        ensures
            p == (WidgetProps {
                flags: WidgetFlags(128u32),
                sprite: Some(WidgetSprite::NineSlice(sheet_id, sprite)),
                size: WidgetSize { w: crate::ui::WidgetDim::Hug, h: crate::ui::WidgetDim::Hug },
                ..spec_props_new(key)
            }),
    {
        WidgetProps::sprite(key, WidgetSprite::NineSlice(sheet_id, sprite))
    }
}

impl UiContext {
    /// Appends `child` under `parent` if the pair is well-formed: both
    /// live, distinct, and the parent's child count below its ceiling.
    /// Anything else is silently skipped, which keeps convenience
    /// builders total.
    pub fn add_child_checked(&mut self, parent: WidgetId, child: WidgetId)
        requires
            old(self).wf(),
        ensures
            final(self).wf(),
            final(self).widgets_seq().len() == old(self).widgets_seq().len(),
            final(self).keys_map() == old(self).keys_map(),
            final(self).spec_viewport() == old(self).spec_viewport(),
            final(self).spec_frame() == old(self).spec_frame(),
            final(self).spec_first_freed() == old(self).spec_first_freed(),
            ({
                let ws = old(self).widgets_seq();
                let ok = parent.raw() != child.raw() && 1 <= parent.raw() <= ws.len() && 1
                    <= child.raw() <= ws.len() && !ws[parent.index()].freed
                    && !ws[child.index()].freed && ws[parent.index()].children_count < usize::MAX;
                if ok {
                    final(self).widgets_seq() =~= crate::ui::spec_add_child(
                        ws,
                        parent.index(),
                        child.index(),
                        parent,
                        child,
                    )
                } else {
                    final(self).widgets_seq() == ws
                }
            }),
    {
        let len = self.widget_count();
        let p = parent.raw_value();
        let c = child.raw_value();
        if p == c || p < 1 || p > len || c < 1 || c > len {
            return ;
        }
        let (pfreed, pcount) = {
            let w = self.widget(parent);
            (w.freed, w.children_count)
        };
        let cfreed = self.widget(child).freed;
        if pfreed || cfreed || pcount == usize::MAX {
            return ;
        }
        self.add_child(parent, child);
    }

    /// An icon button: a clickable background that tints on hover, with
    /// the icon xor-blended and centred inside it.
    pub fn btn_icon(
        &mut self,
        key: WidgetKey,
        sheet_id: SpritesheetId,
        sprite: Sprite,
        size: WidgetSize,
        anchor: Anchor,
        origin: Anchor,
        hover_color: Color,
    ) -> (r: WidgetReaction)
        requires
            old(self).wf(),
            old(self).widgets_seq().len() + 4 < usize::MAX,
        ensures
            final(self).wf(),
            final(self).spec_viewport() == old(self).spec_viewport(),
            final(self).spec_frame() == old(self).spec_frame(),
            final(self).valid_id(r.spec_id()),
            final(self).keys_map().contains_key(key.raw()),
            final(self).keys_map()[key.raw()] == r.spec_id(),
            old(self).keys_map().contains_key(key.raw()) ==> r.spec_id() == old(
                self,
            ).keys_map()[key.raw()],
    {
        let button = self.build_widget(
            WidgetProps::new(key).with_flags(
                WidgetFlags(2).union(WidgetFlags(4)).union(WidgetFlags(8)).union(WidgetFlags(64)),
            ).with_anchor_origin(anchor, origin).with_size(size),
        );
        let inner_sprite = self.build_widget(
            WidgetProps::simple_sprite(key.scoped(1), sheet_id, sprite).with_anchor_origin(
                Anchor::center(),
                Anchor::center(),
            ).with_acf(Some(AlphaComp::Xor)),
        );
        self.add_child_checked(button.id(), inner_sprite.id());
        if button.hovered() {
            let bid = button.id();
            let len = self.widget_count();
            let braw = bid.raw_value();
            if 1 <= braw && braw <= len {
                let ghost prew = *self;
                let w = self.widget_mut(bid);
                w.props.color = hover_color;
                proof {
                    lemma_wf_links_preserved(prew, *self);
                }
            }
        }
        button
    }

    /// A boxed button wrapping an existing child widget: draws one
    /// nine-slice normally and another, shifted down-right together with
    /// the child, while held pressed.
    pub fn btn_box(
        &mut self,
        key: WidgetKey,
        size: WidgetSize,
        padding: WidgetPadding,
        normal_nss: WidgetSprite,
        hover_nss: WidgetSprite,
        anchor: Anchor,
        origin: Anchor,
        child_id: WidgetId,
    ) -> (r: WidgetReaction)
        requires
            old(self).wf(),
            old(self).widgets_seq().len() + 4 < usize::MAX,
        ensures
            final(self).wf(),
            final(self).spec_viewport() == old(self).spec_viewport(),
            final(self).spec_frame() == old(self).spec_frame(),
            final(self).valid_id(r.spec_id()),
            final(self).keys_map().contains_key(key.raw()),
            final(self).keys_map()[key.raw()] == r.spec_id(),
            old(self).keys_map().contains_key(key.raw()) ==> r.spec_id() == old(
                self,
            ).keys_map()[key.raw()],
    {
        let button = self.build_widget(
            WidgetProps::new(key).with_flags(
                WidgetFlags(2).union(WidgetFlags(4)).union(WidgetFlags(8)).union(WidgetFlags(128)),
            ).with_sprite(Some(normal_nss)).with_anchor_origin(anchor, origin).with_padding(
                padding,
            ).with_size(size),
        );
        self.add_child_checked(button.id(), child_id);
        if button.pressed() && button.hovered() {
            {
                let bid = button.id();
                let len = self.widget_count();
                let braw = bid.raw_value();
                if 1 <= braw && braw <= len {
                    let ghost prew = *self;
                    let w = self.widget_mut(bid);
                    w.props.sprite = Some(hover_nss);
                    w.props.draw_offset = Pos { x: 1, y: 1 };
                    proof {
                        lemma_wf_links_preserved(prew, *self);
                    }
                }
            }
            {
                let len = self.widget_count();
                let craw = child_id.raw_value();
                if 1 <= craw && craw <= len {
                    let ghost prew = *self;
                    let w = self.widget_mut(child_id);
                    w.props.draw_offset = Pos { x: 1, y: 1 };
                    proof {
                        lemma_wf_links_preserved(prew, *self);
                    }
                }
            }
        }
        button
    }

    /// A three-digit number display in a nine-sliced box: a placeholder
    /// glyph per digit position, with the significant digits drawn on
    /// top.
    pub fn big_3digits_display(
        &mut self,
        key: WidgetKey,
        n: usize,
        sheet_id: SpritesheetId,
        display_box: NineSlicingSprite,
        placeholder_sprite: Sprite,
        digit_sprites: &[Sprite; 10],
    ) -> (r: WidgetReaction)
        requires
            old(self).wf(),
            old(self).widgets_seq().len() + 16 < usize::MAX,
        ensures
            final(self).wf(),
            final(self).spec_viewport() == old(self).spec_viewport(),
            final(self).spec_frame() == old(self).spec_frame(),
            final(self).valid_id(r.spec_id()),
            final(self).keys_map().contains_key(key.raw()),
            final(self).keys_map()[key.raw()] == r.spec_id(),
            old(self).keys_map().contains_key(key.raw()) ==> r.spec_id() == old(
                self,
            ).keys_map()[key.raw()],
    {
        let display = self.build_widget(
            WidgetProps::nine_slice_sprite(key, sheet_id, display_box).with_layout(
                WidgetLayout::flex(FlexDirection::Horizontal, 2),
            ).with_padding(WidgetPadding::hv(3, 2)),
        );
        let d2 = (n / 100) % 10;
        let d1 = (n / 10) % 10;
        let d0 = n % 10;
        let mut after_first_digit = false;
        let mut slot: u64 = 0;
        while slot < 3
            invariant
                old(self).wf(),
                self.wf(),
                self.spec_viewport() == old(self).spec_viewport(),
                self.spec_frame() == old(self).spec_frame(),
                self.widgets_seq().len() + 4 < usize::MAX,
                self.widgets_seq().len() >= old(self).widgets_seq().len(),
                display.spec_id().raw() <= self.widgets_seq().len(),
                1 <= display.spec_id().raw(),
                slot <= 3,
                self.keys_map().contains_key(key.raw()),
                self.keys_map()[key.raw()] == display.spec_id(),
                old(self).keys_map().contains_key(key.raw()) ==> display.spec_id() == old(
                    self,
                ).keys_map()[key.raw()],
                d2 < 10,
                d1 < 10,
                d0 < 10,
                self.widgets_seq().len() <= old(self).widgets_seq().len() + 1 + (slot as int) * 2,
                old(self).widgets_seq().len() + 16 < usize::MAX,
            decreases 3 - slot,
        {
            let d = if slot == 0 {
                d2
            } else if slot == 1 {
                d1
            } else {
                d0
            };
            let holder = self.build_widget(
                WidgetProps::simple_sprite(key.scoped(10 + slot), sheet_id, placeholder_sprite),
            );
            if after_first_digit || d > 0 {
                let digit = self.build_widget(
                    WidgetProps::simple_sprite(key.scoped(20 + slot), sheet_id, digit_sprites[d]),
                );
                self.add_child_checked(holder.id(), digit.id());
                after_first_digit = true;
            }
            self.add_child_checked(display.id(), holder.id());
            slot = slot + 1;
        }
        display
    }

    /// A clock display `MM:SS:mmm` in a nine-sliced box, from a duration
    /// in milliseconds.
    pub fn time_display(
        &mut self,
        key: WidgetKey,
        time_ms: u64,
        sheet_id: SpritesheetId,
        display_box: NineSlicingSprite,
        colon_sprite: Sprite,
        digit_sprites: &[Sprite; 10],
    ) -> (r: WidgetReaction)
        requires
            old(self).wf(),
            old(self).widgets_seq().len() + 32 < usize::MAX,
        ensures
            final(self).wf(),
            final(self).spec_viewport() == old(self).spec_viewport(),
            final(self).spec_frame() == old(self).spec_frame(),
            final(self).valid_id(r.spec_id()),
            final(self).keys_map().contains_key(key.raw()),
            final(self).keys_map()[key.raw()] == r.spec_id(),
            old(self).keys_map().contains_key(key.raw()) ==> r.spec_id() == old(
                self,
            ).keys_map()[key.raw()],
    {
        let display = self.build_widget(
            WidgetProps::nine_slice_sprite(key, sheet_id, display_box).with_layout(
                WidgetLayout::flex(FlexDirection::Horizontal, 1),
            ).with_padding(WidgetPadding::all(2)),
        );
        let seconds = time_ms / 1000;
        let minutes = ((seconds / 60) % 60) as usize;
        let secs = (seconds % 60) as usize;
        let millis = (time_ms % 1000) as usize;
        let digits: [usize; 7] = [
            (minutes / 10) % 10,
            minutes % 10,
            (secs / 10) % 10,
            secs % 10,
            (millis / 100) % 10,
            (millis / 10) % 10,
            millis % 10,
        ];
        let mut i: u64 = 0;
        while i < 7
            invariant
                self.wf(),
                self.spec_viewport() == old(self).spec_viewport(),
                self.spec_frame() == old(self).spec_frame(),
                self.widgets_seq().len() + 4 < usize::MAX,
                display.spec_id().raw() <= self.widgets_seq().len(),
                1 <= display.spec_id().raw(),
                i <= 7,
                self.keys_map().contains_key(key.raw()),
                self.keys_map()[key.raw()] == display.spec_id(),
                old(self).keys_map().contains_key(key.raw()) ==> display.spec_id() == old(
                    self,
                ).keys_map()[key.raw()],
                self.widgets_seq().len() <= old(self).widgets_seq().len() + 2 + (i as int) * 3,
                old(self).widgets_seq().len() + 32 < usize::MAX,
                forall|j: int| 0 <= j < 7 ==> #[trigger] digits@[j] < 10,
                digits@.len() == 7,
            decreases 7 - i,
        {
            if i == 2 {
                let colon = self.build_widget(
                    WidgetProps::simple_sprite(key.scoped(30), sheet_id, colon_sprite),
                );
                self.add_child_checked(display.id(), colon.id());
            }
            if i == 4 {
                let colon = self.build_widget(
                    WidgetProps::simple_sprite(key.scoped(31), sheet_id, colon_sprite),
                );
                self.add_child_checked(display.id(), colon.id());
            }
            let d = digits[i as usize];
            let digit = self.build_widget(
                WidgetProps::simple_sprite(key.scoped(40 + i), sheet_id, digit_sprites[d]),
            );
            self.add_child_checked(display.id(), digit.id());
            i = i + 1;
        }
        display
    }
}

} // verus!
