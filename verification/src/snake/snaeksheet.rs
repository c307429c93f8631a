//! The game's spritesheet layout: one sprite per picture the game
//! draws, as laid out in the bundled sheet.

use vstd::prelude::*;

use crate::math::rect::Rect;
use crate::render::sprite::{NineSlicingSprite, Sprite};

verus! {

/// Sprite coordinates for everything the snake game draws.
#[derive(Debug, Clone, Copy)]
pub struct SnaekSheet {
    /// Mouse cursor
    pub cursor: Sprite,
    /// Head of the snake
    pub snake_head: Sprite,
    /// When the snake goes straight
    pub snake_straight: Sprite,
    /// When the snake turns left or right
    pub snake_gay: Sprite,
    /// End of the snake
    pub snake_end: Sprite,
    /// Tongue of the snake
    pub snake_tongue: Sprite,
    /// Yellow banana
    pub banana_yellow: Sprite,
    /// Red banana
    pub banana_red: Sprite,
    /// Cyan banana
    pub banana_cyan: Sprite,
    /// playfield box
    pub box_playfield: NineSlicingSprite,
    /// big carved box
    pub box_big_carved: NineSlicingSprite,
    /// number display box
    pub box_num_display: NineSlicingSprite,
    /// text input box
    pub box_text_input: NineSlicingSprite,
    /// embossed box
    pub box_embossed: NineSlicingSprite,
    /// carved box
    pub box_carved: NineSlicingSprite,
    /// green box
    pub box_green: NineSlicingSprite,
    /// red box
    pub box_red: NineSlicingSprite,
    /// carved separator line
    pub carved_sep_line: Sprite,
    /// Snaek game icon
    pub snaek_icon: Sprite,
    /// Minimize button icon
    pub icon_minimize: Sprite,
    /// Close button icon
    pub icon_close: Sprite,
    /// Play/debug button's play icon
    pub icon_play: Sprite,
    /// Play/debug button's pause icon
    pub icon_debug: Sprite,
    /// Restart button icon
    pub icon_restart: Sprite,
    /// Exclamation mark on the small number display
    pub num_bang: Sprite,
    /// Colon on the small number display
    pub num_colon: Sprite,
    /// digits on the small number display
    pub nums: [Sprite; 10],
    /// digit placeholder on the big number display
    pub bignum_placeholder: Sprite,
    /// digits on the big number display
    pub bignums: [Sprite; 10],
}

/// The sheet as laid out in the bundled image.
pub fn snaek_sheet() -> (sheet: SnaekSheet)
    ensures
        sheet.cursor.rect == (Rect { x: 24i16, y: 0i16, w: 4u16, h: 6u16 }),
        sheet.snake_head.rect == (Rect { x: 14i16, y: 0i16, w: 7u16, h: 7u16 }),
        sheet.snake_straight.rect == (Rect { x: 7i16, y: 0i16, w: 7u16, h: 7u16 }),
        sheet.snake_gay.rect == (Rect { x: 0i16, y: 0i16, w: 7u16, h: 7u16 }),
        sheet.snake_end.rect == (Rect { x: 0i16, y: 7i16, w: 7u16, h: 7u16 }),
        sheet.snake_tongue.rect == (Rect { x: 21i16, y: 2i16, w: 3u16, h: 3u16 }),
        sheet.banana_yellow.rect == (Rect { x: 7i16, y: 7i16, w: 7u16, h: 7u16 }),
        sheet.banana_red.rect == (Rect { x: 14i16, y: 7i16, w: 7u16, h: 7u16 }),
        sheet.banana_cyan.rect == (Rect { x: 21i16, y: 7i16, w: 7u16, h: 7u16 }),
        sheet.box_playfield == (NineSlicingSprite { sprite: Sprite { rect: Rect { x: 9i16, y: 14i16, w: 9u16, h: 9u16 } }, vl: 4u16, vr: 5u16, ht: 4u16, hb: 5u16 }),
        sheet.box_big_carved == (NineSlicingSprite { sprite: Sprite { rect: Rect { x: 18i16, y: 14i16, w: 5u16, h: 5u16 } }, vl: 2u16, vr: 3u16, ht: 2u16, hb: 3u16 }),
        sheet.box_num_display == (NineSlicingSprite { sprite: Sprite { rect: Rect { x: 23i16, y: 14i16, w: 3u16, h: 3u16 } }, vl: 1u16, vr: 2u16, ht: 1u16, hb: 2u16 }),
        sheet.box_text_input == (NineSlicingSprite { sprite: Sprite { rect: Rect { x: 26i16, y: 14i16, w: 3u16, h: 3u16 } }, vl: 1u16, vr: 2u16, ht: 1u16, hb: 2u16 }),
        sheet.box_embossed == (NineSlicingSprite { sprite: Sprite { rect: Rect { x: 23i16, y: 17i16, w: 3u16, h: 3u16 } }, vl: 1u16, vr: 2u16, ht: 1u16, hb: 2u16 }),
        sheet.box_carved == (NineSlicingSprite { sprite: Sprite { rect: Rect { x: 26i16, y: 17i16, w: 3u16, h: 3u16 } }, vl: 1u16, vr: 2u16, ht: 1u16, hb: 2u16 }),
        sheet.box_green == (NineSlicingSprite { sprite: Sprite { rect: Rect { x: 23i16, y: 20i16, w: 3u16, h: 3u16 } }, vl: 1u16, vr: 2u16, ht: 1u16, hb: 2u16 }),
        sheet.box_red == (NineSlicingSprite { sprite: Sprite { rect: Rect { x: 26i16, y: 20i16, w: 3u16, h: 3u16 } }, vl: 1u16, vr: 2u16, ht: 1u16, hb: 2u16 }),
        sheet.carved_sep_line.rect == (Rect { x: 19i16, y: 20i16, w: 1u16, h: 2u16 }),
        sheet.snaek_icon.rect == (Rect { x: 29i16, y: 15i16, w: 6u16, h: 6u16 }),
        sheet.icon_minimize.rect == (Rect { x: 0i16, y: 14i16, w: 5u16, h: 1u16 }),
        sheet.icon_close.rect == (Rect { x: 1i16, y: 16i16, w: 3u16, h: 3u16 }),
        sheet.icon_play.rect == (Rect { x: 1i16, y: 19i16, w: 4u16, h: 4u16 }),
        sheet.icon_debug.rect == (Rect { x: 5i16, y: 19i16, w: 4u16, h: 4u16 }),
        sheet.icon_restart.rect == (Rect { x: 5i16, y: 15i16, w: 4u16, h: 4u16 }),
        sheet.num_bang.rect == (Rect { x: 0i16, y: 23i16, w: 1u16, h: 5u16 }),
        sheet.num_colon.rect == (Rect { x: 2i16, y: 23i16, w: 1u16, h: 5u16 }),
        sheet.bignum_placeholder.rect == (Rect { x: 28i16, y: 0i16, w: 8u16, h: 14u16 }),
{
    SnaekSheet {
        cursor: Sprite { rect: Rect { x: 24, y: 0, w: 4, h: 6 } },
        snake_head: Sprite { rect: Rect { x: 14, y: 0, w: 7, h: 7 } },
        snake_straight: Sprite { rect: Rect { x: 7, y: 0, w: 7, h: 7 } },
        snake_gay: Sprite { rect: Rect { x: 0, y: 0, w: 7, h: 7 } },
        snake_end: Sprite { rect: Rect { x: 0, y: 7, w: 7, h: 7 } },
        snake_tongue: Sprite { rect: Rect { x: 21, y: 2, w: 3, h: 3 } },
        banana_yellow: Sprite { rect: Rect { x: 7, y: 7, w: 7, h: 7 } },
        banana_red: Sprite { rect: Rect { x: 14, y: 7, w: 7, h: 7 } },
        banana_cyan: Sprite { rect: Rect { x: 21, y: 7, w: 7, h: 7 } },
        box_playfield: NineSlicingSprite { sprite: Sprite { rect: Rect { x: 9, y: 14, w: 9, h: 9 } }, vl: 4, vr: 5, ht: 4, hb: 5 },
        box_big_carved: NineSlicingSprite { sprite: Sprite { rect: Rect { x: 18, y: 14, w: 5, h: 5 } }, vl: 2, vr: 3, ht: 2, hb: 3 },
        box_num_display: NineSlicingSprite { sprite: Sprite { rect: Rect { x: 23, y: 14, w: 3, h: 3 } }, vl: 1, vr: 2, ht: 1, hb: 2 },
        box_text_input: NineSlicingSprite { sprite: Sprite { rect: Rect { x: 26, y: 14, w: 3, h: 3 } }, vl: 1, vr: 2, ht: 1, hb: 2 },
        box_embossed: NineSlicingSprite { sprite: Sprite { rect: Rect { x: 23, y: 17, w: 3, h: 3 } }, vl: 1, vr: 2, ht: 1, hb: 2 },
        box_carved: NineSlicingSprite { sprite: Sprite { rect: Rect { x: 26, y: 17, w: 3, h: 3 } }, vl: 1, vr: 2, ht: 1, hb: 2 },
        box_green: NineSlicingSprite { sprite: Sprite { rect: Rect { x: 23, y: 20, w: 3, h: 3 } }, vl: 1, vr: 2, ht: 1, hb: 2 },
        box_red: NineSlicingSprite { sprite: Sprite { rect: Rect { x: 26, y: 20, w: 3, h: 3 } }, vl: 1, vr: 2, ht: 1, hb: 2 },
        carved_sep_line: Sprite { rect: Rect { x: 19, y: 20, w: 1, h: 2 } },
        snaek_icon: Sprite { rect: Rect { x: 29, y: 15, w: 6, h: 6 } },
        icon_minimize: Sprite { rect: Rect { x: 0, y: 14, w: 5, h: 1 } },
        icon_close: Sprite { rect: Rect { x: 1, y: 16, w: 3, h: 3 } },
        icon_play: Sprite { rect: Rect { x: 1, y: 19, w: 4, h: 4 } },
        icon_debug: Sprite { rect: Rect { x: 5, y: 19, w: 4, h: 4 } },
        icon_restart: Sprite { rect: Rect { x: 5, y: 15, w: 4, h: 4 } },
        num_bang: Sprite { rect: Rect { x: 0, y: 23, w: 1, h: 5 } },
        num_colon: Sprite { rect: Rect { x: 2, y: 23, w: 1, h: 5 } },
        nums: [
            Sprite { rect: Rect { x: 4, y: 23, w: 3, h: 5 } },
            Sprite { rect: Rect { x: 7, y: 23, w: 3, h: 5 } },
            Sprite { rect: Rect { x: 10, y: 23, w: 3, h: 5 } },
            Sprite { rect: Rect { x: 13, y: 23, w: 3, h: 5 } },
            Sprite { rect: Rect { x: 16, y: 23, w: 3, h: 5 } },
            Sprite { rect: Rect { x: 19, y: 23, w: 3, h: 5 } },
            Sprite { rect: Rect { x: 22, y: 23, w: 3, h: 5 } },
            Sprite { rect: Rect { x: 25, y: 23, w: 3, h: 5 } },
            Sprite { rect: Rect { x: 28, y: 23, w: 3, h: 5 } },
            Sprite { rect: Rect { x: 31, y: 23, w: 3, h: 5 } },
        ],
        bignum_placeholder: Sprite { rect: Rect { x: 28, y: 0, w: 8, h: 14 } },
        bignums: [
            Sprite { rect: Rect { x: 36, y: 0, w: 8, h: 14 } },
            Sprite { rect: Rect { x: 44, y: 0, w: 8, h: 14 } },
            Sprite { rect: Rect { x: 52, y: 0, w: 8, h: 14 } },
            Sprite { rect: Rect { x: 60, y: 0, w: 8, h: 14 } },
            Sprite { rect: Rect { x: 68, y: 0, w: 8, h: 14 } },
            Sprite { rect: Rect { x: 36, y: 14, w: 8, h: 14 } },
            Sprite { rect: Rect { x: 44, y: 14, w: 8, h: 14 } },
            Sprite { rect: Rect { x: 52, y: 14, w: 8, h: 14 } },
            Sprite { rect: Rect { x: 60, y: 14, w: 8, h: 14 } },
            Sprite { rect: Rect { x: 68, y: 14, w: 8, h: 14 } },
        ],
    }
}

} // verus!
