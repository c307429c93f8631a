//! Alternative spritesheet layouts with individually named digit
//! sprites, for callers that prefer flat fields over arrays.

use vstd::prelude::*;

use crate::math::rect::Rect;
use crate::render::sprite::{NineSlicingSprite, Sprite};

verus! {

/// Sprite coordinates for every character of the text sheet.
#[derive(Debug, Clone, Copy)]
pub struct AsciiCharsSpritesheet {
    /// Space character (` `)
    pub space: Sprite,
    /// Upper A letter (`A`)
    pub upper_a: Sprite,
    /// Upper B letter (`B`)
    pub upper_b: Sprite,
    /// Upper C letter (`C`)
    pub upper_c: Sprite,
    /// Upper D letter (`D`)
    pub upper_d: Sprite,
    /// Upper E letter (`E`)
    pub upper_e: Sprite,
    /// Upper F letter (`F`)
    pub upper_f: Sprite,
    /// Upper G letter (`G`)
    pub upper_g: Sprite,
    /// Upper H letter (`H`)
    pub upper_h: Sprite,
    /// Upper I letter (`I`)
    pub upper_i: Sprite,
    /// Upper J letter (`J`)
    pub upper_j: Sprite,
    /// Upper K letter (`K`)
    pub upper_k: Sprite,
    /// Upper L letter (`L`)
    pub upper_l: Sprite,
    /// Upper M letter (`M`)
    pub upper_m: Sprite,
    /// Upper N letter (`N`)
    pub upper_n: Sprite,
    /// Upper O letter (`O`)
    pub upper_o: Sprite,
    /// Upper P letter (`P`)
    pub upper_p: Sprite,
    /// Upper Q letter (`Q`)
    pub upper_q: Sprite,
    /// Upper R letter (`R`)
    pub upper_r: Sprite,
    /// Upper S letter (`S`)
    pub upper_s: Sprite,
    /// Upper T letter (`T`)
    pub upper_t: Sprite,
    /// Upper U letter (`U`)
    pub upper_u: Sprite,
    /// Upper V letter (`V`)
    pub upper_v: Sprite,
    /// Upper W letter (`W`)
    pub upper_w: Sprite,
    /// Upper X letter (`X`)
    pub upper_x: Sprite,
    /// Upper Y letter (`Y`)
    pub upper_y: Sprite,
    /// Upper Z letter (`Z`)
    pub upper_z: Sprite,
    /// Lower A letter (`a`)
    pub lower_a: Sprite,
    /// Lower B letter (`b`)
    pub lower_b: Sprite,
    /// Lower C letter (`c`)
    pub lower_c: Sprite,
    /// Lower D letter (`d`)
    pub lower_d: Sprite,
    /// Lower E letter (`e`)
    pub lower_e: Sprite,
    /// Lower F letter (`f`)
    pub lower_f: Sprite,
    /// Lower G letter (`g`)
    pub lower_g: Sprite,
    /// Lower H letter (`h`)
    pub lower_h: Sprite,
    /// Lower I letter (`i`)
    pub lower_i: Sprite,
    /// Lower J letter (`j`)
    pub lower_j: Sprite,
    /// Lower K letter (`k`)
    pub lower_k: Sprite,
    /// Lower L letter (`l`)
    pub lower_l: Sprite,
    /// Lower M letter (`m`)
    pub lower_m: Sprite,
    /// Lower N letter (`n`)
    pub lower_n: Sprite,
    /// Lower O letter (`o`)
    pub lower_o: Sprite,
    /// Lower P letter (`p`)
    pub lower_p: Sprite,
    /// Lower Q letter (`q`)
    pub lower_q: Sprite,
    /// Lower R letter (`r`)
    pub lower_r: Sprite,
    /// Lower S letter (`s`)
    pub lower_s: Sprite,
    /// Lower T letter (`t`)
    pub lower_t: Sprite,
    /// Lower U letter (`u`)
    pub lower_u: Sprite,
    /// Lower V letter (`v`)
    pub lower_v: Sprite,
    /// Lower W letter (`w`)
    pub lower_w: Sprite,
    /// Lower X letter (`x`)
    pub lower_x: Sprite,
    /// Lower Y letter (`y`)
    pub lower_y: Sprite,
    /// Lower Z letter (`z`)
    pub lower_z: Sprite,
    /// Digit zero (`0`)
    pub digit_0: Sprite,
    /// Digit one (`1`)
    pub digit_1: Sprite,
    /// Digit two (`2`)
    pub digit_2: Sprite,
    /// Digit three (`3`)
    pub digit_3: Sprite,
    /// Digit four (`4`)
    pub digit_4: Sprite,
    /// Digit five (`5`)
    pub digit_5: Sprite,
    /// Digit six (`6`)
    pub digit_6: Sprite,
    /// Digit seven (`7`)
    pub digit_7: Sprite,
    /// Digit eight (`8`)
    pub digit_8: Sprite,
    /// Digit nine (`9`)
    pub digit_9: Sprite,
    /// Exclamation mark character (`!`)
    pub exclamation_mark: Sprite,
    /// Question mark character (`?`)
    pub question_mark: Sprite,
    /// Colon character (`:`)
    pub colon: Sprite,
    /// Semicolon character (`;`)
    pub semicolon: Sprite,
    /// Comma character (`,`)
    pub comma: Sprite,
    /// Period character (`.`)
    pub period: Sprite,
    /// Star character (`*`)
    pub star: Sprite,
    /// Hashtag character (`#`)
    pub hashtag: Sprite,
    /// Single quote character (`'`)
    pub single_quote: Sprite,
    /// Double quote character (`"`)
    pub double_quote: Sprite,
    /// Left bracket character (`[`)
    pub bracket_l: Sprite,
    /// Right bracket character (`]`)
    pub bracket_r: Sprite,
    /// Left parenthesis character (`(`)
    pub parens_l: Sprite,
    /// Right parenthesis character (`)`)
    pub parens_r: Sprite,
    /// Left brace character (`{`)
    pub brace_l: Sprite,
}

/// The table as laid out in its sheet.
pub fn ascii_chars_spritesheet() -> (sheet: AsciiCharsSpritesheet)
    ensures
        sheet.space.rect == (Rect { x: 0i16, y: 0i16, w: 2u16, h: 6u16 }),
        sheet.brace_l.rect == (Rect { x: 330i16, y: 0i16, w: 2u16, h: 6u16 }),
{
    AsciiCharsSpritesheet {
        space: Sprite { rect: Rect { x: 0, y: 0, w: 2, h: 6 } },
        upper_a: Sprite { rect: Rect { x: 3, y: 0, w: 2, h: 6 } },
        upper_b: Sprite { rect: Rect { x: 8, y: 0, w: 4, h: 6 } },
        upper_c: Sprite { rect: Rect { x: 13, y: 0, w: 4, h: 6 } },
        upper_d: Sprite { rect: Rect { x: 18, y: 0, w: 4, h: 6 } },
        upper_e: Sprite { rect: Rect { x: 23, y: 0, w: 4, h: 6 } },
        upper_f: Sprite { rect: Rect { x: 27, y: 0, w: 3, h: 6 } },
        upper_g: Sprite { rect: Rect { x: 31, y: 0, w: 3, h: 6 } },
        upper_h: Sprite { rect: Rect { x: 36, y: 0, w: 4, h: 6 } },
        upper_i: Sprite { rect: Rect { x: 41, y: 0, w: 4, h: 6 } },
        upper_j: Sprite { rect: Rect { x: 45, y: 0, w: 3, h: 6 } },
        upper_k: Sprite { rect: Rect { x: 49, y: 0, w: 3, h: 6 } },
        upper_l: Sprite { rect: Rect { x: 54, y: 0, w: 4, h: 6 } },
        upper_m: Sprite { rect: Rect { x: 58, y: 0, w: 3, h: 6 } },
        upper_n: Sprite { rect: Rect { x: 64, y: 0, w: 5, h: 6 } },
        upper_o: Sprite { rect: Rect { x: 69, y: 0, w: 4, h: 6 } },
        upper_p: Sprite { rect: Rect { x: 74, y: 0, w: 4, h: 6 } },
        upper_q: Sprite { rect: Rect { x: 79, y: 0, w: 4, h: 6 } },
        upper_r: Sprite { rect: Rect { x: 84, y: 0, w: 4, h: 6 } },
        upper_s: Sprite { rect: Rect { x: 89, y: 0, w: 4, h: 6 } },
        upper_t: Sprite { rect: Rect { x: 94, y: 0, w: 4, h: 6 } },
        upper_u: Sprite { rect: Rect { x: 98, y: 0, w: 3, h: 6 } },
        upper_v: Sprite { rect: Rect { x: 103, y: 0, w: 4, h: 6 } },
        upper_w: Sprite { rect: Rect { x: 109, y: 0, w: 5, h: 6 } },
        upper_x: Sprite { rect: Rect { x: 115, y: 0, w: 5, h: 6 } },
        upper_y: Sprite { rect: Rect { x: 121, y: 0, w: 5, h: 6 } },
        upper_z: Sprite { rect: Rect { x: 126, y: 0, w: 4, h: 6 } },
        lower_a: Sprite { rect: Rect { x: 131, y: 0, w: 4, h: 6 } },
        lower_b: Sprite { rect: Rect { x: 136, y: 0, w: 4, h: 6 } },
        lower_c: Sprite { rect: Rect { x: 140, y: 0, w: 3, h: 6 } },
        lower_d: Sprite { rect: Rect { x: 144, y: 0, w: 3, h: 6 } },
        lower_e: Sprite { rect: Rect { x: 149, y: 0, w: 4, h: 6 } },
        lower_f: Sprite { rect: Rect { x: 153, y: 0, w: 3, h: 6 } },
        lower_g: Sprite { rect: Rect { x: 156, y: 0, w: 2, h: 6 } },
        lower_h: Sprite { rect: Rect { x: 160, y: 0, w: 3, h: 6 } },
        lower_i: Sprite { rect: Rect { x: 164, y: 0, w: 3, h: 6 } },
        lower_j: Sprite { rect: Rect { x: 166, y: 0, w: 1, h: 6 } },
        lower_k: Sprite { rect: Rect { x: 170, y: 0, w: 3, h: 6 } },
        lower_l: Sprite { rect: Rect { x: 174, y: 0, w: 3, h: 6 } },
        lower_m: Sprite { rect: Rect { x: 176, y: 0, w: 1, h: 6 } },
        lower_n: Sprite { rect: Rect { x: 182, y: 0, w: 5, h: 6 } },
        lower_o: Sprite { rect: Rect { x: 186, y: 0, w: 3, h: 6 } },
        lower_p: Sprite { rect: Rect { x: 190, y: 0, w: 3, h: 6 } },
        lower_q: Sprite { rect: Rect { x: 194, y: 0, w: 3, h: 6 } },
        lower_r: Sprite { rect: Rect { x: 198, y: 0, w: 3, h: 6 } },
        lower_s: Sprite { rect: Rect { x: 202, y: 0, w: 3, h: 6 } },
        lower_t: Sprite { rect: Rect { x: 206, y: 0, w: 3, h: 6 } },
        lower_u: Sprite { rect: Rect { x: 210, y: 0, w: 3, h: 6 } },
        lower_v: Sprite { rect: Rect { x: 214, y: 0, w: 3, h: 6 } },
        lower_w: Sprite { rect: Rect { x: 218, y: 0, w: 3, h: 6 } },
        lower_x: Sprite { rect: Rect { x: 224, y: 0, w: 5, h: 6 } },
        lower_y: Sprite { rect: Rect { x: 228, y: 0, w: 3, h: 6 } },
        lower_z: Sprite { rect: Rect { x: 232, y: 0, w: 3, h: 6 } },
        digit_0: Sprite { rect: Rect { x: 237, y: 0, w: 4, h: 6 } },
        digit_1: Sprite { rect: Rect { x: 242, y: 0, w: 4, h: 6 } },
        digit_2: Sprite { rect: Rect { x: 246, y: 0, w: 3, h: 6 } },
        digit_3: Sprite { rect: Rect { x: 251, y: 0, w: 4, h: 6 } },
        digit_4: Sprite { rect: Rect { x: 256, y: 0, w: 4, h: 6 } },
        digit_5: Sprite { rect: Rect { x: 261, y: 0, w: 4, h: 6 } },
        digit_6: Sprite { rect: Rect { x: 266, y: 0, w: 4, h: 6 } },
        digit_7: Sprite { rect: Rect { x: 271, y: 0, w: 4, h: 6 } },
        digit_8: Sprite { rect: Rect { x: 276, y: 0, w: 4, h: 6 } },
        digit_9: Sprite { rect: Rect { x: 281, y: 0, w: 4, h: 6 } },
        exclamation_mark: Sprite { rect: Rect { x: 286, y: 0, w: 4, h: 6 } },
        question_mark: Sprite { rect: Rect { x: 288, y: 0, w: 1, h: 6 } },
        colon: Sprite { rect: Rect { x: 292, y: 0, w: 3, h: 6 } },
        semicolon: Sprite { rect: Rect { x: 294, y: 0, w: 1, h: 6 } },
        comma: Sprite { rect: Rect { x: 297, y: 0, w: 2, h: 6 } },
        period: Sprite { rect: Rect { x: 300, y: 0, w: 2, h: 6 } },
        star: Sprite { rect: Rect { x: 302, y: 0, w: 1, h: 6 } },
        hashtag: Sprite { rect: Rect { x: 306, y: 0, w: 3, h: 6 } },
        single_quote: Sprite { rect: Rect { x: 312, y: 0, w: 5, h: 6 } },
        double_quote: Sprite { rect: Rect { x: 314, y: 0, w: 1, h: 6 } },
        bracket_l: Sprite { rect: Rect { x: 318, y: 0, w: 3, h: 6 } },
        bracket_r: Sprite { rect: Rect { x: 321, y: 0, w: 2, h: 6 } },
        parens_l: Sprite { rect: Rect { x: 324, y: 0, w: 2, h: 6 } },
        parens_r: Sprite { rect: Rect { x: 327, y: 0, w: 2, h: 6 } },
        brace_l: Sprite { rect: Rect { x: 330, y: 0, w: 2, h: 6 } },
    }
}

/// Sprite coordinates for the game sheet, digits as flat fields.
#[derive(Debug, Clone, Copy)]
pub struct Snaeksheet {
    /// Mouse cursor
    pub cursor: Sprite,
    /// Head of the snake
    pub snake_head: Sprite,
    /// When the snake goes straight
    pub snake_straight: Sprite,
    /// When the snake turns left or right
    pub snake_gay: Sprite,
    /// End of the snake
    pub snake_end: Sprite,
    /// Tongue of the snake
    pub snake_tongue: Sprite,
    /// Yellow banana
    pub banana_yellow: Sprite,
    /// Red banana
    pub banana_red: Sprite,
    /// Cyan banana
    pub banana_cyan: Sprite,
    /// playfield box
    pub box_playfield: NineSlicingSprite,
    /// big carved box
    pub box_big_carved: NineSlicingSprite,
    /// number display box
    pub box_num_display: NineSlicingSprite,
    /// text input box
    pub box_text_input: NineSlicingSprite,
    /// embossed box
    pub box_embossed: NineSlicingSprite,
    /// carved box
    pub box_carved: NineSlicingSprite,
    /// green box
    pub box_green: NineSlicingSprite,
    /// red box
    pub box_red: NineSlicingSprite,
    /// carved separator line
    pub carved_sep_line: Sprite,
    /// Snaek game icon
    pub snaek_icon: Sprite,
    /// Minimize button icon
    pub icon_minimize: Sprite,
    /// Close button icon
    pub icon_close: Sprite,
    /// Play/pause button's play icon
    pub icon_play: Sprite,
    /// Play/pause button's pause icon
    pub icon_pause: Sprite,
    /// Restart button icon
    pub icon_restart: Sprite,
    /// Exclamation mark on the small number display
    pub num_bang: Sprite,
    /// Colon on the small number display
    pub num_colon: Sprite,
    /// digit zero on the small number display
    pub num_0: Sprite,
    /// digit one on the small number display
    pub num_1: Sprite,
    /// digit two on the small number display
    pub num_2: Sprite,
    /// digit three on the small number display
    pub num_3: Sprite,
    /// digit four on the small number display
    pub num_4: Sprite,
    /// digit five on the small number display
    pub num_5: Sprite,
    /// digit six on the small number display
    pub num_6: Sprite,
    /// digit seven on the small number display
    pub num_7: Sprite,
    /// digit eight on the small number display
    pub num_8: Sprite,
    /// digit nine on the small number display
    pub num_9: Sprite,
    /// digit placeholder on the big number display
    pub bignum_placeholder: Sprite,
    /// digit zero on the big number display
    pub bignum_0: Sprite,
    /// digit one on the big number display
    pub bignum_1: Sprite,
    /// digit two on the big number display
    pub bignum_2: Sprite,
    /// digit three on the big number display
    pub bignum_3: Sprite,
    /// digit four on the big number display
    pub bignum_4: Sprite,
    /// digit five on the big number display
    pub bignum_5: Sprite,
    /// digit six on the big number display
    pub bignum_6: Sprite,
    /// digit seven on the big number display
    pub bignum_7: Sprite,
    /// digit eight on the big number display
    pub bignum_8: Sprite,
    /// digit nine on the big number display
    pub bignum_9: Sprite,
}

/// The table as laid out in its sheet.
pub fn snaeksheet() -> (sheet: Snaeksheet)
    ensures
        sheet.cursor.rect == (Rect { x: 24i16, y: 0i16, w: 4u16, h: 6u16 }),
        sheet.bignum_9.rect == (Rect { x: 68i16, y: 14i16, w: 8u16, h: 14u16 }),
{
    Snaeksheet {
        cursor: Sprite { rect: Rect { x: 24, y: 0, w: 4, h: 6 } },
        snake_head: Sprite { rect: Rect { x: 14, y: 0, w: 7, h: 7 } },
        snake_straight: Sprite { rect: Rect { x: 7, y: 0, w: 7, h: 7 } },
        snake_gay: Sprite { rect: Rect { x: 0, y: 0, w: 7, h: 7 } },
        snake_end: Sprite { rect: Rect { x: 0, y: 7, w: 7, h: 7 } },
        snake_tongue: Sprite { rect: Rect { x: 21, y: 2, w: 3, h: 3 } },
        banana_yellow: Sprite { rect: Rect { x: 7, y: 7, w: 7, h: 7 } },
        banana_red: Sprite { rect: Rect { x: 14, y: 7, w: 7, h: 7 } },
        banana_cyan: Sprite { rect: Rect { x: 21, y: 7, w: 7, h: 7 } },
        box_playfield: NineSlicingSprite { sprite: Sprite { rect: Rect { x: 9, y: 14, w: 9, h: 9 } }, vl: 4, vr: 5, ht: 4, hb: 5 },
        box_big_carved: NineSlicingSprite { sprite: Sprite { rect: Rect { x: 18, y: 14, w: 5, h: 5 } }, vl: 2, vr: 3, ht: 2, hb: 3 },
        box_num_display: NineSlicingSprite { sprite: Sprite { rect: Rect { x: 23, y: 14, w: 3, h: 3 } }, vl: 1, vr: 2, ht: 1, hb: 2 },
        box_text_input: NineSlicingSprite { sprite: Sprite { rect: Rect { x: 26, y: 14, w: 3, h: 3 } }, vl: 1, vr: 2, ht: 1, hb: 2 },
        box_embossed: NineSlicingSprite { sprite: Sprite { rect: Rect { x: 23, y: 17, w: 3, h: 3 } }, vl: 1, vr: 2, ht: 1, hb: 2 },
        box_carved: NineSlicingSprite { sprite: Sprite { rect: Rect { x: 26, y: 17, w: 3, h: 3 } }, vl: 1, vr: 2, ht: 1, hb: 2 },
        box_green: NineSlicingSprite { sprite: Sprite { rect: Rect { x: 23, y: 20, w: 3, h: 3 } }, vl: 1, vr: 2, ht: 1, hb: 2 },
        box_red: NineSlicingSprite { sprite: Sprite { rect: Rect { x: 26, y: 20, w: 3, h: 3 } }, vl: 1, vr: 2, ht: 1, hb: 2 },
        carved_sep_line: Sprite { rect: Rect { x: 19, y: 20, w: 1, h: 2 } },
        snaek_icon: Sprite { rect: Rect { x: 29, y: 15, w: 6, h: 6 } },
        icon_minimize: Sprite { rect: Rect { x: 0, y: 14, w: 5, h: 1 } },
        icon_close: Sprite { rect: Rect { x: 1, y: 16, w: 3, h: 3 } },
        icon_play: Sprite { rect: Rect { x: 1, y: 19, w: 4, h: 4 } },
        icon_pause: Sprite { rect: Rect { x: 5, y: 19, w: 4, h: 4 } },
        icon_restart: Sprite { rect: Rect { x: 5, y: 15, w: 4, h: 4 } },
        num_bang: Sprite { rect: Rect { x: 0, y: 23, w: 1, h: 5 } },
        num_colon: Sprite { rect: Rect { x: 2, y: 23, w: 1, h: 5 } },
        num_0: Sprite { rect: Rect { x: 4, y: 23, w: 3, h: 5 } },
        num_1: Sprite { rect: Rect { x: 7, y: 23, w: 3, h: 5 } },
        num_2: Sprite { rect: Rect { x: 10, y: 23, w: 3, h: 5 } },
        num_3: Sprite { rect: Rect { x: 13, y: 23, w: 3, h: 5 } },
        num_4: Sprite { rect: Rect { x: 16, y: 23, w: 3, h: 5 } },
        num_5: Sprite { rect: Rect { x: 19, y: 23, w: 3, h: 5 } },
        num_6: Sprite { rect: Rect { x: 22, y: 23, w: 3, h: 5 } },
        num_7: Sprite { rect: Rect { x: 25, y: 23, w: 3, h: 5 } },
        num_8: Sprite { rect: Rect { x: 28, y: 23, w: 3, h: 5 } },
        num_9: Sprite { rect: Rect { x: 31, y: 23, w: 3, h: 5 } },
        bignum_placeholder: Sprite { rect: Rect { x: 28, y: 0, w: 8, h: 14 } },
        bignum_0: Sprite { rect: Rect { x: 36, y: 0, w: 8, h: 14 } },
        bignum_1: Sprite { rect: Rect { x: 44, y: 0, w: 8, h: 14 } },
        bignum_2: Sprite { rect: Rect { x: 52, y: 0, w: 8, h: 14 } },
        bignum_3: Sprite { rect: Rect { x: 60, y: 0, w: 8, h: 14 } },
        bignum_4: Sprite { rect: Rect { x: 68, y: 0, w: 8, h: 14 } },
        bignum_5: Sprite { rect: Rect { x: 36, y: 14, w: 8, h: 14 } },
        bignum_6: Sprite { rect: Rect { x: 44, y: 14, w: 8, h: 14 } },
        bignum_7: Sprite { rect: Rect { x: 52, y: 14, w: 8, h: 14 } },
        bignum_8: Sprite { rect: Rect { x: 60, y: 14, w: 8, h: 14 } },
        bignum_9: Sprite { rect: Rect { x: 68, y: 14, w: 8, h: 14 } },
    }
}

} // verus!
