//! The fixed bitmap-font table: one sprite per printable ASCII
//! character, plus the byte-to-sprite lookup used by text rendering.

use vstd::prelude::*;

use crate::math::rect::Rect;
use crate::render::sprite::Sprite;

verus! {

/// Sprite coordinates for every character the renderer can draw.
#[derive(Debug, Clone, Copy, PartialEq, Eq, Structural)]
pub struct AsciiSheet {
    /// Space character (` `)
    pub space: Sprite,
    /// Upper A letter (`A`)
    pub upper_a: Sprite,
    /// Upper B letter (`B`)
    pub upper_b: Sprite,
    /// Upper C letter (`C`)
    pub upper_c: Sprite,
    /// Upper D letter (`D`)
    pub upper_d: Sprite,
    /// Upper E letter (`E`)
    pub upper_e: Sprite,
    /// Upper F letter (`F`)
    pub upper_f: Sprite,
    /// Upper G letter (`G`)
    pub upper_g: Sprite,
    /// Upper H letter (`H`)
    pub upper_h: Sprite,
    /// Upper I letter (`I`)
    pub upper_i: Sprite,
    /// Upper J letter (`J`)
    pub upper_j: Sprite,
    /// Upper K letter (`K`)
    pub upper_k: Sprite,
    /// Upper L letter (`L`)
    pub upper_l: Sprite,
    /// Upper M letter (`M`)
    pub upper_m: Sprite,
    /// Upper N letter (`N`)
    pub upper_n: Sprite,
    /// Upper O letter (`O`)
    pub upper_o: Sprite,
    /// Upper P letter (`P`)
    pub upper_p: Sprite,
    /// Upper Q letter (`Q`)
    pub upper_q: Sprite,
    /// Upper R letter (`R`)
    pub upper_r: Sprite,
    /// Upper S letter (`S`)
    pub upper_s: Sprite,
    /// Upper T letter (`T`)
    pub upper_t: Sprite,
    /// Upper U letter (`U`)
    pub upper_u: Sprite,
    /// Upper V letter (`V`)
    pub upper_v: Sprite,
    /// Upper W letter (`W`)
    pub upper_w: Sprite,
    /// Upper X letter (`X`)
    pub upper_x: Sprite,
    /// Upper Y letter (`Y`)
    pub upper_y: Sprite,
    /// Upper Z letter (`Z`)
    pub upper_z: Sprite,
    /// Lower A letter (`a`)
    pub lower_a: Sprite,
    /// Lower B letter (`b`)
    pub lower_b: Sprite,
    /// Lower C letter (`c`)
    pub lower_c: Sprite,
    /// Lower D letter (`d`)
    pub lower_d: Sprite,
    /// Lower E letter (`e`)
    pub lower_e: Sprite,
    /// Lower F letter (`f`)
    pub lower_f: Sprite,
    /// Lower G letter (`g`)
    pub lower_g: Sprite,
    /// Lower H letter (`h`)
    pub lower_h: Sprite,
    /// Lower I letter (`i`)
    pub lower_i: Sprite,
    /// Lower J letter (`j`)
    pub lower_j: Sprite,
    /// Lower K letter (`k`)
    pub lower_k: Sprite,
    /// Lower L letter (`l`)
    pub lower_l: Sprite,
    /// Lower M letter (`m`)
    pub lower_m: Sprite,
    /// Lower N letter (`n`)
    pub lower_n: Sprite,
    /// Lower O letter (`o`)
    pub lower_o: Sprite,
    /// Lower P letter (`p`)
    pub lower_p: Sprite,
    /// Lower Q letter (`q`)
    pub lower_q: Sprite,
    /// Lower R letter (`r`)
    pub lower_r: Sprite,
    /// Lower S letter (`s`)
    pub lower_s: Sprite,
    /// Lower T letter (`t`)
    pub lower_t: Sprite,
    /// Lower U letter (`u`)
    pub lower_u: Sprite,
    /// Lower V letter (`v`)
    pub lower_v: Sprite,
    /// Lower W letter (`w`)
    pub lower_w: Sprite,
    /// Lower X letter (`x`)
    pub lower_x: Sprite,
    /// Lower Y letter (`y`)
    pub lower_y: Sprite,
    /// Lower Z letter (`z`)
    pub lower_z: Sprite,
    /// Digit zero (`0`)
    pub digit_0: Sprite,
    /// Digit one (`1`)
    pub digit_1: Sprite,
    /// Digit two (`2`)
    pub digit_2: Sprite,
    /// Digit three (`3`)
    pub digit_3: Sprite,
    /// Digit four (`4`)
    pub digit_4: Sprite,
    /// Digit five (`5`)
    pub digit_5: Sprite,
    /// Digit six (`6`)
    pub digit_6: Sprite,
    /// Digit seven (`7`)
    pub digit_7: Sprite,
    /// Digit eight (`8`)
    pub digit_8: Sprite,
    /// Digit nine (`9`)
    pub digit_9: Sprite,
    /// Exclamation mark character (`!`)
    pub exclamation_mark: Sprite,
    /// Question mark character (`?`)
    pub question_mark: Sprite,
    /// Colon character (`:`)
    pub colon: Sprite,
    /// Semicolon character (`;`)
    pub semicolon: Sprite,
    /// Comma character (`,`)
    pub comma: Sprite,
    /// Period character (`.`)
    pub period: Sprite,
    /// Star character (`*`)
    pub star: Sprite,
    /// Hashtag character (`#`)
    pub hashtag: Sprite,
    /// Single quote character (`'`)
    pub single_quote: Sprite,
    /// Double quote character (`"`)
    pub double_quote: Sprite,
    /// Left bracket character (`[`)
    pub bracket_l: Sprite,
    /// Right bracket character (`]`)
    pub bracket_r: Sprite,
    /// Left parenthesis character (`(`)
    pub parens_l: Sprite,
    /// Right parenthesis character (`)`)
    pub parens_r: Sprite,
    /// Left brace character (`{`)
    pub brace_l: Sprite,
    /// Right brace character (`}`)
    pub brace_r: Sprite,
    /// Less-than character (`<`)
    pub less_than: Sprite,
    /// Greater-than character (`>`)
    pub greater_than: Sprite,
    /// Minus character (`-`)
    pub minus: Sprite,
    /// Plus character (`+`)
    pub plus: Sprite,
    /// Slash character (`/`)
    pub slash: Sprite,
    /// Equals character (`=`)
    pub equals: Sprite,
    /// Underscore character (`_`)
    pub underscore: Sprite,
}

/// The font table as laid out in the bundled character sheet, as a
/// spec-level constant: every contract about text is relative to exactly
/// this table.
pub open spec fn spec_ascii_sheet() -> AsciiSheet {
    AsciiSheet {
        space: Sprite { rect: Rect { x: 0i16, y: 0i16, w: 2u16, h: 6u16 } },
        upper_a: Sprite { rect: Rect { x: 3i16, y: 0i16, w: 4u16, h: 6u16 } },
        upper_b: Sprite { rect: Rect { x: 8i16, y: 0i16, w: 4u16, h: 6u16 } },
        upper_c: Sprite { rect: Rect { x: 13i16, y: 0i16, w: 4u16, h: 6u16 } },
        upper_d: Sprite { rect: Rect { x: 18i16, y: 0i16, w: 4u16, h: 6u16 } },
        upper_e: Sprite { rect: Rect { x: 23i16, y: 0i16, w: 3u16, h: 6u16 } },
        upper_f: Sprite { rect: Rect { x: 27i16, y: 0i16, w: 3u16, h: 6u16 } },
        upper_g: Sprite { rect: Rect { x: 31i16, y: 0i16, w: 4u16, h: 6u16 } },
        upper_h: Sprite { rect: Rect { x: 36i16, y: 0i16, w: 4u16, h: 6u16 } },
        upper_i: Sprite { rect: Rect { x: 41i16, y: 0i16, w: 3u16, h: 6u16 } },
        upper_j: Sprite { rect: Rect { x: 45i16, y: 0i16, w: 3u16, h: 6u16 } },
        upper_k: Sprite { rect: Rect { x: 49i16, y: 0i16, w: 4u16, h: 6u16 } },
        upper_l: Sprite { rect: Rect { x: 54i16, y: 0i16, w: 3u16, h: 6u16 } },
        upper_m: Sprite { rect: Rect { x: 58i16, y: 0i16, w: 5u16, h: 6u16 } },
        upper_n: Sprite { rect: Rect { x: 64i16, y: 0i16, w: 4u16, h: 6u16 } },
        upper_o: Sprite { rect: Rect { x: 69i16, y: 0i16, w: 4u16, h: 6u16 } },
        upper_p: Sprite { rect: Rect { x: 74i16, y: 0i16, w: 4u16, h: 6u16 } },
        upper_q: Sprite { rect: Rect { x: 79i16, y: 0i16, w: 4u16, h: 6u16 } },
        upper_r: Sprite { rect: Rect { x: 84i16, y: 0i16, w: 4u16, h: 6u16 } },
        upper_s: Sprite { rect: Rect { x: 89i16, y: 0i16, w: 4u16, h: 6u16 } },
        upper_t: Sprite { rect: Rect { x: 94i16, y: 0i16, w: 3u16, h: 6u16 } },
        upper_u: Sprite { rect: Rect { x: 98i16, y: 0i16, w: 4u16, h: 6u16 } },
        upper_v: Sprite { rect: Rect { x: 103i16, y: 0i16, w: 5u16, h: 6u16 } },
        upper_w: Sprite { rect: Rect { x: 109i16, y: 0i16, w: 5u16, h: 6u16 } },
        upper_x: Sprite { rect: Rect { x: 115i16, y: 0i16, w: 5u16, h: 6u16 } },
        upper_y: Sprite { rect: Rect { x: 121i16, y: 0i16, w: 4u16, h: 6u16 } },
        upper_z: Sprite { rect: Rect { x: 126i16, y: 0i16, w: 4u16, h: 6u16 } },
        lower_a: Sprite { rect: Rect { x: 131i16, y: 0i16, w: 4u16, h: 6u16 } },
        lower_b: Sprite { rect: Rect { x: 136i16, y: 0i16, w: 3u16, h: 6u16 } },
        lower_c: Sprite { rect: Rect { x: 140i16, y: 0i16, w: 3u16, h: 6u16 } },
        lower_d: Sprite { rect: Rect { x: 144i16, y: 0i16, w: 4u16, h: 6u16 } },
        lower_e: Sprite { rect: Rect { x: 149i16, y: 0i16, w: 3u16, h: 6u16 } },
        lower_f: Sprite { rect: Rect { x: 153i16, y: 0i16, w: 2u16, h: 6u16 } },
        lower_g: Sprite { rect: Rect { x: 156i16, y: 0i16, w: 3u16, h: 6u16 } },
        lower_h: Sprite { rect: Rect { x: 160i16, y: 0i16, w: 3u16, h: 6u16 } },
        lower_i: Sprite { rect: Rect { x: 164i16, y: 0i16, w: 1u16, h: 6u16 } },
        lower_j: Sprite { rect: Rect { x: 166i16, y: 0i16, w: 3u16, h: 6u16 } },
        lower_k: Sprite { rect: Rect { x: 170i16, y: 0i16, w: 3u16, h: 6u16 } },
        lower_l: Sprite { rect: Rect { x: 174i16, y: 0i16, w: 1u16, h: 6u16 } },
        lower_m: Sprite { rect: Rect { x: 176i16, y: 0i16, w: 5u16, h: 6u16 } },
        lower_n: Sprite { rect: Rect { x: 182i16, y: 0i16, w: 3u16, h: 6u16 } },
        lower_o: Sprite { rect: Rect { x: 186i16, y: 0i16, w: 3u16, h: 6u16 } },
        lower_p: Sprite { rect: Rect { x: 190i16, y: 0i16, w: 3u16, h: 6u16 } },
        lower_q: Sprite { rect: Rect { x: 194i16, y: 0i16, w: 3u16, h: 6u16 } },
        lower_r: Sprite { rect: Rect { x: 198i16, y: 0i16, w: 3u16, h: 6u16 } },
        lower_s: Sprite { rect: Rect { x: 202i16, y: 0i16, w: 3u16, h: 6u16 } },
        lower_t: Sprite { rect: Rect { x: 206i16, y: 0i16, w: 3u16, h: 6u16 } },
        lower_u: Sprite { rect: Rect { x: 210i16, y: 0i16, w: 3u16, h: 6u16 } },
        lower_v: Sprite { rect: Rect { x: 214i16, y: 0i16, w: 3u16, h: 6u16 } },
        lower_w: Sprite { rect: Rect { x: 218i16, y: 0i16, w: 5u16, h: 6u16 } },
        lower_x: Sprite { rect: Rect { x: 224i16, y: 0i16, w: 3u16, h: 6u16 } },
        lower_y: Sprite { rect: Rect { x: 228i16, y: 0i16, w: 3u16, h: 6u16 } },
        lower_z: Sprite { rect: Rect { x: 232i16, y: 0i16, w: 4u16, h: 6u16 } },
        digit_0: Sprite { rect: Rect { x: 237i16, y: 0i16, w: 4u16, h: 6u16 } },
        digit_1: Sprite { rect: Rect { x: 242i16, y: 0i16, w: 3u16, h: 6u16 } },
        digit_2: Sprite { rect: Rect { x: 246i16, y: 0i16, w: 4u16, h: 6u16 } },
        digit_3: Sprite { rect: Rect { x: 251i16, y: 0i16, w: 4u16, h: 6u16 } },
        digit_4: Sprite { rect: Rect { x: 256i16, y: 0i16, w: 4u16, h: 6u16 } },
        digit_5: Sprite { rect: Rect { x: 261i16, y: 0i16, w: 4u16, h: 6u16 } },
        digit_6: Sprite { rect: Rect { x: 266i16, y: 0i16, w: 4u16, h: 6u16 } },
        digit_7: Sprite { rect: Rect { x: 271i16, y: 0i16, w: 4u16, h: 6u16 } },
        digit_8: Sprite { rect: Rect { x: 276i16, y: 0i16, w: 4u16, h: 6u16 } },
        digit_9: Sprite { rect: Rect { x: 281i16, y: 0i16, w: 4u16, h: 6u16 } },
        exclamation_mark: Sprite { rect: Rect { x: 286i16, y: 0i16, w: 1u16, h: 6u16 } },
        question_mark: Sprite { rect: Rect { x: 288i16, y: 0i16, w: 3u16, h: 6u16 } },
        colon: Sprite { rect: Rect { x: 292i16, y: 0i16, w: 1u16, h: 6u16 } },
        semicolon: Sprite { rect: Rect { x: 294i16, y: 0i16, w: 2u16, h: 6u16 } },
        comma: Sprite { rect: Rect { x: 297i16, y: 0i16, w: 2u16, h: 6u16 } },
        period: Sprite { rect: Rect { x: 300i16, y: 0i16, w: 1u16, h: 6u16 } },
        star: Sprite { rect: Rect { x: 302i16, y: 0i16, w: 3u16, h: 6u16 } },
        hashtag: Sprite { rect: Rect { x: 306i16, y: 0i16, w: 5u16, h: 6u16 } },
        single_quote: Sprite { rect: Rect { x: 312i16, y: 0i16, w: 1u16, h: 6u16 } },
        double_quote: Sprite { rect: Rect { x: 314i16, y: 0i16, w: 3u16, h: 6u16 } },
        bracket_l: Sprite { rect: Rect { x: 318i16, y: 0i16, w: 2u16, h: 6u16 } },
        bracket_r: Sprite { rect: Rect { x: 321i16, y: 0i16, w: 2u16, h: 6u16 } },
        parens_l: Sprite { rect: Rect { x: 324i16, y: 0i16, w: 2u16, h: 6u16 } },
        parens_r: Sprite { rect: Rect { x: 327i16, y: 0i16, w: 2u16, h: 6u16 } },
        brace_l: Sprite { rect: Rect { x: 330i16, y: 0i16, w: 3u16, h: 6u16 } },
        brace_r: Sprite { rect: Rect { x: 334i16, y: 0i16, w: 3u16, h: 6u16 } },
        less_than: Sprite { rect: Rect { x: 338i16, y: 0i16, w: 3u16, h: 6u16 } },
        greater_than: Sprite { rect: Rect { x: 342i16, y: 0i16, w: 3u16, h: 6u16 } },
        minus: Sprite { rect: Rect { x: 346i16, y: 0i16, w: 3u16, h: 6u16 } },
        plus: Sprite { rect: Rect { x: 350i16, y: 0i16, w: 3u16, h: 6u16 } },
        slash: Sprite { rect: Rect { x: 354i16, y: 0i16, w: 3u16, h: 6u16 } },
        equals: Sprite { rect: Rect { x: 358i16, y: 0i16, w: 3u16, h: 6u16 } },
        underscore: Sprite { rect: Rect { x: 362i16, y: 0i16, w: 4u16, h: 6u16 } },
    }
}

/// The font table; returns exactly [`spec_ascii_sheet`].
pub fn ascii_sheet() -> (sheet: AsciiSheet)
    ensures
        sheet == spec_ascii_sheet(),
{
    AsciiSheet {
        space: Sprite { rect: Rect { x: 0, y: 0, w: 2, h: 6 } },
        upper_a: Sprite { rect: Rect { x: 3, y: 0, w: 4, h: 6 } },
        upper_b: Sprite { rect: Rect { x: 8, y: 0, w: 4, h: 6 } },
        upper_c: Sprite { rect: Rect { x: 13, y: 0, w: 4, h: 6 } },
        upper_d: Sprite { rect: Rect { x: 18, y: 0, w: 4, h: 6 } },
        upper_e: Sprite { rect: Rect { x: 23, y: 0, w: 3, h: 6 } },
        upper_f: Sprite { rect: Rect { x: 27, y: 0, w: 3, h: 6 } },
        upper_g: Sprite { rect: Rect { x: 31, y: 0, w: 4, h: 6 } },
        upper_h: Sprite { rect: Rect { x: 36, y: 0, w: 4, h: 6 } },
        upper_i: Sprite { rect: Rect { x: 41, y: 0, w: 3, h: 6 } },
        upper_j: Sprite { rect: Rect { x: 45, y: 0, w: 3, h: 6 } },
        upper_k: Sprite { rect: Rect { x: 49, y: 0, w: 4, h: 6 } },
        upper_l: Sprite { rect: Rect { x: 54, y: 0, w: 3, h: 6 } },
        upper_m: Sprite { rect: Rect { x: 58, y: 0, w: 5, h: 6 } },
        upper_n: Sprite { rect: Rect { x: 64, y: 0, w: 4, h: 6 } },
        upper_o: Sprite { rect: Rect { x: 69, y: 0, w: 4, h: 6 } },
        upper_p: Sprite { rect: Rect { x: 74, y: 0, w: 4, h: 6 } },
        upper_q: Sprite { rect: Rect { x: 79, y: 0, w: 4, h: 6 } },
        upper_r: Sprite { rect: Rect { x: 84, y: 0, w: 4, h: 6 } },
        upper_s: Sprite { rect: Rect { x: 89, y: 0, w: 4, h: 6 } },
        upper_t: Sprite { rect: Rect { x: 94, y: 0, w: 3, h: 6 } },
        upper_u: Sprite { rect: Rect { x: 98, y: 0, w: 4, h: 6 } },
        upper_v: Sprite { rect: Rect { x: 103, y: 0, w: 5, h: 6 } },
        upper_w: Sprite { rect: Rect { x: 109, y: 0, w: 5, h: 6 } },
        upper_x: Sprite { rect: Rect { x: 115, y: 0, w: 5, h: 6 } },
        upper_y: Sprite { rect: Rect { x: 121, y: 0, w: 4, h: 6 } },
        upper_z: Sprite { rect: Rect { x: 126, y: 0, w: 4, h: 6 } },
        lower_a: Sprite { rect: Rect { x: 131, y: 0, w: 4, h: 6 } },
        lower_b: Sprite { rect: Rect { x: 136, y: 0, w: 3, h: 6 } },
        lower_c: Sprite { rect: Rect { x: 140, y: 0, w: 3, h: 6 } },
        lower_d: Sprite { rect: Rect { x: 144, y: 0, w: 4, h: 6 } },
        lower_e: Sprite { rect: Rect { x: 149, y: 0, w: 3, h: 6 } },
        lower_f: Sprite { rect: Rect { x: 153, y: 0, w: 2, h: 6 } },
        lower_g: Sprite { rect: Rect { x: 156, y: 0, w: 3, h: 6 } },
        lower_h: Sprite { rect: Rect { x: 160, y: 0, w: 3, h: 6 } },
        lower_i: Sprite { rect: Rect { x: 164, y: 0, w: 1, h: 6 } },
        lower_j: Sprite { rect: Rect { x: 166, y: 0, w: 3, h: 6 } },
        lower_k: Sprite { rect: Rect { x: 170, y: 0, w: 3, h: 6 } },
        lower_l: Sprite { rect: Rect { x: 174, y: 0, w: 1, h: 6 } },
        lower_m: Sprite { rect: Rect { x: 176, y: 0, w: 5, h: 6 } },
        lower_n: Sprite { rect: Rect { x: 182, y: 0, w: 3, h: 6 } },
        lower_o: Sprite { rect: Rect { x: 186, y: 0, w: 3, h: 6 } },
        lower_p: Sprite { rect: Rect { x: 190, y: 0, w: 3, h: 6 } },
        lower_q: Sprite { rect: Rect { x: 194, y: 0, w: 3, h: 6 } },
        lower_r: Sprite { rect: Rect { x: 198, y: 0, w: 3, h: 6 } },
        lower_s: Sprite { rect: Rect { x: 202, y: 0, w: 3, h: 6 } },
        lower_t: Sprite { rect: Rect { x: 206, y: 0, w: 3, h: 6 } },
        lower_u: Sprite { rect: Rect { x: 210, y: 0, w: 3, h: 6 } },
        lower_v: Sprite { rect: Rect { x: 214, y: 0, w: 3, h: 6 } },
        lower_w: Sprite { rect: Rect { x: 218, y: 0, w: 5, h: 6 } },
        lower_x: Sprite { rect: Rect { x: 224, y: 0, w: 3, h: 6 } },
        lower_y: Sprite { rect: Rect { x: 228, y: 0, w: 3, h: 6 } },
        lower_z: Sprite { rect: Rect { x: 232, y: 0, w: 4, h: 6 } },
        digit_0: Sprite { rect: Rect { x: 237, y: 0, w: 4, h: 6 } },
        digit_1: Sprite { rect: Rect { x: 242, y: 0, w: 3, h: 6 } },
        digit_2: Sprite { rect: Rect { x: 246, y: 0, w: 4, h: 6 } },
        digit_3: Sprite { rect: Rect { x: 251, y: 0, w: 4, h: 6 } },
        digit_4: Sprite { rect: Rect { x: 256, y: 0, w: 4, h: 6 } },
        digit_5: Sprite { rect: Rect { x: 261, y: 0, w: 4, h: 6 } },
        digit_6: Sprite { rect: Rect { x: 266, y: 0, w: 4, h: 6 } },
        digit_7: Sprite { rect: Rect { x: 271, y: 0, w: 4, h: 6 } },
        digit_8: Sprite { rect: Rect { x: 276, y: 0, w: 4, h: 6 } },
        digit_9: Sprite { rect: Rect { x: 281, y: 0, w: 4, h: 6 } },
        exclamation_mark: Sprite { rect: Rect { x: 286, y: 0, w: 1, h: 6 } },
        question_mark: Sprite { rect: Rect { x: 288, y: 0, w: 3, h: 6 } },
        colon: Sprite { rect: Rect { x: 292, y: 0, w: 1, h: 6 } },
        semicolon: Sprite { rect: Rect { x: 294, y: 0, w: 2, h: 6 } },
        comma: Sprite { rect: Rect { x: 297, y: 0, w: 2, h: 6 } },
        period: Sprite { rect: Rect { x: 300, y: 0, w: 1, h: 6 } },
        star: Sprite { rect: Rect { x: 302, y: 0, w: 3, h: 6 } },
        hashtag: Sprite { rect: Rect { x: 306, y: 0, w: 5, h: 6 } },
        single_quote: Sprite { rect: Rect { x: 312, y: 0, w: 1, h: 6 } },
        double_quote: Sprite { rect: Rect { x: 314, y: 0, w: 3, h: 6 } },
        bracket_l: Sprite { rect: Rect { x: 318, y: 0, w: 2, h: 6 } },
        bracket_r: Sprite { rect: Rect { x: 321, y: 0, w: 2, h: 6 } },
        parens_l: Sprite { rect: Rect { x: 324, y: 0, w: 2, h: 6 } },
        parens_r: Sprite { rect: Rect { x: 327, y: 0, w: 2, h: 6 } },
        brace_l: Sprite { rect: Rect { x: 330, y: 0, w: 3, h: 6 } },
        brace_r: Sprite { rect: Rect { x: 334, y: 0, w: 3, h: 6 } },
        less_than: Sprite { rect: Rect { x: 338, y: 0, w: 3, h: 6 } },
        greater_than: Sprite { rect: Rect { x: 342, y: 0, w: 3, h: 6 } },
        minus: Sprite { rect: Rect { x: 346, y: 0, w: 3, h: 6 } },
        plus: Sprite { rect: Rect { x: 350, y: 0, w: 3, h: 6 } },
        slash: Sprite { rect: Rect { x: 354, y: 0, w: 3, h: 6 } },
        equals: Sprite { rect: Rect { x: 358, y: 0, w: 3, h: 6 } },
        underscore: Sprite { rect: Rect { x: 362, y: 0, w: 4, h: 6 } },
    }
}

/// The sprite that renders byte `c`: unknown bytes fall back to the
/// question mark.
pub open spec fn spec_ascii_char_to_sprite(c: u8, sheet: AsciiSheet) -> Sprite {
    match c {
        32u8 => sheet.space,
        65u8 => sheet.upper_a,
        66u8 => sheet.upper_b,
        67u8 => sheet.upper_c,
        68u8 => sheet.upper_d,
        69u8 => sheet.upper_e,
        70u8 => sheet.upper_f,
        71u8 => sheet.upper_g,
        72u8 => sheet.upper_h,
        73u8 => sheet.upper_i,
        74u8 => sheet.upper_j,
        75u8 => sheet.upper_k,
        76u8 => sheet.upper_l,
        77u8 => sheet.upper_m,
        78u8 => sheet.upper_n,
        79u8 => sheet.upper_o,
        80u8 => sheet.upper_p,
        81u8 => sheet.upper_q,
        82u8 => sheet.upper_r,
        83u8 => sheet.upper_s,
        84u8 => sheet.upper_t,
        85u8 => sheet.upper_u,
        86u8 => sheet.upper_v,
        87u8 => sheet.upper_w,
        88u8 => sheet.upper_x,
        89u8 => sheet.upper_y,
        90u8 => sheet.upper_z,
        97u8 => sheet.lower_a,
        98u8 => sheet.lower_b,
        99u8 => sheet.lower_c,
        100u8 => sheet.lower_d,
        101u8 => sheet.lower_e,
        102u8 => sheet.lower_f,
        103u8 => sheet.lower_g,
        104u8 => sheet.lower_h,
        105u8 => sheet.lower_i,
        106u8 => sheet.lower_j,
        107u8 => sheet.lower_k,
        108u8 => sheet.lower_l,
        109u8 => sheet.lower_m,
        110u8 => sheet.lower_n,
        111u8 => sheet.lower_o,
        112u8 => sheet.lower_p,
        113u8 => sheet.lower_q,
        114u8 => sheet.lower_r,
        115u8 => sheet.lower_s,
        116u8 => sheet.lower_t,
        117u8 => sheet.lower_u,
        118u8 => sheet.lower_v,
        119u8 => sheet.lower_w,
        120u8 => sheet.lower_x,
        121u8 => sheet.lower_y,
        122u8 => sheet.lower_z,
        48u8 => sheet.digit_0,
        49u8 => sheet.digit_1,
        50u8 => sheet.digit_2,
        51u8 => sheet.digit_3,
        52u8 => sheet.digit_4,
        53u8 => sheet.digit_5,
        54u8 => sheet.digit_6,
        55u8 => sheet.digit_7,
        56u8 => sheet.digit_8,
        57u8 => sheet.digit_9,
        33u8 => sheet.exclamation_mark,
        63u8 => sheet.question_mark,
        58u8 => sheet.colon,
        59u8 => sheet.semicolon,
        44u8 => sheet.comma,
        46u8 => sheet.period,
        42u8 => sheet.star,
        35u8 => sheet.hashtag,
        39u8 => sheet.single_quote,
        34u8 => sheet.double_quote,
        91u8 => sheet.bracket_l,
        93u8 => sheet.bracket_r,
        40u8 => sheet.parens_l,
        41u8 => sheet.parens_r,
        123u8 => sheet.brace_l,
        125u8 => sheet.brace_r,
        60u8 => sheet.less_than,
        62u8 => sheet.greater_than,
        45u8 => sheet.minus,
        43u8 => sheet.plus,
        47u8 => sheet.slash,
        61u8 => sheet.equals,
        95u8 => sheet.underscore,
        _ => sheet.question_mark,
    }
}

/// Looks up the sprite for one text byte.
pub fn ascii_char_to_sprite(c: u8, sheet: &AsciiSheet) -> (s: Sprite)
    ensures
        s == spec_ascii_char_to_sprite(c, *sheet),
{
    match c {
        32u8 => sheet.space,
        65u8 => sheet.upper_a,
        66u8 => sheet.upper_b,
        67u8 => sheet.upper_c,
        68u8 => sheet.upper_d,
        69u8 => sheet.upper_e,
        70u8 => sheet.upper_f,
        71u8 => sheet.upper_g,
        72u8 => sheet.upper_h,
        73u8 => sheet.upper_i,
        74u8 => sheet.upper_j,
        75u8 => sheet.upper_k,
        76u8 => sheet.upper_l,
        77u8 => sheet.upper_m,
        78u8 => sheet.upper_n,
        79u8 => sheet.upper_o,
        80u8 => sheet.upper_p,
        81u8 => sheet.upper_q,
        82u8 => sheet.upper_r,
        83u8 => sheet.upper_s,
        84u8 => sheet.upper_t,
        85u8 => sheet.upper_u,
        86u8 => sheet.upper_v,
        87u8 => sheet.upper_w,
        88u8 => sheet.upper_x,
        89u8 => sheet.upper_y,
        90u8 => sheet.upper_z,
        97u8 => sheet.lower_a,
        98u8 => sheet.lower_b,
        99u8 => sheet.lower_c,
        100u8 => sheet.lower_d,
        101u8 => sheet.lower_e,
        102u8 => sheet.lower_f,
        103u8 => sheet.lower_g,
        104u8 => sheet.lower_h,
        105u8 => sheet.lower_i,
        106u8 => sheet.lower_j,
        107u8 => sheet.lower_k,
        108u8 => sheet.lower_l,
        109u8 => sheet.lower_m,
        110u8 => sheet.lower_n,
        111u8 => sheet.lower_o,
        112u8 => sheet.lower_p,
        113u8 => sheet.lower_q,
        114u8 => sheet.lower_r,
        115u8 => sheet.lower_s,
        116u8 => sheet.lower_t,
        117u8 => sheet.lower_u,
        118u8 => sheet.lower_v,
        119u8 => sheet.lower_w,
        120u8 => sheet.lower_x,
        121u8 => sheet.lower_y,
        122u8 => sheet.lower_z,
        48u8 => sheet.digit_0,
        49u8 => sheet.digit_1,
        50u8 => sheet.digit_2,
        51u8 => sheet.digit_3,
        52u8 => sheet.digit_4,
        53u8 => sheet.digit_5,
        54u8 => sheet.digit_6,
        55u8 => sheet.digit_7,
        56u8 => sheet.digit_8,
        57u8 => sheet.digit_9,
        33u8 => sheet.exclamation_mark,
        63u8 => sheet.question_mark,
        58u8 => sheet.colon,
        59u8 => sheet.semicolon,
        44u8 => sheet.comma,
        46u8 => sheet.period,
        42u8 => sheet.star,
        35u8 => sheet.hashtag,
        39u8 => sheet.single_quote,
        34u8 => sheet.double_quote,
        91u8 => sheet.bracket_l,
        93u8 => sheet.bracket_r,
        40u8 => sheet.parens_l,
        41u8 => sheet.parens_r,
        123u8 => sheet.brace_l,
        125u8 => sheet.brace_r,
        60u8 => sheet.less_than,
        62u8 => sheet.greater_than,
        45u8 => sheet.minus,
        43u8 => sheet.plus,
        47u8 => sheet.slash,
        61u8 => sheet.equals,
        95u8 => sheet.underscore,
        _ => sheet.question_mark,
    }
}

} // verus!
