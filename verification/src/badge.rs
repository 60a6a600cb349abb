//! The taskbar badge: a 32x32 picture of a red disc with the number of
//! overdue and due-today tasks written on it in white. This module computes
//! what is drawn: the text, its font height, the starting pixels, the
//! monochrome mask, and the clean-up of the pixels after the text is drawn.

use vstd::prelude::*;

use crate::text::{chars_of, decimal, decimal_spec, encode_utf16, utf16_spec};

verus! {

/// The width and height of the badge, in pixels.
pub const BADGE_SIZE: i32 = 32;

/// The number of pixels of the badge.
pub const BADGE_PIXELS: usize = 1024;

/// The text on the badge: the count in decimal, or `99+` above 99.
pub open spec fn badge_text_spec(count: nat) -> Seq<char> {
    if count > 99 {
        "99+"@
    } else {
        decimal_spec(count)
    }
}

/// The text on the badge for `count`.
pub fn badge_text(count: u32) -> (s: String)
    ensures
        s@ == badge_text_spec(count as nat),
{
    if count > 99 {
        String::from_str("99+")
    } else {
        decimal(count)
    }
}

/// The font height for a text of `len` characters (negative: a character
/// height, as GDI reads it): larger for fewer characters.
pub open spec fn font_height_spec(len: nat) -> i32 {
    if len == 1 {
        -24i32
    } else if len == 2 {
        -18i32
    } else {
        -14i32
    }
}

/// The font height for the badge text `text`, by its number of characters.
pub fn badge_font_height(text: &str) -> (h: i32)
    ensures
        h == font_height_spec(text@.len()),
{
    let n = chars_of(text).len();
    if n == 1 {
        -24
    } else if n == 2 {
        -18
    } else {
        -14
    }
}

/// What the badge shows for a count: the text, its UTF-16 code units (as
/// the drawing call reads them), and the font height.
pub struct BadgeOverlay {
    pub text: String,
    pub text_utf16: Vec<u16>,
    pub font_height: i32,
}

/// The badge for `count` overdue and due-today tasks: `None` when the count
/// is 0 (the badge is cleared).
pub fn badge_overlay(count: u32) -> (r: Option<BadgeOverlay>)
    ensures
        r is None <==> count == 0,
        r matches Some(o) ==> {
            &&& o.text@ == badge_text_spec(count as nat)
            &&& o.text_utf16@ == utf16_spec(o.text@)
            &&& o.font_height == font_height_spec(o.text@.len())
        },
{
    if count == 0 {
        return None;
    }
    let text = badge_text(count);
    let text_utf16 = encode_utf16(text.as_str());
    let font_height = badge_font_height(text.as_str());
    Some(BadgeOverlay { text, text_utf16, font_height })
}

/// The badge text has one character below 10, two below 100, else three.
proof fn lemma_badge_text_len(count: nat)
    ensures
        badge_text_spec(count).len() == if count < 10 {
            1int
        } else if count < 100 {
            2int
        } else {
            3int
        },
{
    reveal_strlit("99+");
    if count >= 10 && count < 100 {
        assert(decimal_spec(count / 10).len() == 1);
    }
}

/// The font of the badge text is 24 pixels for one digit, 18 for two, and
/// 14 from 100 on (the text `99+`).
pub proof fn law_badge_font_by_count(count: nat)
    ensures
        font_height_spec(badge_text_spec(count).len()) == if count < 10 {
            -24i32
        } else if count < 100 {
            -18i32
        } else {
            -14i32
        },
{
    lemma_badge_text_len(count);
}

/// Pixel `(x, y)` lies in the disc of the badge: its centre `(x + 0.5,
/// y + 0.5)` is at most 16 from the badge centre `(16, 16)`. Multiplying by
/// 2 keeps this in integers: `(2x - 31)^2 + (2y - 31)^2 <= 32^2`.
pub open spec fn inside_circle(x: int, y: int) -> bool {
    (2 * x - 31) * (2 * x - 31) + (2 * y - 31) * (2 * y - 31) <= 1024
}

/// Whether pixel `(x, y)` of the badge lies in its disc.
pub fn is_inside_circle(x: i32, y: i32) -> (r: bool)
    requires
        0 <= x < 32,
        0 <= y < 32,
    ensures
        r == inside_circle(x as int, y as int),
{
    let dx: i32 = 2 * x - 31;
    let dy: i32 = 2 * y - 31;
    assert(dx * dx <= 1089) by (nonlinear_arith)
        requires
            -31 <= dx <= 33,
    ;
    assert(dy * dy <= 1089) by (nonlinear_arith)
        requires
            -31 <= dy <= 33,
    ;
    assert(dx * dx >= 0) by (nonlinear_arith);
    assert(dy * dy >= 0) by (nonlinear_arith);
    dx * dx + dy * dy <= 1024
}

/// Opaque red, as a `0xAARRGGBB` pixel.
pub const OPAQUE_RED: u32 = 0xFFFF_0000;

/// The pixel before the text is drawn: opaque red in the disc, fully
/// transparent outside.
pub open spec fn background_pixel(x: int, y: int) -> u32 {
    if inside_circle(x, y) {
        OPAQUE_RED
    } else {
        0
    }
}

/// The badge before the text is drawn, row by row from the top.
pub fn badge_background() -> (v: Vec<u32>)
    ensures
        v@.len() == 1024,
        forall|x: int, y: int|
            0 <= x < 32 && 0 <= y < 32 ==> #[trigger] v@[32 * y + x] == background_pixel(x, y),
{
    let mut v: Vec<u32> = Vec::new();
    let mut y: i32 = 0;
    while y < BADGE_SIZE
        invariant
            0 <= y <= 32,
            v@.len() == 32 * y,
            forall|xx: int, yy: int|
                0 <= xx < 32 && 0 <= yy < y ==> #[trigger] v@[32 * yy + xx] == background_pixel(
                    xx,
                    yy,
                ),
        decreases 32 - y,
    {
        let mut x: i32 = 0;
        while x < BADGE_SIZE
            invariant
                0 <= y < 32,
                0 <= x <= 32,
                v@.len() == 32 * y + x,
                forall|xx: int, yy: int|
                    0 <= xx < 32 && 0 <= yy < y ==> #[trigger] v@[32 * yy + xx]
                        == background_pixel(xx, yy),
                forall|xx: int| 0 <= xx < x ==> #[trigger] v@[32 * y + xx] == background_pixel(xx, y as int),
            decreases 32 - x,
        {
            let p: u32 = if is_inside_circle(x, y) {
                OPAQUE_RED
            } else {
                0
            };
            v.push(p);
            x += 1;
        }
        y += 1;
    }
    v
}

/// A pixel after the text is drawn on it and the badge is finished: in the
/// disc its alpha is forced to 0xFF (the drawing leaves alpha at 0), outside
/// it is cleared to fully transparent.
pub open spec fn finished_pixel(x: int, y: int, drawn: u32) -> u32 {
    if inside_circle(x, y) {
        drawn | 0xFF00_0000
    } else {
        0
    }
}

/// Finishes the badge after the text is drawn: every pixel in the disc
/// becomes opaque, keeping its colour; every pixel outside is cleared.
pub fn finish_badge_pixels(pixels: &mut Vec<u32>)
    requires
        old(pixels)@.len() == 1024,
    ensures
        final(pixels)@.len() == 1024,
        forall|x: int, y: int|
            0 <= x < 32 && 0 <= y < 32 ==> #[trigger] final(pixels)@[32 * y + x] == finished_pixel(
                x,
                y,
                old(pixels)@[32 * y + x],
            ),
{
    let ghost before = pixels@;
    let mut y: i32 = 0;
    while y < BADGE_SIZE
        invariant
            0 <= y <= 32,
            pixels@.len() == 1024,
            before.len() == 1024,
            forall|xx: int, yy: int|
                0 <= xx < 32 && 0 <= yy < y ==> #[trigger] pixels@[32 * yy + xx] == finished_pixel(
                    xx,
                    yy,
                    before[32 * yy + xx],
                ),
            forall|i: int| 32 * y <= i < 1024 ==> #[trigger] pixels@[i] == before[i],
        decreases 32 - y,
    {
        let mut x: i32 = 0;
        while x < BADGE_SIZE
            invariant
                0 <= y < 32,
                0 <= x <= 32,
                pixels@.len() == 1024,
                before.len() == 1024,
                forall|xx: int, yy: int|
                    0 <= xx < 32 && 0 <= yy < y ==> #[trigger] pixels@[32 * yy + xx]
                        == finished_pixel(xx, yy, before[32 * yy + xx]),
                forall|xx: int|
                    0 <= xx < x ==> #[trigger] pixels@[32 * y + xx] == finished_pixel(
                        xx,
                        y as int,
                        before[32 * y + xx],
                    ),
                forall|i: int| 32 * y + x <= i < 1024 ==> #[trigger] pixels@[i] == before[i],
            decreases 32 - x,
        {
            let idx = (y * BADGE_SIZE + x) as usize;
            let p: u32 = if is_inside_circle(x, y) {
                pixels[idx] | 0xFF00_0000
            } else {
                0
            };
            pixels.set(idx, p);
            x += 1;
        }
        y += 1;
    }
}

/// A finished pixel in the disc is opaque (alpha 0xFF); one outside has
/// every channel 0.
pub proof fn law_finished_pixels_opaque_inside_clear_outside(x: int, y: int, drawn: u32)
    ensures
        inside_circle(x, y) ==> finished_pixel(x, y, drawn) >> 24u32 == 0xFFu32,
        inside_circle(x, y) ==> finished_pixel(x, y, drawn) & 0x00FF_FFFFu32 == drawn & 0x00FF_FFFFu32,
        !inside_circle(x, y) ==> finished_pixel(x, y, drawn) == 0,
{
    assert((drawn | 0xFF00_0000u32) >> 24u32 == 0xFFu32) by (bit_vector);
    assert((drawn | 0xFF00_0000u32) & 0x00FF_FFFFu32 == drawn & 0x00FF_FFFFu32) by (bit_vector);
}

/// The bytes per row of a monochrome bitmap `width` pixels wide: rows are
/// padded to whole 32-bit words.
pub open spec fn mask_stride_spec(width: int) -> int {
    ((width + 31) / 32) * 4
}

/// The bytes per row of a monochrome bitmap `width` pixels wide.
pub fn mask_stride(width: i32) -> (r: i32)
    requires
        0 <= width <= 0x1000_0000,
    ensures
        r == mask_stride_spec(width as int),
{
    ((width + 31) / 32) * 4
}

/// The badge mask: a monochrome bitmap of the badge size, all 0, so that
/// the alpha of the colour pixels decides what shows.
pub fn badge_mask() -> (m: Vec<u8>)
    ensures
        m@.len() == mask_stride_spec(32) * 32,
        m@.len() == 128,
        forall|i: int| 0 <= i < m@.len() ==> m@[i] == 0,
{
    let stride = mask_stride(BADGE_SIZE);
    let len = (stride * BADGE_SIZE) as usize;
    let mut m: Vec<u8> = Vec::new();
    let mut i: usize = 0;
    while i < len
        invariant
            len == 128,
            0 <= i <= len,
            m@.len() == i,
            forall|j: int| 0 <= j < i ==> m@[j] == 0,
        decreases len - i,
    {
        m.push(0);
        i += 1;
    }
    m
}

} // verus!
