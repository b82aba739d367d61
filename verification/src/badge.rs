use vstd::prelude::*;

use crate::text::{chars_of, decimal, decimal_string, lemma_decimal_len};

verus! {

/// Width and height of the rendered icon, in pixels.
pub const ICON_SIZE: u32 = 64;

/// An RGBA icon, row by row, four bytes per pixel.
#[derive(Debug, Clone, PartialEq, Eq)]
pub struct BadgeImage {
    pub rgba: Vec<u8>,
    pub width: u32,
    pub height: u32,
}

/// Why an icon could not be rendered.
#[derive(Debug, Clone, Copy, PartialEq, Eq, Structural)]
pub enum BadgeError {
    /// The base icon's bytes are not an image that the `image` crate can decode.
    InvalidIcon,
}

#[verifier::external_type_specification]
#[verifier::external_body]
pub struct ExDynamicImage(image::DynamicImage);

#[verifier::external_type_specification]
#[verifier::external_body]
pub struct ExImageError(image::ImageError);

/// Whether `image::load_from_memory` decodes `bytes` into an image.
pub uninterp spec fn image_decodes(bytes: Seq<u8>) -> bool;

/// Calls `image::load_from_memory`. The contract claims only that it succeeds exactly when
/// `image_decodes` holds of the bytes; what the decoded image holds is left unsaid.
#[verifier::external_body]
fn load_image(bytes: &[u8]) -> (res: Result<image::DynamicImage, image::ImageError>)
    ensures
        res is Ok == image_decodes(bytes@),
{
    image::load_from_memory(bytes)
}

/// Calls `DynamicImage::resize_exact` with the Lanczos3 filter and returns the result's RGBA
/// bytes (`to_rgba8`, `into_raw`). The contract claims only the length of the result, a
/// `size` by `size` image at four bytes per pixel; which pixel values come out is left unsaid.
#[verifier::external_body]
fn resize_to_rgba(img: &image::DynamicImage, size: u32) -> (res: Vec<u8>)
    requires
        size <= 4096,
    ensures
        res@.len() == size * size * 4,
{
    img.resize_exact(size, size, image::imageops::FilterType::Lanczos3).to_rgba8().into_raw()
}

/// The number of bytes of an `ICON_SIZE` by `ICON_SIZE` RGBA canvas.
pub open spec fn canvas_len() -> int {
    16384int
}

/// The column of the pixel that byte `i` of a canvas belongs to.
pub open spec fn pixel_x(i: int) -> int {
    (i / 4) % 64
}

/// The row of the pixel that byte `i` of a canvas belongs to.
pub open spec fn pixel_y(i: int) -> int {
    (i / 4) / 64
}

/// The badge's red, as RGBA.
pub open spec fn badge_red() -> Seq<u8> {
    seq![220u8, 38u8, 38u8, 255u8]
}

/// Opaque white, as RGBA.
pub open spec fn opaque_white() -> Seq<u8> {
    seq![255u8, 255u8, 255u8, 255u8]
}

/// The pixel `(x, y)` lies in the badge disc: centre `(48, 16)`, radius 16.
pub open spec fn in_badge_circle(x: int, y: int) -> bool {
    (x - 48) * (x - 48) + (y - 16) * (y - 16) <= 16 * 16
}

/// The rows of the 3 by 5 bitmap font glyph for `c`; the high bit of the three is the left
/// column. Characters other than digits and `+` have an empty glyph.
pub open spec fn glyph_rows(c: char) -> Seq<u8> {
    if c == '0' {
        seq![7u8, 5u8, 5u8, 5u8, 7u8]
    } else if c == '1' {
        seq![2u8, 6u8, 2u8, 2u8, 7u8]
    } else if c == '2' {
        seq![7u8, 1u8, 7u8, 4u8, 7u8]
    } else if c == '3' {
        seq![7u8, 1u8, 7u8, 1u8, 7u8]
    } else if c == '4' {
        seq![5u8, 5u8, 7u8, 1u8, 1u8]
    } else if c == '5' {
        seq![7u8, 4u8, 7u8, 1u8, 7u8]
    } else if c == '6' {
        seq![7u8, 4u8, 7u8, 5u8, 7u8]
    } else if c == '7' {
        seq![7u8, 1u8, 2u8, 2u8, 2u8]
    } else if c == '8' {
        seq![7u8, 5u8, 7u8, 5u8, 7u8]
    } else if c == '9' {
        seq![7u8, 5u8, 7u8, 1u8, 7u8]
    } else if c == '+' {
        seq![0u8, 2u8, 7u8, 2u8, 0u8]
    } else {
        seq![0u8, 0u8, 0u8, 0u8, 0u8]
    }
}

/// The glyph of `c` lights the cell at `row` (0 to 4) and `column` (0 to 2, left to right).
pub open spec fn glyph_bit(c: char, row: int, column: int) -> bool {
    glyph_rows(c)[row] & (1u8 << ((2 - column) as u8)) != 0
}

/// The width in pixels of `len` glyphs drawn at scale 2 with a one-cell gap between them.
pub open spec fn text_width(len: int) -> int {
    (len * 3 + (len - 1) * 1) * 2
}

/// The pixel `(x, y)` is lit when `text` is drawn centred on `(center_x, center_y)`: each
/// glyph cell is a 2 by 2 block, glyphs are 3 cells wide and 5 high, one cell apart.
pub open spec fn text_pixel(text: Seq<char>, center_x: int, center_y: int, x: int, y: int) -> bool {
    let start_x = center_x - text_width(text.len() as int) / 2;
    let start_y = center_y - 5;
    let rx = x - start_x;
    let ry = y - start_y;
    &&& 0 <= ry < 10
    &&& 0 <= rx
    &&& rx / 8 < text.len()
    &&& rx % 8 < 6
    &&& glyph_bit(text[rx / 8], ry / 2, (rx % 8) / 2)
}

/// `base` with the badge disc painted red.
pub open spec fn with_circle(base: Seq<u8>) -> Seq<u8> {
    Seq::new(
        base.len(),
        |i: int|
            if in_badge_circle(pixel_x(i), pixel_y(i)) {
                badge_red()[i % 4]
            } else {
                base[i]
            },
    )
}

/// `base` with `text` painted white, centred on `(center_x, center_y)`.
pub open spec fn with_text(base: Seq<u8>, text: Seq<char>, center_x: int, center_y: int) -> Seq<u8> {
    Seq::new(
        base.len(),
        |i: int|
            if text_pixel(text, center_x, center_y, pixel_x(i), pixel_y(i)) {
                opaque_white()[i % 4]
            } else {
                base[i]
            },
    )
}

/// The label of the badge: the count, or `99+` above 99.
pub open spec fn badge_label(unread: nat) -> Seq<char> {
    if unread > 99 {
        "99+"@
    } else {
        decimal(unread)
    }
}

/// `base` with the badge for `unread` drawn on it: a red disc with the label in white.
pub open spec fn with_badge(base: Seq<u8>, unread: nat) -> Seq<u8> {
    with_text(with_circle(base), badge_label(unread), 48, 16)
}

/// The icon for `unread`: the base icon itself for zero, otherwise the base with its badge.
pub open spec fn badge_pixels(base: Seq<u8>, unread: nat) -> Seq<u8> {
    if unread == 0 {
        base
    } else {
        with_badge(base, unread)
    }
}

/// The 3 by 5 bitmap glyph for `character`.
pub fn glyph(character: char) -> (rows: [u8; 5])
    ensures
        rows@ == glyph_rows(character),
{
    let rows = match character {
        '0' => [0b111, 0b101, 0b101, 0b101, 0b111],
        '1' => [0b010, 0b110, 0b010, 0b010, 0b111],
        '2' => [0b111, 0b001, 0b111, 0b100, 0b111],
        '3' => [0b111, 0b001, 0b111, 0b001, 0b111],
        '4' => [0b101, 0b101, 0b111, 0b001, 0b001],
        '5' => [0b111, 0b100, 0b111, 0b001, 0b111],
        '6' => [0b111, 0b100, 0b111, 0b101, 0b111],
        '7' => [0b111, 0b001, 0b010, 0b010, 0b010],
        '8' => [0b111, 0b101, 0b111, 0b101, 0b111],
        '9' => [0b111, 0b101, 0b111, 0b001, 0b111],
        '+' => [0b000, 0b010, 0b111, 0b010, 0b000],
        _ => [0; 5],
    };
    assert(rows@ =~= glyph_rows(character));
    rows
}

proof fn lemma_pixel_of_byte(p: int, i: int)
    requires
        0 <= p,
        4 * p <= i < 4 * p + 4,
    ensures
        pixel_x(i) == p % 64,
        pixel_y(i) == p / 64,
        i % 4 == i - 4 * p,
{
}

/// Paints `text` in white onto the 64 by 64 canvas `icon`, centred on
/// `(center_x, center_y)`; pixels that would fall outside the canvas are skipped.
fn draw_text(icon: &mut Vec<u8>, text: &str, center_x: i32, center_y: i32)
    requires
        old(icon)@.len() == canvas_len(),
        text@.len() < 0x1000_0000,
        i32::MIN <= center_x - text_width(text@.len() as int) / 2 <= i32::MAX,
        i32::MIN <= center_y - 5,
    ensures
        final(icon)@ == with_text(old(icon)@, text@, center_x as int, center_y as int),
{
    let chars = chars_of(text);
    let len = chars.len();
    let width: i32 = (len as i32 * 3 + (len as i32 - 1) * 1) * 2;
    let start_x: i32 = center_x - width / 2;
    let start_y: i32 = center_y - 5;
    let ghost base = icon@;
    let mut p: usize = 0;
    while p < 4096
        invariant
            icon@.len() == canvas_len(),
            base.len() == canvas_len(),
            chars@ == text@,
            len == text@.len(),
            start_x == center_x - text_width(text@.len() as int) / 2,
            start_y == center_y - 5,
            p <= 4096,
            forall|i: int|
                0 <= i < canvas_len() ==> #[trigger] icon@[i] == (if i < 4 * p && text_pixel(
                    text@,
                    center_x as int,
                    center_y as int,
                    pixel_x(i),
                    pixel_y(i),
                ) {
                    opaque_white()[i % 4]
                } else {
                    base[i]
                }),
        decreases 4096 - p,
    {
        let x: i64 = (p % 64) as i64;
        let y: i64 = (p / 64) as i64;
        let rx: i64 = x - start_x as i64;
        let ry: i64 = y - start_y as i64;
        let lit = if 0 <= ry && ry < 10 && 0 <= rx && rx / 8 < len as i64 && rx % 8 < 6 {
            let rows = glyph(chars[(rx / 8) as usize]);
            let row = (ry / 2) as usize;
            let column = ((rx % 8) / 2) as u8;
            rows[row] & (1u8 << (2 - column)) != 0
        } else {
            false
        };
        assert(lit == text_pixel(text@, center_x as int, center_y as int, x as int, y as int));
        if lit {
            let b = 4 * p;
            icon[b] = 255;
            icon[b + 1] = 255;
            icon[b + 2] = 255;
            icon[b + 3] = 255;
        }
        assert forall|i: int| 4 * p <= i < 4 * p + 4 implies pixel_x(i) == x && pixel_y(i) == y
            && i % 4 == i - 4 * p by {
            lemma_pixel_of_byte(p as int, i);
        }
        p = p + 1;
    }
    assert(icon@ =~= with_text(base, text@, center_x as int, center_y as int));
}

/// Draws the badge for `unread` onto the 64 by 64 canvas `icon`: a red disc of radius 16
/// centred on `(48, 16)`, with the count (or `99+` above 99) in white on it.
pub fn draw_badge(icon: &mut Vec<u8>, unread: u32)
    requires
        old(icon)@.len() == canvas_len(),
    ensures
        final(icon)@ == with_badge(old(icon)@, unread as nat),
{
    let ghost base = icon@;
    let mut p: usize = 0;
    while p < 4096
        invariant
            icon@.len() == canvas_len(),
            base.len() == canvas_len(),
            p <= 4096,
            forall|i: int|
                0 <= i < canvas_len() ==> #[trigger] icon@[i] == (if i < 4 * p && in_badge_circle(
                    pixel_x(i),
                    pixel_y(i),
                ) {
                    badge_red()[i % 4]
                } else {
                    base[i]
                }),
        decreases 4096 - p,
    {
        let x: i32 = (p % 64) as i32;
        let y: i32 = (p / 64) as i32;
        let dx = x - 48;
        let dy = y - 16;
        assert(0 <= dx * dx <= 2304) by (nonlinear_arith)
            requires
                -48 <= dx <= 15,
        ;
        assert(0 <= dy * dy <= 2304) by (nonlinear_arith)
            requires
                -16 <= dy <= 47,
        ;
        if dx * dx + dy * dy <= 16 * 16 {
            let b = 4 * p;
            icon[b] = 220;
            icon[b + 1] = 38;
            icon[b + 2] = 38;
            icon[b + 3] = 255;
        }
        assert forall|i: int| 4 * p <= i < 4 * p + 4 implies pixel_x(i) == x && pixel_y(i) == y
            && i % 4 == i - 4 * p by {
            lemma_pixel_of_byte(p as int, i);
        }
        p = p + 1;
    }
    assert(icon@ =~= with_circle(base));
    let label = if unread > 99 {
        String::from_str("99+")
    } else {
        decimal_string(unread)
    };
    proof {
        reveal_strlit("99+");
        lemma_decimal_len(unread as nat);
    }
    assert(label@ == badge_label(unread as nat));
    draw_text(icon, label.as_str(), 48, 16);
}

/// Renders the window and tray icon for `unread` unread chats from the PNG (or other image
/// format) bytes `base_icon`: the base icon scaled to 64 by 64, with the badge drawn on it
/// when `unread` is not zero.
pub fn render(base_icon: &[u8], unread: u32) -> (res: Result<BadgeImage, BadgeError>)
    ensures
        res is Ok <==> image_decodes(base_icon@),
        res matches Ok(img) ==> {
            &&& img.width == ICON_SIZE
            &&& img.height == ICON_SIZE
            &&& img.rgba@.len() == canvas_len()
            &&& exists|base: Seq<u8>|
                base.len() == canvas_len() && img.rgba@ == #[trigger] badge_pixels(base, unread as nat)
        },
{
    let decoded = match load_image(base_icon) {
        Ok(decoded) => decoded,
        Err(_) => return Err(BadgeError::InvalidIcon),
    };
    let mut icon = resize_to_rgba(&decoded, ICON_SIZE);
    let ghost base = icon@;
    if unread > 0 {
        draw_badge(&mut icon, unread);
    }
    assert(icon@ == badge_pixels(base, unread as nat));
    Ok(BadgeImage { rgba: icon, width: ICON_SIZE, height: ICON_SIZE })
}

proof fn lemma_label_len(unread: nat)
    ensures
        1 <= badge_label(unread).len() <= 3,
{
    reveal_strlit("99+");
    lemma_decimal_len(unread);
}

/// Every lit pixel of a badge label lies within columns 37 to 60 and rows 11 to 20.
proof fn lemma_label_pixel_bounds(unread: nat, x: int, y: int)
    requires
        text_pixel(badge_label(unread), 48, 16, x, y),
    ensures
        37 <= x <= 60,
        11 <= y <= 20,
{
    lemma_label_len(unread);
    let len = badge_label(unread).len() as int;
    let start_x = 48 - text_width(len) / 2;
    assert(start_x == 49 - 4 * len);
    let rx = x - start_x;
    assert(rx < 8 * len);
}

/// A count of zero leaves the base icon exactly as it is.
pub proof fn law_zero_unread_is_base_icon(base: Seq<u8>)
    ensures
        badge_pixels(base, 0) == base,
{
}

/// Every count above 99 draws the same badge, labelled `99+`.
pub proof fn law_large_counts_share_one_badge(base: Seq<u8>, n: nat, m: nat)
    requires
        n > 99,
        m > 99,
    ensures
        badge_pixels(base, n) == badge_pixels(base, m),
{
}

/// Whatever the base icon and the count, the badge only changes pixels inside its disc.
pub proof fn law_badge_stays_in_disc(base: Seq<u8>, unread: nat, i: int)
    requires
        base.len() == canvas_len(),
        0 <= i < canvas_len(),
        !in_badge_circle(pixel_x(i), pixel_y(i)),
    ensures
        badge_pixels(base, unread)[i] == base[i],
{
    if unread > 0 {
        let x = pixel_x(i);
        let y = pixel_y(i);
        if text_pixel(badge_label(unread), 48, 16, x, y) {
            lemma_label_pixel_bounds(unread, x, y);
            assert((x - 48) * (x - 48) <= 144) by (nonlinear_arith)
                requires
                    37 <= x <= 60,
            ;
            assert((y - 16) * (y - 16) <= 25) by (nonlinear_arith)
                requires
                    11 <= y <= 20,
            ;
        }
    }
}

/// For every count but zero, the pixel at column 34, row 16 (left of any label) is the
/// badge's red.
pub proof fn law_badge_left_of_label_is_red(base: Seq<u8>, unread: nat)
    requires
        base.len() == canvas_len(),
        unread > 0,
    ensures
        badge_pixels(base, unread).subrange(4232, 4236) == badge_red(),
{
    assert forall|i: int| 4232 <= i < 4236 implies pixel_x(i) == 34 && pixel_y(i) == 16 by {
        lemma_pixel_of_byte(1058, i);
    }
    if text_pixel(badge_label(unread), 48, 16, 34, 16) {
        lemma_label_pixel_bounds(unread, 34, 16);
    }
    assert(badge_pixels(base, unread).subrange(4232, 4236) =~= badge_red());
}

/// The font cell at `row`, `column` of the glyph drawn in the `k`-th cell of `text` is lit.
pub open spec fn cell_lit(text: Seq<char>, k: int, row: int, column: int) -> bool {
    glyph_rows(text[k])[row] & (1u8 << ((2 - column) as u8)) != 0
}

/// Text is laid out left to right in reading order: the `k`-th character of `text` occupies
/// the `k`-th 8-pixel-wide cell counted from the text's left edge at
/// `center_x - (4 * len - 1)`, and a pixel is lit exactly when it lies in the 2 by 2 block of a
/// lit font cell of that character's glyph, rows counted down from `center_y - 5`.
pub proof fn law_text_keeps_reading_order(
    text: Seq<char>,
    center_x: int,
    center_y: int,
    x: int,
    y: int,
)
    ensures
        text_pixel(text, center_x, center_y, x, y) <==> exists|k: int, row: int, column: int|
            #![trigger cell_lit(text, k, row, column)]
            0 <= k < text.len() && 0 <= row < 5 && 0 <= column < 3 && cell_lit(
                text,
                k,
                row,
                column,
            ) && center_x - (4 * text.len() - 1) + 8 * k + 2 * column <= x < center_x - (4
                * text.len() - 1) + 8 * k + 2 * column + 2 && center_y - 5 + 2 * row <= y
                < center_y - 5 + 2 * row + 2,
{
    let len = text.len() as int;
    let start_x = center_x - (4 * len - 1);
    assert(text_width(len) / 2 == 4 * len - 1);
    let rx = x - start_x;
    let ry = y - (center_y - 5);
    if text_pixel(text, center_x, center_y, x, y) {
        let k = rx / 8;
        let row = ry / 2;
        let column = (rx % 8) / 2;
        assert(cell_lit(text, k, row, column));
    }
    assert forall|k: int, row: int, column: int|
        0 <= k < len && 0 <= row < 5 && 0 <= column < 3 && #[trigger] cell_lit(
            text,
            k,
            row,
            column,
        ) && start_x + 8 * k + 2 * column <= x < start_x + 8 * k + 2 * column + 2 && center_y
            - 5 + 2 * row <= y < center_y - 5 + 2 * row + 2 implies text_pixel(
        text,
        center_x,
        center_y,
        x,
        y,
    ) by {
        let r = rx - 8 * k;
        assert(0 <= r < 6);
        assert(rx / 8 == k);
        assert(rx % 8 == r);
        assert(r / 2 == column);
        assert(ry / 2 == row);
    }
}

/// The characters that the badge font draws: the ASCII digits and `+`.
pub open spec fn in_font(c: char) -> bool {
    ('0' <= c && c <= '9') || c == '+'
}

/// A glyph's rows read as one base-8 number, top row first.
pub open spec fn glyph_code(rows: Seq<u8>) -> int {
    rows[0] * 4096 + rows[1] * 512 + rows[2] * 64 + rows[3] * 8 + rows[4]
}

/// Distinct characters of the font have distinct glyphs, each with a lit cell, and every
/// character outside the font draws nothing.
pub proof fn law_font_glyphs_are_distinct(a: char, b: char)
    ensures
        in_font(a) && in_font(b) && a != b ==> glyph_rows(a) != glyph_rows(b),
        in_font(a) ==> glyph_code(glyph_rows(a)) != 0,
        !in_font(a) ==> glyph_rows(a) == seq![0u8, 0u8, 0u8, 0u8, 0u8],
        glyph_rows(a).len() == 5,
{
    if in_font(a) && in_font(b) && a != b && glyph_rows(a) == glyph_rows(b) {
        assert(glyph_code(glyph_rows(a)) == glyph_code(glyph_rows(b)));
    }
}

/// The badge font draws each digit as its familiar 3 by 5 shape, rows top to bottom, the
/// high bit of each row the left column: for instance `4` is two open columns over a full bar
/// with only its right column below, and `+` a cross in the middle rows.
pub proof fn law_font_bitmaps()
    ensures
        glyph_rows('0') == seq![0b111u8, 0b101u8, 0b101u8, 0b101u8, 0b111u8],
        glyph_rows('1') == seq![0b010u8, 0b110u8, 0b010u8, 0b010u8, 0b111u8],
        glyph_rows('2') == seq![0b111u8, 0b001u8, 0b111u8, 0b100u8, 0b111u8],
        glyph_rows('3') == seq![0b111u8, 0b001u8, 0b111u8, 0b001u8, 0b111u8],
        glyph_rows('4') == seq![0b101u8, 0b101u8, 0b111u8, 0b001u8, 0b001u8],
        glyph_rows('5') == seq![0b111u8, 0b100u8, 0b111u8, 0b001u8, 0b111u8],
        glyph_rows('6') == seq![0b111u8, 0b100u8, 0b111u8, 0b101u8, 0b111u8],
        glyph_rows('7') == seq![0b111u8, 0b001u8, 0b010u8, 0b010u8, 0b010u8],
        glyph_rows('8') == seq![0b111u8, 0b101u8, 0b111u8, 0b101u8, 0b111u8],
        glyph_rows('9') == seq![0b111u8, 0b101u8, 0b111u8, 0b001u8, 0b111u8],
        glyph_rows('+') == seq![0b000u8, 0b010u8, 0b111u8, 0b010u8, 0b000u8],
{
}

/// The label reads the count for 1 to 99 and `99+` above.
pub proof fn law_badge_label_reads_the_count(unread: nat)
    ensures
        unread > 99 ==> badge_label(unread) == "99+"@,
        unread <= 99 ==> crate::text::all_ascii_digits(badge_label(unread))
            && crate::text::decimal_value(badge_label(unread)) == unread,
{
    crate::text::lemma_decimal_roundtrip(unread);
}

/// The badge is a red disc of radius 16 around column 48, row 16: every pixel it changes lies
/// in that disc, and every pixel of the disc left of column 37 (where no label reaches) is red.
pub proof fn law_badge_geometry(base: Seq<u8>, unread: nat, i: int)
    requires
        base.len() == canvas_len(),
        unread > 0,
        0 <= i < canvas_len(),
    ensures
        badge_pixels(base, unread)[i] != base[i] ==> (pixel_x(i) - 48) * (pixel_x(i) - 48) + (
        pixel_y(i) - 16) * (pixel_y(i) - 16) <= 256,
        (pixel_x(i) - 48) * (pixel_x(i) - 48) + (pixel_y(i) - 16) * (pixel_y(i) - 16) <= 256
            && pixel_x(i) < 37 ==> badge_pixels(base, unread)[i] == seq![
            220u8,
            38u8,
            38u8,
            255u8,
        ][i % 4],
{
    if !in_badge_circle(pixel_x(i), pixel_y(i)) {
        law_badge_stays_in_disc(base, unread, i);
    }
    if text_pixel(badge_label(unread), 48, 16, pixel_x(i), pixel_y(i)) {
        lemma_label_pixel_bounds(unread, pixel_x(i), pixel_y(i));
    }
}

} // verus!
