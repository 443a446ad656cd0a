use vstd::prelude::*;

verus! {

/// The 8x8 bitmap font: for each drawable character, eight rows from top to
/// bottom, the most significant bit of a row being its leftmost pixel.
/// Characters outside the font have no glyph and are not drawn.
pub open spec fn font_glyph(ch: char) -> Option<[u8; 8]> {
    match ch {
        'A' => Some([0x18, 0x24, 0x42, 0x7E, 0x42, 0x42, 0x42, 0x00]),
        'B' => Some([0x7C, 0x42, 0x42, 0x7C, 0x42, 0x42, 0x7C, 0x00]),
        'C' => Some([0x3C, 0x42, 0x40, 0x40, 0x40, 0x42, 0x3C, 0x00]),
        'D' => Some([0x78, 0x44, 0x42, 0x42, 0x42, 0x44, 0x78, 0x00]),
        'E' => Some([0x7E, 0x40, 0x40, 0x7C, 0x40, 0x40, 0x7E, 0x00]),
        'F' => Some([0x7E, 0x40, 0x40, 0x7C, 0x40, 0x40, 0x40, 0x00]),
        'G' => Some([0x3C, 0x42, 0x40, 0x4E, 0x42, 0x42, 0x3C, 0x00]),
        'H' => Some([0x42, 0x42, 0x42, 0x7E, 0x42, 0x42, 0x42, 0x00]),
        'I' => Some([0x3C, 0x18, 0x18, 0x18, 0x18, 0x18, 0x3C, 0x00]),
        'J' => Some([0x1E, 0x08, 0x08, 0x08, 0x08, 0x48, 0x30, 0x00]),
        'K' => Some([0x42, 0x44, 0x48, 0x70, 0x48, 0x44, 0x42, 0x00]),
        'L' => Some([0x40, 0x40, 0x40, 0x40, 0x40, 0x40, 0x7E, 0x00]),
        'M' => Some([0x42, 0x66, 0x5A, 0x5A, 0x42, 0x42, 0x42, 0x00]),
        'N' => Some([0x42, 0x62, 0x52, 0x4A, 0x46, 0x42, 0x42, 0x00]),
        'O' => Some([0x3C, 0x42, 0x42, 0x42, 0x42, 0x42, 0x3C, 0x00]),
        'P' => Some([0x7C, 0x42, 0x42, 0x7C, 0x40, 0x40, 0x40, 0x00]),
        'Q' => Some([0x3C, 0x42, 0x42, 0x42, 0x4A, 0x44, 0x3A, 0x00]),
        'R' => Some([0x7C, 0x42, 0x42, 0x7C, 0x48, 0x44, 0x42, 0x00]),
        'S' => Some([0x3C, 0x42, 0x40, 0x3C, 0x02, 0x42, 0x3C, 0x00]),
        'T' => Some([0x7E, 0x18, 0x18, 0x18, 0x18, 0x18, 0x18, 0x00]),
        'U' => Some([0x42, 0x42, 0x42, 0x42, 0x42, 0x42, 0x3C, 0x00]),
        'V' => Some([0x42, 0x42, 0x42, 0x42, 0x42, 0x24, 0x18, 0x00]),
        'W' => Some([0x42, 0x42, 0x42, 0x5A, 0x5A, 0x66, 0x42, 0x00]),
        'X' => Some([0x42, 0x42, 0x24, 0x18, 0x24, 0x42, 0x42, 0x00]),
        'Y' => Some([0x42, 0x42, 0x24, 0x18, 0x18, 0x18, 0x18, 0x00]),
        'Z' => Some([0x7E, 0x02, 0x04, 0x18, 0x20, 0x40, 0x7E, 0x00]),
        'a' => Some([0x00, 0x3C, 0x02, 0x3E, 0x42, 0x46, 0x3A, 0x00]),
        'b' => Some([0x40, 0x40, 0x5C, 0x62, 0x42, 0x62, 0x5C, 0x00]),
        'c' => Some([0x00, 0x3C, 0x42, 0x40, 0x40, 0x42, 0x3C, 0x00]),
        'd' => Some([0x02, 0x02, 0x3A, 0x46, 0x42, 0x46, 0x3A, 0x00]),
        'e' => Some([0x00, 0x3C, 0x42, 0x7E, 0x40, 0x3C, 0x00, 0x00]),
        'f' => Some([0x1C, 0x20, 0x7C, 0x20, 0x20, 0x20, 0x20, 0x00]),
        'g' => Some([0x00, 0x3A, 0x46, 0x42, 0x46, 0x3A, 0x02, 0x3C]),
        'h' => Some([0x40, 0x40, 0x5C, 0x62, 0x42, 0x42, 0x42, 0x00]),
        'i' => Some([0x10, 0x00, 0x30, 0x10, 0x10, 0x10, 0x38, 0x00]),
        'j' => Some([0x08, 0x00, 0x18, 0x08, 0x08, 0x48, 0x48, 0x30]),
        'k' => Some([0x40, 0x44, 0x48, 0x70, 0x48, 0x44, 0x42, 0x00]),
        'l' => Some([0x30, 0x10, 0x10, 0x10, 0x10, 0x10, 0x38, 0x00]),
        'm' => Some([0x00, 0x6C, 0x92, 0x92, 0x92, 0x92, 0x92, 0x00]),
        'n' => Some([0x00, 0x5C, 0x62, 0x42, 0x42, 0x42, 0x42, 0x00]),
        'o' => Some([0x00, 0x3C, 0x42, 0x42, 0x42, 0x42, 0x3C, 0x00]),
        'p' => Some([0x00, 0x5C, 0x62, 0x62, 0x5C, 0x40, 0x40, 0x00]),
        'q' => Some([0x00, 0x3A, 0x46, 0x46, 0x3A, 0x02, 0x02, 0x00]),
        'r' => Some([0x00, 0x5C, 0x62, 0x40, 0x40, 0x40, 0x40, 0x00]),
        's' => Some([0x00, 0x3E, 0x40, 0x3C, 0x02, 0x42, 0x3C, 0x00]),
        't' => Some([0x20, 0x20, 0x7C, 0x20, 0x20, 0x22, 0x1C, 0x00]),
        'u' => Some([0x00, 0x42, 0x42, 0x42, 0x42, 0x46, 0x3A, 0x00]),
        'v' => Some([0x00, 0x42, 0x42, 0x42, 0x24, 0x24, 0x18, 0x00]),
        'w' => Some([0x00, 0x92, 0x92, 0x92, 0x92, 0x92, 0x6C, 0x00]),
        'x' => Some([0x00, 0x42, 0x24, 0x18, 0x18, 0x24, 0x42, 0x00]),
        'y' => Some([0x00, 0x42, 0x42, 0x46, 0x3A, 0x02, 0x42, 0x3C]),
        'z' => Some([0x00, 0x7E, 0x04, 0x08, 0x10, 0x20, 0x7E, 0x00]),
        '0' => Some([0x3C, 0x66, 0x6E, 0x76, 0x66, 0x66, 0x3C, 0x00]),
        '1' => Some([0x18, 0x38, 0x18, 0x18, 0x18, 0x18, 0x7E, 0x00]),
        '2' => Some([0x3C, 0x66, 0x06, 0x0C, 0x30, 0x60, 0x7E, 0x00]),
        '3' => Some([0x3C, 0x66, 0x06, 0x1C, 0x06, 0x66, 0x3C, 0x00]),
        '4' => Some([0x0C, 0x1C, 0x2C, 0x4C, 0x7E, 0x0C, 0x0C, 0x00]),
        '5' => Some([0x7E, 0x60, 0x7C, 0x06, 0x06, 0x66, 0x3C, 0x00]),
        '6' => Some([0x1C, 0x30, 0x60, 0x7C, 0x66, 0x66, 0x3C, 0x00]),
        '7' => Some([0x7E, 0x06, 0x0C, 0x18, 0x30, 0x30, 0x30, 0x00]),
        '8' => Some([0x3C, 0x66, 0x66, 0x3C, 0x66, 0x66, 0x3C, 0x00]),
        '9' => Some([0x3C, 0x66, 0x66, 0x3E, 0x06, 0x0C, 0x38, 0x00]),
        ',' => Some([0x00, 0x00, 0x00, 0x00, 0x00, 0x18, 0x18, 0x30]),
        '.' => Some([0x00, 0x00, 0x00, 0x00, 0x00, 0x18, 0x18, 0x00]),
        ':' => Some([0x00, 0x18, 0x18, 0x00, 0x00, 0x18, 0x18, 0x00]),
        '\\' => Some([0x40, 0x20, 0x10, 0x08, 0x04, 0x02, 0x01, 0x00]),
        ' ' => Some([0x00, 0x00, 0x00, 0x00, 0x00, 0x00, 0x00, 0x00]),
        _ => None,
    }
}

/// Whether the pixel at `row`, `col` (both in 0..8) of a glyph is set.
pub open spec fn glyph_pixel(rows: [u8; 8], row: int, col: int) -> bool {
    (rows[row] >> ((7 - col) as u8)) & 1u8 == 1u8
}

/// The characters that the font can draw: ASCII letters and digits, and
/// `,` `.` `:` `\\` and the space.
pub open spec fn in_font(ch: char) -> bool {
    ||| ('A' <= ch <= 'Z')
    ||| ('a' <= ch <= 'z')
    ||| ('0' <= ch <= '9')
    ||| ch == ',' || ch == '.' || ch == ':' || ch == '\\' || ch == ' '
}

/// Looks up the bitmap of a character.
pub fn glyph(ch: char) -> (r: Option<[u8; 8]>)
    ensures
        r == font_glyph(ch),
{
    match ch {
        'A' => Some([0x18, 0x24, 0x42, 0x7E, 0x42, 0x42, 0x42, 0x00]),
        'B' => Some([0x7C, 0x42, 0x42, 0x7C, 0x42, 0x42, 0x7C, 0x00]),
        'C' => Some([0x3C, 0x42, 0x40, 0x40, 0x40, 0x42, 0x3C, 0x00]),
        'D' => Some([0x78, 0x44, 0x42, 0x42, 0x42, 0x44, 0x78, 0x00]),
        'E' => Some([0x7E, 0x40, 0x40, 0x7C, 0x40, 0x40, 0x7E, 0x00]),
        'F' => Some([0x7E, 0x40, 0x40, 0x7C, 0x40, 0x40, 0x40, 0x00]),
        'G' => Some([0x3C, 0x42, 0x40, 0x4E, 0x42, 0x42, 0x3C, 0x00]),
        'H' => Some([0x42, 0x42, 0x42, 0x7E, 0x42, 0x42, 0x42, 0x00]),
        'I' => Some([0x3C, 0x18, 0x18, 0x18, 0x18, 0x18, 0x3C, 0x00]),
        'J' => Some([0x1E, 0x08, 0x08, 0x08, 0x08, 0x48, 0x30, 0x00]),
        'K' => Some([0x42, 0x44, 0x48, 0x70, 0x48, 0x44, 0x42, 0x00]),
        'L' => Some([0x40, 0x40, 0x40, 0x40, 0x40, 0x40, 0x7E, 0x00]),
        'M' => Some([0x42, 0x66, 0x5A, 0x5A, 0x42, 0x42, 0x42, 0x00]),
        'N' => Some([0x42, 0x62, 0x52, 0x4A, 0x46, 0x42, 0x42, 0x00]),
        'O' => Some([0x3C, 0x42, 0x42, 0x42, 0x42, 0x42, 0x3C, 0x00]),
        'P' => Some([0x7C, 0x42, 0x42, 0x7C, 0x40, 0x40, 0x40, 0x00]),
        'Q' => Some([0x3C, 0x42, 0x42, 0x42, 0x4A, 0x44, 0x3A, 0x00]),
        'R' => Some([0x7C, 0x42, 0x42, 0x7C, 0x48, 0x44, 0x42, 0x00]),
        'S' => Some([0x3C, 0x42, 0x40, 0x3C, 0x02, 0x42, 0x3C, 0x00]),
        'T' => Some([0x7E, 0x18, 0x18, 0x18, 0x18, 0x18, 0x18, 0x00]),
        'U' => Some([0x42, 0x42, 0x42, 0x42, 0x42, 0x42, 0x3C, 0x00]),
        'V' => Some([0x42, 0x42, 0x42, 0x42, 0x42, 0x24, 0x18, 0x00]),
        'W' => Some([0x42, 0x42, 0x42, 0x5A, 0x5A, 0x66, 0x42, 0x00]),
        'X' => Some([0x42, 0x42, 0x24, 0x18, 0x24, 0x42, 0x42, 0x00]),
        'Y' => Some([0x42, 0x42, 0x24, 0x18, 0x18, 0x18, 0x18, 0x00]),
        'Z' => Some([0x7E, 0x02, 0x04, 0x18, 0x20, 0x40, 0x7E, 0x00]),
        'a' => Some([0x00, 0x3C, 0x02, 0x3E, 0x42, 0x46, 0x3A, 0x00]),
        'b' => Some([0x40, 0x40, 0x5C, 0x62, 0x42, 0x62, 0x5C, 0x00]),
        'c' => Some([0x00, 0x3C, 0x42, 0x40, 0x40, 0x42, 0x3C, 0x00]),
        'd' => Some([0x02, 0x02, 0x3A, 0x46, 0x42, 0x46, 0x3A, 0x00]),
        'e' => Some([0x00, 0x3C, 0x42, 0x7E, 0x40, 0x3C, 0x00, 0x00]),
        'f' => Some([0x1C, 0x20, 0x7C, 0x20, 0x20, 0x20, 0x20, 0x00]),
        'g' => Some([0x00, 0x3A, 0x46, 0x42, 0x46, 0x3A, 0x02, 0x3C]),
        'h' => Some([0x40, 0x40, 0x5C, 0x62, 0x42, 0x42, 0x42, 0x00]),
        'i' => Some([0x10, 0x00, 0x30, 0x10, 0x10, 0x10, 0x38, 0x00]),
        'j' => Some([0x08, 0x00, 0x18, 0x08, 0x08, 0x48, 0x48, 0x30]),
        'k' => Some([0x40, 0x44, 0x48, 0x70, 0x48, 0x44, 0x42, 0x00]),
        'l' => Some([0x30, 0x10, 0x10, 0x10, 0x10, 0x10, 0x38, 0x00]),
        'm' => Some([0x00, 0x6C, 0x92, 0x92, 0x92, 0x92, 0x92, 0x00]),
        'n' => Some([0x00, 0x5C, 0x62, 0x42, 0x42, 0x42, 0x42, 0x00]),
        'o' => Some([0x00, 0x3C, 0x42, 0x42, 0x42, 0x42, 0x3C, 0x00]),
        'p' => Some([0x00, 0x5C, 0x62, 0x62, 0x5C, 0x40, 0x40, 0x00]),
        'q' => Some([0x00, 0x3A, 0x46, 0x46, 0x3A, 0x02, 0x02, 0x00]),
        'r' => Some([0x00, 0x5C, 0x62, 0x40, 0x40, 0x40, 0x40, 0x00]),
        's' => Some([0x00, 0x3E, 0x40, 0x3C, 0x02, 0x42, 0x3C, 0x00]),
        't' => Some([0x20, 0x20, 0x7C, 0x20, 0x20, 0x22, 0x1C, 0x00]),
        'u' => Some([0x00, 0x42, 0x42, 0x42, 0x42, 0x46, 0x3A, 0x00]),
        'v' => Some([0x00, 0x42, 0x42, 0x42, 0x24, 0x24, 0x18, 0x00]),
        'w' => Some([0x00, 0x92, 0x92, 0x92, 0x92, 0x92, 0x6C, 0x00]),
        'x' => Some([0x00, 0x42, 0x24, 0x18, 0x18, 0x24, 0x42, 0x00]),
        'y' => Some([0x00, 0x42, 0x42, 0x46, 0x3A, 0x02, 0x42, 0x3C]),
        'z' => Some([0x00, 0x7E, 0x04, 0x08, 0x10, 0x20, 0x7E, 0x00]),
        '0' => Some([0x3C, 0x66, 0x6E, 0x76, 0x66, 0x66, 0x3C, 0x00]),
        '1' => Some([0x18, 0x38, 0x18, 0x18, 0x18, 0x18, 0x7E, 0x00]),
        '2' => Some([0x3C, 0x66, 0x06, 0x0C, 0x30, 0x60, 0x7E, 0x00]),
        '3' => Some([0x3C, 0x66, 0x06, 0x1C, 0x06, 0x66, 0x3C, 0x00]),
        '4' => Some([0x0C, 0x1C, 0x2C, 0x4C, 0x7E, 0x0C, 0x0C, 0x00]),
        '5' => Some([0x7E, 0x60, 0x7C, 0x06, 0x06, 0x66, 0x3C, 0x00]),
        '6' => Some([0x1C, 0x30, 0x60, 0x7C, 0x66, 0x66, 0x3C, 0x00]),
        '7' => Some([0x7E, 0x06, 0x0C, 0x18, 0x30, 0x30, 0x30, 0x00]),
        '8' => Some([0x3C, 0x66, 0x66, 0x3C, 0x66, 0x66, 0x3C, 0x00]),
        '9' => Some([0x3C, 0x66, 0x66, 0x3E, 0x06, 0x0C, 0x38, 0x00]),
        ',' => Some([0x00, 0x00, 0x00, 0x00, 0x00, 0x18, 0x18, 0x30]),
        '.' => Some([0x00, 0x00, 0x00, 0x00, 0x00, 0x18, 0x18, 0x00]),
        ':' => Some([0x00, 0x18, 0x18, 0x00, 0x00, 0x18, 0x18, 0x00]),
        '\\' => Some([0x40, 0x20, 0x10, 0x08, 0x04, 0x02, 0x01, 0x00]),
        ' ' => Some([0x00, 0x00, 0x00, 0x00, 0x00, 0x00, 0x00, 0x00]),
        _ => None,
    }
}

/// Exactly the characters of `in_font` have a glyph, and the space is blank.
pub proof fn lemma_font_coverage(ch: char)
    ensures
        font_glyph(ch) is Some <==> in_font(ch),
        font_glyph(' ') == Some([0x00u8, 0x00, 0x00, 0x00, 0x00, 0x00, 0x00, 0x00]),
{
}

/// The most significant bit of a glyph row is its leftmost pixel: the pixel
/// at column `col` of row `row` is set exactly when the row's byte has the bit
/// `0x80 >> col`.
pub proof fn lemma_glyph_pixel_msb_first(rows: [u8; 8], row: int, col: int)
    requires
        0 <= row < 8,
        0 <= col < 8,
    ensures
        glyph_pixel(rows, row, col) == (rows[row] & (0x80u8 >> (col as u8)) != 0),
        col == 0 ==> glyph_pixel(rows, row, col) == (rows[row] >= 0x80),
        col == 7 ==> glyph_pixel(rows, row, col) == (rows[row] % 2 == 1),
{
    let b = rows[row];
    let c = col as u8;
    let sh = (7 - col) as u8;
    assert(c < 8 && sh == 7 - c ==> (((b >> sh) & 1u8 == 1u8) == (b & (0x80u8 >> c) != 0))) by (bit_vector);
    assert(((b >> 7u8) & 1u8 == 1u8) == (b >= 0x80u8)) by (bit_vector);
    assert(((b >> 0u8) & 1u8 == 1u8) == (b % 2 == 1)) by (bit_vector);
}

/// The font's bitmaps, character by character: rows from top to bottom, the
/// most significant bit of a row being its leftmost pixel (see
/// `lemma_glyph_pixel_msb_first`). Thus `b` has its stem on the left and `d`
/// on the right, and each lower-case letter has its own small-letter shape.
pub proof fn lemma_font_table()
    ensures
        font_glyph('A') == Some([0x18u8, 0x24, 0x42, 0x7E, 0x42, 0x42, 0x42, 0x00]),
        font_glyph('B') == Some([0x7Cu8, 0x42, 0x42, 0x7C, 0x42, 0x42, 0x7C, 0x00]),
        font_glyph('C') == Some([0x3Cu8, 0x42, 0x40, 0x40, 0x40, 0x42, 0x3C, 0x00]),
        font_glyph('D') == Some([0x78u8, 0x44, 0x42, 0x42, 0x42, 0x44, 0x78, 0x00]),
        font_glyph('E') == Some([0x7Eu8, 0x40, 0x40, 0x7C, 0x40, 0x40, 0x7E, 0x00]),
        font_glyph('F') == Some([0x7Eu8, 0x40, 0x40, 0x7C, 0x40, 0x40, 0x40, 0x00]),
        font_glyph('G') == Some([0x3Cu8, 0x42, 0x40, 0x4E, 0x42, 0x42, 0x3C, 0x00]),
        font_glyph('H') == Some([0x42u8, 0x42, 0x42, 0x7E, 0x42, 0x42, 0x42, 0x00]),
        font_glyph('I') == Some([0x3Cu8, 0x18, 0x18, 0x18, 0x18, 0x18, 0x3C, 0x00]),
        font_glyph('J') == Some([0x1Eu8, 0x08, 0x08, 0x08, 0x08, 0x48, 0x30, 0x00]),
        font_glyph('K') == Some([0x42u8, 0x44, 0x48, 0x70, 0x48, 0x44, 0x42, 0x00]),
        font_glyph('L') == Some([0x40u8, 0x40, 0x40, 0x40, 0x40, 0x40, 0x7E, 0x00]),
        font_glyph('M') == Some([0x42u8, 0x66, 0x5A, 0x5A, 0x42, 0x42, 0x42, 0x00]),
        font_glyph('N') == Some([0x42u8, 0x62, 0x52, 0x4A, 0x46, 0x42, 0x42, 0x00]),
        font_glyph('O') == Some([0x3Cu8, 0x42, 0x42, 0x42, 0x42, 0x42, 0x3C, 0x00]),
        font_glyph('P') == Some([0x7Cu8, 0x42, 0x42, 0x7C, 0x40, 0x40, 0x40, 0x00]),
        font_glyph('Q') == Some([0x3Cu8, 0x42, 0x42, 0x42, 0x4A, 0x44, 0x3A, 0x00]),
        font_glyph('R') == Some([0x7Cu8, 0x42, 0x42, 0x7C, 0x48, 0x44, 0x42, 0x00]),
        font_glyph('S') == Some([0x3Cu8, 0x42, 0x40, 0x3C, 0x02, 0x42, 0x3C, 0x00]),
        font_glyph('T') == Some([0x7Eu8, 0x18, 0x18, 0x18, 0x18, 0x18, 0x18, 0x00]),
        font_glyph('U') == Some([0x42u8, 0x42, 0x42, 0x42, 0x42, 0x42, 0x3C, 0x00]),
        font_glyph('V') == Some([0x42u8, 0x42, 0x42, 0x42, 0x42, 0x24, 0x18, 0x00]),
        font_glyph('W') == Some([0x42u8, 0x42, 0x42, 0x5A, 0x5A, 0x66, 0x42, 0x00]),
        font_glyph('X') == Some([0x42u8, 0x42, 0x24, 0x18, 0x24, 0x42, 0x42, 0x00]),
        font_glyph('Y') == Some([0x42u8, 0x42, 0x24, 0x18, 0x18, 0x18, 0x18, 0x00]),
        font_glyph('Z') == Some([0x7Eu8, 0x02, 0x04, 0x18, 0x20, 0x40, 0x7E, 0x00]),
        font_glyph('a') == Some([0x00u8, 0x3C, 0x02, 0x3E, 0x42, 0x46, 0x3A, 0x00]),
        font_glyph('b') == Some([0x40u8, 0x40, 0x5C, 0x62, 0x42, 0x62, 0x5C, 0x00]),
        font_glyph('c') == Some([0x00u8, 0x3C, 0x42, 0x40, 0x40, 0x42, 0x3C, 0x00]),
        font_glyph('d') == Some([0x02u8, 0x02, 0x3A, 0x46, 0x42, 0x46, 0x3A, 0x00]),
        font_glyph('e') == Some([0x00u8, 0x3C, 0x42, 0x7E, 0x40, 0x3C, 0x00, 0x00]),
        font_glyph('f') == Some([0x1Cu8, 0x20, 0x7C, 0x20, 0x20, 0x20, 0x20, 0x00]),
        font_glyph('g') == Some([0x00u8, 0x3A, 0x46, 0x42, 0x46, 0x3A, 0x02, 0x3C]),
        font_glyph('h') == Some([0x40u8, 0x40, 0x5C, 0x62, 0x42, 0x42, 0x42, 0x00]),
        font_glyph('i') == Some([0x10u8, 0x00, 0x30, 0x10, 0x10, 0x10, 0x38, 0x00]),
        font_glyph('j') == Some([0x08u8, 0x00, 0x18, 0x08, 0x08, 0x48, 0x48, 0x30]),
        font_glyph('k') == Some([0x40u8, 0x44, 0x48, 0x70, 0x48, 0x44, 0x42, 0x00]),
        font_glyph('l') == Some([0x30u8, 0x10, 0x10, 0x10, 0x10, 0x10, 0x38, 0x00]),
        font_glyph('m') == Some([0x00u8, 0x6C, 0x92, 0x92, 0x92, 0x92, 0x92, 0x00]),
        font_glyph('n') == Some([0x00u8, 0x5C, 0x62, 0x42, 0x42, 0x42, 0x42, 0x00]),
        font_glyph('o') == Some([0x00u8, 0x3C, 0x42, 0x42, 0x42, 0x42, 0x3C, 0x00]),
        font_glyph('p') == Some([0x00u8, 0x5C, 0x62, 0x62, 0x5C, 0x40, 0x40, 0x00]),
        font_glyph('q') == Some([0x00u8, 0x3A, 0x46, 0x46, 0x3A, 0x02, 0x02, 0x00]),
        font_glyph('r') == Some([0x00u8, 0x5C, 0x62, 0x40, 0x40, 0x40, 0x40, 0x00]),
        font_glyph('s') == Some([0x00u8, 0x3E, 0x40, 0x3C, 0x02, 0x42, 0x3C, 0x00]),
        font_glyph('t') == Some([0x20u8, 0x20, 0x7C, 0x20, 0x20, 0x22, 0x1C, 0x00]),
        font_glyph('u') == Some([0x00u8, 0x42, 0x42, 0x42, 0x42, 0x46, 0x3A, 0x00]),
        font_glyph('v') == Some([0x00u8, 0x42, 0x42, 0x42, 0x24, 0x24, 0x18, 0x00]),
        font_glyph('w') == Some([0x00u8, 0x92, 0x92, 0x92, 0x92, 0x92, 0x6C, 0x00]),
        font_glyph('x') == Some([0x00u8, 0x42, 0x24, 0x18, 0x18, 0x24, 0x42, 0x00]),
        font_glyph('y') == Some([0x00u8, 0x42, 0x42, 0x46, 0x3A, 0x02, 0x42, 0x3C]),
        font_glyph('z') == Some([0x00u8, 0x7E, 0x04, 0x08, 0x10, 0x20, 0x7E, 0x00]),
        font_glyph('0') == Some([0x3Cu8, 0x66, 0x6E, 0x76, 0x66, 0x66, 0x3C, 0x00]),
        font_glyph('1') == Some([0x18u8, 0x38, 0x18, 0x18, 0x18, 0x18, 0x7E, 0x00]),
        font_glyph('2') == Some([0x3Cu8, 0x66, 0x06, 0x0C, 0x30, 0x60, 0x7E, 0x00]),
        font_glyph('3') == Some([0x3Cu8, 0x66, 0x06, 0x1C, 0x06, 0x66, 0x3C, 0x00]),
        font_glyph('4') == Some([0x0Cu8, 0x1C, 0x2C, 0x4C, 0x7E, 0x0C, 0x0C, 0x00]),
        font_glyph('5') == Some([0x7Eu8, 0x60, 0x7C, 0x06, 0x06, 0x66, 0x3C, 0x00]),
        font_glyph('6') == Some([0x1Cu8, 0x30, 0x60, 0x7C, 0x66, 0x66, 0x3C, 0x00]),
        font_glyph('7') == Some([0x7Eu8, 0x06, 0x0C, 0x18, 0x30, 0x30, 0x30, 0x00]),
        font_glyph('8') == Some([0x3Cu8, 0x66, 0x66, 0x3C, 0x66, 0x66, 0x3C, 0x00]),
        font_glyph('9') == Some([0x3Cu8, 0x66, 0x66, 0x3E, 0x06, 0x0C, 0x38, 0x00]),
        font_glyph(',') == Some([0x00u8, 0x00, 0x00, 0x00, 0x00, 0x18, 0x18, 0x30]),
        font_glyph('.') == Some([0x00u8, 0x00, 0x00, 0x00, 0x00, 0x18, 0x18, 0x00]),
        font_glyph(':') == Some([0x00u8, 0x18, 0x18, 0x00, 0x00, 0x18, 0x18, 0x00]),
        font_glyph('\\') == Some([0x40u8, 0x20, 0x10, 0x08, 0x04, 0x02, 0x01, 0x00]),
        font_glyph(' ') == Some([0x00u8, 0x00, 0x00, 0x00, 0x00, 0x00, 0x00, 0x00]),
{
}

} // verus!
