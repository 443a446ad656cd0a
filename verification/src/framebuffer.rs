use vstd::prelude::*;

use crate::font::{font_glyph, glyph, glyph_pixel};

verus! {

/// Pixel `x` of the row `row` in a framebuffer of `stride` pixels per scan
/// line lies at index `row * stride + x`.
pub open spec fn pixel_index(stride: int, x: int, row: int) -> int {
    row * stride + x
}

/// Index `i` is one of the pixels `xa..xb` of scan line `row`.
pub open spec fn in_span(stride: int, xa: int, xb: int, row: int, i: int) -> bool {
    exists|x: int| xa <= x < xb && i == #[trigger] pixel_index(stride, x, row)
}

/// Index `i` is one of the pixels of the rectangle `xa..xb` by `ya..yb`.
pub open spec fn in_rect(stride: int, xa: int, xb: int, ya: int, yb: int, i: int) -> bool {
    exists|row: int| ya <= row < yb && #[trigger] in_span(stride, xa, xb, row, i)
}

/// `new` is `old` with every index for which `covered` holds set to `color`,
/// indices past the end being dropped.
pub open spec fn painted(old: Seq<u32>, new: Seq<u32>, covered: spec_fn(int) -> bool, color: u32) -> bool {
    &&& new.len() == old.len()
    &&& forall|i: int| 0 <= i < old.len() ==> #[trigger] new[i] == if covered(i) {
        color
    } else {
        old[i]
    }
}

/// A pixel index names one column and one line: with `0 <= x, x2 < stride`,
/// equal indices mean equal positions.
pub proof fn lemma_pixel_index_unique(stride: int, x: int, row: int, x2: int, row2: int)
    requires
        0 <= x < stride,
        0 <= x2 < stride,
        pixel_index(stride, x, row) == pixel_index(stride, x2, row2),
    ensures
        x == x2,
        row == row2,
{
    assert((row - row2) * stride == x2 - x) by (nonlinear_arith)
        requires
            row * stride + x == row2 * stride + x2,
    ;
    assert(row == row2) by (nonlinear_arith)
        requires
            (row - row2) * stride == x2 - x,
            0 <= x < stride,
            0 <= x2 < stride,
    ;
}

/// On a screen whose lines are `stride` pixels apart, the pixel at column `x`
/// (`0 <= x < stride`), line `row` is in the rectangle `xa..xb` by `ya..yb`
/// (which lies within the line width) exactly when its column and line are in
/// those ranges.
pub proof fn lemma_in_rect_position(stride: int, xa: int, xb: int, ya: int, yb: int, x: int, row: int)
    requires
        0 <= xa,
        xb <= stride,
        0 <= x < stride,
    ensures
        in_rect(stride, xa, xb, ya, yb, pixel_index(stride, x, row)) == (xa <= x < xb && ya <= row < yb),
{
    let i = pixel_index(stride, x, row);
    if xa <= x < xb && ya <= row < yb {
        assert(in_span(stride, xa, xb, row, i));
    }
    if in_rect(stride, xa, xb, ya, yb, i) {
        let rw = choose|rw: int| ya <= rw < yb && #[trigger] in_span(stride, xa, xb, rw, i);
        let xw = choose|xw: int| xa <= xw < xb && i == #[trigger] pixel_index(stride, xw, rw);
        lemma_pixel_index_unique(stride, x, row, xw, rw);
    }
}

proof fn lemma_index_fits(stride: int, x: int, row: int)
    requires
        0 <= stride <= usize::MAX,
        0 <= x <= usize::MAX,
        0 <= row <= usize::MAX,
    ensures
        0 <= pixel_index(stride, x, row) < 0x1_0000_0000_0000_0000_0000_0000_0000_0000,
{
    assert(0 <= row * stride <= 0xffff_ffff_ffff_ffff * 0xffff_ffff_ffff_ffffint) by (nonlinear_arith)
        requires
            0 <= stride <= 0xffff_ffff_ffff_ffff,
            0 <= row <= 0xffff_ffff_ffff_ffff,
    ;
}

/// Sets the pixels of the rectangle `xa..xb` by `ya..yb` to `color`; pixels
/// whose index falls past the end of the framebuffer are skipped.
pub fn fill_rect(fb: &mut [u32], stride: usize, xa: usize, xb: usize, ya: usize, yb: usize, color: u32)
    ensures
        painted(old(fb)@, final(fb)@, |i: int| in_rect(stride as int, xa as int, xb as int, ya as int, yb as int, i), color),
{
    let ghost start = fb@;
    let mut row: usize = ya;
    while row < yb
        invariant
            ya <= row,
            row <= yb || row == ya,
            fb@.len() == start.len(),
            forall|i: int| 0 <= i < start.len() ==> #[trigger] fb@[i] == if in_rect(stride as int, xa as int, xb as int, ya as int, row as int, i) {
                color
            } else {
                start[i]
            },
        decreases yb - row,
    {
        let mut x: usize = xa;
        while x < xb
            invariant
                ya <= row < yb,
                xa <= x,
                x <= xb || x == xa,
                fb@.len() == start.len(),
                forall|i: int| 0 <= i < start.len() ==> #[trigger] fb@[i] == if in_rect(stride as int, xa as int, xb as int, ya as int, row as int, i)
                    || in_span(stride as int, xa as int, x as int, row as int, i) {
                    color
                } else {
                    start[i]
                },
            decreases xb - x,
        {
            proof {
                lemma_index_fits(stride as int, x as int, row as int);
            }
            let idx: u128 = row as u128 * stride as u128 + x as u128;
            let ghost before = fb@;
            if idx < fb.len() as u128 {
                fb[idx as usize] = color;
            }
            assert forall|i: int| 0 <= i < start.len() implies #[trigger] fb@[i] == if in_rect(stride as int, xa as int, xb as int, ya as int, row as int, i)
                || in_span(stride as int, xa as int, x + 1, row as int, i) {
                color
            } else {
                start[i]
            } by {
                if i == idx {
                    assert(in_span(stride as int, xa as int, x + 1, row as int, i)) by {
                        assert(i == pixel_index(stride as int, x as int, row as int));
                    }
                } else {
                    assert(fb@[i] == before[i]);
                    if in_span(stride as int, xa as int, x + 1, row as int, i) {
                        let xw = choose|xw: int| xa <= xw < x + 1 && i == #[trigger] pixel_index(stride as int, xw, row as int);
                        assert(xw != x);
                        assert(in_span(stride as int, xa as int, x as int, row as int, i));
                    }
                }
            }
            x = x + 1;
        }
        assert forall|i: int| 0 <= i < start.len() implies #[trigger] fb@[i] == if in_rect(stride as int, xa as int, xb as int, ya as int, row + 1, i) {
            color
        } else {
            start[i]
        } by {
            let c1 = in_rect(stride as int, xa as int, xb as int, ya as int, row as int, i);
            let c2 = in_span(stride as int, xa as int, x as int, row as int, i);
            let c3 = in_rect(stride as int, xa as int, xb as int, ya as int, row + 1, i);
            if c1 {
                let rw = choose|rw: int| ya <= rw < row && #[trigger] in_span(stride as int, xa as int, xb as int, rw, i);
                assert(ya <= rw < row + 1 && in_span(stride as int, xa as int, xb as int, rw, i));
            }
            if c2 {
                let xw = choose|xw: int| xa <= xw < x && i == #[trigger] pixel_index(stride as int, xw, row as int);
                assert(in_span(stride as int, xa as int, xb as int, row as int, i));
            }
            if c3 {
                let rw = choose|rw: int| ya <= rw < row + 1 && #[trigger] in_span(stride as int, xa as int, xb as int, rw, i);
                if rw < row {
                    assert(c1);
                } else {
                    let xw = choose|xw: int| xa <= xw < xb && i == #[trigger] pixel_index(stride as int, xw, row as int);
                    assert(xa <= xw < x);
                    assert(c2);
                }
            }
        }
        row = row + 1;
    }
    assert forall|i: int| 0 <= i < start.len() implies #[trigger] fb@[i] == if in_rect(stride as int, xa as int, xb as int, ya as int, yb as int, i) {
        color
    } else {
        start[i]
    } by {
        if in_rect(stride as int, xa as int, xb as int, ya as int, yb as int, i) {
            let rw = choose|rw: int| ya <= rw < yb && #[trigger] in_span(stride as int, xa as int, xb as int, rw, i);
            assert(ya <= rw < row && in_span(stride as int, xa as int, xb as int, rw, i));
        }
        if in_rect(stride as int, xa as int, xb as int, ya as int, row as int, i) {
            let rw = choose|rw: int| ya <= rw < row && #[trigger] in_span(stride as int, xa as int, xb as int, rw, i);
            assert(ya <= rw < yb && in_span(stride as int, xa as int, xb as int, rw, i));
        }
    }
}

/// Index `i` is a set pixel among columns `0..ncols` of row `r` of a glyph
/// whose top-left pixel is at column `x`, line `y`.
pub open spec fn in_glyph_row(rows: [u8; 8], stride: int, x: int, y: int, r: int, ncols: int, i: int) -> bool {
    exists|c: int| 0 <= c < ncols && glyph_pixel(rows, r, c) && i == #[trigger] pixel_index(stride, x + c, y + r)
}

/// Index `i` is a set pixel among rows `0..nrows` of a glyph whose top-left
/// pixel is at column `x`, line `y`.
pub open spec fn in_glyph(rows: [u8; 8], stride: int, x: int, y: int, nrows: int, i: int) -> bool {
    exists|r: int| 0 <= r < nrows && #[trigger] in_glyph_row(rows, stride, x, y, r, 8, i)
}

/// Index `i` is a pixel that drawing `ch` with its top-left corner at column
/// `x`, line `y` sets: a set bit of its glyph. A character without a glyph
/// sets none.
pub open spec fn char_covers(ch: char, stride: int, x: int, y: int, i: int) -> bool {
    match font_glyph(ch) {
        Some(rows) => in_glyph(rows, stride, x, y, 8, i),
        None => false,
    }
}

/// Positions that `paint_glyph` handles without overflow.
pub open spec fn position_bound() -> int {
    0x1_0000_0000_0000_0000_0000
}

proof fn lemma_glyph_index_fits(stride: int, x: int, y: int, r: int, c: int)
    requires
        0 <= stride <= u32::MAX,
        0 <= x <= position_bound(),
        0 <= y <= position_bound(),
        0 <= r < 8,
        0 <= c < 8,
    ensures
        0 <= pixel_index(stride, x + c, y + r) < 0x1_0000_0000_0000_0000_0000_0000_0000_00,
{
    assert(0 <= (y + r) * stride <= 0x1_0000_0000_0000_0000_0008 * 0xffff_ffffint) by (nonlinear_arith)
        requires
            0 <= stride <= 0xffff_ffff,
            0 <= y + r <= 0x1_0000_0000_0000_0000_0008,
    ;
}

/// Sets to `color` the pixels of the set bits of `rows`, the glyph's top-left
/// pixel at column `x`, line `y`; indices past the end are skipped.
fn paint_glyph(fb: &mut [u32], stride: u32, x: u128, y: u128, color: u32, rows: [u8; 8])
    requires
        x <= position_bound(),
        y <= position_bound(),
    ensures
        painted(old(fb)@, final(fb)@, |i: int| in_glyph(rows, stride as int, x as int, y as int, 8, i), color),
{
    let ghost start = fb@;
    let mut r: usize = 0;
    while r < 8
        invariant
            r <= 8,
            x <= position_bound(),
            y <= position_bound(),
            fb@.len() == start.len(),
            forall|i: int| 0 <= i < start.len() ==> #[trigger] fb@[i] == if in_glyph(rows, stride as int, x as int, y as int, r as int, i) {
                color
            } else {
                start[i]
            },
        decreases 8 - r,
    {
        let mut c: usize = 0;
        while c < 8
            invariant
                r < 8,
                c <= 8,
                x <= position_bound(),
                y <= position_bound(),
                fb@.len() == start.len(),
                forall|i: int| 0 <= i < start.len() ==> #[trigger] fb@[i] == if in_glyph(rows, stride as int, x as int, y as int, r as int, i)
                    || in_glyph_row(rows, stride as int, x as int, y as int, r as int, c as int, i) {
                    color
                } else {
                    start[i]
                },
            decreases 8 - c,
        {
            let ghost before = fb@;
            let shift: u8 = 7 - c as u8;
            let set: bool = (rows[r] >> shift) & 1u8 == 1u8;
            assert(set == glyph_pixel(rows, r as int, c as int));
            if set {
                proof {
                    lemma_glyph_index_fits(stride as int, x as int, y as int, r as int, c as int);
                }
                let idx: u128 = (y + r as u128) * stride as u128 + (x + c as u128);
                if idx < fb.len() as u128 {
                    fb[idx as usize] = color;
                }
            }
            assert forall|i: int| 0 <= i < start.len() implies #[trigger] fb@[i] == if in_glyph(rows, stride as int, x as int, y as int, r as int, i)
                || in_glyph_row(rows, stride as int, x as int, y as int, r as int, c + 1, i) {
                color
            } else {
                start[i]
            } by {
                let here = pixel_index(stride as int, x + c, y + r);
                if set && i == here {
                    assert(in_glyph_row(rows, stride as int, x as int, y as int, r as int, c + 1, i));
                } else {
                    assert(fb@[i] == before[i]);
                    if in_glyph_row(rows, stride as int, x as int, y as int, r as int, c + 1, i) {
                        let cw = choose|cw: int| 0 <= cw < c + 1 && glyph_pixel(rows, r as int, cw) && i == #[trigger] pixel_index(stride as int, x + cw, y + r);
                        assert(cw != c);
                        assert(in_glyph_row(rows, stride as int, x as int, y as int, r as int, c as int, i));
                    }
                }
            }
            c = c + 1;
        }
        assert forall|i: int| 0 <= i < start.len() implies #[trigger] fb@[i] == if in_glyph(rows, stride as int, x as int, y as int, r + 1, i) {
            color
        } else {
            start[i]
        } by {
            let c1 = in_glyph(rows, stride as int, x as int, y as int, r as int, i);
            let c2 = in_glyph_row(rows, stride as int, x as int, y as int, r as int, 8, i);
            if c1 {
                let rw = choose|rw: int| 0 <= rw < r && #[trigger] in_glyph_row(rows, stride as int, x as int, y as int, rw, 8, i);
                assert(0 <= rw < r + 1 && in_glyph_row(rows, stride as int, x as int, y as int, rw, 8, i));
            }
            if c2 {
                assert(0 <= r < r + 1 && in_glyph_row(rows, stride as int, x as int, y as int, r as int, 8, i));
            }
            if in_glyph(rows, stride as int, x as int, y as int, r + 1, i) {
                let rw = choose|rw: int| 0 <= rw < r + 1 && #[trigger] in_glyph_row(rows, stride as int, x as int, y as int, rw, 8, i);
                if rw < r {
                    assert(c1);
                }
            }
        }
        r = r + 1;
    }
}

/// Drawing a character paints, in its 8x8 cell, the pixel of column `c`
/// (0 the leftmost), row `r` (0 the top) exactly when the row's byte has the
/// bit `0x80 >> c` set: the most significant bit of a glyph row is its
/// leftmost pixel. (Lines at least 8 pixels apart keep the cells' pixels
/// apart.)
pub proof fn lemma_char_pixels(ch: char, stride: int, x: int, y: int, r: int, c: int)
    requires
        font_glyph(ch) is Some,
        stride >= 8,
        0 <= r < 8,
        0 <= c < 8,
        0 <= x,
    ensures
        char_covers(ch, stride, x, y, pixel_index(stride, x + c, y + r)) == (font_glyph(ch).unwrap()[r] & (0x80u8 >> (c as u8)) != 0),
{
    let rows = font_glyph(ch).unwrap();
    let i = pixel_index(stride, x + c, y + r);
    crate::font::lemma_glyph_pixel_msb_first(rows, r, c);
    if glyph_pixel(rows, r, c) {
        assert(in_glyph_row(rows, stride, x, y, r, 8, i));
    }
    if char_covers(ch, stride, x, y, i) {
        let rw = choose|rw: int| 0 <= rw < 8 && #[trigger] in_glyph_row(rows, stride, x, y, rw, 8, i);
        let cw = choose|cw: int| 0 <= cw < 8 && glyph_pixel(rows, rw, cw) && i == #[trigger] pixel_index(stride, x + cw, y + rw);
        // both columns lie within one line width of the cell's left edge
        assert(pixel_index(stride, x + c, y + r) == pixel_index(stride, c, y + r) + x);
        assert(pixel_index(stride, x + cw, y + rw) == pixel_index(stride, cw, y + rw) + x);
        lemma_pixel_index_unique(stride, c, y + r, cw, y + rw);
    }
}

/// Draws `ch` in `color` with its top-left pixel at column `x`, line `y`:
/// the set bits of its glyph are painted, the other pixels are left as they
/// were, and a character outside the font draws nothing. Pixels whose index
/// falls past the end of the framebuffer are skipped.
pub fn draw_char(fb: &mut [u32], ppsl: u32, x: usize, y: usize, color: u32, ch: char)
    ensures
        painted(old(fb)@, final(fb)@, |i: int| char_covers(ch, ppsl as int, x as int, y as int, i), color),
{
    match glyph(ch) {
        Some(rows) => paint_glyph(fb, ppsl, x as u128, y as u128, color, rows),
        None => {},
    }
}

/// The cursor after drawing `text` from column `x`, line `y`: a newline takes
/// it back to column `x`, twelve lines down; any other character moves it ten
/// columns right.
pub open spec fn cursor_after(text: Seq<char>, x: int, y: int) -> (int, int)
    decreases text.len(),
{
    if text.len() == 0 {
        (x, y)
    } else {
        let (cx, cy) = cursor_after(text.drop_last(), x, y);
        if text.last() == '\n' {
            (x, cy + 12)
        } else {
            (cx + 10, cy)
        }
    }
}

/// Index `i` is a pixel of the `k`-th character of `text` drawn from column
/// `x`, line `y` (newlines draw nothing).
pub open spec fn char_at_covers(text: Seq<char>, stride: int, x: int, y: int, k: int, i: int) -> bool {
    let pos = cursor_after(text.take(k), x, y);
    text[k] != '\n' && char_covers(text[k], stride, pos.0, pos.1, i)
}

/// Index `i` is a pixel of one of the first `n` characters of `text`.
pub open spec fn text_prefix_covers(text: Seq<char>, stride: int, x: int, y: int, n: int, i: int) -> bool {
    exists|k: int| 0 <= k < n && #[trigger] char_at_covers(text, stride, x, y, k, i)
}

/// Index `i` is a pixel that drawing `text` from column `x`, line `y` sets.
pub open spec fn text_covers(text: Seq<char>, stride: int, x: int, y: int, i: int) -> bool {
    text_prefix_covers(text, stride, x, y, text.len() as int, i)
}

/// The cursor never moves left of column `x` or above line `y`, and moves at
/// most ten columns and twelve lines per character.
pub proof fn lemma_cursor_bounds(text: Seq<char>, x: int, y: int)
    ensures
        x <= cursor_after(text, x, y).0 <= x + 10 * text.len(),
        y <= cursor_after(text, x, y).1 <= y + 12 * text.len(),
    decreases text.len(),
{
    if text.len() > 0 {
        lemma_cursor_bounds(text.drop_last(), x, y);
    }
}

/// On one line the cursor moves ten columns per character, and after a
/// newline it is back at the starting column, twelve lines below the line it
/// was on.
pub proof fn lemma_cursor_layout(text: Seq<char>, x: int, y: int)
    ensures
        (forall|k: int| 0 <= k < text.len() ==> #[trigger] text[k] != '\n') ==> cursor_after(text, x, y)
            == (x + 10 * text.len(), y),
        text.len() > 0 && text.last() == '\n' ==> cursor_after(text, x, y) == (x, cursor_after(
            text.drop_last(),
            x,
            y,
        ).1 + 12),
    decreases text.len(),
{
    if text.len() > 0 {
        lemma_cursor_layout(text.drop_last(), x, y);
        if forall|k: int| 0 <= k < text.len() ==> #[trigger] text[k] != '\n' {
            assert forall|k: int| 0 <= k < text.drop_last().len() implies #[trigger] text.drop_last()[k] != '\n' by {
                assert(text.drop_last()[k] == text[k]);
            }
            assert(text.last() == text[text.len() - 1]);
        }
    }
}

/// Drawing continues where the cursor stands: the cursor after `pre + rest`
/// is the cursor after `rest` started at the cursor after `pre`, provided
/// that `pre` leaves the cursor at the starting column.
proof fn lemma_cursor_concat(pre: Seq<char>, rest: Seq<char>, x: int, y: int)
    requires
        cursor_after(pre, x, y).0 == x,
    ensures
        cursor_after(pre + rest, x, y) == cursor_after(rest, x, cursor_after(pre, x, y).1),
    decreases rest.len(),
{
    if rest.len() == 0 {
        assert(pre + rest =~= pre);
    } else {
        lemma_cursor_concat(pre, rest.drop_last(), x, y);
        assert((pre + rest).drop_last() =~= pre + rest.drop_last());
        assert((pre + rest).last() == rest.last());
    }
}

/// Drawing a line, a newline and then more text paints what drawing the line
/// paints and what drawing the rest twelve lines lower paints, and nothing
/// else.
pub proof fn lemma_text_split_at_newline(line: Seq<char>, rest: Seq<char>, stride: int, x: int, y: int, i: int)
    requires
        forall|k: int| 0 <= k < line.len() ==> #[trigger] line[k] != '\n',
    ensures
        text_covers(line.push('\n') + rest, stride, x, y, i) == (text_covers(line, stride, x, y, i)
            || text_covers(rest, stride, x, y + 12, i)),
{
    let pre = line.push('\n');
    let u = pre + rest;
    let n = line.len() as int;
    lemma_cursor_layout(line, x, y);
    assert(pre.drop_last() =~= line);
    assert(cursor_after(pre, x, y) == (x, y + 12));
    // characters of the line keep their place
    assert forall|k: int| 0 <= k < n implies #[trigger] char_at_covers(u, stride, x, y, k, i) == char_at_covers(line, stride, x, y, k, i) by {
        assert(u.take(k) =~= line.take(k));
        assert(u[k] == line[k]);
    }
    // characters of the rest are drawn from twelve lines lower
    assert forall|j: int| 0 <= j < rest.len() implies #[trigger] char_at_covers(u, stride, x, y, n + 1 + j, i) == char_at_covers(rest, stride, x, y + 12, j, i) by {
        assert(u.take(n + 1 + j) =~= pre + rest.take(j));
        lemma_cursor_concat(pre, rest.take(j), x, y);
        assert(u[n + 1 + j] == rest[j]);
    }
    assert(!char_at_covers(u, stride, x, y, n, i)) by {
        assert(u[n] == '\n');
    }
    if text_covers(u, stride, x, y, i) {
        let k = choose|k: int| 0 <= k < u.len() && #[trigger] char_at_covers(u, stride, x, y, k, i);
        if k < n {
            assert(char_at_covers(line, stride, x, y, k, i));
            assert(text_covers(line, stride, x, y, i));
        } else {
            let j = k - n - 1;
            assert(char_at_covers(u, stride, x, y, n + 1 + j, i));
            assert(char_at_covers(rest, stride, x, y + 12, j, i));
            assert(text_covers(rest, stride, x, y + 12, i));
        }
    }
    if text_covers(line, stride, x, y, i) {
        let k = choose|k: int| 0 <= k < n && #[trigger] char_at_covers(line, stride, x, y, k, i);
        assert(char_at_covers(u, stride, x, y, k, i));
        assert(text_covers(u, stride, x, y, i));
    }
    if text_covers(rest, stride, x, y + 12, i) {
        let j = choose|j: int| 0 <= j < rest.len() && #[trigger] char_at_covers(rest, stride, x, y + 12, j, i);
        assert(char_at_covers(u, stride, x, y, n + 1 + j, i));
        assert(text_covers(u, stride, x, y, i));
    }
}

/// A line of text (no newline) is drawn character by character, each with its
/// own glyph, the `k`-th with its top-left pixel ten columns per character to
/// the right: exactly the pixels that `draw_char` paints for `text[k]` at
/// column `x + 10 * k`, line `y`. In particular a one-character text paints
/// what `draw_char` paints for that character.
pub proof fn lemma_text_line_is_chars(text: Seq<char>, stride: int, x: int, y: int, i: int)
    requires
        forall|k: int| 0 <= k < text.len() ==> #[trigger] text[k] != '\n',
    ensures
        text_covers(text, stride, x, y, i) == exists|k: int| 0 <= k < text.len() && #[trigger] char_covers(text[k], stride, x + 10 * k, y, i),
        text.len() == 1 ==> text_covers(text, stride, x, y, i) == char_covers(text[0], stride, x, y, i),
{
    assert forall|k: int| 0 <= k < text.len() implies #[trigger] char_at_covers(text, stride, x, y, k, i) == char_covers(text[k], stride, x + 10 * k, y, i) by {
        let pre = text.take(k);
        assert forall|j: int| 0 <= j < pre.len() implies #[trigger] pre[j] != '\n' by {
            assert(pre[j] == text[j]);
        }
        lemma_cursor_layout(pre, x, y);
    }
    if text_covers(text, stride, x, y, i) {
        let k = choose|k: int| 0 <= k < text.len() && #[trigger] char_at_covers(text, stride, x, y, k, i);
        assert(char_covers(text[k], stride, x + 10 * k, y, i));
    }
    if exists|k: int| 0 <= k < text.len() && #[trigger] char_covers(text[k], stride, x + 10 * k, y, i) {
        let k = choose|k: int| 0 <= k < text.len() && #[trigger] char_covers(text[k], stride, x + 10 * k, y, i);
        assert(char_at_covers(text, stride, x, y, k, i));
    }
    if text.len() == 1 {
        if char_covers(text[0], stride, x, y, i) {
            assert(char_covers(text[0], stride, x + 10 * 0, y, i));
        }
    }
}

/// Draws `text` in `color` from column `x`, line `y`, one glyph per character
/// with the cursor moving as `cursor_after` says. Only the pixels of the
/// glyphs change; pixels whose index falls past the end of the framebuffer
/// are skipped.
pub fn draw_text(fb: &mut [u32], ppsl: u32, x: usize, y: usize, color: u32, text: &str)
    ensures
        painted(old(fb)@, final(fb)@, |i: int| text_covers(text@, ppsl as int, x as int, y as int, i), color),
{
    broadcast use vstd::string::group_string_axioms;
    let ghost start = fb@;
    let ghost t = text@;
    let count: usize = text.unicode_len();
    let mut cursor_x: u128 = x as u128;
    let mut cursor_y: u128 = y as u128;
    let mut k: usize = 0;
    for ch in it: text.chars()
        invariant
            it.seq() == t,
            t.len() == count,
            k == it.index(),
            k <= count,
            (cursor_x as int, cursor_y as int) == cursor_after(t.take(k as int), x as int, y as int),
            fb@.len() == start.len(),
            forall|i: int| 0 <= i < start.len() ==> #[trigger] fb@[i] == if text_prefix_covers(t, ppsl as int, x as int, y as int, k as int, i) {
                color
            } else {
                start[i]
            },
    {
        let ghost before = fb@;
        proof {
            lemma_cursor_bounds(t.take(k as int), x as int, y as int);
            assert(t.take(k + 1).drop_last() =~= t.take(k as int));
            assert(t.take(k + 1).last() == ch);
        }
        if ch == '\n' {
            cursor_x = x as u128;
            cursor_y = cursor_y + 12;
        } else {
            match glyph(ch) {
                Some(rows) => paint_glyph(fb, ppsl, cursor_x, cursor_y, color, rows),
                None => {},
            }
            cursor_x = cursor_x + 10;
        }
        assert forall|i: int| 0 <= i < start.len() implies #[trigger] fb@[i] == if text_prefix_covers(t, ppsl as int, x as int, y as int, k + 1, i) {
            color
        } else {
            start[i]
        } by {
            let here = char_at_covers(t, ppsl as int, x as int, y as int, k as int, i);
            if text_prefix_covers(t, ppsl as int, x as int, y as int, k + 1, i) {
                let kw = choose|kw: int| 0 <= kw < k + 1 && #[trigger] char_at_covers(t, ppsl as int, x as int, y as int, kw, i);
                if kw < k {
                    assert(text_prefix_covers(t, ppsl as int, x as int, y as int, k as int, i));
                }
            }
            if here {
                assert(text_prefix_covers(t, ppsl as int, x as int, y as int, k + 1, i));
            }
            if text_prefix_covers(t, ppsl as int, x as int, y as int, k as int, i) {
                let kw = choose|kw: int| 0 <= kw < k && #[trigger] char_at_covers(t, ppsl as int, x as int, y as int, kw, i);
                assert(0 <= kw < k + 1 && char_at_covers(t, ppsl as int, x as int, y as int, kw, i));
            }
        }
        k = k + 1;
    }
    assert(t.take(count as int) =~= t);
}

} // verus!
