//! A self-contained 5x7 bitmap font in 8x8 cells, enough for button labels, the command
//! log and the subject's state overlay.
//!
//! Each glyph is 8 bytes, one per row, top first. The 5 used columns are the high bits:
//! bit 7 is the leftmost column, bit 3 the fifth. So a row `0b01110_000` reads ` ### `.

use vstd::prelude::*;

use crate::canvas::{Canvas, fits, lemma_paint_nothing, lemma_paint_same, lemma_paint_union, painted, rect_shape};
use crate::text::chars_of;

verus! {

/// Glyph width in pixels.
pub const W: i32 = 5;
/// Per-character advance: the glyph and a 1px gap.
pub const ADV: i32 = 6;

/// Pixel width of text of `n` characters at `scale`.
pub open spec fn text_width_spec(n: int, scale: int) -> int {
    n * 6 * scale
}

/// Pixel width of `s` rendered at `scale`.
pub fn text_width(s: &str, scale: i32) -> (r: i32)
    requires
        fits(s@.len() as int * 6),
        fits(s@.len() as int * 6 * scale),
    ensures
        r == text_width_spec(s@.len() as int, scale as int),
{
    let n = chars_of(s).len() as i32;
    n * ADV * scale
}

/// Line height at `scale`.
pub fn line_height(scale: i32) -> (r: i32)
    requires
        fits(8 * scale),
    ensures
        r == 8 * scale,
{
    8 * scale
}

/// An ASCII letter in upper case; any other character as it is.
pub open spec fn ascii_upper(c: char) -> char {
    if 'a' <= c && c <= 'z' {
        (((c as u32) - 32) as u8) as char
    } else {
        c
    }
}

/// Upper-cases an ASCII letter.
fn to_ascii_upper(c: char) -> (r: char)
    ensures
        r == ascii_upper(c),
{
    if 'a' <= c && c <= 'z' {
        (((c as u32) - 32) as u8) as char
    } else {
        c
    }
}

/// The 8 rows of the glyph for an (upper-cased) character; an outline box for a
/// character the font lacks.
pub open spec fn glyph_rows(c: char) -> Seq<u8> {
    match c {
        ' ' => seq![0, 0, 0, 0, 0, 0, 0, 0],
        'A' => seq![0b01110000, 0b10001000, 0b10001000, 0b11111000, 0b10001000, 0b10001000, 0b10001000, 0],
        'B' => seq![0b11110000, 0b10001000, 0b10001000, 0b11110000, 0b10001000, 0b10001000, 0b11110000, 0],
        'C' => seq![0b01110000, 0b10001000, 0b10000000, 0b10000000, 0b10000000, 0b10001000, 0b01110000, 0],
        'D' => seq![0b11110000, 0b10001000, 0b10001000, 0b10001000, 0b10001000, 0b10001000, 0b11110000, 0],
        'E' => seq![0b11111000, 0b10000000, 0b10000000, 0b11110000, 0b10000000, 0b10000000, 0b11111000, 0],
        'F' => seq![0b11111000, 0b10000000, 0b10000000, 0b11110000, 0b10000000, 0b10000000, 0b10000000, 0],
        'G' => seq![0b01110000, 0b10001000, 0b10000000, 0b10111000, 0b10001000, 0b10001000, 0b01110000, 0],
        'H' => seq![0b10001000, 0b10001000, 0b10001000, 0b11111000, 0b10001000, 0b10001000, 0b10001000, 0],
        'I' => seq![0b11111000, 0b00100000, 0b00100000, 0b00100000, 0b00100000, 0b00100000, 0b11111000, 0],
        'J' => seq![0b00111000, 0b00010000, 0b00010000, 0b00010000, 0b00010000, 0b10010000, 0b01100000, 0],
        'K' => seq![0b10001000, 0b10010000, 0b10100000, 0b11000000, 0b10100000, 0b10010000, 0b10001000, 0],
        'L' => seq![0b10000000, 0b10000000, 0b10000000, 0b10000000, 0b10000000, 0b10000000, 0b11111000, 0],
        'M' => seq![0b10001000, 0b11011000, 0b10101000, 0b10101000, 0b10001000, 0b10001000, 0b10001000, 0],
        'N' => seq![0b10001000, 0b10001000, 0b11001000, 0b10101000, 0b10011000, 0b10001000, 0b10001000, 0],
        'O' => seq![0b01110000, 0b10001000, 0b10001000, 0b10001000, 0b10001000, 0b10001000, 0b01110000, 0],
        'P' => seq![0b11110000, 0b10001000, 0b10001000, 0b11110000, 0b10000000, 0b10000000, 0b10000000, 0],
        'Q' => seq![0b01110000, 0b10001000, 0b10001000, 0b10001000, 0b10101000, 0b10010000, 0b01101000, 0],
        'R' => seq![0b11110000, 0b10001000, 0b10001000, 0b11110000, 0b10100000, 0b10010000, 0b10001000, 0],
        'S' => seq![0b01111000, 0b10000000, 0b10000000, 0b01110000, 0b00001000, 0b00001000, 0b11110000, 0],
        'T' => seq![0b11111000, 0b00100000, 0b00100000, 0b00100000, 0b00100000, 0b00100000, 0b00100000, 0],
        'U' => seq![0b10001000, 0b10001000, 0b10001000, 0b10001000, 0b10001000, 0b10001000, 0b01110000, 0],
        'V' => seq![0b10001000, 0b10001000, 0b10001000, 0b10001000, 0b10001000, 0b01010000, 0b00100000, 0],
        'W' => seq![0b10001000, 0b10001000, 0b10001000, 0b10101000, 0b10101000, 0b11011000, 0b10001000, 0],
        'X' => seq![0b10001000, 0b10001000, 0b01010000, 0b00100000, 0b01010000, 0b10001000, 0b10001000, 0],
        'Y' => seq![0b10001000, 0b10001000, 0b01010000, 0b00100000, 0b00100000, 0b00100000, 0b00100000, 0],
        'Z' => seq![0b11111000, 0b00001000, 0b00010000, 0b00100000, 0b01000000, 0b10000000, 0b11111000, 0],
        '0' => seq![0b01110000, 0b10001000, 0b10011000, 0b10101000, 0b11001000, 0b10001000, 0b01110000, 0],
        '1' => seq![0b00100000, 0b01100000, 0b00100000, 0b00100000, 0b00100000, 0b00100000, 0b01110000, 0],
        '2' => seq![0b01110000, 0b10001000, 0b00001000, 0b00010000, 0b00100000, 0b01000000, 0b11111000, 0],
        '3' => seq![0b11111000, 0b00010000, 0b00100000, 0b00010000, 0b00001000, 0b10001000, 0b01110000, 0],
        '4' => seq![0b00010000, 0b00110000, 0b01010000, 0b10010000, 0b11111000, 0b00010000, 0b00010000, 0],
        '5' => seq![0b11111000, 0b10000000, 0b11110000, 0b00001000, 0b00001000, 0b10001000, 0b01110000, 0],
        '6' => seq![0b00110000, 0b01000000, 0b10000000, 0b11110000, 0b10001000, 0b10001000, 0b01110000, 0],
        '7' => seq![0b11111000, 0b00001000, 0b00010000, 0b00100000, 0b01000000, 0b01000000, 0b01000000, 0],
        '8' => seq![0b01110000, 0b10001000, 0b10001000, 0b01110000, 0b10001000, 0b10001000, 0b01110000, 0],
        '9' => seq![0b01110000, 0b10001000, 0b10001000, 0b01111000, 0b00001000, 0b00010000, 0b01100000, 0],
        ':' => seq![0, 0b00100000, 0b00100000, 0, 0b00100000, 0b00100000, 0, 0],
        '+' => seq![0, 0b00100000, 0b00100000, 0b11111000, 0b00100000, 0b00100000, 0, 0],
        '-' => seq![0, 0, 0, 0b11111000, 0, 0, 0, 0],
        '=' => seq![0, 0, 0b11111000, 0, 0b11111000, 0, 0, 0],
        ',' => seq![0, 0, 0, 0, 0, 0b00100000, 0b00100000, 0b01000000],
        '.' => seq![0, 0, 0, 0, 0, 0b00100000, 0b00100000, 0],
        '/' => seq![0b00001000, 0b00001000, 0b00010000, 0b00100000, 0b01000000, 0b10000000, 0b10000000, 0],
        '(' => seq![0b00010000, 0b00100000, 0b01000000, 0b01000000, 0b01000000, 0b00100000, 0b00010000, 0],
        ')' => seq![0b01000000, 0b00100000, 0b00010000, 0b00010000, 0b00010000, 0b00100000, 0b01000000, 0],
        '%' => seq![0b11001000, 0b11010000, 0b00100000, 0b01011000, 0b10011000, 0, 0, 0],
        '>' => seq![0b10000000, 0b01000000, 0b00100000, 0b01000000, 0b10000000, 0, 0, 0],
        '<' => seq![0b00010000, 0b00100000, 0b01000000, 0b00100000, 0b00010000, 0, 0, 0],
        '#' => seq![0b01010000, 0b01010000, 0b11111000, 0b01010000, 0b11111000, 0b01010000, 0b01010000, 0],
        '!' => seq![0b00100000, 0b00100000, 0b00100000, 0b00100000, 0b00100000, 0, 0b00100000, 0],
        '?' => seq![0b01110000, 0b10001000, 0b00010000, 0b00100000, 0b00100000, 0, 0b00100000, 0],
        '*' => seq![0, 0b00100000, 0b10101000, 0b01110000, 0b10101000, 0b00100000, 0, 0],
        '_' => seq![0, 0, 0, 0, 0, 0, 0, 0b11111000],
        _ => seq![0b11111000, 0b10001000, 0b10001000, 0b10001000, 0b10001000, 0b10001000, 0b11111000, 0],
    }
}

/// Looks up a glyph, upper-casing letters and falling back to the outline box.
pub fn glyph(ch: char) -> (r: [u8; 8])
    ensures
        r@ == glyph_rows(ascii_upper(ch)),
{
    let c = to_ascii_upper(ch);
    let g: [u8; 8] = match c {
        ' ' => [0, 0, 0, 0, 0, 0, 0, 0],
        'A' => [0b01110000, 0b10001000, 0b10001000, 0b11111000, 0b10001000, 0b10001000, 0b10001000, 0],
        'B' => [0b11110000, 0b10001000, 0b10001000, 0b11110000, 0b10001000, 0b10001000, 0b11110000, 0],
        'C' => [0b01110000, 0b10001000, 0b10000000, 0b10000000, 0b10000000, 0b10001000, 0b01110000, 0],
        'D' => [0b11110000, 0b10001000, 0b10001000, 0b10001000, 0b10001000, 0b10001000, 0b11110000, 0],
        'E' => [0b11111000, 0b10000000, 0b10000000, 0b11110000, 0b10000000, 0b10000000, 0b11111000, 0],
        'F' => [0b11111000, 0b10000000, 0b10000000, 0b11110000, 0b10000000, 0b10000000, 0b10000000, 0],
        'G' => [0b01110000, 0b10001000, 0b10000000, 0b10111000, 0b10001000, 0b10001000, 0b01110000, 0],
        'H' => [0b10001000, 0b10001000, 0b10001000, 0b11111000, 0b10001000, 0b10001000, 0b10001000, 0],
        'I' => [0b11111000, 0b00100000, 0b00100000, 0b00100000, 0b00100000, 0b00100000, 0b11111000, 0],
        'J' => [0b00111000, 0b00010000, 0b00010000, 0b00010000, 0b00010000, 0b10010000, 0b01100000, 0],
        'K' => [0b10001000, 0b10010000, 0b10100000, 0b11000000, 0b10100000, 0b10010000, 0b10001000, 0],
        'L' => [0b10000000, 0b10000000, 0b10000000, 0b10000000, 0b10000000, 0b10000000, 0b11111000, 0],
        'M' => [0b10001000, 0b11011000, 0b10101000, 0b10101000, 0b10001000, 0b10001000, 0b10001000, 0],
        'N' => [0b10001000, 0b10001000, 0b11001000, 0b10101000, 0b10011000, 0b10001000, 0b10001000, 0],
        'O' => [0b01110000, 0b10001000, 0b10001000, 0b10001000, 0b10001000, 0b10001000, 0b01110000, 0],
        'P' => [0b11110000, 0b10001000, 0b10001000, 0b11110000, 0b10000000, 0b10000000, 0b10000000, 0],
        'Q' => [0b01110000, 0b10001000, 0b10001000, 0b10001000, 0b10101000, 0b10010000, 0b01101000, 0],
        'R' => [0b11110000, 0b10001000, 0b10001000, 0b11110000, 0b10100000, 0b10010000, 0b10001000, 0],
        'S' => [0b01111000, 0b10000000, 0b10000000, 0b01110000, 0b00001000, 0b00001000, 0b11110000, 0],
        'T' => [0b11111000, 0b00100000, 0b00100000, 0b00100000, 0b00100000, 0b00100000, 0b00100000, 0],
        'U' => [0b10001000, 0b10001000, 0b10001000, 0b10001000, 0b10001000, 0b10001000, 0b01110000, 0],
        'V' => [0b10001000, 0b10001000, 0b10001000, 0b10001000, 0b10001000, 0b01010000, 0b00100000, 0],
        'W' => [0b10001000, 0b10001000, 0b10001000, 0b10101000, 0b10101000, 0b11011000, 0b10001000, 0],
        'X' => [0b10001000, 0b10001000, 0b01010000, 0b00100000, 0b01010000, 0b10001000, 0b10001000, 0],
        'Y' => [0b10001000, 0b10001000, 0b01010000, 0b00100000, 0b00100000, 0b00100000, 0b00100000, 0],
        'Z' => [0b11111000, 0b00001000, 0b00010000, 0b00100000, 0b01000000, 0b10000000, 0b11111000, 0],
        '0' => [0b01110000, 0b10001000, 0b10011000, 0b10101000, 0b11001000, 0b10001000, 0b01110000, 0],
        '1' => [0b00100000, 0b01100000, 0b00100000, 0b00100000, 0b00100000, 0b00100000, 0b01110000, 0],
        '2' => [0b01110000, 0b10001000, 0b00001000, 0b00010000, 0b00100000, 0b01000000, 0b11111000, 0],
        '3' => [0b11111000, 0b00010000, 0b00100000, 0b00010000, 0b00001000, 0b10001000, 0b01110000, 0],
        '4' => [0b00010000, 0b00110000, 0b01010000, 0b10010000, 0b11111000, 0b00010000, 0b00010000, 0],
        '5' => [0b11111000, 0b10000000, 0b11110000, 0b00001000, 0b00001000, 0b10001000, 0b01110000, 0],
        '6' => [0b00110000, 0b01000000, 0b10000000, 0b11110000, 0b10001000, 0b10001000, 0b01110000, 0],
        '7' => [0b11111000, 0b00001000, 0b00010000, 0b00100000, 0b01000000, 0b01000000, 0b01000000, 0],
        '8' => [0b01110000, 0b10001000, 0b10001000, 0b01110000, 0b10001000, 0b10001000, 0b01110000, 0],
        '9' => [0b01110000, 0b10001000, 0b10001000, 0b01111000, 0b00001000, 0b00010000, 0b01100000, 0],
        ':' => [0, 0b00100000, 0b00100000, 0, 0b00100000, 0b00100000, 0, 0],
        '+' => [0, 0b00100000, 0b00100000, 0b11111000, 0b00100000, 0b00100000, 0, 0],
        '-' => [0, 0, 0, 0b11111000, 0, 0, 0, 0],
        '=' => [0, 0, 0b11111000, 0, 0b11111000, 0, 0, 0],
        ',' => [0, 0, 0, 0, 0, 0b00100000, 0b00100000, 0b01000000],
        '.' => [0, 0, 0, 0, 0, 0b00100000, 0b00100000, 0],
        '/' => [0b00001000, 0b00001000, 0b00010000, 0b00100000, 0b01000000, 0b10000000, 0b10000000, 0],
        '(' => [0b00010000, 0b00100000, 0b01000000, 0b01000000, 0b01000000, 0b00100000, 0b00010000, 0],
        ')' => [0b01000000, 0b00100000, 0b00010000, 0b00010000, 0b00010000, 0b00100000, 0b01000000, 0],
        '%' => [0b11001000, 0b11010000, 0b00100000, 0b01011000, 0b10011000, 0, 0, 0],
        '>' => [0b10000000, 0b01000000, 0b00100000, 0b01000000, 0b10000000, 0, 0, 0],
        '<' => [0b00010000, 0b00100000, 0b01000000, 0b00100000, 0b00010000, 0, 0, 0],
        '#' => [0b01010000, 0b01010000, 0b11111000, 0b01010000, 0b11111000, 0b01010000, 0b01010000, 0],
        '!' => [0b00100000, 0b00100000, 0b00100000, 0b00100000, 0b00100000, 0, 0b00100000, 0],
        '?' => [0b01110000, 0b10001000, 0b00010000, 0b00100000, 0b00100000, 0, 0b00100000, 0],
        '*' => [0, 0b00100000, 0b10101000, 0b01110000, 0b10101000, 0b00100000, 0, 0],
        '_' => [0, 0, 0, 0, 0, 0, 0, 0b11111000],
        _ => [0b11111000, 0b10001000, 0b10001000, 0b10001000, 0b10001000, 0b10001000, 0b11111000, 0],
    };
    proof {
        assert(g@ =~= glyph_rows(c));
    }
    g
}

/// Whether column `col` of row `ry` of the glyph of character `i` of `s` is inked.
pub open spec fn cell_lit(s: Seq<char>, i: int, ry: int, col: int) -> bool {
    (glyph_rows(ascii_upper(s[i]))[ry] >> ((7 - col) as u32)) & 1 == 1
}

/// The `scale` × `scale` block that draws one font pixel.
pub open spec fn cell_block(x: int, y: int, scale: int, i: int, ry: int, col: int) -> spec_fn(
    int,
    int,
) -> bool {
    rect_shape(x + 6 * scale * i + col * scale, y + ry * scale, scale, scale)
}

/// The blocks of the inked font pixels among the first `k` cells, taken character by
/// character, row by row, column by column (8 rows of 5 columns per character).
pub open spec fn text_cells(s: Seq<char>, x: int, y: int, scale: int, k: int) -> spec_fn(
    int,
    int,
) -> bool {
    |px: int, py: int|
        exists|i: int, ry: int, col: int|
            0 <= i < s.len() && 0 <= ry < 8 && 0 <= col < 5 && i * 40 + ry * 5 + col < k
                && cell_lit(s, i, ry, col) && #[trigger] cell_block(x, y, scale, i, ry, col)(px, py)
}

/// The pixels of `s` drawn at top-left (`x`, `y`), each font pixel a `scale` × `scale`
/// block.
pub open spec fn text_shape(s: Seq<char>, x: int, y: int, scale: int) -> spec_fn(int, int) -> bool {
    text_cells(s, x, y, scale, s.len() as int * 40)
}

/// One more cell adds its block exactly when it is inked.
proof fn lemma_text_step(s: Seq<char>, x: int, y: int, scale: int, i: int, ry: int, col: int)
    requires
        0 <= i < s.len(),
        0 <= ry < 8,
        0 <= col < 5,
    ensures
        forall|px: int, py: int|
            #[trigger] text_cells(s, x, y, scale, i * 40 + ry * 5 + col + 1)(px, py) == (text_cells(
                s,
                x,
                y,
                scale,
                i * 40 + ry * 5 + col,
            )(px, py) || (cell_lit(s, i, ry, col) && cell_block(x, y, scale, i, ry, col)(px, py))),
{
    let k = i * 40 + ry * 5 + col;
    assert forall|px: int, py: int|
        #[trigger] text_cells(s, x, y, scale, k + 1)(px, py) == (text_cells(s, x, y, scale, k)(
            px,
            py,
        ) || (cell_lit(s, i, ry, col) && cell_block(x, y, scale, i, ry, col)(px, py))) by {
        if text_cells(s, x, y, scale, k + 1)(px, py) {
            let (a, b, c) = choose|a: int, b: int, c: int|
                0 <= a < s.len() && 0 <= b < 8 && 0 <= c < 5 && a * 40 + b * 5 + c < k + 1
                    && cell_lit(s, a, b, c) && #[trigger] cell_block(x, y, scale, a, b, c)(px, py);
            if a * 40 + b * 5 + c == k {
                lemma_cell_unique(a, b, c, i, ry, col);
            }
        }
        if cell_lit(s, i, ry, col) && cell_block(x, y, scale, i, ry, col)(px, py) {
            assert(0 <= i < s.len() && 0 <= ry < 8 && 0 <= col < 5 && i * 40 + ry * 5 + col < k + 1
                && cell_lit(s, i, ry, col) && cell_block(x, y, scale, i, ry, col)(px, py));
        }
    }
}

/// A cell number names one character, row and column.
proof fn lemma_cell_unique(a: int, b: int, c: int, i: int, ry: int, col: int)
    requires
        0 <= b < 8,
        0 <= c < 5,
        0 <= ry < 8,
        0 <= col < 5,
        a * 40 + b * 5 + c == i * 40 + ry * 5 + col,
    ensures
        a == i && b == ry && c == col,
{
    assert(a == i) by (nonlinear_arith)
        requires
            0 <= b * 5 + c < 40,
            0 <= ry * 5 + col < 40,
            a * 40 + b * 5 + c == i * 40 + ry * 5 + col,
    ;
    assert(b == ry) by (nonlinear_arith)
        requires
            0 <= c < 5,
            0 <= col < 5,
            b * 5 + c == ry * 5 + col,
    ;
}

/// Draws `s` at top-left (`x`, `y`) in `argb`, each font pixel a `scale` × `scale` block.
pub fn text(c: &mut Canvas, x: i32, y: i32, scale: i32, argb: u32, s: &str)
    requires
        old(c).wf(),
        0 <= scale,
        6 * scale * (s@.len() + 1) <= i32::MAX,
        fits(x + 6 * scale * (s@.len() + 1)),
        fits(8 * scale),
        fits(y + 8 * scale),
    ensures
        painted(*old(c), *final(c), text_shape(s@, x as int, y as int, scale as int), argb),
{
    let chars = chars_of(s);
    let ghost sv = s@;
    let ghost start = *c;
    let n = chars.len();
    let mut cx = x;
    let mut i: usize = 0;
    let ghost (xi, yi, si) = (x as int, y as int, scale as int);
    proof {
        assert forall|px: int, py: int| !(#[trigger] text_cells(sv, xi, yi, si, 0)(px, py)) by {
            if text_cells(sv, xi, yi, si, 0)(px, py) {
                let (a, b, cc) = choose|a: int, b: int, cc: int|
                    0 <= a < sv.len() && 0 <= b < 8 && 0 <= cc < 5 && a * 40 + b * 5 + cc < 0
                        && cell_lit(sv, a, b, cc) && #[trigger] cell_block(xi, yi, si, a, b, cc)(px, py);
                assert(a * 40 >= 0) by (nonlinear_arith)
                    requires
                        a >= 0,
                ;
            }
        }
        lemma_paint_nothing(start, text_cells(sv, xi, yi, si, 0), argb);
    }
    while i < n
        invariant
            c.wf(),
            chars@ == sv,
            sv == s@,
            xi == x && yi == y && si == scale,
            n == sv.len(),
            i <= n,
            0 <= scale,
            6 * scale * (n + 1) <= i32::MAX,
            fits(x + 6 * scale * (n + 1)),
            fits(8 * scale),
            fits(y + 8 * scale),
            cx == x + 6 * scale * i,
            painted(start, *c, text_cells(sv, xi, yi, si, i * 40), argb),
        decreases n - i,
    {
        let g = glyph(chars[i]);
        proof {
            assert(0 <= 6 * scale * i <= 6 * scale * n) by (nonlinear_arith)
                requires
                    0 <= scale,
                    i <= n,
            ;
        }
        let mut ry: usize = 0;
        while ry < 8
            invariant
                c.wf(),
                chars@ == sv,
                xi == x && yi == y && si == scale,
                n == sv.len(),
                i < n,
                ry <= 8,
                g@ == glyph_rows(ascii_upper(sv[i as int])),
                0 <= scale,
                6 * scale * (n + 1) <= i32::MAX,
                fits(x + 6 * scale * (n + 1)),
                fits(8 * scale),
                fits(y + 8 * scale),
                0 <= 6 * scale * i <= 6 * scale * n,
                cx == x + 6 * scale * i,
                painted(start, *c, text_cells(sv, xi, yi, si, i * 40 + ry * 5), argb),
            decreases 8 - ry,
        {
            let row = g[ry];
            let mut col: u32 = 0;
            while col < 5
                invariant
                    c.wf(),
                    chars@ == sv,
                    xi == x && yi == y && si == scale,
                    n == sv.len(),
                    i < n,
                    ry < 8,
                    col <= 5,
                    row == glyph_rows(ascii_upper(sv[i as int]))[ry as int],
                    0 <= scale,
                    6 * scale * (n + 1) <= i32::MAX,
                    fits(x + 6 * scale * (n + 1)),
                    fits(8 * scale),
                    fits(y + 8 * scale),
                    0 <= 6 * scale * i <= 6 * scale * n,
                    cx == x + 6 * scale * i,
                    painted(start, *c, text_cells(sv, xi, yi, si, i * 40 + ry * 5 + col), argb),
                decreases 5 - col,
            {
                proof {
                    lemma_text_step(sv, xi, yi, si, i as int, ry as int, col as int);
                    assert(0 <= col * scale <= 4 * scale && 0 <= ry * scale <= 7 * scale) by (
                    nonlinear_arith)
                        requires
                            0 <= scale,
                            col < 5,
                            ry < 8,
                    ;
                    assert(6 * scale * n + 5 * scale <= 6 * scale * (n + 1)) by (nonlinear_arith)
                        requires
                            0 <= scale,
                    ;
                }
                let ghost before = *c;
                if (row >> (7 - col)) & 1 == 1 {
                    let bx = cx + (col as i32) * scale;
                    let by = y + (ry as i32) * scale;
                    c.rect(bx, by, scale, scale, argb);
                    proof {
                        assert(((7 - col) as u32) == 7 - col);
                        assert(cell_lit(sv, i as int, ry as int, col as int));
                        assert(rect_shape(bx as int, by as int, scale as int, scale as int)
                            == cell_block(xi, yi, si, i as int, ry as int, col as int));
                        lemma_paint_union(
                            start,
                            before,
                            *c,
                            text_cells(sv, xi, yi, si, i * 40 + ry * 5 + col),
                            rect_shape(bx as int, by as int, scale as int, scale as int),
                            text_cells(sv, xi, yi, si, i * 40 + ry * 5 + col + 1),
                            argb,
                        );
                    }
                } else {
                    proof {
                        lemma_paint_same(
                            start,
                            *c,
                            text_cells(sv, xi, yi, si, i * 40 + ry * 5 + col),
                            text_cells(sv, xi, yi, si, i * 40 + ry * 5 + col + 1),
                            argb,
                        );
                    }
                }
                col += 1;
            }
            ry += 1;
        }
        proof {
            assert(6 * scale * (i + 1) == 6 * scale * i + 6 * scale) by (nonlinear_arith);
            assert(6 * scale * (i + 1) <= 6 * scale * n) by (nonlinear_arith)
                requires
                    0 <= scale,
                    i < n,
            ;
            assert(0 <= 6 * scale <= 6 * scale * (n + 1)) by (nonlinear_arith)
                requires
                    0 <= scale,
            ;
            assert(x + 6 * scale * (i + 1) <= x + 6 * scale * (n + 1)) by (nonlinear_arith)
                requires
                    0 <= scale,
                    i < n,
            ;
        }
        cx = cx + ADV * scale;
        i += 1;
    }
}

} // verus!
