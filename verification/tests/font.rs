use compositor_developer::canvas::{Canvas, WHITE};
use compositor_developer::font::{glyph, line_height, text, text_width};

#[test]
fn font_metrics() {
    assert_eq!(text_width("abc", 2), 36);
    assert_eq!(text_width("", 3), 0);
    assert_eq!(text_width("é", 1), 6);
    assert_eq!(line_height(3), 24);
}

#[test]
fn font_glyph_lookup() {
    assert_eq!(glyph('a'), glyph('A'));
    assert_eq!(glyph('A')[0], 0b01110000);
    assert_eq!(glyph(' '), [0; 8]);
    assert_eq!(glyph('~'), [0b11111000, 0b10001000, 0b10001000, 0b10001000, 0b10001000, 0b10001000, 0b11111000, 0]);
}

#[test]
fn font_text_draws_blocks() {
    let mut c = Canvas::new(vec![0; 12 * 8 * 4], 12, 8);
    text(&mut c, 0, 0, 1, WHITE, "-");
    let data = c.into_data();
    let on: Vec<(usize, usize)> = (0..8)
        .flat_map(|y| (0..12).map(move |x| (x, y)))
        .filter(|&(x, y)| data[(y * 12 + x) * 4..(y * 12 + x) * 4 + 4] == WHITE.to_le_bytes())
        .collect();
    // `-` is one row of five pixels, on row 3.
    assert_eq!(on, vec![(0, 3), (1, 3), (2, 3), (3, 3), (4, 3)]);

    let mut c = Canvas::new(vec![0; 24 * 16 * 4], 24, 16);
    text(&mut c, 0, 0, 2, WHITE, ".");
    let data = c.into_data();
    let count = (0..24 * 16).filter(|k| data[k * 4..k * 4 + 4] == WHITE.to_le_bytes()).count();
    // `.` has two inked pixels, each a 2x2 block.
    assert_eq!(count, 8);
}
