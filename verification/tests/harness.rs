use compositor_developer::canvas::{Canvas, BLACK, CYAN, GREEN, MAGENTA, RED, WHITE};
use compositor_developer::harness::{
    age_click, button_colour, click_marker, icon_tint, on, premultiply, proto_label, scale8, states_str, trunc,
    Render, CLICK_TTL, ST_ACTIVATED, ST_FULLSCREEN, ST_MAXIMIZED, ST_MINIMIZED,
};

#[test]
fn harness_overlay_text() {
    assert_eq!(states_str(&[]), "-");
    assert_eq!(states_str(&[ST_MAXIMIZED, ST_ACTIVATED, ST_FULLSCREEN, ST_MINIMIZED, 9]), "MAFm?");
    assert_eq!(trunc("hello world", 5), "hello");
    assert_eq!(trunc("héllo", 2), "hé");
    assert_eq!(trunc("hi", 5), "hi");
    assert_eq!(on(true), "on");
    assert_eq!(on(false), "off");
    assert_eq!(proto_label("VP", true), "VP +");
    assert_eq!(proto_label("FEXT", false), "FEXT -");
}

#[test]
fn harness_pixels() {
    assert_eq!(scale8(0xAB), 0xABAB_ABAB);
    assert_eq!(scale8(0), 0);
    assert_eq!(icon_tint(0), 0xFFE0_4038);
    assert_eq!(icon_tint(3), 0xFF30_70E0);
    assert_eq!(icon_tint(7), icon_tint(2));
    assert_eq!(premultiply(0xFFFF_8000, 0x80), 0x8080_4000);
    assert_eq!(premultiply(0xFF12_3456, 255), 0xFF12_3456);
    assert_eq!(premultiply(0xFF12_3456, 0), 0);
    let r = Render::new(640, 480, 2, Some((320, 240)));
    assert_eq!((r.buf_w, r.buf_h, r.buffer_scale, r.dest), (640, 480, 2, Some((320, 240))));
}

#[test]
fn click_marker_layers() {
    use_marker();
}

fn use_marker() {
    let mut c = Canvas::new(vec![0; 64 * 64 * 4], 64, 64);
    click_marker(&mut c, 30, 30, CLICK_TTL, 0x111);
    let data = c.into_data();
    let at = |x: usize, y: usize| {
        let i = (y * 64 + x) * 4;
        u32::from_le_bytes([data[i], data[i + 1], data[i + 2], data[i + 3]])
    };
    // Centre: the right button's green, inside a black outline.
    assert_eq!(at(30, 30), GREEN);
    assert_eq!(at(28, 28), BLACK);
    assert_eq!(at(32, 32), BLACK);
    // A fresh marker has radius 3: white ring at distance 3, black at 4.
    assert_eq!(at(33, 30), WHITE);
    assert_eq!(at(34, 30), BLACK);
    // An aged one has grown.
    let mut c = Canvas::new(vec![0; 64 * 64 * 4], 64, 64);
    click_marker(&mut c, 30, 30, 0, 0x110);
    let data = c.into_data();
    let i = (30 * 64 + 51) * 4;
    assert_eq!(u32::from_le_bytes([data[i], data[i + 1], data[i + 2], data[i + 3]]), WHITE);
    let i = (30 * 64 + 30) * 4;
    assert_eq!(u32::from_le_bytes([data[i], data[i + 1], data[i + 2], data[i + 3]]), RED);
    assert_eq!(button_colour(0x112), CYAN);
    assert_eq!(button_colour(0x113), MAGENTA);
}

#[test]
fn click_marker_ages_then_clears() {
    assert_eq!(age_click(Some(CLICK_TTL)), (Some(CLICK_TTL - 1), true));
    assert_eq!(age_click(Some(1)), (Some(0), true));
    assert_eq!(age_click(Some(0)), (None, true));
    assert_eq!(age_click(None), (None, false));
}
