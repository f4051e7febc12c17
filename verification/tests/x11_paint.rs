use compositor_developer::x11_paint::{alpha_ramp, Fill};

#[test]
fn ramp_bands_and_frame() {
    let colour = 0x33_658a;
    let fills = alpha_ramp(colour, 240, 100);
    assert_eq!(fills.len(), 24 + 4);
    assert_eq!(fills[0], Fill { x: 0, y: 0, w: 10, h: 100, pixel: 0 });
    // Last band: fully opaque, every channel at full strength.
    assert_eq!(fills[23], Fill { x: 230, y: 0, w: 10, h: 100, pixel: 0xff33_658a });
    // Band 12: alpha 12 * 255 / 23 = 133, each channel scaled by 133 / 255.
    let a = 12 * 255 / 23;
    let expect = (a << 24) | ((0x33 * a / 255) << 16) | ((0x65 * a / 255) << 8) | (0x8a * a / 255);
    assert_eq!(fills[12].pixel, expect);
    assert_eq!(fills[12].x, 120);
    let px = 0xff33_658a;
    assert_eq!(fills[24], Fill { x: 0, y: 0, w: 240, h: 3, pixel: px });
    assert_eq!(fills[25], Fill { x: 0, y: 97, w: 240, h: 3, pixel: px });
    assert_eq!(fills[26], Fill { x: 0, y: 0, w: 3, h: 100, pixel: px });
    assert_eq!(fills[27], Fill { x: 237, y: 0, w: 3, h: 100, pixel: px });
}

#[test]
fn ramp_in_small_windows() {
    // Narrower than 24 pixels: one-pixel bands, as many as fit.
    let fills = alpha_ramp(0xffffff, 10, 2);
    assert_eq!(fills.len(), 10 + 4);
    assert_eq!((fills[9].x, fills[9].w), (9, 1));
    // The frame is as thick as the window allows.
    assert_eq!(fills[10], Fill { x: 0, y: 0, w: 10, h: 2, pixel: 0xffff_ffff });
    assert_eq!(fills[11].y, 0);
    // A width that is not a multiple of 24: the last band is cut at the edge.
    let fills = alpha_ramp(0, 50, 50);
    assert_eq!(fills.len(), 24 + 4);
    assert_eq!((fills[23].x, fills[23].w), (46, 2));
    // Nothing to paint but a degenerate frame.
    let fills = alpha_ramp(0, 0, 40);
    assert_eq!(fills.len(), 4);
    assert_eq!(fills[0].h, 0);
}
