use compositor_developer::x11_icon::{framed, icon_words, size_colour};
use compositor_developer::x11_protocol::IconSpec;

#[test]
fn framed_image_layout() {
    let v = framed(16, 0x11_2233, 0xd6_2828);
    assert_eq!(v.len(), 16 * 16 + 2);
    assert_eq!((v[0], v[1]), (16, 16));
    // Border is 16 / 6 = 2 pixels wide.
    let px = |x: usize, y: usize| v[2 + y * 16 + x];
    assert_eq!(px(0, 0), 0xff11_2233);
    assert_eq!(px(1, 5), 0xff11_2233);
    assert_eq!(px(2, 2), 0xffd6_2828);
    assert_eq!(px(13, 13), 0xffd6_2828);
    assert_eq!(px(14, 8), 0xff11_2233);
    assert_eq!(px(8, 15), 0xff11_2233);
    // The high byte of the outer colour is dropped: the pixel is always opaque.
    let w = framed(3, 0x7f00_00ff, 0xaa_bbcc);
    assert_eq!(w, vec![3, 3, 0xff00_00ff, 0xff00_00ff, 0xff00_00ff, 0xff00_00ff, 0xffaa_bbcc, 0xff00_00ff, 0xff00_00ff, 0xff00_00ff, 0xff00_00ff]);
    assert_eq!(framed(0, 1, 2), vec![0, 0]);
    assert_eq!(framed(1, 0x12_3456, 2), vec![1, 1, 0xff12_3456]);
}

#[test]
fn size_colours() {
    assert_eq!(size_colour(16), 0xd62828);
    assert_eq!(size_colour(64), 0x2a9d8f);
    assert_eq!(size_colour(128), 0x264653);
    assert_eq!(size_colour(256), 0x7b2cbf);
    assert_eq!(size_colour(1024), 0xf5f5f5);
}

#[test]
fn icon_payload_lengths() {
    let w = 0x33658a;
    assert!(icon_words(IconSpec::Absent, w).is_empty());
    assert_eq!(icon_words(IconSpec::Single, w).len(), 4098);
    assert_eq!(icon_words(IconSpec::Pyramid, w).len(), 258 + 1026 + 2306 + 4098 + 16386);
    assert_eq!(icon_words(IconSpec::LargeFirst, w).len(), 1024 * 1024 + 2 + 2306);
    assert_eq!(icon_words(IconSpec::Oversize, w).len(), 2 + 64 + 2306);
    assert_eq!(icon_words(IconSpec::Truncated, w).len(), 4098 + 2 + 10);
    assert_eq!(icon_words(IconSpec::Zero, w).len(), 2 + 4098);
    assert_eq!(icon_words(IconSpec::Alpha, w).len(), 2 + 4096);
}

#[test]
fn icon_payload_contents() {
    let w = 0x33658a;
    let pyramid = icon_words(IconSpec::Pyramid, w);
    // Headers of the five images, ascending.
    assert_eq!((pyramid[0], pyramid[1]), (16, 16));
    assert_eq!((pyramid[258], pyramid[259]), (32, 32));
    assert_eq!((pyramid[258 + 1026], pyramid[258 + 1027]), (48, 48));
    let at64 = 258 + 1026 + 2306;
    assert_eq!((pyramid[at64], pyramid[at64 + 1]), (64, 64));
    // The 64 image's centre is green, its corner the window's colour.
    assert_eq!(pyramid[at64 + 2 + 32 * 64 + 32], 0xff2a_9d8f);
    assert_eq!(pyramid[at64 + 2], 0xff33_658a);
    let over = icon_words(IconSpec::Oversize, w);
    assert_eq!(&over[..3], &[2048, 2048, 0xff00_0000]);
    assert_eq!((over[66], over[67]), (48, 48));
    let trunc = icon_words(IconSpec::Truncated, w);
    assert_eq!(&trunc[4098..4101], &[32, 32, 0xff00_0000]);
    let zero = icon_words(IconSpec::Zero, w);
    assert_eq!(&zero[..4], &[0, 0, 64, 64]);
    let alpha = icon_words(IconSpec::Alpha, 0xff80_8080);
    assert_eq!((alpha[0], alpha[1]), (64, 64));
    assert_eq!(alpha[2], 0x0080_8080);
    assert_eq!(alpha[2 + 63], 0xff80_8080);
    assert_eq!(alpha[2 + 64 + 1], (255 / 63) << 24 | 0x80_8080);
    assert_eq!(alpha[2 + 32], ((32 * 255 / 63) << 24) | 0x80_8080);
}
