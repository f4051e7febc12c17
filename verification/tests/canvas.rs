use compositor_developer::canvas::{Canvas, RED, WHITE};

fn px(c: &Canvas, data: &[u8], x: i32, y: i32) -> [u8; 4] {
    let i = ((y * c.width() + x) * 4) as usize;
    [data[i], data[i + 1], data[i + 2], data[i + 3]]
}

fn painted_count(data: &[u8], w: i32, h: i32, argb: u32) -> usize {
    let b = argb.to_le_bytes();
    let mut n = 0;
    for k in 0..(w * h) as usize {
        if data[k * 4..k * 4 + 4] == b {
            n += 1;
        }
    }
    n
}

#[test]
fn put_writes_bgra_and_clips() {
    let mut c = Canvas::new(vec![0; 4 * 4 * 4], 4, 4);
    assert_eq!((c.width(), c.height()), (4, 4));
    c.put(1, 2, 0xAA112233);
    c.put(-1, 0, WHITE);
    c.put(4, 0, WHITE);
    c.put(0, 4, WHITE);
    let w = 4;
    let data = c.into_data();
    let i = ((2 * w + 1) * 4) as usize;
    assert_eq!(&data[i..i + 4], &[0x33, 0x22, 0x11, 0xAA]);
    assert_eq!(painted_count(&data, 4, 4, WHITE), 0);
}

#[test]
fn buffer_past_pixels_is_untouched() {
    let mut c = Canvas::new(vec![7; 2 * 2 * 4 + 3], 2, 2);
    c.clear(RED);
    let data = c.into_data();
    assert_eq!(painted_count(&data, 2, 2, RED), 4);
    assert_eq!(&data[16..], &[7, 7, 7]);
}

#[test]
fn rect_and_frame_shapes() {
    let mut c = Canvas::new(vec![0; 10 * 10 * 4], 10, 10);
    c.rect(8, 8, 5, 5, RED);
    let data = c.into_data();
    assert_eq!(painted_count(&data, 10, 10, RED), 4);

    let mut c = Canvas::new(vec![0; 10 * 10 * 4], 10, 10);
    c.frame(1, 1, 6, 5, 1, WHITE);
    let data = c.into_data();
    // 6x5 outline: 6 + 6 + 3 + 3.
    assert_eq!(painted_count(&data, 10, 10, WHITE), 18);
    let c2 = Canvas::new(data.clone(), 10, 10);
    assert_eq!(px(&c2, &data, 3, 3), [0, 0, 0, 0]);
    assert_eq!(px(&c2, &data, 1, 5), WHITE.to_le_bytes());
}

#[test]
fn crosshair_counts() {
    let mut c = Canvas::new(vec![0; 21 * 21 * 4], 21, 21);
    c.crosshair(10, 10, 6, WHITE);
    let data = c.into_data();
    // Two 13-pixel bars sharing the centre, and a 7x7 outline (24 pixels) crossing each
    // bar twice.
    assert_eq!(painted_count(&data, 21, 21, WHITE), 13 + 12 + 24 - 4);
}

#[test]
fn disc_and_ring_pixels() {
    let mut c = Canvas::new(vec![0; 9 * 9 * 4], 9, 9);
    c.disc(4, 4, 2, RED);
    let data = c.into_data();
    // dx*dx + dy*dy <= 4 within the 5x5 box: 13 pixels.
    assert_eq!(painted_count(&data, 9, 9, RED), 13);

    let mut c = Canvas::new(vec![0; 9 * 9 * 4], 9, 9);
    c.disc(4, 4, 0, RED);
    assert_eq!(painted_count(&c.into_data(), 9, 9, RED), 1);

    let mut c = Canvas::new(vec![0; 9 * 9 * 4], 9, 9);
    c.ring(4, 4, 3, WHITE);
    let data = c.into_data();
    let c2 = Canvas::new(data.clone(), 9, 9);
    assert_eq!(px(&c2, &data, 7, 4), WHITE.to_le_bytes());
    assert_eq!(px(&c2, &data, 4, 1), WHITE.to_le_bytes());
    assert_eq!(px(&c2, &data, 4, 4), [0, 0, 0, 0]);
    assert_eq!(painted_count(&data, 9, 9, WHITE), 16);
}

#[test]
fn line_hits_both_ends() {
    let mut c = Canvas::new(vec![0; 10 * 10 * 4], 10, 10);
    c.line(1, 1, 8, 4, RED);
    let data = c.into_data();
    let c2 = Canvas::new(data.clone(), 10, 10);
    assert_eq!(px(&c2, &data, 1, 1), RED.to_le_bytes());
    assert_eq!(px(&c2, &data, 8, 4), RED.to_le_bytes());
    // One pixel per column along the major axis.
    assert_eq!(painted_count(&data, 10, 10, RED), 8);

    let mut c = Canvas::new(vec![0; 10 * 10 * 4], 10, 10);
    c.line(5, 9, 5, 0, WHITE);
    assert_eq!(painted_count(&c.into_data(), 10, 10, WHITE), 10);
}

#[test]
fn thick_line_walks_discs() {
    let mut c = Canvas::new(vec![0; 12 * 5 * 4], 12, 5);
    c.thick_line(2, 2, 9, 2, 0, RED);
    assert_eq!(painted_count(&c.into_data(), 12, 5, RED), 8);
    let mut c = Canvas::new(vec![0; 12 * 5 * 4], 12, 5);
    c.thick_line(3, 2, 3, 2, 1, RED);
    assert_eq!(painted_count(&c.into_data(), 12, 5, RED), 5);
}
