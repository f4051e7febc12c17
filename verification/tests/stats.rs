use compositor_developer::stats::{
    compositor_prefers_dmabuf, fence_fallback, fence_kms_infence, fence_synchronous, frame,
    present, present_rate, set_compositor_prefers_dmabuf, vblank, Counters, Presents,
};

#[test]
fn counters_count_and_wrap() {
    let mut c = Counters::new();
    frame(&mut c);
    frame(&mut c);
    vblank(&mut c);
    fence_synchronous(&mut c);
    fence_kms_infence(&mut c);
    fence_kms_infence(&mut c);
    fence_fallback(&mut c);
    assert_eq!((c.frames, c.vblanks, c.fence_synchronous, c.fence_kms_infence, c.fence_fallback), (2, 1, 1, 2, 1));
    c.frames = u64::MAX;
    frame(&mut c);
    assert_eq!(c.frames, 0);
    assert!(!compositor_prefers_dmabuf(&c));
    set_compositor_prefers_dmabuf(&mut c, true);
    assert!(compositor_prefers_dmabuf(&c));
}

#[test]
fn present_meter_windows() {
    let mut p = Presents::new();
    assert_eq!(present_rate(&p, "DP-1"), 0);
    present(&mut p, "DP-1", 1_000_000_000);
    assert_eq!(present_rate(&p, "DP-1"), 0);
    // 29 more frames within the window, then a 31st frame at +0.5 s closes it:
    // 31 frames over 0.5 s = 62 fps.
    for k in 1..30u64 {
        present(&mut p, "DP-1", 1_000_000_000 + k * 10_000_000);
    }
    assert_eq!(present_rate(&p, "DP-1"), 0);
    present(&mut p, "DP-1", 1_500_000_000);
    assert_eq!(present_rate(&p, "DP-1"), 62);
    assert_eq!(p.meters.len(), 1);
    assert_eq!(p.meters[0].1.frames, 0);
    present(&mut p, "HDMI-A-1", 2_000_000_000);
    assert_eq!(p.meters.len(), 2);
    assert_eq!(present_rate(&p, "HDMI-A-1"), 0);
    // A clock that went backwards counts as no time passed.
    present(&mut p, "HDMI-A-1", 1_000);
    assert_eq!(p.meters[1].1.frames, 2);
}

#[test]
fn frames_add_without_loss() {
    let mut c = Counters::new();
    c.frames = u64::MAX - 2;
    c.vblanks = 7;
    for _ in 0..5 {
        frame(&mut c);
    }
    assert_eq!(c.frames, (u64::MAX - 2).wrapping_add(5));
    assert_eq!(c.vblanks, 7);
    set_compositor_prefers_dmabuf(&mut c, true);
    set_compositor_prefers_dmabuf(&mut c, false);
    assert!(!compositor_prefers_dmabuf(&c));
}
