use compositor_developer::layer_overlay::OverlayInputs;
use compositor_developer::layer_protocol::{Command, Kbd, Region, ScaleReq};
use compositor_developer::layer_subject::SubjectState;
use compositor_developer::window_overlay::FrameInputs;
use compositor_developer::window_protocol::{self as wp};
use compositor_developer::window_subject::{DecoSide, ScaleMode, WindowState};

fn inputs() -> OverlayInputs {
    OverlayInputs {
        cfg: (480, 320),
        buf: (960, 640, 2),
        kbd_focus: false,
        last_key: "-".to_string(),
        output_scale: 2,
        frac: "1.50".to_string(),
        outputs: 2,
        popups: 0,
        wlr_version: Some(3),
        ext_version: None,
        wlr_tops: vec![],
        ext_tops: vec![],
    }
}

#[test]
fn layer_overlay_fixed_lines() {
    let s = SubjectState::new();
    let lines = s.overlay_lines(&inputs());
    assert_eq!(
        lines,
        vec![
            "LAYER Top  ANCHOR T-L-",
            "EXCL 0  MARGIN 0 0 0 0",
            "SIZE req 480x320 -> cfg 480x320  KBD None FOCUS no",
            "KEY -",
            "BUF 960x640 scale 2  OUTSCALE 2 FRAC 1.50  SCALE Normal",
            "INPUT Full  OPAQUE none  OUTPUT 0/2  POPUPS 0  TRANSP off ANIM off",
            "FOREIGN wlr=v3 ext=absent  SEL 0",
        ]
    );
}

#[test]
fn layer_overlay_follows_state_and_toplevels() {
    let mut s = SubjectState::new();
    s.apply(Command::Excl(-1), 1, 0);
    s.apply(Command::Keyboard(Kbd::OnDemand), 1, 0);
    s.apply(Command::Scale(ScaleReq::DpiScale(-3)), 1, 0);
    s.apply(Command::Input(Region::Empty), 1, 0);
    s.apply(Command::Opaque(true), 1, 0);
    s.apply(Command::Animate(true), 1, 0);
    s.apply(Command::ForeignSel(1), 1, 3);
    let mut o = inputs();
    o.kbd_focus = true;
    o.wlr_tops = vec![
        ("Terminal".to_string(), "foot".to_string(), vec![2]),
        ("A very long window title here".to_string(), "org.example.application".to_string(), vec![]),
        ("x".to_string(), "y".to_string(), vec![0, 1, 3, 9]),
    ];
    o.ext_tops = vec![("Terminal".to_string(), "foot".to_string(), "0123456789abcdef".to_string())];
    let lines = s.overlay_lines(&o);
    assert_eq!(lines.len(), 7 + 3 + 1);
    assert_eq!(lines[1], "EXCL -1  MARGIN 0 0 0 0");
    assert_eq!(lines[2], "SIZE req 480x320 -> cfg 480x320  KBD OnDemand FOCUS YES");
    assert_eq!(lines[4], "BUF 960x640 scale 2  OUTSCALE 2 FRAC 1.50  SCALE DpiScale(-3)");
    assert_eq!(lines[5], "INPUT None  OPAQUE full  OUTPUT 0/2  POPUPS 0  TRANSP off ANIM on");
    assert_eq!(lines[6], "FOREIGN wlr=v3 ext=absent  SEL 1");
    assert_eq!(lines[7], " WLR[0] Terminal (foot) [A]");
    assert_eq!(lines[8], ">WLR[1] A very long window (org.example.ap) [-]");
    assert_eq!(lines[9], " WLR[2] x (y) [MmF?]");
    assert_eq!(lines[10], " EXT[0] Terminal (foot) id=0123456789");
    // At most six wlr and four ext toplevels are listed.
    o.wlr_tops = (0..9).map(|i| (format!("t{i}"), "a".to_string(), vec![])).collect();
    o.ext_tops = (0..9).map(|i| (format!("t{i}"), "a".to_string(), "i".to_string())).collect();
    assert_eq!(s.overlay_lines(&o).len(), 7 + 6 + 4);
}

fn frame() -> FrameInputs {
    FrameInputs {
        logical: (480, 320),
        buffer: (480, 320),
        buffer_scale: 1,
        dest: None,
        output_scale: 1,
        frac: "?".to_string(),
        subs: 0,
        popups: 1,
        icon_label: "none".to_string(),
        icon_mgr: false,
        icon_sizes: vec![],
    }
}

#[test]
fn window_overlay_lines() {
    let s = WindowState::new();
    assert_eq!(
        s.overlay_lines(&frame()),
        vec![
            "FRAME 0  COMMIT 0 Hz",
            "CONFIGURE 480x320",
            "BUFFER 480x320  SCALE 1",
            "VP DEST NONE",
            "OUT SCALE 1  FRAC ?",
            "SCALEMODE Normal",
            "DECO req=Server eff=? ign=false",
            "ACK ON  GEOMIS false  BUFDELTA 0",
            "SUBS 0  POPUPS 1",
            "ICON none  [mgr NO sizes []]",
        ]
    );
    let mut s = WindowState::new();
    s.apply(wp::Command::ShowCounter(false));
    s.apply(wp::Command::FsScale(180));
    s.apply(wp::Command::DecoMode(wp::DecoMode::Undecorated));
    s.apply(wp::Command::BufNoack);
    s.apply(wp::Command::BufDelta(-7));
    s.deco_effective = Some(DecoSide::Client);
    let mut f = frame();
    f.dest = Some((640, 480));
    f.icon_mgr = true;
    f.icon_sizes = vec![16, 32, -1];
    let lines = s.overlay_lines(&f);
    assert_eq!(lines.len(), 9);
    assert_eq!(lines[0], "CONFIGURE 480x320");
    assert_eq!(lines[2], "VP DEST 640x480");
    assert_eq!(lines[4], "SCALEMODE FsForce(180)");
    assert_eq!(lines[5], "DECO req=None eff=client ign=false");
    assert_eq!(lines[6], "ACK OFF  GEOMIS false  BUFDELTA -7");
    assert_eq!(lines[8], "ICON none  [mgr yes sizes [16, 32, -1]]");
    s.scale_mode = ScaleMode::DpiForce(-2);
    assert_eq!(s.overlay_lines(&f)[4], "SCALEMODE DpiForce(-2)");
    s.deco_effective = Some(DecoSide::Unknown);
    assert_eq!(s.overlay_lines(&f)[5], "DECO req=None eff=? ign=false");
}
