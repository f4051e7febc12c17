use compositor_developer::window_controller::{Act, Params};
use compositor_developer::window_layout::{hit, WIN_H, WIN_W};
use compositor_developer::window_protocol::{Anchor, Command};

#[test]
fn window_controller_layout_commands_round_trip() {
    let p = Params::new();
    let (buttons, _) = p.layout();
    assert!(buttons.len() > 50, "expected a rich button grid, got {}", buttons.len());
    let mut sends = 0;
    for b in &buttons {
        if let Act::Send(cmd) = &b.act {
            sends += 1;
            let line = cmd.encode();
            assert_eq!(Command::parse(&line), Some(cmd.clone()), "round-trip: {line}");
        }
    }
    assert!(sends > 40, "expected many send-commands, got {sends}");
}

#[test]
fn window_layout_headers_at_their_columns() {
    let p = Params::new();
    let (_, headers) = p.layout();
    let find = |t: &str| headers.iter().find(|h| h.2 == t).map(|h| (h.0, h.1));
    assert_eq!(find("DECORATION"), Some((8, 8)));
    assert_eq!(find("POPUP"), Some((260, 8)));
    assert_eq!(find("VIEWPORTER  dest=480x320"), Some((512, 8)));
    assert_eq!(find("BUFFER  (delta=40)"), Some((8, 121)));
    assert_eq!(find("FRACTIONAL  scale=180/120"), Some((512, 144)));
    assert_eq!(find("SINGLE-PIXEL  rgb=(224,64,64)"), Some((512, 301)));
    assert_eq!(find("OFF 0,0"), Some((260, 93)));
    assert_eq!(headers.len(), 16);
}

#[test]
fn window_layout_labels_follow_parameters() {
    let mut p = Params::new();
    p.delta = -16;
    p.anchor_i = 0;
    p.session_xx = true;
    p.proto_vp = false;
    let (buttons, _) = p.layout();
    let by_label = |l: &str| buttons.iter().find(|b| b.label == l).map(|b| b.act);
    assert_eq!(by_label("BUF DELTA -16"), Some(Act::Send(Command::BufDelta(-16))));
    assert_eq!(by_label("ANCHOR Center"), Some(Act::CycleAnchor));
    assert_eq!(by_label("GRAVITY BottomRight"), Some(Act::CycleGravity));
    assert_eq!(by_label("NS: xx_ (GTK 4.22)"), Some(Act::ToggleSessionNs));
    assert_eq!(by_label("VP -"), Some(Act::ToggleProto(1)));
    assert_eq!(by_label("FS SCALE 180"), Some(Act::Send(Command::FsScale(180))));
    assert_eq!(by_label("DPI SCALE 2"), Some(Act::Send(Command::DpiScale(2))));
    let _ = Anchor::Center;
}

#[test]
fn window_layout_vp_src_bits() {
    let (buttons, _) = Params::new().layout();
    let b = buttons.iter().find(|b| b.label == "VP SRC CROP").unwrap();
    match b.act {
        Act::SendVpSrc(x, y, w, h) => {
            assert_eq!(
                (f64::from_bits(x), f64::from_bits(y), f64::from_bits(w), f64::from_bits(h)),
                (0.0, 0.0, 160.0, 120.0)
            );
        }
        _ => panic!("VP SRC CROP sends a viewport source"),
    }
}

#[test]
fn window_layout_inside_and_hit() {
    let (buttons, _) = Params::new().layout();
    for b in &buttons {
        assert!(b.x >= 0 && b.y >= 0 && b.x + b.w <= WIN_W && b.y + b.h <= WIN_H);
    }
    let i = hit(&buttons, 10, 26).unwrap();
    assert_eq!(buttons[i].label, "DECO SERVER");
    assert_eq!(hit(&buttons, 127, 95), None);
    assert_eq!(hit(&buttons, 770, 750), None);
}
