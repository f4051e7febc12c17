use compositor_developer::layer_controller::{Act, Params};
use compositor_developer::layer_layout::{hit, WIN_H, WIN_W};
use compositor_developer::layer_protocol::{Anchor, Command, Kbd, Layer, ScaleReq};

#[test]
fn controller_layout_commands_round_trip() {
    let p = Params::new();
    let (buttons, _) = p.layout();
    assert!(buttons.len() > 50, "expected a rich button grid, got {}", buttons.len());
    let mut sends = 0;
    for b in &buttons {
        if let Act::Send(cmd) = &b.act {
            sends += 1;
            let line = cmd.encode();
            assert_eq!(Command::parse(&line), Some(cmd.clone()), "round-trip: {line}");
        }
    }
    assert!(sends > 30, "expected many send-commands, got {sends}");
}

#[test]
fn layer_layout_counts_and_headers() {
    let p = Params::new();
    let (buttons, headers) = p.layout();
    assert_eq!(buttons.len(), 82);
    assert_eq!(headers.len(), 17);
    let sends = buttons.iter().filter(|b| matches!(b.act, Act::Send(_))).count();
    assert_eq!(sends, 51);
    assert_eq!(headers[0], (8, 8, "LAYER".to_string()));
    assert_eq!(headers[2], (8, 114, "EXCLUSIVE ZONE  (0)".to_string()));
    assert_eq!(headers[3], (8, 158, "MARGIN  t0 r0 b0 l0".to_string()));
    assert_eq!(headers[5], (8, 246, "SIZE  480x320".to_string()));
    assert_eq!(headers[7], (268, 70, "POPUP OFF 0,0".to_string()));
    assert_eq!(headers[8], (268, 109, "POPUP SIZE 160x120".to_string()));
    assert_eq!(headers[9], (268, 148, "POPUP MOVE (step 40)".to_string()));
    assert_eq!(headers[13], (528, 8, "BUFFER SCALE  (dpi=2)".to_string()));
}

#[test]
fn layer_layout_buttons_follow_parameters() {
    let mut p = Params::new();
    p.excl = -3;
    p.margins = (4, 0, 12, 8);
    p.anchor_i = 0;
    p.gravity_i = 5;
    p.dpi_num = 3;
    p.proto_fs = false;
    p.move_step = 25;
    let (buttons, headers) = p.layout();
    assert_eq!(headers[2].2, "EXCLUSIVE ZONE  (-3)");
    assert_eq!(headers[3].2, "MARGIN  t4 r0 b12 l8");
    let first = &buttons[0];
    assert_eq!((first.x, first.y, first.w, first.h), (8, 24, 60, 20));
    assert_eq!(first.label, "BACKGROUND");
    assert_eq!(first.act, Act::Send(Command::SetLayer(Layer::Background)));
    let label = |l: &str| buttons.iter().find(|b| b.label == l).map(|b| b.act);
    assert_eq!(label("ANCHOR Center"), Some(Act::CycleAnchor));
    assert_eq!(label("GRAV TopLeft"), Some(Act::CycleGravity));
    assert_eq!(label("DPI 3"), Some(Act::Send(Command::Scale(ScaleReq::DpiScale(3)))));
    assert_eq!(label("FS -"), Some(Act::ToggleProto(1)));
    assert_eq!(label("VP +"), Some(Act::ToggleProto(0)));
    assert_eq!(label("-X"), Some(Act::Send(Command::PopupMove(-25, 0))));
    assert_eq!(label("+Y"), Some(Act::Send(Command::PopupMove(0, 25))));
    assert_eq!(label("NONE"), Some(Act::Send(Command::Keyboard(Kbd::Disabled))));
    let _ = Anchor::Center;
}

#[test]
fn layer_layout_fits_window_without_overlap() {
    let (buttons, _) = Params::new().layout();
    for (i, a) in buttons.iter().enumerate() {
        assert!(a.x >= 0 && a.x + a.w <= WIN_W && a.y >= 0 && a.y + a.h <= WIN_H);
        for b in &buttons[i + 1..] {
            let overlap = a.x < b.x + b.w && b.x < a.x + a.w && a.y < b.y + b.h && b.y < a.y + a.h;
            assert!(!overlap, "{} overlaps {}", a.label, b.label);
        }
    }
}

#[test]
fn layer_layout_hit_testing() {
    let (buttons, _) = Params::new().layout();
    // Inside "BACKGROUND" (8, 24, 60 x 20): both corners that belong to it.
    assert_eq!(hit(&buttons, 8, 24), Some(0));
    assert_eq!(hit(&buttons, 67, 43), Some(0));
    // Right and bottom edges are exclusive.
    assert_eq!(hit(&buttons, 68, 24), None);
    assert_eq!(hit(&buttons, 8, 44), None);
    // The last button, RESPAWN SUBJECT at (528, 294).
    assert_eq!(hit(&buttons, 600, 300), Some(buttons.len() - 1));
    assert_eq!(buttons[buttons.len() - 1].act, Act::Respawn);
    assert_eq!(hit(&buttons, 0, 0), None);
    assert_eq!(hit(&buttons, -5, 30), None);
}
