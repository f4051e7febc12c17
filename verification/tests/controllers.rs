use compositor_developer::layer_controller as lc;
use compositor_developer::layer_protocol::{self as lp};
use compositor_developer::window_controller as wc;
use compositor_developer::window_protocol::{self as wp};

#[test]
fn layer_controller_adjustments() {
    let mut p = lc::Params::new();
    assert_eq!(p.size, (480, 320));
    assert_eq!(p.act(lc::Act::AdjExcl(8)), Some(lc::Effect::Send(lp::Command::Excl(8))));
    assert_eq!(p.act(lc::Act::AdjMargin(2, -4)), Some(lc::Effect::Send(lp::Command::Margin(0, 0, 0, 0))));
    assert_eq!(p.act(lc::Act::AdjMargin(1, 4)), Some(lc::Effect::Send(lp::Command::Margin(0, 4, 0, 0))));
    assert_eq!(p.act(lc::Act::AdjSize(-500, 20)), Some(lc::Effect::Send(lp::Command::Size(0, 340))));
    assert_eq!(p.act(lc::Act::AdjPopSize(-200, 20)), Some(lc::Effect::Send(lp::Command::PopupSize(8, 140))));
    assert_eq!(p.act(lc::Act::AdjPopOff(-40, 0)), Some(lc::Effect::Send(lp::Command::PopupOff(-40, 0))));
    assert_eq!(p.act(lc::Act::AdjDpi(10)), None);
    assert_eq!(p.dpi_num, 8);
    assert_eq!(p.act(lc::Act::CycleAnchor), Some(lc::Effect::Send(lp::Command::PopupAnchor(lp::Anchor::BottomRight))));
    assert_eq!(p.act(lc::Act::CycleAnchor), Some(lc::Effect::Send(lp::Command::PopupAnchor(lp::Anchor::Center))));
    assert_eq!(p.act(lc::Act::CycleGravity), Some(lc::Effect::Send(lp::Command::PopupGravity(lp::Anchor::Center))));
    assert_eq!(p.act(lc::Act::ToggleProto(2)), Some(lc::Effect::ProtoToggled));
    assert!(!p.proto_fwlr);
    assert_eq!(p.act(lc::Act::Respawn), Some(lc::Effect::Respawn));
    assert_eq!(p.act(lc::Act::Send(lp::Command::Quit)), Some(lc::Effect::Send(lp::Command::Quit)));
    assert_eq!(lc::proto_toggled_note(), "proto toggled — press RESPAWN to apply");
}

#[test]
fn controller_log_keeps_newest() {
    let mut log: Vec<String> = Vec::new();
    for i in 0..15 {
        lc::push_log(&mut log, format!("> {i}"), 12);
    }
    assert_eq!(log.len(), 12);
    assert_eq!(log[0], "> 3");
    assert_eq!(log[11], "> 14");
}

#[test]
fn window_controller_adjustments() {
    let mut p = wc::Params::new();
    assert_eq!(p.color_rgba(), (224, 64, 64, 255));
    assert_eq!(p.act(wc::Act::CycleColor), None);
    assert_eq!(p.color_rgba(), (64, 192, 64, 255));
    assert_eq!(p.act(wc::Act::AdjDelta(-8)), None);
    assert_eq!(p.delta, 32);
    assert_eq!(p.act(wc::Act::AdjFs(400)), None);
    assert_eq!(p.fs_num, 480);
    assert_eq!(p.act(wc::Act::AdjFs(-1000)), None);
    assert_eq!(p.fs_num, 30);
    assert_eq!(p.act(wc::Act::AdjDest(-1000, 20)), Some(wc::Effect::Send(wp::Command::VpDest(1, 340))));
    assert_eq!(p.act(wc::Act::AdjOff(40, 0)), Some(wc::Effect::Send(wp::Command::PopupOff(40, 0))));
    assert_eq!(p.act(wc::Act::ToggleSessionNs), Some(wc::Effect::SessionNamespace(true)));
    assert_eq!(p.act(wc::Act::SpawnSession(3)), Some(wc::Effect::SpawnSession(3)));
    assert_eq!(p.act(wc::Act::CycleGravity), Some(wc::Effect::Send(wp::Command::PopupGravity(wp::Anchor::Center))));
    for _ in 0..6 {
        p.act(wc::Act::CycleColor);
    }
    assert_eq!(p.color_i, 0);
}
