use compositor_developer::layer_controller::Params;
use compositor_developer::layer_protocol::{Anchor, Command, ForeignCtl, Kbd, Layer, Region};
use compositor_developer::layer_subject::{
    anchor_str, input_region_plan, opaque_region_plan, RegionOp, layer_tick, protocols_from_args, LayerTick, Reaction, SubjectState,
};
use compositor_developer::window_protocol as wp;
use compositor_developer::window_controller::Params as WinParams;
use compositor_developer::harness::Render;
use compositor_developer::window_subject::{
    integer_render, protocols_from_args as win_protocols, DecoSide, FramePlan,
    Reaction as WinReaction, ScaleMode, WindowState, tick_interval_us, window_tick, Ticks, TickActions,
};

#[test]
fn layer_subject_starts_anchored_top_left() {
    let s = SubjectState::new();
    assert_eq!(s.anchor_bits, 5);
    assert_eq!(anchor_str(s.anchor_bits), "T-L-");
    assert_eq!(s.layer, Layer::Top);
    assert_eq!(s.kbd, Kbd::Disabled);
    assert_eq!(s.req_size, (480, 320));
    assert_eq!(s.pop_size, (160, 120));
}

#[test]
fn layer_subject_anchor_commands() {
    let mut s = SubjectState::new();
    assert_eq!(s.apply(Command::AnchorTop, 1, 0), Reaction::Reconfigure);
    assert_eq!(anchor_str(s.anchor_bits), "--L-");
    assert_eq!(s.apply(Command::AnchorRight, 1, 0), Reaction::Reconfigure);
    assert_eq!(anchor_str(s.anchor_bits), "--LR");
    s.apply(Command::AnchorRight, 1, 0);
    assert_eq!(anchor_str(s.anchor_bits), "--L-");
    s.apply(Command::AnchorAll, 1, 0);
    assert_eq!(s.anchor_bits, 15);
    assert_eq!(anchor_str(s.anchor_bits), "TBLR");
    s.apply(Command::AnchorNone, 1, 0);
    assert_eq!(anchor_str(s.anchor_bits), "----");
}

#[test]
fn layer_subject_reactions() {
    let mut s = SubjectState::new();
    assert_eq!(s.apply(Command::SetLayer(Layer::Overlay), 1, 0), Reaction::SetLayer(Layer::Overlay));
    assert_eq!(s.layer, Layer::Overlay);
    assert_eq!(s.apply(Command::Excl(-1), 1, 0), Reaction::Reconfigure);
    assert_eq!(s.excl, -1);
    assert_eq!(s.apply(Command::Margin(1, 2, 3, 4), 1, 0), Reaction::Reconfigure);
    assert_eq!(s.margins, (1, 2, 3, 4));
    assert_eq!(s.apply(Command::PopupAdd, 1, 0), Reaction::AddPopup);
    assert_eq!(s.apply(Command::PopupClose, 1, 0), Reaction::ClosePopup);
    assert_eq!(s.apply(Command::PopupMove(40, -40), 1, 0), Reaction::MovePopup(40, -40));
    assert_eq!(s.apply(Command::PopupAnchor(Anchor::Top), 1, 0), Reaction::Reconfigure);
    assert_eq!(s.pop_anchor, Anchor::Top);
    assert_eq!(s.apply(Command::PopupSize(3_000_000_000, 7), 1, 0), Reaction::Reconfigure);
    assert_eq!(s.pop_size, (3_000_000_000u32 as i32, 7));
    assert_eq!(s.apply(Command::Input(Region::Empty), 1, 0), Reaction::InputRegion);
    assert_eq!(s.input_region, Region::Empty);
    assert_eq!(s.apply(Command::Opaque(true), 1, 0), Reaction::OpaqueRegion);
    assert!(s.opaque);
    assert_eq!(
        s.apply(Command::Foreign(ForeignCtl::Close), 1, 0),
        Reaction::Foreign(ForeignCtl::Close)
    );
    assert_eq!(s.apply(Command::Recreate, 1, 0), Reaction::Recreate);
    assert!(!s.exit);
    assert_eq!(s.apply(Command::Quit, 1, 0), Reaction::Idle);
    assert!(s.exit);
}

#[test]
fn layer_subject_selections_wrap() {
    let mut s = SubjectState::new();
    assert_eq!(s.apply(Command::OutputCycle, 3, 0), Reaction::Recreate);
    assert_eq!(s.output_sel, 1);
    s.apply(Command::OutputCycle, 3, 0);
    s.apply(Command::OutputCycle, 3, 0);
    assert_eq!(s.output_sel, 0);
    // With no output known the first one is kept.
    s.apply(Command::OutputCycle, 0, 0);
    assert_eq!(s.output_sel, 0);
    // Stepping back from the first toplevel lands on the last.
    assert_eq!(s.apply(Command::ForeignSel(-1), 1, 4), Reaction::Idle);
    assert_eq!(s.foreign_sel, 3);
    s.apply(Command::ForeignSel(1), 1, 4);
    assert_eq!(s.foreign_sel, 0);
    s.apply(Command::ForeignSel(-9), 1, 4);
    assert_eq!(s.foreign_sel, 3);
    // An empty list leaves the selection alone.
    s.apply(Command::ForeignSel(1), 1, 0);
    assert_eq!(s.foreign_sel, 3);
}

#[test]
fn spawn_flags_round_trip() {
    let mut p = Params::new();
    assert!(p.subject_args().is_empty());
    assert_eq!(protocols_from_args(&p.subject_args()), (true, true, true, true));
    p.proto_vp = false;
    p.proto_fext = false;
    let args = p.subject_args();
    assert_eq!(args, vec!["--no-viewporter".to_string(), "--no-foreign-ext".to_string()]);
    assert_eq!(protocols_from_args(&args), (false, true, true, false));
    let mut with_program = vec!["layer-stress-subject".to_string()];
    with_program.extend(args);
    assert_eq!(protocols_from_args(&with_program), (false, true, true, false));
    p.proto_fs = false;
    p.proto_fwlr = false;
    p.proto_vp = true;
    assert_eq!(protocols_from_args(&p.subject_args()), (true, false, false, false));
}

#[test]
fn window_subject_starts_with_server_decorations() {
    let s = WindowState::new();
    assert_eq!(s.deco_requested, wp::DecoMode::Server);
    assert!(s.show_counter);
    assert_eq!(s.cur_size, (480, 320));
    assert_eq!(s.scale_mode, ScaleMode::Normal);
    assert_eq!(s.vp_dest, None);
}

#[test]
fn window_subject_commands() {
    let mut s = WindowState::new();
    assert_eq!(
        s.apply(wp::Command::DecoMode(wp::DecoMode::Client)),
        (WinReaction::SetDeco(wp::DecoMode::Client), true)
    );
    assert_eq!(s.deco_requested, wp::DecoMode::Client);
    assert_eq!(s.apply(wp::Command::DecoIgnore), (WinReaction::Idle, true));
    assert!(s.deco_ignore);
    s.apply(wp::Command::DecoIgnore);
    assert!(!s.deco_ignore);
    s.apply(wp::Command::BufDelta(12));
    assert_eq!(s.buf_delta, 12);
    s.apply(wp::Command::BufAgreed);
    assert_eq!(s.buf_delta, 0);
    assert_eq!(s.apply(wp::Command::PopupNest), (WinReaction::AddPopup { nested: true }, true));
    assert_eq!(s.apply(wp::Command::SubNest), (WinReaction::AddSub { nested: true }, true));
    assert_eq!(s.apply(wp::Command::SubMove(3, -4)), (WinReaction::MoveSub(3, -4), true));
    // The destination delta starts from the current size while no destination is set.
    s.apply(wp::Command::VpDestDelta(40));
    assert_eq!(s.vp_dest, Some((520, 360)));
    s.apply(wp::Command::VpDestDelta(-20));
    assert_eq!(s.vp_dest, Some((500, 340)));
    s.vp_src_bits = Some((0, 0, 160.0f64.to_bits(), 120.0f64.to_bits()));
    s.apply(wp::Command::VpUnset);
    assert_eq!(s.vp_dest, None);
    assert_eq!(s.vp_src_bits, None);
    assert_eq!(s.apply(wp::Command::VpBad), (WinReaction::BadViewport, false));
    s.apply(wp::Command::FsScale(180));
    assert_eq!(s.scale_mode, ScaleMode::FsForce(180));
    s.apply(wp::Command::DpiScale(3));
    assert_eq!(s.scale_mode, ScaleMode::DpiForce(3));
    assert_eq!(s.apply(wp::Command::SpFill(1, 2, 3, 4)), (WinReaction::FillMain(1, 2, 3, 4), false));
    assert_eq!(s.apply(wp::Command::SpSub(1, 2, 3, 4)), (WinReaction::FillSub(1, 2, 3, 4), true));
    s.commits = 17;
    assert_eq!(s.apply(wp::Command::CommitRate(60)), (WinReaction::RestartCommitClock, true));
    assert_eq!((s.commit_hz, s.commits), (60, 0));
    assert_eq!(s.apply(wp::Command::ShowCounter(false)), (WinReaction::DrawCounter, true));
    assert!(!s.show_counter);
    assert_eq!(s.apply(wp::Command::Unmap), (WinReaction::SetMapped(false), true));
    assert_eq!(s.apply(wp::Command::MapWindow), (WinReaction::SetMapped(true), true));
    s.apply(wp::Command::Size(640, 480));
    assert_eq!((s.pending_size, s.cur_size), ((640, 480), (640, 480)));
    assert_eq!(s.apply(wp::Command::Quit), (WinReaction::Idle, false));
    assert!(s.exit);
}

#[test]
fn window_spawn_flags_round_trip() {
    let mut p = WinParams::new();
    assert!(p.subject_args().is_empty());
    assert_eq!(win_protocols(&p.subject_args()), (true, true, true, true));
    p.proto_deco = false;
    p.proto_sp = false;
    let args = p.subject_args();
    assert_eq!(args, vec!["--no-decoration".to_string(), "--no-single-pixel".to_string()]);
    assert_eq!(win_protocols(&args), (false, true, true, false));
    assert_eq!(p.session_args(), vec!["--detached".to_string()]);
    p.session_xx = true;
    assert_eq!(p.session_args(), vec!["--detached".to_string(), "--xx".to_string()]);
}

#[test]
fn window_subject_decoration_side() {
    let mut s = WindowState::new();
    assert!(!s.csd_drawn());
    s.deco_requested = wp::DecoMode::Client;
    assert!(s.csd_drawn());
    s.deco_effective = Some(DecoSide::Server);
    assert!(!s.csd_drawn());
    s.deco_ignore = true;
    assert!(s.csd_drawn());
    s.deco_ignore = false;
    s.deco_effective = Some(DecoSide::Unknown);
    s.deco_requested = wp::DecoMode::Undecorated;
    assert!(s.csd_drawn());
    s.deco_effective = Some(DecoSide::Client);
    s.deco_requested = wp::DecoMode::Server;
    assert!(s.csd_drawn());
}

#[test]
fn window_subject_integer_render() {
    let r = integer_render(ScaleMode::DpiHonor, 100, 50, 2).unwrap();
    assert_eq!((r.buf_w, r.buf_h, r.buffer_scale, r.dest), (200, 100, 2, None));
    let r = integer_render(ScaleMode::DpiHonor, 100, 50, 0).unwrap();
    assert_eq!((r.buf_w, r.buffer_scale), (100, 1));
    let r = integer_render(ScaleMode::DpiForce(-3), 100, 50, 2).unwrap();
    assert_eq!((r.buf_w, r.buffer_scale), (100, 1));
    let r = integer_render(ScaleMode::DpiNondiv, 100, 50, 1).unwrap();
    assert_eq!((r.buf_w, r.buf_h, r.buffer_scale), (201, 101, 2));
    let r = integer_render(ScaleMode::DpiMismatch, 100, 50, 3).unwrap();
    assert_eq!(r.buffer_scale, 4);
    let r = integer_render(ScaleMode::FsIgnore, 100, 50, 3).unwrap();
    assert_eq!((r.buf_w, r.buffer_scale, r.dest), (100, 1, Some((100, 50))));
    assert_eq!(integer_render(ScaleMode::DpiZero, 7, 8, 3).unwrap().buffer_scale, 0);
    assert!(integer_render(ScaleMode::FsHonor, 100, 50, 2).is_none());
    assert!(integer_render(ScaleMode::FsForce(180), 100, 50, 2).is_none());
}

#[test]
fn window_subject_frame_plan() {
    let mut s = WindowState::new();
    let render = Render::new(480, 320, 1, None);
    assert_eq!(
        s.frame_plan(render, 0, true),
        FramePlan { buf_w: 480, buf_h: 320, title_h: 0, geometry: (0, 0, 480, 320), dest: None }
    );
    s.buf_delta = -1000;
    s.geo_mismatch = true;
    s.deco_requested = wp::DecoMode::Client;
    s.deco_badsize = true;
    s.vp_dest = Some((100, 80));
    let p = s.frame_plan(render, 150, false);
    assert_eq!(p, FramePlan { buf_w: 1, buf_h: 1, title_h: 52, geometry: (17, 17, 420, 260), dest: Some((100, 80)) });
    s.vp_animate = true;
    assert_eq!(s.frame_plan(render, 150, true).dest, Some((150, 130)));
    s.vp_dest = None;
    assert_eq!(s.frame_plan(render, 260, true).dest, Some((540, 380)));
    s.cur_size = (0, -5);
    assert_eq!(s.frame_plan(render, 200, true).dest, Some((1, 1)));
    assert_eq!(s.frame_plan(render, 200, true).geometry, (17, 17, 1, 1));
    let with_dest = Render::new(10, 10, 1, Some((64, 48)));
    assert_eq!(s.frame_plan(with_dest, 200, true).dest, Some((64, 48)));
}

#[test]
fn layer_tick_advances_and_ages() {
    assert_eq!(
        layer_tick(true, true, 358, Some(3)),
        LayerTick { anim_phase: 1, click: Some(2), anim_draw: true, click_draw: true }
    );
    assert_eq!(
        layer_tick(true, false, 10, Some(0)),
        LayerTick { anim_phase: 10, click: None, anim_draw: false, click_draw: false }
    );
    assert_eq!(
        layer_tick(false, true, 10, None),
        LayerTick { anim_phase: 10, click: None, anim_draw: false, click_draw: false }
    );
    // Rust's remainder keeps the dividend's sign.
    assert_eq!(layer_tick(true, true, -10, None).anim_phase, -7);
}

#[test]
fn window_tick_interval() {
    assert_eq!(tick_interval_us(0), 16_000);
    assert_eq!(tick_interval_us(60), 16_666);
    assert_eq!(tick_interval_us(1), 1_000_000);
    assert_eq!(tick_interval_us(2_000_000), 0);
}

#[test]
fn window_tick_cycles_the_mapping() {
    let t = Ticks { anim_phase: 398, click: Some(1), mapcycle_tick: 58 };
    let (t, a) = window_tick(true, true, true, true, t);
    assert_eq!(t, Ticks { anim_phase: 2, click: Some(0), mapcycle_tick: 59 });
    assert_eq!(a, TickActions { animate: true, click_redraw: true, toggle_mapped: false });
    let (t, a) = window_tick(true, true, false, true, t);
    assert_eq!(t, Ticks { anim_phase: 2, click: None, mapcycle_tick: 0 });
    assert_eq!(a, TickActions { animate: false, click_redraw: true, toggle_mapped: true });
    let (t2, a2) = window_tick(false, true, true, false, t);
    assert_eq!(t2, t);
    assert_eq!(a2, TickActions { animate: false, click_redraw: false, toggle_mapped: false });
}

#[test]
fn input_region_plans() {
    assert_eq!(input_region_plan(Region::Full, 300, 200), None);
    assert_eq!(input_region_plan(Region::Empty, 300, 200), Some(vec![]));
    assert_eq!(
        input_region_plan(Region::Holes, 300, 200),
        Some(vec![RegionOp::Add(0, 0, 300, 200), RegionOp::Subtract(75, 50, 150, 100)])
    );
    // Unconfigured sizes count as 1.
    assert_eq!(
        input_region_plan(Region::Holes, 0, -5),
        Some(vec![RegionOp::Add(0, 0, 1, 1), RegionOp::Subtract(0, 0, 0, 0)])
    );
}

#[test]
fn circle_region_rows() {
    let expected = [
        (83, 0, 34, 6), (72, 6, 56, 6), (65, 12, 70, 6), (59, 18, 82, 7), (56, 25, 88, 6),
        (53, 31, 94, 6), (52, 37, 96, 6), (51, 43, 98, 7), (51, 50, 98, 6), (51, 56, 98, 6),
        (53, 62, 94, 6), (55, 68, 90, 7), (59, 75, 82, 6), (64, 81, 72, 6), (70, 87, 60, 6),
        (81, 93, 38, 7),
    ];
    let got = input_region_plan(Region::Circle, 200, 100).unwrap();
    let want: Vec<RegionOp> = expected.iter().map(|&(x, y, w, h)| RegionOp::Add(x, y, w, h)).collect();
    assert_eq!(got, want);
    let small = input_region_plan(Region::Circle, 7, 3).unwrap();
    assert_eq!(small[0], RegionOp::Add(3, 0, 0, 1));
    assert_eq!(small[7], RegionOp::Add(2, 0, 2, 1));
    assert_eq!(small[15], RegionOp::Add(2, 1, 2, 1));
}

#[test]
fn opaque_region_plans() {
    assert_eq!(opaque_region_plan(true, 640, 0), Some(RegionOp::Add(0, 0, 640, 1)));
    assert_eq!(opaque_region_plan(false, 640, 480), None);
}
