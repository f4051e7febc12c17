use compositor_developer::x11_protocol::{CloseMode, Command, InputModel, WmType};
use compositor_developer::x11_subject::{
    configure_description, create_spec, storm_position, storm_size, window_colour, xdnd_local, xdnd_position,
    xdnd_unpack, Spec, opacity_card, wm_hints, input_protocols, close_protocols, wm_state_data, drag_step, xdnd_enter_data, DragStep, motion_due,
};

#[test]
fn spec_builders() {
    let s = Spec::managed(10, -4, 300, 200);
    assert_eq!((s.x, s.y, s.w, s.h), (10, -4, 300, 200));
    assert!(!s.override_redirect && !s.argb);
    assert_eq!(s.transient_for, None);
    assert_eq!(s.wm_type, WmType::Unset);
    let t = s.argb().override_redirect().transient_for(0x40_0001).wm_type(WmType::Menu);
    assert!(t.argb && t.override_redirect);
    assert_eq!(t.transient_for, Some(0x40_0001));
    assert_eq!(t.wm_type, WmType::Menu);
}

#[test]
fn created_windows_are_staggered_and_placed() {
    let none = (0, 0, 0);
    let s = create_spec(&Command::MapWindow(480, 320), 3, none).unwrap();
    assert_eq!((s.x, s.y, s.w, s.h, s.argb), (120, 120, 480, 320, false));
    let s = create_spec(&Command::MapArgb(100, 50), 1, none).unwrap();
    assert_eq!((s.x, s.y, s.argb), (40, 40, true));
    let s = create_spec(&Command::MapTransient(1, 200, 100), 2, (0x20_0003, 0, 0)).unwrap();
    assert_eq!((s.x, s.y, s.transient_for, s.override_redirect), (120, 120, Some(0x20_0003), false));
    let parent = (0x20_0001, 100, 50);
    let s = create_spec(&Command::Or(1, 10, 20, 160, 90), 2, parent).unwrap();
    assert_eq!((s.x, s.y, s.w, s.h, s.override_redirect, s.transient_for), (110, 70, 160, 90, true, None));
    let s = create_spec(&Command::OrChain(2, -5, 7), 3, parent).unwrap();
    assert_eq!((s.x, s.y, s.w, s.h, s.override_redirect), (95, 57, 180, 140, true));
    let s = create_spec(&Command::MapChild(1, 0, 30, 120, 80, true, WmType::PopupMenu), 4, parent).unwrap();
    assert_eq!((s.x, s.y, s.override_redirect, s.wm_type, s.transient_for), (100, 80, true, WmType::PopupMenu, Some(0x20_0001)));
    let s = create_spec(&Command::MapChild(1, 0, 30, 120, 80, false, WmType::Dialog), 4, parent).unwrap();
    assert!(!s.override_redirect);
    assert!(create_spec(&Command::Raise(1), 4, parent).is_none());
    assert!(create_spec(&Command::Title(1, "t".to_string()), 4, parent).is_none());
}

#[test]
fn window_colours_cycle() {
    assert_eq!(window_colour(1, false), 0x33658a);
    assert_eq!(window_colour(7, false), 0x33658a);
    assert_eq!(window_colour(6, false), 0x2f4858);
    assert_eq!(window_colour(2, true), 0xffcad4);
    assert_eq!(window_colour(7, true), 0xf4acb7);
}

#[test]
fn storm_and_xdnd_numbers() {
    assert_eq!(storm_size((400, 300), 0), (400, 300));
    assert_eq!(storm_size((400, 300), 41), (401, 301));
    assert_eq!(storm_size((65530, 10), 39), (65535, 49));
    assert_eq!(storm_position((10, -20), 79), (49, 19));
    assert_eq!(xdnd_position(100, 200), (100 << 16) | 200);
    assert_eq!(xdnd_position(-1, -2), 0xffff_fffe);
}

#[test]
fn self_configure_descriptions() {
    assert_eq!(configure_description(Some((10, -5)), Some((640, 480))), "move to +10+-5 and resize to 640x480");
    assert_eq!(configure_description(Some((0, 0)), None), "move to +0+0");
    assert_eq!(configure_description(None, Some((1, 2))), "resize to 1x2");
    assert_eq!(configure_description(None, None), "nothing");
}

#[test]
fn xdnd_coordinates_round_trip() {
    for (x, y) in [(0i16, 0i16), (100, 200), (-1, -2), (i16::MAX, i16::MIN), (-32768, 32767), (1920, -40)] {
        assert_eq!(xdnd_unpack(xdnd_position(x, y)), (x, y));
    }
    assert_eq!(xdnd_unpack(0x0064_00c8), (100, 200));
    assert_eq!(xdnd_local((150, 90), (100, 50), 200, 100), ((50, 40), true));
    assert_eq!(xdnd_local((90, 90), (100, 50), 200, 100), ((-10, 40), false));
    assert_eq!(xdnd_local((300, 90), (100, 50), 200, 100), ((200, 40), false));
}

#[test]
fn opacity_fills_all_four_bytes() {
    assert_eq!(opacity_card(0x80), 0x8080_8080);
    assert_eq!(opacity_card(255), 0xffff_ffff);
    assert_eq!(opacity_card(0), 0);
}

#[test]
fn input_model_hints_and_protocols() {
    assert_eq!(wm_hints(InputModel::NoInput), vec![1, 0, 0, 0, 0, 0, 0, 0, 0]);
    assert_eq!(wm_hints(InputModel::Passive), vec![1, 1, 0, 0, 0, 0, 0, 0, 0]);
    assert_eq!(wm_hints(InputModel::LocallyActive), vec![1, 1, 0, 0, 0, 0, 0, 0, 0]);
    assert_eq!(wm_hints(InputModel::GloballyActive), vec![1, 0, 0, 0, 0, 0, 0, 0, 0]);
    assert_eq!(input_protocols(InputModel::NoInput, 7, 9), vec![7]);
    assert_eq!(input_protocols(InputModel::Passive, 7, 9), vec![7]);
    assert_eq!(input_protocols(InputModel::LocallyActive, 7, 9), vec![7, 9]);
    assert_eq!(input_protocols(InputModel::GloballyActive, 7, 9), vec![7, 9]);
}

#[test]
fn close_mode_protocols() {
    assert_eq!(close_protocols(CloseMode::Delete, 7), vec![7]);
    assert!(close_protocols(CloseMode::NoDelete, 7).is_empty());
}

#[test]
fn wm_state_message_words() {
    assert_eq!(wm_state_data(true, 0x1234), [1, 0x1234, 0, 1, 0]);
    assert_eq!(wm_state_data(false, 0x1234), [0, 0x1234, 0, 1, 0]);
}

#[test]
fn drag_step_leaves_and_enters_on_a_new_window() {
    let r = drag_step(Some((0x10, 5)), Some((0x20, 4)));
    assert_eq!(r, DragStep { leave: Some(0x10), enter: Some((0x20, 4)), target: Some((0x20, 4)) });
    let r = drag_step(None, Some((0x20, 5)));
    assert_eq!(r, DragStep { leave: None, enter: Some((0x20, 5)), target: Some((0x20, 5)) });
    let r = drag_step(Some((0x10, 5)), None);
    assert_eq!(r, DragStep { leave: Some(0x10), enter: None, target: None });
}

#[test]
fn drag_step_same_window_keeps_target() {
    let r = drag_step(Some((0x10, 5)), Some((0x10, 3)));
    assert_eq!(r, DragStep { leave: None, enter: None, target: Some((0x10, 5)) });
    let r = drag_step(None, None);
    assert_eq!(r, DragStep { leave: None, enter: None, target: None });
}

#[test]
fn xdnd_enter_words() {
    assert_eq!(xdnd_enter_data(0x40_0001, 5, 0x99), [0x40_0001, 0x0500_0000, 0x99, 0, 0]);
    assert_eq!(xdnd_enter_data(1, 0x1ff, 2)[1], 0xff00_0000);
}

#[test]
fn motion_log_throttle() {
    assert!(motion_due(None, 0));
    assert!(!motion_due(Some(5_000), 5_999));
    assert!(motion_due(Some(5_000), 6_000));
    assert!(!motion_due(Some(5_000), 4_000));
}
