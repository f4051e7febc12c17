use compositor_developer::x11_protocol::{Command, IconSpec, InputModel, WmType};
use compositor_developer::x11_scenario::{all, by_name};

#[test]
fn scenario_table_names_in_order() {
    let names: Vec<&str> = all().iter().map(|(n, _, _)| *n).collect();
    assert_eq!(
        names,
        vec![
            "basics", "identity", "focus", "icon", "translucent", "dnd", "withdraw", "popup",
            "popup-geometry", "popup-input", "types", "type-flip", "self-geometry", "or-menu",
            "or-fight", "or-submenu", "placement", "transient", "close", "stacking", "clipboard",
            "storm",
        ]
    );
    for (_, about, steps) in all() {
        assert!(!about.is_empty());
        assert!(!steps.is_empty());
    }
}

#[test]
fn every_scenario_step_round_trips() {
    for (name, _, steps) in all() {
        for step in &steps {
            let line = step.0.encode();
            assert_eq!(Command::parse(&line).as_ref(), Some(&step.0), "{name}: {line:?}");
        }
    }
}

#[test]
fn basics_by_name() {
    let s = by_name("basics").expect("basics exists");
    assert_eq!(s.len(), 7);
    assert_eq!(s[0].0, Command::MapWindow(480, 320));
    assert_eq!(s[0].1, 400);
    assert_eq!(s[1].0, Command::Title(1, "x11 basics".to_string()));
    assert_eq!(s[2].0, Command::Class(1, "y5stress".to_string()));
    assert_eq!(s[4].0, Command::Fullscreen(1, true));
    assert_eq!(s[4].1, 900);
    assert_eq!(s[6].0, Command::Info);
    assert_eq!(s[6].1, 0);
}

#[test]
fn unknown_scenario_is_none() {
    assert!(by_name("nope").is_none());
    assert!(by_name("").is_none());
    assert!(by_name("Basics").is_none());
}

#[test]
fn focus_walks_the_four_input_models() {
    let s = by_name("focus").unwrap();
    let models: Vec<InputModel> = s
        .iter()
        .filter_map(|st| match st.0 {
            Command::InputModel(_, m) => Some(m),
            _ => None,
        })
        .collect();
    assert_eq!(
        models,
        vec![InputModel::Passive, InputModel::LocallyActive, InputModel::GloballyActive, InputModel::NoInput]
    );
}

#[test]
fn icon_publishes_each_shape_before_a_map() {
    let s = by_name("icon").unwrap();
    assert_eq!(s.len(), 17);
    let shapes = [
        IconSpec::Single,
        IconSpec::Pyramid,
        IconSpec::LargeFirst,
        IconSpec::Oversize,
        IconSpec::Truncated,
        IconSpec::Zero,
        IconSpec::Alpha,
    ];
    for (k, spec) in shapes.iter().enumerate() {
        assert_eq!(s[2 * k].0, Command::IconNext(*spec));
        assert_eq!(s[2 * k].1, 50);
        assert_eq!(s[2 * k + 1].0, Command::MapWindow(260, 180));
    }
    assert_eq!(s[15].0, Command::Icon(8, IconSpec::Pyramid));
}

#[test]
fn types_maps_every_type_but_unset() {
    let s = by_name("types").unwrap();
    assert_eq!(s.len(), 16);
    assert_eq!(s[2].0, Command::MapChild(1, 20, 16, 150, 90, true, WmType::Normal));
    assert_eq!(s[14].0, Command::MapChild(1, 260, 208, 150, 90, true, WmType::Dock));
    assert!(s.iter().all(|st| !matches!(st.0, Command::MapChild(_, _, _, _, _, _, WmType::Unset))));
}

#[test]
fn walking_and_reanchoring_steps() {
    let g = by_name("popup-geometry").unwrap();
    assert_eq!(g[2].0, Command::SelfMove(2, 120, 90));
    assert_eq!(g[5].0, Command::SelfMove(2, 240, 180));
    assert_eq!(g[8].0, Command::SelfMoveResize(2, 120, 90, 280, 220));
    let f = by_name("or-fight").unwrap();
    assert_eq!(f.len(), 12);
    assert_eq!(f[3].0, Command::OrReanchor(2, 20, 10));
    assert_eq!(f[10].0, Command::OrReanchor(2, 160, 80));
}

#[test]
fn withdraw_waits_for_the_placeholder() {
    let s = by_name("withdraw").unwrap();
    assert_eq!(s[1].1, 11_000);
    assert_eq!(s[2].0, Command::Unmap(1));
    assert_eq!(s[3].0, Command::Remap(1));
}

#[test]
fn clipboard_copies_text() {
    let s = by_name("clipboard").unwrap();
    assert_eq!(s[2].0, Command::Copy("hello from an x11 client".to_string()));
    assert_eq!(s[3].0, Command::Paste);
}

#[test]
fn placement_refuses_negative_move() {
    let s = by_name("placement").unwrap();
    assert_eq!(s[4].0, Command::MoveRequest(1, -400, -400));
}
