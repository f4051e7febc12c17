use compositor_developer::x11_protocol::{all_commands, Command, IconSpec, InputModel, WmType};

#[test]
fn x11_all_commands_round_trip() {
    for c in all_commands() {
        let line = c.encode();
        assert_eq!(Command::parse(&line), Some(c.clone()), "line = {line:?}");
    }
}

#[test]
fn x11_text_takes_rest_of_line() {
    assert_eq!(
        Command::parse("title 1   a  window\twith spaces "),
        Some(Command::Title(1, "  a  window\twith spaces ".to_string()))
    );
    assert_eq!(Command::parse("title 1 a  b"), Some(Command::Title(1, "a  b".to_string())));
    assert_eq!(Command::parse("  class 2\tY5 stress"), Some(Command::Class(2, "Y5 stress".to_string())));
    assert_eq!(Command::parse("copy x\ty"), Some(Command::Copy("x\ty".to_string())));
    assert_eq!(Command::parse("title 1 "), Some(Command::Title(1, String::new())));
    assert_eq!(Command::parse("title 1"), Some(Command::Title(1, String::new())));
    assert_eq!(Command::parse("copy"), Some(Command::Copy(String::new())));
    assert_eq!(Command::parse("exit"), Some(Command::Quit));
    assert_eq!(Command::parse("map-child 1 40 30 200 160 override-redirect menu").map(|c| c.encode()),
        Some("map-child 1 40 30 200 160 or menu".to_string()));
    assert_eq!(Command::parse("opacity 1 256"), None);
    assert_eq!(Command::parse("or 1 -32769 0 1 1"), None);
    assert_eq!(Command::Title(3, "x".into()).encode(), "title 3 x");
}

#[test]
fn x11_vocabularies() {
    assert_eq!(WmType::all().len(), 14);
    for t in WmType::all() {
        assert_eq!(WmType::parse(t.token()), Some(t));
    }
    for s in IconSpec::all() {
        assert_eq!(IconSpec::parse(s.token()), Some(s));
    }
    assert_eq!(WmType::Unset.atom_name(), None);
    assert_eq!(WmType::PopupMenu.atom_name(), Some("_NET_WM_WINDOW_TYPE_POPUP_MENU"));
    assert_eq!(InputModel::parse("globally"), Some(InputModel::GloballyActive));
    assert_eq!(InputModel::NoInput.token(), "none");
    assert_eq!(InputModel::parse("bogus"), None);
}

#[test]
fn x11_text_round_trips_verbatim() {
    for t in ["a  b", "  lead", "trail  ", "tab\there", "", " ", "x\ny"] {
        for c in [Command::Title(7, t.to_string()), Command::Class(7, t.to_string()), Command::Copy(t.to_string())] {
            let line = c.encode();
            assert_eq!(Command::parse(&line), Some(c.clone()), "line = {line:?}");
        }
    }
}

#[test]
fn x11_atoms_spell_their_tokens() {
    for t in WmType::all() {
        match t.atom_name() {
            Some(a) => {
                let want = format!("_NET_WM_WINDOW_TYPE_{}", t.token().to_uppercase().replace('-', "_"));
                assert_eq!(a, want);
            }
            None => assert_eq!(t, WmType::Unset),
        }
    }
}
