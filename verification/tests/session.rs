use compositor_developer::session::{
    hex8, store_line, store_path, stored_value, Namespace, SessionPhase, SessionState,
};

#[test]
fn session_labels() {
    assert_eq!(Namespace::Xdg.label(), "xdg");
    assert_eq!(Namespace::Xx.global(), "xx_session_manager_v1");
    assert_eq!(SessionPhase::Created.label(), "NEW");
    assert_eq!(SessionPhase::Restored.label(), "RESTORED");
}

#[test]
fn session_bind_and_overlay() {
    let mut s = SessionState::new("main".to_string(), "/tmp/s.txt".to_string(), Namespace::Xdg, true);
    assert_eq!(s.phase, SessionPhase::Pending);
    assert_eq!(s.overlay(), "SESSION[xdg] - [PENDING] VALUE -");
    let restored = s.bind("0123456789abcdef".to_string(), None, "C21FC290".to_string());
    assert!(!restored);
    assert_eq!(s.value.as_deref(), Some("C21FC290"));
    assert_eq!(s.overlay(), "SESSION[xdg] 01234567 [PENDING] VALUE C21FC290");
    let off = SessionState::new("main".to_string(), "/tmp/s.txt".to_string(), Namespace::Xx, false);
    assert_eq!(off.phase, SessionPhase::Absent);
    let mut t = off;
    assert!(t.bind("ab".to_string(), Some("OLD".to_string()), "NEW".to_string()));
    assert_eq!(t.overlay(), "SESSION[xx] ab [ABSENT] VALUE OLD");
}

#[test]
fn session_store_round_trip() {
    let mut text = String::new();
    text.push_str(&store_line("id-1", "AAAA0001"));
    text.push_str("garbage line without a tab\n");
    text.push_str(&store_line("id-2", "BBBB0002"));
    text.push_str(&store_line("id-1", "CCCC0003"));
    assert_eq!(stored_value(&text, "id-1").as_deref(), Some("AAAA0001"));
    assert_eq!(stored_value(&text, "id-2").as_deref(), Some("BBBB0002"));
    assert_eq!(stored_value(&text, "id-3"), None);
    assert_eq!(stored_value("x\tv1\r\ny\tv2", "y").as_deref(), Some("v2"));
    assert_eq!(stored_value("x\tv1\r\ny\tv2", "x").as_deref(), Some("v1"));
    assert_eq!(stored_value("", "x"), None);
    assert_eq!(store_line("a", "b"), "a\tb\n");
}

#[test]
fn session_hex_and_path() {
    assert_eq!(hex8(0xC21F_C290), "C21FC290");
    assert_eq!(hex8(0), "00000000");
    assert_eq!(hex8(0xAB), "000000AB");
    assert_eq!(store_path(None), "/tmp/y5-window-stress-sessions.txt");
    assert_eq!(store_path(Some("/home/u/.local/state".to_string())), "/home/u/.local/state/y5-window-stress-sessions.txt");
}
