use compositor_developer::diag::Diag;

#[test]
fn diag_role_set_once() {
    let mut d = Diag::new();
    assert_eq!(d.role(), "harness");
    assert_eq!(d.line("INFO", "hello"), "[harness INFO] hello");
    d.set_role("controller");
    d.set_role("subject");
    assert_eq!(d.role(), "controller");
    assert_eq!(d.line("ERR ", "boom"), "[controller ERR ] boom");
}
