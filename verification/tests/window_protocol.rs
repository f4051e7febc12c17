use compositor_developer::window_protocol::{Anchor, Command, DecoMode};

#[test]
fn window_protocol_round_trip() {
    let cases = [
        Command::DecoMode(DecoMode::Server),
        Command::DecoIgnore,
        Command::BufDelta(-40),
        Command::PopupOff(400, 0),
        Command::PopupAnchor(Anchor::BottomRight),
        Command::VpAnimate(true),
        Command::FsScale(180),
        Command::DpiScale(2),
        Command::SpFill(255, 0, 0, 255),
        Command::Size(800, 600),
        Command::Quit,
    ];
    for c in cases {
        let line = c.encode();
        assert_eq!(Command::parse(&line), Some(c.clone()), "line = {line:?}");
    }
}

#[test]
fn window_parse_edges() {
    assert_eq!(Command::parse("deco-mode none"), Some(Command::DecoMode(DecoMode::Undecorated)));
    assert_eq!(Command::parse("sp-fill 255 0 0 256"), None);
    assert_eq!(Command::parse("commitrate 0"), Some(Command::CommitRate(0)));
    assert_eq!(Command::parse("map"), Some(Command::MapWindow));
    assert_eq!(Command::parse("vp-src 0 0 1 1"), None);
    assert_eq!(Command::SpSub(1, 2, 3, 4).encode(), "sp-sub 1 2 3 4");
}

#[test]
fn window_parse_ignores_padding_and_rejects_unknown_verbs() {
    for c in [Command::BufDelta(-40), Command::PopupAnchor(Anchor::TopLeft), Command::Quit, Command::SpFill(1, 2, 3, 4)] {
        let line = format!(" \t{}  \n", c.encode());
        assert_eq!(Command::parse(&line), Some(c));
    }
    assert_eq!(Command::parse(""), None);
    assert_eq!(Command::parse("   "), None);
    assert_eq!(Command::parse("frobnicate 1 2"), None);
}
