use compositor_developer::layer_protocol::{Anchor, Command, ForeignCtl, Kbd, Layer, Region, ScaleReq};

#[test]
fn protocol_round_trip() {
    let cases = [
        Command::SetLayer(Layer::Overlay),
        Command::AnchorTop,
        Command::AnchorAll,
        Command::AnchorNone,
        Command::Excl(-1),
        Command::Margin(8, 4, 8, 4),
        Command::Keyboard(Kbd::OnDemand),
        Command::Size(300, 0),
        Command::PopupOff(40, 0),
        Command::PopupAnchor(Anchor::BottomRight),
        Command::Input(Region::Holes),
        Command::Opaque(true),
        Command::OutputCycle,
        Command::Scale(ScaleReq::DpiScale(2)),
        Command::Scale(ScaleReq::FsHonor),
        Command::Transparent(true),
        Command::Animate(false),
        Command::ForeignSel(-1),
        Command::Foreign(ForeignCtl::Activate),
        Command::Foreign(ForeignCtl::Maximized(true)),
        Command::Foreign(ForeignCtl::Fullscreen(false)),
        Command::Recreate,
        Command::Quit,
    ];
    for c in cases {
        let line = c.encode();
        assert_eq!(Command::parse(&line), Some(c.clone()), "line = {line:?}");
    }
}

#[test]
fn layer_encode_exact_lines() {
    assert_eq!(Command::SetLayer(Layer::Overlay).encode(), "layer overlay");
    assert_eq!(Command::Excl(40).encode(), "excl 40");
    assert_eq!(Command::Margin(8, 8, 8, 8).encode(), "margin 8 8 8 8");
    assert_eq!(Command::PopupOff(40, 0).encode(), "popup-off 40 0");
    assert_eq!(Command::Keyboard(Kbd::Disabled).encode(), "kbd none");
    assert_eq!(Command::Input(Region::Empty).encode(), "input none");
    assert_eq!(Command::Opaque(false).encode(), "opaque none");
    assert_eq!(Command::Scale(ScaleReq::DpiScale(-3)).encode(), "dpi-scale -3");
    assert_eq!(Command::Excl(i32::MIN).encode(), "excl -2147483648");
}

#[test]
fn layer_parse_edges() {
    assert_eq!(Command::parse("   kbd   none  extra "), Some(Command::Keyboard(Kbd::Disabled)));
    assert_eq!(Command::parse("excl +7"), Some(Command::Excl(7)));
    assert_eq!(Command::parse("size -1 2"), None);
    assert_eq!(Command::parse("size 4294967296 2"), None);
    assert_eq!(Command::parse("size 4294967295 2"), Some(Command::Size(u32::MAX, 2)));
    assert_eq!(Command::parse("excl"), None);
    assert_eq!(Command::parse(""), None);
    assert_eq!(Command::parse("bogus"), None);
    assert_eq!(Command::parse("transparent 1"), Some(Command::Transparent(true)));
    assert_eq!(Command::parse("transparent false"), Some(Command::Transparent(false)));
    assert_eq!(Command::parse("transparent maybe"), None);
    assert_eq!(Command::parse("excl\t-2147483648\u{3000}"), Some(Command::Excl(i32::MIN)));
    assert_eq!(Command::parse("excl 2147483648"), None);
    assert_eq!(Command::parse("excl -"), None);
    assert_eq!(Command::parse("excl +"), None);
}
