//! The layer controller's button grid: three columns of headers and buttons, built from
//! the current parameters. Drawing and hit-testing both read this one layout, so what is
//! drawn is what a click reaches.

use vstd::prelude::*;

use crate::harness::{proto_label, proto_text};
use crate::layer_controller::{anchor_at, anchor_of, Act, Params};
use crate::layer_protocol::{
    encode_spec, lemma_round_trip, parse_spec, Anchor, Command, ForeignCtl, Kbd, Layer, Region,
    ScaleReq,
};
use crate::text::{int_text, push_int, push_str, string_from};

verus! {

/// Width of the controller window the grid is laid out for.
pub const WIN_W: i32 = 800;

/// Height of the controller window the grid is laid out for.
pub const WIN_H: i32 = 880;

/// A clickable button: its rectangle, label and what a click does.
#[derive(Clone, Debug)]
pub struct Btn {
    pub x: i32,
    pub y: i32,
    pub w: i32,
    pub h: i32,
    pub label: String,
    pub act: Act,
}

/// A button as a value: rectangle, label text and action.
pub struct ButtonSpec {
    pub x: int,
    pub y: int,
    pub w: int,
    pub h: int,
    pub label: Seq<char>,
    pub act: Act,
}

/// The value a button stands for.
pub open spec fn button_spec(b: Btn) -> ButtonSpec {
    ButtonSpec { x: b.x as int, y: b.y as int, w: b.w as int, h: b.h as int, label: b.label@, act: b.act }
}

/// The values a list of buttons stands for.
pub open spec fn buttons_spec(v: Seq<Btn>) -> Seq<ButtonSpec> {
    v.map_values(|b: Btn| button_spec(b))
}

/// The values a list of headers (position and text) stands for.
pub open spec fn headers_spec(v: Seq<(i32, i32, String)>) -> Seq<(int, int, Seq<char>)> {
    v.map_values(|t: (i32, i32, String)| (t.0 as int, t.1 as int, t.2@))
}

/// Whether the point `(x, y)` lies on the button.
pub open spec fn contains(b: ButtonSpec, x: int, y: int) -> bool {
    b.x <= x < b.x + b.w && b.y <= y < b.y + b.h
}

// ---------------------------------------------------------------------------------
// Label text
// ---------------------------------------------------------------------------------

/// How `Debug` prints an anchor.
pub open spec fn anchor_name(a: Anchor) -> Seq<char> {
    match a {
        Anchor::Center => "Center"@,
        Anchor::Top => "Top"@,
        Anchor::Bottom => "Bottom"@,
        Anchor::Left => "Left"@,
        Anchor::Right => "Right"@,
        Anchor::TopLeft => "TopLeft"@,
        Anchor::TopRight => "TopRight"@,
        Anchor::BottomLeft => "BottomLeft"@,
        Anchor::BottomRight => "BottomRight"@,
    }
}

/// The `Debug` name of an anchor.
pub fn anchor_name_str(a: Anchor) -> (r: &'static str)
    ensures
        r@ == anchor_name(a),
{
    match a {
        Anchor::Center => "Center",
        Anchor::Top => "Top",
        Anchor::Bottom => "Bottom",
        Anchor::Left => "Left",
        Anchor::Right => "Right",
        Anchor::TopLeft => "TopLeft",
        Anchor::TopRight => "TopRight",
        Anchor::BottomLeft => "BottomLeft",
        Anchor::BottomRight => "BottomRight",
    }
}

/// `EXCLUSIVE ZONE  (<excl>)`.
pub open spec fn excl_header_text(p: Params) -> Seq<char> {
    "EXCLUSIVE ZONE  ("@ + int_text(p.excl as int) + ")"@
}

/// `MARGIN  t<top> r<right> b<bottom> l<left>`.
pub open spec fn margin_header_text(p: Params) -> Seq<char> {
    "MARGIN  t"@ + int_text(p.margins.0 as int) + " r"@ + int_text(p.margins.1 as int) + " b"@
        + int_text(p.margins.2 as int) + " l"@ + int_text(p.margins.3 as int)
}

/// `SIZE  <w>x<h>`.
pub open spec fn size_header_text(p: Params) -> Seq<char> {
    "SIZE  "@ + int_text(p.size.0 as int) + "x"@ + int_text(p.size.1 as int)
}

/// `ANCHOR <anchor>`, the popup anchor the next cycle step moves from.
pub open spec fn anchor_label_text(p: Params) -> Seq<char> {
    "ANCHOR "@ + anchor_name(anchor_at(p.anchor_i as int))
}

/// `GRAV <gravity>`.
pub open spec fn gravity_label_text(p: Params) -> Seq<char> {
    "GRAV "@ + anchor_name(anchor_at(p.gravity_i as int))
}

/// `POPUP OFF <x>,<y>`.
pub open spec fn pop_off_header_text(p: Params) -> Seq<char> {
    "POPUP OFF "@ + int_text(p.pop_off.0 as int) + ","@ + int_text(p.pop_off.1 as int)
}

/// `POPUP SIZE <w>x<h>`.
pub open spec fn pop_size_header_text(p: Params) -> Seq<char> {
    "POPUP SIZE "@ + int_text(p.pop_size.0 as int) + "x"@ + int_text(p.pop_size.1 as int)
}

/// `POPUP MOVE (step <step>)`.
pub open spec fn move_header_text(p: Params) -> Seq<char> {
    "POPUP MOVE (step "@ + int_text(p.move_step as int) + ")"@
}

/// `BUFFER SCALE  (dpi=<dpi>)`.
pub open spec fn scale_header_text(p: Params) -> Seq<char> {
    "BUFFER SCALE  (dpi="@ + int_text(p.dpi_num as int) + ")"@
}

/// `DPI <dpi>`.
pub open spec fn dpi_label_text(p: Params) -> Seq<char> {
    "DPI "@ + int_text(p.dpi_num as int)
}

/// `pre` then the decimal text of `n` then `post`.
fn framed_int(pre: &str, n: i32, post: &str) -> (r: String)
    ensures
        r@ == pre@ + int_text(n as int) + post@,
{
    let mut s = string_from(pre);
    push_int(&mut s, n as i64);
    push_str(&mut s, post);
    s
}

/// `pre`, `a`, `mid`, `b` in decimal where numbers stand.
fn framed_pair(pre: &str, a: i32, mid: &str, b: i32) -> (r: String)
    ensures
        r@ == pre@ + int_text(a as int) + mid@ + int_text(b as int),
{
    let mut s = string_from(pre);
    push_int(&mut s, a as i64);
    push_str(&mut s, mid);
    push_int(&mut s, b as i64);
    s
}

fn excl_header(p: &Params) -> (r: String)
    ensures
        r@ == excl_header_text(*p),
{
    framed_int("EXCLUSIVE ZONE  (", p.excl, ")")
}

fn margin_header(p: &Params) -> (r: String)
    ensures
        r@ == margin_header_text(*p),
{
    let (t, r, b, l) = p.margins;
    let mut s = framed_pair("MARGIN  t", t, " r", r);
    push_str(&mut s, " b");
    push_int(&mut s, b as i64);
    push_str(&mut s, " l");
    push_int(&mut s, l as i64);
    s
}

fn size_header(p: &Params) -> (r: String)
    ensures
        r@ == size_header_text(*p),
{
    framed_pair("SIZE  ", p.size.0, "x", p.size.1)
}

fn anchor_label(p: &Params) -> (r: String)
    requires
        p.wf(),
    ensures
        r@ == anchor_label_text(*p),
{
    let mut s = string_from("ANCHOR ");
    push_str(&mut s, anchor_name_str(anchor_of(p.anchor_i)));
    s
}

fn gravity_label(p: &Params) -> (r: String)
    requires
        p.wf(),
    ensures
        r@ == gravity_label_text(*p),
{
    let mut s = string_from("GRAV ");
    push_str(&mut s, anchor_name_str(anchor_of(p.gravity_i)));
    s
}

fn pop_off_header(p: &Params) -> (r: String)
    ensures
        r@ == pop_off_header_text(*p),
{
    framed_pair("POPUP OFF ", p.pop_off.0, ",", p.pop_off.1)
}

fn pop_size_header(p: &Params) -> (r: String)
    ensures
        r@ == pop_size_header_text(*p),
{
    framed_pair("POPUP SIZE ", p.pop_size.0, "x", p.pop_size.1)
}

fn move_header(p: &Params) -> (r: String)
    ensures
        r@ == move_header_text(*p),
{
    framed_int("POPUP MOVE (step ", p.move_step, ")")
}

fn scale_header(p: &Params) -> (r: String)
    ensures
        r@ == scale_header_text(*p),
{
    framed_int("BUFFER SCALE  (dpi=", p.dpi_num, ")")
}

fn dpi_label(p: &Params) -> (r: String)
    ensures
        r@ == dpi_label_text(*p),
{
    let mut s = string_from("DPI ");
    push_int(&mut s, p.dpi_num as i64);
    s
}

// ---------------------------------------------------------------------------------
// The grid
// ---------------------------------------------------------------------------------

/// The buttons of column 1, top to bottom.
pub open spec fn column_a_buttons(p: Params) -> Seq<ButtonSpec> {
    seq![
        ButtonSpec { x: 8, y: 24, w: 60, h: 20, label: "BACKGROUND"@, act: Act::Send(Command::SetLayer(Layer::Background)) },
        ButtonSpec { x: 70, y: 24, w: 60, h: 20, label: "BOTTOM"@, act: Act::Send(Command::SetLayer(Layer::Bottom)) },
        ButtonSpec { x: 132, y: 24, w: 60, h: 20, label: "TOP"@, act: Act::Send(Command::SetLayer(Layer::Top)) },
        ButtonSpec { x: 194, y: 24, w: 60, h: 20, label: "OVERLAY"@, act: Act::Send(Command::SetLayer(Layer::Overlay)) },
        ButtonSpec { x: 8, y: 63, w: 56, h: 20, label: "TOP"@, act: Act::Send(Command::AnchorTop) },
        ButtonSpec { x: 68, y: 63, w: 56, h: 20, label: "BOTTOM"@, act: Act::Send(Command::AnchorBottom) },
        ButtonSpec { x: 128, y: 63, w: 56, h: 20, label: "LEFT"@, act: Act::Send(Command::AnchorLeft) },
        ButtonSpec { x: 188, y: 63, w: 56, h: 20, label: "RIGHT"@, act: Act::Send(Command::AnchorRight) },
        ButtonSpec { x: 8, y: 86, w: 121, h: 20, label: "ANCHOR ALL"@, act: Act::Send(Command::AnchorAll) },
        ButtonSpec { x: 135, y: 86, w: 121, h: 20, label: "ANCHOR NONE"@, act: Act::Send(Command::AnchorNone) },
        ButtonSpec { x: 8, y: 130, w: 56, h: 20, label: "-1"@, act: Act::Send(Command::Excl(-1i32)) },
        ButtonSpec { x: 68, y: 130, w: 56, h: 20, label: "0"@, act: Act::Send(Command::Excl(0)) },
        ButtonSpec { x: 128, y: 130, w: 56, h: 20, label: "EZ -8"@, act: Act::AdjExcl(-8i32) },
        ButtonSpec { x: 188, y: 130, w: 56, h: 20, label: "EZ +8"@, act: Act::AdjExcl(8) },
        ButtonSpec { x: 8, y: 174, w: 28, h: 20, label: "T-"@, act: Act::AdjMargin(0, -4i32) },
        ButtonSpec { x: 38, y: 174, w: 28, h: 20, label: "T+"@, act: Act::AdjMargin(0, 4) },
        ButtonSpec { x: 70, y: 174, w: 28, h: 20, label: "R-"@, act: Act::AdjMargin(1, -4i32) },
        ButtonSpec { x: 100, y: 174, w: 28, h: 20, label: "R+"@, act: Act::AdjMargin(1, 4) },
        ButtonSpec { x: 132, y: 174, w: 28, h: 20, label: "B-"@, act: Act::AdjMargin(2, -4i32) },
        ButtonSpec { x: 162, y: 174, w: 28, h: 20, label: "B+"@, act: Act::AdjMargin(2, 4) },
        ButtonSpec { x: 194, y: 174, w: 28, h: 20, label: "L-"@, act: Act::AdjMargin(3, -4i32) },
        ButtonSpec { x: 224, y: 174, w: 28, h: 20, label: "L+"@, act: Act::AdjMargin(3, 4) },
        ButtonSpec { x: 8, y: 218, w: 76, h: 20, label: "NONE"@, act: Act::Send(Command::Keyboard(Kbd::Disabled)) },
        ButtonSpec { x: 90, y: 218, w: 76, h: 20, label: "EXCLUSIVE"@, act: Act::Send(Command::Keyboard(Kbd::Exclusive)) },
        ButtonSpec { x: 172, y: 218, w: 80, h: 20, label: "ONDEMAND"@, act: Act::Send(Command::Keyboard(Kbd::OnDemand)) },
        ButtonSpec { x: 8, y: 262, w: 28, h: 20, label: "W-"@, act: Act::AdjSize(-20i32, 0) },
        ButtonSpec { x: 38, y: 262, w: 28, h: 20, label: "W+"@, act: Act::AdjSize(20, 0) },
        ButtonSpec { x: 70, y: 262, w: 28, h: 20, label: "H-"@, act: Act::AdjSize(0, -20i32) },
        ButtonSpec { x: 100, y: 262, w: 28, h: 20, label: "H+"@, act: Act::AdjSize(0, 20) },
        ButtonSpec { x: 132, y: 262, w: 120, h: 20, label: "SIZE 0x0 STRETCH"@, act: Act::Send(Command::Size(0, 0)) },
    ]
}

/// The headers of column 1, top to bottom.
pub open spec fn column_a_headers(p: Params) -> Seq<(int, int, Seq<char>)> {
    seq![
        (8, 8, "LAYER"@),
        (8, 47, "ANCHOR"@),
        (8, 114, excl_header_text(p)),
        (8, 158, margin_header_text(p)),
        (8, 202, "KEYBOARD INTERACTIVITY"@),
        (8, 246, size_header_text(p)),
    ]
}

/// The buttons of column 2, top to bottom.
pub open spec fn column_b_buttons(p: Params) -> Seq<ButtonSpec> {
    seq![
        ButtonSpec { x: 268, y: 24, w: 121, h: 20, label: "POPUP ADD"@, act: Act::Send(Command::PopupAdd) },
        ButtonSpec { x: 395, y: 24, w: 121, h: 20, label: "POPUP CLOSE"@, act: Act::Send(Command::PopupClose) },
        ButtonSpec { x: 268, y: 47, w: 121, h: 20, label: anchor_label_text(p), act: Act::CycleAnchor },
        ButtonSpec { x: 395, y: 47, w: 121, h: 20, label: gravity_label_text(p), act: Act::CycleGravity },
        ButtonSpec { x: 268, y: 86, w: 56, h: 20, label: "OFFX-"@, act: Act::AdjPopOff(-40i32, 0) },
        ButtonSpec { x: 328, y: 86, w: 56, h: 20, label: "OFFX+"@, act: Act::AdjPopOff(40, 0) },
        ButtonSpec { x: 388, y: 86, w: 56, h: 20, label: "OFFY-"@, act: Act::AdjPopOff(0, -40i32) },
        ButtonSpec { x: 448, y: 86, w: 56, h: 20, label: "OFFY+"@, act: Act::AdjPopOff(0, 40) },
        ButtonSpec { x: 268, y: 125, w: 56, h: 20, label: "W-"@, act: Act::AdjPopSize(-20i32, 0) },
        ButtonSpec { x: 328, y: 125, w: 56, h: 20, label: "W+"@, act: Act::AdjPopSize(20, 0) },
        ButtonSpec { x: 388, y: 125, w: 56, h: 20, label: "H-"@, act: Act::AdjPopSize(0, -20i32) },
        ButtonSpec { x: 448, y: 125, w: 56, h: 20, label: "H+"@, act: Act::AdjPopSize(0, 20) },
        ButtonSpec { x: 268, y: 164, w: 56, h: 20, label: "-X"@, act: Act::Send(Command::PopupMove((-p.move_step) as i32, 0)) },
        ButtonSpec { x: 328, y: 164, w: 56, h: 20, label: "+X"@, act: Act::Send(Command::PopupMove(p.move_step, 0)) },
        ButtonSpec { x: 388, y: 164, w: 56, h: 20, label: "-Y"@, act: Act::Send(Command::PopupMove(0, (-p.move_step) as i32)) },
        ButtonSpec { x: 448, y: 164, w: 56, h: 20, label: "+Y"@, act: Act::Send(Command::PopupMove(0, p.move_step)) },
        ButtonSpec { x: 268, y: 208, w: 56, h: 20, label: "FULL"@, act: Act::Send(Command::Input(Region::Full)) },
        ButtonSpec { x: 328, y: 208, w: 56, h: 20, label: "NONE"@, act: Act::Send(Command::Input(Region::Empty)) },
        ButtonSpec { x: 388, y: 208, w: 56, h: 20, label: "CIRCLE"@, act: Act::Send(Command::Input(Region::Circle)) },
        ButtonSpec { x: 448, y: 208, w: 56, h: 20, label: "HOLES"@, act: Act::Send(Command::Input(Region::Holes)) },
        ButtonSpec { x: 268, y: 252, w: 121, h: 20, label: "OPAQUE FULL"@, act: Act::Send(Command::Opaque(true)) },
        ButtonSpec { x: 395, y: 252, w: 121, h: 20, label: "OPAQUE NONE"@, act: Act::Send(Command::Opaque(false)) },
        ButtonSpec { x: 268, y: 296, w: 248, h: 20, label: "OUTPUT CYCLE"@, act: Act::Send(Command::OutputCycle) },
        ButtonSpec { x: 268, y: 319, w: 121, h: 20, label: "TRANSP ON"@, act: Act::Send(Command::Transparent(true)) },
        ButtonSpec { x: 395, y: 319, w: 121, h: 20, label: "TRANSP OFF"@, act: Act::Send(Command::Transparent(false)) },
        ButtonSpec { x: 268, y: 342, w: 121, h: 20, label: "ANIM ON"@, act: Act::Send(Command::Animate(true)) },
        ButtonSpec { x: 395, y: 342, w: 121, h: 20, label: "ANIM OFF"@, act: Act::Send(Command::Animate(false)) },
    ]
}

/// The headers of column 2, top to bottom.
pub open spec fn column_b_headers(p: Params) -> Seq<(int, int, Seq<char>)> {
    seq![
        (268, 8, "POPUP  (from layer surface)"@),
        (268, 70, pop_off_header_text(p)),
        (268, 109, pop_size_header_text(p)),
        (268, 148, move_header_text(p)),
        (268, 192, "INPUT REGION"@),
        (268, 236, "OPAQUE REGION"@),
        (268, 280, "OUTPUT / APPEARANCE"@),
    ]
}

/// The buttons of column 3, top to bottom.
pub open spec fn column_c_buttons(p: Params) -> Seq<ButtonSpec> {
    seq![
        ButtonSpec { x: 528, y: 24, w: 121, h: 20, label: "NORMAL"@, act: Act::Send(Command::Scale(ScaleReq::Normal)) },
        ButtonSpec { x: 655, y: 24, w: 121, h: 20, label: "FS HONOR"@, act: Act::Send(Command::Scale(ScaleReq::FsHonor)) },
        ButtonSpec { x: 528, y: 47, w: 121, h: 20, label: "FS IGNORE"@, act: Act::Send(Command::Scale(ScaleReq::FsIgnore)) },
        ButtonSpec { x: 655, y: 47, w: 121, h: 20, label: "DPI HONOR"@, act: Act::Send(Command::Scale(ScaleReq::DpiHonor)) },
        ButtonSpec { x: 528, y: 70, w: 121, h: 20, label: "DPI IGNORE"@, act: Act::Send(Command::Scale(ScaleReq::DpiIgnore)) },
        ButtonSpec { x: 655, y: 70, w: 36, h: 20, label: dpi_label_text(p), act: Act::Send(Command::Scale(ScaleReq::DpiScale(p.dpi_num))) },
        ButtonSpec { x: 695, y: 70, w: 20, h: 20, label: "-"@, act: Act::AdjDpi(-1i32) },
        ButtonSpec { x: 717, y: 70, w: 20, h: 20, label: "+"@, act: Act::AdjDpi(1) },
        ButtonSpec { x: 528, y: 114, w: 121, h: 20, label: "SEL PREV"@, act: Act::Send(Command::ForeignSel(-1i32)) },
        ButtonSpec { x: 655, y: 114, w: 121, h: 20, label: "SEL NEXT"@, act: Act::Send(Command::ForeignSel(1)) },
        ButtonSpec { x: 528, y: 137, w: 121, h: 20, label: "ACTIVATE"@, act: Act::Send(Command::Foreign(ForeignCtl::Activate)) },
        ButtonSpec { x: 655, y: 137, w: 121, h: 20, label: "CLOSE"@, act: Act::Send(Command::Foreign(ForeignCtl::Close)) },
        ButtonSpec { x: 528, y: 160, w: 56, h: 20, label: "MAX+"@, act: Act::Send(Command::Foreign(ForeignCtl::Maximized(true))) },
        ButtonSpec { x: 588, y: 160, w: 56, h: 20, label: "MAX-"@, act: Act::Send(Command::Foreign(ForeignCtl::Maximized(false))) },
        ButtonSpec { x: 648, y: 160, w: 56, h: 20, label: "MIN+"@, act: Act::Send(Command::Foreign(ForeignCtl::Minimized(true))) },
        ButtonSpec { x: 708, y: 160, w: 56, h: 20, label: "MIN-"@, act: Act::Send(Command::Foreign(ForeignCtl::Minimized(false))) },
        ButtonSpec { x: 528, y: 183, w: 121, h: 20, label: "FULLSCR ON"@, act: Act::Send(Command::Foreign(ForeignCtl::Fullscreen(true))) },
        ButtonSpec { x: 655, y: 183, w: 121, h: 20, label: "FULLSCR OFF"@, act: Act::Send(Command::Foreign(ForeignCtl::Fullscreen(false))) },
        ButtonSpec { x: 528, y: 227, w: 121, h: 20, label: "RECREATE"@, act: Act::Send(Command::Recreate) },
        ButtonSpec { x: 655, y: 227, w: 121, h: 20, label: "QUIT SUBJECT"@, act: Act::Send(Command::Quit) },
        ButtonSpec { x: 528, y: 271, w: 56, h: 20, label: proto_text("VP"@, p.proto_vp), act: Act::ToggleProto(0) },
        ButtonSpec { x: 588, y: 271, w: 56, h: 20, label: proto_text("FS"@, p.proto_fs), act: Act::ToggleProto(1) },
        ButtonSpec { x: 648, y: 271, w: 56, h: 20, label: proto_text("FWLR"@, p.proto_fwlr), act: Act::ToggleProto(2) },
        ButtonSpec { x: 708, y: 271, w: 56, h: 20, label: proto_text("FEXT"@, p.proto_fext), act: Act::ToggleProto(3) },
        ButtonSpec { x: 528, y: 294, w: 248, h: 20, label: "RESPAWN SUBJECT"@, act: Act::Respawn },
    ]
}

/// The headers of column 3, top to bottom.
pub open spec fn column_c_headers(p: Params) -> Seq<(int, int, Seq<char>)> {
    seq![
        (528, 8, scale_header_text(p)),
        (528, 98, "FOREIGN TOPLEVEL (wlr control)"@),
        (528, 211, "LIFECYCLE"@),
        (528, 255, "PROTOCOLS (respawn to apply)"@),
    ]
}


/// Every button, column by column.
pub open spec fn layout_buttons(p: Params) -> Seq<ButtonSpec> {
    column_a_buttons(p) + column_b_buttons(p) + column_c_buttons(p)
}

/// Every header, column by column.
pub open spec fn layout_headers(p: Params) -> Seq<(int, int, Seq<char>)> {
    column_a_headers(p) + column_b_headers(p) + column_c_headers(p)
}

/// Appends a button of the standard height.
fn push_btn(b: &mut Vec<Btn>, x: i32, y: i32, w: i32, label: String, act: Act)
    ensures
        buttons_spec(final(b)@) == buttons_spec(old(b)@).push(
            ButtonSpec { x: x as int, y: y as int, w: w as int, h: 20, label: label@, act },
        ),
{
    let ghost l = label@;
    b.push(Btn { x, y, w, h: 20, label, act });
    assert(buttons_spec(b@) =~= buttons_spec(old(b)@).push(
        ButtonSpec { x: x as int, y: y as int, w: w as int, h: 20, label: l, act },
    ));
}

/// Appends a header.
fn push_hdr(h: &mut Vec<(i32, i32, String)>, x: i32, y: i32, text: String)
    ensures
        headers_spec(final(h)@) == headers_spec(old(h)@).push((x as int, y as int, text@)),
{
    let ghost t = text@;
    h.push((x, y, text));
    assert(headers_spec(h@) =~= headers_spec(old(h)@).push((x as int, y as int, t)));
}

/// Whether a button lies wholly inside the controller window.
pub open spec fn inside_window(b: ButtonSpec) -> bool {
    0 <= b.x && b.x + b.w <= WIN_W && 0 <= b.y && b.y + b.h <= WIN_H
}

/// Every button of the grid lies inside the controller window, whatever the parameters.
pub proof fn lemma_layout_inside_window(p: Params)
    ensures
        forall|k: int|
            0 <= k < layout_buttons(p).len() ==> #[trigger] inside_window(layout_buttons(p)[k]),
{
    let a = column_a_buttons(p);
    let b = column_b_buttons(p);
    let c = column_c_buttons(p);
    assert forall|k: int| 0 <= k < a.len() implies #[trigger] inside_window(a[k]) by {}
    assert forall|k: int| 0 <= k < b.len() implies #[trigger] inside_window(b[k]) by {}
    assert forall|k: int| 0 <= k < c.len() implies #[trigger] inside_window(c[k]) by {}
    assert forall|k: int| 0 <= k < layout_buttons(p).len() implies #[trigger] inside_window(
        layout_buttons(p)[k],
    ) by {
        if k < a.len() {
            assert(layout_buttons(p)[k] == a[k]);
        } else if k < a.len() + b.len() {
            assert(layout_buttons(p)[k] == b[k - a.len()]);
        } else {
            assert(layout_buttons(p)[k] == c[k - a.len() - b.len()]);
        }
    }
}

/// Every command a button of the grid sends comes back unchanged from parsing its wire
/// line, so the subject receives exactly what the button shows.
pub proof fn lemma_layout_sends_round_trip(p: Params)
    ensures
        forall|k: int|
            0 <= k < layout_buttons(p).len() ==> match #[trigger] layout_buttons(p)[k].act {
                Act::Send(c) => parse_spec(encode_spec(c)) == Some(c),
                _ => true,
            },
{
    assert forall|k: int| 0 <= k < layout_buttons(p).len() implies match #[trigger] layout_buttons(
        p,
    )[k].act {
        Act::Send(c) => parse_spec(encode_spec(c)) == Some(c),
        _ => true,
    } by {
        match layout_buttons(p)[k].act {
            Act::Send(c) => lemma_round_trip(c),
            _ => {},
        }
    }
}

/// Whether two buttons share a point.
pub open spec fn overlap(a: ButtonSpec, b: ButtonSpec) -> bool {
    a.x < b.x + b.w && b.x < a.x + a.w && a.y < b.y + b.h && b.y < a.y + a.h
}

/// Whether no two buttons of a list share a point.
pub open spec fn disjoint(s: Seq<ButtonSpec>) -> bool {
    forall|i: int, j: int| 0 <= i < j < s.len() ==> !overlap(#[trigger] s[i], #[trigger] s[j])
}

/// Whether `a` comes strictly before `b` in reading order: further left on the same row,
/// or on an earlier row.
pub open spec fn precedes(a: ButtonSpec, b: ButtonSpec) -> bool {
    (a.y == b.y && a.x + a.w <= b.x) || a.y + a.h <= b.y
}

/// Whether every button of a list comes before the next one, all with positive width and
/// the standard height.
pub open spec fn reading_order(s: Seq<ButtonSpec>) -> bool {
    &&& forall|k: int| 0 <= k < s.len() ==> #[trigger] s[k].w > 0 && s[k].h == 20
    &&& forall|k: int| 0 <= k < s.len() - 1 ==> precedes(#[trigger] s[k], s[k + 1])
}

/// Reading order from position `k` on, checked one neighbour pair at a time.
pub open spec fn ordered_from(s: Seq<ButtonSpec>, k: int) -> bool
    decreases s.len() - k,
{
    if k < 0 || k >= s.len() {
        true
    } else {
        &&& s[k].w > 0
        &&& s[k].h == 20
        &&& (k + 1 >= s.len() || precedes(s[k], s[k + 1]))
        &&& ordered_from(s, k + 1)
    }
}

proof fn lemma_ordered_from(s: Seq<ButtonSpec>, k: int)
    requires
        0 <= k <= s.len(),
        ordered_from(s, k),
    ensures
        forall|j: int| k <= j < s.len() ==> #[trigger] s[j].w > 0 && s[j].h == 20,
        forall|j: int| k <= j < s.len() - 1 ==> precedes(#[trigger] s[j], s[j + 1]),
    decreases s.len() - k,
{
    if k < s.len() {
        lemma_ordered_from(s, k + 1);
    }
}

proof fn lemma_precedes_far(s: Seq<ButtonSpec>, i: int, j: int)
    requires
        reading_order(s),
        0 <= i < j < s.len(),
    ensures
        precedes(s[i], s[j]),
    decreases j - i,
{
    if j > i + 1 {
        lemma_precedes_far(s, i, j - 1);
        assert(precedes(s[j - 1], s[j]));
        assert(s[j - 1].w > 0 && s[i].h == 20 && s[j - 1].h == 20);
    }
}

proof fn lemma_ordered_disjoint(s: Seq<ButtonSpec>)
    requires
        ordered_from(s, 0),
    ensures
        disjoint(s),
{
    lemma_ordered_from(s, 0);
    assert(reading_order(s));
    assert forall|i: int, j: int| 0 <= i < j < s.len() implies !overlap(#[trigger] s[i], #[trigger] s[j]) by {
        lemma_precedes_far(s, i, j);
    }
}

proof fn lemma_column_a_ordered(p: Params)
    ensures
        ordered_from(column_a_buttons(p), 0),
{
    reveal_with_fuel(ordered_from, 31);
}

proof fn lemma_column_b_ordered(p: Params)
    ensures
        ordered_from(column_b_buttons(p), 0),
{
    reveal_with_fuel(ordered_from, 31);
}

proof fn lemma_column_c_ordered(p: Params)
    ensures
        ordered_from(column_c_buttons(p), 0),
{
    reveal_with_fuel(ordered_from, 31);
}

proof fn lemma_layout_inside_columns(p: Params)
    ensures
        forall|k: int|
            0 <= k < column_a_buttons(p).len() ==> #[trigger] column_a_buttons(p)[k].x
                + column_a_buttons(p)[k].w <= 260,
        forall|k: int|
            0 <= k < column_b_buttons(p).len() ==> 268 <= #[trigger] column_b_buttons(p)[k].x
                && column_b_buttons(p)[k].x + column_b_buttons(p)[k].w <= 520,
        forall|k: int|
            0 <= k < column_c_buttons(p).len() ==> 528 <= #[trigger] column_c_buttons(p)[k].x,
{
    let a = column_a_buttons(p);
    let b = column_b_buttons(p);
    let c = column_c_buttons(p);
    assert forall|k: int| 0 <= k < a.len() implies #[trigger] a[k].x + a[k].w <= 260 by {}
    assert forall|k: int| 0 <= k < b.len() implies 268 <= #[trigger] b[k].x && b[k].x + b[k].w <= 520 by {}
    assert forall|k: int| 0 <= k < c.len() implies 528 <= #[trigger] c[k].x by {}
}

/// No two buttons of the grid overlap, so a click lands on at most one button.
pub proof fn lemma_layout_disjoint(p: Params)
    ensures
        disjoint(layout_buttons(p)),
{
    let a = column_a_buttons(p);
    let b = column_b_buttons(p);
    let c = column_c_buttons(p);
    lemma_column_a_ordered(p);
    lemma_column_b_ordered(p);
    lemma_column_c_ordered(p);
    lemma_ordered_disjoint(a);
    lemma_ordered_disjoint(b);
    lemma_ordered_disjoint(c);
    lemma_layout_inside_columns(p);
    let l = layout_buttons(p);
    assert forall|i: int, j: int| 0 <= i < j < l.len() implies !overlap(#[trigger] l[i], #[trigger] l[j]) by {
        if j < a.len() {
            assert(l[i] == a[i] && l[j] == a[j]);
        } else if i >= a.len() + b.len() {
            assert(l[i] == c[i - a.len() - b.len()] && l[j] == c[j - a.len() - b.len()]);
        } else if i >= a.len() && j < a.len() + b.len() {
            assert(l[i] == b[i - a.len()] && l[j] == b[j - a.len()]);
        } else if j < a.len() + b.len() {
            assert(l[i] == a[i] && l[j] == b[j - a.len()]);
        } else if i < a.len() {
            assert(l[i] == a[i] && l[j] == c[j - a.len() - b.len()]);
        } else {
            assert(l[i] == b[i - a.len()] && l[j] == c[j - a.len() - b.len()]);
        }
    }
}

/// The first button, in layout order, that the point `(x, y)` lies on, as a click
/// resolves it; `None` when the point is on no button.
pub fn hit(buttons: &Vec<Btn>, x: i32, y: i32) -> (r: Option<usize>)
    ensures
        match r {
            Some(i) => i < buttons@.len() && contains(button_spec(buttons@[i as int]), x as int, y as int)
                && forall|j: int|
                0 <= j < i ==> !contains(#[trigger] button_spec(buttons@[j]), x as int, y as int),
            None => forall|j: int|
                0 <= j < buttons@.len() ==> !contains(
                    #[trigger] button_spec(buttons@[j]),
                    x as int,
                    y as int,
                ),
        },
{
    let mut i: usize = 0;
    while i < buttons.len()
        invariant
            i <= buttons@.len(),
            forall|j: int|
                0 <= j < i ==> !contains(#[trigger] button_spec(buttons@[j]), x as int, y as int),
        decreases buttons@.len() - i,
    {
        let b = &buttons[i];
        let (bx, by, bw, bh) = (b.x as i64, b.y as i64, b.w as i64, b.h as i64);
        if bx <= x as i64 && (x as i64) < bx + bw && by <= y as i64 && (y as i64) < by + bh {
            return Some(i);
        }
        i += 1;
    }
    None
}

impl Params {
    fn column_a(&self, b: &mut Vec<Btn>, h: &mut Vec<(i32, i32, String)>)
        ensures
            buttons_spec(final(b)@) == buttons_spec(old(b)@) + column_a_buttons(*self),
            headers_spec(final(h)@) == headers_spec(old(h)@) + column_a_headers(*self),
    {
        let ghost b0 = buttons_spec(b@);
        let ghost h0 = headers_spec(h@);
            push_hdr(h, 8, 8, string_from("LAYER"));
            push_btn(b, 8, 24, 60, string_from("BACKGROUND"), Act::Send(Command::SetLayer(Layer::Background)));
            push_btn(b, 70, 24, 60, string_from("BOTTOM"), Act::Send(Command::SetLayer(Layer::Bottom)));
            push_btn(b, 132, 24, 60, string_from("TOP"), Act::Send(Command::SetLayer(Layer::Top)));
            push_btn(b, 194, 24, 60, string_from("OVERLAY"), Act::Send(Command::SetLayer(Layer::Overlay)));
            push_hdr(h, 8, 47, string_from("ANCHOR"));
            push_btn(b, 8, 63, 56, string_from("TOP"), Act::Send(Command::AnchorTop));
            push_btn(b, 68, 63, 56, string_from("BOTTOM"), Act::Send(Command::AnchorBottom));
            push_btn(b, 128, 63, 56, string_from("LEFT"), Act::Send(Command::AnchorLeft));
            push_btn(b, 188, 63, 56, string_from("RIGHT"), Act::Send(Command::AnchorRight));
            push_btn(b, 8, 86, 121, string_from("ANCHOR ALL"), Act::Send(Command::AnchorAll));
            push_btn(b, 135, 86, 121, string_from("ANCHOR NONE"), Act::Send(Command::AnchorNone));
            push_hdr(h, 8, 114, excl_header(self));
            push_btn(b, 8, 130, 56, string_from("-1"), Act::Send(Command::Excl(-1)));
            push_btn(b, 68, 130, 56, string_from("0"), Act::Send(Command::Excl(0)));
            push_btn(b, 128, 130, 56, string_from("EZ -8"), Act::AdjExcl(-8));
            push_btn(b, 188, 130, 56, string_from("EZ +8"), Act::AdjExcl(8));
            push_hdr(h, 8, 158, margin_header(self));
            push_btn(b, 8, 174, 28, string_from("T-"), Act::AdjMargin(0, -4));
            push_btn(b, 38, 174, 28, string_from("T+"), Act::AdjMargin(0, 4));
            push_btn(b, 70, 174, 28, string_from("R-"), Act::AdjMargin(1, -4));
            push_btn(b, 100, 174, 28, string_from("R+"), Act::AdjMargin(1, 4));
            push_btn(b, 132, 174, 28, string_from("B-"), Act::AdjMargin(2, -4));
            push_btn(b, 162, 174, 28, string_from("B+"), Act::AdjMargin(2, 4));
            push_btn(b, 194, 174, 28, string_from("L-"), Act::AdjMargin(3, -4));
            push_btn(b, 224, 174, 28, string_from("L+"), Act::AdjMargin(3, 4));
            push_hdr(h, 8, 202, string_from("KEYBOARD INTERACTIVITY"));
            push_btn(b, 8, 218, 76, string_from("NONE"), Act::Send(Command::Keyboard(Kbd::Disabled)));
            push_btn(b, 90, 218, 76, string_from("EXCLUSIVE"), Act::Send(Command::Keyboard(Kbd::Exclusive)));
            push_btn(b, 172, 218, 80, string_from("ONDEMAND"), Act::Send(Command::Keyboard(Kbd::OnDemand)));
            push_hdr(h, 8, 246, size_header(self));
            push_btn(b, 8, 262, 28, string_from("W-"), Act::AdjSize(-20, 0));
            push_btn(b, 38, 262, 28, string_from("W+"), Act::AdjSize(20, 0));
            push_btn(b, 70, 262, 28, string_from("H-"), Act::AdjSize(0, -20));
            push_btn(b, 100, 262, 28, string_from("H+"), Act::AdjSize(0, 20));
            push_btn(b, 132, 262, 120, string_from("SIZE 0x0 STRETCH"), Act::Send(Command::Size(0, 0)));
        assert(buttons_spec(b@) =~= b0 + column_a_buttons(*self));
        assert(headers_spec(h@) =~= h0 + column_a_headers(*self));
    }

    fn column_b(&self, b: &mut Vec<Btn>, h: &mut Vec<(i32, i32, String)>)
        requires
            self.wf(),
            self.move_step > i32::MIN,
        ensures
            buttons_spec(final(b)@) == buttons_spec(old(b)@) + column_b_buttons(*self),
            headers_spec(final(h)@) == headers_spec(old(h)@) + column_b_headers(*self),
    {
        let ghost b0 = buttons_spec(b@);
        let ghost h0 = headers_spec(h@);
            push_hdr(h, 268, 8, string_from("POPUP  (from layer surface)"));
            push_btn(b, 268, 24, 121, string_from("POPUP ADD"), Act::Send(Command::PopupAdd));
            push_btn(b, 395, 24, 121, string_from("POPUP CLOSE"), Act::Send(Command::PopupClose));
            push_btn(b, 268, 47, 121, anchor_label(self), Act::CycleAnchor);
            push_btn(b, 395, 47, 121, gravity_label(self), Act::CycleGravity);
            push_hdr(h, 268, 70, pop_off_header(self));
            push_btn(b, 268, 86, 56, string_from("OFFX-"), Act::AdjPopOff(-40, 0));
            push_btn(b, 328, 86, 56, string_from("OFFX+"), Act::AdjPopOff(40, 0));
            push_btn(b, 388, 86, 56, string_from("OFFY-"), Act::AdjPopOff(0, -40));
            push_btn(b, 448, 86, 56, string_from("OFFY+"), Act::AdjPopOff(0, 40));
            push_hdr(h, 268, 109, pop_size_header(self));
            push_btn(b, 268, 125, 56, string_from("W-"), Act::AdjPopSize(-20, 0));
            push_btn(b, 328, 125, 56, string_from("W+"), Act::AdjPopSize(20, 0));
            push_btn(b, 388, 125, 56, string_from("H-"), Act::AdjPopSize(0, -20));
            push_btn(b, 448, 125, 56, string_from("H+"), Act::AdjPopSize(0, 20));
            push_hdr(h, 268, 148, move_header(self));
            push_btn(b, 268, 164, 56, string_from("-X"), Act::Send(Command::PopupMove(-self.move_step, 0)));
            push_btn(b, 328, 164, 56, string_from("+X"), Act::Send(Command::PopupMove(self.move_step, 0)));
            push_btn(b, 388, 164, 56, string_from("-Y"), Act::Send(Command::PopupMove(0, -self.move_step)));
            push_btn(b, 448, 164, 56, string_from("+Y"), Act::Send(Command::PopupMove(0, self.move_step)));
            push_hdr(h, 268, 192, string_from("INPUT REGION"));
            push_btn(b, 268, 208, 56, string_from("FULL"), Act::Send(Command::Input(Region::Full)));
            push_btn(b, 328, 208, 56, string_from("NONE"), Act::Send(Command::Input(Region::Empty)));
            push_btn(b, 388, 208, 56, string_from("CIRCLE"), Act::Send(Command::Input(Region::Circle)));
            push_btn(b, 448, 208, 56, string_from("HOLES"), Act::Send(Command::Input(Region::Holes)));
            push_hdr(h, 268, 236, string_from("OPAQUE REGION"));
            push_btn(b, 268, 252, 121, string_from("OPAQUE FULL"), Act::Send(Command::Opaque(true)));
            push_btn(b, 395, 252, 121, string_from("OPAQUE NONE"), Act::Send(Command::Opaque(false)));
            push_hdr(h, 268, 280, string_from("OUTPUT / APPEARANCE"));
            push_btn(b, 268, 296, 248, string_from("OUTPUT CYCLE"), Act::Send(Command::OutputCycle));
            push_btn(b, 268, 319, 121, string_from("TRANSP ON"), Act::Send(Command::Transparent(true)));
            push_btn(b, 395, 319, 121, string_from("TRANSP OFF"), Act::Send(Command::Transparent(false)));
            push_btn(b, 268, 342, 121, string_from("ANIM ON"), Act::Send(Command::Animate(true)));
            push_btn(b, 395, 342, 121, string_from("ANIM OFF"), Act::Send(Command::Animate(false)));
        assert(buttons_spec(b@) =~= b0 + column_b_buttons(*self));
        assert(headers_spec(h@) =~= h0 + column_b_headers(*self));
    }

    fn column_c(&self, b: &mut Vec<Btn>, h: &mut Vec<(i32, i32, String)>)
        ensures
            buttons_spec(final(b)@) == buttons_spec(old(b)@) + column_c_buttons(*self),
            headers_spec(final(h)@) == headers_spec(old(h)@) + column_c_headers(*self),
    {
        let ghost b0 = buttons_spec(b@);
        let ghost h0 = headers_spec(h@);
            push_hdr(h, 528, 8, scale_header(self));
            push_btn(b, 528, 24, 121, string_from("NORMAL"), Act::Send(Command::Scale(ScaleReq::Normal)));
            push_btn(b, 655, 24, 121, string_from("FS HONOR"), Act::Send(Command::Scale(ScaleReq::FsHonor)));
            push_btn(b, 528, 47, 121, string_from("FS IGNORE"), Act::Send(Command::Scale(ScaleReq::FsIgnore)));
            push_btn(b, 655, 47, 121, string_from("DPI HONOR"), Act::Send(Command::Scale(ScaleReq::DpiHonor)));
            push_btn(b, 528, 70, 121, string_from("DPI IGNORE"), Act::Send(Command::Scale(ScaleReq::DpiIgnore)));
            push_btn(b, 655, 70, 36, dpi_label(self), Act::Send(Command::Scale(ScaleReq::DpiScale(self.dpi_num))));
            push_btn(b, 695, 70, 20, string_from("-"), Act::AdjDpi(-1));
            push_btn(b, 717, 70, 20, string_from("+"), Act::AdjDpi(1));
            push_hdr(h, 528, 98, string_from("FOREIGN TOPLEVEL (wlr control)"));
            push_btn(b, 528, 114, 121, string_from("SEL PREV"), Act::Send(Command::ForeignSel(-1)));
            push_btn(b, 655, 114, 121, string_from("SEL NEXT"), Act::Send(Command::ForeignSel(1)));
            push_btn(b, 528, 137, 121, string_from("ACTIVATE"), Act::Send(Command::Foreign(ForeignCtl::Activate)));
            push_btn(b, 655, 137, 121, string_from("CLOSE"), Act::Send(Command::Foreign(ForeignCtl::Close)));
            push_btn(b, 528, 160, 56, string_from("MAX+"), Act::Send(Command::Foreign(ForeignCtl::Maximized(true))));
            push_btn(b, 588, 160, 56, string_from("MAX-"), Act::Send(Command::Foreign(ForeignCtl::Maximized(false))));
            push_btn(b, 648, 160, 56, string_from("MIN+"), Act::Send(Command::Foreign(ForeignCtl::Minimized(true))));
            push_btn(b, 708, 160, 56, string_from("MIN-"), Act::Send(Command::Foreign(ForeignCtl::Minimized(false))));
            push_btn(b, 528, 183, 121, string_from("FULLSCR ON"), Act::Send(Command::Foreign(ForeignCtl::Fullscreen(true))));
            push_btn(b, 655, 183, 121, string_from("FULLSCR OFF"), Act::Send(Command::Foreign(ForeignCtl::Fullscreen(false))));
            push_hdr(h, 528, 211, string_from("LIFECYCLE"));
            push_btn(b, 528, 227, 121, string_from("RECREATE"), Act::Send(Command::Recreate));
            push_btn(b, 655, 227, 121, string_from("QUIT SUBJECT"), Act::Send(Command::Quit));
            push_hdr(h, 528, 255, string_from("PROTOCOLS (respawn to apply)"));
            push_btn(b, 528, 271, 56, proto_label("VP", self.proto_vp), Act::ToggleProto(0));
            push_btn(b, 588, 271, 56, proto_label("FS", self.proto_fs), Act::ToggleProto(1));
            push_btn(b, 648, 271, 56, proto_label("FWLR", self.proto_fwlr), Act::ToggleProto(2));
            push_btn(b, 708, 271, 56, proto_label("FEXT", self.proto_fext), Act::ToggleProto(3));
            push_btn(b, 528, 294, 248, string_from("RESPAWN SUBJECT"), Act::Respawn);
        assert(buttons_spec(b@) =~= b0 + column_c_buttons(*self));
        assert(headers_spec(h@) =~= h0 + column_c_headers(*self));
    }

    /// The button grid and its header labels for the current parameters: layer, anchor,
    /// exclusive zone, margin, keyboard and size controls in the first column; popup,
    /// region and appearance controls in the second; buffer scale, foreign-toplevel,
    /// lifecycle and protocol controls in the third.
    pub fn layout(&self) -> (r: (Vec<Btn>, Vec<(i32, i32, String)>))
        requires
            self.wf(),
            self.move_step > i32::MIN,
        ensures
            buttons_spec(r.0@) == layout_buttons(*self),
            headers_spec(r.1@) == layout_headers(*self),
    {
        let mut b: Vec<Btn> = Vec::new();
        let mut h: Vec<(i32, i32, String)> = Vec::new();
        assert(buttons_spec(b@) =~= Seq::<ButtonSpec>::empty());
        assert(headers_spec(h@) =~= Seq::<(int, int, Seq<char>)>::empty());
        self.column_a(&mut b, &mut h);
        self.column_b(&mut b, &mut h);
        self.column_c(&mut b, &mut h);
        assert(buttons_spec(b@) =~= layout_buttons(*self));
        assert(headers_spec(h@) =~= layout_headers(*self));
        (b, h)
    }
}

} // verus!
