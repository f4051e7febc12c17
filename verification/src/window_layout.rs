//! The window controller's button grid: three columns of headers and buttons, built from
//! the current parameters. Drawing and hit-testing both read this one layout, so what is
//! drawn is what a click reaches. Each header stands at its own column's left edge.

use vstd::prelude::*;

use crate::harness::{proto_label, proto_text};
use crate::text::{int_text, push_int, push_str, string_from};
use crate::window_controller::{anchor_at, anchor_of, palette_at, Act, Params};
use crate::window_protocol::{encode_spec, lemma_round_trip, parse_spec, Anchor, Command, DecoMode};

verus! {

/// Width of the controller window the grid is laid out for.
pub const WIN_W: i32 = 780;

/// Height of the controller window the grid is laid out for.
pub const WIN_H: i32 = 760;

/// A clickable button: its rectangle, label and what a click does.
#[derive(Clone, Debug)]
pub struct Btn {
    pub x: i32,
    pub y: i32,
    pub w: i32,
    pub h: i32,
    pub label: String,
    pub act: Act,
}

/// A button as a value: rectangle, label text and action.
pub struct ButtonSpec {
    pub x: int,
    pub y: int,
    pub w: int,
    pub h: int,
    pub label: Seq<char>,
    pub act: Act,
}

/// The value a button stands for.
pub open spec fn button_spec(b: Btn) -> ButtonSpec {
    ButtonSpec { x: b.x as int, y: b.y as int, w: b.w as int, h: b.h as int, label: b.label@, act: b.act }
}

/// The values a list of buttons stands for.
pub open spec fn buttons_spec(v: Seq<Btn>) -> Seq<ButtonSpec> {
    v.map_values(|b: Btn| button_spec(b))
}

/// The values a list of headers (position and text) stands for.
pub open spec fn headers_spec(v: Seq<(i32, i32, String)>) -> Seq<(int, int, Seq<char>)> {
    v.map_values(|t: (i32, i32, String)| (t.0 as int, t.1 as int, t.2@))
}

/// Whether the point `(x, y)` lies on the button.
pub open spec fn contains(b: ButtonSpec, x: int, y: int) -> bool {
    b.x <= x < b.x + b.w && b.y <= y < b.y + b.h
}

// ---------------------------------------------------------------------------------
// Label text
// ---------------------------------------------------------------------------------

/// How `Debug` prints an anchor.
pub open spec fn anchor_debug(a: Anchor) -> Seq<char> {
    match a {
        Anchor::Center => "Center"@,
        Anchor::Top => "Top"@,
        Anchor::Bottom => "Bottom"@,
        Anchor::Left => "Left"@,
        Anchor::Right => "Right"@,
        Anchor::TopLeft => "TopLeft"@,
        Anchor::TopRight => "TopRight"@,
        Anchor::BottomLeft => "BottomLeft"@,
        Anchor::BottomRight => "BottomRight"@,
    }
}

/// How `Debug` prints an anchor, [`anchor_debug`].
pub fn anchor_debug_str(a: Anchor) -> (r: &'static str)
    ensures
        r@ == anchor_debug(a),
{
    match a {
        Anchor::Center => "Center",
        Anchor::Top => "Top",
        Anchor::Bottom => "Bottom",
        Anchor::Left => "Left",
        Anchor::Right => "Right",
        Anchor::TopLeft => "TopLeft",
        Anchor::TopRight => "TopRight",
        Anchor::BottomLeft => "BottomLeft",
        Anchor::BottomRight => "BottomRight",
    }
}

pub open spec fn buffer_header_text(p: Params) -> Seq<char> {
    "BUFFER  (delta="@ + int_text(p.delta as int) + ")"@
}

pub open spec fn buf_delta_label_text(p: Params) -> Seq<char> {
    "BUF DELTA "@ + int_text(p.delta as int)
}

pub open spec fn anchor_label_text(p: Params) -> Seq<char> {
    "ANCHOR "@ + anchor_debug(anchor_at(p.anchor_i as int))
}

pub open spec fn gravity_label_text(p: Params) -> Seq<char> {
    "GRAVITY "@ + anchor_debug(anchor_at(p.gravity_i as int))
}

pub open spec fn off_header_text(p: Params) -> Seq<char> {
    "OFF "@ + int_text(p.off.0 as int) + ","@ + int_text(p.off.1 as int)
}

pub open spec fn pop_size_header_text(p: Params) -> Seq<char> {
    "POPSIZE "@ + int_text(p.pop_size.0 as int) + "x"@ + int_text(p.pop_size.1 as int)
}

pub open spec fn move_header_text(p: Params) -> Seq<char> {
    "POPUP MOVE (step "@ + int_text(p.move_step as int) + ")"@
}

pub open spec fn viewporter_header_text(p: Params) -> Seq<char> {
    "VIEWPORTER  dest="@ + int_text(p.dest.0 as int) + "x"@ + int_text(p.dest.1 as int)
}

pub open spec fn fractional_header_text(p: Params) -> Seq<char> {
    "FRACTIONAL  scale="@ + int_text(p.fs_num as int) + "/120"@
}

pub open spec fn fs_scale_label_text(p: Params) -> Seq<char> {
    "FS SCALE "@ + int_text(p.fs_num as int)
}

pub open spec fn dpi_header_text(p: Params) -> Seq<char> {
    "DPI / INTEGER  scale="@ + int_text(p.dpi_num as int)
}

pub open spec fn dpi_scale_label_text(p: Params) -> Seq<char> {
    "DPI SCALE "@ + int_text(p.dpi_num as int)
}

pub open spec fn single_pixel_header_text(p: Params) -> Seq<char> {
    let (r, g, b) = palette_at(p.color_i as int);
    "SINGLE-PIXEL  rgb=("@ + int_text(r as int) + ","@ + int_text(g as int) + ","@ + int_text(b as int) + ")"@
}

pub open spec fn ns_label_text(p: Params) -> Seq<char> {
    if p.session_xx {
        "NS: xx_ (GTK 4.22)"@
    } else {
        "NS: xdg_ (staging)"@
    }
}

/// `pre` then the decimal text of `n` then `post`.
fn framed_int(pre: &str, n: i32, post: &str) -> (r: String)
    ensures
        r@ == pre@ + int_text(n as int) + post@,
{
    let mut s = string_from(pre);
    push_int(&mut s, n as i64);
    push_str(&mut s, post);
    s
}

/// `pre`, `a`, `mid`, `b` in decimal where numbers stand.
fn framed_pair(pre: &str, a: i32, mid: &str, b: i32) -> (r: String)
    ensures
        r@ == pre@ + int_text(a as int) + mid@ + int_text(b as int),
{
    let mut s = string_from(pre);
    push_int(&mut s, a as i64);
    push_str(&mut s, mid);
    push_int(&mut s, b as i64);
    s
}

fn buffer_header(p: &Params) -> (r: String)
    ensures
        r@ == buffer_header_text(*p),
{
    framed_int("BUFFER  (delta=", p.delta, ")")
}

fn buf_delta_label(p: &Params) -> (r: String)
    ensures
        r@ == buf_delta_label_text(*p),
{
    let mut s = string_from("BUF DELTA ");
    push_int(&mut s, (p.delta) as i64);
    s
}

fn anchor_label(p: &Params) -> (r: String)
    requires
        p.wf(),
    ensures
        r@ == anchor_label_text(*p),
{
    let mut s = string_from("ANCHOR ");
    push_str(&mut s, anchor_debug_str(anchor_of(p.anchor_i)));
    s
}

fn gravity_label(p: &Params) -> (r: String)
    requires
        p.wf(),
    ensures
        r@ == gravity_label_text(*p),
{
    let mut s = string_from("GRAVITY ");
    push_str(&mut s, anchor_debug_str(anchor_of(p.gravity_i)));
    s
}

fn off_header(p: &Params) -> (r: String)
    ensures
        r@ == off_header_text(*p),
{
    framed_pair("OFF ", p.off.0, ",", p.off.1)
}

fn pop_size_header(p: &Params) -> (r: String)
    ensures
        r@ == pop_size_header_text(*p),
{
    framed_pair("POPSIZE ", p.pop_size.0, "x", p.pop_size.1)
}

fn move_header(p: &Params) -> (r: String)
    ensures
        r@ == move_header_text(*p),
{
    framed_int("POPUP MOVE (step ", p.move_step, ")")
}

fn viewporter_header(p: &Params) -> (r: String)
    ensures
        r@ == viewporter_header_text(*p),
{
    framed_pair("VIEWPORTER  dest=", p.dest.0, "x", p.dest.1)
}

fn fractional_header(p: &Params) -> (r: String)
    requires
        p.wf(),
    ensures
        r@ == fractional_header_text(*p),
{
    framed_int("FRACTIONAL  scale=", p.fs_num as i32, "/120")
}

fn fs_scale_label(p: &Params) -> (r: String)
    requires
        p.wf(),
    ensures
        r@ == fs_scale_label_text(*p),
{
    let mut s = string_from("FS SCALE ");
    push_int(&mut s, (p.fs_num as i32) as i64);
    s
}

fn dpi_header(p: &Params) -> (r: String)
    ensures
        r@ == dpi_header_text(*p),
{
    let mut s = string_from("DPI / INTEGER  scale=");
    push_int(&mut s, (p.dpi_num) as i64);
    s
}

fn dpi_scale_label(p: &Params) -> (r: String)
    ensures
        r@ == dpi_scale_label_text(*p),
{
    let mut s = string_from("DPI SCALE ");
    push_int(&mut s, (p.dpi_num) as i64);
    s
}

fn single_pixel_header(p: &Params) -> (r: String)
    requires
        p.wf(),
    ensures
        r@ == single_pixel_header_text(*p),
{
    let (r, g, b, _a) = p.color_rgba();
    let mut s = string_from("SINGLE-PIXEL  rgb=(");
    push_int(&mut s, r as i64);
    push_str(&mut s, ",");
    push_int(&mut s, g as i64);
    push_str(&mut s, ",");
    push_int(&mut s, b as i64);
    push_str(&mut s, ")");
    s
}

fn ns_label(p: &Params) -> (r: String)
    ensures
        r@ == ns_label_text(*p),
{
    if p.session_xx {
        string_from("NS: xx_ (GTK 4.22)")
    } else {
        string_from("NS: xdg_ (staging)")
    }
}

// ---------------------------------------------------------------------------------
// The grid
// ---------------------------------------------------------------------------------

/// The buttons of column 1, top to bottom.
pub open spec fn column_a_buttons(p: Params) -> Seq<ButtonSpec> {
    seq![
        ButtonSpec { x: 8, y: 24, w: 240, h: 20, label: "DECO SERVER"@, act: Act::Send(Command::DecoMode(DecoMode::Server)) },
        ButtonSpec { x: 8, y: 47, w: 240, h: 20, label: "DECO CLIENT"@, act: Act::Send(Command::DecoMode(DecoMode::Client)) },
        ButtonSpec { x: 8, y: 70, w: 240, h: 20, label: "DECO NONE"@, act: Act::Send(Command::DecoMode(DecoMode::Undecorated)) },
        ButtonSpec { x: 8, y: 93, w: 117, h: 20, label: "DECO IGNORE"@, act: Act::Send(Command::DecoIgnore) },
        ButtonSpec { x: 131, y: 93, w: 117, h: 20, label: "DECO BADSIZE"@, act: Act::Send(Command::DecoBadsize) },
        ButtonSpec { x: 8, y: 137, w: 240, h: 20, label: "BUF AGREED"@, act: Act::Send(Command::BufAgreed) },
        ButtonSpec { x: 8, y: 160, w: 117, h: 20, label: buf_delta_label_text(p), act: Act::Send(Command::BufDelta(p.delta)) },
        ButtonSpec { x: 131, y: 160, w: 36, h: 20, label: "-8"@, act: Act::AdjDelta(-8i32) },
        ButtonSpec { x: 171, y: 160, w: 36, h: 20, label: "+8"@, act: Act::AdjDelta(8) },
        ButtonSpec { x: 8, y: 183, w: 117, h: 20, label: "BUF ZERO"@, act: Act::Send(Command::BufZero) },
        ButtonSpec { x: 131, y: 183, w: 117, h: 20, label: "BUF NOACK"@, act: Act::Send(Command::BufNoack) },
        ButtonSpec { x: 8, y: 206, w: 117, h: 20, label: "BUF PREACK"@, act: Act::Send(Command::BufPreack) },
        ButtonSpec { x: 131, y: 206, w: 117, h: 20, label: "GEO MISMATCH"@, act: Act::Send(Command::GeoMismatch) },
        ButtonSpec { x: 8, y: 250, w: 117, h: 20, label: "MAP"@, act: Act::Send(Command::MapWindow) },
        ButtonSpec { x: 131, y: 250, w: 117, h: 20, label: "UNMAP"@, act: Act::Send(Command::Unmap) },
        ButtonSpec { x: 8, y: 273, w: 117, h: 20, label: "MAPCYCLE ON"@, act: Act::Send(Command::MapCycle(true)) },
        ButtonSpec { x: 131, y: 273, w: 117, h: 20, label: "MAPCYCLE OFF"@, act: Act::Send(Command::MapCycle(false)) },
        ButtonSpec { x: 8, y: 296, w: 240, h: 20, label: "SIZE 480x320"@, act: Act::Send(Command::Size(480, 320)) },
        ButtonSpec { x: 8, y: 319, w: 240, h: 20, label: "QUIT SUBJECT"@, act: Act::Send(Command::Quit) },
        ButtonSpec { x: 8, y: 365, w: 117, h: 20, label: "HINT ASYNC"@, act: Act::Send(Command::Tearing(true)) },
        ButtonSpec { x: 131, y: 365, w: 117, h: 20, label: "HINT VSYNC"@, act: Act::Send(Command::Tearing(false)) },
        ButtonSpec { x: 8, y: 388, w: 55, h: 20, label: "OFF"@, act: Act::Send(Command::CommitRate(0)) },
        ButtonSpec { x: 69, y: 388, w: 55, h: 20, label: "30Hz"@, act: Act::Send(Command::CommitRate(30)) },
        ButtonSpec { x: 130, y: 388, w: 55, h: 20, label: "60Hz"@, act: Act::Send(Command::CommitRate(60)) },
        ButtonSpec { x: 191, y: 388, w: 55, h: 20, label: "120Hz"@, act: Act::Send(Command::CommitRate(120)) },
        ButtonSpec { x: 8, y: 411, w: 55, h: 20, label: "144Hz"@, act: Act::Send(Command::CommitRate(144)) },
        ButtonSpec { x: 69, y: 411, w: 55, h: 20, label: "240Hz"@, act: Act::Send(Command::CommitRate(240)) },
        ButtonSpec { x: 130, y: 411, w: 55, h: 20, label: "300Hz"@, act: Act::Send(Command::CommitRate(300)) },
        ButtonSpec { x: 191, y: 411, w: 55, h: 20, label: "500Hz"@, act: Act::Send(Command::CommitRate(500)) },
        ButtonSpec { x: 8, y: 434, w: 117, h: 20, label: "COUNTER ON"@, act: Act::Send(Command::ShowCounter(true)) },
        ButtonSpec { x: 131, y: 434, w: 117, h: 20, label: "COUNTER OFF"@, act: Act::Send(Command::ShowCounter(false)) },
    ]
}

/// The headers of column 1, top to bottom.
pub open spec fn column_a_headers(p: Params) -> Seq<(int, int, Seq<char>)> {
    seq![
        (8, 8, "DECORATION"@),
        (8, 121, buffer_header_text(p)),
        (8, 234, "LIFECYCLE"@),
        (8, 349, "TEARING"@),
    ]
}

/// The buttons of column 2, top to bottom.
pub open spec fn column_b_buttons(p: Params) -> Seq<ButtonSpec> {
    seq![
        ButtonSpec { x: 260, y: 24, w: 117, h: 20, label: "POPUP ADD"@, act: Act::Send(Command::PopupAdd) },
        ButtonSpec { x: 383, y: 24, w: 117, h: 20, label: "POPUP NEST"@, act: Act::Send(Command::PopupNest) },
        ButtonSpec { x: 260, y: 47, w: 117, h: 20, label: "POPUP CLOSE"@, act: Act::Send(Command::PopupClose) },
        ButtonSpec { x: 383, y: 47, w: 117, h: 20, label: anchor_label_text(p), act: Act::CycleAnchor },
        ButtonSpec { x: 260, y: 70, w: 240, h: 20, label: gravity_label_text(p), act: Act::CycleGravity },
        ButtonSpec { x: 260, y: 109, w: 56, h: 20, label: "OFFX-"@, act: Act::AdjOff(-40i32, 0) },
        ButtonSpec { x: 320, y: 109, w: 56, h: 20, label: "OFFX+"@, act: Act::AdjOff(40, 0) },
        ButtonSpec { x: 380, y: 109, w: 56, h: 20, label: "OFFY-"@, act: Act::AdjOff(0, -40i32) },
        ButtonSpec { x: 440, y: 109, w: 56, h: 20, label: "OFFY+"@, act: Act::AdjOff(0, 40) },
        ButtonSpec { x: 260, y: 148, w: 56, h: 20, label: "W-"@, act: Act::AdjPopSize(-20i32, 0) },
        ButtonSpec { x: 320, y: 148, w: 56, h: 20, label: "W+"@, act: Act::AdjPopSize(20, 0) },
        ButtonSpec { x: 380, y: 148, w: 56, h: 20, label: "H-"@, act: Act::AdjPopSize(0, -20i32) },
        ButtonSpec { x: 440, y: 148, w: 56, h: 20, label: "H+"@, act: Act::AdjPopSize(0, 20) },
        ButtonSpec { x: 260, y: 187, w: 56, h: 20, label: "-X"@, act: Act::Send(Command::PopupMove((-p.move_step) as i32, 0)) },
        ButtonSpec { x: 320, y: 187, w: 56, h: 20, label: "+X"@, act: Act::Send(Command::PopupMove(p.move_step, 0)) },
        ButtonSpec { x: 380, y: 187, w: 56, h: 20, label: "-Y"@, act: Act::Send(Command::PopupMove(0, (-p.move_step) as i32)) },
        ButtonSpec { x: 440, y: 187, w: 56, h: 20, label: "+Y"@, act: Act::Send(Command::PopupMove(0, p.move_step)) },
        ButtonSpec { x: 260, y: 231, w: 117, h: 20, label: "SUB ADD"@, act: Act::Send(Command::SubAdd) },
        ButtonSpec { x: 383, y: 231, w: 117, h: 20, label: "SUB NEST"@, act: Act::Send(Command::SubNest) },
        ButtonSpec { x: 260, y: 254, w: 117, h: 20, label: "SUB REMOVE"@, act: Act::Send(Command::SubRemove) },
        ButtonSpec { x: 383, y: 254, w: 117, h: 20, label: "SUB SYNC"@, act: Act::Send(Command::SubSync) },
        ButtonSpec { x: 260, y: 277, w: 240, h: 20, label: "SUB DESYNC"@, act: Act::Send(Command::SubDesync) },
        ButtonSpec { x: 260, y: 316, w: 56, h: 20, label: "-X"@, act: Act::Send(Command::SubMove((-p.move_step) as i32, 0)) },
        ButtonSpec { x: 320, y: 316, w: 56, h: 20, label: "+X"@, act: Act::Send(Command::SubMove(p.move_step, 0)) },
        ButtonSpec { x: 380, y: 316, w: 56, h: 20, label: "-Y"@, act: Act::Send(Command::SubMove(0, (-p.move_step) as i32)) },
        ButtonSpec { x: 440, y: 316, w: 56, h: 20, label: "+Y"@, act: Act::Send(Command::SubMove(0, p.move_step)) },
    ]
}

/// The headers of column 2, top to bottom.
pub open spec fn column_b_headers(p: Params) -> Seq<(int, int, Seq<char>)> {
    seq![
        (260, 8, "POPUP"@),
        (260, 93, off_header_text(p)),
        (260, 132, pop_size_header_text(p)),
        (260, 171, move_header_text(p)),
        (260, 215, "SUBSURFACE"@),
        (260, 300, "SUB MOVE"@),
    ]
}

/// The buttons of column 3, top to bottom.
pub open spec fn column_c_buttons(p: Params) -> Seq<ButtonSpec> {
    column_c_top_buttons(p) + column_c_bottom_buttons(p)
}

/// The viewporter buttons of column 3.
pub open spec fn column_c_top_buttons(p: Params) -> Seq<ButtonSpec> {
    seq![
        ButtonSpec { x: 512, y: 24, w: 117, h: 20, label: "VP DEST"@, act: Act::Send(Command::VpDest(p.dest.0, p.dest.1)) },
        ButtonSpec { x: 635, y: 24, w: 117, h: 20, label: "VP UNSET"@, act: Act::Send(Command::VpUnset) },
        ButtonSpec { x: 512, y: 47, w: 56, h: 20, label: "W-"@, act: Act::AdjDest(-20i32, 0) },
        ButtonSpec { x: 572, y: 47, w: 56, h: 20, label: "W+"@, act: Act::AdjDest(20, 0) },
        ButtonSpec { x: 632, y: 47, w: 56, h: 20, label: "H-"@, act: Act::AdjDest(0, -20i32) },
        ButtonSpec { x: 692, y: 47, w: 56, h: 20, label: "H+"@, act: Act::AdjDest(0, 20) },
        ButtonSpec { x: 512, y: 70, w: 117, h: 20, label: "VP DELTA -20"@, act: Act::Send(Command::VpDestDelta(-20i32)) },
        ButtonSpec { x: 635, y: 70, w: 117, h: 20, label: "VP DELTA +20"@, act: Act::Send(Command::VpDestDelta(20)) },
        ButtonSpec { x: 512, y: 93, w: 117, h: 20, label: "VP SRC CROP"@, act: Act::SendVpSrc(0, 0, 0x4064_0000_0000_0000, 0x405E_0000_0000_0000) },
        ButtonSpec { x: 635, y: 93, w: 117, h: 20, label: "VP BAD"@, act: Act::Send(Command::VpBad) },
        ButtonSpec { x: 512, y: 116, w: 117, h: 20, label: "VP ANIM ON"@, act: Act::Send(Command::VpAnimate(true)) },
        ButtonSpec { x: 635, y: 116, w: 117, h: 20, label: "VP ANIM OFF"@, act: Act::Send(Command::VpAnimate(false)) },
    ]
}

/// The scale, single-pixel, protocol and session buttons of column 3.
pub open spec fn column_c_bottom_buttons(p: Params) -> Seq<ButtonSpec> {
    seq![
        ButtonSpec { x: 512, y: 160, w: 56, h: 20, label: "FS HON"@, act: Act::Send(Command::FsHonor) },
        ButtonSpec { x: 572, y: 160, w: 56, h: 20, label: "FS IGN"@, act: Act::Send(Command::FsIgnore) },
        ButtonSpec { x: 632, y: 160, w: 56, h: 20, label: "NOVP"@, act: Act::Send(Command::FsNoViewport) },
        ButtonSpec { x: 692, y: 160, w: 56, h: 20, label: "MISM"@, act: Act::Send(Command::FsMismatch) },
        ButtonSpec { x: 512, y: 183, w: 117, h: 20, label: fs_scale_label_text(p), act: Act::Send(Command::FsScale(p.fs_num)) },
        ButtonSpec { x: 635, y: 183, w: 36, h: 20, label: "-"@, act: Act::AdjFs(-30i32) },
        ButtonSpec { x: 675, y: 183, w: 36, h: 20, label: "+"@, act: Act::AdjFs(30) },
        ButtonSpec { x: 512, y: 227, w: 56, h: 20, label: "HONOR"@, act: Act::Send(Command::DpiHonor) },
        ButtonSpec { x: 572, y: 227, w: 56, h: 20, label: "IGNORE"@, act: Act::Send(Command::DpiIgnore) },
        ButtonSpec { x: 632, y: 227, w: 56, h: 20, label: "NONDIV"@, act: Act::Send(Command::DpiNondiv) },
        ButtonSpec { x: 692, y: 227, w: 56, h: 20, label: "MISM"@, act: Act::Send(Command::DpiMismatch) },
        ButtonSpec { x: 512, y: 250, w: 117, h: 20, label: dpi_scale_label_text(p), act: Act::Send(Command::DpiScale(p.dpi_num)) },
        ButtonSpec { x: 635, y: 250, w: 36, h: 20, label: "-"@, act: Act::AdjDpi(-1i32) },
        ButtonSpec { x: 675, y: 250, w: 36, h: 20, label: "+"@, act: Act::AdjDpi(1) },
        ButtonSpec { x: 512, y: 273, w: 240, h: 20, label: "DPI ZERO (proto err)"@, act: Act::Send(Command::DpiZero) },
        ButtonSpec { x: 512, y: 317, w: 117, h: 20, label: "SP FILL"@, act: Act::Send(Command::SpFill(palette_at(p.color_i as int).0, palette_at(p.color_i as int).1, palette_at(p.color_i as int).2, 255)) },
        ButtonSpec { x: 635, y: 317, w: 117, h: 20, label: "SP SUB"@, act: Act::Send(Command::SpSub(palette_at(p.color_i as int).0, palette_at(p.color_i as int).1, palette_at(p.color_i as int).2, 255)) },
        ButtonSpec { x: 512, y: 340, w: 117, h: 20, label: "SP NOVP"@, act: Act::Send(Command::SpNoViewport) },
        ButtonSpec { x: 635, y: 340, w: 117, h: 20, label: "CYCLE COLOR"@, act: Act::CycleColor },
        ButtonSpec { x: 512, y: 384, w: 56, h: 20, label: proto_text("DEC"@, p.proto_deco), act: Act::ToggleProto(0) },
        ButtonSpec { x: 572, y: 384, w: 56, h: 20, label: proto_text("VP"@, p.proto_vp), act: Act::ToggleProto(1) },
        ButtonSpec { x: 632, y: 384, w: 56, h: 20, label: proto_text("FS"@, p.proto_fs), act: Act::ToggleProto(2) },
        ButtonSpec { x: 692, y: 384, w: 56, h: 20, label: proto_text("SP"@, p.proto_sp), act: Act::ToggleProto(3) },
        ButtonSpec { x: 512, y: 407, w: 240, h: 20, label: "RESPAWN SUBJECT"@, act: Act::Respawn },
        ButtonSpec { x: 512, y: 451, w: 117, h: 20, label: "SPAWN 1"@, act: Act::SpawnSession(1) },
        ButtonSpec { x: 635, y: 451, w: 117, h: 20, label: "SPAWN 3"@, act: Act::SpawnSession(3) },
        ButtonSpec { x: 512, y: 474, w: 117, h: 20, label: "FORGET"@, act: Act::ForgetSession },
        ButtonSpec { x: 635, y: 474, w: 117, h: 20, label: "CLEAR STORE"@, act: Act::ClearSessionStore },
        ButtonSpec { x: 512, y: 497, w: 240, h: 20, label: ns_label_text(p), act: Act::ToggleSessionNs },

    ]
}

/// The headers of column 3, top to bottom.
pub open spec fn column_c_headers(p: Params) -> Seq<(int, int, Seq<char>)> {
    column_c_top_headers(p) + column_c_bottom_headers(p)
}

/// The viewporter header of column 3.
pub open spec fn column_c_top_headers(p: Params) -> Seq<(int, int, Seq<char>)> {
    seq![
        (512, 8, viewporter_header_text(p)),
    ]
}

/// The remaining headers of column 3.
pub open spec fn column_c_bottom_headers(p: Params) -> Seq<(int, int, Seq<char>)> {
    seq![
        (512, 144, fractional_header_text(p)),
        (512, 211, dpi_header_text(p)),
        (512, 301, single_pixel_header_text(p)),
        (512, 368, "PROTOCOLS (respawn to apply)"@),
        (512, 435, "SESSION RESTORE (detached subjects)"@),

    ]
}

/// Every button, column by column.
pub open spec fn layout_buttons(p: Params) -> Seq<ButtonSpec> {
    column_a_buttons(p) + column_b_buttons(p) + column_c_buttons(p)
}

/// Every header, column by column.
pub open spec fn layout_headers(p: Params) -> Seq<(int, int, Seq<char>)> {
    column_a_headers(p) + column_b_headers(p) + column_c_headers(p)
}

/// Appends a button of the standard height.
fn push_btn(b: &mut Vec<Btn>, x: i32, y: i32, w: i32, label: String, act: Act)
    ensures
        buttons_spec(final(b)@) == buttons_spec(old(b)@).push(
            ButtonSpec { x: x as int, y: y as int, w: w as int, h: 20, label: label@, act },
        ),
{
    let ghost l = label@;
    b.push(Btn { x, y, w, h: 20, label, act });
    assert(buttons_spec(b@) =~= buttons_spec(old(b)@).push(
        ButtonSpec { x: x as int, y: y as int, w: w as int, h: 20, label: l, act },
    ));
}

/// Appends a header.
fn push_hdr(h: &mut Vec<(i32, i32, String)>, x: i32, y: i32, text: String)
    ensures
        headers_spec(final(h)@) == headers_spec(old(h)@).push((x as int, y as int, text@)),
{
    let ghost t = text@;
    h.push((x, y, text));
    assert(headers_spec(h@) =~= headers_spec(old(h)@).push((x as int, y as int, t)));
}

/// Whether a button lies wholly inside the controller window.
pub open spec fn inside_window(b: ButtonSpec) -> bool {
    0 <= b.x && b.x + b.w <= WIN_W && 0 <= b.y && b.y + b.h <= WIN_H
}

/// Every button of the grid lies inside the controller window, whatever the parameters.
pub proof fn lemma_layout_inside_window(p: Params)
    ensures
        forall|k: int|
            0 <= k < layout_buttons(p).len() ==> #[trigger] inside_window(layout_buttons(p)[k]),
{
    let a = column_a_buttons(p);
    let b = column_b_buttons(p);
    let c = column_c_buttons(p);
    assert forall|k: int| 0 <= k < a.len() implies #[trigger] inside_window(a[k]) by {}
    assert forall|k: int| 0 <= k < b.len() implies #[trigger] inside_window(b[k]) by {}
    assert forall|k: int| 0 <= k < c.len() implies #[trigger] inside_window(c[k]) by {}
    assert forall|k: int| 0 <= k < layout_buttons(p).len() implies #[trigger] inside_window(
        layout_buttons(p)[k],
    ) by {
        if k < a.len() {
            assert(layout_buttons(p)[k] == a[k]);
        } else if k < a.len() + b.len() {
            assert(layout_buttons(p)[k] == b[k - a.len()]);
        } else {
            assert(layout_buttons(p)[k] == c[k - a.len() - b.len()]);
        }
    }
}

/// Every command a button of the grid sends comes back unchanged from parsing its wire
/// line, so the subject receives exactly what the button shows.
pub proof fn lemma_layout_sends_round_trip(p: Params)
    ensures
        forall|k: int|
            0 <= k < layout_buttons(p).len() ==> match #[trigger] layout_buttons(p)[k].act {
                Act::Send(c) => parse_spec(encode_spec(c)) == Some(c),
                _ => true,
            },
{
    assert forall|k: int| 0 <= k < layout_buttons(p).len() implies match #[trigger] layout_buttons(
        p,
    )[k].act {
        Act::Send(c) => parse_spec(encode_spec(c)) == Some(c),
        _ => true,
    } by {
        match layout_buttons(p)[k].act {
            Act::Send(c) => lemma_round_trip(c),
            _ => {},
        }
    }
}

/// Whether two buttons share a point.
pub open spec fn overlap(a: ButtonSpec, b: ButtonSpec) -> bool {
    a.x < b.x + b.w && b.x < a.x + a.w && a.y < b.y + b.h && b.y < a.y + a.h
}

/// Whether no two buttons of a list share a point.
pub open spec fn disjoint(s: Seq<ButtonSpec>) -> bool {
    forall|i: int, j: int| 0 <= i < j < s.len() ==> !overlap(#[trigger] s[i], #[trigger] s[j])
}

/// Whether `a` comes strictly before `b` in reading order: further left on the same row,
/// or on an earlier row.
pub open spec fn precedes(a: ButtonSpec, b: ButtonSpec) -> bool {
    (a.y == b.y && a.x + a.w <= b.x) || a.y + a.h <= b.y
}

/// Reading order from position `k` on, checked one neighbour pair at a time.
pub open spec fn ordered_from(s: Seq<ButtonSpec>, k: int) -> bool
    decreases s.len() - k,
{
    if k < 0 || k >= s.len() {
        true
    } else {
        &&& s[k].w > 0
        &&& s[k].h == 20
        &&& (k + 1 >= s.len() || precedes(s[k], s[k + 1]))
        &&& ordered_from(s, k + 1)
    }
}

proof fn lemma_ordered_from(s: Seq<ButtonSpec>, k: int)
    requires
        0 <= k <= s.len(),
        ordered_from(s, k),
    ensures
        forall|j: int| k <= j < s.len() ==> #[trigger] s[j].w > 0 && s[j].h == 20,
        forall|j: int| k <= j < s.len() - 1 ==> precedes(#[trigger] s[j], s[j + 1]),
    decreases s.len() - k,
{
    if k < s.len() {
        lemma_ordered_from(s, k + 1);
    }
}

proof fn lemma_precedes_far(s: Seq<ButtonSpec>, i: int, j: int)
    requires
        forall|k: int| 0 <= k < s.len() ==> #[trigger] s[k].w > 0 && s[k].h == 20,
        forall|k: int| 0 <= k < s.len() - 1 ==> precedes(#[trigger] s[k], s[k + 1]),
        0 <= i < j < s.len(),
    ensures
        precedes(s[i], s[j]),
    decreases j - i,
{
    if j > i + 1 {
        lemma_precedes_far(s, i, j - 1);
        assert(precedes(s[j - 1], s[j]));
        assert(s[j - 1].w > 0 && s[i].h == 20 && s[j - 1].h == 20);
    }
}

proof fn lemma_ordered_disjoint(s: Seq<ButtonSpec>)
    requires
        ordered_from(s, 0),
    ensures
        disjoint(s),
{
    lemma_ordered_from(s, 0);
    assert forall|i: int, j: int| 0 <= i < j < s.len() implies !overlap(#[trigger] s[i], #[trigger] s[j]) by {
        lemma_precedes_far(s, i, j);
    }
}

proof fn lemma_column_a_ordered(p: Params)
    ensures
        ordered_from(column_a_buttons(p), 0),
{
    reveal_with_fuel(ordered_from, 45);
}

proof fn lemma_column_b_ordered(p: Params)
    ensures
        ordered_from(column_b_buttons(p), 0),
{
    reveal_with_fuel(ordered_from, 45);
}

proof fn lemma_column_c_ordered(p: Params)
    ensures
        ordered_from(column_c_buttons(p), 0),
{
    reveal_with_fuel(ordered_from, 45);
}

proof fn lemma_layout_inside_columns(p: Params)
    ensures
        forall|k: int|
            0 <= k < column_a_buttons(p).len() ==> #[trigger] column_a_buttons(p)[k].x
                + column_a_buttons(p)[k].w <= 250,
        forall|k: int|
            0 <= k < column_b_buttons(p).len() ==> 260 <= #[trigger] column_b_buttons(p)[k].x
                && column_b_buttons(p)[k].x + column_b_buttons(p)[k].w <= 502,
        forall|k: int|
            0 <= k < column_c_buttons(p).len() ==> 512 <= #[trigger] column_c_buttons(p)[k].x,
{
    let a = column_a_buttons(p);
    let b = column_b_buttons(p);
    let c = column_c_buttons(p);
    assert forall|k: int| 0 <= k < a.len() implies #[trigger] a[k].x + a[k].w <= 250 by {}
    assert forall|k: int| 0 <= k < b.len() implies 260 <= #[trigger] b[k].x && b[k].x + b[k].w <= 502 by {}
    assert forall|k: int| 0 <= k < c.len() implies 512 <= #[trigger] c[k].x by {}
}

/// No two buttons of the grid overlap, so a click lands on at most one button.
#[verifier::rlimit(60)]
pub proof fn lemma_layout_disjoint(p: Params)
    ensures
        disjoint(layout_buttons(p)),
{
    let a = column_a_buttons(p);
    let b = column_b_buttons(p);
    let c = column_c_buttons(p);
    lemma_column_a_ordered(p);
    lemma_column_b_ordered(p);
    lemma_column_c_ordered(p);
    lemma_ordered_disjoint(a);
    lemma_ordered_disjoint(b);
    lemma_ordered_disjoint(c);
    lemma_layout_inside_columns(p);
    let l = layout_buttons(p);
    assert forall|i: int, j: int| 0 <= i < j < l.len() implies !overlap(#[trigger] l[i], #[trigger] l[j]) by {
        if j < a.len() {
            assert(l[i] == a[i] && l[j] == a[j]);
        } else if i >= a.len() + b.len() {
            assert(l[i] == c[i - a.len() - b.len()] && l[j] == c[j - a.len() - b.len()]);
        } else if i >= a.len() && j < a.len() + b.len() {
            assert(l[i] == b[i - a.len()] && l[j] == b[j - a.len()]);
        } else if j < a.len() + b.len() {
            assert(l[i] == a[i] && l[j] == b[j - a.len()]);
        } else if i < a.len() {
            assert(l[i] == a[i] && l[j] == c[j - a.len() - b.len()]);
        } else {
            assert(l[i] == b[i - a.len()] && l[j] == c[j - a.len() - b.len()]);
        }
    }
}

/// The first button, in layout order, that the point `(x, y)` lies on, as a click
/// resolves it; `None` when the point is on no button.
pub fn hit(buttons: &Vec<Btn>, x: i32, y: i32) -> (r: Option<usize>)
    ensures
        match r {
            Some(i) => i < buttons@.len() && contains(button_spec(buttons@[i as int]), x as int, y as int)
                && forall|j: int|
                0 <= j < i ==> !contains(#[trigger] button_spec(buttons@[j]), x as int, y as int),
            None => forall|j: int|
                0 <= j < buttons@.len() ==> !contains(
                    #[trigger] button_spec(buttons@[j]),
                    x as int,
                    y as int,
                ),
        },
{
    let mut i: usize = 0;
    while i < buttons.len()
        invariant
            i <= buttons@.len(),
            forall|j: int|
                0 <= j < i ==> !contains(#[trigger] button_spec(buttons@[j]), x as int, y as int),
        decreases buttons@.len() - i,
    {
        let b = &buttons[i];
        let (bx, by, bw, bh) = (b.x as i64, b.y as i64, b.w as i64, b.h as i64);
        if bx <= x as i64 && (x as i64) < bx + bw && by <= y as i64 && (y as i64) < by + bh {
            return Some(i);
        }
        i += 1;
    }
    None
}

impl Params {
    fn column_a(&self, b: &mut Vec<Btn>, h: &mut Vec<(i32, i32, String)>)
        ensures
            buttons_spec(final(b)@) == buttons_spec(old(b)@) + column_a_buttons(*self),
            headers_spec(final(h)@) == headers_spec(old(h)@) + column_a_headers(*self),
    {
        let ghost b0 = buttons_spec(b@);
        let ghost h0 = headers_spec(h@);
        push_hdr(h, 8, 8, string_from("DECORATION"));
        push_btn(b, 8, 24, 240, string_from("DECO SERVER"), Act::Send(Command::DecoMode(DecoMode::Server)));
        push_btn(b, 8, 47, 240, string_from("DECO CLIENT"), Act::Send(Command::DecoMode(DecoMode::Client)));
        push_btn(b, 8, 70, 240, string_from("DECO NONE"), Act::Send(Command::DecoMode(DecoMode::Undecorated)));
        push_btn(b, 8, 93, 117, string_from("DECO IGNORE"), Act::Send(Command::DecoIgnore));
        push_btn(b, 131, 93, 117, string_from("DECO BADSIZE"), Act::Send(Command::DecoBadsize));
        push_hdr(h, 8, 121, buffer_header(self));
        push_btn(b, 8, 137, 240, string_from("BUF AGREED"), Act::Send(Command::BufAgreed));
        push_btn(b, 8, 160, 117, buf_delta_label(self), Act::Send(Command::BufDelta(self.delta)));
        push_btn(b, 131, 160, 36, string_from("-8"), Act::AdjDelta(-8));
        push_btn(b, 171, 160, 36, string_from("+8"), Act::AdjDelta(8));
        push_btn(b, 8, 183, 117, string_from("BUF ZERO"), Act::Send(Command::BufZero));
        push_btn(b, 131, 183, 117, string_from("BUF NOACK"), Act::Send(Command::BufNoack));
        push_btn(b, 8, 206, 117, string_from("BUF PREACK"), Act::Send(Command::BufPreack));
        push_btn(b, 131, 206, 117, string_from("GEO MISMATCH"), Act::Send(Command::GeoMismatch));
        push_hdr(h, 8, 234, string_from("LIFECYCLE"));
        push_btn(b, 8, 250, 117, string_from("MAP"), Act::Send(Command::MapWindow));
        push_btn(b, 131, 250, 117, string_from("UNMAP"), Act::Send(Command::Unmap));
        push_btn(b, 8, 273, 117, string_from("MAPCYCLE ON"), Act::Send(Command::MapCycle(true)));
        push_btn(b, 131, 273, 117, string_from("MAPCYCLE OFF"), Act::Send(Command::MapCycle(false)));
        push_btn(b, 8, 296, 240, string_from("SIZE 480x320"), Act::Send(Command::Size(480, 320)));
        push_btn(b, 8, 319, 240, string_from("QUIT SUBJECT"), Act::Send(Command::Quit));
        push_hdr(h, 8, 349, string_from("TEARING"));
        push_btn(b, 8, 365, 117, string_from("HINT ASYNC"), Act::Send(Command::Tearing(true)));
        push_btn(b, 131, 365, 117, string_from("HINT VSYNC"), Act::Send(Command::Tearing(false)));
        push_btn(b, 8, 388, 55, string_from("OFF"), Act::Send(Command::CommitRate(0)));
        push_btn(b, 69, 388, 55, string_from("30Hz"), Act::Send(Command::CommitRate(30)));
        push_btn(b, 130, 388, 55, string_from("60Hz"), Act::Send(Command::CommitRate(60)));
        push_btn(b, 191, 388, 55, string_from("120Hz"), Act::Send(Command::CommitRate(120)));
        push_btn(b, 8, 411, 55, string_from("144Hz"), Act::Send(Command::CommitRate(144)));
        push_btn(b, 69, 411, 55, string_from("240Hz"), Act::Send(Command::CommitRate(240)));
        push_btn(b, 130, 411, 55, string_from("300Hz"), Act::Send(Command::CommitRate(300)));
        push_btn(b, 191, 411, 55, string_from("500Hz"), Act::Send(Command::CommitRate(500)));
        push_btn(b, 8, 434, 117, string_from("COUNTER ON"), Act::Send(Command::ShowCounter(true)));
        push_btn(b, 131, 434, 117, string_from("COUNTER OFF"), Act::Send(Command::ShowCounter(false)));
        assert(buttons_spec(b@) =~= b0 + column_a_buttons(*self));
        assert(headers_spec(h@) =~= h0 + column_a_headers(*self));
    }
    fn column_b(&self, b: &mut Vec<Btn>, h: &mut Vec<(i32, i32, String)>)
        requires
            self.wf(),
            self.move_step > i32::MIN,
        ensures
            buttons_spec(final(b)@) == buttons_spec(old(b)@) + column_b_buttons(*self),
            headers_spec(final(h)@) == headers_spec(old(h)@) + column_b_headers(*self),
    {
        let ghost b0 = buttons_spec(b@);
        let ghost h0 = headers_spec(h@);
        push_hdr(h, 260, 8, string_from("POPUP"));
        push_btn(b, 260, 24, 117, string_from("POPUP ADD"), Act::Send(Command::PopupAdd));
        push_btn(b, 383, 24, 117, string_from("POPUP NEST"), Act::Send(Command::PopupNest));
        push_btn(b, 260, 47, 117, string_from("POPUP CLOSE"), Act::Send(Command::PopupClose));
        push_btn(b, 383, 47, 117, anchor_label(self), Act::CycleAnchor);
        push_btn(b, 260, 70, 240, gravity_label(self), Act::CycleGravity);
        push_hdr(h, 260, 93, off_header(self));
        push_btn(b, 260, 109, 56, string_from("OFFX-"), Act::AdjOff(-40, 0));
        push_btn(b, 320, 109, 56, string_from("OFFX+"), Act::AdjOff(40, 0));
        push_btn(b, 380, 109, 56, string_from("OFFY-"), Act::AdjOff(0, -40));
        push_btn(b, 440, 109, 56, string_from("OFFY+"), Act::AdjOff(0, 40));
        push_hdr(h, 260, 132, pop_size_header(self));
        push_btn(b, 260, 148, 56, string_from("W-"), Act::AdjPopSize(-20, 0));
        push_btn(b, 320, 148, 56, string_from("W+"), Act::AdjPopSize(20, 0));
        push_btn(b, 380, 148, 56, string_from("H-"), Act::AdjPopSize(0, -20));
        push_btn(b, 440, 148, 56, string_from("H+"), Act::AdjPopSize(0, 20));
        push_hdr(h, 260, 171, move_header(self));
        push_btn(b, 260, 187, 56, string_from("-X"), Act::Send(Command::PopupMove(-self.move_step, 0)));
        push_btn(b, 320, 187, 56, string_from("+X"), Act::Send(Command::PopupMove(self.move_step, 0)));
        push_btn(b, 380, 187, 56, string_from("-Y"), Act::Send(Command::PopupMove(0, -self.move_step)));
        push_btn(b, 440, 187, 56, string_from("+Y"), Act::Send(Command::PopupMove(0, self.move_step)));
        push_hdr(h, 260, 215, string_from("SUBSURFACE"));
        push_btn(b, 260, 231, 117, string_from("SUB ADD"), Act::Send(Command::SubAdd));
        push_btn(b, 383, 231, 117, string_from("SUB NEST"), Act::Send(Command::SubNest));
        push_btn(b, 260, 254, 117, string_from("SUB REMOVE"), Act::Send(Command::SubRemove));
        push_btn(b, 383, 254, 117, string_from("SUB SYNC"), Act::Send(Command::SubSync));
        push_btn(b, 260, 277, 240, string_from("SUB DESYNC"), Act::Send(Command::SubDesync));
        push_hdr(h, 260, 300, string_from("SUB MOVE"));
        push_btn(b, 260, 316, 56, string_from("-X"), Act::Send(Command::SubMove(-self.move_step, 0)));
        push_btn(b, 320, 316, 56, string_from("+X"), Act::Send(Command::SubMove(self.move_step, 0)));
        push_btn(b, 380, 316, 56, string_from("-Y"), Act::Send(Command::SubMove(0, -self.move_step)));
        push_btn(b, 440, 316, 56, string_from("+Y"), Act::Send(Command::SubMove(0, self.move_step)));
        assert(buttons_spec(b@) =~= b0 + column_b_buttons(*self));
        assert(headers_spec(h@) =~= h0 + column_b_headers(*self));
    }
    fn column_c_top(&self, b: &mut Vec<Btn>, h: &mut Vec<(i32, i32, String)>)
        ensures
            buttons_spec(final(b)@) == buttons_spec(old(b)@) + column_c_top_buttons(*self),
            headers_spec(final(h)@) == headers_spec(old(h)@) + column_c_top_headers(*self),
    {
        let ghost b0 = buttons_spec(b@);
        let ghost h0 = headers_spec(h@);
        push_hdr(h, 512, 8, viewporter_header(self));
        push_btn(b, 512, 24, 117, string_from("VP DEST"), Act::Send(Command::VpDest(self.dest.0, self.dest.1)));
        push_btn(b, 635, 24, 117, string_from("VP UNSET"), Act::Send(Command::VpUnset));
        push_btn(b, 512, 47, 56, string_from("W-"), Act::AdjDest(-20, 0));
        push_btn(b, 572, 47, 56, string_from("W+"), Act::AdjDest(20, 0));
        push_btn(b, 632, 47, 56, string_from("H-"), Act::AdjDest(0, -20));
        push_btn(b, 692, 47, 56, string_from("H+"), Act::AdjDest(0, 20));
        push_btn(b, 512, 70, 117, string_from("VP DELTA -20"), Act::Send(Command::VpDestDelta(-20)));
        push_btn(b, 635, 70, 117, string_from("VP DELTA +20"), Act::Send(Command::VpDestDelta(20)));
        push_btn(b, 512, 93, 117, string_from("VP SRC CROP"), Act::SendVpSrc(0, 0, 0x4064_0000_0000_0000, 0x405E_0000_0000_0000));
        push_btn(b, 635, 93, 117, string_from("VP BAD"), Act::Send(Command::VpBad));
        push_btn(b, 512, 116, 117, string_from("VP ANIM ON"), Act::Send(Command::VpAnimate(true)));
        push_btn(b, 635, 116, 117, string_from("VP ANIM OFF"), Act::Send(Command::VpAnimate(false)));
        assert(buttons_spec(b@) =~= b0 + column_c_top_buttons(*self));
        assert(headers_spec(h@) =~= h0 + column_c_top_headers(*self));
    }

    fn column_c_bottom(&self, b: &mut Vec<Btn>, h: &mut Vec<(i32, i32, String)>)
        requires
            self.wf(),
        ensures
            buttons_spec(final(b)@) == buttons_spec(old(b)@) + column_c_bottom_buttons(*self),
            headers_spec(final(h)@) == headers_spec(old(h)@) + column_c_bottom_headers(*self),
    {
        let ghost b0 = buttons_spec(b@);
        let ghost h0 = headers_spec(h@);
        let (r, g, bb, a) = self.color_rgba();
        push_hdr(h, 512, 144, fractional_header(self));
        push_btn(b, 512, 160, 56, string_from("FS HON"), Act::Send(Command::FsHonor));
        push_btn(b, 572, 160, 56, string_from("FS IGN"), Act::Send(Command::FsIgnore));
        push_btn(b, 632, 160, 56, string_from("NOVP"), Act::Send(Command::FsNoViewport));
        push_btn(b, 692, 160, 56, string_from("MISM"), Act::Send(Command::FsMismatch));
        push_btn(b, 512, 183, 117, fs_scale_label(self), Act::Send(Command::FsScale(self.fs_num)));
        push_btn(b, 635, 183, 36, string_from("-"), Act::AdjFs(-30));
        push_btn(b, 675, 183, 36, string_from("+"), Act::AdjFs(30));
        push_hdr(h, 512, 211, dpi_header(self));
        push_btn(b, 512, 227, 56, string_from("HONOR"), Act::Send(Command::DpiHonor));
        push_btn(b, 572, 227, 56, string_from("IGNORE"), Act::Send(Command::DpiIgnore));
        push_btn(b, 632, 227, 56, string_from("NONDIV"), Act::Send(Command::DpiNondiv));
        push_btn(b, 692, 227, 56, string_from("MISM"), Act::Send(Command::DpiMismatch));
        push_btn(b, 512, 250, 117, dpi_scale_label(self), Act::Send(Command::DpiScale(self.dpi_num)));
        push_btn(b, 635, 250, 36, string_from("-"), Act::AdjDpi(-1));
        push_btn(b, 675, 250, 36, string_from("+"), Act::AdjDpi(1));
        push_btn(b, 512, 273, 240, string_from("DPI ZERO (proto err)"), Act::Send(Command::DpiZero));
        push_hdr(h, 512, 301, single_pixel_header(self));
        push_btn(b, 512, 317, 117, string_from("SP FILL"), Act::Send(Command::SpFill(r, g, bb, a)));
        push_btn(b, 635, 317, 117, string_from("SP SUB"), Act::Send(Command::SpSub(r, g, bb, a)));
        push_btn(b, 512, 340, 117, string_from("SP NOVP"), Act::Send(Command::SpNoViewport));
        push_btn(b, 635, 340, 117, string_from("CYCLE COLOR"), Act::CycleColor);
        push_hdr(h, 512, 368, string_from("PROTOCOLS (respawn to apply)"));
        push_btn(b, 512, 384, 56, proto_label("DEC", self.proto_deco), Act::ToggleProto(0));
        push_btn(b, 572, 384, 56, proto_label("VP", self.proto_vp), Act::ToggleProto(1));
        push_btn(b, 632, 384, 56, proto_label("FS", self.proto_fs), Act::ToggleProto(2));
        push_btn(b, 692, 384, 56, proto_label("SP", self.proto_sp), Act::ToggleProto(3));
        push_btn(b, 512, 407, 240, string_from("RESPAWN SUBJECT"), Act::Respawn);
        push_hdr(h, 512, 435, string_from("SESSION RESTORE (detached subjects)"));
        push_btn(b, 512, 451, 117, string_from("SPAWN 1"), Act::SpawnSession(1));
        push_btn(b, 635, 451, 117, string_from("SPAWN 3"), Act::SpawnSession(3));
        push_btn(b, 512, 474, 117, string_from("FORGET"), Act::ForgetSession);
        push_btn(b, 635, 474, 117, string_from("CLEAR STORE"), Act::ClearSessionStore);
        push_btn(b, 512, 497, 240, ns_label(self), Act::ToggleSessionNs);
        assert(buttons_spec(b@) =~= b0 + column_c_bottom_buttons(*self));
        assert(headers_spec(h@) =~= h0 + column_c_bottom_headers(*self));
    }

    /// The button grid and its header labels for the current parameters: decoration,
    /// buffer, lifecycle and tearing controls in the first column; popup and subsurface
    /// controls in the second; viewporter, fractional and integer scale, single-pixel,
    /// protocol and session-restore controls in the third.
    pub fn layout(&self) -> (r: (Vec<Btn>, Vec<(i32, i32, String)>))
        requires
            self.wf(),
            self.move_step > i32::MIN,
        ensures
            buttons_spec(r.0@) == layout_buttons(*self),
            headers_spec(r.1@) == layout_headers(*self),
    {
        let mut b: Vec<Btn> = Vec::new();
        let mut h: Vec<(i32, i32, String)> = Vec::new();
        assert(buttons_spec(b@) =~= Seq::<ButtonSpec>::empty());
        assert(headers_spec(h@) =~= Seq::<(int, int, Seq<char>)>::empty());
        self.column_a(&mut b, &mut h);
        self.column_b(&mut b, &mut h);
        self.column_c_top(&mut b, &mut h);
        self.column_c_bottom(&mut b, &mut h);
        assert(column_c_buttons(*self) == column_c_top_buttons(*self) + column_c_bottom_buttons(*self));
        assert(buttons_spec(b@) =~= layout_buttons(*self));
        assert(headers_spec(h@) =~= layout_headers(*self));
        (b, h)
    }
}

} // verus!
