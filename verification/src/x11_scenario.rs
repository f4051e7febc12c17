//! Named scripted sequences for the X11 harness, for repros and for checking one
//! decision at a time.
//!
//! Each is a list of (command, pause-after) steps the controller replays into the
//! subject. The interesting X11 cases are all sequences — a window, then a menu on it,
//! then the menu moving — and typing those by hand every time is how a check quietly
//! stops being run. Every scenario leaves its windows up, so the screen can be looked at.
//!
//! Each scenario's contents are stated exactly by its `*_steps` predicate, and
//! [`scenario_steps`] indexes them in the order of [`all`]. Every step is a command the
//! subject accepts: [`lemma_scenario_steps_round_trip`].

use vstd::prelude::*;

use crate::text::{chars_eq_str, chars_of, string_from};
use crate::x11_protocol::{
    all_wm_types, encode_spec, lemma_round_trip, line_reads_as, CloseMode, Command, IconSpec,
    InputModel, WmType,
};

verus! {

/// One step: what to send, and how long to wait (in milliseconds) before the next one.
pub struct Step(pub Command, pub u64);

/// A step that sends `c` and then waits `ms`.
pub open spec fn plain(s: Step, c: Command, ms: u64) -> bool {
    s.0 == c && s.1 == ms
}

/// A step that titles window `id` with the text `t` and then waits `ms`.
pub open spec fn titled(s: Step, id: u32, t: Seq<char>, ms: u64) -> bool {
    &&& s.0 matches Command::Title(i, x) && i == id && x@ == t
    &&& s.1 == ms
}

/// A step that sets window `id`'s class to `t` and then waits `ms`.
pub open spec fn classed(s: Step, id: u32, t: Seq<char>, ms: u64) -> bool {
    &&& s.0 matches Command::Class(i, x) && i == id && x@ == t
    &&& s.1 == ms
}

/// A step that copies the text `t` and then waits `ms`.
pub open spec fn copying(s: Step, t: Seq<char>, ms: u64) -> bool {
    &&& s.0 matches Command::Copy(x) && x@ == t
    &&& s.1 == ms
}

/// The steps of `basics`: one managed window: title, class, resize, fullscreen.
pub open spec fn basics_steps(s: Seq<Step>) -> bool {
    &&& s.len() == 7
    &&& plain(s[0], Command::MapWindow(480, 320), 400)
    &&& titled(s[1], 1, "x11 basics"@, 200)
    &&& classed(s[2], 1, "y5stress"@, 200)
    &&& plain(s[3], Command::ResizeRequest(1, 640, 400), 600)
    &&& plain(s[4], Command::Fullscreen(1, true), 900)
    &&& plain(s[5], Command::Fullscreen(1, false), 600)
    &&& plain(s[6], Command::Info, 0)
}

fn basics() -> (r: Vec<Step>)
    ensures
        basics_steps(r@),
{
    vec![
        Step(Command::MapWindow(480, 320), 400),
        Step(Command::Title(1, string_from("x11 basics")), 200),
        Step(Command::Class(1, string_from("y5stress")), 200),
        Step(Command::ResizeRequest(1, 640, 400), 600),
        Step(Command::Fullscreen(1, true), 900),
        Step(Command::Fullscreen(1, false), 600),
        Step(Command::Info, 0),
    ]
}

/// The steps of `identity`: does the compositor see the APP's pid, not the X server's.
pub open spec fn identity_steps(s: Seq<Step>) -> bool {
    &&& s.len() == 4
    &&& plain(s[0], Command::MapWindow(400, 260), 400)
    &&& titled(s[1], 1, "who owns me"@, 200)
    &&& classed(s[2], 1, "y5stress-identity"@, 400)
    &&& plain(s[3], Command::Info, 0)
}

fn identity() -> (r: Vec<Step>)
    ensures
        identity_steps(r@),
{
    vec![
        Step(Command::MapWindow(400, 260), 400),
        Step(Command::Title(1, string_from("who owns me")), 200),
        Step(Command::Class(1, string_from("y5stress-identity")), 400),
        Step(Command::Info, 0),
    ]
}

/// The steps of `focus`: all four ICCCM input models — the silent no-keyboard case.
pub open spec fn focus_steps(s: Seq<Step>) -> bool {
    &&& s.len() == 13
    &&& plain(s[0], Command::MapWindow(300, 200), 300)
    &&& titled(s[1], 1, "passive"@, 100)
    &&& plain(s[2], Command::InputModel(1, InputModel::Passive), 300)
    &&& plain(s[3], Command::MapWindow(300, 200), 300)
    &&& titled(s[4], 2, "locally-active"@, 100)
    &&& plain(s[5], Command::InputModel(2, InputModel::LocallyActive), 300)
    &&& plain(s[6], Command::MapWindow(300, 200), 300)
    &&& titled(s[7], 3, "globally-active"@, 100)
    &&& plain(s[8], Command::InputModel(3, InputModel::GloballyActive), 300)
    &&& plain(s[9], Command::MapWindow(300, 200), 300)
    &&& titled(s[10], 4, "no-input"@, 100)
    &&& plain(s[11], Command::InputModel(4, InputModel::NoInput), 300)
    &&& plain(s[12], Command::Info, 0)
}

fn focus() -> (r: Vec<Step>)
    ensures
        focus_steps(r@),
{
    vec![
        Step(Command::MapWindow(300, 200), 300),
        Step(Command::Title(1, string_from("passive")), 100),
        Step(Command::InputModel(1, InputModel::Passive), 300),
        Step(Command::MapWindow(300, 200), 300),
        Step(Command::Title(2, string_from("locally-active")), 100),
        Step(Command::InputModel(2, InputModel::LocallyActive), 300),
        Step(Command::MapWindow(300, 200), 300),
        Step(Command::Title(3, string_from("globally-active")), 100),
        Step(Command::InputModel(3, InputModel::GloballyActive), 300),
        Step(Command::MapWindow(300, 200), 300),
        Step(Command::Title(4, string_from("no-input")), 100),
        Step(Command::InputModel(4, InputModel::NoInput), 300),
        Step(Command::Info, 0),
    ]
}

/// The steps of `translucent`: a 32-bit ARGB window: is what is BEHIND it still drawn.
pub open spec fn translucent_steps(s: Seq<Step>) -> bool {
    &&& s.len() == 9
    &&& plain(s[0], Command::MapWindow(460, 320), 400)
    &&& titled(s[1], 1, "opaque, behind"@, 200)
    &&& plain(s[2], Command::MapArgb(420, 300), 700)
    &&& titled(s[3], 2, "argb, in front"@, 300)
    &&& plain(s[4], Command::Info, 300)
    &&& plain(s[5], Command::SelfMove(2, 120, 90), 500)
    &&& plain(s[6], Command::SelfMove(2, 200, 150), 500)
    &&& plain(s[7], Command::Opacity(1, 128), 700)
    &&& plain(s[8], Command::Opacity(1, 255), 0)
}

fn translucent() -> (r: Vec<Step>)
    ensures
        translucent_steps(r@),
{
    vec![
        Step(Command::MapWindow(460, 320), 400),
        Step(Command::Title(1, string_from("opaque, behind")), 200),
        Step(Command::MapArgb(420, 300), 700),
        Step(Command::Title(2, string_from("argb, in front")), 300),
        Step(Command::Info, 300),
        Step(Command::SelfMove(2, 120, 90), 500),
        Step(Command::SelfMove(2, 200, 150), 500),
        Step(Command::Opacity(1, 128), 700),
        Step(Command::Opacity(1, 255), 0),
    ]
}

/// The steps of `dnd`: XDND between two X11 windows: do the coordinates mean anything.
pub open spec fn dnd_steps(s: Seq<Step>) -> bool {
    &&& s.len() == 8
    &&& plain(s[0], Command::MapWindow(420, 300), 400)
    &&& titled(s[1], 1, "drag source"@, 200)
    &&& plain(s[2], Command::MapWindow(420, 300), 400)
    &&& titled(s[3], 2, "drop target"@, 200)
    &&& plain(s[4], Command::DndTarget(2), 200)
    &&& plain(s[5], Command::DndTarget(1), 200)
    &&& plain(s[6], Command::Info, 200)
    &&& plain(s[7], Command::DndSource(1), 0)
}

fn dnd() -> (r: Vec<Step>)
    ensures
        dnd_steps(r@),
{
    vec![
        Step(Command::MapWindow(420, 300), 400),
        Step(Command::Title(1, string_from("drag source")), 200),
        Step(Command::MapWindow(420, 300), 400),
        Step(Command::Title(2, string_from("drop target")), 200),
        Step(Command::DndTarget(2), 200),
        Step(Command::DndTarget(1), 200),
        Step(Command::Info, 200),
        Step(Command::DndSource(1), 0),
    ]
}

/// The steps of `withdraw`: unmap/remap twice: two placeholders, one window, no abort.
pub open spec fn withdraw_steps(s: Seq<Step>) -> bool {
    &&& s.len() == 8
    &&& plain(s[0], Command::MapWindow(420, 300), 500)
    &&& titled(s[1], 1, "withdraw me"@, 11_000)
    &&& plain(s[2], Command::Unmap(1), 2_000)
    &&& plain(s[3], Command::Remap(1), 2_000)
    &&& plain(s[4], Command::Unmap(1), 2_000)
    &&& plain(s[5], Command::Remap(1), 2_000)
    &&& plain(s[6], Command::SelfResize(1, 500, 360), 1_500)
    &&& plain(s[7], Command::Info, 0)
}

fn withdraw() -> (r: Vec<Step>)
    ensures
        withdraw_steps(r@),
{
    vec![
        Step(Command::MapWindow(420, 300), 500),
        Step(Command::Title(1, string_from("withdraw me")), 11_000),
        Step(Command::Unmap(1), 2_000),
        Step(Command::Remap(1), 2_000),
        Step(Command::Unmap(1), 2_000),
        Step(Command::Remap(1), 2_000),
        Step(Command::SelfResize(1, 500, 360), 1_500),
        Step(Command::Info, 0),
    ]
}

/// The steps of `popup`: a REAL y5 popup: override-redirect + WM_TRANSIENT_FOR + menu type.
pub open spec fn popup_steps(s: Seq<Step>) -> bool {
    &&& s.len() == 5
    &&& plain(s[0], Command::MapWindow(520, 360), 500)
    &&& titled(s[1], 1, "popup owner"@, 200)
    &&& plain(s[2], Command::MapChild(1, 60, 40, 200, 160, true, WmType::Menu), 700)
    &&& plain(s[3], Command::MapChild(2, 190, 30, 180, 140, true, WmType::PopupMenu), 700)
    &&& plain(s[4], Command::Info, 0)
}

fn popup() -> (r: Vec<Step>)
    ensures
        popup_steps(r@),
{
    vec![
        Step(Command::MapWindow(520, 360), 500),
        Step(Command::Title(1, string_from("popup owner")), 200),
        Step(Command::MapChild(1, 60, 40, 200, 160, true, WmType::Menu), 700),
        Step(Command::MapChild(2, 190, 30, 180, 140, true, WmType::PopupMenu), 700),
        Step(Command::Info, 0),
    ]
}

/// The steps of `popup-input`: does the popup get crossings and clicks where it overlaps its parent.
pub open spec fn popup_input_steps(s: Seq<Step>) -> bool {
    &&& s.len() == 6
    &&& plain(s[0], Command::MapWindow(520, 360), 500)
    &&& titled(s[1], 1, "input owner"@, 200)
    &&& plain(s[2], Command::MapChild(1, 80, 60, 240, 200, true, WmType::Menu), 600)
    &&& plain(s[3], Command::Stack, 200)
    &&& plain(s[4], Command::Pointer, 200)
    &&& plain(s[5], Command::Info, 0)
}

fn popup_input() -> (r: Vec<Step>)
    ensures
        popup_input_steps(r@),
{
    vec![
        Step(Command::MapWindow(520, 360), 500),
        Step(Command::Title(1, string_from("input owner")), 200),
        Step(Command::MapChild(1, 80, 60, 240, 200, true, WmType::Menu), 600),
        Step(Command::Stack, 200),
        Step(Command::Pointer, 200),
        Step(Command::Info, 0),
    ]
}

/// The steps of `type-flip`: the classification changes between map and surface association.
pub open spec fn type_flip_steps(s: Seq<Step>) -> bool {
    &&& s.len() == 11
    &&& plain(s[0], Command::MapWindow(520, 360), 500)
    &&& plain(s[1], Command::MapChild(1, 60, 40, 220, 170, false, WmType::Unset), 100)
    &&& plain(s[2], Command::SkipTaskbar(2, true), 100)
    &&& plain(s[3], Command::CloseMode(2, CloseMode::NoDelete), 400)
    &&& plain(s[4], Command::WindowType(2, WmType::Dialog), 400)
    &&& plain(s[5], Command::CloseMode(2, CloseMode::Delete), 400)
    &&& plain(s[6], Command::SkipTaskbar(2, false), 400)
    &&& plain(s[7], Command::MapChild(1, 200, 140, 220, 170, false, WmType::Normal), 400)
    &&& plain(s[8], Command::WindowType(3, WmType::Menu), 400)
    &&& plain(s[9], Command::TransientFor(3, 1), 400)
    &&& plain(s[10], Command::Info, 0)
}

fn type_flip() -> (r: Vec<Step>)
    ensures
        type_flip_steps(r@),
{
    vec![
        Step(Command::MapWindow(520, 360), 500),
        Step(Command::MapChild(1, 60, 40, 220, 170, false, WmType::Unset), 100),
        Step(Command::SkipTaskbar(2, true), 100),
        Step(Command::CloseMode(2, CloseMode::NoDelete), 400),
        Step(Command::WindowType(2, WmType::Dialog), 400),
        Step(Command::CloseMode(2, CloseMode::Delete), 400),
        Step(Command::SkipTaskbar(2, false), 400),
        Step(Command::MapChild(1, 200, 140, 220, 170, false, WmType::Normal), 400),
        Step(Command::WindowType(3, WmType::Menu), 400),
        Step(Command::TransientFor(3, 1), 400),
        Step(Command::Info, 0),
    ]
}

/// The steps of `self-geometry`: toplevel vs transient vs override-redirect moving/resizing themselves.
pub open spec fn self_geometry_steps(s: Seq<Step>) -> bool {
    &&& s.len() == 12
    &&& plain(s[0], Command::MapWindow(360, 260), 400)
    &&& titled(s[1], 1, "toplevel"@, 150)
    &&& plain(s[2], Command::MapTransient(1, 300, 220), 400)
    &&& titled(s[3], 2, "transient"@, 150)
    &&& plain(s[4], Command::MapChild(1, 60, 40, 200, 160, true, WmType::Menu), 400)
    &&& plain(s[5], Command::SelfResize(1, 460, 320), 500)
    &&& plain(s[6], Command::SelfResize(2, 360, 260), 500)
    &&& plain(s[7], Command::SelfResize(3, 240, 190), 500)
    &&& plain(s[8], Command::SelfMove(1, 0, 0), 500)
    &&& plain(s[9], Command::SelfMove(2, 0, 0), 500)
    &&& plain(s[10], Command::SelfMove(3, 200, 150), 500)
    &&& plain(s[11], Command::Info, 0)
}

fn self_geometry() -> (r: Vec<Step>)
    ensures
        self_geometry_steps(r@),
{
    vec![
        Step(Command::MapWindow(360, 260), 400),
        Step(Command::Title(1, string_from("toplevel")), 150),
        Step(Command::MapTransient(1, 300, 220), 400),
        Step(Command::Title(2, string_from("transient")), 150),
        Step(Command::MapChild(1, 60, 40, 200, 160, true, WmType::Menu), 400),
        Step(Command::SelfResize(1, 460, 320), 500),
        Step(Command::SelfResize(2, 360, 260), 500),
        Step(Command::SelfResize(3, 240, 190), 500),
        Step(Command::SelfMove(1, 0, 0), 500),
        Step(Command::SelfMove(2, 0, 0), 500),
        Step(Command::SelfMove(3, 200, 150), 500),
        Step(Command::Info, 0),
    ]
}

/// The steps of `or-menu`: an override-redirect menu on a window: does it draw and take clicks.
pub open spec fn or_menu_steps(s: Seq<Step>) -> bool {
    &&& s.len() == 4
    &&& plain(s[0], Command::MapWindow(500, 340), 500)
    &&& titled(s[1], 1, "menu owner"@, 200)
    &&& plain(s[2], Command::Or(1, 60, 40, 200, 160), 800)
    &&& plain(s[3], Command::Or(1, 430, 250, 220, 180), 0)
}

fn or_menu() -> (r: Vec<Step>)
    ensures
        or_menu_steps(r@),
{
    vec![
        Step(Command::MapWindow(500, 340), 500),
        Step(Command::Title(1, string_from("menu owner")), 200),
        Step(Command::Or(1, 60, 40, 200, 160), 800),
        Step(Command::Or(1, 430, 250, 220, 180), 0),
    ]
}

/// The steps of `or-submenu`: override-redirect chained off an override-redirect.
pub open spec fn or_submenu_steps(s: Seq<Step>) -> bool {
    &&& s.len() == 4
    &&& plain(s[0], Command::MapWindow(520, 360), 500)
    &&& plain(s[1], Command::Or(1, 50, 40, 200, 160), 500)
    &&& plain(s[2], Command::OrChain(2, 190, 30), 500)
    &&& plain(s[3], Command::OrChain(3, 190, 30), 0)
}

fn or_submenu() -> (r: Vec<Step>)
    ensures
        or_submenu_steps(r@),
{
    vec![
        Step(Command::MapWindow(520, 360), 500),
        Step(Command::Or(1, 50, 40, 200, 160), 500),
        Step(Command::OrChain(2, 190, 30), 500),
        Step(Command::OrChain(3, 190, 30), 0),
    ]
}

/// The steps of `placement`: the compositor must honour a size request and refuse a move.
pub open spec fn placement_steps(s: Seq<Step>) -> bool {
    &&& s.len() == 6
    &&& plain(s[0], Command::MapWindow(400, 300), 500)
    &&& titled(s[1], 1, "placement"@, 200)
    &&& plain(s[2], Command::ResizeRequest(1, 700, 500), 700)
    &&& plain(s[3], Command::MoveRequest(1, 0, 0), 700)
    &&& plain(s[4], Command::MoveRequest(1, -400i16, -400i16), 700)
    &&& plain(s[5], Command::Info, 0)
}

fn placement() -> (r: Vec<Step>)
    ensures
        placement_steps(r@),
{
    vec![
        Step(Command::MapWindow(400, 300), 500),
        Step(Command::Title(1, string_from("placement")), 200),
        Step(Command::ResizeRequest(1, 700, 500), 700),
        Step(Command::MoveRequest(1, 0, 0), 700),
        Step(Command::MoveRequest(1, -400, -400), 700),
        Step(Command::Info, 0),
    ]
}

/// The steps of `transient`: WM_TRANSIENT_FOR — the window should size itself, not be locked.
pub open spec fn transient_steps(s: Seq<Step>) -> bool {
    &&& s.len() == 6
    &&& plain(s[0], Command::MapWindow(520, 360), 500)
    &&& titled(s[1], 1, "parent"@, 200)
    &&& plain(s[2], Command::MapTransient(1, 260, 180), 500)
    &&& titled(s[3], 2, "dialog"@, 200)
    &&& plain(s[4], Command::ResizeRequest(2, 320, 240), 600)
    &&& plain(s[5], Command::Info, 0)
}

fn transient() -> (r: Vec<Step>)
    ensures
        transient_steps(r@),
{
    vec![
        Step(Command::MapWindow(520, 360), 500),
        Step(Command::Title(1, string_from("parent")), 200),
        Step(Command::MapTransient(1, 260, 180), 500),
        Step(Command::Title(2, string_from("dialog")), 200),
        Step(Command::ResizeRequest(2, 320, 240), 600),
        Step(Command::Info, 0),
    ]
}

/// The steps of `close`: WM_DELETE_WINDOW vs a window that does not offer it.
pub open spec fn close_steps(s: Seq<Step>) -> bool {
    &&& s.len() == 7
    &&& plain(s[0], Command::MapWindow(360, 240), 300)
    &&& titled(s[1], 1, "offers WM_DELETE_WINDOW"@, 100)
    &&& plain(s[2], Command::CloseMode(1, CloseMode::Delete), 300)
    &&& plain(s[3], Command::MapWindow(360, 240), 300)
    &&& titled(s[4], 2, "no WM_DELETE_WINDOW"@, 100)
    &&& plain(s[5], Command::CloseMode(2, CloseMode::NoDelete), 300)
    &&& plain(s[6], Command::Info, 0)
}

fn close() -> (r: Vec<Step>)
    ensures
        close_steps(r@),
{
    vec![
        Step(Command::MapWindow(360, 240), 300),
        Step(Command::Title(1, string_from("offers WM_DELETE_WINDOW")), 100),
        Step(Command::CloseMode(1, CloseMode::Delete), 300),
        Step(Command::MapWindow(360, 240), 300),
        Step(Command::Title(2, string_from("no WM_DELETE_WINDOW")), 100),
        Step(Command::CloseMode(2, CloseMode::NoDelete), 300),
        Step(Command::Info, 0),
    ]
}

/// The steps of `stacking`: two windows plus a menu: does the X server agree about the order.
pub open spec fn stacking_steps(s: Seq<Step>) -> bool {
    &&& s.len() == 8
    &&& plain(s[0], Command::MapWindow(420, 300), 400)
    &&& titled(s[1], 1, "lower"@, 150)
    &&& plain(s[2], Command::MapWindow(420, 300), 400)
    &&& titled(s[3], 2, "upper"@, 150)
    &&& plain(s[4], Command::Or(1, 40, 40, 220, 170), 600)
    &&& plain(s[5], Command::Stack, 300)
    &&& plain(s[6], Command::Raise(1), 600)
    &&& plain(s[7], Command::Stack, 0)
}

fn stacking() -> (r: Vec<Step>)
    ensures
        stacking_steps(r@),
{
    vec![
        Step(Command::MapWindow(420, 300), 400),
        Step(Command::Title(1, string_from("lower")), 150),
        Step(Command::MapWindow(420, 300), 400),
        Step(Command::Title(2, string_from("upper")), 150),
        Step(Command::Or(1, 40, 40, 220, 170), 600),
        Step(Command::Stack, 300),
        Step(Command::Raise(1), 600),
        Step(Command::Stack, 0),
    ]
}

/// The steps of `clipboard`: X11 takes the clipboard, then reads it back.
pub open spec fn clipboard_steps(s: Seq<Step>) -> bool {
    &&& s.len() == 4
    &&& plain(s[0], Command::MapWindow(360, 240), 400)
    &&& titled(s[1], 1, "clipboard"@, 200)
    &&& copying(s[2], "hello from an x11 client"@, 500)
    &&& plain(s[3], Command::Paste, 0)
}

fn clipboard() -> (r: Vec<Step>)
    ensures
        clipboard_steps(r@),
{
    vec![
        Step(Command::MapWindow(360, 240), 400),
        Step(Command::Title(1, string_from("clipboard")), 200),
        Step(Command::Copy(string_from("hello from an x11 client")), 500),
        Step(Command::Paste, 0),
    ]
}

/// The steps of `storm`: rapid resize + re-anchor: is the configure flush coalescing.
pub open spec fn storm_steps(s: Seq<Step>) -> bool {
    &&& s.len() == 5
    &&& plain(s[0], Command::MapWindow(500, 340), 500)
    &&& plain(s[1], Command::Or(1, 60, 40, 200, 160), 500)
    &&& plain(s[2], Command::StormResize(1, 300), 800)
    &&& plain(s[3], Command::StormReanchor(2, 300), 800)
    &&& plain(s[4], Command::Info, 0)
}

fn storm() -> (r: Vec<Step>)
    ensures
        storm_steps(r@),
{
    vec![
        Step(Command::MapWindow(500, 340), 500),
        Step(Command::Or(1, 60, 40, 200, 160), 500),
        Step(Command::StormResize(1, 300), 800),
        Step(Command::StormReanchor(2, 300), 800),
        Step(Command::Info, 0),
    ]
}
/// The icon shapes the `icon` scenario publishes before mapping, one window each.
pub open spec fn icon_cycle() -> Seq<IconSpec> {
    seq![
        IconSpec::Single,
        IconSpec::Pyramid,
        IconSpec::LargeFirst,
        IconSpec::Oversize,
        IconSpec::Truncated,
        IconSpec::Zero,
        IconSpec::Alpha,
    ]
}

/// Step `j` of the first part of `icon`: even steps publish the next shape of
/// [`icon_cycle`], odd steps map a window that carries it.
pub open spec fn icon_pair_step(s: Step, j: int) -> bool {
    if j % 2 == 0 {
        plain(s, Command::IconNext(icon_cycle()[j / 2]), 50)
    } else {
        plain(s, Command::MapWindow(260, 180), 300)
    }
}

/// The steps of `icon`: _NET_WM_ICON: which image does the decoder pick, and what
/// survives a bad one. Each shape is published and a window mapped with it; then a
/// window mapped with none is given one afterwards.
pub open spec fn icon_steps(s: Seq<Step>) -> bool {
    &&& s.len() == 17
    &&& forall|j: int| 0 <= j < 14 ==> icon_pair_step(#[trigger] s[j], j)
    &&& plain(s[14], Command::MapWindow(260, 180), 400)
    &&& plain(s[15], Command::Icon(8, IconSpec::Pyramid), 600)
    &&& plain(s[16], Command::Info, 0)
}

fn icon() -> (r: Vec<Step>)
    ensures
        icon_steps(r@),
{
    let specs: [IconSpec; 7] = [
        IconSpec::Single,
        IconSpec::Pyramid,
        IconSpec::LargeFirst,
        IconSpec::Oversize,
        IconSpec::Truncated,
        IconSpec::Zero,
        IconSpec::Alpha,
    ];
    assert(specs@ == icon_cycle());
    let mut v: Vec<Step> = Vec::new();
    let mut k: usize = 0;
    while k < 7
        invariant
            k <= 7,
            specs@ == icon_cycle(),
            v@.len() == 2 * k,
            forall|j: int| 0 <= j < 2 * k ==> icon_pair_step(#[trigger] v@[j], j),
        decreases 7 - k,
    {
        v.push(Step(Command::IconNext(specs[k]), 50));
        v.push(Step(Command::MapWindow(260, 180), 300));
        assert(icon_pair_step(v@[2 * k as int], 2 * k as int));
        assert(icon_pair_step(v@[2 * k + 1], 2 * k + 1));
        k += 1;
    }
    v.push(Step(Command::MapWindow(260, 180), 400));
    v.push(Step(Command::Icon(8, IconSpec::Pyramid), 600));
    v.push(Step(Command::Info, 0));
    assert(forall|j: int| 0 <= j < 14 ==> v@[j] == v@.subrange(0, 14)[j]);
    v
}

/// Where the walking menu of `popup-geometry` is moved at step `j` (2 to 5).
pub open spec fn walk_step(j: int) -> Command {
    Command::SelfMove(2, (80 + 40 * (j - 1)) as i16, (60 + 30 * (j - 1)) as i16)
}

/// The steps of `popup-geometry`: a popup that moves and resizes ITSELF, the way a real
/// menu does. It is walked around as a menu re-anchoring off an edge does, grown and
/// shrunk in place, and finally moved and resized in one request.
pub open spec fn popup_geometry_steps(s: Seq<Step>) -> bool {
    &&& s.len() == 10
    &&& plain(s[0], Command::MapWindow(520, 360), 500)
    &&& plain(s[1], Command::MapChild(1, 60, 40, 200, 160, true, WmType::Menu), 600)
    &&& forall|j: int| 2 <= j < 6 ==> plain(#[trigger] s[j], walk_step(j), 400)
    &&& plain(s[6], Command::SelfResize(2, 320, 260), 500)
    &&& plain(s[7], Command::SelfResize(2, 160, 120), 500)
    &&& plain(s[8], Command::SelfMoveResize(2, 120, 90, 280, 220), 500)
    &&& plain(s[9], Command::Info, 0)
}

fn popup_geometry() -> (r: Vec<Step>)
    ensures
        popup_geometry_steps(r@),
{
    let mut v = vec![
        Step(Command::MapWindow(520, 360), 500),
        Step(Command::MapChild(1, 60, 40, 200, 160, true, WmType::Menu), 600),
    ];
    let mut i: i16 = 1;
    while i <= 4
        invariant
            1 <= i <= 5,
            v@.len() == i + 1,
            plain(v@[0], Command::MapWindow(520, 360), 500),
            plain(v@[1], Command::MapChild(1, 60, 40, 200, 160, true, WmType::Menu), 600),
            forall|j: int| 2 <= j < i + 1 ==> plain(#[trigger] v@[j], walk_step(j), 400),
        decreases 5 - i,
    {
        v.push(Step(Command::SelfMove(2, 80 + 40 * i, 60 + 30 * i), 400));
        assert(plain(v@[i + 1], walk_step(i + 1), 400));
        i += 1;
    }
    v.push(Step(Command::SelfResize(2, 320, 260), 500));
    v.push(Step(Command::SelfResize(2, 160, 120), 500));
    v.push(Step(Command::SelfMoveResize(2, 120, 90, 280, 220), 500));
    v.push(Step(Command::Info, 0));
    v
}

/// The child `types` maps at step `j` (2 to 14): the `j - 1`-th window type after
/// `Unset`, placed further out each time.
pub open spec fn type_step(j: int) -> Command {
    Command::MapChild(1, (20 * (j - 1)) as i16, (16 * (j - 1)) as i16, 150, 90, true, all_wm_types()[j - 1])
}

/// The steps of `types`: every _NET_WM_WINDOW_TYPE in turn (all but `Unset`), each as
/// an override-redirect child of one owner, to see which get popup treatment.
pub open spec fn types_steps(s: Seq<Step>) -> bool {
    &&& s.len() == 16
    &&& plain(s[0], Command::MapWindow(560, 380), 500)
    &&& titled(s[1], 1, "type owner"@, 200)
    &&& forall|j: int| 2 <= j < 15 ==> plain(#[trigger] s[j], type_step(j), 250)
    &&& plain(s[15], Command::Info, 0)
}

fn types() -> (r: Vec<Step>)
    ensures
        types_steps(r@),
{
    let mut v = vec![
        Step(Command::MapWindow(560, 380), 500),
        Step(Command::Title(1, string_from("type owner")), 200),
    ];
    let all = WmType::all();
    let mut n: i16 = 0;
    let mut k: usize = 0;
    while k < 14
        invariant
            k <= 14,
            all@ == all_wm_types(),
            n == (if k == 0 { 0 } else { k - 1 }),
            v@.len() == n + 2,
            plain(v@[0], Command::MapWindow(560, 380), 500),
            titled(v@[1], 1, "type owner"@, 200),
            forall|j: int| 2 <= j < n + 2 ==> plain(#[trigger] v@[j], type_step(j), 250),
        decreases 14 - k,
    {
        let t = all[k];
        if t != WmType::Unset {
            n += 1;
            v.push(Step(Command::MapChild(1, 20 * n, 16 * n, 150, 90, true, t), 250));
            assert(plain(v@[n + 1], type_step(n + 1), 250));
        }
        k += 1;
    }
    v.push(Step(Command::Info, 0));
    v
}

/// Where `or-fight` re-anchors its menu at step `j` (3 to 10).
pub open spec fn reanchor_step(j: int) -> Command {
    Command::OrReanchor(2, (20 * (j - 2)) as i16, (10 * (j - 2)) as i16)
}

/// The steps of `or-fight`: a client that re-anchors its own override-redirect menu
/// eight times, further out each time.
pub open spec fn or_fight_steps(s: Seq<Step>) -> bool {
    &&& s.len() == 12
    &&& plain(s[0], Command::MapWindow(500, 340), 500)
    &&& titled(s[1], 1, "re-anchor test"@, 200)
    &&& plain(s[2], Command::Or(1, 60, 40, 200, 160), 600)
    &&& forall|j: int| 3 <= j < 11 ==> plain(#[trigger] s[j], reanchor_step(j), 300)
    &&& plain(s[11], Command::Info, 0)
}

fn or_fight() -> (r: Vec<Step>)
    ensures
        or_fight_steps(r@),
{
    let mut v = vec![
        Step(Command::MapWindow(500, 340), 500),
        Step(Command::Title(1, string_from("re-anchor test")), 200),
        Step(Command::Or(1, 60, 40, 200, 160), 600),
    ];
    let mut i: i16 = 1;
    while i <= 8
        invariant
            1 <= i <= 9,
            v@.len() == i + 2,
            plain(v@[0], Command::MapWindow(500, 340), 500),
            titled(v@[1], 1, "re-anchor test"@, 200),
            plain(v@[2], Command::Or(1, 60, 40, 200, 160), 600),
            forall|j: int| 3 <= j < i + 2 ==> plain(#[trigger] v@[j], reanchor_step(j), 300),
        decreases 9 - i,
    {
        v.push(Step(Command::OrReanchor(2, 20 * i, 10 * i), 300));
        assert(plain(v@[i + 2], reanchor_step(i + 2), 300));
        i += 1;
    }
    v.push(Step(Command::Info, 0));
    v
}
/// The name of scenario `i`, in the order of [`all`].
pub open spec fn scenario_name(i: int) -> Seq<char> {
    if i == 0 {
        "basics"@
    } else if i == 1 {
        "identity"@
    } else if i == 2 {
        "focus"@
    } else if i == 3 {
        "icon"@
    } else if i == 4 {
        "translucent"@
    } else if i == 5 {
        "dnd"@
    } else if i == 6 {
        "withdraw"@
    } else if i == 7 {
        "popup"@
    } else if i == 8 {
        "popup-geometry"@
    } else if i == 9 {
        "popup-input"@
    } else if i == 10 {
        "types"@
    } else if i == 11 {
        "type-flip"@
    } else if i == 12 {
        "self-geometry"@
    } else if i == 13 {
        "or-menu"@
    } else if i == 14 {
        "or-fight"@
    } else if i == 15 {
        "or-submenu"@
    } else if i == 16 {
        "placement"@
    } else if i == 17 {
        "transient"@
    } else if i == 18 {
        "close"@
    } else if i == 19 {
        "stacking"@
    } else if i == 20 {
        "clipboard"@
    } else if i == 21 {
        "storm"@
    } else {
        Seq::empty()
    }
}

/// The one-line description of scenario `i`.
pub open spec fn scenario_about(i: int) -> Seq<char> {
    if i == 0 {
        "one managed window: title, class, resize, fullscreen"@
    } else if i == 1 {
        "does the compositor see the APP's pid, not the X server's"@
    } else if i == 2 {
        "all four ICCCM input models — the silent no-keyboard case"@
    } else if i == 3 {
        "_NET_WM_ICON: which image does the decoder pick, and what survives a bad one"@
    } else if i == 4 {
        "a 32-bit ARGB window: is what is BEHIND it still drawn"@
    } else if i == 5 {
        "XDND between two X11 windows: do the coordinates mean anything"@
    } else if i == 6 {
        "unmap/remap twice: two placeholders, one window, no abort"@
    } else if i == 7 {
        "a REAL y5 popup: override-redirect + WM_TRANSIENT_FOR + menu type"@
    } else if i == 8 {
        "a popup that moves and resizes ITSELF, the way a real menu does"@
    } else if i == 9 {
        "does the popup get crossings and clicks where it overlaps its parent"@
    } else if i == 10 {
        "every _NET_WM_WINDOW_TYPE in turn: which get popup treatment"@
    } else if i == 11 {
        "the classification changes between map and surface association"@
    } else if i == 12 {
        "toplevel vs transient vs override-redirect moving/resizing themselves"@
    } else if i == 13 {
        "an override-redirect menu on a window: does it draw and take clicks"@
    } else if i == 14 {
        "a client that re-anchors its own menu — the provisional decision's risk"@
    } else if i == 15 {
        "override-redirect chained off an override-redirect"@
    } else if i == 16 {
        "the compositor must honour a size request and refuse a move"@
    } else if i == 17 {
        "WM_TRANSIENT_FOR — the window should size itself, not be locked"@
    } else if i == 18 {
        "WM_DELETE_WINDOW vs a window that does not offer it"@
    } else if i == 19 {
        "two windows plus a menu: does the X server agree about the order"@
    } else if i == 20 {
        "X11 takes the clipboard, then reads it back"@
    } else if i == 21 {
        "rapid resize + re-anchor: is the configure flush coalescing"@
    } else {
        Seq::empty()
    }
}

/// The steps of scenario `i` are exactly `s`.
pub open spec fn scenario_steps(i: int, s: Seq<Step>) -> bool {
    if i == 0 {
        basics_steps(s)
    } else if i == 1 {
        identity_steps(s)
    } else if i == 2 {
        focus_steps(s)
    } else if i == 3 {
        icon_steps(s)
    } else if i == 4 {
        translucent_steps(s)
    } else if i == 5 {
        dnd_steps(s)
    } else if i == 6 {
        withdraw_steps(s)
    } else if i == 7 {
        popup_steps(s)
    } else if i == 8 {
        popup_geometry_steps(s)
    } else if i == 9 {
        popup_input_steps(s)
    } else if i == 10 {
        types_steps(s)
    } else if i == 11 {
        type_flip_steps(s)
    } else if i == 12 {
        self_geometry_steps(s)
    } else if i == 13 {
        or_menu_steps(s)
    } else if i == 14 {
        or_fight_steps(s)
    } else if i == 15 {
        or_submenu_steps(s)
    } else if i == 16 {
        placement_steps(s)
    } else if i == 17 {
        transient_steps(s)
    } else if i == 18 {
        close_steps(s)
    } else if i == 19 {
        stacking_steps(s)
    } else if i == 20 {
        clipboard_steps(s)
    } else if i == 21 {
        storm_steps(s)
    } else {
        false
    }
}

/// `(name, one-line description, steps)` for every scenario, in a fixed order. The
/// controller prints this table for `--list`.
pub fn all() -> (r: Vec<(&'static str, &'static str, Vec<Step>)>)
    ensures
        r@.len() == 22,
        forall|i: int|
            #![trigger r@[i]]
            0 <= i < 22 ==> r@[i].0@ == scenario_name(i) && r@[i].1@ == scenario_about(i)
                && scenario_steps(i, r@[i].2@),
{
    let v = vec![
        ("basics", "one managed window: title, class, resize, fullscreen", basics()),
        ("identity", "does the compositor see the APP's pid, not the X server's", identity()),
        ("focus", "all four ICCCM input models — the silent no-keyboard case", focus()),
        ("icon", "_NET_WM_ICON: which image does the decoder pick, and what survives a bad one", icon()),
        ("translucent", "a 32-bit ARGB window: is what is BEHIND it still drawn", translucent()),
        ("dnd", "XDND between two X11 windows: do the coordinates mean anything", dnd()),
        ("withdraw", "unmap/remap twice: two placeholders, one window, no abort", withdraw()),
        ("popup", "a REAL y5 popup: override-redirect + WM_TRANSIENT_FOR + menu type", popup()),
        ("popup-geometry", "a popup that moves and resizes ITSELF, the way a real menu does", popup_geometry()),
        ("popup-input", "does the popup get crossings and clicks where it overlaps its parent", popup_input()),
        ("types", "every _NET_WM_WINDOW_TYPE in turn: which get popup treatment", types()),
        ("type-flip", "the classification changes between map and surface association", type_flip()),
        ("self-geometry", "toplevel vs transient vs override-redirect moving/resizing themselves", self_geometry()),
        ("or-menu", "an override-redirect menu on a window: does it draw and take clicks", or_menu()),
        ("or-fight", "a client that re-anchors its own menu — the provisional decision's risk", or_fight()),
        ("or-submenu", "override-redirect chained off an override-redirect", or_submenu()),
        ("placement", "the compositor must honour a size request and refuse a move", placement()),
        ("transient", "WM_TRANSIENT_FOR — the window should size itself, not be locked", transient()),
        ("close", "WM_DELETE_WINDOW vs a window that does not offer it", close()),
        ("stacking", "two windows plus a menu: does the X server agree about the order", stacking()),
        ("clipboard", "X11 takes the clipboard, then reads it back", clipboard()),
        ("storm", "rapid resize + re-anchor: is the configure flush coalescing", storm()),
    ];
    assert forall|i: int| #![trigger v@[i]] 0 <= i < 22 implies v@[i].0@ == scenario_name(i)
        && v@[i].1@ == scenario_about(i) && scenario_steps(i, v@[i].2@) by {
    }
    v
}

/// The steps of the first scenario named `name`, or `None` when no scenario has that
/// name.
pub fn by_name(name: &str) -> (r: Option<Vec<Step>>)
    ensures
        match r {
            Some(s) => exists|i: int|
                0 <= i < 22 && scenario_name(i) == name@
                    && (forall|j: int| 0 <= j < i ==> scenario_name(j) != name@)
                    && scenario_steps(i, s@),
            None => forall|i: int| 0 <= i < 22 ==> scenario_name(i) != name@,
        },
{
    let wanted = chars_of(name);
    let mut v = all();
    let ghost table = v@;
    let mut k: usize = 0;
    while k < v.len()
        invariant
            v@ == table,
            table.len() == 22,
            wanted@ == name@,
            forall|i: int|
                #![trigger table[i]]
                0 <= i < 22 ==> table[i].0@ == scenario_name(i) && scenario_steps(i, table[i].2@),
            k <= table.len(),
            forall|j: int| 0 <= j < k ==> scenario_name(j) != name@,
        decreases table.len() - k,
    {
        if chars_eq_str(&wanted, v[k].0) {
            let entry = v.remove(k);
            assert(table[k as int].0@ == scenario_name(k as int));
            return Some(entry.2);
        }
        assert(table[k as int].0@ == scenario_name(k as int));
        k += 1;
    }
    None
}

/// Every step of every scenario is a command the subject accepts: its wire line reads
/// back as that same command.
pub proof fn lemma_scenario_steps_round_trip(i: int, s: Seq<Step>, j: int)
    requires
        0 <= i < 22,
        scenario_steps(i, s),
        0 <= j < s.len(),
    ensures
        line_reads_as(encode_spec(s[j].0), s[j].0),
{
    lemma_round_trip(s[j].0);
}

} // verus!
