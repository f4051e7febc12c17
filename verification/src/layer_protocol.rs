//! The command vocabulary the layer-shell controller sends to its subject, one command
//! per line.
//!
//! Wire form is a compact, space-separated text line: a verb followed by its arguments,
//! e.g. `layer overlay`, `excl 40`, `margin 8 8 8 8`, `popup-off 40 0`. Both processes
//! share this module, so [`Command::encode`] and [`Command::parse`] stay in sync; the
//! round trip is proved in [`lemma_round_trip`].

use vstd::prelude::*;
use crate::text::{
    chars_eq_str, int_arg, is_ws, lemma_int_round_trip, lemma_int_text_plain, lemma_on_word,
    lemma_split_join, no_ws, plain_words, int_at, int_text, join_sp, line_int, line_int2, line_int4, line_of,
    line_word, on_arg, on_at, on_word, split_whitespace, split_ws, views, word_at, word_is,
};

verus! {

/// wlr layer level a surface sits on (`zwlr_layer_shell_v1` layer arg).
#[derive(Clone, Copy, Debug, PartialEq, Eq, Structural)]
pub enum Layer {
    Background,
    Bottom,
    Top,
    Overlay,
}

/// Keyboard interactivity mode (`zwlr_layer_surface_v1.set_keyboard_interactivity`).
#[derive(Clone, Copy, Debug, PartialEq, Eq, Structural)]
pub enum Kbd {
    /// Never takes the keyboard (wire word `none`).
    Disabled,
    Exclusive,
    OnDemand,
}

/// Input-region shape requested via `wl_surface.set_input_region`.
#[derive(Clone, Copy, Debug, PartialEq, Eq, Structural)]
pub enum Region {
    /// Whole surface accepts input (default).
    Full,
    /// Empty region: click-through (wire word `none`).
    Empty,
    /// Rectangle-approximated disc in the centre.
    Circle,
    /// Full region minus an inner rectangle.
    Holes,
}

/// Buffer-scale behaviour (a trimmed subset of the window harness's scale modes).
#[derive(Clone, Copy, Debug, PartialEq, Eq, Structural)]
pub enum ScaleReq {
    Normal,
    FsHonor,
    FsIgnore,
    DpiHonor,
    DpiIgnore,
    DpiScale(i32),
}

/// A control request issued on a selected wlr foreign-toplevel handle.
#[derive(Clone, Copy, Debug, PartialEq, Eq, Structural)]
pub enum ForeignCtl {
    Activate,
    Close,
    Maximized(bool),
    Minimized(bool),
    Fullscreen(bool),
}

/// xdg_positioner anchor point / gravity, reused for popups spawned from the layer surface.
#[derive(Clone, Copy, Debug, PartialEq, Eq, Structural)]
pub enum Anchor {
    Center,
    Top,
    Bottom,
    Left,
    Right,
    TopLeft,
    TopRight,
    BottomLeft,
    BottomRight,
}

/// Popup gravity shares the anchor vocabulary.
pub type Gravity = Anchor;

/// One controller -> subject instruction. See the module docs for the wire form.
#[derive(Clone, Copy, Debug, PartialEq, Eq, Structural)]
pub enum Command {
    SetLayer(Layer),
    AnchorTop,
    AnchorBottom,
    AnchorLeft,
    AnchorRight,
    AnchorAll,
    AnchorNone,
    Excl(i32),
    /// Margins: top, right, bottom, left.
    Margin(i32, i32, i32, i32),
    Keyboard(Kbd),
    /// Size; 0 in a dimension = stretch along the anchored edge.
    Size(u32, u32),
    PopupAdd,
    PopupClose,
    PopupAnchor(Anchor),
    PopupGravity(Gravity),
    PopupOff(i32, i32),
    PopupSize(u32, u32),
    PopupMove(i32, i32),
    Input(Region),
    /// `true` = whole surface opaque, `false` = unset.
    Opaque(bool),
    OutputCycle,
    Scale(ScaleReq),
    Transparent(bool),
    Animate(bool),
    /// Cycle the selected foreign toplevel by +1 / -1.
    ForeignSel(i32),
    Foreign(ForeignCtl),
    Recreate,
    Quit,
}

// ---------------------------------------------------------------------------------
// Words
// ---------------------------------------------------------------------------------

pub open spec fn layer_word(l: Layer) -> Seq<char> {
    match l {
        Layer::Background => "background"@,
        Layer::Bottom => "bottom"@,
        Layer::Top => "top"@,
        Layer::Overlay => "overlay"@,
    }
}

pub open spec fn layer_of(w: Seq<char>) -> Option<Layer> {
    if w == "background"@ {
        Some(Layer::Background)
    } else if w == "bottom"@ {
        Some(Layer::Bottom)
    } else if w == "top"@ {
        Some(Layer::Top)
    } else if w == "overlay"@ {
        Some(Layer::Overlay)
    } else {
        None
    }
}

pub open spec fn kbd_word(k: Kbd) -> Seq<char> {
    match k {
        Kbd::Disabled => "none"@,
        Kbd::Exclusive => "exclusive"@,
        Kbd::OnDemand => "ondemand"@,
    }
}

pub open spec fn kbd_of(w: Seq<char>) -> Option<Kbd> {
    if w == "none"@ {
        Some(Kbd::Disabled)
    } else if w == "exclusive"@ {
        Some(Kbd::Exclusive)
    } else if w == "ondemand"@ {
        Some(Kbd::OnDemand)
    } else {
        None
    }
}

pub open spec fn region_word(r: Region) -> Seq<char> {
    match r {
        Region::Full => "full"@,
        Region::Empty => "none"@,
        Region::Circle => "circle"@,
        Region::Holes => "holes"@,
    }
}

pub open spec fn region_of(w: Seq<char>) -> Option<Region> {
    if w == "full"@ {
        Some(Region::Full)
    } else if w == "none"@ {
        Some(Region::Empty)
    } else if w == "circle"@ {
        Some(Region::Circle)
    } else if w == "holes"@ {
        Some(Region::Holes)
    } else {
        None
    }
}

pub open spec fn anchor_word(a: Anchor) -> Seq<char> {
    match a {
        Anchor::Center => "c"@,
        Anchor::Top => "t"@,
        Anchor::Bottom => "b"@,
        Anchor::Left => "l"@,
        Anchor::Right => "r"@,
        Anchor::TopLeft => "tl"@,
        Anchor::TopRight => "tr"@,
        Anchor::BottomLeft => "bl"@,
        Anchor::BottomRight => "br"@,
    }
}

pub open spec fn anchor_of(w: Seq<char>) -> Option<Anchor> {
    if w == "c"@ {
        Some(Anchor::Center)
    } else if w == "t"@ {
        Some(Anchor::Top)
    } else if w == "b"@ {
        Some(Anchor::Bottom)
    } else if w == "l"@ {
        Some(Anchor::Left)
    } else if w == "r"@ {
        Some(Anchor::Right)
    } else if w == "tl"@ {
        Some(Anchor::TopLeft)
    } else if w == "tr"@ {
        Some(Anchor::TopRight)
    } else if w == "bl"@ {
        Some(Anchor::BottomLeft)
    } else if w == "br"@ {
        Some(Anchor::BottomRight)
    } else {
        None
    }
}

impl Anchor {
    /// The wire token.
    pub(crate) fn token(self) -> (r: &'static str)
        ensures
            r@ == anchor_word(self),
    {
        match self {
            Anchor::Center => "c",
            Anchor::Top => "t",
            Anchor::Bottom => "b",
            Anchor::Left => "l",
            Anchor::Right => "r",
            Anchor::TopLeft => "tl",
            Anchor::TopRight => "tr",
            Anchor::BottomLeft => "bl",
            Anchor::BottomRight => "br",
        }
    }

    /// Read a wire token.
    pub(crate) fn parse(w: &Vec<char>) -> (r: Option<Anchor>)
        ensures
            r == anchor_of(w@),
    {
        if chars_eq_str(w, "c") {
            Some(Anchor::Center)
        } else if chars_eq_str(w, "t") {
            Some(Anchor::Top)
        } else if chars_eq_str(w, "b") {
            Some(Anchor::Bottom)
        } else if chars_eq_str(w, "l") {
            Some(Anchor::Left)
        } else if chars_eq_str(w, "r") {
            Some(Anchor::Right)
        } else if chars_eq_str(w, "tl") {
            Some(Anchor::TopLeft)
        } else if chars_eq_str(w, "tr") {
            Some(Anchor::TopRight)
        } else if chars_eq_str(w, "bl") {
            Some(Anchor::BottomLeft)
        } else if chars_eq_str(w, "br") {
            Some(Anchor::BottomRight)
        } else {
            None
        }
    }
}

fn layer_tok(l: Layer) -> (r: &'static str)
    ensures
        r@ == layer_word(l),
{
    match l {
        Layer::Background => "background",
        Layer::Bottom => "bottom",
        Layer::Top => "top",
        Layer::Overlay => "overlay",
    }
}

fn kbd_tok(k: Kbd) -> (r: &'static str)
    ensures
        r@ == kbd_word(k),
{
    match k {
        Kbd::Disabled => "none",
        Kbd::Exclusive => "exclusive",
        Kbd::OnDemand => "ondemand",
    }
}

fn region_tok(r: Region) -> (s: &'static str)
    ensures
        s@ == region_word(r),
{
    match r {
        Region::Full => "full",
        Region::Empty => "none",
        Region::Circle => "circle",
        Region::Holes => "holes",
    }
}

fn on8(on: bool) -> (r: &'static str)
    ensures
        r@ == on_word(on),
{
    if on {
        "on"
    } else {
        "off"
    }
}

/// The line for a buffer-scale request.
fn scale_tok(s: ScaleReq) -> (r: String)
    ensures
        r@ == join_sp(words(Command::Scale(s))),
{
    match s {
        ScaleReq::Normal => line_of("scale-normal"),
        ScaleReq::FsHonor => line_of("fs-honor"),
        ScaleReq::FsIgnore => line_of("fs-ignore"),
        ScaleReq::DpiHonor => line_of("dpi-honor"),
        ScaleReq::DpiIgnore => line_of("dpi-ignore"),
        ScaleReq::DpiScale(n) => line_int("dpi-scale", n as i64),
    }
}

// ---------------------------------------------------------------------------------
// The wire form
// ---------------------------------------------------------------------------------

/// The words of a command's wire line: verb first, then its arguments.
pub open spec fn words(c: Command) -> Seq<Seq<char>> {
    match c {
        Command::SetLayer(l) => seq!["layer"@, layer_word(l)],
        Command::AnchorTop => seq!["anchor-top"@],
        Command::AnchorBottom => seq!["anchor-bottom"@],
        Command::AnchorLeft => seq!["anchor-left"@],
        Command::AnchorRight => seq!["anchor-right"@],
        Command::AnchorAll => seq!["anchor-all"@],
        Command::AnchorNone => seq!["anchor-none"@],
        Command::Excl(n) => seq!["excl"@, int_text(n as int)],
        Command::Margin(t, r, b, l) => seq![
            "margin"@,
            int_text(t as int),
            int_text(r as int),
            int_text(b as int),
            int_text(l as int),
        ],
        Command::Keyboard(k) => seq!["kbd"@, kbd_word(k)],
        Command::Size(w, h) => seq!["size"@, int_text(w as int), int_text(h as int)],
        Command::PopupAdd => seq!["popup-add"@],
        Command::PopupClose => seq!["popup-close"@],
        Command::PopupAnchor(a) => seq!["popup-anchor"@, anchor_word(a)],
        Command::PopupGravity(g) => seq!["popup-gravity"@, anchor_word(g)],
        Command::PopupOff(x, y) => seq!["popup-off"@, int_text(x as int), int_text(y as int)],
        Command::PopupSize(w, h) => seq!["popup-size"@, int_text(w as int), int_text(h as int)],
        Command::PopupMove(x, y) => seq!["popup-move"@, int_text(x as int), int_text(y as int)],
        Command::Input(r) => seq!["input"@, region_word(r)],
        Command::Opaque(on) => seq![
            "opaque"@,
            if on {
                "full"@
            } else {
                "none"@
            },
        ],
        Command::OutputCycle => seq!["output-cycle"@],
        Command::Scale(s) => match s {
            ScaleReq::Normal => seq!["scale-normal"@],
            ScaleReq::FsHonor => seq!["fs-honor"@],
            ScaleReq::FsIgnore => seq!["fs-ignore"@],
            ScaleReq::DpiHonor => seq!["dpi-honor"@],
            ScaleReq::DpiIgnore => seq!["dpi-ignore"@],
            ScaleReq::DpiScale(n) => seq!["dpi-scale"@, int_text(n as int)],
        },
        Command::Transparent(on) => seq!["transparent"@, on_word(on)],
        Command::Animate(on) => seq!["animate"@, on_word(on)],
        Command::ForeignSel(d) => seq!["foreign-sel"@, int_text(d as int)],
        Command::Foreign(f) => match f {
            ForeignCtl::Activate => seq!["foreign-activate"@],
            ForeignCtl::Close => seq!["foreign-close"@],
            ForeignCtl::Maximized(on) => seq!["foreign-max"@, on_word(on)],
            ForeignCtl::Minimized(on) => seq!["foreign-min"@, on_word(on)],
            ForeignCtl::Fullscreen(on) => seq!["foreign-full"@, on_word(on)],
        },
        Command::Recreate => seq!["recreate"@],
        Command::Quit => seq!["quit"@],
    }
}

/// The wire line of a command.
pub open spec fn encode_spec(c: Command) -> Seq<char> {
    join_sp(words(c))
}

pub open spec fn i32_at(ws: Seq<Seq<char>>, k: int) -> Option<int> {
    int_at(ws, k, true, i32::MIN as int, i32::MAX as int)
}

pub open spec fn u32_at(ws: Seq<Seq<char>>, k: int) -> Option<int> {
    int_at(ws, k, false, 0, u32::MAX as int)
}

/// Commands whose verb is followed by nothing that is read.
pub open spec fn bare_command(v: Seq<char>) -> Option<Command> {
    if v == "anchor-top"@ {
        Some(Command::AnchorTop)
    } else if v == "anchor-bottom"@ {
        Some(Command::AnchorBottom)
    } else if v == "anchor-left"@ {
        Some(Command::AnchorLeft)
    } else if v == "anchor-right"@ {
        Some(Command::AnchorRight)
    } else if v == "anchor-all"@ {
        Some(Command::AnchorAll)
    } else if v == "anchor-none"@ {
        Some(Command::AnchorNone)
    } else if v == "popup-add"@ {
        Some(Command::PopupAdd)
    } else if v == "popup-close"@ {
        Some(Command::PopupClose)
    } else if v == "output-cycle"@ {
        Some(Command::OutputCycle)
    } else if v == "scale-normal"@ {
        Some(Command::Scale(ScaleReq::Normal))
    } else if v == "fs-honor"@ {
        Some(Command::Scale(ScaleReq::FsHonor))
    } else if v == "fs-ignore"@ {
        Some(Command::Scale(ScaleReq::FsIgnore))
    } else if v == "dpi-honor"@ {
        Some(Command::Scale(ScaleReq::DpiHonor))
    } else if v == "dpi-ignore"@ {
        Some(Command::Scale(ScaleReq::DpiIgnore))
    } else if v == "foreign-activate"@ {
        Some(Command::Foreign(ForeignCtl::Activate))
    } else if v == "foreign-close"@ {
        Some(Command::Foreign(ForeignCtl::Close))
    } else if v == "recreate"@ {
        Some(Command::Recreate)
    } else if v == "quit"@ {
        Some(Command::Quit)
    } else {
        None
    }
}

/// What the verbs that take arguments read from the words after them; `None` for a
/// verb that is not one of them or for missing or malformed arguments.
pub open spec fn arg_command(ws: Seq<Seq<char>>) -> Option<Command> {
    let v = ws[0];
    if v == "layer"@ {
        match word_at(ws, 1) {
            Some(w) => match layer_of(w) {
                Some(l) => Some(Command::SetLayer(l)),
                None => None,
            },
            None => None,
        }
    } else if v == "excl"@ {
        match i32_at(ws, 1) {
            Some(n) => Some(Command::Excl(n as i32)),
            None => None,
        }
    } else if v == "margin"@ {
        match (i32_at(ws, 1), i32_at(ws, 2), i32_at(ws, 3), i32_at(ws, 4)) {
            (Some(t), Some(r), Some(b), Some(l)) => Some(
                Command::Margin(t as i32, r as i32, b as i32, l as i32),
            ),
            _ => None,
        }
    } else if v == "kbd"@ {
        match word_at(ws, 1) {
            Some(w) => match kbd_of(w) {
                Some(k) => Some(Command::Keyboard(k)),
                None => None,
            },
            None => None,
        }
    } else if v == "size"@ {
        match (u32_at(ws, 1), u32_at(ws, 2)) {
            (Some(w), Some(h)) => Some(Command::Size(w as u32, h as u32)),
            _ => None,
        }
    } else if v == "popup-anchor"@ {
        match word_at(ws, 1) {
            Some(w) => match anchor_of(w) {
                Some(a) => Some(Command::PopupAnchor(a)),
                None => None,
            },
            None => None,
        }
    } else if v == "popup-gravity"@ {
        match word_at(ws, 1) {
            Some(w) => match anchor_of(w) {
                Some(a) => Some(Command::PopupGravity(a)),
                None => None,
            },
            None => None,
        }
    } else if v == "popup-off"@ {
        match (i32_at(ws, 1), i32_at(ws, 2)) {
            (Some(x), Some(y)) => Some(Command::PopupOff(x as i32, y as i32)),
            _ => None,
        }
    } else if v == "popup-size"@ {
        match (u32_at(ws, 1), u32_at(ws, 2)) {
            (Some(w), Some(h)) => Some(Command::PopupSize(w as u32, h as u32)),
            _ => None,
        }
    } else if v == "popup-move"@ {
        match (i32_at(ws, 1), i32_at(ws, 2)) {
            (Some(x), Some(y)) => Some(Command::PopupMove(x as i32, y as i32)),
            _ => None,
        }
    } else if v == "input"@ {
        match word_at(ws, 1) {
            Some(w) => match region_of(w) {
                Some(r) => Some(Command::Input(r)),
                None => None,
            },
            None => None,
        }
    } else if v == "opaque"@ {
        match word_at(ws, 1) {
            Some(w) => if w == "full"@ {
                Some(Command::Opaque(true))
            } else if w == "none"@ {
                Some(Command::Opaque(false))
            } else {
                None
            },
            None => None,
        }
    } else if v == "dpi-scale"@ {
        match i32_at(ws, 1) {
            Some(n) => Some(Command::Scale(ScaleReq::DpiScale(n as i32))),
            None => None,
        }
    } else if v == "transparent"@ {
        match on_at(ws, 1) {
            Some(on) => Some(Command::Transparent(on)),
            None => None,
        }
    } else if v == "animate"@ {
        match on_at(ws, 1) {
            Some(on) => Some(Command::Animate(on)),
            None => None,
        }
    } else if v == "foreign-sel"@ {
        match i32_at(ws, 1) {
            Some(d) => Some(Command::ForeignSel(d as i32)),
            None => None,
        }
    } else if v == "foreign-max"@ {
        match on_at(ws, 1) {
            Some(on) => Some(Command::Foreign(ForeignCtl::Maximized(on))),
            None => None,
        }
    } else if v == "foreign-min"@ {
        match on_at(ws, 1) {
            Some(on) => Some(Command::Foreign(ForeignCtl::Minimized(on))),
            None => None,
        }
    } else if v == "foreign-full"@ {
        match on_at(ws, 1) {
            Some(on) => Some(Command::Foreign(ForeignCtl::Fullscreen(on))),
            None => None,
        }
    } else {
        None
    }
}

/// The command a list of words reads as: the verb picks the command and the words after
/// it are its arguments (anything past those is ignored).
pub open spec fn parse_words(ws: Seq<Seq<char>>) -> Option<Command> {
    if ws.len() == 0 {
        None
    } else if bare_command(ws[0]) is Some {
        bare_command(ws[0])
    } else {
        arg_command(ws)
    }
}

/// What [`Command::parse`] returns for a line.
pub open spec fn parse_spec(line: Seq<char>) -> Option<Command> {
    parse_words(split_ws(line))
}

fn bare_parse(v: &Vec<char>) -> (r: Option<Command>)
    ensures
        r == bare_command(v@),
{
    if chars_eq_str(v, "anchor-top") {
        Some(Command::AnchorTop)
    } else if chars_eq_str(v, "anchor-bottom") {
        Some(Command::AnchorBottom)
    } else if chars_eq_str(v, "anchor-left") {
        Some(Command::AnchorLeft)
    } else if chars_eq_str(v, "anchor-right") {
        Some(Command::AnchorRight)
    } else if chars_eq_str(v, "anchor-all") {
        Some(Command::AnchorAll)
    } else if chars_eq_str(v, "anchor-none") {
        Some(Command::AnchorNone)
    } else if chars_eq_str(v, "popup-add") {
        Some(Command::PopupAdd)
    } else if chars_eq_str(v, "popup-close") {
        Some(Command::PopupClose)
    } else if chars_eq_str(v, "output-cycle") {
        Some(Command::OutputCycle)
    } else if chars_eq_str(v, "scale-normal") {
        Some(Command::Scale(ScaleReq::Normal))
    } else if chars_eq_str(v, "fs-honor") {
        Some(Command::Scale(ScaleReq::FsHonor))
    } else if chars_eq_str(v, "fs-ignore") {
        Some(Command::Scale(ScaleReq::FsIgnore))
    } else if chars_eq_str(v, "dpi-honor") {
        Some(Command::Scale(ScaleReq::DpiHonor))
    } else if chars_eq_str(v, "dpi-ignore") {
        Some(Command::Scale(ScaleReq::DpiIgnore))
    } else if chars_eq_str(v, "foreign-activate") {
        Some(Command::Foreign(ForeignCtl::Activate))
    } else if chars_eq_str(v, "foreign-close") {
        Some(Command::Foreign(ForeignCtl::Close))
    } else if chars_eq_str(v, "recreate") {
        Some(Command::Recreate)
    } else if chars_eq_str(v, "quit") {
        Some(Command::Quit)
    } else {
        None
    }
}

fn i32_arg(toks: &Vec<Vec<char>>, k: usize) -> (r: Option<i32>)
    ensures
        match r {
            Some(v) => i32_at(views(toks@), k as int) == Some(v as int),
            None => i32_at(views(toks@), k as int) is None,
        },
{
    match int_arg(toks, k, true, i32::MIN as i64, i32::MAX as i64) {
        Some(v) => Some(v as i32),
        None => None,
    }
}

fn u32_arg(toks: &Vec<Vec<char>>, k: usize) -> (r: Option<u32>)
    ensures
        match r {
            Some(v) => u32_at(views(toks@), k as int) == Some(v as int),
            None => u32_at(views(toks@), k as int) is None,
        },
{
    match int_arg(toks, k, false, 0, u32::MAX as i64) {
        Some(v) => Some(v as u32),
        None => None,
    }
}

fn layer_arg(toks: &Vec<Vec<char>>, k: usize) -> (r: Option<Layer>)
    ensures
        r == (match word_at(views(toks@), k as int) {
            Some(w) => layer_of(w),
            None => None,
        }),
{
    if word_is(toks, k, "background") {
        Some(Layer::Background)
    } else if word_is(toks, k, "bottom") {
        Some(Layer::Bottom)
    } else if word_is(toks, k, "top") {
        Some(Layer::Top)
    } else if word_is(toks, k, "overlay") {
        Some(Layer::Overlay)
    } else {
        None
    }
}

fn kbd_arg(toks: &Vec<Vec<char>>, k: usize) -> (r: Option<Kbd>)
    ensures
        r == (match word_at(views(toks@), k as int) {
            Some(w) => kbd_of(w),
            None => None,
        }),
{
    if word_is(toks, k, "none") {
        Some(Kbd::Disabled)
    } else if word_is(toks, k, "exclusive") {
        Some(Kbd::Exclusive)
    } else if word_is(toks, k, "ondemand") {
        Some(Kbd::OnDemand)
    } else {
        None
    }
}

fn region_arg(toks: &Vec<Vec<char>>, k: usize) -> (r: Option<Region>)
    ensures
        r == (match word_at(views(toks@), k as int) {
            Some(w) => region_of(w),
            None => None,
        }),
{
    if word_is(toks, k, "full") {
        Some(Region::Full)
    } else if word_is(toks, k, "none") {
        Some(Region::Empty)
    } else if word_is(toks, k, "circle") {
        Some(Region::Circle)
    } else if word_is(toks, k, "holes") {
        Some(Region::Holes)
    } else {
        None
    }
}

fn anchor_arg(toks: &Vec<Vec<char>>, k: usize) -> (r: Option<Anchor>)
    ensures
        r == (match word_at(views(toks@), k as int) {
            Some(w) => anchor_of(w),
            None => None,
        }),
{
    if k < toks.len() {
        assert(views(toks@)[k as int] == toks@[k as int]@);
        Anchor::parse(&toks[k])
    } else {
        None
    }
}

fn arg_parse(toks: &Vec<Vec<char>>) -> (r: Option<Command>)
    requires
        toks.len() > 0,
    ensures
        r == arg_command(views(toks@)),
{
    let ghost ws = views(toks@);
    assert(ws[0] == toks@[0]@);
    let v = &toks[0];
    if chars_eq_str(v, "layer") {
        match layer_arg(toks, 1) {
            Some(l) => Some(Command::SetLayer(l)),
            None => None,
        }
    } else if chars_eq_str(v, "excl") {
        match i32_arg(toks, 1) {
            Some(n) => Some(Command::Excl(n)),
            None => None,
        }
    } else if chars_eq_str(v, "margin") {
        match (i32_arg(toks, 1), i32_arg(toks, 2), i32_arg(toks, 3), i32_arg(toks, 4)) {
            (Some(t), Some(r), Some(b), Some(l)) => Some(Command::Margin(t, r, b, l)),
            _ => None,
        }
    } else if chars_eq_str(v, "kbd") {
        match kbd_arg(toks, 1) {
            Some(k) => Some(Command::Keyboard(k)),
            None => None,
        }
    } else if chars_eq_str(v, "size") {
        match (u32_arg(toks, 1), u32_arg(toks, 2)) {
            (Some(w), Some(h)) => Some(Command::Size(w, h)),
            _ => None,
        }
    } else if chars_eq_str(v, "popup-anchor") {
        match anchor_arg(toks, 1) {
            Some(a) => Some(Command::PopupAnchor(a)),
            None => None,
        }
    } else if chars_eq_str(v, "popup-gravity") {
        match anchor_arg(toks, 1) {
            Some(a) => Some(Command::PopupGravity(a)),
            None => None,
        }
    } else if chars_eq_str(v, "popup-off") {
        match (i32_arg(toks, 1), i32_arg(toks, 2)) {
            (Some(x), Some(y)) => Some(Command::PopupOff(x, y)),
            _ => None,
        }
    } else if chars_eq_str(v, "popup-size") {
        match (u32_arg(toks, 1), u32_arg(toks, 2)) {
            (Some(w), Some(h)) => Some(Command::PopupSize(w, h)),
            _ => None,
        }
    } else if chars_eq_str(v, "popup-move") {
        match (i32_arg(toks, 1), i32_arg(toks, 2)) {
            (Some(x), Some(y)) => Some(Command::PopupMove(x, y)),
            _ => None,
        }
    } else if chars_eq_str(v, "input") {
        match region_arg(toks, 1) {
            Some(r) => Some(Command::Input(r)),
            None => None,
        }
    } else if chars_eq_str(v, "opaque") {
        if word_is(toks, 1, "full") {
            Some(Command::Opaque(true))
        } else if word_is(toks, 1, "none") {
            Some(Command::Opaque(false))
        } else {
            None
        }
    } else if chars_eq_str(v, "dpi-scale") {
        match i32_arg(toks, 1) {
            Some(n) => Some(Command::Scale(ScaleReq::DpiScale(n))),
            None => None,
        }
    } else if chars_eq_str(v, "transparent") {
        match on_arg(toks, 1) {
            Some(on) => Some(Command::Transparent(on)),
            None => None,
        }
    } else if chars_eq_str(v, "animate") {
        match on_arg(toks, 1) {
            Some(on) => Some(Command::Animate(on)),
            None => None,
        }
    } else if chars_eq_str(v, "foreign-sel") {
        match i32_arg(toks, 1) {
            Some(d) => Some(Command::ForeignSel(d)),
            None => None,
        }
    } else if chars_eq_str(v, "foreign-max") {
        match on_arg(toks, 1) {
            Some(on) => Some(Command::Foreign(ForeignCtl::Maximized(on))),
            None => None,
        }
    } else if chars_eq_str(v, "foreign-min") {
        match on_arg(toks, 1) {
            Some(on) => Some(Command::Foreign(ForeignCtl::Minimized(on))),
            None => None,
        }
    } else if chars_eq_str(v, "foreign-full") {
        match on_arg(toks, 1) {
            Some(on) => Some(Command::Foreign(ForeignCtl::Fullscreen(on))),
            None => None,
        }
    } else {
        None
    }
}

impl Command {
    /// Render to a single wire line (no trailing newline).
    pub fn encode(&self) -> (r: String)
        ensures
            r@ == encode_spec(*self),
    {
        match *self {
            Command::SetLayer(l) => line_word("layer", layer_tok(l)),
            Command::AnchorTop => line_of("anchor-top"),
            Command::AnchorBottom => line_of("anchor-bottom"),
            Command::AnchorLeft => line_of("anchor-left"),
            Command::AnchorRight => line_of("anchor-right"),
            Command::AnchorAll => line_of("anchor-all"),
            Command::AnchorNone => line_of("anchor-none"),
            Command::Excl(n) => line_int("excl", n as i64),
            Command::Margin(t, r, b, l) => line_int4("margin", t as i64, r as i64, b as i64, l as i64),
            Command::Keyboard(k) => line_word("kbd", kbd_tok(k)),
            Command::Size(w, h) => line_int2("size", w as i64, h as i64),
            Command::PopupAdd => line_of("popup-add"),
            Command::PopupClose => line_of("popup-close"),
            Command::PopupAnchor(a) => line_word("popup-anchor", a.token()),
            Command::PopupGravity(g) => line_word("popup-gravity", g.token()),
            Command::PopupOff(x, y) => line_int2("popup-off", x as i64, y as i64),
            Command::PopupSize(w, h) => line_int2("popup-size", w as i64, h as i64),
            Command::PopupMove(x, y) => line_int2("popup-move", x as i64, y as i64),
            Command::Input(r) => line_word("input", region_tok(r)),
            Command::Opaque(on) => line_word(
                "opaque",
                if on {
                    "full"
                } else {
                    "none"
                },
            ),
            Command::OutputCycle => line_of("output-cycle"),
            Command::Scale(sr) => scale_tok(sr),
            Command::Transparent(on) => line_word("transparent", on8(on)),
            Command::Animate(on) => line_word("animate", on8(on)),
            Command::ForeignSel(d) => line_int("foreign-sel", d as i64),
            Command::Foreign(c) => match c {
                ForeignCtl::Activate => line_of("foreign-activate"),
                ForeignCtl::Close => line_of("foreign-close"),
                ForeignCtl::Maximized(on) => line_word("foreign-max", on8(on)),
                ForeignCtl::Minimized(on) => line_word("foreign-min", on8(on)),
                ForeignCtl::Fullscreen(on) => line_word("foreign-full", on8(on)),
            },
            Command::Recreate => line_of("recreate"),
            Command::Quit => line_of("quit"),
        }
    }

    /// Parse a single wire line, ignoring surrounding whitespace. Returns `None` for an
    /// unknown verb or malformed args.
    pub fn parse(line: &str) -> (r: Option<Command>)
        ensures
            r == parse_spec(line@),
    {
        let toks = split_whitespace(line);
        if toks.len() == 0 {
            return None;
        }
        assert(views(toks@)[0] == toks@[0]@);
        match bare_parse(&toks[0]) {
            Some(c) => Some(c),
            None => arg_parse(&toks),
        }
    }
}

// ---- literal facts --------------------------------------------------------------

/// The characters of every word this module puts on or reads from the wire.
pub proof fn lemma_wire_words()
    ensures
        "background"@.len() == 10 && "background"@[0] == 'b' && "background"@[1] == 'a' && "background"@[2] == 'c' && "background"@[3] == 'k' && "background"@[4] == 'g' && "background"@[5] == 'r' && "background"@[6] == 'o' && "background"@[7] == 'u' && "background"@[8] == 'n' && "background"@[9] == 'd',
        "bottom"@.len() == 6 && "bottom"@[0] == 'b' && "bottom"@[1] == 'o' && "bottom"@[2] == 't' && "bottom"@[3] == 't' && "bottom"@[4] == 'o' && "bottom"@[5] == 'm',
        "top"@.len() == 3 && "top"@[0] == 't' && "top"@[1] == 'o' && "top"@[2] == 'p',
        "overlay"@.len() == 7 && "overlay"@[0] == 'o' && "overlay"@[1] == 'v' && "overlay"@[2] == 'e' && "overlay"@[3] == 'r' && "overlay"@[4] == 'l' && "overlay"@[5] == 'a' && "overlay"@[6] == 'y',
        "none"@.len() == 4 && "none"@[0] == 'n' && "none"@[1] == 'o' && "none"@[2] == 'n' && "none"@[3] == 'e',
        "exclusive"@.len() == 9 && "exclusive"@[0] == 'e' && "exclusive"@[1] == 'x' && "exclusive"@[2] == 'c' && "exclusive"@[3] == 'l' && "exclusive"@[4] == 'u' && "exclusive"@[5] == 's' && "exclusive"@[6] == 'i' && "exclusive"@[7] == 'v' && "exclusive"@[8] == 'e',
        "ondemand"@.len() == 8 && "ondemand"@[0] == 'o' && "ondemand"@[1] == 'n' && "ondemand"@[2] == 'd' && "ondemand"@[3] == 'e' && "ondemand"@[4] == 'm' && "ondemand"@[5] == 'a' && "ondemand"@[6] == 'n' && "ondemand"@[7] == 'd',
        "full"@.len() == 4 && "full"@[0] == 'f' && "full"@[1] == 'u' && "full"@[2] == 'l' && "full"@[3] == 'l',
        "circle"@.len() == 6 && "circle"@[0] == 'c' && "circle"@[1] == 'i' && "circle"@[2] == 'r' && "circle"@[3] == 'c' && "circle"@[4] == 'l' && "circle"@[5] == 'e',
        "holes"@.len() == 5 && "holes"@[0] == 'h' && "holes"@[1] == 'o' && "holes"@[2] == 'l' && "holes"@[3] == 'e' && "holes"@[4] == 's',
        "c"@.len() == 1 && "c"@[0] == 'c',
        "t"@.len() == 1 && "t"@[0] == 't',
        "b"@.len() == 1 && "b"@[0] == 'b',
        "l"@.len() == 1 && "l"@[0] == 'l',
        "r"@.len() == 1 && "r"@[0] == 'r',
        "tl"@.len() == 2 && "tl"@[0] == 't' && "tl"@[1] == 'l',
        "tr"@.len() == 2 && "tr"@[0] == 't' && "tr"@[1] == 'r',
        "bl"@.len() == 2 && "bl"@[0] == 'b' && "bl"@[1] == 'l',
        "br"@.len() == 2 && "br"@[0] == 'b' && "br"@[1] == 'r',
        "layer"@.len() == 5 && "layer"@[0] == 'l' && "layer"@[1] == 'a' && "layer"@[2] == 'y' && "layer"@[3] == 'e' && "layer"@[4] == 'r',
        "anchor-top"@.len() == 10 && "anchor-top"@[0] == 'a' && "anchor-top"@[1] == 'n' && "anchor-top"@[2] == 'c' && "anchor-top"@[3] == 'h' && "anchor-top"@[4] == 'o' && "anchor-top"@[5] == 'r' && "anchor-top"@[6] == '-' && "anchor-top"@[7] == 't' && "anchor-top"@[8] == 'o' && "anchor-top"@[9] == 'p',
        "anchor-bottom"@.len() == 13 && "anchor-bottom"@[0] == 'a' && "anchor-bottom"@[1] == 'n' && "anchor-bottom"@[2] == 'c' && "anchor-bottom"@[3] == 'h' && "anchor-bottom"@[4] == 'o' && "anchor-bottom"@[5] == 'r' && "anchor-bottom"@[6] == '-' && "anchor-bottom"@[7] == 'b' && "anchor-bottom"@[8] == 'o' && "anchor-bottom"@[9] == 't' && "anchor-bottom"@[10] == 't' && "anchor-bottom"@[11] == 'o' && "anchor-bottom"@[12] == 'm',
        "anchor-left"@.len() == 11 && "anchor-left"@[0] == 'a' && "anchor-left"@[1] == 'n' && "anchor-left"@[2] == 'c' && "anchor-left"@[3] == 'h' && "anchor-left"@[4] == 'o' && "anchor-left"@[5] == 'r' && "anchor-left"@[6] == '-' && "anchor-left"@[7] == 'l' && "anchor-left"@[8] == 'e' && "anchor-left"@[9] == 'f' && "anchor-left"@[10] == 't',
        "anchor-right"@.len() == 12 && "anchor-right"@[0] == 'a' && "anchor-right"@[1] == 'n' && "anchor-right"@[2] == 'c' && "anchor-right"@[3] == 'h' && "anchor-right"@[4] == 'o' && "anchor-right"@[5] == 'r' && "anchor-right"@[6] == '-' && "anchor-right"@[7] == 'r' && "anchor-right"@[8] == 'i' && "anchor-right"@[9] == 'g' && "anchor-right"@[10] == 'h' && "anchor-right"@[11] == 't',
        "anchor-all"@.len() == 10 && "anchor-all"@[0] == 'a' && "anchor-all"@[1] == 'n' && "anchor-all"@[2] == 'c' && "anchor-all"@[3] == 'h' && "anchor-all"@[4] == 'o' && "anchor-all"@[5] == 'r' && "anchor-all"@[6] == '-' && "anchor-all"@[7] == 'a' && "anchor-all"@[8] == 'l' && "anchor-all"@[9] == 'l',
        "anchor-none"@.len() == 11 && "anchor-none"@[0] == 'a' && "anchor-none"@[1] == 'n' && "anchor-none"@[2] == 'c' && "anchor-none"@[3] == 'h' && "anchor-none"@[4] == 'o' && "anchor-none"@[5] == 'r' && "anchor-none"@[6] == '-' && "anchor-none"@[7] == 'n' && "anchor-none"@[8] == 'o' && "anchor-none"@[9] == 'n' && "anchor-none"@[10] == 'e',
        "excl"@.len() == 4 && "excl"@[0] == 'e' && "excl"@[1] == 'x' && "excl"@[2] == 'c' && "excl"@[3] == 'l',
        "margin"@.len() == 6 && "margin"@[0] == 'm' && "margin"@[1] == 'a' && "margin"@[2] == 'r' && "margin"@[3] == 'g' && "margin"@[4] == 'i' && "margin"@[5] == 'n',
        "kbd"@.len() == 3 && "kbd"@[0] == 'k' && "kbd"@[1] == 'b' && "kbd"@[2] == 'd',
        "size"@.len() == 4 && "size"@[0] == 's' && "size"@[1] == 'i' && "size"@[2] == 'z' && "size"@[3] == 'e',
        "popup-add"@.len() == 9 && "popup-add"@[0] == 'p' && "popup-add"@[1] == 'o' && "popup-add"@[2] == 'p' && "popup-add"@[3] == 'u' && "popup-add"@[4] == 'p' && "popup-add"@[5] == '-' && "popup-add"@[6] == 'a' && "popup-add"@[7] == 'd' && "popup-add"@[8] == 'd',
        "popup-close"@.len() == 11 && "popup-close"@[0] == 'p' && "popup-close"@[1] == 'o' && "popup-close"@[2] == 'p' && "popup-close"@[3] == 'u' && "popup-close"@[4] == 'p' && "popup-close"@[5] == '-' && "popup-close"@[6] == 'c' && "popup-close"@[7] == 'l' && "popup-close"@[8] == 'o' && "popup-close"@[9] == 's' && "popup-close"@[10] == 'e',
        "popup-anchor"@.len() == 12 && "popup-anchor"@[0] == 'p' && "popup-anchor"@[1] == 'o' && "popup-anchor"@[2] == 'p' && "popup-anchor"@[3] == 'u' && "popup-anchor"@[4] == 'p' && "popup-anchor"@[5] == '-' && "popup-anchor"@[6] == 'a' && "popup-anchor"@[7] == 'n' && "popup-anchor"@[8] == 'c' && "popup-anchor"@[9] == 'h' && "popup-anchor"@[10] == 'o' && "popup-anchor"@[11] == 'r',
        "popup-gravity"@.len() == 13 && "popup-gravity"@[0] == 'p' && "popup-gravity"@[1] == 'o' && "popup-gravity"@[2] == 'p' && "popup-gravity"@[3] == 'u' && "popup-gravity"@[4] == 'p' && "popup-gravity"@[5] == '-' && "popup-gravity"@[6] == 'g' && "popup-gravity"@[7] == 'r' && "popup-gravity"@[8] == 'a' && "popup-gravity"@[9] == 'v' && "popup-gravity"@[10] == 'i' && "popup-gravity"@[11] == 't' && "popup-gravity"@[12] == 'y',
        "popup-off"@.len() == 9 && "popup-off"@[0] == 'p' && "popup-off"@[1] == 'o' && "popup-off"@[2] == 'p' && "popup-off"@[3] == 'u' && "popup-off"@[4] == 'p' && "popup-off"@[5] == '-' && "popup-off"@[6] == 'o' && "popup-off"@[7] == 'f' && "popup-off"@[8] == 'f',
        "popup-size"@.len() == 10 && "popup-size"@[0] == 'p' && "popup-size"@[1] == 'o' && "popup-size"@[2] == 'p' && "popup-size"@[3] == 'u' && "popup-size"@[4] == 'p' && "popup-size"@[5] == '-' && "popup-size"@[6] == 's' && "popup-size"@[7] == 'i' && "popup-size"@[8] == 'z' && "popup-size"@[9] == 'e',
        "popup-move"@.len() == 10 && "popup-move"@[0] == 'p' && "popup-move"@[1] == 'o' && "popup-move"@[2] == 'p' && "popup-move"@[3] == 'u' && "popup-move"@[4] == 'p' && "popup-move"@[5] == '-' && "popup-move"@[6] == 'm' && "popup-move"@[7] == 'o' && "popup-move"@[8] == 'v' && "popup-move"@[9] == 'e',
        "input"@.len() == 5 && "input"@[0] == 'i' && "input"@[1] == 'n' && "input"@[2] == 'p' && "input"@[3] == 'u' && "input"@[4] == 't',
        "opaque"@.len() == 6 && "opaque"@[0] == 'o' && "opaque"@[1] == 'p' && "opaque"@[2] == 'a' && "opaque"@[3] == 'q' && "opaque"@[4] == 'u' && "opaque"@[5] == 'e',
        "output-cycle"@.len() == 12 && "output-cycle"@[0] == 'o' && "output-cycle"@[1] == 'u' && "output-cycle"@[2] == 't' && "output-cycle"@[3] == 'p' && "output-cycle"@[4] == 'u' && "output-cycle"@[5] == 't' && "output-cycle"@[6] == '-' && "output-cycle"@[7] == 'c' && "output-cycle"@[8] == 'y' && "output-cycle"@[9] == 'c' && "output-cycle"@[10] == 'l' && "output-cycle"@[11] == 'e',
        "scale-normal"@.len() == 12 && "scale-normal"@[0] == 's' && "scale-normal"@[1] == 'c' && "scale-normal"@[2] == 'a' && "scale-normal"@[3] == 'l' && "scale-normal"@[4] == 'e' && "scale-normal"@[5] == '-' && "scale-normal"@[6] == 'n' && "scale-normal"@[7] == 'o' && "scale-normal"@[8] == 'r' && "scale-normal"@[9] == 'm' && "scale-normal"@[10] == 'a' && "scale-normal"@[11] == 'l',
        "fs-honor"@.len() == 8 && "fs-honor"@[0] == 'f' && "fs-honor"@[1] == 's' && "fs-honor"@[2] == '-' && "fs-honor"@[3] == 'h' && "fs-honor"@[4] == 'o' && "fs-honor"@[5] == 'n' && "fs-honor"@[6] == 'o' && "fs-honor"@[7] == 'r',
        "fs-ignore"@.len() == 9 && "fs-ignore"@[0] == 'f' && "fs-ignore"@[1] == 's' && "fs-ignore"@[2] == '-' && "fs-ignore"@[3] == 'i' && "fs-ignore"@[4] == 'g' && "fs-ignore"@[5] == 'n' && "fs-ignore"@[6] == 'o' && "fs-ignore"@[7] == 'r' && "fs-ignore"@[8] == 'e',
        "dpi-honor"@.len() == 9 && "dpi-honor"@[0] == 'd' && "dpi-honor"@[1] == 'p' && "dpi-honor"@[2] == 'i' && "dpi-honor"@[3] == '-' && "dpi-honor"@[4] == 'h' && "dpi-honor"@[5] == 'o' && "dpi-honor"@[6] == 'n' && "dpi-honor"@[7] == 'o' && "dpi-honor"@[8] == 'r',
        "dpi-ignore"@.len() == 10 && "dpi-ignore"@[0] == 'd' && "dpi-ignore"@[1] == 'p' && "dpi-ignore"@[2] == 'i' && "dpi-ignore"@[3] == '-' && "dpi-ignore"@[4] == 'i' && "dpi-ignore"@[5] == 'g' && "dpi-ignore"@[6] == 'n' && "dpi-ignore"@[7] == 'o' && "dpi-ignore"@[8] == 'r' && "dpi-ignore"@[9] == 'e',
        "dpi-scale"@.len() == 9 && "dpi-scale"@[0] == 'd' && "dpi-scale"@[1] == 'p' && "dpi-scale"@[2] == 'i' && "dpi-scale"@[3] == '-' && "dpi-scale"@[4] == 's' && "dpi-scale"@[5] == 'c' && "dpi-scale"@[6] == 'a' && "dpi-scale"@[7] == 'l' && "dpi-scale"@[8] == 'e',
        "transparent"@.len() == 11 && "transparent"@[0] == 't' && "transparent"@[1] == 'r' && "transparent"@[2] == 'a' && "transparent"@[3] == 'n' && "transparent"@[4] == 's' && "transparent"@[5] == 'p' && "transparent"@[6] == 'a' && "transparent"@[7] == 'r' && "transparent"@[8] == 'e' && "transparent"@[9] == 'n' && "transparent"@[10] == 't',
        "animate"@.len() == 7 && "animate"@[0] == 'a' && "animate"@[1] == 'n' && "animate"@[2] == 'i' && "animate"@[3] == 'm' && "animate"@[4] == 'a' && "animate"@[5] == 't' && "animate"@[6] == 'e',
        "foreign-sel"@.len() == 11 && "foreign-sel"@[0] == 'f' && "foreign-sel"@[1] == 'o' && "foreign-sel"@[2] == 'r' && "foreign-sel"@[3] == 'e' && "foreign-sel"@[4] == 'i' && "foreign-sel"@[5] == 'g' && "foreign-sel"@[6] == 'n' && "foreign-sel"@[7] == '-' && "foreign-sel"@[8] == 's' && "foreign-sel"@[9] == 'e' && "foreign-sel"@[10] == 'l',
        "foreign-activate"@.len() == 16 && "foreign-activate"@[0] == 'f' && "foreign-activate"@[1] == 'o' && "foreign-activate"@[2] == 'r' && "foreign-activate"@[3] == 'e' && "foreign-activate"@[4] == 'i' && "foreign-activate"@[5] == 'g' && "foreign-activate"@[6] == 'n' && "foreign-activate"@[7] == '-' && "foreign-activate"@[8] == 'a' && "foreign-activate"@[9] == 'c' && "foreign-activate"@[10] == 't' && "foreign-activate"@[11] == 'i' && "foreign-activate"@[12] == 'v' && "foreign-activate"@[13] == 'a' && "foreign-activate"@[14] == 't' && "foreign-activate"@[15] == 'e',
        "foreign-close"@.len() == 13 && "foreign-close"@[0] == 'f' && "foreign-close"@[1] == 'o' && "foreign-close"@[2] == 'r' && "foreign-close"@[3] == 'e' && "foreign-close"@[4] == 'i' && "foreign-close"@[5] == 'g' && "foreign-close"@[6] == 'n' && "foreign-close"@[7] == '-' && "foreign-close"@[8] == 'c' && "foreign-close"@[9] == 'l' && "foreign-close"@[10] == 'o' && "foreign-close"@[11] == 's' && "foreign-close"@[12] == 'e',
        "foreign-max"@.len() == 11 && "foreign-max"@[0] == 'f' && "foreign-max"@[1] == 'o' && "foreign-max"@[2] == 'r' && "foreign-max"@[3] == 'e' && "foreign-max"@[4] == 'i' && "foreign-max"@[5] == 'g' && "foreign-max"@[6] == 'n' && "foreign-max"@[7] == '-' && "foreign-max"@[8] == 'm' && "foreign-max"@[9] == 'a' && "foreign-max"@[10] == 'x',
        "foreign-min"@.len() == 11 && "foreign-min"@[0] == 'f' && "foreign-min"@[1] == 'o' && "foreign-min"@[2] == 'r' && "foreign-min"@[3] == 'e' && "foreign-min"@[4] == 'i' && "foreign-min"@[5] == 'g' && "foreign-min"@[6] == 'n' && "foreign-min"@[7] == '-' && "foreign-min"@[8] == 'm' && "foreign-min"@[9] == 'i' && "foreign-min"@[10] == 'n',
        "foreign-full"@.len() == 12 && "foreign-full"@[0] == 'f' && "foreign-full"@[1] == 'o' && "foreign-full"@[2] == 'r' && "foreign-full"@[3] == 'e' && "foreign-full"@[4] == 'i' && "foreign-full"@[5] == 'g' && "foreign-full"@[6] == 'n' && "foreign-full"@[7] == '-' && "foreign-full"@[8] == 'f' && "foreign-full"@[9] == 'u' && "foreign-full"@[10] == 'l' && "foreign-full"@[11] == 'l',
        "recreate"@.len() == 8 && "recreate"@[0] == 'r' && "recreate"@[1] == 'e' && "recreate"@[2] == 'c' && "recreate"@[3] == 'r' && "recreate"@[4] == 'e' && "recreate"@[5] == 'a' && "recreate"@[6] == 't' && "recreate"@[7] == 'e',
        "quit"@.len() == 4 && "quit"@[0] == 'q' && "quit"@[1] == 'u' && "quit"@[2] == 'i' && "quit"@[3] == 't',
{
    reveal_strlit("background");
    reveal_strlit("bottom");
    reveal_strlit("top");
    reveal_strlit("overlay");
    reveal_strlit("none");
    reveal_strlit("exclusive");
    reveal_strlit("ondemand");
    reveal_strlit("full");
    reveal_strlit("circle");
    reveal_strlit("holes");
    reveal_strlit("c");
    reveal_strlit("t");
    reveal_strlit("b");
    reveal_strlit("l");
    reveal_strlit("r");
    reveal_strlit("tl");
    reveal_strlit("tr");
    reveal_strlit("bl");
    reveal_strlit("br");
    reveal_strlit("layer");
    reveal_strlit("anchor-top");
    reveal_strlit("anchor-bottom");
    reveal_strlit("anchor-left");
    reveal_strlit("anchor-right");
    reveal_strlit("anchor-all");
    reveal_strlit("anchor-none");
    reveal_strlit("excl");
    reveal_strlit("margin");
    reveal_strlit("kbd");
    reveal_strlit("size");
    reveal_strlit("popup-add");
    reveal_strlit("popup-close");
    reveal_strlit("popup-anchor");
    reveal_strlit("popup-gravity");
    reveal_strlit("popup-off");
    reveal_strlit("popup-size");
    reveal_strlit("popup-move");
    reveal_strlit("input");
    reveal_strlit("opaque");
    reveal_strlit("output-cycle");
    reveal_strlit("scale-normal");
    reveal_strlit("fs-honor");
    reveal_strlit("fs-ignore");
    reveal_strlit("dpi-honor");
    reveal_strlit("dpi-ignore");
    reveal_strlit("dpi-scale");
    reveal_strlit("transparent");
    reveal_strlit("animate");
    reveal_strlit("foreign-sel");
    reveal_strlit("foreign-activate");
    reveal_strlit("foreign-close");
    reveal_strlit("foreign-max");
    reveal_strlit("foreign-min");
    reveal_strlit("foreign-full");
    reveal_strlit("recreate");
    reveal_strlit("quit");
}


/// Every word of a command's line is non-empty and free of whitespace.
pub proof fn lemma_words_plain(c: Command)
    ensures
        plain_words(words(c)),
{
    lemma_wire_words();
    let ws = words(c);
    match c {
        Command::Excl(n) => lemma_int_text_plain(n as int),
        Command::Margin(t, r, b, l) => {
            lemma_int_text_plain(t as int);
            lemma_int_text_plain(r as int);
            lemma_int_text_plain(b as int);
            lemma_int_text_plain(l as int);
        },
        Command::Size(x, y) | Command::PopupSize(x, y) => {
            lemma_int_text_plain(x as int);
            lemma_int_text_plain(y as int);
        },
        Command::PopupOff(x, y) | Command::PopupMove(x, y) => {
            lemma_int_text_plain(x as int);
            lemma_int_text_plain(y as int);
        },
        Command::Scale(ScaleReq::DpiScale(n)) => lemma_int_text_plain(n as int),
        Command::ForeignSel(d) => lemma_int_text_plain(d as int),
        Command::Transparent(on) | Command::Animate(on) => lemma_on_word(on),
        Command::Foreign(ForeignCtl::Maximized(on)) => lemma_on_word(on),
        Command::Foreign(ForeignCtl::Minimized(on)) => lemma_on_word(on),
        Command::Foreign(ForeignCtl::Fullscreen(on)) => lemma_on_word(on),
        _ => {},
    }
    assert forall|i: int| 0 <= i < ws.len() implies #[trigger] ws[i].len() > 0 && no_ws(ws[i]) by {
        let w = ws[i];
        assert forall|k: int| 0 <= k < w.len() implies !is_ws(#[trigger] w[k]) by {}
    }
}

proof fn lemma_parse_words_0(c: Command)
    requires
        c is SetLayer || c is AnchorTop || c is AnchorBottom || c is AnchorLeft || c is AnchorRight,
    ensures
        parse_words(words(c)) == Some(c),
{
    lemma_wire_words();
    match c {

        _ => {},
    }
}

proof fn lemma_parse_words_1(c: Command)
    requires
        c is AnchorAll || c is AnchorNone || c is Excl || c is Margin || c is Keyboard,
    ensures
        parse_words(words(c)) == Some(c),
{
    lemma_wire_words();
    match c {
        Command::Excl(n) => lemma_int_round_trip(n as int, true, i32::MIN as int, i32::MAX as int),
        Command::Margin(t, r, b, l) => {
            lemma_int_round_trip(t as int, true, i32::MIN as int, i32::MAX as int);
            lemma_int_round_trip(r as int, true, i32::MIN as int, i32::MAX as int);
            lemma_int_round_trip(b as int, true, i32::MIN as int, i32::MAX as int);
            lemma_int_round_trip(l as int, true, i32::MIN as int, i32::MAX as int);
        },
        _ => {},
    }
}

proof fn lemma_parse_words_2(c: Command)
    requires
        c is Size || c is PopupAdd || c is PopupClose || c is PopupAnchor || c is PopupGravity,
    ensures
        parse_words(words(c)) == Some(c),
{
    lemma_wire_words();
    match c {
        Command::Size(x, y) => {
            lemma_int_round_trip(x as int, false, 0, u32::MAX as int);
            lemma_int_round_trip(y as int, false, 0, u32::MAX as int);
        },
        _ => {},
    }
}

proof fn lemma_parse_words_3(c: Command)
    requires
        c is PopupOff || c is PopupSize || c is PopupMove || c is Input || c is Opaque,
    ensures
        parse_words(words(c)) == Some(c),
{
    lemma_wire_words();
    match c {
        Command::PopupOff(x, y) => {
            lemma_int_round_trip(x as int, true, i32::MIN as int, i32::MAX as int);
            lemma_int_round_trip(y as int, true, i32::MIN as int, i32::MAX as int);
        },
        Command::PopupSize(x, y) => {
            lemma_int_round_trip(x as int, false, 0, u32::MAX as int);
            lemma_int_round_trip(y as int, false, 0, u32::MAX as int);
        },
        Command::PopupMove(x, y) => {
            lemma_int_round_trip(x as int, true, i32::MIN as int, i32::MAX as int);
            lemma_int_round_trip(y as int, true, i32::MIN as int, i32::MAX as int);
        },
        _ => {},
    }
}

proof fn lemma_parse_words_4(c: Command)
    requires
        c is OutputCycle || c is Scale || c is Transparent || c is Animate || c is ForeignSel,
    ensures
        parse_words(words(c)) == Some(c),
{
    lemma_wire_words();
    match c {
        Command::Scale(ScaleReq::DpiScale(n)) => lemma_int_round_trip(
            n as int,
            true,
            i32::MIN as int,
            i32::MAX as int,
        ),
        Command::Transparent(on) => lemma_on_word(on),
        Command::Animate(on) => lemma_on_word(on),
        Command::ForeignSel(d) => lemma_int_round_trip(d as int, true, i32::MIN as int, i32::MAX as int),
        _ => {},
    }
}

proof fn lemma_parse_words_5(c: Command)
    requires
        c is Foreign || c is Recreate || c is Quit,
    ensures
        parse_words(words(c)) == Some(c),
{
    lemma_wire_words();
    match c {
        Command::Foreign(ForeignCtl::Maximized(on)) => lemma_on_word(on),
        Command::Foreign(ForeignCtl::Minimized(on)) => lemma_on_word(on),
        Command::Foreign(ForeignCtl::Fullscreen(on)) => lemma_on_word(on),
        _ => {},
    }
}

/// Reading a command's words back gives the command.
pub proof fn lemma_parse_words(c: Command)
    ensures
        parse_words(words(c)) == Some(c),
{
    if c is SetLayer || c is AnchorTop || c is AnchorBottom || c is AnchorLeft || c is AnchorRight {
        lemma_parse_words_0(c);
    } else if c is AnchorAll || c is AnchorNone || c is Excl || c is Margin || c is Keyboard {
        lemma_parse_words_1(c);
    } else if c is Size || c is PopupAdd || c is PopupClose || c is PopupAnchor || c is PopupGravity {
        lemma_parse_words_2(c);
    } else if c is PopupOff || c is PopupSize || c is PopupMove || c is Input || c is Opaque {
        lemma_parse_words_3(c);
    } else if c is OutputCycle || c is Scale || c is Transparent || c is Animate || c is ForeignSel {
        lemma_parse_words_4(c);
    } else {
        lemma_parse_words_5(c);
    }
}

/// Round trip: parsing the line a command encodes to gives the command back, for every
/// command.
pub proof fn lemma_round_trip(c: Command)
    ensures
        parse_spec(encode_spec(c)) == Some(c),
{
    lemma_words_plain(c);
    lemma_split_join(words(c));
    lemma_parse_words(c);
}

} // verus!
