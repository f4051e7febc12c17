//! The command vocabulary the window-layout controller sends to its subject (one command
//! per line).
//!
//! Wire form is a compact, space-separated text line: a verb token followed by its
//! arguments, e.g. `popup-off 400 0`, `sp-fill 255 0 0 255`, `deco-mode server`. Both
//! processes share this module, so [`Command::encode`] and [`Command::parse`] stay in
//! sync; the round trip is [`lemma_round_trip`].
//!
//! The viewport source rectangle (`vp-src x y w h`) carries four floating-point numbers
//! and is handled outside this module; here `vp-src` is not a known verb.

use vstd::prelude::*;
use crate::text::{
    all_ws, chars_eq_str, int_arg, int_at, int_text, is_ws, join_sp, lemma_int_round_trip,
    lemma_split_ws_lead, lemma_split_ws_trail,
    lemma_int_text_plain, lemma_on_word, lemma_split_join, line_int, line_int2, line_int4,
    line_of, line_word, no_ws, on_arg, on_at, on_word, plain_words, split_whitespace, split_ws,
    views, word_at, word_is,
};

verus! {

/// Server/client/no decoration mode requested via `zxdg_toplevel_decoration_v1`.
#[derive(Clone, Copy, Debug, PartialEq, Eq, Structural)]
pub enum DecoMode {
    Server,
    Client,
    /// No decorations at all (wire word `none`).
    Undecorated,
}

/// xdg_positioner anchor point on the parent rectangle.
#[derive(Clone, Copy, Debug, PartialEq, Eq, Structural)]
pub enum Anchor {
    Center,
    Top,
    Bottom,
    Left,
    Right,
    TopLeft,
    TopRight,
    BottomLeft,
    BottomRight,
}

/// xdg_positioner gravity (direction the popup expands from the anchor).
pub type Gravity = Anchor;

/// One controller -> subject instruction. See the module docs for the wire form.
#[derive(Clone, Copy, Debug, PartialEq, Eq, Structural)]
pub enum Command {
    DecoMode(DecoMode),
    DecoIgnore,
    DecoBadsize,
    BufAgreed,
    BufDelta(i32),
    BufZero,
    BufNoack,
    BufPreack,
    GeoMismatch,
    PopupAdd,
    PopupAnchor(Anchor),
    PopupGravity(Anchor),
    PopupOff(i32, i32),
    PopupSize(u32, u32),
    PopupMove(i32, i32),
    PopupNest,
    PopupClose,
    SubAdd,
    SubMove(i32, i32),
    SubSync,
    SubDesync,
    SubNest,
    SubRemove,
    VpDest(i32, i32),
    VpDestDelta(i32),
    VpAnimate(bool),
    VpUnset,
    VpBad,
    FsHonor,
    FsIgnore,
    FsScale(u32),
    FsNoViewport,
    FsMismatch,
    DpiHonor,
    DpiIgnore,
    DpiScale(i32),
    DpiNondiv,
    DpiMismatch,
    DpiZero,
    SpFill(u8, u8, u8, u8),
    SpSub(u8, u8, u8, u8),
    SpNoViewport,
    Tearing(bool),
    CommitRate(u32),
    ShowCounter(bool),
    MapWindow,
    Unmap,
    MapCycle(bool),
    Size(u32, u32),
    Quit,
}

pub open spec fn deco_word(m: DecoMode) -> Seq<char> {
    match m {
        DecoMode::Server => "server"@,
        DecoMode::Client => "client"@,
        DecoMode::Undecorated => "none"@,
    }
}

pub open spec fn deco_of(w: Seq<char>) -> Option<DecoMode> {
    if w == "server"@ {
        Some(DecoMode::Server)
    } else if w == "client"@ {
        Some(DecoMode::Client)
    } else if w == "none"@ {
        Some(DecoMode::Undecorated)
    } else {
        None
    }
}

pub open spec fn anchor_word(a: Anchor) -> Seq<char> {
    match a {
        Anchor::Center => "c"@,
        Anchor::Top => "t"@,
        Anchor::Bottom => "b"@,
        Anchor::Left => "l"@,
        Anchor::Right => "r"@,
        Anchor::TopLeft => "tl"@,
        Anchor::TopRight => "tr"@,
        Anchor::BottomLeft => "bl"@,
        Anchor::BottomRight => "br"@,
    }
}

pub open spec fn anchor_of(w: Seq<char>) -> Option<Anchor> {
    if w == "c"@ {
        Some(Anchor::Center)
    } else if w == "t"@ {
        Some(Anchor::Top)
    } else if w == "b"@ {
        Some(Anchor::Bottom)
    } else if w == "l"@ {
        Some(Anchor::Left)
    } else if w == "r"@ {
        Some(Anchor::Right)
    } else if w == "tl"@ {
        Some(Anchor::TopLeft)
    } else if w == "tr"@ {
        Some(Anchor::TopRight)
    } else if w == "bl"@ {
        Some(Anchor::BottomLeft)
    } else if w == "br"@ {
        Some(Anchor::BottomRight)
    } else {
        None
    }
}

impl Anchor {
    /// The wire token.
    pub(crate) fn token(self) -> (r: &'static str)
        ensures
            r@ == anchor_word(self),
    {
        match self {
            Anchor::Center => "c",
            Anchor::Top => "t",
            Anchor::Bottom => "b",
            Anchor::Left => "l",
            Anchor::Right => "r",
            Anchor::TopLeft => "tl",
            Anchor::TopRight => "tr",
            Anchor::BottomLeft => "bl",
            Anchor::BottomRight => "br",
        }
    }

    /// Read a wire token.
    pub(crate) fn parse(w: &Vec<char>) -> (r: Option<Anchor>)
        ensures
            r == anchor_of(w@),
    {
        if chars_eq_str(w, "c") {
            Some(Anchor::Center)
        } else if chars_eq_str(w, "t") {
            Some(Anchor::Top)
        } else if chars_eq_str(w, "b") {
            Some(Anchor::Bottom)
        } else if chars_eq_str(w, "l") {
            Some(Anchor::Left)
        } else if chars_eq_str(w, "r") {
            Some(Anchor::Right)
        } else if chars_eq_str(w, "tl") {
            Some(Anchor::TopLeft)
        } else if chars_eq_str(w, "tr") {
            Some(Anchor::TopRight)
        } else if chars_eq_str(w, "bl") {
            Some(Anchor::BottomLeft)
        } else if chars_eq_str(w, "br") {
            Some(Anchor::BottomRight)
        } else {
            None
        }
    }
}

fn deco_tok(m: DecoMode) -> (r: &'static str)
    ensures
        r@ == deco_word(m),
{
    match m {
        DecoMode::Server => "server",
        DecoMode::Client => "client",
        DecoMode::Undecorated => "none",
    }
}

fn on8(on: bool) -> (r: &'static str)
    ensures
        r@ == on_word(on),
{
    if on {
        "on"
    } else {
        "off"
    }
}

/// The words of a command's wire line: verb first, then its arguments.
pub open spec fn words(c: Command) -> Seq<Seq<char>> {
    match c {
        Command::DecoMode(a) => seq!["deco-mode"@, deco_word(a)],
        Command::DecoIgnore => seq!["deco-ignore"@],
        Command::DecoBadsize => seq!["deco-badsize"@],
        Command::BufAgreed => seq!["buf-agreed"@],
        Command::BufDelta(a) => seq!["buf-delta"@, int_text(a as int)],
        Command::BufZero => seq!["buf-zero"@],
        Command::BufNoack => seq!["buf-noack"@],
        Command::BufPreack => seq!["buf-preack"@],
        Command::GeoMismatch => seq!["geo-mismatch"@],
        Command::PopupAdd => seq!["popup-add"@],
        Command::PopupAnchor(a) => seq!["popup-anchor"@, anchor_word(a)],
        Command::PopupGravity(a) => seq!["popup-gravity"@, anchor_word(a)],
        Command::PopupOff(a, b) => seq!["popup-off"@, int_text(a as int), int_text(b as int)],
        Command::PopupSize(a, b) => seq!["popup-size"@, int_text(a as int), int_text(b as int)],
        Command::PopupMove(a, b) => seq!["popup-move"@, int_text(a as int), int_text(b as int)],
        Command::PopupNest => seq!["popup-nest"@],
        Command::PopupClose => seq!["popup-close"@],
        Command::SubAdd => seq!["sub-add"@],
        Command::SubMove(a, b) => seq!["sub-move"@, int_text(a as int), int_text(b as int)],
        Command::SubSync => seq!["sub-sync"@],
        Command::SubDesync => seq!["sub-desync"@],
        Command::SubNest => seq!["sub-nest"@],
        Command::SubRemove => seq!["sub-remove"@],
        Command::VpDest(a, b) => seq!["vp-dest"@, int_text(a as int), int_text(b as int)],
        Command::VpDestDelta(a) => seq!["vp-dest-delta"@, int_text(a as int)],
        Command::VpAnimate(a) => seq!["vp-animate"@, on_word(a)],
        Command::VpUnset => seq!["vp-unset"@],
        Command::VpBad => seq!["vp-bad"@],
        Command::FsHonor => seq!["fs-honor"@],
        Command::FsIgnore => seq!["fs-ignore"@],
        Command::FsScale(a) => seq!["fs-scale"@, int_text(a as int)],
        Command::FsNoViewport => seq!["fs-noviewport"@],
        Command::FsMismatch => seq!["fs-mismatch"@],
        Command::DpiHonor => seq!["dpi-honor"@],
        Command::DpiIgnore => seq!["dpi-ignore"@],
        Command::DpiScale(a) => seq!["dpi-scale"@, int_text(a as int)],
        Command::DpiNondiv => seq!["dpi-nondiv"@],
        Command::DpiMismatch => seq!["dpi-mismatch"@],
        Command::DpiZero => seq!["dpi-zero"@],
        Command::SpFill(a, b, c, d) => seq!["sp-fill"@, int_text(a as int), int_text(b as int), int_text(c as int), int_text(d as int)],
        Command::SpSub(a, b, c, d) => seq!["sp-sub"@, int_text(a as int), int_text(b as int), int_text(c as int), int_text(d as int)],
        Command::SpNoViewport => seq!["sp-noviewport"@],
        Command::Tearing(a) => seq!["tearing"@, on_word(a)],
        Command::CommitRate(a) => seq!["commitrate"@, int_text(a as int)],
        Command::ShowCounter(a) => seq!["showcounter"@, on_word(a)],
        Command::MapWindow => seq!["map"@],
        Command::Unmap => seq!["unmap"@],
        Command::MapCycle(a) => seq!["mapcycle"@, on_word(a)],
        Command::Size(a, b) => seq!["size"@, int_text(a as int), int_text(b as int)],
        Command::Quit => seq!["quit"@],
    }
}

/// The wire line of a command.
pub open spec fn encode_spec(c: Command) -> Seq<char> {
    join_sp(words(c))
}

pub open spec fn i32_at(ws: Seq<Seq<char>>, k: int) -> Option<int> {
    int_at(ws, k, true, i32::MIN as int, i32::MAX as int)
}

pub open spec fn u32_at(ws: Seq<Seq<char>>, k: int) -> Option<int> {
    int_at(ws, k, false, 0, u32::MAX as int)
}

pub open spec fn u8_at(ws: Seq<Seq<char>>, k: int) -> Option<int> {
    int_at(ws, k, false, 0, u8::MAX as int)
}

pub open spec fn word_of_deco(ws: Seq<Seq<char>>, k: int) -> Option<DecoMode> {
    match word_at(ws, k) {
        Some(w) => deco_of(w),
        None => None,
    }
}

pub open spec fn word_of_anchor(ws: Seq<Seq<char>>, k: int) -> Option<Anchor> {
    match word_at(ws, k) {
        Some(w) => anchor_of(w),
        None => None,
    }
}

/// Commands whose verb is followed by nothing that is read.
pub open spec fn bare_command(v: Seq<char>) -> Option<Command> {
    if v == "deco-ignore"@ {
        Some(Command::DecoIgnore)
    } else if v == "deco-badsize"@ {
        Some(Command::DecoBadsize)
    } else if v == "buf-agreed"@ {
        Some(Command::BufAgreed)
    } else if v == "buf-zero"@ {
        Some(Command::BufZero)
    } else if v == "buf-noack"@ {
        Some(Command::BufNoack)
    } else if v == "buf-preack"@ {
        Some(Command::BufPreack)
    } else if v == "geo-mismatch"@ {
        Some(Command::GeoMismatch)
    } else if v == "popup-add"@ {
        Some(Command::PopupAdd)
    } else if v == "popup-nest"@ {
        Some(Command::PopupNest)
    } else if v == "popup-close"@ {
        Some(Command::PopupClose)
    } else if v == "sub-add"@ {
        Some(Command::SubAdd)
    } else if v == "sub-sync"@ {
        Some(Command::SubSync)
    } else if v == "sub-desync"@ {
        Some(Command::SubDesync)
    } else if v == "sub-nest"@ {
        Some(Command::SubNest)
    } else if v == "sub-remove"@ {
        Some(Command::SubRemove)
    } else if v == "vp-unset"@ {
        Some(Command::VpUnset)
    } else if v == "vp-bad"@ {
        Some(Command::VpBad)
    } else if v == "fs-honor"@ {
        Some(Command::FsHonor)
    } else if v == "fs-ignore"@ {
        Some(Command::FsIgnore)
    } else if v == "fs-noviewport"@ {
        Some(Command::FsNoViewport)
    } else if v == "fs-mismatch"@ {
        Some(Command::FsMismatch)
    } else if v == "dpi-honor"@ {
        Some(Command::DpiHonor)
    } else if v == "dpi-ignore"@ {
        Some(Command::DpiIgnore)
    } else if v == "dpi-nondiv"@ {
        Some(Command::DpiNondiv)
    } else if v == "dpi-mismatch"@ {
        Some(Command::DpiMismatch)
    } else if v == "dpi-zero"@ {
        Some(Command::DpiZero)
    } else if v == "sp-noviewport"@ {
        Some(Command::SpNoViewport)
    } else if v == "map"@ {
        Some(Command::MapWindow)
    } else if v == "unmap"@ {
        Some(Command::Unmap)
    } else if v == "quit"@ {
        Some(Command::Quit)
    } else {
        None
    }
}

/// What the verbs that take arguments read from the words after them; `None` for a
/// verb that is not one of them or for missing or malformed arguments.
pub open spec fn arg_command(ws: Seq<Seq<char>>) -> Option<Command> {
    let v = ws[0];
    if v == "deco-mode"@ {
        match word_of_deco(ws, 1) {
            Some(a) => Some(Command::DecoMode(a)),
            None => None,
        }
    } else if v == "buf-delta"@ {
        match i32_at(ws, 1) {
            Some(a) => Some(Command::BufDelta(a as i32)),
            None => None,
        }
    } else if v == "popup-anchor"@ {
        match word_of_anchor(ws, 1) {
            Some(a) => Some(Command::PopupAnchor(a)),
            None => None,
        }
    } else if v == "popup-gravity"@ {
        match word_of_anchor(ws, 1) {
            Some(a) => Some(Command::PopupGravity(a)),
            None => None,
        }
    } else if v == "popup-off"@ {
        match (i32_at(ws, 1), i32_at(ws, 2)) {
            (Some(a), Some(b)) => Some(Command::PopupOff(a as i32, b as i32)),
            _ => None,
        }
    } else if v == "popup-size"@ {
        match (u32_at(ws, 1), u32_at(ws, 2)) {
            (Some(a), Some(b)) => Some(Command::PopupSize(a as u32, b as u32)),
            _ => None,
        }
    } else if v == "popup-move"@ {
        match (i32_at(ws, 1), i32_at(ws, 2)) {
            (Some(a), Some(b)) => Some(Command::PopupMove(a as i32, b as i32)),
            _ => None,
        }
    } else if v == "sub-move"@ {
        match (i32_at(ws, 1), i32_at(ws, 2)) {
            (Some(a), Some(b)) => Some(Command::SubMove(a as i32, b as i32)),
            _ => None,
        }
    } else if v == "vp-dest"@ {
        match (i32_at(ws, 1), i32_at(ws, 2)) {
            (Some(a), Some(b)) => Some(Command::VpDest(a as i32, b as i32)),
            _ => None,
        }
    } else if v == "vp-dest-delta"@ {
        match i32_at(ws, 1) {
            Some(a) => Some(Command::VpDestDelta(a as i32)),
            None => None,
        }
    } else if v == "vp-animate"@ {
        match on_at(ws, 1) {
            Some(a) => Some(Command::VpAnimate(a)),
            None => None,
        }
    } else if v == "fs-scale"@ {
        match u32_at(ws, 1) {
            Some(a) => Some(Command::FsScale(a as u32)),
            None => None,
        }
    } else if v == "dpi-scale"@ {
        match i32_at(ws, 1) {
            Some(a) => Some(Command::DpiScale(a as i32)),
            None => None,
        }
    } else if v == "sp-fill"@ {
        match (u8_at(ws, 1), u8_at(ws, 2), u8_at(ws, 3), u8_at(ws, 4)) {
            (Some(a), Some(b), Some(c), Some(d)) => Some(Command::SpFill(a as u8, b as u8, c as u8, d as u8)),
            _ => None,
        }
    } else if v == "sp-sub"@ {
        match (u8_at(ws, 1), u8_at(ws, 2), u8_at(ws, 3), u8_at(ws, 4)) {
            (Some(a), Some(b), Some(c), Some(d)) => Some(Command::SpSub(a as u8, b as u8, c as u8, d as u8)),
            _ => None,
        }
    } else if v == "tearing"@ {
        match on_at(ws, 1) {
            Some(a) => Some(Command::Tearing(a)),
            None => None,
        }
    } else if v == "commitrate"@ {
        match u32_at(ws, 1) {
            Some(a) => Some(Command::CommitRate(a as u32)),
            None => None,
        }
    } else if v == "showcounter"@ {
        match on_at(ws, 1) {
            Some(a) => Some(Command::ShowCounter(a)),
            None => None,
        }
    } else if v == "mapcycle"@ {
        match on_at(ws, 1) {
            Some(a) => Some(Command::MapCycle(a)),
            None => None,
        }
    } else if v == "size"@ {
        match (u32_at(ws, 1), u32_at(ws, 2)) {
            (Some(a), Some(b)) => Some(Command::Size(a as u32, b as u32)),
            _ => None,
        }
    } else {
        None
    }
}

/// The command a list of words reads as: the verb picks the command and the words after
/// it are its arguments (anything past those is ignored).
pub open spec fn parse_words(ws: Seq<Seq<char>>) -> Option<Command> {
    if ws.len() == 0 {
        None
    } else if bare_command(ws[0]) is Some {
        bare_command(ws[0])
    } else {
        arg_command(ws)
    }
}

/// What [`Command::parse`] returns for a line.
pub open spec fn parse_spec(line: Seq<char>) -> Option<Command> {
    parse_words(split_ws(line))
}

fn bare_parse(v: &Vec<char>) -> (r: Option<Command>)
    ensures
        r == bare_command(v@),
{
    if chars_eq_str(v, "deco-ignore") {
        Some(Command::DecoIgnore)
    } else if chars_eq_str(v, "deco-badsize") {
        Some(Command::DecoBadsize)
    } else if chars_eq_str(v, "buf-agreed") {
        Some(Command::BufAgreed)
    } else if chars_eq_str(v, "buf-zero") {
        Some(Command::BufZero)
    } else if chars_eq_str(v, "buf-noack") {
        Some(Command::BufNoack)
    } else if chars_eq_str(v, "buf-preack") {
        Some(Command::BufPreack)
    } else if chars_eq_str(v, "geo-mismatch") {
        Some(Command::GeoMismatch)
    } else if chars_eq_str(v, "popup-add") {
        Some(Command::PopupAdd)
    } else if chars_eq_str(v, "popup-nest") {
        Some(Command::PopupNest)
    } else if chars_eq_str(v, "popup-close") {
        Some(Command::PopupClose)
    } else if chars_eq_str(v, "sub-add") {
        Some(Command::SubAdd)
    } else if chars_eq_str(v, "sub-sync") {
        Some(Command::SubSync)
    } else if chars_eq_str(v, "sub-desync") {
        Some(Command::SubDesync)
    } else if chars_eq_str(v, "sub-nest") {
        Some(Command::SubNest)
    } else if chars_eq_str(v, "sub-remove") {
        Some(Command::SubRemove)
    } else if chars_eq_str(v, "vp-unset") {
        Some(Command::VpUnset)
    } else if chars_eq_str(v, "vp-bad") {
        Some(Command::VpBad)
    } else if chars_eq_str(v, "fs-honor") {
        Some(Command::FsHonor)
    } else if chars_eq_str(v, "fs-ignore") {
        Some(Command::FsIgnore)
    } else if chars_eq_str(v, "fs-noviewport") {
        Some(Command::FsNoViewport)
    } else if chars_eq_str(v, "fs-mismatch") {
        Some(Command::FsMismatch)
    } else if chars_eq_str(v, "dpi-honor") {
        Some(Command::DpiHonor)
    } else if chars_eq_str(v, "dpi-ignore") {
        Some(Command::DpiIgnore)
    } else if chars_eq_str(v, "dpi-nondiv") {
        Some(Command::DpiNondiv)
    } else if chars_eq_str(v, "dpi-mismatch") {
        Some(Command::DpiMismatch)
    } else if chars_eq_str(v, "dpi-zero") {
        Some(Command::DpiZero)
    } else if chars_eq_str(v, "sp-noviewport") {
        Some(Command::SpNoViewport)
    } else if chars_eq_str(v, "map") {
        Some(Command::MapWindow)
    } else if chars_eq_str(v, "unmap") {
        Some(Command::Unmap)
    } else if chars_eq_str(v, "quit") {
        Some(Command::Quit)
    } else {
        None
    }
}

fn i32_arg(toks: &Vec<Vec<char>>, k: usize) -> (r: Option<i32>)
    ensures
        match r {
            Some(v) => i32_at(views(toks@), k as int) == Some(v as int),
            None => i32_at(views(toks@), k as int) is None,
        },
{
    match int_arg(toks, k, true, i32::MIN as i64, i32::MAX as i64) {
        Some(v) => Some(v as i32),
        None => None,
    }
}

fn u32_arg(toks: &Vec<Vec<char>>, k: usize) -> (r: Option<u32>)
    ensures
        match r {
            Some(v) => u32_at(views(toks@), k as int) == Some(v as int),
            None => u32_at(views(toks@), k as int) is None,
        },
{
    match int_arg(toks, k, false, 0, u32::MAX as i64) {
        Some(v) => Some(v as u32),
        None => None,
    }
}

fn u8_arg(toks: &Vec<Vec<char>>, k: usize) -> (r: Option<u8>)
    ensures
        match r {
            Some(v) => u8_at(views(toks@), k as int) == Some(v as int),
            None => u8_at(views(toks@), k as int) is None,
        },
{
    match int_arg(toks, k, false, 0, u8::MAX as i64) {
        Some(v) => Some(v as u8),
        None => None,
    }
}

fn deco_arg(toks: &Vec<Vec<char>>, k: usize) -> (r: Option<DecoMode>)
    ensures
        r == word_of_deco(views(toks@), k as int),
{
    if word_is(toks, k, "server") {
        Some(DecoMode::Server)
    } else if word_is(toks, k, "client") {
        Some(DecoMode::Client)
    } else if word_is(toks, k, "none") {
        Some(DecoMode::Undecorated)
    } else {
        None
    }
}

fn anchor_arg(toks: &Vec<Vec<char>>, k: usize) -> (r: Option<Anchor>)
    ensures
        r == word_of_anchor(views(toks@), k as int),
{
    if k < toks.len() {
        assert(views(toks@)[k as int] == toks@[k as int]@);
        Anchor::parse(&toks[k])
    } else {
        None
    }
}

fn arg_parse(toks: &Vec<Vec<char>>) -> (r: Option<Command>)
    requires
        toks.len() > 0,
    ensures
        r == arg_command(views(toks@)),
{
    let ghost ws = views(toks@);
    assert(ws[0] == toks@[0]@);
    let v = &toks[0];
    if chars_eq_str(v, "deco-mode") {
        match deco_arg(toks, 1) {
            Some(a) => Some(Command::DecoMode(a)),
            None => None,
        }
    } else if chars_eq_str(v, "buf-delta") {
        match i32_arg(toks, 1) {
            Some(a) => Some(Command::BufDelta(a)),
            None => None,
        }
    } else if chars_eq_str(v, "popup-anchor") {
        match anchor_arg(toks, 1) {
            Some(a) => Some(Command::PopupAnchor(a)),
            None => None,
        }
    } else if chars_eq_str(v, "popup-gravity") {
        match anchor_arg(toks, 1) {
            Some(a) => Some(Command::PopupGravity(a)),
            None => None,
        }
    } else if chars_eq_str(v, "popup-off") {
        match (i32_arg(toks, 1), i32_arg(toks, 2)) {
            (Some(a), Some(b)) => Some(Command::PopupOff(a, b)),
            _ => None,
        }
    } else if chars_eq_str(v, "popup-size") {
        match (u32_arg(toks, 1), u32_arg(toks, 2)) {
            (Some(a), Some(b)) => Some(Command::PopupSize(a, b)),
            _ => None,
        }
    } else if chars_eq_str(v, "popup-move") {
        match (i32_arg(toks, 1), i32_arg(toks, 2)) {
            (Some(a), Some(b)) => Some(Command::PopupMove(a, b)),
            _ => None,
        }
    } else if chars_eq_str(v, "sub-move") {
        match (i32_arg(toks, 1), i32_arg(toks, 2)) {
            (Some(a), Some(b)) => Some(Command::SubMove(a, b)),
            _ => None,
        }
    } else if chars_eq_str(v, "vp-dest") {
        match (i32_arg(toks, 1), i32_arg(toks, 2)) {
            (Some(a), Some(b)) => Some(Command::VpDest(a, b)),
            _ => None,
        }
    } else if chars_eq_str(v, "vp-dest-delta") {
        match i32_arg(toks, 1) {
            Some(a) => Some(Command::VpDestDelta(a)),
            None => None,
        }
    } else if chars_eq_str(v, "vp-animate") {
        match on_arg(toks, 1) {
            Some(a) => Some(Command::VpAnimate(a)),
            None => None,
        }
    } else if chars_eq_str(v, "fs-scale") {
        match u32_arg(toks, 1) {
            Some(a) => Some(Command::FsScale(a)),
            None => None,
        }
    } else if chars_eq_str(v, "dpi-scale") {
        match i32_arg(toks, 1) {
            Some(a) => Some(Command::DpiScale(a)),
            None => None,
        }
    } else if chars_eq_str(v, "sp-fill") {
        match (u8_arg(toks, 1), u8_arg(toks, 2), u8_arg(toks, 3), u8_arg(toks, 4)) {
            (Some(a), Some(b), Some(c), Some(d)) => Some(Command::SpFill(a, b, c, d)),
            _ => None,
        }
    } else if chars_eq_str(v, "sp-sub") {
        match (u8_arg(toks, 1), u8_arg(toks, 2), u8_arg(toks, 3), u8_arg(toks, 4)) {
            (Some(a), Some(b), Some(c), Some(d)) => Some(Command::SpSub(a, b, c, d)),
            _ => None,
        }
    } else if chars_eq_str(v, "tearing") {
        match on_arg(toks, 1) {
            Some(a) => Some(Command::Tearing(a)),
            None => None,
        }
    } else if chars_eq_str(v, "commitrate") {
        match u32_arg(toks, 1) {
            Some(a) => Some(Command::CommitRate(a)),
            None => None,
        }
    } else if chars_eq_str(v, "showcounter") {
        match on_arg(toks, 1) {
            Some(a) => Some(Command::ShowCounter(a)),
            None => None,
        }
    } else if chars_eq_str(v, "mapcycle") {
        match on_arg(toks, 1) {
            Some(a) => Some(Command::MapCycle(a)),
            None => None,
        }
    } else if chars_eq_str(v, "size") {
        match (u32_arg(toks, 1), u32_arg(toks, 2)) {
            (Some(a), Some(b)) => Some(Command::Size(a, b)),
            _ => None,
        }
    } else {
        None
    }
}

impl Command {
    /// Render to a single wire line (no trailing newline).
    pub fn encode(&self) -> (r: String)
        ensures
            r@ == encode_spec(*self),
    {
        match *self {
            Command::DecoMode(a) => line_word("deco-mode", deco_tok(a)),
            Command::DecoIgnore => line_of("deco-ignore"),
            Command::DecoBadsize => line_of("deco-badsize"),
            Command::BufAgreed => line_of("buf-agreed"),
            Command::BufDelta(a) => line_int("buf-delta", a as i64),
            Command::BufZero => line_of("buf-zero"),
            Command::BufNoack => line_of("buf-noack"),
            Command::BufPreack => line_of("buf-preack"),
            Command::GeoMismatch => line_of("geo-mismatch"),
            Command::PopupAdd => line_of("popup-add"),
            Command::PopupAnchor(a) => line_word("popup-anchor", a.token()),
            Command::PopupGravity(a) => line_word("popup-gravity", a.token()),
            Command::PopupOff(a, b) => line_int2("popup-off", a as i64, b as i64),
            Command::PopupSize(a, b) => line_int2("popup-size", a as i64, b as i64),
            Command::PopupMove(a, b) => line_int2("popup-move", a as i64, b as i64),
            Command::PopupNest => line_of("popup-nest"),
            Command::PopupClose => line_of("popup-close"),
            Command::SubAdd => line_of("sub-add"),
            Command::SubMove(a, b) => line_int2("sub-move", a as i64, b as i64),
            Command::SubSync => line_of("sub-sync"),
            Command::SubDesync => line_of("sub-desync"),
            Command::SubNest => line_of("sub-nest"),
            Command::SubRemove => line_of("sub-remove"),
            Command::VpDest(a, b) => line_int2("vp-dest", a as i64, b as i64),
            Command::VpDestDelta(a) => line_int("vp-dest-delta", a as i64),
            Command::VpAnimate(a) => line_word("vp-animate", on8(a)),
            Command::VpUnset => line_of("vp-unset"),
            Command::VpBad => line_of("vp-bad"),
            Command::FsHonor => line_of("fs-honor"),
            Command::FsIgnore => line_of("fs-ignore"),
            Command::FsScale(a) => line_int("fs-scale", a as i64),
            Command::FsNoViewport => line_of("fs-noviewport"),
            Command::FsMismatch => line_of("fs-mismatch"),
            Command::DpiHonor => line_of("dpi-honor"),
            Command::DpiIgnore => line_of("dpi-ignore"),
            Command::DpiScale(a) => line_int("dpi-scale", a as i64),
            Command::DpiNondiv => line_of("dpi-nondiv"),
            Command::DpiMismatch => line_of("dpi-mismatch"),
            Command::DpiZero => line_of("dpi-zero"),
            Command::SpFill(a, b, c, d) => line_int4("sp-fill", a as i64, b as i64, c as i64, d as i64),
            Command::SpSub(a, b, c, d) => line_int4("sp-sub", a as i64, b as i64, c as i64, d as i64),
            Command::SpNoViewport => line_of("sp-noviewport"),
            Command::Tearing(a) => line_word("tearing", on8(a)),
            Command::CommitRate(a) => line_int("commitrate", a as i64),
            Command::ShowCounter(a) => line_word("showcounter", on8(a)),
            Command::MapWindow => line_of("map"),
            Command::Unmap => line_of("unmap"),
            Command::MapCycle(a) => line_word("mapcycle", on8(a)),
            Command::Size(a, b) => line_int2("size", a as i64, b as i64),
            Command::Quit => line_of("quit"),
        }
    }

    /// Parse a single wire line, ignoring surrounding whitespace. Returns `None` for an
    /// unknown verb or malformed args.
    pub fn parse(line: &str) -> (r: Option<Command>)
        ensures
            r == parse_spec(line@),
    {
        let toks = split_whitespace(line);
        if toks.len() == 0 {
            return None;
        }
        assert(views(toks@)[0] == toks@[0]@);
        match bare_parse(&toks[0]) {
            Some(c) => Some(c),
            None => arg_parse(&toks),
        }
    }
}

// ---- literal facts --------------------------------------------------------------

/// The characters of every word this module puts on or reads from the wire.
pub proof fn lemma_wire_words()
    ensures
        "server"@.len() == 6 && "server"@[0] == 's' && "server"@[1] == 'e' && "server"@[2] == 'r' && "server"@[3] == 'v' && "server"@[4] == 'e' && "server"@[5] == 'r',
        "client"@.len() == 6 && "client"@[0] == 'c' && "client"@[1] == 'l' && "client"@[2] == 'i' && "client"@[3] == 'e' && "client"@[4] == 'n' && "client"@[5] == 't',
        "none"@.len() == 4 && "none"@[0] == 'n' && "none"@[1] == 'o' && "none"@[2] == 'n' && "none"@[3] == 'e',
        "c"@.len() == 1 && "c"@[0] == 'c',
        "t"@.len() == 1 && "t"@[0] == 't',
        "b"@.len() == 1 && "b"@[0] == 'b',
        "l"@.len() == 1 && "l"@[0] == 'l',
        "r"@.len() == 1 && "r"@[0] == 'r',
        "tl"@.len() == 2 && "tl"@[0] == 't' && "tl"@[1] == 'l',
        "tr"@.len() == 2 && "tr"@[0] == 't' && "tr"@[1] == 'r',
        "bl"@.len() == 2 && "bl"@[0] == 'b' && "bl"@[1] == 'l',
        "br"@.len() == 2 && "br"@[0] == 'b' && "br"@[1] == 'r',
        "deco-mode"@.len() == 9 && "deco-mode"@[0] == 'd' && "deco-mode"@[1] == 'e' && "deco-mode"@[2] == 'c' && "deco-mode"@[3] == 'o' && "deco-mode"@[4] == '-' && "deco-mode"@[5] == 'm' && "deco-mode"@[6] == 'o' && "deco-mode"@[7] == 'd' && "deco-mode"@[8] == 'e',
        "deco-ignore"@.len() == 11 && "deco-ignore"@[0] == 'd' && "deco-ignore"@[1] == 'e' && "deco-ignore"@[2] == 'c' && "deco-ignore"@[3] == 'o' && "deco-ignore"@[4] == '-' && "deco-ignore"@[5] == 'i' && "deco-ignore"@[6] == 'g' && "deco-ignore"@[7] == 'n' && "deco-ignore"@[8] == 'o' && "deco-ignore"@[9] == 'r' && "deco-ignore"@[10] == 'e',
        "deco-badsize"@.len() == 12 && "deco-badsize"@[0] == 'd' && "deco-badsize"@[1] == 'e' && "deco-badsize"@[2] == 'c' && "deco-badsize"@[3] == 'o' && "deco-badsize"@[4] == '-' && "deco-badsize"@[5] == 'b' && "deco-badsize"@[6] == 'a' && "deco-badsize"@[7] == 'd' && "deco-badsize"@[8] == 's' && "deco-badsize"@[9] == 'i' && "deco-badsize"@[10] == 'z' && "deco-badsize"@[11] == 'e',
        "buf-agreed"@.len() == 10 && "buf-agreed"@[0] == 'b' && "buf-agreed"@[1] == 'u' && "buf-agreed"@[2] == 'f' && "buf-agreed"@[3] == '-' && "buf-agreed"@[4] == 'a' && "buf-agreed"@[5] == 'g' && "buf-agreed"@[6] == 'r' && "buf-agreed"@[7] == 'e' && "buf-agreed"@[8] == 'e' && "buf-agreed"@[9] == 'd',
        "buf-delta"@.len() == 9 && "buf-delta"@[0] == 'b' && "buf-delta"@[1] == 'u' && "buf-delta"@[2] == 'f' && "buf-delta"@[3] == '-' && "buf-delta"@[4] == 'd' && "buf-delta"@[5] == 'e' && "buf-delta"@[6] == 'l' && "buf-delta"@[7] == 't' && "buf-delta"@[8] == 'a',
        "buf-zero"@.len() == 8 && "buf-zero"@[0] == 'b' && "buf-zero"@[1] == 'u' && "buf-zero"@[2] == 'f' && "buf-zero"@[3] == '-' && "buf-zero"@[4] == 'z' && "buf-zero"@[5] == 'e' && "buf-zero"@[6] == 'r' && "buf-zero"@[7] == 'o',
        "buf-noack"@.len() == 9 && "buf-noack"@[0] == 'b' && "buf-noack"@[1] == 'u' && "buf-noack"@[2] == 'f' && "buf-noack"@[3] == '-' && "buf-noack"@[4] == 'n' && "buf-noack"@[5] == 'o' && "buf-noack"@[6] == 'a' && "buf-noack"@[7] == 'c' && "buf-noack"@[8] == 'k',
        "buf-preack"@.len() == 10 && "buf-preack"@[0] == 'b' && "buf-preack"@[1] == 'u' && "buf-preack"@[2] == 'f' && "buf-preack"@[3] == '-' && "buf-preack"@[4] == 'p' && "buf-preack"@[5] == 'r' && "buf-preack"@[6] == 'e' && "buf-preack"@[7] == 'a' && "buf-preack"@[8] == 'c' && "buf-preack"@[9] == 'k',
        "geo-mismatch"@.len() == 12 && "geo-mismatch"@[0] == 'g' && "geo-mismatch"@[1] == 'e' && "geo-mismatch"@[2] == 'o' && "geo-mismatch"@[3] == '-' && "geo-mismatch"@[4] == 'm' && "geo-mismatch"@[5] == 'i' && "geo-mismatch"@[6] == 's' && "geo-mismatch"@[7] == 'm' && "geo-mismatch"@[8] == 'a' && "geo-mismatch"@[9] == 't' && "geo-mismatch"@[10] == 'c' && "geo-mismatch"@[11] == 'h',
        "popup-add"@.len() == 9 && "popup-add"@[0] == 'p' && "popup-add"@[1] == 'o' && "popup-add"@[2] == 'p' && "popup-add"@[3] == 'u' && "popup-add"@[4] == 'p' && "popup-add"@[5] == '-' && "popup-add"@[6] == 'a' && "popup-add"@[7] == 'd' && "popup-add"@[8] == 'd',
        "popup-anchor"@.len() == 12 && "popup-anchor"@[0] == 'p' && "popup-anchor"@[1] == 'o' && "popup-anchor"@[2] == 'p' && "popup-anchor"@[3] == 'u' && "popup-anchor"@[4] == 'p' && "popup-anchor"@[5] == '-' && "popup-anchor"@[6] == 'a' && "popup-anchor"@[7] == 'n' && "popup-anchor"@[8] == 'c' && "popup-anchor"@[9] == 'h' && "popup-anchor"@[10] == 'o' && "popup-anchor"@[11] == 'r',
        "popup-gravity"@.len() == 13 && "popup-gravity"@[0] == 'p' && "popup-gravity"@[1] == 'o' && "popup-gravity"@[2] == 'p' && "popup-gravity"@[3] == 'u' && "popup-gravity"@[4] == 'p' && "popup-gravity"@[5] == '-' && "popup-gravity"@[6] == 'g' && "popup-gravity"@[7] == 'r' && "popup-gravity"@[8] == 'a' && "popup-gravity"@[9] == 'v' && "popup-gravity"@[10] == 'i' && "popup-gravity"@[11] == 't' && "popup-gravity"@[12] == 'y',
        "popup-off"@.len() == 9 && "popup-off"@[0] == 'p' && "popup-off"@[1] == 'o' && "popup-off"@[2] == 'p' && "popup-off"@[3] == 'u' && "popup-off"@[4] == 'p' && "popup-off"@[5] == '-' && "popup-off"@[6] == 'o' && "popup-off"@[7] == 'f' && "popup-off"@[8] == 'f',
        "popup-size"@.len() == 10 && "popup-size"@[0] == 'p' && "popup-size"@[1] == 'o' && "popup-size"@[2] == 'p' && "popup-size"@[3] == 'u' && "popup-size"@[4] == 'p' && "popup-size"@[5] == '-' && "popup-size"@[6] == 's' && "popup-size"@[7] == 'i' && "popup-size"@[8] == 'z' && "popup-size"@[9] == 'e',
        "popup-move"@.len() == 10 && "popup-move"@[0] == 'p' && "popup-move"@[1] == 'o' && "popup-move"@[2] == 'p' && "popup-move"@[3] == 'u' && "popup-move"@[4] == 'p' && "popup-move"@[5] == '-' && "popup-move"@[6] == 'm' && "popup-move"@[7] == 'o' && "popup-move"@[8] == 'v' && "popup-move"@[9] == 'e',
        "popup-nest"@.len() == 10 && "popup-nest"@[0] == 'p' && "popup-nest"@[1] == 'o' && "popup-nest"@[2] == 'p' && "popup-nest"@[3] == 'u' && "popup-nest"@[4] == 'p' && "popup-nest"@[5] == '-' && "popup-nest"@[6] == 'n' && "popup-nest"@[7] == 'e' && "popup-nest"@[8] == 's' && "popup-nest"@[9] == 't',
        "popup-close"@.len() == 11 && "popup-close"@[0] == 'p' && "popup-close"@[1] == 'o' && "popup-close"@[2] == 'p' && "popup-close"@[3] == 'u' && "popup-close"@[4] == 'p' && "popup-close"@[5] == '-' && "popup-close"@[6] == 'c' && "popup-close"@[7] == 'l' && "popup-close"@[8] == 'o' && "popup-close"@[9] == 's' && "popup-close"@[10] == 'e',
        "sub-add"@.len() == 7 && "sub-add"@[0] == 's' && "sub-add"@[1] == 'u' && "sub-add"@[2] == 'b' && "sub-add"@[3] == '-' && "sub-add"@[4] == 'a' && "sub-add"@[5] == 'd' && "sub-add"@[6] == 'd',
        "sub-move"@.len() == 8 && "sub-move"@[0] == 's' && "sub-move"@[1] == 'u' && "sub-move"@[2] == 'b' && "sub-move"@[3] == '-' && "sub-move"@[4] == 'm' && "sub-move"@[5] == 'o' && "sub-move"@[6] == 'v' && "sub-move"@[7] == 'e',
        "sub-sync"@.len() == 8 && "sub-sync"@[0] == 's' && "sub-sync"@[1] == 'u' && "sub-sync"@[2] == 'b' && "sub-sync"@[3] == '-' && "sub-sync"@[4] == 's' && "sub-sync"@[5] == 'y' && "sub-sync"@[6] == 'n' && "sub-sync"@[7] == 'c',
        "sub-desync"@.len() == 10 && "sub-desync"@[0] == 's' && "sub-desync"@[1] == 'u' && "sub-desync"@[2] == 'b' && "sub-desync"@[3] == '-' && "sub-desync"@[4] == 'd' && "sub-desync"@[5] == 'e' && "sub-desync"@[6] == 's' && "sub-desync"@[7] == 'y' && "sub-desync"@[8] == 'n' && "sub-desync"@[9] == 'c',
        "sub-nest"@.len() == 8 && "sub-nest"@[0] == 's' && "sub-nest"@[1] == 'u' && "sub-nest"@[2] == 'b' && "sub-nest"@[3] == '-' && "sub-nest"@[4] == 'n' && "sub-nest"@[5] == 'e' && "sub-nest"@[6] == 's' && "sub-nest"@[7] == 't',
        "sub-remove"@.len() == 10 && "sub-remove"@[0] == 's' && "sub-remove"@[1] == 'u' && "sub-remove"@[2] == 'b' && "sub-remove"@[3] == '-' && "sub-remove"@[4] == 'r' && "sub-remove"@[5] == 'e' && "sub-remove"@[6] == 'm' && "sub-remove"@[7] == 'o' && "sub-remove"@[8] == 'v' && "sub-remove"@[9] == 'e',
        "vp-dest"@.len() == 7 && "vp-dest"@[0] == 'v' && "vp-dest"@[1] == 'p' && "vp-dest"@[2] == '-' && "vp-dest"@[3] == 'd' && "vp-dest"@[4] == 'e' && "vp-dest"@[5] == 's' && "vp-dest"@[6] == 't',
        "vp-dest-delta"@.len() == 13 && "vp-dest-delta"@[0] == 'v' && "vp-dest-delta"@[1] == 'p' && "vp-dest-delta"@[2] == '-' && "vp-dest-delta"@[3] == 'd' && "vp-dest-delta"@[4] == 'e' && "vp-dest-delta"@[5] == 's' && "vp-dest-delta"@[6] == 't' && "vp-dest-delta"@[7] == '-' && "vp-dest-delta"@[8] == 'd' && "vp-dest-delta"@[9] == 'e' && "vp-dest-delta"@[10] == 'l' && "vp-dest-delta"@[11] == 't' && "vp-dest-delta"@[12] == 'a',
        "vp-animate"@.len() == 10 && "vp-animate"@[0] == 'v' && "vp-animate"@[1] == 'p' && "vp-animate"@[2] == '-' && "vp-animate"@[3] == 'a' && "vp-animate"@[4] == 'n' && "vp-animate"@[5] == 'i' && "vp-animate"@[6] == 'm' && "vp-animate"@[7] == 'a' && "vp-animate"@[8] == 't' && "vp-animate"@[9] == 'e',
        "vp-unset"@.len() == 8 && "vp-unset"@[0] == 'v' && "vp-unset"@[1] == 'p' && "vp-unset"@[2] == '-' && "vp-unset"@[3] == 'u' && "vp-unset"@[4] == 'n' && "vp-unset"@[5] == 's' && "vp-unset"@[6] == 'e' && "vp-unset"@[7] == 't',
        "vp-bad"@.len() == 6 && "vp-bad"@[0] == 'v' && "vp-bad"@[1] == 'p' && "vp-bad"@[2] == '-' && "vp-bad"@[3] == 'b' && "vp-bad"@[4] == 'a' && "vp-bad"@[5] == 'd',
        "fs-honor"@.len() == 8 && "fs-honor"@[0] == 'f' && "fs-honor"@[1] == 's' && "fs-honor"@[2] == '-' && "fs-honor"@[3] == 'h' && "fs-honor"@[4] == 'o' && "fs-honor"@[5] == 'n' && "fs-honor"@[6] == 'o' && "fs-honor"@[7] == 'r',
        "fs-ignore"@.len() == 9 && "fs-ignore"@[0] == 'f' && "fs-ignore"@[1] == 's' && "fs-ignore"@[2] == '-' && "fs-ignore"@[3] == 'i' && "fs-ignore"@[4] == 'g' && "fs-ignore"@[5] == 'n' && "fs-ignore"@[6] == 'o' && "fs-ignore"@[7] == 'r' && "fs-ignore"@[8] == 'e',
        "fs-scale"@.len() == 8 && "fs-scale"@[0] == 'f' && "fs-scale"@[1] == 's' && "fs-scale"@[2] == '-' && "fs-scale"@[3] == 's' && "fs-scale"@[4] == 'c' && "fs-scale"@[5] == 'a' && "fs-scale"@[6] == 'l' && "fs-scale"@[7] == 'e',
        "fs-noviewport"@.len() == 13 && "fs-noviewport"@[0] == 'f' && "fs-noviewport"@[1] == 's' && "fs-noviewport"@[2] == '-' && "fs-noviewport"@[3] == 'n' && "fs-noviewport"@[4] == 'o' && "fs-noviewport"@[5] == 'v' && "fs-noviewport"@[6] == 'i' && "fs-noviewport"@[7] == 'e' && "fs-noviewport"@[8] == 'w' && "fs-noviewport"@[9] == 'p' && "fs-noviewport"@[10] == 'o' && "fs-noviewport"@[11] == 'r' && "fs-noviewport"@[12] == 't',
        "fs-mismatch"@.len() == 11 && "fs-mismatch"@[0] == 'f' && "fs-mismatch"@[1] == 's' && "fs-mismatch"@[2] == '-' && "fs-mismatch"@[3] == 'm' && "fs-mismatch"@[4] == 'i' && "fs-mismatch"@[5] == 's' && "fs-mismatch"@[6] == 'm' && "fs-mismatch"@[7] == 'a' && "fs-mismatch"@[8] == 't' && "fs-mismatch"@[9] == 'c' && "fs-mismatch"@[10] == 'h',
        "dpi-honor"@.len() == 9 && "dpi-honor"@[0] == 'd' && "dpi-honor"@[1] == 'p' && "dpi-honor"@[2] == 'i' && "dpi-honor"@[3] == '-' && "dpi-honor"@[4] == 'h' && "dpi-honor"@[5] == 'o' && "dpi-honor"@[6] == 'n' && "dpi-honor"@[7] == 'o' && "dpi-honor"@[8] == 'r',
        "dpi-ignore"@.len() == 10 && "dpi-ignore"@[0] == 'd' && "dpi-ignore"@[1] == 'p' && "dpi-ignore"@[2] == 'i' && "dpi-ignore"@[3] == '-' && "dpi-ignore"@[4] == 'i' && "dpi-ignore"@[5] == 'g' && "dpi-ignore"@[6] == 'n' && "dpi-ignore"@[7] == 'o' && "dpi-ignore"@[8] == 'r' && "dpi-ignore"@[9] == 'e',
        "dpi-scale"@.len() == 9 && "dpi-scale"@[0] == 'd' && "dpi-scale"@[1] == 'p' && "dpi-scale"@[2] == 'i' && "dpi-scale"@[3] == '-' && "dpi-scale"@[4] == 's' && "dpi-scale"@[5] == 'c' && "dpi-scale"@[6] == 'a' && "dpi-scale"@[7] == 'l' && "dpi-scale"@[8] == 'e',
        "dpi-nondiv"@.len() == 10 && "dpi-nondiv"@[0] == 'd' && "dpi-nondiv"@[1] == 'p' && "dpi-nondiv"@[2] == 'i' && "dpi-nondiv"@[3] == '-' && "dpi-nondiv"@[4] == 'n' && "dpi-nondiv"@[5] == 'o' && "dpi-nondiv"@[6] == 'n' && "dpi-nondiv"@[7] == 'd' && "dpi-nondiv"@[8] == 'i' && "dpi-nondiv"@[9] == 'v',
        "dpi-mismatch"@.len() == 12 && "dpi-mismatch"@[0] == 'd' && "dpi-mismatch"@[1] == 'p' && "dpi-mismatch"@[2] == 'i' && "dpi-mismatch"@[3] == '-' && "dpi-mismatch"@[4] == 'm' && "dpi-mismatch"@[5] == 'i' && "dpi-mismatch"@[6] == 's' && "dpi-mismatch"@[7] == 'm' && "dpi-mismatch"@[8] == 'a' && "dpi-mismatch"@[9] == 't' && "dpi-mismatch"@[10] == 'c' && "dpi-mismatch"@[11] == 'h',
        "dpi-zero"@.len() == 8 && "dpi-zero"@[0] == 'd' && "dpi-zero"@[1] == 'p' && "dpi-zero"@[2] == 'i' && "dpi-zero"@[3] == '-' && "dpi-zero"@[4] == 'z' && "dpi-zero"@[5] == 'e' && "dpi-zero"@[6] == 'r' && "dpi-zero"@[7] == 'o',
        "sp-fill"@.len() == 7 && "sp-fill"@[0] == 's' && "sp-fill"@[1] == 'p' && "sp-fill"@[2] == '-' && "sp-fill"@[3] == 'f' && "sp-fill"@[4] == 'i' && "sp-fill"@[5] == 'l' && "sp-fill"@[6] == 'l',
        "sp-sub"@.len() == 6 && "sp-sub"@[0] == 's' && "sp-sub"@[1] == 'p' && "sp-sub"@[2] == '-' && "sp-sub"@[3] == 's' && "sp-sub"@[4] == 'u' && "sp-sub"@[5] == 'b',
        "sp-noviewport"@.len() == 13 && "sp-noviewport"@[0] == 's' && "sp-noviewport"@[1] == 'p' && "sp-noviewport"@[2] == '-' && "sp-noviewport"@[3] == 'n' && "sp-noviewport"@[4] == 'o' && "sp-noviewport"@[5] == 'v' && "sp-noviewport"@[6] == 'i' && "sp-noviewport"@[7] == 'e' && "sp-noviewport"@[8] == 'w' && "sp-noviewport"@[9] == 'p' && "sp-noviewport"@[10] == 'o' && "sp-noviewport"@[11] == 'r' && "sp-noviewport"@[12] == 't',
        "tearing"@.len() == 7 && "tearing"@[0] == 't' && "tearing"@[1] == 'e' && "tearing"@[2] == 'a' && "tearing"@[3] == 'r' && "tearing"@[4] == 'i' && "tearing"@[5] == 'n' && "tearing"@[6] == 'g',
        "commitrate"@.len() == 10 && "commitrate"@[0] == 'c' && "commitrate"@[1] == 'o' && "commitrate"@[2] == 'm' && "commitrate"@[3] == 'm' && "commitrate"@[4] == 'i' && "commitrate"@[5] == 't' && "commitrate"@[6] == 'r' && "commitrate"@[7] == 'a' && "commitrate"@[8] == 't' && "commitrate"@[9] == 'e',
        "showcounter"@.len() == 11 && "showcounter"@[0] == 's' && "showcounter"@[1] == 'h' && "showcounter"@[2] == 'o' && "showcounter"@[3] == 'w' && "showcounter"@[4] == 'c' && "showcounter"@[5] == 'o' && "showcounter"@[6] == 'u' && "showcounter"@[7] == 'n' && "showcounter"@[8] == 't' && "showcounter"@[9] == 'e' && "showcounter"@[10] == 'r',
        "map"@.len() == 3 && "map"@[0] == 'm' && "map"@[1] == 'a' && "map"@[2] == 'p',
        "unmap"@.len() == 5 && "unmap"@[0] == 'u' && "unmap"@[1] == 'n' && "unmap"@[2] == 'm' && "unmap"@[3] == 'a' && "unmap"@[4] == 'p',
        "mapcycle"@.len() == 8 && "mapcycle"@[0] == 'm' && "mapcycle"@[1] == 'a' && "mapcycle"@[2] == 'p' && "mapcycle"@[3] == 'c' && "mapcycle"@[4] == 'y' && "mapcycle"@[5] == 'c' && "mapcycle"@[6] == 'l' && "mapcycle"@[7] == 'e',
        "size"@.len() == 4 && "size"@[0] == 's' && "size"@[1] == 'i' && "size"@[2] == 'z' && "size"@[3] == 'e',
        "quit"@.len() == 4 && "quit"@[0] == 'q' && "quit"@[1] == 'u' && "quit"@[2] == 'i' && "quit"@[3] == 't',
{
    reveal_strlit("server");
    reveal_strlit("client");
    reveal_strlit("none");
    reveal_strlit("c");
    reveal_strlit("t");
    reveal_strlit("b");
    reveal_strlit("l");
    reveal_strlit("r");
    reveal_strlit("tl");
    reveal_strlit("tr");
    reveal_strlit("bl");
    reveal_strlit("br");
    reveal_strlit("deco-mode");
    reveal_strlit("deco-ignore");
    reveal_strlit("deco-badsize");
    reveal_strlit("buf-agreed");
    reveal_strlit("buf-delta");
    reveal_strlit("buf-zero");
    reveal_strlit("buf-noack");
    reveal_strlit("buf-preack");
    reveal_strlit("geo-mismatch");
    reveal_strlit("popup-add");
    reveal_strlit("popup-anchor");
    reveal_strlit("popup-gravity");
    reveal_strlit("popup-off");
    reveal_strlit("popup-size");
    reveal_strlit("popup-move");
    reveal_strlit("popup-nest");
    reveal_strlit("popup-close");
    reveal_strlit("sub-add");
    reveal_strlit("sub-move");
    reveal_strlit("sub-sync");
    reveal_strlit("sub-desync");
    reveal_strlit("sub-nest");
    reveal_strlit("sub-remove");
    reveal_strlit("vp-dest");
    reveal_strlit("vp-dest-delta");
    reveal_strlit("vp-animate");
    reveal_strlit("vp-unset");
    reveal_strlit("vp-bad");
    reveal_strlit("fs-honor");
    reveal_strlit("fs-ignore");
    reveal_strlit("fs-scale");
    reveal_strlit("fs-noviewport");
    reveal_strlit("fs-mismatch");
    reveal_strlit("dpi-honor");
    reveal_strlit("dpi-ignore");
    reveal_strlit("dpi-scale");
    reveal_strlit("dpi-nondiv");
    reveal_strlit("dpi-mismatch");
    reveal_strlit("dpi-zero");
    reveal_strlit("sp-fill");
    reveal_strlit("sp-sub");
    reveal_strlit("sp-noviewport");
    reveal_strlit("tearing");
    reveal_strlit("commitrate");
    reveal_strlit("showcounter");
    reveal_strlit("map");
    reveal_strlit("unmap");
    reveal_strlit("mapcycle");
    reveal_strlit("size");
    reveal_strlit("quit");
}

/// Every word of a command's line is non-empty and free of whitespace.
pub proof fn lemma_words_plain(c: Command)
    ensures
        plain_words(words(c)),
{
    lemma_wire_words();
    let ws = words(c);
    match c {
        Command::BufDelta(a) => {
            lemma_int_text_plain(a as int);
        },
        Command::PopupOff(a, b) => {
            lemma_int_text_plain(a as int);
            lemma_int_text_plain(b as int);
        },
        Command::PopupSize(a, b) => {
            lemma_int_text_plain(a as int);
            lemma_int_text_plain(b as int);
        },
        Command::PopupMove(a, b) => {
            lemma_int_text_plain(a as int);
            lemma_int_text_plain(b as int);
        },
        Command::SubMove(a, b) => {
            lemma_int_text_plain(a as int);
            lemma_int_text_plain(b as int);
        },
        Command::VpDest(a, b) => {
            lemma_int_text_plain(a as int);
            lemma_int_text_plain(b as int);
        },
        Command::VpDestDelta(a) => {
            lemma_int_text_plain(a as int);
        },
        Command::VpAnimate(a) => {
            lemma_on_word(a);
        },
        Command::FsScale(a) => {
            lemma_int_text_plain(a as int);
        },
        Command::DpiScale(a) => {
            lemma_int_text_plain(a as int);
        },
        Command::SpFill(a, b, c, d) => {
            lemma_int_text_plain(a as int);
            lemma_int_text_plain(b as int);
            lemma_int_text_plain(c as int);
            lemma_int_text_plain(d as int);
        },
        Command::SpSub(a, b, c, d) => {
            lemma_int_text_plain(a as int);
            lemma_int_text_plain(b as int);
            lemma_int_text_plain(c as int);
            lemma_int_text_plain(d as int);
        },
        Command::Tearing(a) => {
            lemma_on_word(a);
        },
        Command::CommitRate(a) => {
            lemma_int_text_plain(a as int);
        },
        Command::ShowCounter(a) => {
            lemma_on_word(a);
        },
        Command::MapCycle(a) => {
            lemma_on_word(a);
        },
        Command::Size(a, b) => {
            lemma_int_text_plain(a as int);
            lemma_int_text_plain(b as int);
        },
        _ => {},
    }
    assert forall|i: int| 0 <= i < ws.len() implies #[trigger] ws[i].len() > 0 && no_ws(ws[i]) by {
        let w = ws[i];
        assert forall|k: int| 0 <= k < w.len() implies !is_ws(#[trigger] w[k]) by {}
    }
}

proof fn lemma_parse_words_0(c: Command)
    requires
        c is DecoMode || c is DecoIgnore || c is DecoBadsize || c is BufAgreed || c is BufDelta || c is BufZero,
    ensures
        parse_words(words(c)) == Some(c),
{
    lemma_wire_words();
    match c {
        Command::BufDelta(a) => {
            lemma_int_round_trip(a as int, true, i32::MIN as int, i32::MAX as int);
        },
        _ => {},
    }
}

proof fn lemma_parse_words_1(c: Command)
    requires
        c is BufNoack || c is BufPreack || c is GeoMismatch || c is PopupAdd || c is PopupAnchor || c is PopupGravity,
    ensures
        parse_words(words(c)) == Some(c),
{
    lemma_wire_words();
    match c {
        _ => {},
    }
}

proof fn lemma_parse_words_2(c: Command)
    requires
        c is PopupOff || c is PopupSize || c is PopupMove || c is PopupNest || c is PopupClose || c is SubAdd,
    ensures
        parse_words(words(c)) == Some(c),
{
    lemma_wire_words();
    match c {
        Command::PopupOff(a, b) => {
            lemma_int_round_trip(a as int, true, i32::MIN as int, i32::MAX as int);
            lemma_int_round_trip(b as int, true, i32::MIN as int, i32::MAX as int);
        },
        Command::PopupSize(a, b) => {
            lemma_int_round_trip(a as int, false, 0, u32::MAX as int);
            lemma_int_round_trip(b as int, false, 0, u32::MAX as int);
        },
        Command::PopupMove(a, b) => {
            lemma_int_round_trip(a as int, true, i32::MIN as int, i32::MAX as int);
            lemma_int_round_trip(b as int, true, i32::MIN as int, i32::MAX as int);
        },
        _ => {},
    }
}

proof fn lemma_parse_words_3(c: Command)
    requires
        c is SubMove || c is SubSync || c is SubDesync || c is SubNest || c is SubRemove || c is VpDest,
    ensures
        parse_words(words(c)) == Some(c),
{
    lemma_wire_words();
    match c {
        Command::SubMove(a, b) => {
            lemma_int_round_trip(a as int, true, i32::MIN as int, i32::MAX as int);
            lemma_int_round_trip(b as int, true, i32::MIN as int, i32::MAX as int);
        },
        Command::VpDest(a, b) => {
            lemma_int_round_trip(a as int, true, i32::MIN as int, i32::MAX as int);
            lemma_int_round_trip(b as int, true, i32::MIN as int, i32::MAX as int);
        },
        _ => {},
    }
}

proof fn lemma_parse_words_4(c: Command)
    requires
        c is VpDestDelta || c is VpAnimate || c is VpUnset || c is VpBad || c is FsHonor || c is FsIgnore,
    ensures
        parse_words(words(c)) == Some(c),
{
    lemma_wire_words();
    match c {
        Command::VpDestDelta(a) => {
            lemma_int_round_trip(a as int, true, i32::MIN as int, i32::MAX as int);
        },
        Command::VpAnimate(a) => {
            lemma_on_word(a);
        },
        _ => {},
    }
}

proof fn lemma_parse_words_5(c: Command)
    requires
        c is FsScale || c is FsNoViewport || c is FsMismatch || c is DpiHonor || c is DpiIgnore || c is DpiScale,
    ensures
        parse_words(words(c)) == Some(c),
{
    lemma_wire_words();
    match c {
        Command::FsScale(a) => {
            lemma_int_round_trip(a as int, false, 0, u32::MAX as int);
        },
        Command::DpiScale(a) => {
            lemma_int_round_trip(a as int, true, i32::MIN as int, i32::MAX as int);
        },
        _ => {},
    }
}

proof fn lemma_parse_words_6(c: Command)
    requires
        c is DpiNondiv || c is DpiMismatch || c is DpiZero || c is SpFill || c is SpSub || c is SpNoViewport,
    ensures
        parse_words(words(c)) == Some(c),
{
    lemma_wire_words();
    match c {
        Command::SpFill(a, b, c, d) => {
            lemma_int_round_trip(a as int, false, 0, u8::MAX as int);
            lemma_int_round_trip(b as int, false, 0, u8::MAX as int);
            lemma_int_round_trip(c as int, false, 0, u8::MAX as int);
            lemma_int_round_trip(d as int, false, 0, u8::MAX as int);
        },
        Command::SpSub(a, b, c, d) => {
            lemma_int_round_trip(a as int, false, 0, u8::MAX as int);
            lemma_int_round_trip(b as int, false, 0, u8::MAX as int);
            lemma_int_round_trip(c as int, false, 0, u8::MAX as int);
            lemma_int_round_trip(d as int, false, 0, u8::MAX as int);
        },
        _ => {},
    }
}

proof fn lemma_parse_words_7(c: Command)
    requires
        c is Tearing || c is CommitRate || c is ShowCounter || c is MapWindow || c is Unmap || c is MapCycle,
    ensures
        parse_words(words(c)) == Some(c),
{
    lemma_wire_words();
    match c {
        Command::Tearing(a) => {
            lemma_on_word(a);
        },
        Command::CommitRate(a) => {
            lemma_int_round_trip(a as int, false, 0, u32::MAX as int);
        },
        Command::ShowCounter(a) => {
            lemma_on_word(a);
        },
        Command::MapCycle(a) => {
            lemma_on_word(a);
        },
        _ => {},
    }
}

proof fn lemma_parse_words_8(c: Command)
    requires
        c is Size || c is Quit,
    ensures
        parse_words(words(c)) == Some(c),
{
    lemma_wire_words();
    match c {
        Command::Size(a, b) => {
            lemma_int_round_trip(a as int, false, 0, u32::MAX as int);
            lemma_int_round_trip(b as int, false, 0, u32::MAX as int);
        },
        _ => {},
    }
}

/// Reading a command's words back gives the command.
pub proof fn lemma_parse_words(c: Command)
    ensures
        parse_words(words(c)) == Some(c),
{
    if c is DecoMode || c is DecoIgnore || c is DecoBadsize || c is BufAgreed || c is BufDelta || c is BufZero {
        lemma_parse_words_0(c);
    } else if c is BufNoack || c is BufPreack || c is GeoMismatch || c is PopupAdd || c is PopupAnchor || c is PopupGravity {
        lemma_parse_words_1(c);
    } else if c is PopupOff || c is PopupSize || c is PopupMove || c is PopupNest || c is PopupClose || c is SubAdd {
        lemma_parse_words_2(c);
    } else if c is SubMove || c is SubSync || c is SubDesync || c is SubNest || c is SubRemove || c is VpDest {
        lemma_parse_words_3(c);
    } else if c is VpDestDelta || c is VpAnimate || c is VpUnset || c is VpBad || c is FsHonor || c is FsIgnore {
        lemma_parse_words_4(c);
    } else if c is FsScale || c is FsNoViewport || c is FsMismatch || c is DpiHonor || c is DpiIgnore || c is DpiScale {
        lemma_parse_words_5(c);
    } else if c is DpiNondiv || c is DpiMismatch || c is DpiZero || c is SpFill || c is SpSub || c is SpNoViewport {
        lemma_parse_words_6(c);
    } else if c is Tearing || c is CommitRate || c is ShowCounter || c is MapWindow || c is Unmap || c is MapCycle {
        lemma_parse_words_7(c);
    } else {
        lemma_parse_words_8(c);
    }
}

/// Round trip: parsing the line a command encodes to gives the command back, for every
/// command.
pub proof fn lemma_round_trip(c: Command)
    ensures
        parse_spec(encode_spec(c)) == Some(c),
{
    lemma_words_plain(c);
    lemma_split_join(words(c));
    lemma_parse_words(c);
}

/// The verbs that take arguments.
pub open spec fn is_arg_verb(v: Seq<char>) -> bool {
    v == "deco-mode"@
        || v == "buf-delta"@
        || v == "popup-anchor"@
        || v == "popup-gravity"@
        || v == "popup-off"@
        || v == "popup-size"@
        || v == "popup-move"@
        || v == "sub-move"@
        || v == "vp-dest"@
        || v == "vp-dest-delta"@
        || v == "vp-animate"@
        || v == "fs-scale"@
        || v == "dpi-scale"@
        || v == "sp-fill"@
        || v == "sp-sub"@
        || v == "tearing"@
        || v == "commitrate"@
        || v == "showcounter"@
        || v == "mapcycle"@
        || v == "size"@
}

/// Whitespace around a command's line is ignored: the padded line still parses back to
/// the command.
pub proof fn lemma_parse_padded(c: Command, w1: Seq<char>, w2: Seq<char>)
    requires
        all_ws(w1),
        all_ws(w2),
    ensures
        parse_spec(w1 + encode_spec(c) + w2) == Some(c),
{
    lemma_round_trip(c);
    lemma_split_ws_trail(encode_spec(c), w2);
    lemma_split_ws_lead(w1, encode_spec(c) + w2);
    assert(w1 + encode_spec(c) + w2 =~= w1 + (encode_spec(c) + w2));
}

/// A line with no words, or whose first word is no verb, parses to nothing.
pub proof fn lemma_parse_rejects(line: Seq<char>)
    requires
        split_ws(line).len() == 0 || (bare_command(split_ws(line)[0]) is None && !is_arg_verb(
            split_ws(line)[0],
        )),
    ensures
        parse_spec(line) is None,
{
}

} // verus!
