//! The command vocabulary the X11 harness controller sends to its subject (one command
//! per line).
//!
//! Wire form is a compact, space-separated text line: a verb token followed by its
//! arguments, e.g. `or 1 40 20 200 120`, `input-model 1 globally`, `title 1 hello`.
//! Both processes share this module, so [`Command::encode`] and [`Command::parse`]
//! stay in sync; the round trip is [`lemma_round_trip`].
//!
//! Window ids are the harness's own small integers (1, 2, 3 …), not X11 window ids.

use vstd::prelude::*;
use crate::text::{
    chars_eq_str, chars_of, int_arg, int_at, int_text, is_ws, join_sp, lemma_rest_of_line_join, rest_of_line, rest_text,
    lemma_int_round_trip, lemma_int_text_plain, lemma_on_word, lemma_split_join,
    lemma_split_join_text, line_int, on_of, parse_int_spec, line_int2, line_int3, line_int5, line_int5_word2,
    line_int_text, line_int_word, line_of, line_text, no_ws, on_arg, on_at, on_word,
    plain_words, split_whitespace, split_ws, views, word_at, word_is,
};

verus! {

/// The ICCCM input model a window advertises, which decides how the compositor must
/// hand it the keyboard.
#[derive(Clone, Copy, Debug, PartialEq, Eq, Structural)]
pub enum InputModel {
    /// `input = False`, no `WM_TAKE_FOCUS`. Never focused (wire word `none`).
    NoInput,
    /// `input = True`, no `WM_TAKE_FOCUS`. The WM calls `SetInputFocus`.
    Passive,
    /// `input = True` + `WM_TAKE_FOCUS`. Both.
    LocallyActive,
    /// `input = False` + `WM_TAKE_FOCUS`. The client focuses itself when told.
    GloballyActive,
}

/// The `_NET_WM_WINDOW_TYPE` a window advertises. `Unset` deletes the property.
#[derive(Clone, Copy, Debug, PartialEq, Eq, Structural)]
pub enum WmType {
    Unset,
    Normal,
    Dialog,
    Menu,
    PopupMenu,
    DropdownMenu,
    Tooltip,
    Notification,
    Splash,
    Dnd,
    Combo,
    Utility,
    Toolbar,
    Dock,
}

/// A `_NET_WM_ICON` shape to publish, each aimed at a branch of the compositor's decoder.
#[derive(Clone, Copy, Debug, PartialEq, Eq, Structural)]
pub enum IconSpec {
    /// Delete the property (wire word `none`).
    Absent,
    /// One 64x64 image.
    Single,
    /// 16, 32, 48, 64, 128 ascending.
    Pyramid,
    /// 1024 then 48.
    LargeFirst,
    /// 2048 then 48.
    Oversize,
    /// A header claiming more pixels than the property carries, after one good 64x64.
    Truncated,
    /// A 0x0 header before a good image.
    Zero,
    /// 64x64 with alpha ramping left to right over a fixed mid-grey RGB.
    Alpha,
}

/// How a window answers a close request.
#[derive(Clone, Copy, Debug, PartialEq, Eq, Structural)]
pub enum CloseMode {
    /// Lists `WM_DELETE_WINDOW`.
    Delete,
    /// Does not list it.
    NoDelete,
}

/// One controller -> subject instruction. See the module docs for the wire form.
#[derive(Clone, Debug, PartialEq, Eq)]
pub enum Command {
    /// Create a managed toplevel `w`x`h`.
    MapWindow(u16, u16),
    /// A managed toplevel on a 32-bit ARGB visual.
    MapArgb(u16, u16),
    /// `_NET_WM_WINDOW_OPACITY`.
    Opacity(u32, u8),
    /// A managed toplevel with `WM_TRANSIENT_FOR` set to another window.
    MapTransient(u32, u16, u16),
    /// Withdraw a window without destroying it.
    Unmap(u32),
    /// Map a withdrawn window again.
    Remap(u32),
    /// Destroy one of our windows from the client side.
    Destroy(u32),
    /// `WM_NAME`.
    Title(u32, String),
    /// `WM_CLASS`.
    Class(u32, String),
    /// `_NET_WM_PID`.
    Pid(u32, u32),
    /// `_NET_WM_STATE_FULLSCREEN` via a client message.
    Fullscreen(u32, bool),
    /// The ICCCM input model.
    InputModel(u32, InputModel),
    /// Whether this window offers `WM_DELETE_WINDOW`.
    CloseMode(u32, CloseMode),
    /// `_NET_WM_WINDOW_TYPE`.
    WindowType(u32, WmType),
    /// `_NET_WM_ICON` on an existing window.
    Icon(u32, IconSpec),
    /// The `_NET_WM_ICON` for the next window created.
    IconNext(IconSpec),
    /// `_NET_WM_STATE_MODAL`.
    Modal(u32, bool),
    /// `_NET_WM_STATE_SKIP_TASKBAR`.
    SkipTaskbar(u32, bool),
    /// Set or clear (`0`) `WM_TRANSIENT_FOR` after the fact.
    TransientFor(u32, u32),
    /// An override-redirect child of `parent` at `parent + (dx, dy)`, no transient-for.
    Or(u32, i16, i16, u16, u16),
    /// The general child: offset, size, override-redirect yes/no, and a window type.
    MapChild(u32, i16, i16, u16, u16, bool, WmType),
    /// The client moves its own override-redirect window.
    OrReanchor(u32, i16, i16),
    /// An override-redirect child of an override-redirect window.
    OrChain(u32, i16, i16),
    /// `ConfigureRequest` asking for a new size.
    ResizeRequest(u32, u16, u16),
    /// `ConfigureRequest` asking to move.
    MoveRequest(u32, i16, i16),
    /// `ConfigureRequest` asking to restack upwards.
    Raise(u32),
    /// `ConfigureRequest` asking to restack downwards.
    Lower(u32),
    /// Move self to an absolute root position.
    SelfMove(u32, i16, i16),
    /// Resize self, keeping position.
    SelfResize(u32, u16, u16),
    /// Move and resize in one request.
    SelfMoveResize(u32, i16, i16, u16, u16),
    /// Make this window an XDND target.
    DndTarget(u32),
    /// Begin a drag from this window.
    DndSource(u32),
    /// Finish the drag in progress.
    DndDrop,
    /// Abandon the drag in progress.
    DndCancel,
    /// Take ownership of `CLIPBOARD` with this text.
    Copy(String),
    /// Ask for `CLIPBOARD` and print what comes back.
    Paste,
    /// `n` rapid resize requests.
    StormResize(u32, u32),
    /// `n` rapid override-redirect re-anchors.
    StormReanchor(u32, u32),
    /// Print every window the subject owns.
    Info,
    /// Print the server's stacking order for our windows.
    Stack,
    /// Ask the server where the pointer is and which window it is in.
    Pointer,
    Quit,
}

// ---------------------------------------------------------------------------------
// Words of the small vocabularies
// ---------------------------------------------------------------------------------

pub open spec fn input_model_word(m: InputModel) -> Seq<char> {
    match m {
        InputModel::NoInput => "none"@,
        InputModel::Passive => "passive"@,
        InputModel::LocallyActive => "locally"@,
        InputModel::GloballyActive => "globally"@,
    }
}

pub open spec fn input_model_of(w: Seq<char>) -> Option<InputModel> {
    if w == "none"@ {
        Some(InputModel::NoInput)
    } else if w == "passive"@ {
        Some(InputModel::Passive)
    } else if w == "locally"@ {
        Some(InputModel::LocallyActive)
    } else if w == "globally"@ {
        Some(InputModel::GloballyActive)
    } else {
        None
    }
}

pub open spec fn wm_type_word(t: WmType) -> Seq<char> {
    match t {
        WmType::Unset => "unset"@,
        WmType::Normal => "normal"@,
        WmType::Dialog => "dialog"@,
        WmType::Menu => "menu"@,
        WmType::PopupMenu => "popup-menu"@,
        WmType::DropdownMenu => "dropdown-menu"@,
        WmType::Tooltip => "tooltip"@,
        WmType::Notification => "notification"@,
        WmType::Splash => "splash"@,
        WmType::Dnd => "dnd"@,
        WmType::Combo => "combo"@,
        WmType::Utility => "utility"@,
        WmType::Toolbar => "toolbar"@,
        WmType::Dock => "dock"@,
    }
}

pub open spec fn wm_type_of(w: Seq<char>) -> Option<WmType> {
    if w == "unset"@ {
        Some(WmType::Unset)
    } else if w == "normal"@ {
        Some(WmType::Normal)
    } else if w == "dialog"@ {
        Some(WmType::Dialog)
    } else if w == "menu"@ {
        Some(WmType::Menu)
    } else if w == "popup-menu"@ {
        Some(WmType::PopupMenu)
    } else if w == "dropdown-menu"@ {
        Some(WmType::DropdownMenu)
    } else if w == "tooltip"@ {
        Some(WmType::Tooltip)
    } else if w == "notification"@ {
        Some(WmType::Notification)
    } else if w == "splash"@ {
        Some(WmType::Splash)
    } else if w == "dnd"@ {
        Some(WmType::Dnd)
    } else if w == "combo"@ {
        Some(WmType::Combo)
    } else if w == "utility"@ {
        Some(WmType::Utility)
    } else if w == "toolbar"@ {
        Some(WmType::Toolbar)
    } else if w == "dock"@ {
        Some(WmType::Dock)
    } else {
        None
    }
}

pub open spec fn icon_word(s: IconSpec) -> Seq<char> {
    match s {
        IconSpec::Absent => "none"@,
        IconSpec::Single => "single"@,
        IconSpec::Pyramid => "pyramid"@,
        IconSpec::LargeFirst => "large-first"@,
        IconSpec::Oversize => "oversize"@,
        IconSpec::Truncated => "truncated"@,
        IconSpec::Zero => "zero"@,
        IconSpec::Alpha => "alpha"@,
    }
}

pub open spec fn icon_of(w: Seq<char>) -> Option<IconSpec> {
    if w == "none"@ {
        Some(IconSpec::Absent)
    } else if w == "single"@ {
        Some(IconSpec::Single)
    } else if w == "pyramid"@ {
        Some(IconSpec::Pyramid)
    } else if w == "large-first"@ {
        Some(IconSpec::LargeFirst)
    } else if w == "oversize"@ {
        Some(IconSpec::Oversize)
    } else if w == "truncated"@ {
        Some(IconSpec::Truncated)
    } else if w == "zero"@ {
        Some(IconSpec::Zero)
    } else if w == "alpha"@ {
        Some(IconSpec::Alpha)
    } else {
        None
    }
}

pub open spec fn close_mode_word(m: CloseMode) -> Seq<char> {
    match m {
        CloseMode::Delete => "delete"@,
        CloseMode::NoDelete => "nodelete"@,
    }
}

pub open spec fn close_mode_of(w: Seq<char>) -> Option<CloseMode> {
    if w == "delete"@ {
        Some(CloseMode::Delete)
    } else if w == "nodelete"@ {
        Some(CloseMode::NoDelete)
    } else {
        None
    }
}

/// The child kind word: `or` for override-redirect, `managed` otherwise.
pub open spec fn child_word(or: bool) -> Seq<char> {
    if or {
        "or"@
    } else {
        "managed"@
    }
}

/// The child kind read back: `or` or `override-redirect`, or `managed`.
pub open spec fn child_of(w: Seq<char>) -> Option<bool> {
    if w == "or"@ || w == "override-redirect"@ {
        Some(true)
    } else if w == "managed"@ {
        Some(false)
    } else {
        None
    }
}

impl InputModel {
    /// The wire token.
    pub fn token(self) -> (r: &'static str)
        ensures
            r@ == input_model_word(self),
    {
        match self {
            Self::NoInput => "none",
            Self::Passive => "passive",
            Self::LocallyActive => "locally",
            Self::GloballyActive => "globally",
        }
    }

    /// Read a wire token.
    pub fn parse(s: &str) -> (r: Option<Self>)
        ensures
            r == input_model_of(s@),
    {
        let w = crate::text::chars_of(s);
        Self::parse_chars(&w)
    }

    pub(crate) fn parse_chars(w: &Vec<char>) -> (r: Option<Self>)
        ensures
            r == input_model_of(w@),
    {
        if chars_eq_str(w, "none") {
            Some(Self::NoInput)
        } else if chars_eq_str(w, "passive") {
            Some(Self::Passive)
        } else if chars_eq_str(w, "locally") {
            Some(Self::LocallyActive)
        } else if chars_eq_str(w, "globally") {
            Some(Self::GloballyActive)
        } else {
            None
        }
    }
}

/// The EWMH atom name of a window type; `None` for `Unset`.
pub open spec fn atom_spec(t: WmType) -> Option<Seq<char>> {
    match t {
        WmType::Unset => None,
        WmType::Normal => Some("_NET_WM_WINDOW_TYPE_NORMAL"@),
        WmType::Dialog => Some("_NET_WM_WINDOW_TYPE_DIALOG"@),
        WmType::Menu => Some("_NET_WM_WINDOW_TYPE_MENU"@),
        WmType::PopupMenu => Some("_NET_WM_WINDOW_TYPE_POPUP_MENU"@),
        WmType::DropdownMenu => Some("_NET_WM_WINDOW_TYPE_DROPDOWN_MENU"@),
        WmType::Tooltip => Some("_NET_WM_WINDOW_TYPE_TOOLTIP"@),
        WmType::Notification => Some("_NET_WM_WINDOW_TYPE_NOTIFICATION"@),
        WmType::Splash => Some("_NET_WM_WINDOW_TYPE_SPLASH"@),
        WmType::Dnd => Some("_NET_WM_WINDOW_TYPE_DND"@),
        WmType::Combo => Some("_NET_WM_WINDOW_TYPE_COMBO"@),
        WmType::Utility => Some("_NET_WM_WINDOW_TYPE_UTILITY"@),
        WmType::Toolbar => Some("_NET_WM_WINDOW_TYPE_TOOLBAR"@),
        WmType::Dock => Some("_NET_WM_WINDOW_TYPE_DOCK"@),
    }
}

/// Every window type, in declaration order.
pub open spec fn all_wm_types() -> Seq<WmType> {
    seq![
        WmType::Unset,
        WmType::Normal,
        WmType::Dialog,
        WmType::Menu,
        WmType::PopupMenu,
        WmType::DropdownMenu,
        WmType::Tooltip,
        WmType::Notification,
        WmType::Splash,
        WmType::Dnd,
        WmType::Combo,
        WmType::Utility,
        WmType::Toolbar,
        WmType::Dock,
    ]
}

/// Every icon shape, in declaration order.
pub open spec fn all_icon_specs() -> Seq<IconSpec> {
    seq![
        IconSpec::Absent,
        IconSpec::Single,
        IconSpec::Pyramid,
        IconSpec::LargeFirst,
        IconSpec::Oversize,
        IconSpec::Truncated,
        IconSpec::Zero,
        IconSpec::Alpha,
    ]
}

impl WmType {
    /// The wire token.
    pub fn token(self) -> (r: &'static str)
        ensures
            r@ == wm_type_word(self),
    {
        match self {
            Self::Unset => "unset",
            Self::Normal => "normal",
            Self::Dialog => "dialog",
            Self::Menu => "menu",
            Self::PopupMenu => "popup-menu",
            Self::DropdownMenu => "dropdown-menu",
            Self::Tooltip => "tooltip",
            Self::Notification => "notification",
            Self::Splash => "splash",
            Self::Dnd => "dnd",
            Self::Combo => "combo",
            Self::Utility => "utility",
            Self::Toolbar => "toolbar",
            Self::Dock => "dock",
        }
    }

    /// The EWMH atom name, or `None` for [`Self::Unset`].
    pub fn atom_name(self) -> (r: Option<&'static str>)
        ensures
            match r {
                Some(a) => atom_spec(self) == Some(a@),
                None => atom_spec(self) is None,
            },
    {
        match self {
            Self::Unset => None,
            Self::Normal => Some("_NET_WM_WINDOW_TYPE_NORMAL"),
            Self::Dialog => Some("_NET_WM_WINDOW_TYPE_DIALOG"),
            Self::Menu => Some("_NET_WM_WINDOW_TYPE_MENU"),
            Self::PopupMenu => Some("_NET_WM_WINDOW_TYPE_POPUP_MENU"),
            Self::DropdownMenu => Some("_NET_WM_WINDOW_TYPE_DROPDOWN_MENU"),
            Self::Tooltip => Some("_NET_WM_WINDOW_TYPE_TOOLTIP"),
            Self::Notification => Some("_NET_WM_WINDOW_TYPE_NOTIFICATION"),
            Self::Splash => Some("_NET_WM_WINDOW_TYPE_SPLASH"),
            Self::Dnd => Some("_NET_WM_WINDOW_TYPE_DND"),
            Self::Combo => Some("_NET_WM_WINDOW_TYPE_COMBO"),
            Self::Utility => Some("_NET_WM_WINDOW_TYPE_UTILITY"),
            Self::Toolbar => Some("_NET_WM_WINDOW_TYPE_TOOLBAR"),
            Self::Dock => Some("_NET_WM_WINDOW_TYPE_DOCK"),
        }
    }

    /// Read a wire token.
    pub fn parse(s: &str) -> (r: Option<Self>)
        ensures
            r == wm_type_of(s@),
    {
        let w = crate::text::chars_of(s);
        Self::parse_chars(&w)
    }

    pub(crate) fn parse_chars(w: &Vec<char>) -> (r: Option<Self>)
        ensures
            r == wm_type_of(w@),
    {
        if chars_eq_str(w, "unset") {
            Some(Self::Unset)
        } else if chars_eq_str(w, "normal") {
            Some(Self::Normal)
        } else if chars_eq_str(w, "dialog") {
            Some(Self::Dialog)
        } else if chars_eq_str(w, "menu") {
            Some(Self::Menu)
        } else if chars_eq_str(w, "popup-menu") {
            Some(Self::PopupMenu)
        } else if chars_eq_str(w, "dropdown-menu") {
            Some(Self::DropdownMenu)
        } else if chars_eq_str(w, "tooltip") {
            Some(Self::Tooltip)
        } else if chars_eq_str(w, "notification") {
            Some(Self::Notification)
        } else if chars_eq_str(w, "splash") {
            Some(Self::Splash)
        } else if chars_eq_str(w, "dnd") {
            Some(Self::Dnd)
        } else if chars_eq_str(w, "combo") {
            Some(Self::Combo)
        } else if chars_eq_str(w, "utility") {
            Some(Self::Utility)
        } else if chars_eq_str(w, "toolbar") {
            Some(Self::Toolbar)
        } else if chars_eq_str(w, "dock") {
            Some(Self::Dock)
        } else {
            None
        }
    }

    /// Every type, for the scenario that walks them one at a time.
    pub fn all() -> (r: [WmType; 14])
        ensures
            r@ == all_wm_types(),
    {
        [
            Self::Unset,
            Self::Normal,
            Self::Dialog,
            Self::Menu,
            Self::PopupMenu,
            Self::DropdownMenu,
            Self::Tooltip,
            Self::Notification,
            Self::Splash,
            Self::Dnd,
            Self::Combo,
            Self::Utility,
            Self::Toolbar,
            Self::Dock,
        ]
    }
}

impl IconSpec {
    /// The wire token.
    pub fn token(self) -> (r: &'static str)
        ensures
            r@ == icon_word(self),
    {
        match self {
            Self::Absent => "none",
            Self::Single => "single",
            Self::Pyramid => "pyramid",
            Self::LargeFirst => "large-first",
            Self::Oversize => "oversize",
            Self::Truncated => "truncated",
            Self::Zero => "zero",
            Self::Alpha => "alpha",
        }
    }

    /// Read a wire token.
    pub fn parse(s: &str) -> (r: Option<Self>)
        ensures
            r == icon_of(s@),
    {
        let w = crate::text::chars_of(s);
        Self::parse_chars(&w)
    }

    pub(crate) fn parse_chars(w: &Vec<char>) -> (r: Option<Self>)
        ensures
            r == icon_of(w@),
    {
        if chars_eq_str(w, "none") {
            Some(Self::Absent)
        } else if chars_eq_str(w, "single") {
            Some(Self::Single)
        } else if chars_eq_str(w, "pyramid") {
            Some(Self::Pyramid)
        } else if chars_eq_str(w, "large-first") {
            Some(Self::LargeFirst)
        } else if chars_eq_str(w, "oversize") {
            Some(Self::Oversize)
        } else if chars_eq_str(w, "truncated") {
            Some(Self::Truncated)
        } else if chars_eq_str(w, "zero") {
            Some(Self::Zero)
        } else if chars_eq_str(w, "alpha") {
            Some(Self::Alpha)
        } else {
            None
        }
    }

    /// Every shape, in declaration order.
    pub fn all() -> (r: [IconSpec; 8])
        ensures
            r@ == all_icon_specs(),
    {
        [
            Self::Absent,
            Self::Single,
            Self::Pyramid,
            Self::LargeFirst,
            Self::Oversize,
            Self::Truncated,
            Self::Zero,
            Self::Alpha,
        ]
    }
}

fn onoff(v: bool) -> (r: &'static str)
    ensures
        r@ == on_word(v),
{
    if v {
        "on"
    } else {
        "off"
    }
}

fn close_mode_tok(m: CloseMode) -> (r: &'static str)
    ensures
        r@ == close_mode_word(m),
{
    match m {
        CloseMode::Delete => "delete",
        CloseMode::NoDelete => "nodelete",
    }
}

// ---------------------------------------------------------------------------------
// The wire form
// ---------------------------------------------------------------------------------

/// The words of a command's wire line, verb first, for every command without free text.
pub open spec fn words(c: Command) -> Seq<Seq<char>> {
    match c {
        Command::MapWindow(w, h) => seq!["map"@, int_text(w as int), int_text(h as int)],
        Command::MapArgb(w, h) => seq!["map-argb"@, int_text(w as int), int_text(h as int)],
        Command::Opacity(id, v) => seq!["opacity"@, int_text(id as int), int_text(v as int)],
        Command::MapTransient(id, w, h) => seq![
            "map-transient"@,
            int_text(id as int),
            int_text(w as int),
            int_text(h as int),
        ],
        Command::Unmap(id) => seq!["unmap"@, int_text(id as int)],
        Command::Remap(id) => seq!["remap"@, int_text(id as int)],
        Command::Destroy(id) => seq!["destroy"@, int_text(id as int)],
        Command::Title(id, _) => seq!["title"@, int_text(id as int)],
        Command::Class(id, _) => seq!["class"@, int_text(id as int)],
        Command::Pid(id, p) => seq!["pid"@, int_text(id as int), int_text(p as int)],
        Command::Fullscreen(id, on) => seq!["fullscreen"@, int_text(id as int), on_word(on)],
        Command::InputModel(id, m) => seq!["input-model"@, int_text(id as int), input_model_word(m)],
        Command::CloseMode(id, m) => seq!["close-mode"@, int_text(id as int), close_mode_word(m)],
        Command::WindowType(id, t) => seq!["window-type"@, int_text(id as int), wm_type_word(t)],
        Command::Icon(id, s) => seq!["icon"@, int_text(id as int), icon_word(s)],
        Command::IconNext(s) => seq!["icon-next"@, icon_word(s)],
        Command::Modal(id, on) => seq!["modal"@, int_text(id as int), on_word(on)],
        Command::SkipTaskbar(id, on) => seq!["skip-taskbar"@, int_text(id as int), on_word(on)],
        Command::TransientFor(id, p) => seq!["transient-for"@, int_text(id as int), int_text(p as int)],
        Command::Or(id, dx, dy, w, h) => seq![
            "or"@,
            int_text(id as int),
            int_text(dx as int),
            int_text(dy as int),
            int_text(w as int),
            int_text(h as int),
        ],
        Command::MapChild(id, dx, dy, w, h, or, t) => seq![
            "map-child"@,
            int_text(id as int),
            int_text(dx as int),
            int_text(dy as int),
            int_text(w as int),
            int_text(h as int),
            child_word(or),
            wm_type_word(t),
        ],
        Command::OrReanchor(id, dx, dy) => seq![
            "or-reanchor"@,
            int_text(id as int),
            int_text(dx as int),
            int_text(dy as int),
        ],
        Command::OrChain(id, dx, dy) => seq![
            "or-chain"@,
            int_text(id as int),
            int_text(dx as int),
            int_text(dy as int),
        ],
        Command::ResizeRequest(id, w, h) => seq![
            "resize-request"@,
            int_text(id as int),
            int_text(w as int),
            int_text(h as int),
        ],
        Command::MoveRequest(id, x, y) => seq![
            "move-request"@,
            int_text(id as int),
            int_text(x as int),
            int_text(y as int),
        ],
        Command::Raise(id) => seq!["raise"@, int_text(id as int)],
        Command::Lower(id) => seq!["lower"@, int_text(id as int)],
        Command::SelfMove(id, x, y) => seq![
            "self-move"@,
            int_text(id as int),
            int_text(x as int),
            int_text(y as int),
        ],
        Command::SelfResize(id, w, h) => seq![
            "self-resize"@,
            int_text(id as int),
            int_text(w as int),
            int_text(h as int),
        ],
        Command::SelfMoveResize(id, x, y, w, h) => seq![
            "self-move-resize"@,
            int_text(id as int),
            int_text(x as int),
            int_text(y as int),
            int_text(w as int),
            int_text(h as int),
        ],
        Command::DndTarget(id) => seq!["dnd-target"@, int_text(id as int)],
        Command::DndSource(id) => seq!["dnd-source"@, int_text(id as int)],
        Command::DndDrop => seq!["dnd-drop"@],
        Command::DndCancel => seq!["dnd-cancel"@],
        Command::Copy(_) => seq!["copy"@],
        Command::Paste => seq!["paste"@],
        Command::StormResize(id, n) => seq!["storm-resize"@, int_text(id as int), int_text(n as int)],
        Command::StormReanchor(id, n) => seq![
            "storm-reanchor"@,
            int_text(id as int),
            int_text(n as int),
        ],
        Command::Info => seq!["info"@],
        Command::Stack => seq!["stack"@],
        Command::Pointer => seq!["pointer"@],
        Command::Quit => seq!["quit"@],
    }
}

/// The free text a command carries at the end of its line, if any.
pub open spec fn text_of(c: Command) -> Option<Seq<char>> {
    match c {
        Command::Title(_, t) => Some(t@),
        Command::Class(_, t) => Some(t@),
        Command::Copy(t) => Some(t@),
        _ => None,
    }
}

/// The wire line of a command: its words, then a space and its free text if it has one.
pub open spec fn encode_spec(c: Command) -> Seq<char> {
    match text_of(c) {
        Some(t) => join_sp(words(c)) + seq![' '] + t,
        None => join_sp(words(c)),
    }
}

/// Two commands say the same thing: same variant and arguments, text compared by content.
pub open spec fn same_command(a: Command, b: Command) -> bool {
    match (a, b) {
        (Command::Title(i, t), Command::Title(j, u)) => i == j && t@ == u@,
        (Command::Class(i, t), Command::Class(j, u)) => i == j && t@ == u@,
        (Command::Copy(t), Command::Copy(u)) => t@ == u@,
        _ => a == b,
    }
}

pub open spec fn u8_at(ws: Seq<Seq<char>>, k: int) -> Option<int> {
    int_at(ws, k, false, 0, u8::MAX as int)
}

pub open spec fn u16_at(ws: Seq<Seq<char>>, k: int) -> Option<int> {
    int_at(ws, k, false, 0, u16::MAX as int)
}

pub open spec fn u32_at(ws: Seq<Seq<char>>, k: int) -> Option<int> {
    int_at(ws, k, false, 0, u32::MAX as int)
}

pub open spec fn i16_at(ws: Seq<Seq<char>>, k: int) -> Option<int> {
    int_at(ws, k, true, i16::MIN as int, i16::MAX as int)
}

pub open spec fn word_of<T>(ws: Seq<Seq<char>>, k: int, f: spec_fn(Seq<char>) -> Option<T>) -> Option<
    T,
> {
    match word_at(ws, k) {
        Some(w) => f(w),
        None => None,
    }
}

/// Reading for the window-creation and property verbs.
pub open spec fn reads_props(ws: Seq<Seq<char>>, c: Command) -> bool {
    let v = ws[0];
    if v == "map"@ {
        match (u16_at(ws, 1), u16_at(ws, 2)) {
            (Some(w), Some(h)) => c == Command::MapWindow(w as u16, h as u16),
            _ => false,
        }
    } else if v == "map-argb"@ {
        match (u16_at(ws, 1), u16_at(ws, 2)) {
            (Some(w), Some(h)) => c == Command::MapArgb(w as u16, h as u16),
            _ => false,
        }
    } else if v == "opacity"@ {
        match (u32_at(ws, 1), u8_at(ws, 2)) {
            (Some(id), Some(o)) => c == Command::Opacity(id as u32, o as u8),
            _ => false,
        }
    } else if v == "map-transient"@ {
        match (u32_at(ws, 1), u16_at(ws, 2), u16_at(ws, 3)) {
            (Some(id), Some(w), Some(h)) => c == Command::MapTransient(id as u32, w as u16, h as u16),
            _ => false,
        }
    } else if v == "unmap"@ {
        match u32_at(ws, 1) {
            Some(id) => c == Command::Unmap(id as u32),
            _ => false,
        }
    } else if v == "remap"@ {
        match u32_at(ws, 1) {
            Some(id) => c == Command::Remap(id as u32),
            _ => false,
        }
    } else if v == "destroy"@ {
        match u32_at(ws, 1) {
            Some(id) => c == Command::Destroy(id as u32),
            _ => false,
        }
    } else if v == "title"@ {
        match u32_at(ws, 1) {
            Some(id) => c matches Command::Title(i, _) && i == id,
            _ => false,
        }
    } else if v == "class"@ {
        match u32_at(ws, 1) {
            Some(id) => c matches Command::Class(i, _) && i == id,
            _ => false,
        }
    } else if v == "pid"@ {
        match (u32_at(ws, 1), u32_at(ws, 2)) {
            (Some(id), Some(p)) => c == Command::Pid(id as u32, p as u32),
            _ => false,
        }
    } else if v == "fullscreen"@ {
        match (u32_at(ws, 1), on_at(ws, 2)) {
            (Some(id), Some(on)) => c == Command::Fullscreen(id as u32, on),
            _ => false,
        }
    } else if v == "input-model"@ {
        match (u32_at(ws, 1), word_of(ws, 2, |w| input_model_of(w))) {
            (Some(id), Some(m)) => c == Command::InputModel(id as u32, m),
            _ => false,
        }
    } else if v == "close-mode"@ {
        match (u32_at(ws, 1), word_of(ws, 2, |w| close_mode_of(w))) {
            (Some(id), Some(m)) => c == Command::CloseMode(id as u32, m),
            _ => false,
        }
    } else if v == "window-type"@ {
        match (u32_at(ws, 1), word_of(ws, 2, |w| wm_type_of(w))) {
            (Some(id), Some(t)) => c == Command::WindowType(id as u32, t),
            _ => false,
        }
    } else if v == "icon"@ {
        match (u32_at(ws, 1), word_of(ws, 2, |w| icon_of(w))) {
            (Some(id), Some(s)) => c == Command::Icon(id as u32, s),
            _ => false,
        }
    } else if v == "icon-next"@ {
        match word_of(ws, 1, |w| icon_of(w)) {
            Some(s) => c == Command::IconNext(s),
            _ => false,
        }
    } else {
        reads_geometry(ws, c)
    }
}

/// Reading for the state, child and geometry verbs.
pub open spec fn reads_geometry(ws: Seq<Seq<char>>, c: Command) -> bool {
    let v = ws[0];
    if v == "modal"@ {
        match (u32_at(ws, 1), on_at(ws, 2)) {
            (Some(id), Some(on)) => c == Command::Modal(id as u32, on),
            _ => false,
        }
    } else if v == "skip-taskbar"@ {
        match (u32_at(ws, 1), on_at(ws, 2)) {
            (Some(id), Some(on)) => c == Command::SkipTaskbar(id as u32, on),
            _ => false,
        }
    } else if v == "transient-for"@ {
        match (u32_at(ws, 1), u32_at(ws, 2)) {
            (Some(id), Some(p)) => c == Command::TransientFor(id as u32, p as u32),
            _ => false,
        }
    } else if v == "map-child"@ {
        match (u32_at(ws, 1), i16_at(ws, 2), i16_at(ws, 3), u16_at(ws, 4), u16_at(ws, 5)) {
            (Some(id), Some(dx), Some(dy), Some(w), Some(h)) => match (
                word_of(ws, 6, |x| child_of(x)),
                word_of(ws, 7, |x| wm_type_of(x)),
            ) {
                (Some(or), Some(t)) => c == Command::MapChild(
                    id as u32,
                    dx as i16,
                    dy as i16,
                    w as u16,
                    h as u16,
                    or,
                    t,
                ),
                _ => false,
            },
            _ => false,
        }
    } else if v == "or"@ {
        match (u32_at(ws, 1), i16_at(ws, 2), i16_at(ws, 3), u16_at(ws, 4), u16_at(ws, 5)) {
            (Some(id), Some(dx), Some(dy), Some(w), Some(h)) => c == Command::Or(
                id as u32,
                dx as i16,
                dy as i16,
                w as u16,
                h as u16,
            ),
            _ => false,
        }
    } else if v == "or-reanchor"@ {
        match (u32_at(ws, 1), i16_at(ws, 2), i16_at(ws, 3)) {
            (Some(id), Some(dx), Some(dy)) => c == Command::OrReanchor(id as u32, dx as i16, dy as i16),
            _ => false,
        }
    } else if v == "or-chain"@ {
        match (u32_at(ws, 1), i16_at(ws, 2), i16_at(ws, 3)) {
            (Some(id), Some(dx), Some(dy)) => c == Command::OrChain(id as u32, dx as i16, dy as i16),
            _ => false,
        }
    } else if v == "resize-request"@ {
        match (u32_at(ws, 1), u16_at(ws, 2), u16_at(ws, 3)) {
            (Some(id), Some(w), Some(h)) => c == Command::ResizeRequest(id as u32, w as u16, h as u16),
            _ => false,
        }
    } else if v == "move-request"@ {
        match (u32_at(ws, 1), i16_at(ws, 2), i16_at(ws, 3)) {
            (Some(id), Some(x), Some(y)) => c == Command::MoveRequest(id as u32, x as i16, y as i16),
            _ => false,
        }
    } else if v == "raise"@ {
        match u32_at(ws, 1) {
            Some(id) => c == Command::Raise(id as u32),
            _ => false,
        }
    } else if v == "lower"@ {
        match u32_at(ws, 1) {
            Some(id) => c == Command::Lower(id as u32),
            _ => false,
        }
    } else if v == "self-move"@ {
        match (u32_at(ws, 1), i16_at(ws, 2), i16_at(ws, 3)) {
            (Some(id), Some(x), Some(y)) => c == Command::SelfMove(id as u32, x as i16, y as i16),
            _ => false,
        }
    } else if v == "self-resize"@ {
        match (u32_at(ws, 1), u16_at(ws, 2), u16_at(ws, 3)) {
            (Some(id), Some(w), Some(h)) => c == Command::SelfResize(id as u32, w as u16, h as u16),
            _ => false,
        }
    } else if v == "self-move-resize"@ {
        match (u32_at(ws, 1), i16_at(ws, 2), i16_at(ws, 3), u16_at(ws, 4), u16_at(ws, 5)) {
            (Some(id), Some(x), Some(y), Some(w), Some(h)) => c == Command::SelfMoveResize(
                id as u32,
                x as i16,
                y as i16,
                w as u16,
                h as u16,
            ),
            _ => false,
        }
    } else {
        reads_session(ws, c)
    }
}

/// Reading for the drag-and-drop, clipboard, storm and introspection verbs.
pub open spec fn reads_session(ws: Seq<Seq<char>>, c: Command) -> bool {
    let v = ws[0];
    if v == "dnd-target"@ {
        match u32_at(ws, 1) {
            Some(id) => c == Command::DndTarget(id as u32),
            _ => false,
        }
    } else if v == "dnd-source"@ {
        match u32_at(ws, 1) {
            Some(id) => c == Command::DndSource(id as u32),
            _ => false,
        }
    } else if v == "dnd-drop"@ {
        c == Command::DndDrop
    } else if v == "dnd-cancel"@ {
        c == Command::DndCancel
    } else if v == "copy"@ {
        c is Copy
    } else if v == "paste"@ {
        c == Command::Paste
    } else if v == "storm-resize"@ {
        match (u32_at(ws, 1), u32_at(ws, 2)) {
            (Some(id), Some(n)) => c == Command::StormResize(id as u32, n as u32),
            _ => false,
        }
    } else if v == "storm-reanchor"@ {
        match (u32_at(ws, 1), u32_at(ws, 2)) {
            (Some(id), Some(n)) => c == Command::StormReanchor(id as u32, n as u32),
            _ => false,
        }
    } else if v == "info"@ {
        c == Command::Info
    } else if v == "stack"@ {
        c == Command::Stack
    } else if v == "pointer"@ {
        c == Command::Pointer
    } else if v == "quit"@ || v == "exit"@ {
        c == Command::Quit
    } else {
        false
    }
}

/// The words `ws` read as the command `c`: the verb picks the command and the words
/// after it are its arguments (the text of a text-carrying verb is read from the line,
/// [`text_fits`]).
pub open spec fn reads_as(ws: Seq<Seq<char>>, c: Command) -> bool {
    ws.len() > 0 && reads_props(ws, c)
}

/// The free text of a text-carrying command is the rest of its line after the verb (and
/// the id), unchanged. Other commands carry no text.
pub open spec fn text_fits(line: Seq<char>, c: Command) -> bool {
    match c {
        Command::Title(_, t) => t@ == rest_of_line(line, 2),
        Command::Class(_, t) => t@ == rest_of_line(line, 2),
        Command::Copy(t) => t@ == rest_of_line(line, 1),
        _ => true,
    }
}

/// A line reads as the command `c`: its words pick the command and its arguments, and
/// the rest of the line is its text.
pub open spec fn line_reads_as(line: Seq<char>, c: Command) -> bool {
    reads_as(split_ws(line), c) && text_fits(line, c)
}

fn u8_arg(toks: &Vec<Vec<char>>, k: usize) -> (r: Option<u8>)
    ensures
        match r {
            Some(v) => u8_at(views(toks@), k as int) == Some(v as int),
            None => u8_at(views(toks@), k as int) is None,
        },
{
    match int_arg(toks, k, false, 0, u8::MAX as i64) {
        Some(v) => Some(v as u8),
        None => None,
    }
}

fn u16_arg(toks: &Vec<Vec<char>>, k: usize) -> (r: Option<u16>)
    ensures
        match r {
            Some(v) => u16_at(views(toks@), k as int) == Some(v as int),
            None => u16_at(views(toks@), k as int) is None,
        },
{
    match int_arg(toks, k, false, 0, u16::MAX as i64) {
        Some(v) => Some(v as u16),
        None => None,
    }
}

fn u32_arg(toks: &Vec<Vec<char>>, k: usize) -> (r: Option<u32>)
    ensures
        match r {
            Some(v) => u32_at(views(toks@), k as int) == Some(v as int),
            None => u32_at(views(toks@), k as int) is None,
        },
{
    match int_arg(toks, k, false, 0, u32::MAX as i64) {
        Some(v) => Some(v as u32),
        None => None,
    }
}

fn i16_arg(toks: &Vec<Vec<char>>, k: usize) -> (r: Option<i16>)
    ensures
        match r {
            Some(v) => i16_at(views(toks@), k as int) == Some(v as int),
            None => i16_at(views(toks@), k as int) is None,
        },
{
    match int_arg(toks, k, true, i16::MIN as i64, i16::MAX as i64) {
        Some(v) => Some(v as i16),
        None => None,
    }
}

fn input_model_arg(toks: &Vec<Vec<char>>, k: usize) -> (r: Option<InputModel>)
    ensures
        r == word_of(views(toks@), k as int, |w| input_model_of(w)),
{
    if k < toks.len() {
        assert(views(toks@)[k as int] == toks@[k as int]@);
        InputModel::parse_chars(&toks[k])
    } else {
        None
    }
}

fn wm_type_arg(toks: &Vec<Vec<char>>, k: usize) -> (r: Option<WmType>)
    ensures
        r == word_of(views(toks@), k as int, |w| wm_type_of(w)),
{
    if k < toks.len() {
        assert(views(toks@)[k as int] == toks@[k as int]@);
        WmType::parse_chars(&toks[k])
    } else {
        None
    }
}

fn icon_arg(toks: &Vec<Vec<char>>, k: usize) -> (r: Option<IconSpec>)
    ensures
        r == word_of(views(toks@), k as int, |w| icon_of(w)),
{
    if k < toks.len() {
        assert(views(toks@)[k as int] == toks@[k as int]@);
        IconSpec::parse_chars(&toks[k])
    } else {
        None
    }
}

fn close_mode_arg(toks: &Vec<Vec<char>>, k: usize) -> (r: Option<CloseMode>)
    ensures
        r == word_of(views(toks@), k as int, |w| close_mode_of(w)),
{
    if word_is(toks, k, "delete") {
        Some(CloseMode::Delete)
    } else if word_is(toks, k, "nodelete") {
        Some(CloseMode::NoDelete)
    } else {
        None
    }
}

fn child_arg(toks: &Vec<Vec<char>>, k: usize) -> (r: Option<bool>)
    ensures
        r == word_of(views(toks@), k as int, |w| child_of(w)),
{
    if word_is(toks, k, "or") || word_is(toks, k, "override-redirect") {
        Some(true)
    } else if word_is(toks, k, "managed") {
        Some(false)
    } else {
        None
    }
}

fn parse_props(toks: &Vec<Vec<char>>, line: &Vec<char>) -> (r: Option<Command>)
    requires
        toks.len() > 0,
    ensures
        match r {
            Some(c) => reads_props(views(toks@), c) && text_fits(line@, c),
            None => forall|c: Command| !reads_props(views(toks@), c),
        },
{
    let ghost ws = views(toks@);
    assert(ws[0] == toks@[0]@);
    let v = &toks[0];
    if chars_eq_str(v, "map") {
        match (u16_arg(toks, 1), u16_arg(toks, 2)) {
            (Some(w), Some(h)) => Some(Command::MapWindow(w, h)),
            _ => None,
        }
    } else if chars_eq_str(v, "map-argb") {
        match (u16_arg(toks, 1), u16_arg(toks, 2)) {
            (Some(w), Some(h)) => Some(Command::MapArgb(w, h)),
            _ => None,
        }
    } else if chars_eq_str(v, "opacity") {
        match (u32_arg(toks, 1), u8_arg(toks, 2)) {
            (Some(id), Some(o)) => Some(Command::Opacity(id, o)),
            _ => None,
        }
    } else if chars_eq_str(v, "map-transient") {
        match (u32_arg(toks, 1), u16_arg(toks, 2), u16_arg(toks, 3)) {
            (Some(id), Some(w), Some(h)) => Some(Command::MapTransient(id, w, h)),
            _ => None,
        }
    } else if chars_eq_str(v, "unmap") {
        match u32_arg(toks, 1) {
            Some(id) => Some(Command::Unmap(id)),
            _ => None,
        }
    } else if chars_eq_str(v, "remap") {
        match u32_arg(toks, 1) {
            Some(id) => Some(Command::Remap(id)),
            _ => None,
        }
    } else if chars_eq_str(v, "destroy") {
        match u32_arg(toks, 1) {
            Some(id) => Some(Command::Destroy(id)),
            _ => None,
        }
    } else if chars_eq_str(v, "title") {
        match u32_arg(toks, 1) {
            Some(id) => {
                let t = rest_text(line, 2);
                Some(Command::Title(id, t))
            },
            _ => None,
        }
    } else if chars_eq_str(v, "class") {
        match u32_arg(toks, 1) {
            Some(id) => {
                let t = rest_text(line, 2);
                Some(Command::Class(id, t))
            },
            _ => None,
        }
    } else if chars_eq_str(v, "pid") {
        match (u32_arg(toks, 1), u32_arg(toks, 2)) {
            (Some(id), Some(p)) => Some(Command::Pid(id, p)),
            _ => None,
        }
    } else if chars_eq_str(v, "fullscreen") {
        match (u32_arg(toks, 1), on_arg(toks, 2)) {
            (Some(id), Some(on)) => Some(Command::Fullscreen(id, on)),
            _ => None,
        }
    } else if chars_eq_str(v, "input-model") {
        match (u32_arg(toks, 1), input_model_arg(toks, 2)) {
            (Some(id), Some(m)) => Some(Command::InputModel(id, m)),
            _ => None,
        }
    } else if chars_eq_str(v, "close-mode") {
        match (u32_arg(toks, 1), close_mode_arg(toks, 2)) {
            (Some(id), Some(m)) => Some(Command::CloseMode(id, m)),
            _ => None,
        }
    } else if chars_eq_str(v, "window-type") {
        match (u32_arg(toks, 1), wm_type_arg(toks, 2)) {
            (Some(id), Some(t)) => Some(Command::WindowType(id, t)),
            _ => None,
        }
    } else if chars_eq_str(v, "icon") {
        match (u32_arg(toks, 1), icon_arg(toks, 2)) {
            (Some(id), Some(s)) => Some(Command::Icon(id, s)),
            _ => None,
        }
    } else if chars_eq_str(v, "icon-next") {
        match icon_arg(toks, 1) {
            Some(s) => Some(Command::IconNext(s)),
            _ => None,
        }
    } else {
        parse_geometry(toks, line)
    }
}

fn parse_geometry(toks: &Vec<Vec<char>>, line: &Vec<char>) -> (r: Option<Command>)
    requires
        toks.len() > 0,
    ensures
        match r {
            Some(c) => reads_geometry(views(toks@), c) && text_fits(line@, c),
            None => forall|c: Command| !reads_geometry(views(toks@), c),
        },
{
    let ghost ws = views(toks@);
    assert(ws[0] == toks@[0]@);
    let v = &toks[0];
    if chars_eq_str(v, "modal") {
        match (u32_arg(toks, 1), on_arg(toks, 2)) {
            (Some(id), Some(on)) => Some(Command::Modal(id, on)),
            _ => None,
        }
    } else if chars_eq_str(v, "skip-taskbar") {
        match (u32_arg(toks, 1), on_arg(toks, 2)) {
            (Some(id), Some(on)) => Some(Command::SkipTaskbar(id, on)),
            _ => None,
        }
    } else if chars_eq_str(v, "transient-for") {
        match (u32_arg(toks, 1), u32_arg(toks, 2)) {
            (Some(id), Some(p)) => Some(Command::TransientFor(id, p)),
            _ => None,
        }
    } else if chars_eq_str(v, "map-child") {
        match (u32_arg(toks, 1), i16_arg(toks, 2), i16_arg(toks, 3), u16_arg(toks, 4), u16_arg(toks, 5)) {
            (Some(id), Some(dx), Some(dy), Some(w), Some(h)) => match (child_arg(toks, 6), wm_type_arg(toks, 7)) {
                (Some(or), Some(t)) => Some(Command::MapChild(id, dx, dy, w, h, or, t)),
                _ => None,
            },
            _ => None,
        }
    } else if chars_eq_str(v, "or") {
        match (u32_arg(toks, 1), i16_arg(toks, 2), i16_arg(toks, 3), u16_arg(toks, 4), u16_arg(toks, 5)) {
            (Some(id), Some(dx), Some(dy), Some(w), Some(h)) => Some(Command::Or(id, dx, dy, w, h)),
            _ => None,
        }
    } else if chars_eq_str(v, "or-reanchor") {
        match (u32_arg(toks, 1), i16_arg(toks, 2), i16_arg(toks, 3)) {
            (Some(id), Some(dx), Some(dy)) => Some(Command::OrReanchor(id, dx, dy)),
            _ => None,
        }
    } else if chars_eq_str(v, "or-chain") {
        match (u32_arg(toks, 1), i16_arg(toks, 2), i16_arg(toks, 3)) {
            (Some(id), Some(dx), Some(dy)) => Some(Command::OrChain(id, dx, dy)),
            _ => None,
        }
    } else if chars_eq_str(v, "resize-request") {
        match (u32_arg(toks, 1), u16_arg(toks, 2), u16_arg(toks, 3)) {
            (Some(id), Some(w), Some(h)) => Some(Command::ResizeRequest(id, w, h)),
            _ => None,
        }
    } else if chars_eq_str(v, "move-request") {
        match (u32_arg(toks, 1), i16_arg(toks, 2), i16_arg(toks, 3)) {
            (Some(id), Some(x), Some(y)) => Some(Command::MoveRequest(id, x, y)),
            _ => None,
        }
    } else if chars_eq_str(v, "raise") {
        match u32_arg(toks, 1) {
            Some(id) => Some(Command::Raise(id)),
            _ => None,
        }
    } else if chars_eq_str(v, "lower") {
        match u32_arg(toks, 1) {
            Some(id) => Some(Command::Lower(id)),
            _ => None,
        }
    } else if chars_eq_str(v, "self-move") {
        match (u32_arg(toks, 1), i16_arg(toks, 2), i16_arg(toks, 3)) {
            (Some(id), Some(x), Some(y)) => Some(Command::SelfMove(id, x, y)),
            _ => None,
        }
    } else if chars_eq_str(v, "self-resize") {
        match (u32_arg(toks, 1), u16_arg(toks, 2), u16_arg(toks, 3)) {
            (Some(id), Some(w), Some(h)) => Some(Command::SelfResize(id, w, h)),
            _ => None,
        }
    } else if chars_eq_str(v, "self-move-resize") {
        match (u32_arg(toks, 1), i16_arg(toks, 2), i16_arg(toks, 3), u16_arg(toks, 4), u16_arg(toks, 5)) {
            (Some(id), Some(x), Some(y), Some(w), Some(h)) => Some(Command::SelfMoveResize(id, x, y, w, h)),
            _ => None,
        }
    } else {
        parse_session(toks, line)
    }
}

fn parse_session(toks: &Vec<Vec<char>>, line: &Vec<char>) -> (r: Option<Command>)
    requires
        toks.len() > 0,
    ensures
        match r {
            Some(c) => reads_session(views(toks@), c) && text_fits(line@, c),
            None => forall|c: Command| !reads_session(views(toks@), c),
        },
{
    let ghost ws = views(toks@);
    assert(ws[0] == toks@[0]@);
    let v = &toks[0];
    if chars_eq_str(v, "dnd-target") {
        match u32_arg(toks, 1) {
            Some(id) => Some(Command::DndTarget(id)),
            _ => None,
        }
    } else if chars_eq_str(v, "dnd-source") {
        match u32_arg(toks, 1) {
            Some(id) => Some(Command::DndSource(id)),
            _ => None,
        }
    } else if chars_eq_str(v, "dnd-drop") {
        Some(Command::DndDrop)
    } else if chars_eq_str(v, "dnd-cancel") {
        Some(Command::DndCancel)
    } else if chars_eq_str(v, "copy") {
        let t = rest_text(line, 1);
        Some(Command::Copy(t))
    } else if chars_eq_str(v, "paste") {
        Some(Command::Paste)
    } else if chars_eq_str(v, "storm-resize") {
        match (u32_arg(toks, 1), u32_arg(toks, 2)) {
            (Some(id), Some(n)) => Some(Command::StormResize(id, n)),
            _ => None,
        }
    } else if chars_eq_str(v, "storm-reanchor") {
        match (u32_arg(toks, 1), u32_arg(toks, 2)) {
            (Some(id), Some(n)) => Some(Command::StormReanchor(id, n)),
            _ => None,
        }
    } else if chars_eq_str(v, "info") {
        Some(Command::Info)
    } else if chars_eq_str(v, "stack") {
        Some(Command::Stack)
    } else if chars_eq_str(v, "pointer") {
        Some(Command::Pointer)
    } else if chars_eq_str(v, "quit") || chars_eq_str(v, "exit") {
        Some(Command::Quit)
    } else {
        None
    }
}

impl Command {
    /// The wire form. Round-trips through [`Self::parse`].
    pub fn encode(&self) -> (r: String)
        ensures
            r@ == encode_spec(*self),
    {
        match self {
            Self::MapWindow(w, h) => line_int2("map", *w as i64, *h as i64),
            Self::MapArgb(w, h) => line_int2("map-argb", *w as i64, *h as i64),
            Self::Opacity(id, v) => line_int2("opacity", *id as i64, *v as i64),
            Self::MapTransient(id, w, h) => line_int3("map-transient", *id as i64, *w as i64, *h as i64),
            Self::Unmap(id) => line_int("unmap", *id as i64),
            Self::Remap(id) => line_int("remap", *id as i64),
            Self::Destroy(id) => line_int("destroy", *id as i64),
            Self::Title(id, t) => line_int_text("title", *id as i64, t.as_str()),
            Self::Class(id, c) => line_int_text("class", *id as i64, c.as_str()),
            Self::Pid(id, p) => line_int2("pid", *id as i64, *p as i64),
            Self::Fullscreen(id, on) => line_int_word("fullscreen", *id as i64, onoff(*on)),
            Self::InputModel(id, m) => line_int_word("input-model", *id as i64, m.token()),
            Self::CloseMode(id, m) => line_int_word("close-mode", *id as i64, close_mode_tok(*m)),
            Self::WindowType(id, t) => line_int_word("window-type", *id as i64, t.token()),
            Self::Icon(id, spec) => line_int_word("icon", *id as i64, spec.token()),
            Self::IconNext(spec) => crate::text::line_word("icon-next", spec.token()),
            Self::Modal(id, on) => line_int_word("modal", *id as i64, onoff(*on)),
            Self::SkipTaskbar(id, on) => line_int_word("skip-taskbar", *id as i64, onoff(*on)),
            Self::TransientFor(id, p) => line_int2("transient-for", *id as i64, *p as i64),
            Self::Or(id, dx, dy, w, h) => line_int5(
                "or",
                *id as i64,
                *dx as i64,
                *dy as i64,
                *w as i64,
                *h as i64,
            ),
            Self::MapChild(id, dx, dy, w, h, or, t) => line_int5_word2(
                "map-child",
                *id as i64,
                *dx as i64,
                *dy as i64,
                *w as i64,
                *h as i64,
                if *or {
                    "or"
                } else {
                    "managed"
                },
                t.token(),
            ),
            Self::OrReanchor(id, dx, dy) => line_int3("or-reanchor", *id as i64, *dx as i64, *dy as i64),
            Self::OrChain(id, dx, dy) => line_int3("or-chain", *id as i64, *dx as i64, *dy as i64),
            Self::ResizeRequest(id, w, h) => line_int3("resize-request", *id as i64, *w as i64, *h as i64),
            Self::MoveRequest(id, x, y) => line_int3("move-request", *id as i64, *x as i64, *y as i64),
            Self::Raise(id) => line_int("raise", *id as i64),
            Self::Lower(id) => line_int("lower", *id as i64),
            Self::SelfMove(id, x, y) => line_int3("self-move", *id as i64, *x as i64, *y as i64),
            Self::SelfResize(id, w, h) => line_int3("self-resize", *id as i64, *w as i64, *h as i64),
            Self::SelfMoveResize(id, x, y, w, h) => line_int5(
                "self-move-resize",
                *id as i64,
                *x as i64,
                *y as i64,
                *w as i64,
                *h as i64,
            ),
            Self::DndTarget(id) => line_int("dnd-target", *id as i64),
            Self::DndSource(id) => line_int("dnd-source", *id as i64),
            Self::DndDrop => line_of("dnd-drop"),
            Self::DndCancel => line_of("dnd-cancel"),
            Self::Copy(t) => line_text("copy", t.as_str()),
            Self::Paste => line_of("paste"),
            Self::StormResize(id, n) => line_int2("storm-resize", *id as i64, *n as i64),
            Self::StormReanchor(id, n) => line_int2("storm-reanchor", *id as i64, *n as i64),
            Self::Info => line_of("info"),
            Self::Stack => line_of("stack"),
            Self::Pointer => line_of("pointer"),
            Self::Quit => line_of("quit"),
        }
    }

    /// Parse one wire line. `None` for an unknown verb or a bad argument; the
    /// text-carrying verbs take the rest of the line verbatim, spaces and all: everything
    /// after the verb, the id and the one whitespace character that follows them.
    pub fn parse(line: &str) -> (r: Option<Self>)
        ensures
            match r {
                Some(c) => line_reads_as(line@, c),
                None => forall|c: Command| !line_reads_as(line@, c),
            },
    {
        let toks = split_whitespace(line);
        if toks.len() == 0 {
            return None;
        }
        let chars = chars_of(line);
        parse_props(&toks, &chars)
    }
}

/// Every command, once each, with arguments that exercise the parser's shapes.
///
/// Drives the controller's self-test: the whole vocabulary encodes and parses back
/// without an X server, a compositor or a subject process.
#[verifier::rlimit(50)]
pub fn all_commands() -> (r: Vec<Command>)
    ensures
        r.len() == 59,
            r@[0] == Command::MapWindow(400, 300),
            r@[1] == Command::MapArgb(420, 300),
            r@[2] == Command::Opacity(1, 128),
            r@[3] == Command::Opacity(1, 255),
            r@[4] == Command::MapTransient(1, 200, 150),
            r@[5] == Command::Unmap(1),
            r@[6] == Command::Remap(1),
            r@[7] == Command::Destroy(2),
            r@[8] matches Command::Title(id, t) && id == 1 && t@ == "a window with spaces"@,
            r@[9] matches Command::Class(id, t) && id == 1 && t@ == "y5stress"@,
            r@[10] == Command::Pid(1, 4242),
            r@[11] == Command::Fullscreen(1, true),
            r@[12] == Command::Fullscreen(1, false),
            r@[13] == Command::InputModel(1, InputModel::NoInput),
            r@[14] == Command::InputModel(1, InputModel::Passive),
            r@[15] == Command::InputModel(1, InputModel::LocallyActive),
            r@[16] == Command::InputModel(1, InputModel::GloballyActive),
            r@[17] == Command::CloseMode(1, CloseMode::Delete),
            r@[18] == Command::CloseMode(1, CloseMode::NoDelete),
            r@[19] == Command::WindowType(1, WmType::Unset),
            r@[20] == Command::WindowType(1, WmType::Menu),
            r@[21] == Command::WindowType(1, WmType::Tooltip),
            r@[22] == Command::WindowType(1, WmType::Dialog),
            r@[23] == Command::WindowType(1, WmType::Normal),
            r@[24] == Command::Icon(1, IconSpec::Pyramid),
            r@[25] == Command::Icon(1, IconSpec::Absent),
            r@[26] == Command::IconNext(IconSpec::Single),
            r@[27] == Command::IconNext(IconSpec::Alpha),
            r@[28] == Command::Modal(1, true),
            r@[29] == Command::Modal(1, false),
            r@[30] == Command::SkipTaskbar(1, true),
            r@[31] == Command::SkipTaskbar(1, false),
            r@[32] == Command::TransientFor(2, 1),
            r@[33] == Command::TransientFor(2, 0),
            r@[34] == Command::Or(1, 40, 20, 180, 120),
            r@[35] == Command::Or(1, -40i16, -20i16, 180, 120),
            r@[36] == Command::MapChild(1, 40, 30, 200, 160, true, WmType::Menu),
            r@[37] == Command::MapChild(1, 40, 30, 200, 160, false, WmType::Dialog),
            r@[38] == Command::OrReanchor(2, 10, 10),
            r@[39] == Command::OrChain(2, 30, 30),
            r@[40] == Command::ResizeRequest(1, 640, 480),
            r@[41] == Command::MoveRequest(1, -100i16, 50),
            r@[42] == Command::Raise(1),
            r@[43] == Command::Lower(1),
            r@[44] == Command::SelfMove(2, 120, 90),
            r@[45] == Command::SelfResize(2, 240, 200),
            r@[46] == Command::SelfMoveResize(2, -60i16, 40, 260, 210),
            r@[47] == Command::DndTarget(2),
            r@[48] == Command::DndSource(1),
            r@[49] == Command::DndDrop,
            r@[50] == Command::DndCancel,
            r@[51] matches Command::Copy(t) && t@ == "clipboard text from x11"@,
            r@[52] == Command::Paste,
            r@[53] == Command::StormResize(1, 200),
            r@[54] == Command::StormReanchor(2, 200),
            r@[55] == Command::Info,
            r@[56] == Command::Stack,
            r@[57] == Command::Pointer,
            r@[58] == Command::Quit,
{
    vec![
        Command::MapWindow(400, 300),
        Command::MapArgb(420, 300),
        Command::Opacity(1, 128),
        Command::Opacity(1, 255),
        Command::MapTransient(1, 200, 150),
        Command::Unmap(1),
        Command::Remap(1),
        Command::Destroy(2),
        Command::Title(1, crate::text::string_from("a window with spaces")),
        Command::Class(1, crate::text::string_from("y5stress")),
        Command::Pid(1, 4242),
        Command::Fullscreen(1, true),
        Command::Fullscreen(1, false),
        Command::InputModel(1, InputModel::NoInput),
        Command::InputModel(1, InputModel::Passive),
        Command::InputModel(1, InputModel::LocallyActive),
        Command::InputModel(1, InputModel::GloballyActive),
        Command::CloseMode(1, CloseMode::Delete),
        Command::CloseMode(1, CloseMode::NoDelete),
        Command::WindowType(1, WmType::Unset),
        Command::WindowType(1, WmType::Menu),
        Command::WindowType(1, WmType::Tooltip),
        Command::WindowType(1, WmType::Dialog),
        Command::WindowType(1, WmType::Normal),
        Command::Icon(1, IconSpec::Pyramid),
        Command::Icon(1, IconSpec::Absent),
        Command::IconNext(IconSpec::Single),
        Command::IconNext(IconSpec::Alpha),
        Command::Modal(1, true),
        Command::Modal(1, false),
        Command::SkipTaskbar(1, true),
        Command::SkipTaskbar(1, false),
        Command::TransientFor(2, 1),
        Command::TransientFor(2, 0),
        Command::Or(1, 40, 20, 180, 120),
        Command::Or(1, -40, -20, 180, 120),
        Command::MapChild(1, 40, 30, 200, 160, true, WmType::Menu),
        Command::MapChild(1, 40, 30, 200, 160, false, WmType::Dialog),
        Command::OrReanchor(2, 10, 10),
        Command::OrChain(2, 30, 30),
        Command::ResizeRequest(1, 640, 480),
        Command::MoveRequest(1, -100, 50),
        Command::Raise(1),
        Command::Lower(1),
        Command::SelfMove(2, 120, 90),
        Command::SelfResize(2, 240, 200),
        Command::SelfMoveResize(2, -60, 40, 260, 210),
        Command::DndTarget(2),
        Command::DndSource(1),
        Command::DndDrop,
        Command::DndCancel,
        Command::Copy(crate::text::string_from("clipboard text from x11")),
        Command::Paste,
        Command::StormResize(1, 200),
        Command::StormReanchor(2, 200),
        Command::Info,
        Command::Stack,
        Command::Pointer,
        Command::Quit,
    ]
}

// ---- literal facts --------------------------------------------------------------

/// The characters of every word this module puts on or reads from the wire.
pub proof fn lemma_wire_words()
    ensures
        "none"@.len() == 4 && "none"@[0] == 'n' && "none"@[1] == 'o' && "none"@[2] == 'n' && "none"@[3] == 'e',
        "passive"@.len() == 7 && "passive"@[0] == 'p' && "passive"@[1] == 'a' && "passive"@[2] == 's' && "passive"@[3] == 's' && "passive"@[4] == 'i' && "passive"@[5] == 'v' && "passive"@[6] == 'e',
        "locally"@.len() == 7 && "locally"@[0] == 'l' && "locally"@[1] == 'o' && "locally"@[2] == 'c' && "locally"@[3] == 'a' && "locally"@[4] == 'l' && "locally"@[5] == 'l' && "locally"@[6] == 'y',
        "globally"@.len() == 8 && "globally"@[0] == 'g' && "globally"@[1] == 'l' && "globally"@[2] == 'o' && "globally"@[3] == 'b' && "globally"@[4] == 'a' && "globally"@[5] == 'l' && "globally"@[6] == 'l' && "globally"@[7] == 'y',
        "unset"@.len() == 5 && "unset"@[0] == 'u' && "unset"@[1] == 'n' && "unset"@[2] == 's' && "unset"@[3] == 'e' && "unset"@[4] == 't',
        "normal"@.len() == 6 && "normal"@[0] == 'n' && "normal"@[1] == 'o' && "normal"@[2] == 'r' && "normal"@[3] == 'm' && "normal"@[4] == 'a' && "normal"@[5] == 'l',
        "dialog"@.len() == 6 && "dialog"@[0] == 'd' && "dialog"@[1] == 'i' && "dialog"@[2] == 'a' && "dialog"@[3] == 'l' && "dialog"@[4] == 'o' && "dialog"@[5] == 'g',
        "menu"@.len() == 4 && "menu"@[0] == 'm' && "menu"@[1] == 'e' && "menu"@[2] == 'n' && "menu"@[3] == 'u',
        "popup-menu"@.len() == 10 && "popup-menu"@[0] == 'p' && "popup-menu"@[1] == 'o' && "popup-menu"@[2] == 'p' && "popup-menu"@[3] == 'u' && "popup-menu"@[4] == 'p' && "popup-menu"@[5] == '-' && "popup-menu"@[6] == 'm' && "popup-menu"@[7] == 'e' && "popup-menu"@[8] == 'n' && "popup-menu"@[9] == 'u',
        "dropdown-menu"@.len() == 13 && "dropdown-menu"@[0] == 'd' && "dropdown-menu"@[1] == 'r' && "dropdown-menu"@[2] == 'o' && "dropdown-menu"@[3] == 'p' && "dropdown-menu"@[4] == 'd' && "dropdown-menu"@[5] == 'o' && "dropdown-menu"@[6] == 'w' && "dropdown-menu"@[7] == 'n' && "dropdown-menu"@[8] == '-' && "dropdown-menu"@[9] == 'm' && "dropdown-menu"@[10] == 'e' && "dropdown-menu"@[11] == 'n' && "dropdown-menu"@[12] == 'u',
        "tooltip"@.len() == 7 && "tooltip"@[0] == 't' && "tooltip"@[1] == 'o' && "tooltip"@[2] == 'o' && "tooltip"@[3] == 'l' && "tooltip"@[4] == 't' && "tooltip"@[5] == 'i' && "tooltip"@[6] == 'p',
        "notification"@.len() == 12 && "notification"@[0] == 'n' && "notification"@[1] == 'o' && "notification"@[2] == 't' && "notification"@[3] == 'i' && "notification"@[4] == 'f' && "notification"@[5] == 'i' && "notification"@[6] == 'c' && "notification"@[7] == 'a' && "notification"@[8] == 't' && "notification"@[9] == 'i' && "notification"@[10] == 'o' && "notification"@[11] == 'n',
        "splash"@.len() == 6 && "splash"@[0] == 's' && "splash"@[1] == 'p' && "splash"@[2] == 'l' && "splash"@[3] == 'a' && "splash"@[4] == 's' && "splash"@[5] == 'h',
        "dnd"@.len() == 3 && "dnd"@[0] == 'd' && "dnd"@[1] == 'n' && "dnd"@[2] == 'd',
        "combo"@.len() == 5 && "combo"@[0] == 'c' && "combo"@[1] == 'o' && "combo"@[2] == 'm' && "combo"@[3] == 'b' && "combo"@[4] == 'o',
        "utility"@.len() == 7 && "utility"@[0] == 'u' && "utility"@[1] == 't' && "utility"@[2] == 'i' && "utility"@[3] == 'l' && "utility"@[4] == 'i' && "utility"@[5] == 't' && "utility"@[6] == 'y',
        "toolbar"@.len() == 7 && "toolbar"@[0] == 't' && "toolbar"@[1] == 'o' && "toolbar"@[2] == 'o' && "toolbar"@[3] == 'l' && "toolbar"@[4] == 'b' && "toolbar"@[5] == 'a' && "toolbar"@[6] == 'r',
        "dock"@.len() == 4 && "dock"@[0] == 'd' && "dock"@[1] == 'o' && "dock"@[2] == 'c' && "dock"@[3] == 'k',
        "single"@.len() == 6 && "single"@[0] == 's' && "single"@[1] == 'i' && "single"@[2] == 'n' && "single"@[3] == 'g' && "single"@[4] == 'l' && "single"@[5] == 'e',
        "pyramid"@.len() == 7 && "pyramid"@[0] == 'p' && "pyramid"@[1] == 'y' && "pyramid"@[2] == 'r' && "pyramid"@[3] == 'a' && "pyramid"@[4] == 'm' && "pyramid"@[5] == 'i' && "pyramid"@[6] == 'd',
        "large-first"@.len() == 11 && "large-first"@[0] == 'l' && "large-first"@[1] == 'a' && "large-first"@[2] == 'r' && "large-first"@[3] == 'g' && "large-first"@[4] == 'e' && "large-first"@[5] == '-' && "large-first"@[6] == 'f' && "large-first"@[7] == 'i' && "large-first"@[8] == 'r' && "large-first"@[9] == 's' && "large-first"@[10] == 't',
        "oversize"@.len() == 8 && "oversize"@[0] == 'o' && "oversize"@[1] == 'v' && "oversize"@[2] == 'e' && "oversize"@[3] == 'r' && "oversize"@[4] == 's' && "oversize"@[5] == 'i' && "oversize"@[6] == 'z' && "oversize"@[7] == 'e',
        "truncated"@.len() == 9 && "truncated"@[0] == 't' && "truncated"@[1] == 'r' && "truncated"@[2] == 'u' && "truncated"@[3] == 'n' && "truncated"@[4] == 'c' && "truncated"@[5] == 'a' && "truncated"@[6] == 't' && "truncated"@[7] == 'e' && "truncated"@[8] == 'd',
        "zero"@.len() == 4 && "zero"@[0] == 'z' && "zero"@[1] == 'e' && "zero"@[2] == 'r' && "zero"@[3] == 'o',
        "alpha"@.len() == 5 && "alpha"@[0] == 'a' && "alpha"@[1] == 'l' && "alpha"@[2] == 'p' && "alpha"@[3] == 'h' && "alpha"@[4] == 'a',
        "delete"@.len() == 6 && "delete"@[0] == 'd' && "delete"@[1] == 'e' && "delete"@[2] == 'l' && "delete"@[3] == 'e' && "delete"@[4] == 't' && "delete"@[5] == 'e',
        "nodelete"@.len() == 8 && "nodelete"@[0] == 'n' && "nodelete"@[1] == 'o' && "nodelete"@[2] == 'd' && "nodelete"@[3] == 'e' && "nodelete"@[4] == 'l' && "nodelete"@[5] == 'e' && "nodelete"@[6] == 't' && "nodelete"@[7] == 'e',
        "or"@.len() == 2 && "or"@[0] == 'o' && "or"@[1] == 'r',
        "managed"@.len() == 7 && "managed"@[0] == 'm' && "managed"@[1] == 'a' && "managed"@[2] == 'n' && "managed"@[3] == 'a' && "managed"@[4] == 'g' && "managed"@[5] == 'e' && "managed"@[6] == 'd',
        "override-redirect"@.len() == 17 && "override-redirect"@[0] == 'o' && "override-redirect"@[1] == 'v' && "override-redirect"@[2] == 'e' && "override-redirect"@[3] == 'r' && "override-redirect"@[4] == 'r' && "override-redirect"@[5] == 'i' && "override-redirect"@[6] == 'd' && "override-redirect"@[7] == 'e' && "override-redirect"@[8] == '-' && "override-redirect"@[9] == 'r' && "override-redirect"@[10] == 'e' && "override-redirect"@[11] == 'd' && "override-redirect"@[12] == 'i' && "override-redirect"@[13] == 'r' && "override-redirect"@[14] == 'e' && "override-redirect"@[15] == 'c' && "override-redirect"@[16] == 't',
        "map"@.len() == 3 && "map"@[0] == 'm' && "map"@[1] == 'a' && "map"@[2] == 'p',
        "map-argb"@.len() == 8 && "map-argb"@[0] == 'm' && "map-argb"@[1] == 'a' && "map-argb"@[2] == 'p' && "map-argb"@[3] == '-' && "map-argb"@[4] == 'a' && "map-argb"@[5] == 'r' && "map-argb"@[6] == 'g' && "map-argb"@[7] == 'b',
        "opacity"@.len() == 7 && "opacity"@[0] == 'o' && "opacity"@[1] == 'p' && "opacity"@[2] == 'a' && "opacity"@[3] == 'c' && "opacity"@[4] == 'i' && "opacity"@[5] == 't' && "opacity"@[6] == 'y',
        "map-transient"@.len() == 13 && "map-transient"@[0] == 'm' && "map-transient"@[1] == 'a' && "map-transient"@[2] == 'p' && "map-transient"@[3] == '-' && "map-transient"@[4] == 't' && "map-transient"@[5] == 'r' && "map-transient"@[6] == 'a' && "map-transient"@[7] == 'n' && "map-transient"@[8] == 's' && "map-transient"@[9] == 'i' && "map-transient"@[10] == 'e' && "map-transient"@[11] == 'n' && "map-transient"@[12] == 't',
        "unmap"@.len() == 5 && "unmap"@[0] == 'u' && "unmap"@[1] == 'n' && "unmap"@[2] == 'm' && "unmap"@[3] == 'a' && "unmap"@[4] == 'p',
        "remap"@.len() == 5 && "remap"@[0] == 'r' && "remap"@[1] == 'e' && "remap"@[2] == 'm' && "remap"@[3] == 'a' && "remap"@[4] == 'p',
        "destroy"@.len() == 7 && "destroy"@[0] == 'd' && "destroy"@[1] == 'e' && "destroy"@[2] == 's' && "destroy"@[3] == 't' && "destroy"@[4] == 'r' && "destroy"@[5] == 'o' && "destroy"@[6] == 'y',
        "title"@.len() == 5 && "title"@[0] == 't' && "title"@[1] == 'i' && "title"@[2] == 't' && "title"@[3] == 'l' && "title"@[4] == 'e',
        "class"@.len() == 5 && "class"@[0] == 'c' && "class"@[1] == 'l' && "class"@[2] == 'a' && "class"@[3] == 's' && "class"@[4] == 's',
        "pid"@.len() == 3 && "pid"@[0] == 'p' && "pid"@[1] == 'i' && "pid"@[2] == 'd',
        "fullscreen"@.len() == 10 && "fullscreen"@[0] == 'f' && "fullscreen"@[1] == 'u' && "fullscreen"@[2] == 'l' && "fullscreen"@[3] == 'l' && "fullscreen"@[4] == 's' && "fullscreen"@[5] == 'c' && "fullscreen"@[6] == 'r' && "fullscreen"@[7] == 'e' && "fullscreen"@[8] == 'e' && "fullscreen"@[9] == 'n',
        "input-model"@.len() == 11 && "input-model"@[0] == 'i' && "input-model"@[1] == 'n' && "input-model"@[2] == 'p' && "input-model"@[3] == 'u' && "input-model"@[4] == 't' && "input-model"@[5] == '-' && "input-model"@[6] == 'm' && "input-model"@[7] == 'o' && "input-model"@[8] == 'd' && "input-model"@[9] == 'e' && "input-model"@[10] == 'l',
        "close-mode"@.len() == 10 && "close-mode"@[0] == 'c' && "close-mode"@[1] == 'l' && "close-mode"@[2] == 'o' && "close-mode"@[3] == 's' && "close-mode"@[4] == 'e' && "close-mode"@[5] == '-' && "close-mode"@[6] == 'm' && "close-mode"@[7] == 'o' && "close-mode"@[8] == 'd' && "close-mode"@[9] == 'e',
        "window-type"@.len() == 11 && "window-type"@[0] == 'w' && "window-type"@[1] == 'i' && "window-type"@[2] == 'n' && "window-type"@[3] == 'd' && "window-type"@[4] == 'o' && "window-type"@[5] == 'w' && "window-type"@[6] == '-' && "window-type"@[7] == 't' && "window-type"@[8] == 'y' && "window-type"@[9] == 'p' && "window-type"@[10] == 'e',
        "icon"@.len() == 4 && "icon"@[0] == 'i' && "icon"@[1] == 'c' && "icon"@[2] == 'o' && "icon"@[3] == 'n',
        "icon-next"@.len() == 9 && "icon-next"@[0] == 'i' && "icon-next"@[1] == 'c' && "icon-next"@[2] == 'o' && "icon-next"@[3] == 'n' && "icon-next"@[4] == '-' && "icon-next"@[5] == 'n' && "icon-next"@[6] == 'e' && "icon-next"@[7] == 'x' && "icon-next"@[8] == 't',
        "modal"@.len() == 5 && "modal"@[0] == 'm' && "modal"@[1] == 'o' && "modal"@[2] == 'd' && "modal"@[3] == 'a' && "modal"@[4] == 'l',
        "skip-taskbar"@.len() == 12 && "skip-taskbar"@[0] == 's' && "skip-taskbar"@[1] == 'k' && "skip-taskbar"@[2] == 'i' && "skip-taskbar"@[3] == 'p' && "skip-taskbar"@[4] == '-' && "skip-taskbar"@[5] == 't' && "skip-taskbar"@[6] == 'a' && "skip-taskbar"@[7] == 's' && "skip-taskbar"@[8] == 'k' && "skip-taskbar"@[9] == 'b' && "skip-taskbar"@[10] == 'a' && "skip-taskbar"@[11] == 'r',
        "transient-for"@.len() == 13 && "transient-for"@[0] == 't' && "transient-for"@[1] == 'r' && "transient-for"@[2] == 'a' && "transient-for"@[3] == 'n' && "transient-for"@[4] == 's' && "transient-for"@[5] == 'i' && "transient-for"@[6] == 'e' && "transient-for"@[7] == 'n' && "transient-for"@[8] == 't' && "transient-for"@[9] == '-' && "transient-for"@[10] == 'f' && "transient-for"@[11] == 'o' && "transient-for"@[12] == 'r',
        "map-child"@.len() == 9 && "map-child"@[0] == 'm' && "map-child"@[1] == 'a' && "map-child"@[2] == 'p' && "map-child"@[3] == '-' && "map-child"@[4] == 'c' && "map-child"@[5] == 'h' && "map-child"@[6] == 'i' && "map-child"@[7] == 'l' && "map-child"@[8] == 'd',
        "or-reanchor"@.len() == 11 && "or-reanchor"@[0] == 'o' && "or-reanchor"@[1] == 'r' && "or-reanchor"@[2] == '-' && "or-reanchor"@[3] == 'r' && "or-reanchor"@[4] == 'e' && "or-reanchor"@[5] == 'a' && "or-reanchor"@[6] == 'n' && "or-reanchor"@[7] == 'c' && "or-reanchor"@[8] == 'h' && "or-reanchor"@[9] == 'o' && "or-reanchor"@[10] == 'r',
        "or-chain"@.len() == 8 && "or-chain"@[0] == 'o' && "or-chain"@[1] == 'r' && "or-chain"@[2] == '-' && "or-chain"@[3] == 'c' && "or-chain"@[4] == 'h' && "or-chain"@[5] == 'a' && "or-chain"@[6] == 'i' && "or-chain"@[7] == 'n',
        "resize-request"@.len() == 14 && "resize-request"@[0] == 'r' && "resize-request"@[1] == 'e' && "resize-request"@[2] == 's' && "resize-request"@[3] == 'i' && "resize-request"@[4] == 'z' && "resize-request"@[5] == 'e' && "resize-request"@[6] == '-' && "resize-request"@[7] == 'r' && "resize-request"@[8] == 'e' && "resize-request"@[9] == 'q' && "resize-request"@[10] == 'u' && "resize-request"@[11] == 'e' && "resize-request"@[12] == 's' && "resize-request"@[13] == 't',
        "move-request"@.len() == 12 && "move-request"@[0] == 'm' && "move-request"@[1] == 'o' && "move-request"@[2] == 'v' && "move-request"@[3] == 'e' && "move-request"@[4] == '-' && "move-request"@[5] == 'r' && "move-request"@[6] == 'e' && "move-request"@[7] == 'q' && "move-request"@[8] == 'u' && "move-request"@[9] == 'e' && "move-request"@[10] == 's' && "move-request"@[11] == 't',
        "raise"@.len() == 5 && "raise"@[0] == 'r' && "raise"@[1] == 'a' && "raise"@[2] == 'i' && "raise"@[3] == 's' && "raise"@[4] == 'e',
        "lower"@.len() == 5 && "lower"@[0] == 'l' && "lower"@[1] == 'o' && "lower"@[2] == 'w' && "lower"@[3] == 'e' && "lower"@[4] == 'r',
        "self-move"@.len() == 9 && "self-move"@[0] == 's' && "self-move"@[1] == 'e' && "self-move"@[2] == 'l' && "self-move"@[3] == 'f' && "self-move"@[4] == '-' && "self-move"@[5] == 'm' && "self-move"@[6] == 'o' && "self-move"@[7] == 'v' && "self-move"@[8] == 'e',
        "self-resize"@.len() == 11 && "self-resize"@[0] == 's' && "self-resize"@[1] == 'e' && "self-resize"@[2] == 'l' && "self-resize"@[3] == 'f' && "self-resize"@[4] == '-' && "self-resize"@[5] == 'r' && "self-resize"@[6] == 'e' && "self-resize"@[7] == 's' && "self-resize"@[8] == 'i' && "self-resize"@[9] == 'z' && "self-resize"@[10] == 'e',
        "self-move-resize"@.len() == 16 && "self-move-resize"@[0] == 's' && "self-move-resize"@[1] == 'e' && "self-move-resize"@[2] == 'l' && "self-move-resize"@[3] == 'f' && "self-move-resize"@[4] == '-' && "self-move-resize"@[5] == 'm' && "self-move-resize"@[6] == 'o' && "self-move-resize"@[7] == 'v' && "self-move-resize"@[8] == 'e' && "self-move-resize"@[9] == '-' && "self-move-resize"@[10] == 'r' && "self-move-resize"@[11] == 'e' && "self-move-resize"@[12] == 's' && "self-move-resize"@[13] == 'i' && "self-move-resize"@[14] == 'z' && "self-move-resize"@[15] == 'e',
        "dnd-target"@.len() == 10 && "dnd-target"@[0] == 'd' && "dnd-target"@[1] == 'n' && "dnd-target"@[2] == 'd' && "dnd-target"@[3] == '-' && "dnd-target"@[4] == 't' && "dnd-target"@[5] == 'a' && "dnd-target"@[6] == 'r' && "dnd-target"@[7] == 'g' && "dnd-target"@[8] == 'e' && "dnd-target"@[9] == 't',
        "dnd-source"@.len() == 10 && "dnd-source"@[0] == 'd' && "dnd-source"@[1] == 'n' && "dnd-source"@[2] == 'd' && "dnd-source"@[3] == '-' && "dnd-source"@[4] == 's' && "dnd-source"@[5] == 'o' && "dnd-source"@[6] == 'u' && "dnd-source"@[7] == 'r' && "dnd-source"@[8] == 'c' && "dnd-source"@[9] == 'e',
        "dnd-drop"@.len() == 8 && "dnd-drop"@[0] == 'd' && "dnd-drop"@[1] == 'n' && "dnd-drop"@[2] == 'd' && "dnd-drop"@[3] == '-' && "dnd-drop"@[4] == 'd' && "dnd-drop"@[5] == 'r' && "dnd-drop"@[6] == 'o' && "dnd-drop"@[7] == 'p',
        "dnd-cancel"@.len() == 10 && "dnd-cancel"@[0] == 'd' && "dnd-cancel"@[1] == 'n' && "dnd-cancel"@[2] == 'd' && "dnd-cancel"@[3] == '-' && "dnd-cancel"@[4] == 'c' && "dnd-cancel"@[5] == 'a' && "dnd-cancel"@[6] == 'n' && "dnd-cancel"@[7] == 'c' && "dnd-cancel"@[8] == 'e' && "dnd-cancel"@[9] == 'l',
        "copy"@.len() == 4 && "copy"@[0] == 'c' && "copy"@[1] == 'o' && "copy"@[2] == 'p' && "copy"@[3] == 'y',
        "paste"@.len() == 5 && "paste"@[0] == 'p' && "paste"@[1] == 'a' && "paste"@[2] == 's' && "paste"@[3] == 't' && "paste"@[4] == 'e',
        "storm-resize"@.len() == 12 && "storm-resize"@[0] == 's' && "storm-resize"@[1] == 't' && "storm-resize"@[2] == 'o' && "storm-resize"@[3] == 'r' && "storm-resize"@[4] == 'm' && "storm-resize"@[5] == '-' && "storm-resize"@[6] == 'r' && "storm-resize"@[7] == 'e' && "storm-resize"@[8] == 's' && "storm-resize"@[9] == 'i' && "storm-resize"@[10] == 'z' && "storm-resize"@[11] == 'e',
        "storm-reanchor"@.len() == 14 && "storm-reanchor"@[0] == 's' && "storm-reanchor"@[1] == 't' && "storm-reanchor"@[2] == 'o' && "storm-reanchor"@[3] == 'r' && "storm-reanchor"@[4] == 'm' && "storm-reanchor"@[5] == '-' && "storm-reanchor"@[6] == 'r' && "storm-reanchor"@[7] == 'e' && "storm-reanchor"@[8] == 'a' && "storm-reanchor"@[9] == 'n' && "storm-reanchor"@[10] == 'c' && "storm-reanchor"@[11] == 'h' && "storm-reanchor"@[12] == 'o' && "storm-reanchor"@[13] == 'r',
        "info"@.len() == 4 && "info"@[0] == 'i' && "info"@[1] == 'n' && "info"@[2] == 'f' && "info"@[3] == 'o',
        "stack"@.len() == 5 && "stack"@[0] == 's' && "stack"@[1] == 't' && "stack"@[2] == 'a' && "stack"@[3] == 'c' && "stack"@[4] == 'k',
        "pointer"@.len() == 7 && "pointer"@[0] == 'p' && "pointer"@[1] == 'o' && "pointer"@[2] == 'i' && "pointer"@[3] == 'n' && "pointer"@[4] == 't' && "pointer"@[5] == 'e' && "pointer"@[6] == 'r',
        "quit"@.len() == 4 && "quit"@[0] == 'q' && "quit"@[1] == 'u' && "quit"@[2] == 'i' && "quit"@[3] == 't',
        "exit"@.len() == 4 && "exit"@[0] == 'e' && "exit"@[1] == 'x' && "exit"@[2] == 'i' && "exit"@[3] == 't',
{
    reveal_strlit("none");
    reveal_strlit("passive");
    reveal_strlit("locally");
    reveal_strlit("globally");
    reveal_strlit("unset");
    reveal_strlit("normal");
    reveal_strlit("dialog");
    reveal_strlit("menu");
    reveal_strlit("popup-menu");
    reveal_strlit("dropdown-menu");
    reveal_strlit("tooltip");
    reveal_strlit("notification");
    reveal_strlit("splash");
    reveal_strlit("dnd");
    reveal_strlit("combo");
    reveal_strlit("utility");
    reveal_strlit("toolbar");
    reveal_strlit("dock");
    reveal_strlit("single");
    reveal_strlit("pyramid");
    reveal_strlit("large-first");
    reveal_strlit("oversize");
    reveal_strlit("truncated");
    reveal_strlit("zero");
    reveal_strlit("alpha");
    reveal_strlit("delete");
    reveal_strlit("nodelete");
    reveal_strlit("or");
    reveal_strlit("managed");
    reveal_strlit("override-redirect");
    reveal_strlit("map");
    reveal_strlit("map-argb");
    reveal_strlit("opacity");
    reveal_strlit("map-transient");
    reveal_strlit("unmap");
    reveal_strlit("remap");
    reveal_strlit("destroy");
    reveal_strlit("title");
    reveal_strlit("class");
    reveal_strlit("pid");
    reveal_strlit("fullscreen");
    reveal_strlit("input-model");
    reveal_strlit("close-mode");
    reveal_strlit("window-type");
    reveal_strlit("icon");
    reveal_strlit("icon-next");
    reveal_strlit("modal");
    reveal_strlit("skip-taskbar");
    reveal_strlit("transient-for");
    reveal_strlit("map-child");
    reveal_strlit("or-reanchor");
    reveal_strlit("or-chain");
    reveal_strlit("resize-request");
    reveal_strlit("move-request");
    reveal_strlit("raise");
    reveal_strlit("lower");
    reveal_strlit("self-move");
    reveal_strlit("self-resize");
    reveal_strlit("self-move-resize");
    reveal_strlit("dnd-target");
    reveal_strlit("dnd-source");
    reveal_strlit("dnd-drop");
    reveal_strlit("dnd-cancel");
    reveal_strlit("copy");
    reveal_strlit("paste");
    reveal_strlit("storm-resize");
    reveal_strlit("storm-reanchor");
    reveal_strlit("info");
    reveal_strlit("stack");
    reveal_strlit("pointer");
    reveal_strlit("quit");
    reveal_strlit("exit");
}

/// Every word of a command's line is non-empty and free of whitespace.
pub proof fn lemma_words_plain(c: Command)
    ensures
        plain_words(words(c)),
{
    lemma_wire_words();
    lemma_args_plain(c);
    let ws = words(c);
    assert forall|i: int| 0 <= i < ws.len() implies #[trigger] ws[i].len() > 0 && no_ws(ws[i]) by {
        let w = ws[i];
        assert forall|k: int| 0 <= k < w.len() implies !is_ws(#[trigger] w[k]) by {}
    }
}

proof fn lemma_args_plain(c: Command)
    ensures
        forall|n: int| #[trigger] int_text(n).len() > 0 && no_ws(int_text(n)),
        forall|b: bool| #[trigger] on_word(b).len() > 0 && no_ws(on_word(b)),
{
    assert forall|n: int| #[trigger] int_text(n).len() > 0 && no_ws(int_text(n)) by {
        lemma_int_text_plain(n);
    }
    assert forall|b: bool| #[trigger] on_word(b).len() > 0 && no_ws(on_word(b)) by {
        lemma_on_word(b);
    }
}

proof fn lemma_ints_read()
    ensures
        forall|n: int| 0 <= n <= u8::MAX ==> #[trigger] parse_int_spec(int_text(n), false, 0, u8::MAX as int) == Some(n),
        forall|n: int| 0 <= n <= u16::MAX ==> #[trigger] parse_int_spec(int_text(n), false, 0, u16::MAX as int) == Some(n),
        forall|n: int| 0 <= n <= u32::MAX ==> #[trigger] parse_int_spec(int_text(n), false, 0, u32::MAX as int) == Some(n),
        forall|n: int| i16::MIN <= n <= i16::MAX ==> #[trigger] parse_int_spec(int_text(n), true, i16::MIN as int, i16::MAX as int) == Some(n),
        forall|b: bool| #[trigger] on_of(on_word(b)) == Some(b),
{
    assert forall|n: int| 0 <= n <= u8::MAX implies #[trigger] parse_int_spec(int_text(n), false, 0, u8::MAX as int) == Some(n) by {
        lemma_int_round_trip(n, false, 0, u8::MAX as int);
    }
    assert forall|n: int| 0 <= n <= u16::MAX implies #[trigger] parse_int_spec(int_text(n), false, 0, u16::MAX as int) == Some(n) by {
        lemma_int_round_trip(n, false, 0, u16::MAX as int);
    }
    assert forall|n: int| 0 <= n <= u32::MAX implies #[trigger] parse_int_spec(int_text(n), false, 0, u32::MAX as int) == Some(n) by {
        lemma_int_round_trip(n, false, 0, u32::MAX as int);
    }
    assert forall|n: int| i16::MIN <= n <= i16::MAX implies #[trigger] parse_int_spec(int_text(n), true, i16::MIN as int, i16::MAX as int) == Some(n) by {
        lemma_int_round_trip(n, true, i16::MIN as int, i16::MAX as int);
    }
    assert forall|b: bool| #[trigger] on_of(on_word(b)) == Some(b) by {
        lemma_on_word(b);
    }
}

/// The words a command's line splits into.
pub open spec fn line_words(c: Command) -> Seq<Seq<char>> {
    match text_of(c) {
        Some(t) => words(c) + split_ws(t),
        None => words(c),
    }
}

/// A command's line splits into its words followed by the words of its text.
pub proof fn lemma_split_line(c: Command)
    ensures
        split_ws(encode_spec(c)) == line_words(c),
{
    lemma_words_plain(c);
    match text_of(c) {
        Some(t) => lemma_split_join_text(words(c), t),
        None => lemma_split_join(words(c)),
    }
}

proof fn lemma_reads_words_0(c: Command)
    requires
        c is MapWindow || c is MapArgb || c is Opacity || c is MapTransient,
    ensures
        reads_as(line_words(c), c),
{
    lemma_wire_words();
    lemma_ints_read();

}

proof fn lemma_reads_words_1(c: Command)
    requires
        c is Unmap || c is Remap || c is Destroy || c is Title,
    ensures
        reads_as(line_words(c), c),
{
    lemma_wire_words();
    lemma_ints_read();
}

#[verifier::rlimit(100)]
proof fn lemma_reads_words_2(c: Command)
    requires
        c is Class || c is Pid || c is Fullscreen || c is InputModel,
    ensures
        reads_as(line_words(c), c),
{
    lemma_wire_words();
    lemma_ints_read();
}

proof fn lemma_reads_words_3(c: Command)
    requires
        c is CloseMode || c is WindowType || c is Icon || c is IconNext,
    ensures
        reads_as(line_words(c), c),
{
    lemma_wire_words();
    lemma_ints_read();

}

proof fn lemma_reads_words_4(c: Command)
    requires
        c is Modal || c is SkipTaskbar || c is TransientFor || c is Or,
    ensures
        reads_as(line_words(c), c),
{
    lemma_wire_words();
    lemma_ints_read();

}

proof fn lemma_reads_words_5(c: Command)
    requires
        c is MapChild || c is OrReanchor,
    ensures
        reads_as(line_words(c), c),
{
    lemma_wire_words();
    lemma_ints_read();
}

proof fn lemma_reads_words_5b(c: Command)
    requires
        c is OrChain || c is ResizeRequest,
    ensures
        reads_as(line_words(c), c),
{
    lemma_wire_words();
    lemma_ints_read();
}

proof fn lemma_reads_words_6(c: Command)
    requires
        c is MoveRequest || c is Raise || c is Lower || c is SelfMove,
    ensures
        reads_as(line_words(c), c),
{
    lemma_wire_words();
    lemma_ints_read();

}

proof fn lemma_reads_words_7(c: Command)
    requires
        c is SelfResize || c is SelfMoveResize,
    ensures
        reads_as(line_words(c), c),
{
    lemma_wire_words();
    lemma_ints_read();
}

proof fn lemma_reads_words_7b(c: Command)
    requires
        c is DndTarget || c is DndSource,
    ensures
        reads_as(line_words(c), c),
{
    lemma_wire_words();
    lemma_ints_read();
}

proof fn lemma_reads_words_8(c: Command)
    requires
        c is DndDrop || c is DndCancel || c is Copy || c is Paste,
    ensures
        reads_as(line_words(c), c),
{
    lemma_wire_words();
    lemma_ints_read();
}

proof fn lemma_reads_words_9(c: Command)
    requires
        c is StormResize || c is StormReanchor || c is Info || c is Stack,
    ensures
        reads_as(line_words(c), c),
{
    lemma_wire_words();
    lemma_ints_read();

}

proof fn lemma_reads_words_10(c: Command)
    requires
        c is Pointer || c is Quit,
    ensures
        reads_as(line_words(c), c),
{
    lemma_wire_words();
    lemma_ints_read();

}

/// A command's words, followed by those of its text, read as the command.
pub proof fn lemma_reads_words(c: Command)
    ensures
        reads_as(line_words(c), c),
{
    if c is MapWindow || c is MapArgb || c is Opacity || c is MapTransient {
        lemma_reads_words_0(c);
    } else if c is Unmap || c is Remap || c is Destroy || c is Title {
        lemma_reads_words_1(c);
    } else if c is Class || c is Pid || c is Fullscreen || c is InputModel {
        lemma_reads_words_2(c);
    } else if c is CloseMode || c is WindowType || c is Icon || c is IconNext {
        lemma_reads_words_3(c);
    } else if c is Modal || c is SkipTaskbar || c is TransientFor || c is Or {
        lemma_reads_words_4(c);
    } else if c is MapChild || c is OrReanchor {
        lemma_reads_words_5(c);
    } else if c is OrChain || c is ResizeRequest {
        lemma_reads_words_5b(c);
    } else if c is MoveRequest || c is Raise || c is Lower || c is SelfMove {
        lemma_reads_words_6(c);
    } else if c is SelfResize || c is SelfMoveResize {
        lemma_reads_words_7(c);
    } else if c is DndTarget || c is DndSource {
        lemma_reads_words_7b(c);
    } else if c is DndDrop || c is DndCancel || c is Copy || c is Paste {
        lemma_reads_words_8(c);
    } else if c is StormResize || c is StormReanchor || c is Info || c is Stack {
        lemma_reads_words_9(c);
    } else {
        lemma_reads_words_10(c);
    }
}

/// The text of a command's line is the command's text, whatever it holds.
proof fn lemma_text_fits(c: Command)
    ensures
        text_fits(encode_spec(c), c),
{
    lemma_words_plain(c);
    match c {
        Command::Title(id, t) => {
            lemma_rest_of_line_join(words(c), t@);
        },
        Command::Class(id, t) => {
            lemma_rest_of_line_join(words(c), t@);
        },
        Command::Copy(t) => {
            lemma_rest_of_line_join(words(c), t@);
        },
        _ => {},
    }
}

/// Round trip: the line a command encodes to reads as that command, for every command,
/// free text included verbatim.
pub proof fn lemma_round_trip(c: Command)
    ensures
        line_reads_as(encode_spec(c), c),
{
    lemma_split_line(c);
    lemma_reads_words(c);
    lemma_text_fits(c);
}

/// A line reads as at most one command (text compared by content).
pub proof fn lemma_reads_unique(line: Seq<char>, a: Command, b: Command)
    requires
        line_reads_as(line, a),
        line_reads_as(line, b),
    ensures
        same_command(a, b),
{
}

/// A token as an atom spells it: letters upper-cased and `-` as `_`.
pub open spec fn atom_case(s: Seq<char>) -> Seq<char> {
    s.map_values(|c: char| if 'a' <= c && c <= 'z' {
        ((c as u32) - 32) as char
    } else if c == '-' {
        '_'
    } else {
        c
    })
}

/// Every window type but `Unset` names the EWMH atom `_NET_WM_WINDOW_TYPE_` followed by
/// its wire token in atom case.
pub proof fn lemma_atom_is_token(t: WmType)
    requires
        t != WmType::Unset,
    ensures
        atom_spec(t) == Some("_NET_WM_WINDOW_TYPE_"@ + atom_case(wm_type_word(t))),
{
    reveal_strlit("_NET_WM_WINDOW_TYPE_");
    match t {
        WmType::Unset => {},
        WmType::Normal => {
            reveal_strlit("normal");
            reveal_strlit("_NET_WM_WINDOW_TYPE_NORMAL");
            assert("_NET_WM_WINDOW_TYPE_NORMAL"@ =~= "_NET_WM_WINDOW_TYPE_"@ + atom_case(wm_type_word(t)));
        },
        WmType::Dialog => {
            reveal_strlit("dialog");
            reveal_strlit("_NET_WM_WINDOW_TYPE_DIALOG");
            assert("_NET_WM_WINDOW_TYPE_DIALOG"@ =~= "_NET_WM_WINDOW_TYPE_"@ + atom_case(wm_type_word(t)));
        },
        WmType::Menu => {
            reveal_strlit("menu");
            reveal_strlit("_NET_WM_WINDOW_TYPE_MENU");
            assert("_NET_WM_WINDOW_TYPE_MENU"@ =~= "_NET_WM_WINDOW_TYPE_"@ + atom_case(wm_type_word(t)));
        },
        WmType::PopupMenu => {
            reveal_strlit("popup-menu");
            reveal_strlit("_NET_WM_WINDOW_TYPE_POPUP_MENU");
            assert("_NET_WM_WINDOW_TYPE_POPUP_MENU"@ =~= "_NET_WM_WINDOW_TYPE_"@ + atom_case(wm_type_word(t)));
        },
        WmType::DropdownMenu => {
            reveal_strlit("dropdown-menu");
            reveal_strlit("_NET_WM_WINDOW_TYPE_DROPDOWN_MENU");
            assert("_NET_WM_WINDOW_TYPE_DROPDOWN_MENU"@ =~= "_NET_WM_WINDOW_TYPE_"@ + atom_case(wm_type_word(t)));
        },
        WmType::Tooltip => {
            reveal_strlit("tooltip");
            reveal_strlit("_NET_WM_WINDOW_TYPE_TOOLTIP");
            assert("_NET_WM_WINDOW_TYPE_TOOLTIP"@ =~= "_NET_WM_WINDOW_TYPE_"@ + atom_case(wm_type_word(t)));
        },
        WmType::Notification => {
            reveal_strlit("notification");
            reveal_strlit("_NET_WM_WINDOW_TYPE_NOTIFICATION");
            assert("_NET_WM_WINDOW_TYPE_NOTIFICATION"@ =~= "_NET_WM_WINDOW_TYPE_"@ + atom_case(wm_type_word(t)));
        },
        WmType::Splash => {
            reveal_strlit("splash");
            reveal_strlit("_NET_WM_WINDOW_TYPE_SPLASH");
            assert("_NET_WM_WINDOW_TYPE_SPLASH"@ =~= "_NET_WM_WINDOW_TYPE_"@ + atom_case(wm_type_word(t)));
        },
        WmType::Dnd => {
            reveal_strlit("dnd");
            reveal_strlit("_NET_WM_WINDOW_TYPE_DND");
            assert("_NET_WM_WINDOW_TYPE_DND"@ =~= "_NET_WM_WINDOW_TYPE_"@ + atom_case(wm_type_word(t)));
        },
        WmType::Combo => {
            reveal_strlit("combo");
            reveal_strlit("_NET_WM_WINDOW_TYPE_COMBO");
            assert("_NET_WM_WINDOW_TYPE_COMBO"@ =~= "_NET_WM_WINDOW_TYPE_"@ + atom_case(wm_type_word(t)));
        },
        WmType::Utility => {
            reveal_strlit("utility");
            reveal_strlit("_NET_WM_WINDOW_TYPE_UTILITY");
            assert("_NET_WM_WINDOW_TYPE_UTILITY"@ =~= "_NET_WM_WINDOW_TYPE_"@ + atom_case(wm_type_word(t)));
        },
        WmType::Toolbar => {
            reveal_strlit("toolbar");
            reveal_strlit("_NET_WM_WINDOW_TYPE_TOOLBAR");
            assert("_NET_WM_WINDOW_TYPE_TOOLBAR"@ =~= "_NET_WM_WINDOW_TYPE_"@ + atom_case(wm_type_word(t)));
        },
        WmType::Dock => {
            reveal_strlit("dock");
            reveal_strlit("_NET_WM_WINDOW_TYPE_DOCK");
            assert("_NET_WM_WINDOW_TYPE_DOCK"@ =~= "_NET_WM_WINDOW_TYPE_"@ + atom_case(wm_type_word(t)));
        },
    }
}

} // verus!
