//! The X11 subject's decisions: what a new window is, where it goes, what colour it is,
//! and the numbers it sends in requests.
//!
//! Windows are addressed by a small harness id (1, 2, 3 …) rather than by X11 window id,
//! because the controller has to be able to name a window in a script before the server
//! has told anyone what its real id is.

use vstd::prelude::*;

use crate::text::{int_text, push_int, push_str, string_from};
use crate::x11_protocol::{CloseMode, Command, InputModel, WmType};

verus! {

/// Everything that decides what a new window is, in one place: the compositor reads all
/// of it at the map request and the answer depends on the combination. An
/// override-redirect child with a menu type and a resolvable transient parent is a
/// popup; drop any one of the three and it is a window.
#[derive(Clone, Copy, Debug, PartialEq, Eq, Structural)]
pub struct Spec {
    pub x: i16,
    pub y: i16,
    pub w: u16,
    pub h: u16,
    pub override_redirect: bool,
    /// The X window it names as its transient parent, if any.
    pub transient_for: Option<u32>,
    pub wm_type: WmType,
    /// Create on a 32-bit ARGB visual instead of the screen's default.
    pub argb: bool,
}

impl Spec {
    /// A managed (not override-redirect) window at `x, y` of `w × h`, no parent, no
    /// type, on the default visual.
    pub fn managed(x: i16, y: i16, w: u16, h: u16) -> (r: Spec)
        ensures
            r == (Spec {
                x,
                y,
                w,
                h,
                override_redirect: false,
                transient_for: None,
                wm_type: WmType::Unset,
                argb: false,
            }),
    {
        Spec {
            x,
            y,
            w,
            h,
            override_redirect: false,
            transient_for: None,
            wm_type: WmType::Unset,
            argb: false,
        }
    }

    /// The same window on a 32-bit ARGB visual.
    pub fn argb(self) -> (r: Spec)
        ensures
            r == (Spec { argb: true, ..self }),
    {
        Spec { argb: true, ..self }
    }

    /// The same window, override-redirect.
    pub fn override_redirect(self) -> (r: Spec)
        ensures
            r == (Spec { override_redirect: true, ..self }),
    {
        Spec { override_redirect: true, ..self }
    }

    /// The same window, transient for `parent`.
    pub fn transient_for(self, parent: u32) -> (r: Spec)
        ensures
            r == (Spec { transient_for: Some(parent), ..self }),
    {
        Spec { transient_for: Some(parent), ..self }
    }

    /// The same window, of type `t`.
    pub fn wm_type(self, t: WmType) -> (r: Spec)
        ensures
            r == (Spec { wm_type: t, ..self }),
    {
        Spec { wm_type: t, ..self }
    }
}

/// The fill of managed window `id`: the palette walked by id.
pub open spec fn managed_colour(i: int) -> u32 {
    if i == 0 {
        0x2f4858
    } else if i == 1 {
        0x33658a
    } else if i == 2 {
        0x86bbd8
    } else if i == 3 {
        0x758e4f
    } else if i == 4 {
        0xf6ae2d
    } else {
        0xf26419
    }
}

/// The fill of override-redirect window `id`: a paler palette, so "which of these is the
/// menu" needs no counting.
pub open spec fn override_colour(i: int) -> u32 {
    if i == 0 {
        0xd8e2dc
    } else if i == 1 {
        0xffe5d9
    } else if i == 2 {
        0xffcad4
    } else {
        0xf4acb7
    }
}

/// The fill of window `id`, [`managed_colour`] or [`override_colour`] by `id` modulo the
/// palette's length.
pub fn window_colour(id: u32, override_redirect: bool) -> (r: u32)
    ensures
        r == if override_redirect {
            override_colour((id % 4) as int)
        } else {
            managed_colour((id % 6) as int)
        },
{
    if override_redirect {
        match id % 4 {
            0 => 0xd8e2dc,
            1 => 0xffe5d9,
            2 => 0xffcad4,
            _ => 0xf4acb7,
        }
    } else {
        match id % 6 {
            0 => 0x2f4858,
            1 => 0x33658a,
            2 => 0x86bbd8,
            3 => 0x758e4f,
            4 => 0xf6ae2d,
            _ => 0xf26419,
        }
    }
}

/// A window id as the `i16` a cast wraps it to.
pub open spec fn wrap_i16(v: u32) -> int {
    (v as i16) as int
}

/// The parent a command creates a child of, by harness id.
pub open spec fn parent_of(cmd: Command) -> Option<u32> {
    match cmd {
        Command::MapTransient(p, _, _) => Some(p),
        Command::Or(p, _, _, _, _) => Some(p),
        Command::OrChain(p, _, _) => Some(p),
        Command::MapChild(p, _, _, _, _, _, _) => Some(p),
        _ => None,
    }
}

/// Whether a command creates a window.
pub open spec fn creates_window(cmd: Command) -> bool {
    cmd is MapWindow || cmd is MapArgb || parent_of(cmd) is Some
}

/// What the window a command creates is, given the next harness id and, for a child,
/// the parent's X window and the position the server last configured it at. New
/// top-level windows are staggered by id (40 pixels a step, 60 for transients) so
/// consecutive windows are not exactly on top of each other; children are placed at an
/// offset from their parent in root coordinates, since X has no parent-relative form.
pub open spec fn create_spec_of(cmd: Command, next_id: u32, parent: (u32, i16, i16)) -> Spec {
    let n = wrap_i16(next_id);
    let (pw, px, py) = parent;
    match cmd {
        Command::MapWindow(w, h) => Spec {
            x: (40 * n) as i16,
            y: (40 * n) as i16,
            w,
            h,
            override_redirect: false,
            transient_for: None,
            wm_type: WmType::Unset,
            argb: false,
        },
        Command::MapArgb(w, h) => Spec {
            x: (40 * n) as i16,
            y: (40 * n) as i16,
            w,
            h,
            override_redirect: false,
            transient_for: None,
            wm_type: WmType::Unset,
            argb: true,
        },
        Command::MapTransient(_, w, h) => Spec {
            x: (60 * n) as i16,
            y: (60 * n) as i16,
            w,
            h,
            override_redirect: false,
            transient_for: Some(pw),
            wm_type: WmType::Unset,
            argb: false,
        },
        Command::Or(_, dx, dy, w, h) => Spec {
            x: (px + dx) as i16,
            y: (py + dy) as i16,
            w,
            h,
            override_redirect: true,
            transient_for: None,
            wm_type: WmType::Unset,
            argb: false,
        },
        Command::OrChain(_, dx, dy) => Spec {
            x: (px + dx) as i16,
            y: (py + dy) as i16,
            w: 180,
            h: 140,
            override_redirect: true,
            transient_for: None,
            wm_type: WmType::Unset,
            argb: false,
        },
        Command::MapChild(_, dx, dy, w, h, or, t) => Spec {
            x: (px + dx) as i16,
            y: (py + dy) as i16,
            w,
            h,
            override_redirect: or,
            transient_for: Some(pw),
            wm_type: t,
            argb: false,
        },
        _ => Spec::managed_spec(),
    }
}

impl Spec {
    /// A placeholder value for commands that create nothing.
    pub open spec fn managed_spec() -> Spec {
        Spec {
            x: 0,
            y: 0,
            w: 0,
            h: 0,
            override_redirect: false,
            transient_for: None,
            wm_type: WmType::Unset,
            argb: false,
        }
    }
}

/// Whether the positions [`create_spec_of`] computes fit an `i16`.
pub open spec fn create_fits(cmd: Command, next_id: u32, parent: (u32, i16, i16)) -> bool {
    let n = wrap_i16(next_id);
    let (_, px, py) = parent;
    match cmd {
        Command::MapWindow(_, _) | Command::MapArgb(_, _) => i16::MIN <= 40 * n <= i16::MAX,
        Command::MapTransient(_, _, _) => i16::MIN <= 60 * n <= i16::MAX,
        Command::Or(_, dx, dy, _, _) | Command::OrChain(_, dx, dy) | Command::MapChild(
            _,
            dx,
            dy,
            _,
            _,
            _,
            _,
        ) => i16::MIN <= px + dx <= i16::MAX && i16::MIN <= py + dy <= i16::MAX,
        _ => true,
    }
}

/// The window a command creates, [`create_spec_of`], or `None` for a command that
/// creates none. `parent` is the parent's X window and last configured position; a
/// command that creates no child ignores it.
pub fn create_spec(cmd: &Command, next_id: u32, parent: (u32, i16, i16)) -> (r: Option<Spec>)
    requires
        create_fits(*cmd, next_id, parent),
    ensures
        r is Some <==> creates_window(*cmd),
        r matches Some(s) ==> s == create_spec_of(*cmd, next_id, parent),
{
    let n = next_id as i16;
    let (pw, px, py) = parent;
    match cmd {
        Command::MapWindow(w, h) => Some(Spec::managed(40 * n, 40 * n, *w, *h)),
        Command::MapArgb(w, h) => Some(Spec::managed(40 * n, 40 * n, *w, *h).argb()),
        Command::MapTransient(_, w, h) => Some(
            Spec::managed(60 * n, 60 * n, *w, *h).transient_for(pw),
        ),
        Command::Or(_, dx, dy, w, h) => Some(
            Spec::managed(px + *dx, py + *dy, *w, *h).override_redirect(),
        ),
        Command::OrChain(_, dx, dy) => Some(
            Spec::managed(px + *dx, py + *dy, 180, 140).override_redirect(),
        ),
        Command::MapChild(_, dx, dy, w, h, or, t) => {
            let mut spec = Spec::managed(px + *dx, py + *dy, *w, *h).transient_for(pw).wm_type(
                *t,
            );
            if *or {
                spec = spec.override_redirect();
            }
            Some(spec)
        },
        _ => None,
    }
}

/// The size asked for by resize request `i` of a storm: the base size grown by `i`
/// modulo 40 on both axes, held at the `u16` limit.
pub open spec fn storm_size_spec(base: (u16, u16), i: u32) -> (u16, u16) {
    let d = (i % 40) as int;
    (
        if base.0 + d > u16::MAX {
            u16::MAX
        } else {
            (base.0 + d) as u16
        },
        if base.1 + d > u16::MAX {
            u16::MAX
        } else {
            (base.1 + d) as u16
        },
    )
}

/// The size asked for by resize request `i` of a storm, [`storm_size_spec`].
pub fn storm_size(base: (u16, u16), i: u32) -> (r: (u16, u16))
    ensures
        r == storm_size_spec(base, i),
{
    let d = (i % 40) as u16;
    (base.0.saturating_add(d), base.1.saturating_add(d))
}

/// The position asked for by re-anchor `i` of a storm: the base position moved by `i`
/// modulo 40 on both axes.
pub fn storm_position(base: (i16, i16), i: u32) -> (r: (i16, i16))
    requires
        base.0 + (i % 40) <= i16::MAX,
        base.1 + (i % 40) <= i16::MAX,
    ensures
        r == ((base.0 + (i % 40)) as i16, (base.1 + (i % 40)) as i16),
{
    let d = (i % 40) as i16;
    (base.0 + d, base.1 + d)
}

/// The `XdndPosition` coordinate word: root x in the high half, root y in the low one.
pub open spec fn xdnd_position_spec(root_x: i16, root_y: i16) -> u32 {
    ((root_x as u32) << 16u32) | ((root_y as u32) & 0xffffu32)
}

/// The `XdndPosition` coordinate word, [`xdnd_position_spec`].
pub fn xdnd_position(root_x: i16, root_y: i16) -> (r: u32)
    ensures
        r == xdnd_position_spec(root_x, root_y),
{
    (#[verifier::truncate] (root_x as u32) << 16) | (#[verifier::truncate] (root_y as u32)
        & 0xffff)
}

/// The root coordinates an `XdndPosition` word carries: the high half is x, the low
/// half y.
pub open spec fn xdnd_unpack_spec(word: u32) -> (i16, i16) {
    ((word >> 16u32) as i16, (word & 0xffffu32) as i16)
}

/// The root coordinates an `XdndPosition` word carries, [`xdnd_unpack_spec`].
pub fn xdnd_unpack(word: u32) -> (r: (i16, i16))
    ensures
        r == xdnd_unpack_spec(word),
{
    (#[verifier::truncate] ((word >> 16) as i16), #[verifier::truncate] ((word & 0xffff) as i16))
}

/// A drop target reads back exactly the root coordinates the drag source packed.
pub proof fn lemma_xdnd_round_trip(root_x: i16, root_y: i16)
    ensures
        xdnd_unpack_spec(xdnd_position_spec(root_x, root_y)) == (root_x, root_y),
{
    assert(((((root_x as u32) << 16u32) | ((root_y as u32) & 0xffffu32)) >> 16u32) as i16 == root_x)
        by (bit_vector);
    assert(((((root_x as u32) << 16u32) | ((root_y as u32) & 0xffffu32)) & 0xffffu32) as i16 == root_y)
        by (bit_vector);
}

/// Where in itself a drop target finds the pointer: the root position less the target's
/// own absolute position, and whether that lies inside its `width × height`.
pub open spec fn xdnd_local_spec(root: (i16, i16), abs: (i16, i16), width: u16, height: u16) -> (
    (int, int),
    bool,
) {
    let lx = root.0 - abs.0;
    let ly = root.1 - abs.1;
    ((lx, ly), lx >= 0 && ly >= 0 && lx < (width as i16) && ly < (height as i16))
}

/// Where in itself a drop target finds the pointer, [`xdnd_local_spec`].
pub fn xdnd_local(root: (i16, i16), abs: (i16, i16), width: u16, height: u16) -> (r: ((i16, i16), bool))
    requires
        i16::MIN <= root.0 - abs.0 <= i16::MAX,
        i16::MIN <= root.1 - abs.1 <= i16::MAX,
    ensures
        ((r.0.0 as int, r.0.1 as int), r.1) == xdnd_local_spec(root, abs, width, height),
{
    let lx = root.0 - abs.0;
    let ly = root.1 - abs.1;
    let w = #[verifier::truncate] (width as i16);
    let h = #[verifier::truncate] (height as i16);
    ((lx, ly), lx >= 0 && ly >= 0 && lx < w && ly < h)
}

/// What a self-configure asks for, in words.
pub open spec fn configure_text(pos: Option<(i16, i16)>, size: Option<(u16, u16)>) -> Seq<char> {
    match (pos, size) {
        (Some(p), Some(s)) => "move to +"@ + int_text(p.0 as int) + "+"@ + int_text(p.1 as int)
            + " and resize to "@ + int_text(s.0 as int) + "x"@ + int_text(s.1 as int),
        (Some(p), None) => "move to +"@ + int_text(p.0 as int) + "+"@ + int_text(p.1 as int),
        (None, Some(s)) => "resize to "@ + int_text(s.0 as int) + "x"@ + int_text(s.1 as int),
        (None, None) => "nothing"@,
    }
}

/// Appends `a` then `sep` then `b`, the numbers in decimal.
fn push_pair(t: &mut String, a: i64, sep: &str, b: i64)
    requires
        a > i64::MIN,
        b > i64::MIN,
    ensures
        final(t)@ == old(t)@ + int_text(a as int) + sep@ + int_text(b as int),
{
    push_int(t, a);
    push_str(t, sep);
    push_int(t, b);
}

/// What a self-configure asks for, [`configure_text`].
pub fn configure_description(pos: Option<(i16, i16)>, size: Option<(u16, u16)>) -> (r: String)
    ensures
        r@ == configure_text(pos, size),
{
    match (pos, size) {
        (Some(p), Some(s)) => {
            let mut t = string_from("move to +");
            push_pair(&mut t, p.0 as i64, "+", p.1 as i64);
            push_str(&mut t, " and resize to ");
            push_pair(&mut t, s.0 as i64, "x", s.1 as i64);
            t
        },
        (Some(p), None) => {
            let mut t = string_from("move to +");
            push_pair(&mut t, p.0 as i64, "+", p.1 as i64);
            t
        },
        (None, Some(s)) => {
            let mut t = string_from("resize to ");
            push_pair(&mut t, s.0 as i64, "x", s.1 as i64);
            t
        },
        (None, None) => string_from("nothing"),
    }
}

/// `_NET_WM_WINDOW_OPACITY` is a CARD32 over the full 32-bit range, so the byte is
/// repeated into all four bytes: `0x80` becomes `0x80808080`, `0xff` is opaque.
pub fn opacity_card(value: u8) -> (r: u32)
    ensures
        r == value as u32 * 0x0101_0101,
{
    value as u32 * 0x0101_0101
}

/// The ICCCM input flag of a model: the two models in which the window manager
/// focuses the window itself.
pub open spec fn accepts_input(m: InputModel) -> bool {
    m == InputModel::Passive || m == InputModel::LocallyActive
}

/// Whether a model lists `WM_TAKE_FOCUS`: the two in which the client is told to
/// focus itself.
pub open spec fn takes_focus(m: InputModel) -> bool {
    m == InputModel::LocallyActive || m == InputModel::GloballyActive
}

/// The nine CARD32s of `WM_HINTS` for an input model: `InputHint` set in the flags,
/// the input flag in field 1, everything else zero.
pub fn wm_hints(model: InputModel) -> (r: Vec<u32>)
    ensures
        r@ == seq![1u32, if accepts_input(model) { 1u32 } else { 0u32 }, 0u32, 0u32, 0u32, 0u32, 0u32, 0u32, 0u32],
{
    let input: u32 = match model {
        InputModel::Passive | InputModel::LocallyActive => 1,
        _ => 0,
    };
    vec![1u32, input, 0, 0, 0, 0, 0, 0, 0]
}

/// `WM_PROTOCOLS` for an input model: `WM_DELETE_WINDOW` always, then
/// `WM_TAKE_FOCUS` for the two models that take focus themselves. The atoms are the
/// server's, passed in.
pub fn input_protocols(model: InputModel, delete_window: u32, take_focus: u32) -> (r: Vec<u32>)
    ensures
        r@ == (if takes_focus(model) { seq![delete_window, take_focus] } else { seq![delete_window] }),
{
    let mut v: Vec<u32> = vec![delete_window];
    match model {
        InputModel::LocallyActive | InputModel::GloballyActive => v.push(take_focus),
        _ => {},
    }
    v
}

/// `WM_PROTOCOLS` for a close mode: a window that does not list `WM_DELETE_WINDOW` is
/// destroyed by the window manager instead of asked.
pub fn close_protocols(mode: CloseMode, delete_window: u32) -> (r: Vec<u32>)
    ensures
        r@ == (match mode {
            CloseMode::Delete => seq![delete_window],
            CloseMode::NoDelete => Seq::<u32>::empty(),
        }),
{
    match mode {
        CloseMode::Delete => vec![delete_window],
        CloseMode::NoDelete => Vec::new(),
    }
}

/// The five data words of an EWMH `_NET_WM_STATE` client message that adds (`on`) or
/// removes one state atom, from a normal application (source indication 1).
pub fn wm_state_data(on: bool, atom: u32) -> (r: [u32; 5])
    ensures
        r@ == seq![if on { 1u32 } else { 0u32 }, atom, 0u32, 1u32, 0u32],
{
    let add: u32 = if on { 1 } else { 0 };
    [add, atom, 0, 1, 0]
}

/// The four input models are told apart by the pair (input flag, `WM_TAKE_FOCUS`):
/// no two models publish the same hints and protocols.
pub proof fn lemma_input_models_distinct(a: InputModel, b: InputModel)
    requires
        accepts_input(a) == accepts_input(b),
        takes_focus(a) == takes_focus(b),
    ensures
        a == b,
{
}

/// The window half of a drag target (the X window and its `XdndAware` version).
pub open spec fn target_window(t: Option<(u32, u32)>) -> Option<u32> {
    match t {
        Some((w, _)) => Some(w),
        None => None,
    }
}

/// What one step of a drag source sends when the window under the pointer is looked
/// up again: `XdndLeave` to the window it leaves, `XdndEnter` to the one it enters,
/// and the target it keeps.
#[derive(Clone, Copy, Debug, PartialEq, Eq)]
pub struct DragStep {
    pub leave: Option<u32>,
    pub enter: Option<(u32, u32)>,
    pub target: Option<(u32, u32)>,
}

/// One drag step from the previous target and the aware window found now. Only a
/// change of WINDOW leaves and enters; the same window found again keeps the target as
/// it was.
pub fn drag_step(previous: Option<(u32, u32)>, found: Option<(u32, u32)>) -> (r: DragStep)
    ensures
        target_window(found) != target_window(previous) ==> r == (DragStep {
            leave: target_window(previous),
            enter: found,
            target: found,
        }),
        target_window(found) == target_window(previous) ==> r == (DragStep {
            leave: None,
            enter: None,
            target: previous,
        }),
{
    let changed = match (found, previous) {
        (Some((a, _)), Some((b, _))) => a != b,
        (None, None) => false,
        _ => true,
    };
    if changed {
        let leave = match previous {
            Some((w, _)) => Some(w),
            None => None,
        };
        DragStep { leave, enter: found, target: found }
    } else {
        DragStep { leave: None, enter: None, target: previous }
    }
}

/// The data words of `XdndEnter`: the source window, the protocol version in the top
/// byte of the second word, and the one offered type.
pub fn xdnd_enter_data(source: u32, version: u32, offered: u32) -> (r: [u32; 5])
    ensures
        r@ == seq![source, version << 24u32, offered, 0u32, 0u32],
{
    [source, version << 24u32, offered, 0, 0]
}

/// Motion is logged at most once a second per subject: due when nothing was logged
/// yet, or when at least 1000 ms have passed since the last line (a clock that went
/// backwards counts as no time passed).
pub fn motion_due(last_ms: Option<u64>, now_ms: u64) -> (r: bool)
    ensures
        r == match last_ms {
            None => true,
            Some(at) => now_ms >= at && now_ms - at >= 1000,
        },
{
    match last_ms {
        None => true,
        Some(at) => now_ms >= at && now_ms - at >= 1000,
    }
}

/// A window-creating command's requested size reaches the window unchanged, width
/// first, and a child is placed at its offset from the parent's configured position:
/// `map`, `map-argb`, `map-transient`, `or` and `map-child` each create a window of the
/// `w` x `h` they name; `or` and `map-child` put it at (parent x + dx, parent y + dy);
/// `map-transient` and `map-child` name the parent's X window as transient parent;
/// `map-child` keeps the override-redirect flag and window type it was given.
pub proof fn lemma_created_geometry(
    next_id: u32,
    parent: (u32, i16, i16),
    p: u32,
    dx: i16,
    dy: i16,
    w: u16,
    h: u16,
    or: bool,
    t: WmType,
)
    ensures
        create_spec_of(Command::MapWindow(w, h), next_id, parent).w == w,
        create_spec_of(Command::MapWindow(w, h), next_id, parent).h == h,
        create_spec_of(Command::MapArgb(w, h), next_id, parent).w == w,
        create_spec_of(Command::MapArgb(w, h), next_id, parent).h == h,
        create_spec_of(Command::MapArgb(w, h), next_id, parent).argb,
        create_spec_of(Command::MapTransient(p, w, h), next_id, parent).w == w,
        create_spec_of(Command::MapTransient(p, w, h), next_id, parent).h == h,
        create_spec_of(Command::MapTransient(p, w, h), next_id, parent).transient_for == Some(
            parent.0,
        ),
        !create_spec_of(Command::MapTransient(p, w, h), next_id, parent).override_redirect,
        create_spec_of(Command::Or(p, dx, dy, w, h), next_id, parent).w == w,
        create_spec_of(Command::Or(p, dx, dy, w, h), next_id, parent).h == h,
        create_spec_of(Command::Or(p, dx, dy, w, h), next_id, parent).override_redirect,
        create_spec_of(Command::MapChild(p, dx, dy, w, h, or, t), next_id, parent).w == w,
        create_spec_of(Command::MapChild(p, dx, dy, w, h, or, t), next_id, parent).h == h,
        create_spec_of(Command::MapChild(p, dx, dy, w, h, or, t), next_id, parent).override_redirect
            == or,
        create_spec_of(Command::MapChild(p, dx, dy, w, h, or, t), next_id, parent).wm_type == t,
        create_spec_of(Command::MapChild(p, dx, dy, w, h, or, t), next_id, parent).transient_for
            == Some(parent.0),
        create_fits(Command::Or(p, dx, dy, w, h), next_id, parent) ==> create_spec_of(
            Command::Or(p, dx, dy, w, h),
            next_id,
            parent,
        ).x == parent.1 + dx && create_spec_of(Command::Or(p, dx, dy, w, h), next_id, parent).y
            == parent.2 + dy,
        create_fits(Command::MapChild(p, dx, dy, w, h, or, t), next_id, parent) ==> create_spec_of(
            Command::MapChild(p, dx, dy, w, h, or, t),
            next_id,
            parent,
        ).x == parent.1 + dx && create_spec_of(
            Command::MapChild(p, dx, dy, w, h, or, t),
            next_id,
            parent,
        ).y == parent.2 + dy,
{
}

} // verus!
