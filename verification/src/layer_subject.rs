//! The layer-shell subject's parameters and what each command does to them.
//!
//! The subject owns one layer surface and reconfigures it on command. [`SubjectState::apply`]
//! is the decision: it updates the parameters and returns the [`Reaction`] the event loop
//! carries out on the compositor (push the parameters, add or move a popup, rebuild the
//! surface, ...). The loop redraws afterwards whenever the surface is configured.

use vstd::prelude::*;

use crate::layer_protocol::{Anchor, Command, ForeignCtl, Kbd, Layer, Region, ScaleReq};
use crate::layer_controller::{
    subject_flags, Params, NO_FOREIGN_EXT, NO_FOREIGN_WLR, NO_FRACTIONAL_SCALE, NO_VIEWPORTER,
};
use crate::harness::{age_click, rem_toward_zero};
use crate::text::{push_char, string_from, texts_of};

verus! {

/// Anchor bit for the top edge (`zwlr_layer_surface_v1.anchor`).
pub const ANCHOR_TOP: u32 = 1;

/// Anchor bit for the bottom edge.
pub const ANCHOR_BOTTOM: u32 = 2;

/// Anchor bit for the left edge.
pub const ANCHOR_LEFT: u32 = 4;

/// Anchor bit for the right edge.
pub const ANCHOR_RIGHT: u32 = 8;

/// The subject's adjustable parameters.
#[derive(Clone, Copy, Debug)]
pub struct SubjectState {
    pub layer: Layer,
    /// Anchored edges, as [`ANCHOR_TOP`] and friends.
    pub anchor_bits: u32,
    pub excl: i32,
    /// Margins: top, right, bottom, left.
    pub margins: (i32, i32, i32, i32),
    pub kbd: Kbd,
    pub req_size: (u32, u32),
    /// Index of the output the surface is created on.
    pub output_sel: usize,
    pub scale: ScaleReq,
    pub input_region: Region,
    pub opaque: bool,
    pub transparent: bool,
    pub animate: bool,
    pub pop_anchor: Anchor,
    pub pop_gravity: Anchor,
    pub pop_off: (i32, i32),
    pub pop_size: (i32, i32),
    /// Index of the selected foreign toplevel.
    pub foreign_sel: usize,
    /// Set once the subject was told to quit.
    pub exit: bool,
}

/// What the event loop does on the compositor after a command.
#[derive(Clone, Copy, Debug, PartialEq, Eq, Structural)]
pub enum Reaction {
    /// Push anchor, exclusive zone, margins, keyboard interactivity and size to the surface.
    Reconfigure,
    /// Move the live surface to this layer, then push the parameters.
    SetLayer(Layer),
    /// Open a popup from the layer surface with the current popup parameters.
    AddPopup,
    /// Close the newest popup.
    ClosePopup,
    /// Move the newest popup's offset by this much.
    MovePopup(i32, i32),
    /// Set the input region to the current shape.
    InputRegion,
    /// Set or clear the opaque region.
    OpaqueRegion,
    /// Destroy the surface and build it again, on the selected output.
    Recreate,
    /// Issue this request on the selected foreign toplevel.
    Foreign(ForeignCtl),
    /// Nothing to send.
    Idle,
}

/// `v` as `i64` the way a cast wraps it.
pub open spec fn wrap_i64(v: usize) -> int {
    (v as i64) as int
}

/// `a` modulo `n`, never negative (`rem_euclid`).
pub open spec fn rem_euclid(a: int, n: int) -> int {
    a % n
}

/// Whether a command can be applied without an arithmetic overflow.
pub open spec fn apply_fits(s: SubjectState, cmd: Command) -> bool {
    match cmd {
        Command::OutputCycle => s.output_sel < usize::MAX,
        Command::ForeignSel(d) => i64::MIN <= wrap_i64(s.foreign_sel) + d <= i64::MAX,
        _ => true,
    }
}

/// The parameters and reaction after `cmd`, with `outputs` outputs known and `tops`
/// foreign toplevels listed.
pub open spec fn applied(s: SubjectState, cmd: Command, outputs: nat, tops: nat) -> (
    SubjectState,
    Reaction,
) {
    match cmd {
        Command::SetLayer(l) => (SubjectState { layer: l, ..s }, Reaction::SetLayer(l)),
        Command::AnchorTop => (
            SubjectState { anchor_bits: s.anchor_bits ^ ANCHOR_TOP, ..s },
            Reaction::Reconfigure,
        ),
        Command::AnchorBottom => (
            SubjectState { anchor_bits: s.anchor_bits ^ ANCHOR_BOTTOM, ..s },
            Reaction::Reconfigure,
        ),
        Command::AnchorLeft => (
            SubjectState { anchor_bits: s.anchor_bits ^ ANCHOR_LEFT, ..s },
            Reaction::Reconfigure,
        ),
        Command::AnchorRight => (
            SubjectState { anchor_bits: s.anchor_bits ^ ANCHOR_RIGHT, ..s },
            Reaction::Reconfigure,
        ),
        Command::AnchorAll => (
            SubjectState { anchor_bits: ANCHOR_TOP | ANCHOR_BOTTOM | ANCHOR_LEFT | ANCHOR_RIGHT, ..s },
            Reaction::Reconfigure,
        ),
        Command::AnchorNone => (SubjectState { anchor_bits: 0, ..s }, Reaction::Reconfigure),
        Command::Excl(n) => (SubjectState { excl: n, ..s }, Reaction::Reconfigure),
        Command::Margin(t, r, b, l) => (
            SubjectState { margins: (t, r, b, l), ..s },
            Reaction::Reconfigure,
        ),
        Command::Keyboard(k) => (SubjectState { kbd: k, ..s }, Reaction::Reconfigure),
        Command::Size(w, h) => (SubjectState { req_size: (w, h), ..s }, Reaction::Reconfigure),
        Command::PopupAdd => (s, Reaction::AddPopup),
        Command::PopupClose => (s, Reaction::ClosePopup),
        Command::PopupAnchor(a) => (SubjectState { pop_anchor: a, ..s }, Reaction::Reconfigure),
        Command::PopupGravity(g) => (SubjectState { pop_gravity: g, ..s }, Reaction::Reconfigure),
        Command::PopupOff(x, y) => (SubjectState { pop_off: (x, y), ..s }, Reaction::Reconfigure),
        Command::PopupSize(w, h) => (
            SubjectState { pop_size: (#[verifier::truncate] (w as i32), #[verifier::truncate] (h as i32)), ..s },
            Reaction::Reconfigure,
        ),
        Command::PopupMove(dx, dy) => (s, Reaction::MovePopup(dx, dy)),
        Command::Input(r) => (SubjectState { input_region: r, ..s }, Reaction::InputRegion),
        Command::Opaque(on) => (SubjectState { opaque: on, ..s }, Reaction::OpaqueRegion),
        Command::OutputCycle => {
            let n = if outputs == 0 {
                1
            } else {
                outputs as int
            };
            (
                SubjectState { output_sel: ((s.output_sel + 1) % n) as usize, ..s },
                Reaction::Recreate,
            )
        },
        Command::Scale(m) => (SubjectState { scale: m, ..s }, Reaction::Reconfigure),
        Command::Transparent(on) => (SubjectState { transparent: on, ..s }, Reaction::Reconfigure),
        Command::Animate(on) => (SubjectState { animate: on, ..s }, Reaction::Reconfigure),
        Command::ForeignSel(d) => if tops > 0 {
            (
                SubjectState {
                    foreign_sel: rem_euclid(wrap_i64(s.foreign_sel) + d, tops as int) as usize,
                    ..s
                },
                Reaction::Idle,
            )
        } else {
            (s, Reaction::Idle)
        },
        Command::Foreign(c) => (s, Reaction::Foreign(c)),
        Command::Recreate => (s, Reaction::Recreate),
        Command::Quit => (SubjectState { exit: true, ..s }, Reaction::Idle),
    }
}

impl SubjectState {
    /// The parameters a subject starts with: on the top layer, anchored top-left, no
    /// exclusive zone or margins, no keyboard, 480 × 320, on the first output, plain buffer
    /// scale, full input region, no opaque region, opaque and still; popups 160 × 120
    /// anchored bottom-left with bottom-right gravity.
    pub fn new() -> (r: SubjectState)
        ensures
            r == (SubjectState {
                layer: Layer::Top,
                anchor_bits: ANCHOR_TOP | ANCHOR_LEFT,
                excl: 0,
                margins: (0, 0, 0, 0),
                kbd: Kbd::Disabled,
                req_size: (480, 320),
                output_sel: 0,
                scale: ScaleReq::Normal,
                input_region: Region::Full,
                opaque: false,
                transparent: false,
                animate: false,
                pop_anchor: Anchor::BottomLeft,
                pop_gravity: Anchor::BottomRight,
                pop_off: (0, 0),
                pop_size: (160, 120),
                foreign_sel: 0,
                exit: false,
            }),
    {
        SubjectState {
            layer: Layer::Top,
            anchor_bits: ANCHOR_TOP | ANCHOR_LEFT,
            excl: 0,
            margins: (0, 0, 0, 0),
            kbd: Kbd::Disabled,
            req_size: (480, 320),
            output_sel: 0,
            scale: ScaleReq::Normal,
            input_region: Region::Full,
            opaque: false,
            transparent: false,
            animate: false,
            pop_anchor: Anchor::BottomLeft,
            pop_gravity: Anchor::BottomRight,
            pop_off: (0, 0),
            pop_size: (160, 120),
            foreign_sel: 0,
            exit: false,
        }
    }

    /// Applies one command. `outputs` is how many outputs the compositor advertises and
    /// `tops` how many foreign toplevels the wlr manager lists; they bound the output and
    /// toplevel selections, which wrap around.
    pub fn apply(&mut self, cmd: Command, outputs: usize, tops: usize) -> (r: Reaction)
        requires
            apply_fits(*old(self), cmd),
        ensures
            (*final(self), r) == applied(*old(self), cmd, outputs as nat, tops as nat),
    {
        match cmd {
            Command::SetLayer(l) => {
                self.layer = l;
                Reaction::SetLayer(l)
            },
            Command::AnchorTop => {
                self.anchor_bits = self.anchor_bits ^ ANCHOR_TOP;
                Reaction::Reconfigure
            },
            Command::AnchorBottom => {
                self.anchor_bits = self.anchor_bits ^ ANCHOR_BOTTOM;
                Reaction::Reconfigure
            },
            Command::AnchorLeft => {
                self.anchor_bits = self.anchor_bits ^ ANCHOR_LEFT;
                Reaction::Reconfigure
            },
            Command::AnchorRight => {
                self.anchor_bits = self.anchor_bits ^ ANCHOR_RIGHT;
                Reaction::Reconfigure
            },
            Command::AnchorAll => {
                self.anchor_bits = ANCHOR_TOP | ANCHOR_BOTTOM | ANCHOR_LEFT | ANCHOR_RIGHT;
                Reaction::Reconfigure
            },
            Command::AnchorNone => {
                self.anchor_bits = 0;
                Reaction::Reconfigure
            },
            Command::Excl(n) => {
                self.excl = n;
                Reaction::Reconfigure
            },
            Command::Margin(t, r, b, l) => {
                self.margins = (t, r, b, l);
                Reaction::Reconfigure
            },
            Command::Keyboard(k) => {
                self.kbd = k;
                Reaction::Reconfigure
            },
            Command::Size(w, h) => {
                self.req_size = (w, h);
                Reaction::Reconfigure
            },
            Command::PopupAdd => Reaction::AddPopup,
            Command::PopupClose => Reaction::ClosePopup,
            Command::PopupAnchor(a) => {
                self.pop_anchor = a;
                Reaction::Reconfigure
            },
            Command::PopupGravity(g) => {
                self.pop_gravity = g;
                Reaction::Reconfigure
            },
            Command::PopupOff(x, y) => {
                self.pop_off = (x, y);
                Reaction::Reconfigure
            },
            Command::PopupSize(w, h) => {
                self.pop_size = (#[verifier::truncate] (w as i32), #[verifier::truncate] (h as i32));
                Reaction::Reconfigure
            },
            Command::PopupMove(dx, dy) => Reaction::MovePopup(dx, dy),
            Command::Input(r) => {
                self.input_region = r;
                Reaction::InputRegion
            },
            Command::Opaque(on) => {
                self.opaque = on;
                Reaction::OpaqueRegion
            },
            Command::OutputCycle => {
                let n = if outputs == 0 {
                    1
                } else {
                    outputs
                };
                self.output_sel = (self.output_sel + 1) % n;
                Reaction::Recreate
            },
            Command::Scale(m) => {
                self.scale = m;
                Reaction::Reconfigure
            },
            Command::Transparent(on) => {
                self.transparent = on;
                Reaction::Reconfigure
            },
            Command::Animate(on) => {
                self.animate = on;
                Reaction::Reconfigure
            },
            Command::ForeignSel(d) => {
                if tops > 0 {
                    let i: i64 = (self.foreign_sel as i64) + (d as i64);
                    self.foreign_sel = euclid_index(i, tops);
                }
                Reaction::Idle
            },
            Command::Foreign(c) => Reaction::Foreign(c),
            Command::Recreate => Reaction::Recreate,
            Command::Quit => {
                self.exit = true;
                Reaction::Idle
            },
        }
    }
}

/// `i` modulo `n`, as an index below `n`.
fn euclid_index(i: i64, n: usize) -> (r: usize)
    requires
        n > 0,
    ensures
        r == rem_euclid(i as int, n as int),
        r < n,
{
    if i >= 0 {
        let u = i as u64;
        let m = n as u64;
        (u % m) as usize
    } else {
        let u = (-(i as i128)) as u128;
        let m = n as u128;
        let k = u % m;
        let r = if k == 0 {
            0
        } else {
            m - k
        };
        proof {
            let a = i as int;
            let nn = n as int;
            let q = (u as int) / nn;
            vstd::arithmetic::div_mod::lemma_fundamental_div_mod(u as int, nn);
            assert(u as int == nn * q + k);
            if k == 0 {
                assert(a == (-q) * nn + 0) by (nonlinear_arith)
                    requires
                        a == -(u as int),
                        u as int == nn * q + k,
                        k == 0;
                vstd::arithmetic::div_mod::lemma_fundamental_div_mod_converse(a, nn, -q, 0);
            } else {
                assert(a == (-q - 1) * nn + (nn - k)) by (nonlinear_arith)
                    requires
                        a == -(u as int),
                        u as int == nn * q + k;
                vstd::arithmetic::div_mod::lemma_fundamental_div_mod_converse(a, nn, -q - 1, nn - k);
            }
        }
        r as usize
    }
}

/// Whether `edge` is among the anchored edges.
pub open spec fn anchored(bits: u32, edge: u32) -> bool {
    bits & edge != 0
}

/// Whether `e` is one of the four edge bits.
pub open spec fn is_edge(e: u32) -> bool {
    e == ANCHOR_TOP || e == ANCHOR_BOTTOM || e == ANCHOR_LEFT || e == ANCHOR_RIGHT
}

/// The edge an edge command toggles.
pub open spec fn edge_of(cmd: Command) -> u32 {
    match cmd {
        Command::AnchorTop => ANCHOR_TOP,
        Command::AnchorBottom => ANCHOR_BOTTOM,
        Command::AnchorLeft => ANCHOR_LEFT,
        _ => ANCHOR_RIGHT,
    }
}

proof fn lemma_edge_bits(x: u32, e: u32, f: u32)
    by (bit_vector)
    requires
        e == 1 || e == 2 || e == 4 || e == 8,
        f == 1 || f == 2 || f == 4 || f == 8,
    ensures
        ((x ^ e) & e != 0) == !(x & e != 0),
        e != f ==> (((x ^ e) & f != 0) == (x & f != 0)),
        (x ^ e) ^ e == x,
        (1u32 | 2u32 | 4u32 | 8u32) & f != 0,
        !(0u32 & f != 0),
{
}

/// Each edge command flips its own edge and leaves the other three as they were; sent
/// twice it gives back the parameters it started from.
pub proof fn lemma_anchor_toggle(s: SubjectState, cmd: Command, outputs: nat, tops: nat)
    requires
        cmd is AnchorTop || cmd is AnchorBottom || cmd is AnchorLeft || cmd is AnchorRight,
    ensures
        anchored(applied(s, cmd, outputs, tops).0.anchor_bits, edge_of(cmd)) == !anchored(
            s.anchor_bits,
            edge_of(cmd),
        ),
        forall|f: u32|
            is_edge(f) && f != edge_of(cmd) ==> anchored(
                #[trigger] applied(s, cmd, outputs, tops).0.anchor_bits,
                f,
            ) == anchored(s.anchor_bits, f),
        applied(applied(s, cmd, outputs, tops).0, cmd, outputs, tops).0 == s,
{
    let e = edge_of(cmd);
    lemma_edge_bits(s.anchor_bits, e, e);
    assert forall|f: u32| is_edge(f) && f != e implies anchored(
        #[trigger] applied(s, cmd, outputs, tops).0.anchor_bits,
        f,
    ) == anchored(s.anchor_bits, f) by {
        lemma_edge_bits(s.anchor_bits, e, f);
    }
}

/// `AnchorAll` anchors all four edges and `AnchorNone` none of them.
pub proof fn lemma_anchor_all_none(s: SubjectState, outputs: nat, tops: nat)
    ensures
        forall|f: u32|
            is_edge(f) ==> anchored(
                #[trigger] applied(s, Command::AnchorAll, outputs, tops).0.anchor_bits,
                f,
            ),
        forall|f: u32|
            is_edge(f) ==> !anchored(
                #[trigger] applied(s, Command::AnchorNone, outputs, tops).0.anchor_bits,
                f,
            ),
{
    assert forall|f: u32| is_edge(f) implies anchored(
        #[trigger] applied(s, Command::AnchorAll, outputs, tops).0.anchor_bits,
        f,
    ) && !anchored(applied(s, Command::AnchorNone, outputs, tops).0.anchor_bits, f) by {
        lemma_edge_bits(s.anchor_bits, f, f);
    }
}

/// Cycling the output selects an output that exists (the first when none is known), and
/// stepping the foreign-toplevel selection over a non-empty list lands on a listed one.
pub proof fn lemma_selection_in_range(s: SubjectState, d: i32, outputs: nat, tops: nat)
    ensures
        applied(s, Command::OutputCycle, outputs, tops).0.output_sel < if outputs == 0 {
            1
        } else {
            outputs
        },
        tops > 0 ==> applied(s, Command::ForeignSel(d), outputs, tops).0.foreign_sel < tops,
{
}

/// Which optional protocols the subject binds, given its arguments: viewporter, fractional
/// scale, wlr foreign toplevel and ext foreign toplevel, each unless its `--no-…` flag is
/// among the arguments.
pub open spec fn protocols_spec(args: Seq<Seq<char>>) -> (bool, bool, bool, bool) {
    (
        !args.contains(NO_VIEWPORTER@),
        !args.contains(NO_FRACTIONAL_SCALE@),
        !args.contains(NO_FOREIGN_WLR@),
        !args.contains(NO_FOREIGN_EXT@),
    )
}

/// Whether some argument is exactly `flag`.
fn has_arg(args: &Vec<String>, flag: &str) -> (r: bool)
    ensures
        r == texts_of(args@).contains(flag@),
{
    let f = string_from(flag);
    let mut i: usize = 0;
    while i < args.len()
        invariant
            i <= args@.len(),
            f@ == flag@,
            forall|k: int| 0 <= k < i ==> args@[k]@ != flag@,
        decreases args@.len() - i,
    {
        if args[i] == f {
            assert(texts_of(args@)[i as int] == flag@);
            return true;
        }
        i += 1;
    }
    assert forall|k: int| 0 <= k < texts_of(args@).len() implies texts_of(args@)[k] != flag@ by {
        assert(texts_of(args@)[k] == args@[k]@);
    }
    false
}

/// The optional protocols the subject binds, [`protocols_spec`] of its arguments.
pub fn protocols_from_args(args: &Vec<String>) -> (r: (bool, bool, bool, bool))
    ensures
        r == protocols_spec(texts_of(args@)),
{
    (
        !has_arg(args, NO_VIEWPORTER),
        !has_arg(args, NO_FRACTIONAL_SCALE),
        !has_arg(args, NO_FOREIGN_WLR),
        !has_arg(args, NO_FOREIGN_EXT),
    )
}

/// A subject spawned with the flags the controller derives from its protocol toggles
/// binds exactly the protocols the controller has switched on.
pub proof fn lemma_spawn_flags_round_trip(p: Params)
    ensures
        protocols_spec(subject_flags(p)) == (p.proto_vp, p.proto_fs, p.proto_fwlr, p.proto_fext),
{
    reveal_strlit("--no-viewporter");
    reveal_strlit("--no-fractional-scale");
    reveal_strlit("--no-foreign-wlr");
    reveal_strlit("--no-foreign-ext");
    let f = subject_flags(p);
    let a = NO_VIEWPORTER@;
    let b = NO_FRACTIONAL_SCALE@;
    let c = NO_FOREIGN_WLR@;
    let d = NO_FOREIGN_EXT@;
    assert(a != b && a != c && a != d && b != c && b != d && c != d) by {
        assert(a[5] != b[5] && a[5] != c[5] && a[5] != d[5]);
        assert(b[6] != c[6] && b[6] != d[6]);
        assert(c[13] != d[13]);
    }
    let s1: Seq<Seq<char>> = if p.proto_vp {
        Seq::empty()
    } else {
        seq![a]
    };
    let s2: Seq<Seq<char>> = if p.proto_fs {
        Seq::empty()
    } else {
        seq![b]
    };
    let s3: Seq<Seq<char>> = if p.proto_fwlr {
        Seq::empty()
    } else {
        seq![c]
    };
    let s4: Seq<Seq<char>> = if p.proto_fext {
        Seq::empty()
    } else {
        seq![d]
    };
    assert(f == s1 + s2 + s3 + s4);
    assert forall|x: Seq<char>| #[trigger] f.contains(x) == (s1.contains(x) || s2.contains(x)
        || s3.contains(x) || s4.contains(x)) by {
        vstd::seq_lib::lemma_seq_concat_contains_all_elements(s1, s2, x);
        vstd::seq_lib::lemma_seq_concat_contains_all_elements(s1 + s2, s3, x);
        vstd::seq_lib::lemma_seq_concat_contains_all_elements(s1 + s2 + s3, s4, x);
    }
    assert(s1.contains(a) == !p.proto_vp) by {
        if !p.proto_vp {
            assert(s1[0] == a);
        }
    }
    assert(s2.contains(b) == !p.proto_fs) by {
        if !p.proto_fs {
            assert(s2[0] == b);
        }
    }
    assert(s3.contains(c) == !p.proto_fwlr) by {
        if !p.proto_fwlr {
            assert(s3[0] == c);
        }
    }
    assert(s4.contains(d) == !p.proto_fext) by {
        if !p.proto_fext {
            assert(s4[0] == d);
        }
    }
    assert(f.contains(a) == !p.proto_vp);
    assert(f.contains(b) == !p.proto_fs);
    assert(f.contains(c) == !p.proto_fwlr);
    assert(f.contains(d) == !p.proto_fext);
}

/// The anchored edges as four characters, `TBLR` with `-` for an edge not anchored.
pub open spec fn anchor_text(bits: u32) -> Seq<char> {
    seq![
        if bits & ANCHOR_TOP != 0 { 'T' } else { '-' },
        if bits & ANCHOR_BOTTOM != 0 { 'B' } else { '-' },
        if bits & ANCHOR_LEFT != 0 { 'L' } else { '-' },
        if bits & ANCHOR_RIGHT != 0 { 'R' } else { '-' },
    ]
}

/// The anchored edges for the state overlay, [`anchor_text`].
pub fn anchor_str(bits: u32) -> (r: String)
    ensures
        r@ == anchor_text(bits),
{
    let mut s = string_from("");
    push_char(&mut s, if bits & ANCHOR_TOP != 0 { 'T' } else { '-' });
    push_char(&mut s, if bits & ANCHOR_BOTTOM != 0 { 'B' } else { '-' });
    push_char(&mut s, if bits & ANCHOR_LEFT != 0 { 'L' } else { '-' });
    push_char(&mut s, if bits & ANCHOR_RIGHT != 0 { 'R' } else { '-' });
    proof {
        reveal_strlit("");
    }
    assert(s@ =~= anchor_text(bits));
    s
}

/// What one animation tick of the layer subject changes and draws.
#[derive(Clone, Copy, Debug, PartialEq, Eq, Structural)]
pub struct LayerTick {
    /// The animation phase, in degrees.
    pub anim_phase: i32,
    /// The click marker's remaining life.
    pub click: Option<u32>,
    /// Draw for the animation.
    pub anim_draw: bool,
    /// Draw for the click marker.
    pub click_draw: bool,
}

/// The layer subject's tick: the animation advances 3 degrees while it runs on a
/// configured surface, and a click marker ages one frame (redrawn when configured).
pub fn layer_tick(animate: bool, configured: bool, anim_phase: i32, click: Option<u32>) -> (r: LayerTick)
    requires
        animate && configured ==> anim_phase <= i32::MAX - 3,
    ensures
        r.anim_draw == (animate && configured),
        r.anim_phase == if animate && configured {
            rem_toward_zero(anim_phase + 3, 360)
        } else {
            anim_phase as int
        },
        r.click == match click {
            Some(n) => if n > 0 {
                Some((n - 1) as u32)
            } else {
                None
            },
            None => None,
        },
        r.click_draw == (click is Some && configured),
{
    let anim = animate && configured;
    let phase = if anim {
        (anim_phase + 3) % 360
    } else {
        anim_phase
    };
    let (c, touched) = age_click(click);
    LayerTick { anim_phase: phase, click: c, anim_draw: anim, click_draw: touched && configured }
}

/// One operation on a `wl_region`.
#[derive(Clone, Copy, Debug, PartialEq, Eq, Structural)]
pub enum RegionOp {
    Add(i32, i32, i32, i32),
    Subtract(i32, i32, i32, i32),
}

/// `k` is the integer square root of `n`.
pub open spec fn is_isqrt(n: int, k: int) -> bool {
    0 <= k && k * k <= n < (k + 1) * (k + 1)
}

/// Rust's `/` on signed integers: the quotient is rounded toward zero.
pub open spec fn div_toward_zero(a: int, n: int) -> int {
    if a >= 0 {
        a / n
    } else {
        -((-a) / n)
    }
}

/// The integer square root of `n`, by bisection.
fn isqrt(n: i32) -> (k: i32)
    requires
        n >= 0,
    ensures
        is_isqrt(n as int, k as int),
{
    let mut lo: i64 = 0;
    let mut hi: i64 = 46341;
    assert(46341 * 46341 > i32::MAX) by (nonlinear_arith);
    while hi - lo > 1
        invariant
            0 <= lo < hi <= 46341,
            lo * lo <= n,
            n < hi * hi,
        decreases hi - lo,
    {
        let mid = lo + (hi - lo) / 2;
        assert(0 <= mid * mid <= 46341 * 46341) by (nonlinear_arith)
            requires
                0 <= mid <= 46341,
        ;
        if mid * mid <= n as i64 {
            lo = mid;
        } else {
            hi = mid;
        }
    }
    assert(hi == lo + 1);
    lo as i32
}

/// Row `i` (of 16) of the rectangle-approximated disc centred in a `w` x `h` surface:
/// a band from `yy` to the next row's `yy`, as wide as the disc at the band's middle.
pub open spec fn disc_row_ok(w: int, h: int, i: int, op: RegionOp) -> bool {
    let (cx, cy, r) = (w / 2, h / 2, if w < h { w / 2 } else { h / 2 });
    let yy = -r + (2 * r) * i / 16;
    let yy2 = -r + (2 * r) * (i + 1) / 16;
    let ymid = div_toward_zero(yy + yy2, 2);
    let under = if r * r - ymid * ymid > 0 { r * r - ymid * ymid } else { 0 };
    op matches RegionOp::Add(x, y, ww, hh) && is_isqrt(under, cx - x) && ww == 2 * (cx - x)
        && y == cy + yy && hh == if yy2 - yy > 1 { yy2 - yy } else { 1 }
}

/// The input region a layer surface of configured size `w` x `h` (each at least 1) gets:
/// `None` for the whole surface, else the region built by these operations: empty for
/// click-through, a 16-band disc, or the whole surface minus a centred hole.
pub fn input_region_plan(region: Region, cfg_w: i32, cfg_h: i32) -> (r: Option<Vec<RegionOp>>)
    requires
        region == Region::Circle ==> (if cfg_w < cfg_h { cfg_w } else { cfg_h }) / 2 <= 46340,
    ensures
        ({
            let w = if cfg_w > 1 { cfg_w as int } else { 1 };
            let h = if cfg_h > 1 { cfg_h as int } else { 1 };
            match region {
                Region::Full => r is None,
                Region::Empty => r matches Some(v) && v@.len() == 0,
                Region::Holes => r matches Some(v) && v@ == seq![
                    RegionOp::Add(0, 0, w as i32, h as i32),
                    RegionOp::Subtract((w / 4) as i32, (h / 4) as i32, (w / 2) as i32, (h / 2) as i32),
                ],
                Region::Circle => r matches Some(v) && v@.len() == 16 && forall|i: int|
                    0 <= i < 16 ==> disc_row_ok(w, h, i, #[trigger] v@[i]),
            }
        }),
{
    let w: i32 = if cfg_w > 1 { cfg_w } else { 1 };
    let h: i32 = if cfg_h > 1 { cfg_h } else { 1 };
    match region {
        Region::Full => None,
        Region::Empty => Some(Vec::new()),
        Region::Holes => Some(vec![RegionOp::Add(0, 0, w, h), RegionOp::Subtract(w / 4, h / 4, w / 2, h / 2)]),
        Region::Circle => {
            let cx = w / 2;
            let cy = h / 2;
            let r = if w < h { w / 2 } else { h / 2 };
            assert(0 <= r * r <= 46340 * 46340) by (nonlinear_arith)
                requires
                    0 <= r <= 46340,
            ;
            let mut ops: Vec<RegionOp> = Vec::new();
            let mut i: i32 = 0;
            while i < 16
                invariant
                    0 <= i <= 16,
                    w == (if cfg_w > 1 { cfg_w as int } else { 1 }),
                    h == (if cfg_h > 1 { cfg_h as int } else { 1 }),
                    cx == w / 2,
                    cy == h / 2,
                    r == (if w < h { w / 2 } else { h / 2 }),
                    0 <= r <= 46340,
                    r * r <= 46340 * 46340,
                    ops@.len() == i,
                    forall|j: int| 0 <= j < i ==> disc_row_ok(w as int, h as int, j, #[trigger] ops@[j]),
                decreases 16 - i,
            {
                assert(0 <= (2 * r) * i <= 2 * 46340 * 16 && 0 <= (2 * r) * (i + 1) <= 2 * 46340 * 16)
                    by (nonlinear_arith)
                    requires
                        0 <= r <= 46340,
                        0 <= i < 16,
                ;
                let yy = -r + (2 * r) * i / 16;
                let yy2 = -r + (2 * r) * (i + 1) / 16;
                assert(-r <= yy <= r && -r <= yy2 <= r) by (nonlinear_arith)
                    requires
                        0 <= r <= 46340,
                        0 <= i < 16,
                        yy == -r + (2 * r) * i / 16,
                        yy2 == -r + (2 * r) * (i + 1) / 16,
                ;
                let ymid = (yy + yy2) / 2;
                assert(-r <= ymid <= r);
                assert(0 <= ymid * ymid <= r * r) by (nonlinear_arith)
                    requires
                        -r <= ymid <= r,
                ;
                let d = r * r - ymid * ymid;
                let under = if d > 0 { d } else { 0 };
                let half = isqrt(under);
                assert(half <= r) by (nonlinear_arith)
                    requires
                        0 <= half,
                        half * half <= under,
                        under <= r * r,
                        0 <= r,
                ;
                let span = yy2 - yy;
                let op = RegionOp::Add(cx - half, cy + yy, half * 2, if span > 1 { span } else { 1 });
                ops.push(op);
                assert(disc_row_ok(w as int, h as int, i as int, op));
                i += 1;
            }
            Some(ops)
        },
    }
}

/// The opaque region: the whole configured surface when opaque, else none.
pub fn opaque_region_plan(opaque: bool, cfg_w: i32, cfg_h: i32) -> (r: Option<RegionOp>)
    ensures
        r == if opaque {
            Some(
                RegionOp::Add(
                    0,
                    0,
                    if cfg_w > 1 { cfg_w } else { 1 },
                    if cfg_h > 1 { cfg_h } else { 1 },
                ),
            )
        } else {
            None::<RegionOp>
        },
{
    if opaque {
        Some(RegionOp::Add(0, 0, if cfg_w > 1 { cfg_w } else { 1 }, if cfg_h > 1 { cfg_h } else { 1 }))
    } else {
        None
    }
}

/// Commands that carry a pair or quadruple store it in the order it was sent: `size w h`
/// requests width `w` and height `h`, `popup-off x y` offsets popups by `x` across and
/// `y` down, `margin t r b l` sets the top, right, bottom and left margins, and
/// `popup-move dx dy` moves the popup by `dx` across and `dy` down; nothing else changes.
pub proof fn lemma_pairs_in_order(
    s: SubjectState,
    outputs: nat,
    tops: nat,
    w: u32,
    h: u32,
    x: i32,
    y: i32,
    m: (i32, i32, i32, i32),
)
    ensures
        applied(s, Command::Size(w, h), outputs, tops).0.req_size.0 == w,
        applied(s, Command::Size(w, h), outputs, tops).0.req_size.1 == h,
        (SubjectState { req_size: s.req_size, ..applied(s, Command::Size(w, h), outputs, tops).0 })
            == s,
        applied(s, Command::PopupOff(x, y), outputs, tops).0.pop_off.0 == x,
        applied(s, Command::PopupOff(x, y), outputs, tops).0.pop_off.1 == y,
        (SubjectState { pop_off: s.pop_off, ..applied(s, Command::PopupOff(x, y), outputs, tops).0 })
            == s,
        applied(s, Command::Margin(m.0, m.1, m.2, m.3), outputs, tops).0.margins == m,
        applied(s, Command::PopupMove(x, y), outputs, tops) == (s, Reaction::MovePopup(x, y)),
{
}

} // verus!
