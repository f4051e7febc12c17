//! The window subject's toggles and what each command does to them.
//!
//! The subject is one xdg toplevel with popups, subsurfaces and a viewport, reconfigured on
//! command. [`WindowState::apply`] is the decision: it updates the toggles and returns the
//! [`Reaction`] the event loop carries out on the compositor, and whether the main surface
//! is redrawn afterwards (when it is configured and mapped).

use vstd::prelude::*;

use crate::harness::{age_click, rem_toward_zero, Render};
use crate::text::{string_from, texts_of};
use crate::window_controller::{
    subject_flags, Params, NO_DECORATION, NO_FRACTIONAL_SCALE, NO_SINGLE_PIXEL, NO_VIEWPORTER,
};
use crate::window_protocol::{Anchor, Command, DecoMode};

verus! {

/// How the subject sizes its buffer against the scale the compositor reports.
#[derive(Clone, Copy, Debug, PartialEq, Eq, Structural)]
pub enum ScaleMode {
    Normal,
    FsHonor,
    FsIgnore,
    /// Force this fractional scale (numerator of n/120).
    FsForce(u32),
    FsNoViewport,
    FsMismatch,
    DpiHonor,
    DpiIgnore,
    /// Force this integer buffer scale.
    DpiForce(i32),
    DpiNondiv,
    DpiMismatch,
    DpiZero,
}

/// The decoration mode the compositor last configured.
#[derive(Clone, Copy, Debug, PartialEq, Eq, Structural)]
pub enum DecoSide {
    Server,
    Client,
    /// A mode this subject does not know.
    Unknown,
}

/// The subject's toggles and requested geometry.
#[derive(Clone, Copy, Debug)]
pub struct WindowState {
    pub deco_requested: DecoMode,
    /// The decoration mode the compositor configured, once it has.
    pub deco_effective: Option<DecoSide>,
    pub deco_ignore: bool,
    pub deco_badsize: bool,
    /// Extra pixels added to the buffer beyond the configured size.
    pub buf_delta: i32,
    /// Attach a zero-sized buffer on the next frame.
    pub zero_once: bool,
    /// Do not ack configures.
    pub no_ack: bool,
    /// Ack the next configure before it arrives.
    pub preack_once: bool,
    pub geo_mismatch: bool,
    pub pop_anchor: Anchor,
    pub pop_gravity: Anchor,
    pub pop_off: (i32, i32),
    pub pop_size: (i32, i32),
    /// Viewport destination, when set.
    pub vp_dest: Option<(i32, i32)>,
    /// Viewport source rectangle, when set: the bit patterns of its four `f64` values.
    pub vp_src_bits: Option<(u64, u64, u64, u64)>,
    pub vp_animate: bool,
    pub scale_mode: ScaleMode,
    pub sp_no_viewport: bool,
    /// Unmap and map again on a timer.
    pub mapcycle: bool,
    pub show_counter: bool,
    /// Self-driven commit rate in Hz; 0 = animation tick only.
    pub commit_hz: u32,
    /// Commits issued since the rate was last set.
    pub commits: u32,
    pub pending_size: (i32, i32),
    pub cur_size: (i32, i32),
    pub exit: bool,
}

/// What the event loop does on the compositor after a command.
#[derive(Clone, Copy, Debug, PartialEq, Eq, Structural)]
pub enum Reaction {
    /// Nothing beyond the optional redraw.
    Idle,
    /// Ask the decoration object for this mode.
    SetDeco(DecoMode),
    /// Open a popup: on the toplevel, or on the newest popup when `nested`.
    AddPopup { nested: bool },
    /// Move the newest popup's offset by this much.
    MovePopup(i32, i32),
    /// Close the newest popup.
    ClosePopup,
    /// Add a subsurface: on the main surface, or on the newest subsurface when `nested`.
    AddSub { nested: bool },
    /// Move the newest subsurface by this much.
    MoveSub(i32, i32),
    /// Put the newest subsurface in synchronized mode.
    SubSync,
    /// Put the newest subsurface in desynchronized mode.
    SubDesync,
    /// Remove the newest subsurface.
    RemoveSub,
    /// Give the viewport an out-of-bounds source.
    BadViewport,
    /// Fill the main surface with a single-pixel buffer of this colour.
    FillMain(u8, u8, u8, u8),
    /// Fill a single-pixel subsurface with this colour.
    FillSub(u8, u8, u8, u8),
    /// Set the tearing hint: asynchronous when `true`, vsync otherwise.
    Tearing(bool),
    /// Draw the counter overlay now.
    DrawCounter,
    /// Restart the commit-rate clock.
    RestartCommitClock,
    /// Map (`true`) or unmap the toplevel.
    SetMapped(bool),
}

/// Whether a command can be applied without an arithmetic overflow.
pub open spec fn apply_fits(s: WindowState, cmd: Command) -> bool {
    match cmd {
        Command::VpDestDelta(d) => {
            let base = match s.vp_dest {
                Some(v) => v,
                None => s.cur_size,
            };
            i32::MIN <= base.0 + d <= i32::MAX && i32::MIN <= base.1 + d <= i32::MAX
        },
        _ => true,
    }
}

/// The toggles after `cmd`.
#[verifier::opaque]
pub open spec fn next_state(s: WindowState, cmd: Command) -> WindowState {
    match cmd {
        Command::DecoMode(m) => WindowState { deco_requested: m, ..s },
        Command::DecoIgnore => WindowState { deco_ignore: !s.deco_ignore, ..s },
        Command::DecoBadsize => WindowState { deco_badsize: !s.deco_badsize, ..s },
        Command::BufAgreed => WindowState { buf_delta: 0, ..s },
        Command::BufDelta(d) => WindowState { buf_delta: d, ..s },
        Command::BufZero => WindowState { zero_once: true, ..s },
        Command::BufNoack => WindowState { no_ack: !s.no_ack, ..s },
        Command::BufPreack => WindowState { preack_once: true, ..s },
        Command::GeoMismatch => WindowState { geo_mismatch: !s.geo_mismatch, ..s },
        Command::PopupAdd => s,
        Command::PopupNest => s,
        Command::PopupAnchor(a) => WindowState { pop_anchor: a, ..s },
        Command::PopupGravity(g) => WindowState { pop_gravity: g, ..s },
        Command::PopupOff(x, y) => WindowState { pop_off: (x, y), ..s },
        Command::PopupSize(w, h) => WindowState {
                pop_size: (#[verifier::truncate] (w as i32), #[verifier::truncate] (h as i32)),
                ..s
            },
        Command::PopupMove(dx, dy) => s,
        Command::PopupClose => s,
        Command::SubAdd => s,
        Command::SubNest => s,
        Command::SubMove(dx, dy) => s,
        Command::SubSync => s,
        Command::SubDesync => s,
        Command::SubRemove => s,
        Command::VpDest(w, h) => WindowState { vp_dest: Some((w, h)), ..s },
        Command::VpDestDelta(d) => {
            let base = match s.vp_dest {
                Some(v) => v,
                None => s.cur_size,
            };
            WindowState { vp_dest: Some(((base.0 + d) as i32, (base.1 + d) as i32)), ..s }
        },
        Command::VpAnimate(on) => WindowState { vp_animate: on, ..s },
        Command::VpUnset => WindowState { vp_dest: None, vp_src_bits: None, ..s },
        Command::VpBad => s,
        Command::FsHonor => WindowState { scale_mode: ScaleMode::FsHonor, ..s },
        Command::FsIgnore => WindowState { scale_mode: ScaleMode::FsIgnore, ..s },
        Command::FsScale(n) => WindowState { scale_mode: ScaleMode::FsForce(n), ..s },
        Command::FsNoViewport => WindowState { scale_mode: ScaleMode::FsNoViewport, ..s },
        Command::FsMismatch => WindowState { scale_mode: ScaleMode::FsMismatch, ..s },
        Command::DpiHonor => WindowState { scale_mode: ScaleMode::DpiHonor, ..s },
        Command::DpiIgnore => WindowState { scale_mode: ScaleMode::DpiIgnore, ..s },
        Command::DpiScale(n) => WindowState { scale_mode: ScaleMode::DpiForce(n), ..s },
        Command::DpiNondiv => WindowState { scale_mode: ScaleMode::DpiNondiv, ..s },
        Command::DpiMismatch => WindowState { scale_mode: ScaleMode::DpiMismatch, ..s },
        Command::DpiZero => WindowState { scale_mode: ScaleMode::DpiZero, ..s },
        Command::SpFill(r, g, b, a) => s,
        Command::SpSub(r, g, b, a) => s,
        Command::SpNoViewport => WindowState { sp_no_viewport: !s.sp_no_viewport, ..s },
        Command::Tearing(on) => s,
        Command::CommitRate(hz) => WindowState { commit_hz: hz, commits: 0, ..s },
        Command::ShowCounter(on) => WindowState { show_counter: on, ..s },
        Command::MapWindow => s,
        Command::Unmap => s,
        Command::MapCycle(on) => WindowState { mapcycle: on, ..s },
        Command::Size(w, h) => {
            let sz = (#[verifier::truncate] (w as i32), #[verifier::truncate] (h as i32));
            WindowState { pending_size: sz, cur_size: sz, ..s }
        },
        Command::Quit => WindowState { exit: true, ..s },
    }
}

/// What the event loop does on the compositor for `cmd`.
#[verifier::opaque]
pub open spec fn reaction_of(cmd: Command) -> Reaction {
    match cmd {
        Command::DecoMode(m) => Reaction::SetDeco(m),
        Command::DecoIgnore => Reaction::Idle,
        Command::DecoBadsize => Reaction::Idle,
        Command::BufAgreed => Reaction::Idle,
        Command::BufDelta(d) => Reaction::Idle,
        Command::BufZero => Reaction::Idle,
        Command::BufNoack => Reaction::Idle,
        Command::BufPreack => Reaction::Idle,
        Command::GeoMismatch => Reaction::Idle,
        Command::PopupAdd => Reaction::AddPopup { nested: false },
        Command::PopupNest => Reaction::AddPopup { nested: true },
        Command::PopupAnchor(a) => Reaction::Idle,
        Command::PopupGravity(g) => Reaction::Idle,
        Command::PopupOff(x, y) => Reaction::Idle,
        Command::PopupSize(w, h) => Reaction::Idle,
        Command::PopupMove(dx, dy) => Reaction::MovePopup(dx, dy),
        Command::PopupClose => Reaction::ClosePopup,
        Command::SubAdd => Reaction::AddSub { nested: false },
        Command::SubNest => Reaction::AddSub { nested: true },
        Command::SubMove(dx, dy) => Reaction::MoveSub(dx, dy),
        Command::SubSync => Reaction::SubSync,
        Command::SubDesync => Reaction::SubDesync,
        Command::SubRemove => Reaction::RemoveSub,
        Command::VpDest(w, h) => Reaction::Idle,
        Command::VpDestDelta(d) => Reaction::Idle,
        Command::VpAnimate(on) => Reaction::Idle,
        Command::VpUnset => Reaction::Idle,
        Command::VpBad => Reaction::BadViewport,
        Command::FsHonor => Reaction::Idle,
        Command::FsIgnore => Reaction::Idle,
        Command::FsScale(n) => Reaction::Idle,
        Command::FsNoViewport => Reaction::Idle,
        Command::FsMismatch => Reaction::Idle,
        Command::DpiHonor => Reaction::Idle,
        Command::DpiIgnore => Reaction::Idle,
        Command::DpiScale(n) => Reaction::Idle,
        Command::DpiNondiv => Reaction::Idle,
        Command::DpiMismatch => Reaction::Idle,
        Command::DpiZero => Reaction::Idle,
        Command::SpFill(r, g, b, a) => Reaction::FillMain(r, g, b, a),
        Command::SpSub(r, g, b, a) => Reaction::FillSub(r, g, b, a),
        Command::SpNoViewport => Reaction::Idle,
        Command::Tearing(on) => Reaction::Tearing(on),
        Command::CommitRate(hz) => Reaction::RestartCommitClock,
        Command::ShowCounter(on) => Reaction::DrawCounter,
        Command::MapWindow => Reaction::SetMapped(true),
        Command::Unmap => Reaction::SetMapped(false),
        Command::MapCycle(on) => Reaction::Idle,
        Command::Size(w, h) => Reaction::Idle,
        Command::Quit => Reaction::Idle,
    }
}

/// Whether the main surface is redrawn after `cmd`: always but after an out-of-bounds
/// viewport, a single-pixel fill of the main surface and `quit`, which leave the surface
/// as they committed it.
pub open spec fn redraws(cmd: Command) -> bool {
    !(cmd is VpBad || cmd is SpFill || cmd is Quit)
}

impl WindowState {
    /// The toggles a subject starts with: server-side decorations requested, nothing
    /// ignored or mismatched, agreed buffer size, plain scale, no viewport, the counter
    /// shown, no self-driven commit rate, 480 × 320; popups 160 × 120 anchored
    /// bottom-left with bottom-right gravity.
    pub fn new() -> (r: WindowState)
        ensures
            r == (WindowState {
                deco_requested: DecoMode::Server,
                deco_effective: None,
                deco_ignore: false,
                deco_badsize: false,
                buf_delta: 0,
                zero_once: false,
                no_ack: false,
                preack_once: false,
                geo_mismatch: false,
                pop_anchor: Anchor::BottomLeft,
                pop_gravity: Anchor::BottomRight,
                pop_off: (0, 0),
                pop_size: (160, 120),
                vp_dest: None,
                vp_src_bits: None,
                vp_animate: false,
                scale_mode: ScaleMode::Normal,
                sp_no_viewport: false,
                mapcycle: false,
                show_counter: true,
                commit_hz: 0,
                commits: 0,
                pending_size: (480, 320),
                cur_size: (480, 320),
                exit: false,
            }),
    {
        WindowState {
            deco_requested: DecoMode::Server,
            deco_effective: None,
            deco_ignore: false,
            deco_badsize: false,
            buf_delta: 0,
            zero_once: false,
            no_ack: false,
            preack_once: false,
            geo_mismatch: false,
            pop_anchor: Anchor::BottomLeft,
            pop_gravity: Anchor::BottomRight,
            pop_off: (0, 0),
            pop_size: (160, 120),
            vp_dest: None,
            vp_src_bits: None,
            vp_animate: false,
            scale_mode: ScaleMode::Normal,
            sp_no_viewport: false,
            mapcycle: false,
            show_counter: true,
            commit_hz: 0,
            commits: 0,
            pending_size: (480, 320),
            cur_size: (480, 320),
            exit: false,
        }
    }

    /// Applies one command; returns what to do on the compositor and whether to redraw
    /// the main surface afterwards. A viewport-source command carries floating-point
    /// numbers and is not among these commands: the caller sets
    /// [`WindowState::vp_src_bits`] for it.
    pub fn apply(&mut self, cmd: Command) -> (r: (Reaction, bool))
        requires
            apply_fits(*old(self), cmd),
        ensures
            *final(self) == next_state(*old(self), cmd),
            r.0 == reaction_of(cmd),
            r.1 == redraws(cmd),
    {
        match cmd {
            Command::DecoMode { .. }
            | Command::DecoIgnore { .. }
            | Command::DecoBadsize { .. }
            | Command::BufAgreed { .. }
            | Command::BufDelta { .. }
            | Command::BufZero { .. }
            | Command::BufNoack { .. }
            | Command::BufPreack { .. }
            | Command::GeoMismatch { .. }
            | Command::PopupAdd { .. } => self.apply_part0(cmd),
            Command::PopupNest { .. }
            | Command::PopupAnchor { .. }
            | Command::PopupGravity { .. }
            | Command::PopupOff { .. }
            | Command::PopupSize { .. }
            | Command::PopupMove { .. }
            | Command::PopupClose { .. }
            | Command::SubAdd { .. }
            | Command::SubNest { .. }
            | Command::SubMove { .. } => self.apply_part1(cmd),
            Command::SubSync { .. }
            | Command::SubDesync { .. }
            | Command::SubRemove { .. }
            | Command::VpDest { .. }
            | Command::VpDestDelta { .. }
            | Command::VpAnimate { .. }
            | Command::VpUnset { .. }
            | Command::VpBad { .. }
            | Command::FsHonor { .. }
            | Command::FsIgnore { .. } => self.apply_part2(cmd),
            Command::FsScale { .. }
            | Command::FsNoViewport { .. }
            | Command::FsMismatch { .. }
            | Command::DpiHonor { .. }
            | Command::DpiIgnore { .. }
            | Command::DpiScale { .. }
            | Command::DpiNondiv { .. }
            | Command::DpiMismatch { .. }
            | Command::DpiZero { .. }
            | Command::SpFill { .. } => self.apply_part3(cmd),
            _ => self.apply_part4(cmd),
        }
    }

    /// [`WindowState::apply`] for decoration, buffer and geometry commands, and `popup-add`.
    fn apply_part0(&mut self, cmd: Command) -> (r: (Reaction, bool))
        requires
            apply_fits(*old(self), cmd),
            cmd is DecoMode || cmd is DecoIgnore || cmd is DecoBadsize || cmd is BufAgreed
                || cmd is BufDelta || cmd is BufZero || cmd is BufNoack || cmd is BufPreack
                || cmd is GeoMismatch || cmd is PopupAdd,
        ensures
            *final(self) == next_state(*old(self), cmd),
            r.0 == reaction_of(cmd),
            r.1 == redraws(cmd),
    {
        proof {
            reveal(next_state);
            reveal(reaction_of);
        }
        match cmd {
            Command::DecoMode(m) => {
                self.deco_requested = m;
                (Reaction::SetDeco(m), true)
            },
            Command::DecoIgnore => {
                self.deco_ignore = !self.deco_ignore;
                (Reaction::Idle, true)
            },
            Command::DecoBadsize => {
                self.deco_badsize = !self.deco_badsize;
                (Reaction::Idle, true)
            },
            Command::BufAgreed => {
                self.buf_delta = 0;
                (Reaction::Idle, true)
            },
            Command::BufDelta(d) => {
                self.buf_delta = d;
                (Reaction::Idle, true)
            },
            Command::BufZero => {
                self.zero_once = true;
                (Reaction::Idle, true)
            },
            Command::BufNoack => {
                self.no_ack = !self.no_ack;
                (Reaction::Idle, true)
            },
            Command::BufPreack => {
                self.preack_once = true;
                (Reaction::Idle, true)
            },
            Command::GeoMismatch => {
                self.geo_mismatch = !self.geo_mismatch;
                (Reaction::Idle, true)
            },
            Command::PopupAdd => {
                (Reaction::AddPopup { nested: false }, true)
            },
            _ => {
                assert(false);
                (Reaction::Idle, true)
            },
        }
    }

    /// [`WindowState::apply`] for the popup and subsurface commands.
    fn apply_part1(&mut self, cmd: Command) -> (r: (Reaction, bool))
        requires
            apply_fits(*old(self), cmd),
            cmd is PopupNest || cmd is PopupAnchor || cmd is PopupGravity || cmd is PopupOff
                || cmd is PopupSize || cmd is PopupMove || cmd is PopupClose || cmd is SubAdd
                || cmd is SubNest || cmd is SubMove,
        ensures
            *final(self) == next_state(*old(self), cmd),
            r.0 == reaction_of(cmd),
            r.1 == redraws(cmd),
    {
        proof {
            reveal(next_state);
            reveal(reaction_of);
        }
        match cmd {
            Command::PopupNest => {
                (Reaction::AddPopup { nested: true }, true)
            },
            Command::PopupAnchor(a) => {
                self.pop_anchor = a;
                (Reaction::Idle, true)
            },
            Command::PopupGravity(g) => {
                self.pop_gravity = g;
                (Reaction::Idle, true)
            },
            Command::PopupOff(x, y) => {
                self.pop_off = (x, y);
                (Reaction::Idle, true)
            },
            Command::PopupSize(w, h) => {
                self.pop_size = (#[verifier::truncate] (w as i32), #[verifier::truncate] (h as i32));
                (Reaction::Idle, true)
            },
            Command::PopupMove(dx, dy) => {
                (Reaction::MovePopup(dx, dy), true)
            },
            Command::PopupClose => {
                (Reaction::ClosePopup, true)
            },
            Command::SubAdd => {
                (Reaction::AddSub { nested: false }, true)
            },
            Command::SubNest => {
                (Reaction::AddSub { nested: true }, true)
            },
            Command::SubMove(dx, dy) => {
                (Reaction::MoveSub(dx, dy), true)
            },
            _ => {
                assert(false);
                (Reaction::Idle, true)
            },
        }
    }

    /// [`WindowState::apply`] for the subsurface, viewport and first fractional-scale commands.
    fn apply_part2(&mut self, cmd: Command) -> (r: (Reaction, bool))
        requires
            apply_fits(*old(self), cmd),
            cmd is SubSync || cmd is SubDesync || cmd is SubRemove || cmd is VpDest
                || cmd is VpDestDelta || cmd is VpAnimate || cmd is VpUnset || cmd is VpBad
                || cmd is FsHonor || cmd is FsIgnore,
        ensures
            *final(self) == next_state(*old(self), cmd),
            r.0 == reaction_of(cmd),
            r.1 == redraws(cmd),
    {
        proof {
            reveal(next_state);
            reveal(reaction_of);
        }
        match cmd {
            Command::SubSync => {
                (Reaction::SubSync, true)
            },
            Command::SubDesync => {
                (Reaction::SubDesync, true)
            },
            Command::SubRemove => {
                (Reaction::RemoveSub, true)
            },
            Command::VpDest(w, h) => {
                self.vp_dest = Some((w, h));
                (Reaction::Idle, true)
            },
            Command::VpDestDelta(d) => {
                let base = match self.vp_dest {
                    Some(v) => v,
                    None => self.cur_size,
                };
                self.vp_dest = Some((base.0 + d, base.1 + d));
                (Reaction::Idle, true)
            },
            Command::VpAnimate(on) => {
                self.vp_animate = on;
                (Reaction::Idle, true)
            },
            Command::VpUnset => {
                self.vp_dest = None;
                self.vp_src_bits = None;
                (Reaction::Idle, true)
            },
            Command::VpBad => {
                (Reaction::BadViewport, false)
            },
            Command::FsHonor => {
                self.scale_mode = ScaleMode::FsHonor;
                (Reaction::Idle, true)
            },
            Command::FsIgnore => {
                self.scale_mode = ScaleMode::FsIgnore;
                (Reaction::Idle, true)
            },
            _ => {
                assert(false);
                (Reaction::Idle, true)
            },
        }
    }

    /// [`WindowState::apply`] for the scale commands and `sp-fill`.
    fn apply_part3(&mut self, cmd: Command) -> (r: (Reaction, bool))
        requires
            apply_fits(*old(self), cmd),
            cmd is FsScale || cmd is FsNoViewport || cmd is FsMismatch || cmd is DpiHonor
                || cmd is DpiIgnore || cmd is DpiScale || cmd is DpiNondiv || cmd is DpiMismatch
                || cmd is DpiZero || cmd is SpFill,
        ensures
            *final(self) == next_state(*old(self), cmd),
            r.0 == reaction_of(cmd),
            r.1 == redraws(cmd),
    {
        proof {
            reveal(next_state);
            reveal(reaction_of);
        }
        match cmd {
            Command::FsScale(n) => {
                self.scale_mode = ScaleMode::FsForce(n);
                (Reaction::Idle, true)
            },
            Command::FsNoViewport => {
                self.scale_mode = ScaleMode::FsNoViewport;
                (Reaction::Idle, true)
            },
            Command::FsMismatch => {
                self.scale_mode = ScaleMode::FsMismatch;
                (Reaction::Idle, true)
            },
            Command::DpiHonor => {
                self.scale_mode = ScaleMode::DpiHonor;
                (Reaction::Idle, true)
            },
            Command::DpiIgnore => {
                self.scale_mode = ScaleMode::DpiIgnore;
                (Reaction::Idle, true)
            },
            Command::DpiScale(n) => {
                self.scale_mode = ScaleMode::DpiForce(n);
                (Reaction::Idle, true)
            },
            Command::DpiNondiv => {
                self.scale_mode = ScaleMode::DpiNondiv;
                (Reaction::Idle, true)
            },
            Command::DpiMismatch => {
                self.scale_mode = ScaleMode::DpiMismatch;
                (Reaction::Idle, true)
            },
            Command::DpiZero => {
                self.scale_mode = ScaleMode::DpiZero;
                (Reaction::Idle, true)
            },
            Command::SpFill(r, g, b, a) => {
                (Reaction::FillMain(r, g, b, a), false)
            },
            _ => {
                assert(false);
                (Reaction::Idle, true)
            },
        }
    }

    /// [`WindowState::apply`] for the single-pixel, tearing, counter, mapping, size and quit commands.
    fn apply_part4(&mut self, cmd: Command) -> (r: (Reaction, bool))
        requires
            apply_fits(*old(self), cmd),
            cmd is SpSub || cmd is SpNoViewport || cmd is Tearing || cmd is CommitRate
                || cmd is ShowCounter || cmd is MapWindow || cmd is Unmap || cmd is MapCycle
                || cmd is Size || cmd is Quit,
        ensures
            *final(self) == next_state(*old(self), cmd),
            r.0 == reaction_of(cmd),
            r.1 == redraws(cmd),
    {
        proof {
            reveal(next_state);
            reveal(reaction_of);
        }
        match cmd {
            Command::SpSub(r, g, b, a) => {
                (Reaction::FillSub(r, g, b, a), true)
            },
            Command::SpNoViewport => {
                self.sp_no_viewport = !self.sp_no_viewport;
                (Reaction::Idle, true)
            },
            Command::Tearing(on) => {
                (Reaction::Tearing(on), true)
            },
            Command::CommitRate(hz) => {
                self.commit_hz = hz;
                self.commits = 0;
                (Reaction::RestartCommitClock, true)
            },
            Command::ShowCounter(on) => {
                self.show_counter = on;
                (Reaction::DrawCounter, true)
            },
            Command::MapWindow => {
                (Reaction::SetMapped(true), true)
            },
            Command::Unmap => {
                (Reaction::SetMapped(false), true)
            },
            Command::MapCycle(on) => {
                self.mapcycle = on;
                (Reaction::Idle, true)
            },
            Command::Size(w, h) => {
                let sz = (#[verifier::truncate] (w as i32), #[verifier::truncate] (h as i32));
                self.pending_size = sz;
                self.cur_size = sz;
                (Reaction::Idle, true)
            },
            Command::Quit => {
                self.exit = true;
                (Reaction::Idle, false)
            },
            _ => {
                assert(false);
                (Reaction::Idle, true)
            },
        }
    }
}

/// Height of the client-side title bar the subject draws.
pub const TITLE_NORMAL: i32 = 24;

/// Height of the title bar when it deliberately mis-sizes its decorations.
pub const TITLE_BAD: i32 = 52;

/// Whether the subject draws its own decorations: always when told to ignore the
/// compositor, else as the compositor configured, else when it asked for client-side or
/// no decorations.
pub open spec fn csd_drawn_spec(s: WindowState) -> bool {
    if s.deco_ignore {
        true
    } else {
        match s.deco_effective {
            Some(DecoSide::Client) => true,
            Some(DecoSide::Server) => false,
            _ => s.deco_requested == DecoMode::Client || s.deco_requested == DecoMode::Undecorated,
        }
    }
}

/// `v`, but at least `lo`.
pub open spec fn at_least(v: int, lo: int) -> int {
    if v < lo {
        lo
    } else {
        v
    }
}

/// The buffer and surface resolution for an integer scale mode, or `None` for a
/// fractional one (whose sizes are rounded products of floating-point factors).
pub open spec fn integer_render_spec(mode: ScaleMode, lw: int, lh: int, output_scale: int) -> Option<
    (int, int, int, Option<(int, int)>),
> {
    let os = at_least(output_scale, 1);
    match mode {
        ScaleMode::Normal => Some((lw, lh, 1, None)),
        ScaleMode::FsIgnore => Some((lw, lh, 1, Some((lw, lh)))),
        ScaleMode::DpiHonor => Some((lw * os, lh * os, os, None)),
        ScaleMode::DpiIgnore => Some((lw, lh, 1, None)),
        ScaleMode::DpiForce(n) => {
            let k = at_least(n as int, 1);
            Some((lw * k, lh * k, k, None))
        },
        ScaleMode::DpiNondiv => {
            let k = at_least(os, 2);
            Some((lw * k + 1, lh * k + 1, k, None))
        },
        ScaleMode::DpiMismatch => Some((lw, lh, os + 1, None)),
        ScaleMode::DpiZero => Some((lw, lh, 0, None)),
        _ => None,
    }
}

/// Whether every number [`integer_render_spec`] gives fits an `i32`.
pub open spec fn integer_render_fits(mode: ScaleMode, lw: int, lh: int, output_scale: int) -> bool {
    &&& match integer_render_spec(mode, lw, lh, output_scale) {
        Some((w, h, k, _)) => i32::MIN <= w <= i32::MAX && i32::MIN <= h <= i32::MAX && k
            <= i32::MAX,
        None => true,
    }
    &&& mode is DpiNondiv ==> {
        let k = at_least(at_least(output_scale, 1), 2);
        i32::MIN <= lw * k && i32::MIN <= lh * k
    }
}

/// A render as numbers.
pub open spec fn render_value(r: Render) -> (int, int, int, Option<(int, int)>) {
    (
        r.buf_w as int,
        r.buf_h as int,
        r.buffer_scale as int,
        match r.dest {
            Some((w, h)) => Some((w as int, h as int)),
            None => None,
        },
    )
}

/// The resolution of a frame, for the integer scale modes, [`integer_render_spec`].
pub fn integer_render(mode: ScaleMode, lw: i32, lh: i32, output_scale: i32) -> (r: Option<Render>)
    requires
        integer_render_fits(mode, lw as int, lh as int, output_scale as int),
    ensures
        match r {
            Some(v) => integer_render_spec(mode, lw as int, lh as int, output_scale as int) == Some(
                render_value(v),
            ),
            None => integer_render_spec(mode, lw as int, lh as int, output_scale as int) is None,
        },
{
    let os = if output_scale < 1 {
        1
    } else {
        output_scale
    };
    match mode {
        ScaleMode::Normal => Some(Render::new(lw, lh, 1, None)),
        ScaleMode::FsIgnore => Some(Render::new(lw, lh, 1, Some((lw, lh)))),
        ScaleMode::DpiHonor => Some(Render::new(lw * os, lh * os, os, None)),
        ScaleMode::DpiIgnore => Some(Render::new(lw, lh, 1, None)),
        ScaleMode::DpiForce(n) => {
            let k = if n < 1 {
                1
            } else {
                n
            };
            Some(Render::new(lw * k, lh * k, k, None))
        },
        ScaleMode::DpiNondiv => {
            let k = if os < 2 {
                2
            } else {
                os
            };
            Some(Render::new(lw * k + 1, lh * k + 1, k, None))
        },
        ScaleMode::DpiMismatch => Some(Render::new(lw, lh, os + 1, None)),
        ScaleMode::DpiZero => Some(Render::new(lw, lh, 0, None)),
        _ => None,
    }
}

/// What a frame of the main surface is made of.
#[derive(Clone, Copy, Debug, PartialEq, Eq)]
pub struct FramePlan {
    /// Buffer size in pixels.
    pub buf_w: i32,
    pub buf_h: i32,
    /// Height of the client-side title bar, 0 when none is drawn.
    pub title_h: i32,
    /// The window geometry announced: x, y, width, height.
    pub geometry: (i32, i32, i32, i32),
    /// The viewport destination, when one is set.
    pub dest: Option<(i32, i32)>,
}

impl WindowState {
    /// Whether the subject draws its own decorations, [`csd_drawn_spec`].
    pub fn csd_drawn(&self) -> (r: bool)
        ensures
            r == csd_drawn_spec(*self),
    {
        if self.deco_ignore {
            return true;
        }
        match self.deco_effective {
            Some(DecoSide::Client) => true,
            Some(DecoSide::Server) => false,
            _ => match self.deco_requested {
                DecoMode::Client | DecoMode::Undecorated => true,
                DecoMode::Server => false,
            },
        }
    }
}

/// The logical size a frame is laid out at: the current size, at least 1 × 1.
pub open spec fn logical_size(s: WindowState) -> (int, int) {
    (at_least(s.cur_size.0 as int, 1), at_least(s.cur_size.1 as int, 1))
}

/// The viewport destination a frame uses: the render's, else the requested one; while
/// animating with a viewport, grown on both axes by the triangle wave
/// `|anim_phase - 200|`.
pub open spec fn frame_dest(s: WindowState, render: Render, anim_phase: int, has_viewport: bool) -> Option<
    (int, int),
> {
    let d = match render.dest {
        Some(v) => Some(v),
        None => s.vp_dest,
    };
    if s.vp_animate && has_viewport {
        let amp = if anim_phase - 200 < 0 {
            200 - anim_phase
        } else {
            anim_phase - 200
        };
        let base = match d {
            Some((w, h)) => (w as int, h as int),
            None => logical_size(s),
        };
        Some((base.0 + amp, base.1 + amp))
    } else {
        match d {
            Some((w, h)) => Some((w as int, h as int)),
            None => None,
        }
    }
}

/// Whether every number of a frame plan fits an `i32`.
pub open spec fn frame_fits(s: WindowState, render: Render, anim_phase: int, has_viewport: bool) -> bool {
    &&& i32::MIN <= render.buf_w + s.buf_delta <= i32::MAX
    &&& i32::MIN <= render.buf_h + s.buf_delta <= i32::MAX
    &&& i32::MIN <= anim_phase - 200 <= i32::MAX
    &&& anim_phase - 200 != i32::MIN
    &&& match frame_dest(s, render, anim_phase, has_viewport) {
        Some((w, h)) => i32::MIN <= w <= i32::MAX && i32::MIN <= h <= i32::MAX,
        None => true,
    }
}

/// The frame the main surface gets for the toggles and a resolved render: the render's
/// buffer grown by the buffer delta (at least 1 × 1), a title bar when the subject
/// draws its own decorations (taller when mis-sizing them), the window geometry inset by
/// 17 and shrunk by 60 under a geometry mismatch, and [`frame_dest`].
pub open spec fn frame_plan_spec(s: WindowState, render: Render, anim_phase: int, has_viewport: bool) -> (
    int,
    int,
    int,
    (int, int, int, int),
    Option<(int, int)>,
) {
    let (lw, lh) = logical_size(s);
    (
        at_least(render.buf_w + s.buf_delta, 1),
        at_least(render.buf_h + s.buf_delta, 1),
        if csd_drawn_spec(s) {
            if s.deco_badsize {
                TITLE_BAD as int
            } else {
                TITLE_NORMAL as int
            }
        } else {
            0
        },
        if s.geo_mismatch {
            (17, 17, at_least(lw - 60, 1), at_least(lh - 60, 1))
        } else {
            (0, 0, lw, lh)
        },
        frame_dest(s, render, anim_phase, has_viewport),
    )
}

/// A frame plan as numbers.
pub open spec fn plan_value(p: FramePlan) -> (int, int, int, (int, int, int, int), Option<(int, int)>) {
    (
        p.buf_w as int,
        p.buf_h as int,
        p.title_h as int,
        (p.geometry.0 as int, p.geometry.1 as int, p.geometry.2 as int, p.geometry.3 as int),
        match p.dest {
            Some((w, h)) => Some((w as int, h as int)),
            None => None,
        },
    )
}

impl WindowState {
    /// The frame the main surface gets, [`frame_plan_spec`]; `anim_phase` drives the
    /// destination animation and `has_viewport` says whether the compositor gave a
    /// viewport.
    pub fn frame_plan(&self, render: Render, anim_phase: i32, has_viewport: bool) -> (r: FramePlan)
        requires
            frame_fits(*self, render, anim_phase as int, has_viewport),
        ensures
            plan_value(r) == frame_plan_spec(*self, render, anim_phase as int, has_viewport),
    {
        let lw = if self.cur_size.0 < 1 {
            1
        } else {
            self.cur_size.0
        };
        let lh = if self.cur_size.1 < 1 {
            1
        } else {
            self.cur_size.1
        };
        let bw0 = render.buf_w + self.buf_delta;
        let bh0 = render.buf_h + self.buf_delta;
        let buf_w = if bw0 < 1 {
            1
        } else {
            bw0
        };
        let buf_h = if bh0 < 1 {
            1
        } else {
            bh0
        };
        let title_h = if self.csd_drawn() {
            if self.deco_badsize {
                TITLE_BAD
            } else {
                TITLE_NORMAL
            }
        } else {
            0
        };
        let geometry = if self.geo_mismatch {
            (17, 17, if lw - 60 < 1 {
                1
            } else {
                lw - 60
            }, if lh - 60 < 1 {
                1
            } else {
                lh - 60
            })
        } else {
            (0, 0, lw, lh)
        };
        let mut dest = match render.dest {
            Some(v) => Some(v),
            None => self.vp_dest,
        };
        if self.vp_animate && has_viewport {
            let delta = anim_phase - 200;
            let amp = if delta < 0 {
                -delta
            } else {
                delta
            };
            let (base_w, base_h) = match dest {
                Some(v) => v,
                None => (lw, lh),
            };
            dest = Some((base_w + amp, base_h + amp));
        }
        FramePlan { buf_w, buf_h, title_h, geometry, dest }
    }
}

/// Which optional protocols the subject binds, given its arguments: decoration,
/// viewporter, fractional scale and single-pixel buffer, each unless its `--no-…` flag
/// is among the arguments.
pub open spec fn protocols_spec(args: Seq<Seq<char>>) -> (bool, bool, bool, bool) {
    (
        !args.contains(NO_DECORATION@),
        !args.contains(NO_VIEWPORTER@),
        !args.contains(NO_FRACTIONAL_SCALE@),
        !args.contains(NO_SINGLE_PIXEL@),
    )
}

/// Whether some argument is exactly `flag`.
fn has_arg(args: &Vec<String>, flag: &str) -> (r: bool)
    ensures
        r == texts_of(args@).contains(flag@),
{
    let f = string_from(flag);
    let mut i: usize = 0;
    while i < args.len()
        invariant
            i <= args@.len(),
            f@ == flag@,
            forall|k: int| 0 <= k < i ==> args@[k]@ != flag@,
        decreases args@.len() - i,
    {
        if args[i] == f {
            assert(texts_of(args@)[i as int] == flag@);
            return true;
        }
        i += 1;
    }
    assert forall|k: int| 0 <= k < texts_of(args@).len() implies texts_of(args@)[k] != flag@ by {
        assert(texts_of(args@)[k] == args@[k]@);
    }
    false
}

/// The optional protocols the subject binds, [`protocols_spec`] of its arguments.
pub fn protocols_from_args(args: &Vec<String>) -> (r: (bool, bool, bool, bool))
    ensures
        r == protocols_spec(texts_of(args@)),
{
    (
        !has_arg(args, NO_DECORATION),
        !has_arg(args, NO_VIEWPORTER),
        !has_arg(args, NO_FRACTIONAL_SCALE),
        !has_arg(args, NO_SINGLE_PIXEL),
    )
}

/// A subject spawned with the flags the controller derives from its protocol toggles
/// binds exactly the protocols the controller has switched on.
pub proof fn lemma_spawn_flags_round_trip(p: Params)
    ensures
        protocols_spec(subject_flags(p)) == (p.proto_deco, p.proto_vp, p.proto_fs, p.proto_sp),
{
    reveal_strlit("--no-decoration");
    reveal_strlit("--no-viewporter");
    reveal_strlit("--no-fractional-scale");
    reveal_strlit("--no-single-pixel");
    let f = subject_flags(p);
    let a = NO_DECORATION@;
    let b = NO_VIEWPORTER@;
    let c = NO_FRACTIONAL_SCALE@;
    let d = NO_SINGLE_PIXEL@;
    assert(a != b && a != c && a != d && b != c && b != d && c != d) by {
        assert(a[5] != b[5] && a[5] != c[5] && a[5] != d[5]);
        assert(b[5] != c[5] && b[5] != d[5]);
        assert(c[5] != d[5]);
    }
    let s1: Seq<Seq<char>> = if p.proto_deco {
        Seq::empty()
    } else {
        seq![a]
    };
    let s2: Seq<Seq<char>> = if p.proto_vp {
        Seq::empty()
    } else {
        seq![b]
    };
    let s3: Seq<Seq<char>> = if p.proto_fs {
        Seq::empty()
    } else {
        seq![c]
    };
    let s4: Seq<Seq<char>> = if p.proto_sp {
        Seq::empty()
    } else {
        seq![d]
    };
    assert(f == s1 + s2 + s3 + s4);
    assert forall|x: Seq<char>| #[trigger] f.contains(x) == (s1.contains(x) || s2.contains(x)
        || s3.contains(x) || s4.contains(x)) by {
        vstd::seq_lib::lemma_seq_concat_contains_all_elements(s1, s2, x);
        vstd::seq_lib::lemma_seq_concat_contains_all_elements(s1 + s2, s3, x);
        vstd::seq_lib::lemma_seq_concat_contains_all_elements(s1 + s2 + s3, s4, x);
    }
    assert(s1.contains(a) == !p.proto_deco) by {
        if !p.proto_deco {
            assert(s1[0] == a);
        }
    }
    assert(s2.contains(b) == !p.proto_vp) by {
        if !p.proto_vp {
            assert(s2[0] == b);
        }
    }
    assert(s3.contains(c) == !p.proto_fs) by {
        if !p.proto_fs {
            assert(s3[0] == c);
        }
    }
    assert(s4.contains(d) == !p.proto_sp) by {
        if !p.proto_sp {
            assert(s4[0] == d);
        }
    }
}

/// A toggle (`deco-ignore`, `deco-badsize`, `buf-noack`, `geo-mismatch`,
/// `sp-noviewport`) sent twice leaves the subject as it was.
pub proof fn lemma_toggle_twice(s: WindowState, cmd: Command)
    requires
        cmd == Command::DecoIgnore || cmd == Command::DecoBadsize || cmd == Command::BufNoack
            || cmd == Command::GeoMismatch || cmd == Command::SpNoViewport,
    ensures
        next_state(next_state(s, cmd), cmd) == s,
{
    reveal(next_state);
}

/// The tick period in microseconds: the self-driven commit rate when one is set, else
/// the ~60 Hz animation cadence (16 ms).
pub fn tick_interval_us(commit_hz: u32) -> (r: u64)
    ensures
        r == if commit_hz == 0 {
            16_000
        } else {
            1_000_000int / (commit_hz as int)
        },
{
    if commit_hz == 0 {
        16_000
    } else {
        1_000_000u64 / commit_hz as u64
    }
}

/// The counters one tick of the window subject advances.
#[derive(Clone, Copy, Debug, PartialEq, Eq, Structural)]
pub struct Ticks {
    /// The viewport animation's phase (a triangle wave over 0..400).
    pub anim_phase: i32,
    /// The click marker's remaining life.
    pub click: Option<u32>,
    /// Ticks since the map cycle last flipped.
    pub mapcycle_tick: u32,
}

/// What one tick of the window subject does besides counting.
#[derive(Clone, Copy, Debug, PartialEq, Eq, Structural)]
pub struct TickActions {
    /// Redraw the main surface for the viewport animation.
    pub animate: bool,
    /// Redraw the click marker's surface.
    pub click_redraw: bool,
    /// Unmap (or map again) for the map cycle.
    pub toggle_mapped: bool,
}

/// The window subject's tick: the viewport animation advances while it runs on a
/// mapped, configured surface; a click marker ages one frame; and the map cycle flips
/// the mapping every 60 ticks.
pub fn window_tick(vp_animate: bool, configured: bool, mapped: bool, mapcycle: bool, t: Ticks) -> (r: (
    Ticks,
    TickActions,
))
    requires
        vp_animate && configured && mapped ==> t.anim_phase <= i32::MAX - 4,
        mapcycle ==> t.mapcycle_tick < u32::MAX,
    ensures
        r.1.animate == (vp_animate && configured && mapped),
        r.0.anim_phase == if r.1.animate {
            rem_toward_zero(t.anim_phase + 4, 400)
        } else {
            t.anim_phase as int
        },
        (r.0.click, r.1.click_redraw) == match t.click {
            Some(n) => if n > 0 {
                (Some((n - 1) as u32), true)
            } else {
                (None, true)
            },
            None => (None, false),
        },
        r.1.toggle_mapped == (mapcycle && t.mapcycle_tick + 1 >= 60),
        r.0.mapcycle_tick == if !mapcycle {
            t.mapcycle_tick as int
        } else if t.mapcycle_tick + 1 >= 60 {
            0
        } else {
            t.mapcycle_tick + 1
        },
{
    let animate = vp_animate && configured && mapped;
    let phase = if animate {
        (t.anim_phase + 4) % 400
    } else {
        t.anim_phase
    };
    let (click, click_redraw) = age_click(t.click);
    let mut tick = t.mapcycle_tick;
    let mut toggle = false;
    if mapcycle {
        tick = tick + 1;
        if tick >= 60 {
            tick = 0;
            toggle = true;
        }
    }
    (
        Ticks { anim_phase: phase, click, mapcycle_tick: tick },
        TickActions { animate, click_redraw, toggle_mapped: toggle },
    )
}

/// Commands that carry a pair store it in the order it was sent: `popup-off x y`
/// offsets popups by `x` across and `y` down, `vp-dest w h` sets the viewport
/// destination to `w` wide and `h` tall, `popup-size w h` and `size w h` (within `i32`)
/// request width `w` and height `h`; nothing else changes. `popup-move dx dy` and
/// `sub-move dx dy` move by `dx` across and `dy` down.
pub proof fn lemma_pairs_in_order(s: WindowState, x: i32, y: i32, w: u32, h: u32)
    ensures
        next_state(s, Command::PopupOff(x, y)).pop_off.0 == x,
        next_state(s, Command::PopupOff(x, y)).pop_off.1 == y,
        (WindowState { pop_off: s.pop_off, ..next_state(s, Command::PopupOff(x, y)) }) == s,
        next_state(s, Command::VpDest(x, y)).vp_dest == Some((x, y)),
        (WindowState { vp_dest: s.vp_dest, ..next_state(s, Command::VpDest(x, y)) }) == s,
        w <= i32::MAX && h <= i32::MAX ==> next_state(s, Command::PopupSize(w, h)).pop_size.0 == w,
        w <= i32::MAX && h <= i32::MAX ==> next_state(s, Command::PopupSize(w, h)).pop_size.1 == h,
        w <= i32::MAX && h <= i32::MAX ==> next_state(s, Command::Size(w, h)).cur_size.0 == w,
        w <= i32::MAX && h <= i32::MAX ==> next_state(s, Command::Size(w, h)).cur_size.1 == h,
        w <= i32::MAX && h <= i32::MAX ==> next_state(s, Command::Size(w, h)).pending_size.0 == w,
        w <= i32::MAX && h <= i32::MAX ==> next_state(s, Command::Size(w, h)).pending_size.1 == h,
        reaction_of(Command::PopupMove(x, y)) == Reaction::MovePopup(x, y),
        reaction_of(Command::SubMove(x, y)) == Reaction::MoveSub(x, y),
{
    reveal(next_state);
    reveal(reaction_of);
}

} // verus!
