//! The window controller's adjustable parameters and what a click does to them.
//!
//! A click either forwards a command to the subject, adjusts a parameter (and then
//! usually forwards the command that applies it), or acts on the controller itself
//! (respawning, detached session subjects). [`Params::act`] is that decision; the
//! controller performs the returned [`Effect`].

use vstd::prelude::*;

use crate::text::{string_from, texts_of};
use crate::window_protocol::{Anchor, Command};

verus! {

/// The popup anchors and gravities the controller cycles through, in order.
pub open spec fn anchor_at(i: int) -> Anchor {
    if i == 0 {
        Anchor::Center
    } else if i == 1 {
        Anchor::Top
    } else if i == 2 {
        Anchor::Bottom
    } else if i == 3 {
        Anchor::Left
    } else if i == 4 {
        Anchor::Right
    } else if i == 5 {
        Anchor::TopLeft
    } else if i == 6 {
        Anchor::TopRight
    } else if i == 7 {
        Anchor::BottomLeft
    } else {
        Anchor::BottomRight
    }
}

/// The `i`-th anchor of the cycle.
pub fn anchor_of(i: usize) -> (r: Anchor)
    requires
        i < 9,
    ensures
        r == anchor_at(i as int),
{
    match i {
        0 => Anchor::Center,
        1 => Anchor::Top,
        2 => Anchor::Bottom,
        3 => Anchor::Left,
        4 => Anchor::Right,
        5 => Anchor::TopLeft,
        6 => Anchor::TopRight,
        7 => Anchor::BottomLeft,
        _ => Anchor::BottomRight,
    }
}

/// The single-pixel colours the controller cycles through, in order.
pub open spec fn palette_at(i: int) -> (u8, u8, u8) {
    if i == 0 {
        (224, 64, 64)
    } else if i == 1 {
        (64, 192, 64)
    } else if i == 2 {
        (64, 96, 224)
    } else if i == 3 {
        (240, 240, 240)
    } else if i == 4 {
        (224, 192, 64)
    } else if i == 5 {
        (64, 192, 224)
    } else {
        (224, 64, 192)
    }
}

/// What a button does.
#[derive(Clone, Copy, Debug, PartialEq, Eq, Structural)]
pub enum Act {
    Send(Command),
    /// Send a viewport source rectangle; its four `f64` values are held as their bit
    /// patterns (x, y, width, height) and the command is written outside the library.
    SendVpSrc(u64, u64, u64, u64),
    AdjDelta(i32),
    AdjOff(i32, i32),
    AdjPopSize(i32, i32),
    AdjDest(i32, i32),
    AdjFs(i32),
    AdjDpi(i32),
    CycleAnchor,
    CycleGravity,
    CycleColor,
    /// Protocol toggle: 0 decoration, 1 viewporter, 2 fractional scale, 3 single-pixel.
    ToggleProto(u8),
    Respawn,
    /// Spawn this many extra detached session subjects.
    SpawnSession(u32),
    /// Forget the spawned session subjects.
    ForgetSession,
    /// Wipe the session store so the next run starts from new.
    ClearSessionStore,
    /// Flip which session-management namespace detached subjects bind.
    ToggleSessionNs,
}

/// What the controller does after a click.
#[derive(Clone, Copy, Debug, PartialEq, Eq, Structural)]
pub enum Effect {
    /// Forward this command to the subject.
    Send(Command),
    /// Forward a viewport source rectangle (the bit patterns of its four `f64` values).
    SendVpSrc(u64, u64, u64, u64),
    /// A protocol was toggled; it applies on the next respawn.
    ProtoToggled,
    Respawn,
    SpawnSession(u32),
    ForgetSession,
    ClearSessionStore,
    /// The session namespace changed (`true` = the pre-rename `xx_` one); it applies to
    /// the next spawn.
    SessionNamespace(bool),
}

/// All adjustable parameter state.
#[derive(Clone, Copy, Debug)]
pub struct Params {
    pub delta: i32,
    pub off: (i32, i32),
    pub move_step: i32,
    pub pop_size: (i32, i32),
    pub dest: (i32, i32),
    pub anchor_i: usize,
    pub gravity_i: usize,
    pub fs_num: u32,
    pub dpi_num: i32,
    pub color_i: usize,
    pub proto_deco: bool,
    pub proto_vp: bool,
    pub proto_fs: bool,
    pub proto_sp: bool,
    /// `false` = `xdg_session_manager_v1`, `true` = `xx_session_manager_v1`.
    pub session_xx: bool,
}

/// The flag that switches off the decoration protocol in the subject.
pub const NO_DECORATION: &'static str = "--no-decoration";

/// The flag that switches off the viewporter protocol in the subject.
pub const NO_VIEWPORTER: &'static str = "--no-viewporter";

/// The flag that switches off the fractional-scale protocol in the subject.
pub const NO_FRACTIONAL_SCALE: &'static str = "--no-fractional-scale";

/// The flag that switches off the single-pixel-buffer protocol in the subject.
pub const NO_SINGLE_PIXEL: &'static str = "--no-single-pixel";

/// The flag that starts a subject detached from the controller, for session restore.
pub const DETACHED: &'static str = "--detached";

/// The flag that makes a detached subject bind the pre-rename session namespace.
pub const XX_NAMESPACE: &'static str = "--xx";

/// The subject's command-line flags: one per protocol the controller has switched off,
/// in the order decoration, viewporter, fractional scale, single-pixel buffer.
pub open spec fn subject_flags(p: Params) -> Seq<Seq<char>> {
    (if p.proto_deco {
        Seq::empty()
    } else {
        seq![NO_DECORATION@]
    }) + (if p.proto_vp {
        Seq::empty()
    } else {
        seq![NO_VIEWPORTER@]
    }) + (if p.proto_fs {
        Seq::empty()
    } else {
        seq![NO_FRACTIONAL_SCALE@]
    }) + (if p.proto_sp {
        Seq::empty()
    } else {
        seq![NO_SINGLE_PIXEL@]
    })
}

/// A detached session subject's flags: detached, and the pre-rename namespace when
/// selected.
pub open spec fn session_flags(p: Params) -> Seq<Seq<char>> {
    if p.session_xx {
        seq![DETACHED@, XX_NAMESPACE@]
    } else {
        seq![DETACHED@]
    }
}

/// `v` raised to at least `lo`.
pub open spec fn at_least(v: int, lo: int) -> int {
    if v < lo {
        lo
    } else {
        v
    }
}

/// `v` clamped to `lo..=hi`.
pub open spec fn clamp(v: int, lo: int, hi: int) -> int {
    if v < lo {
        lo
    } else if v > hi {
        hi
    } else {
        v
    }
}

/// Whether a click can be applied without any parameter leaving the `i32` range.
pub open spec fn act_fits(p: Params, a: Act) -> bool {
    match a {
        Act::AdjDelta(d) => i32::MIN <= p.delta + d <= i32::MAX,
        Act::AdjOff(dx, dy) => i32::MIN <= p.off.0 + dx <= i32::MAX && i32::MIN <= p.off.1 + dy
            <= i32::MAX,
        Act::AdjPopSize(dw, dh) => i32::MIN <= p.pop_size.0 + dw <= i32::MAX && i32::MIN
            <= p.pop_size.1 + dh <= i32::MAX,
        Act::AdjDest(dw, dh) => i32::MIN <= p.dest.0 + dw <= i32::MAX && i32::MIN <= p.dest.1 + dh
            <= i32::MAX,
        Act::AdjFs(d) => i32::MIN <= p.fs_num + d <= i32::MAX,
        Act::AdjDpi(d) => i32::MIN <= p.dpi_num + d <= i32::MAX,
        _ => true,
    }
}

impl Params {
    /// The indices into the cycles are in range and the fractional scale is one the
    /// controller offers.
    pub open spec fn wf(self) -> bool {
        &&& self.anchor_i < 9
        &&& self.gravity_i < 9
        &&& self.color_i < 7
        &&& 30 <= self.fs_num <= 480
    }

    /// The starting parameters: buffer delta 40, a 160 × 120 popup anchored bottom-left
    /// with bottom-right gravity, viewport destination 480 × 320, fractional scale
    /// 180/120, DPI scale 2, the first colour, every protocol enabled, the `xdg_`
    /// session namespace.
    pub fn new() -> (r: Params)
        ensures
            r.wf(),
            r == (Params {
                delta: 40,
                off: (0, 0),
                move_step: 40,
                pop_size: (160, 120),
                dest: (480, 320),
                anchor_i: 7,
                gravity_i: 8,
                fs_num: 180,
                dpi_num: 2,
                color_i: 0,
                proto_deco: true,
                proto_vp: true,
                proto_fs: true,
                proto_sp: true,
                session_xx: false,
            }),
    {
        Params {
            delta: 40,
            off: (0, 0),
            move_step: 40,
            pop_size: (160, 120),
            dest: (480, 320),
            anchor_i: 7,
            gravity_i: 8,
            fs_num: 180,
            dpi_num: 2,
            color_i: 0,
            proto_deco: true,
            proto_vp: true,
            proto_fs: true,
            proto_sp: true,
            session_xx: false,
        }
    }

    /// The current single-pixel colour, opaque.
    pub fn color_rgba(&self) -> (r: (u8, u8, u8, u8))
        requires
            self.wf(),
        ensures
            r == (palette_at(self.color_i as int).0, palette_at(self.color_i as int).1, palette_at(
                self.color_i as int,
            ).2, 255u8),
    {
        match self.color_i {
            0 => (224, 64, 64, 255),
            1 => (64, 192, 64, 255),
            2 => (64, 96, 224, 255),
            3 => (240, 240, 240, 255),
            4 => (224, 192, 64, 255),
            5 => (64, 192, 224, 255),
            _ => (224, 64, 192, 255),
        }
    }

    /// The arguments the subject is spawned with, [`subject_flags`].
    pub fn subject_args(&self) -> (r: Vec<String>)
        ensures
            texts_of(r@) == subject_flags(*self),
    {
        let mut v: Vec<String> = Vec::new();
        if !self.proto_deco {
            v.push(string_from(NO_DECORATION));
        }
        let ghost a = texts_of(v@);
        assert(a =~= (if self.proto_deco {
            Seq::empty()
        } else {
            seq![NO_DECORATION@]
        }));
        if !self.proto_vp {
            v.push(string_from(NO_VIEWPORTER));
        }
        let ghost b = texts_of(v@);
        assert(b =~= a + (if self.proto_vp {
            Seq::empty()
        } else {
            seq![NO_VIEWPORTER@]
        }));
        if !self.proto_fs {
            v.push(string_from(NO_FRACTIONAL_SCALE));
        }
        let ghost c = texts_of(v@);
        assert(c =~= b + (if self.proto_fs {
            Seq::empty()
        } else {
            seq![NO_FRACTIONAL_SCALE@]
        }));
        if !self.proto_sp {
            v.push(string_from(NO_SINGLE_PIXEL));
        }
        assert(texts_of(v@) =~= c + (if self.proto_sp {
            Seq::empty()
        } else {
            seq![NO_SINGLE_PIXEL@]
        }));
        v
    }

    /// The arguments a detached session subject is spawned with, [`session_flags`].
    pub fn session_args(&self) -> (r: Vec<String>)
        ensures
            texts_of(r@) == session_flags(*self),
    {
        let mut v: Vec<String> = Vec::new();
        v.push(string_from(DETACHED));
        if self.session_xx {
            v.push(string_from(XX_NAMESPACE));
        }
        assert(texts_of(v@) =~= session_flags(*self));
        v
    }

    /// Applies a click: adjusts the parameters and says what to do next. Popup sizes do
    /// not go below 8, viewport destinations below 1; the fractional scale stays in
    /// `30..=480` and the DPI scale in `1..=8`; anchor, gravity and colour cycle.
    pub fn act(&mut self, a: Act) -> (e: Option<Effect>)
        requires
            old(self).wf(),
            act_fits(*old(self), a),
        ensures
            final(self).wf(),
            ({
                let p = *old(self);
                let q = *final(self);
                match a {
                    Act::Send(c) => q == p && e == Some(Effect::Send(c)),
                    Act::SendVpSrc(x, y, w, h) => q == p && e == Some(Effect::SendVpSrc(x, y, w, h)),
                    Act::AdjDelta(d) => q == (Params { delta: (p.delta + d) as i32, ..p }) && e is None,
                    Act::AdjOff(dx, dy) => q == (Params {
                        off: ((p.off.0 + dx) as i32, (p.off.1 + dy) as i32),
                        ..p
                    }) && e == Some(Effect::Send(Command::PopupOff(q.off.0, q.off.1))),
                    Act::AdjPopSize(dw, dh) => q == (Params {
                        pop_size: (
                            at_least(p.pop_size.0 + dw, 8) as i32,
                            at_least(p.pop_size.1 + dh, 8) as i32,
                        ),
                        ..p
                    }) && e == Some(
                        Effect::Send(Command::PopupSize(q.pop_size.0 as u32, q.pop_size.1 as u32)),
                    ),
                    Act::AdjDest(dw, dh) => q == (Params {
                        dest: (at_least(p.dest.0 + dw, 1) as i32, at_least(p.dest.1 + dh, 1) as i32),
                        ..p
                    }) && e == Some(Effect::Send(Command::VpDest(q.dest.0, q.dest.1))),
                    Act::AdjFs(d) => q == (Params { fs_num: clamp(p.fs_num + d, 30, 480) as u32, ..p })
                        && e is None,
                    Act::AdjDpi(d) => q == (Params { dpi_num: clamp(p.dpi_num + d, 1, 8) as i32, ..p })
                        && e is None,
                    Act::CycleAnchor => q == (Params { anchor_i: ((p.anchor_i + 1) % 9) as usize, ..p })
                        && e == Some(Effect::Send(Command::PopupAnchor(anchor_at(q.anchor_i as int)))),
                    Act::CycleGravity => q == (Params {
                        gravity_i: ((p.gravity_i + 1) % 9) as usize,
                        ..p
                    }) && e == Some(Effect::Send(Command::PopupGravity(anchor_at(q.gravity_i as int)))),
                    Act::CycleColor => q == (Params { color_i: ((p.color_i + 1) % 7) as usize, ..p })
                        && e is None,
                    Act::ToggleProto(i) => q == (if i == 0 {
                        Params { proto_deco: !p.proto_deco, ..p }
                    } else if i == 1 {
                        Params { proto_vp: !p.proto_vp, ..p }
                    } else if i == 2 {
                        Params { proto_fs: !p.proto_fs, ..p }
                    } else {
                        Params { proto_sp: !p.proto_sp, ..p }
                    }) && e == Some(Effect::ProtoToggled),
                    Act::Respawn => q == p && e == Some(Effect::Respawn),
                    Act::SpawnSession(n) => q == p && e == Some(Effect::SpawnSession(n)),
                    Act::ForgetSession => q == p && e == Some(Effect::ForgetSession),
                    Act::ClearSessionStore => q == p && e == Some(Effect::ClearSessionStore),
                    Act::ToggleSessionNs => q == (Params { session_xx: !p.session_xx, ..p }) && e
                        == Some(Effect::SessionNamespace(q.session_xx)),
                }
            }),
    {
        match a {
            Act::Send(c) => Some(Effect::Send(c)),
            Act::SendVpSrc(x, y, w, h) => Some(Effect::SendVpSrc(x, y, w, h)),
            Act::AdjDelta(d) => {
                self.delta = self.delta + d;
                None
            },
            Act::AdjOff(dx, dy) => {
                self.off = (self.off.0 + dx, self.off.1 + dy);
                Some(Effect::Send(Command::PopupOff(self.off.0, self.off.1)))
            },
            Act::AdjPopSize(dw, dh) => {
                let w = if self.pop_size.0 + dw < 8 {
                    8
                } else {
                    self.pop_size.0 + dw
                };
                let h = if self.pop_size.1 + dh < 8 {
                    8
                } else {
                    self.pop_size.1 + dh
                };
                self.pop_size = (w, h);
                Some(Effect::Send(Command::PopupSize(w as u32, h as u32)))
            },
            Act::AdjDest(dw, dh) => {
                let w = if self.dest.0 + dw < 1 {
                    1
                } else {
                    self.dest.0 + dw
                };
                let h = if self.dest.1 + dh < 1 {
                    1
                } else {
                    self.dest.1 + dh
                };
                self.dest = (w, h);
                Some(Effect::Send(Command::VpDest(w, h)))
            },
            Act::AdjFs(d) => {
                let v = self.fs_num as i32 + d;
                self.fs_num = if v < 30 {
                    30
                } else if v > 480 {
                    480
                } else {
                    v as u32
                };
                None
            },
            Act::AdjDpi(d) => {
                let v = self.dpi_num + d;
                self.dpi_num = if v < 1 {
                    1
                } else if v > 8 {
                    8
                } else {
                    v
                };
                None
            },
            Act::CycleAnchor => {
                self.anchor_i = (self.anchor_i + 1) % 9;
                Some(Effect::Send(Command::PopupAnchor(anchor_of(self.anchor_i))))
            },
            Act::CycleGravity => {
                self.gravity_i = (self.gravity_i + 1) % 9;
                Some(Effect::Send(Command::PopupGravity(anchor_of(self.gravity_i))))
            },
            Act::CycleColor => {
                self.color_i = (self.color_i + 1) % 7;
                None
            },
            Act::ToggleProto(i) => {
                if i == 0 {
                    self.proto_deco = !self.proto_deco;
                } else if i == 1 {
                    self.proto_vp = !self.proto_vp;
                } else if i == 2 {
                    self.proto_fs = !self.proto_fs;
                } else {
                    self.proto_sp = !self.proto_sp;
                }
                Some(Effect::ProtoToggled)
            },
            Act::Respawn => Some(Effect::Respawn),
            Act::SpawnSession(n) => Some(Effect::SpawnSession(n)),
            Act::ForgetSession => Some(Effect::ForgetSession),
            Act::ClearSessionStore => Some(Effect::ClearSessionStore),
            Act::ToggleSessionNs => {
                self.session_xx = !self.session_xx;
                Some(Effect::SessionNamespace(self.session_xx))
            },
        }
    }
}

} // verus!
