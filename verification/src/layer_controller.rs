//! The layer-shell controller's adjustable parameters and what a click does to them.
//!
//! A click either forwards a command to the subject or adjusts a parameter (and then
//! usually forwards the command that applies it). [`Params::act`] is that decision; the
//! controller performs the returned [`Effect`].

use vstd::prelude::*;

use crate::layer_protocol::{Anchor, Command};
use crate::text::{string_from, texts_of};
use crate::tools::push_bounded;

verus! {

/// The popup anchors and gravities the controller cycles through, in order.
pub open spec fn anchor_at(i: int) -> Anchor {
    if i == 0 {
        Anchor::Center
    } else if i == 1 {
        Anchor::Top
    } else if i == 2 {
        Anchor::Bottom
    } else if i == 3 {
        Anchor::Left
    } else if i == 4 {
        Anchor::Right
    } else if i == 5 {
        Anchor::TopLeft
    } else if i == 6 {
        Anchor::TopRight
    } else if i == 7 {
        Anchor::BottomLeft
    } else {
        Anchor::BottomRight
    }
}

/// The `i`-th anchor of the cycle.
pub fn anchor_of(i: usize) -> (r: Anchor)
    requires
        i < 9,
    ensures
        r == anchor_at(i as int),
{
    match i {
        0 => Anchor::Center,
        1 => Anchor::Top,
        2 => Anchor::Bottom,
        3 => Anchor::Left,
        4 => Anchor::Right,
        5 => Anchor::TopLeft,
        6 => Anchor::TopRight,
        7 => Anchor::BottomLeft,
        _ => Anchor::BottomRight,
    }
}

/// What a button does.
#[derive(Clone, Copy, Debug, PartialEq, Eq, Structural)]
pub enum Act {
    Send(Command),
    AdjExcl(i32),
    /// Margin slot (0 = top, 1 = right, 2 = bottom, 3 = left) and delta.
    AdjMargin(usize, i32),
    AdjSize(i32, i32),
    AdjPopOff(i32, i32),
    AdjPopSize(i32, i32),
    AdjDpi(i32),
    CycleAnchor,
    CycleGravity,
    /// Protocol toggle: 0 viewporter, 1 fractional scale, 2 wlr foreign, 3 ext foreign.
    ToggleProto(u8),
    Respawn,
}

/// What the controller does after a click.
#[derive(Clone, Copy, Debug, PartialEq, Eq, Structural)]
pub enum Effect {
    /// Forward this command to the subject.
    Send(Command),
    /// A protocol was toggled; it applies on the next respawn.
    ProtoToggled,
    /// Respawn the subject.
    Respawn,
}

/// All adjustable parameter state.
#[derive(Clone, Copy, Debug)]
pub struct Params {
    pub excl: i32,
    pub margins: (i32, i32, i32, i32),
    pub size: (i32, i32),
    pub pop_off: (i32, i32),
    pub pop_size: (i32, i32),
    pub move_step: i32,
    pub anchor_i: usize,
    pub gravity_i: usize,
    pub dpi_num: i32,
    pub proto_vp: bool,
    pub proto_fs: bool,
    pub proto_fwlr: bool,
    pub proto_fext: bool,
}

/// `v` raised to at least `lo`.
pub open spec fn at_least(v: int, lo: int) -> int {
    if v < lo {
        lo
    } else {
        v
    }
}

/// `v` clamped to `lo..=hi`.
pub open spec fn clamp(v: int, lo: int, hi: int) -> int {
    if v < lo {
        lo
    } else if v > hi {
        hi
    } else {
        v
    }
}

/// Whether a click can be applied without any parameter leaving the `i32` range.
pub open spec fn act_fits(p: Params, a: Act) -> bool {
    match a {
        Act::AdjExcl(d) => i32::MIN <= p.excl + d <= i32::MAX,
        Act::AdjMargin(i, d) => {
            let m = if i == 0 {
                p.margins.0
            } else if i == 1 {
                p.margins.1
            } else if i == 2 {
                p.margins.2
            } else {
                p.margins.3
            };
            i32::MIN <= m + d <= i32::MAX
        },
        Act::AdjSize(dw, dh) => i32::MIN <= p.size.0 + dw <= i32::MAX && i32::MIN <= p.size.1 + dh
            <= i32::MAX,
        Act::AdjPopOff(dx, dy) => i32::MIN <= p.pop_off.0 + dx <= i32::MAX && i32::MIN
            <= p.pop_off.1 + dy <= i32::MAX,
        Act::AdjPopSize(dw, dh) => i32::MIN <= p.pop_size.0 + dw <= i32::MAX && i32::MIN
            <= p.pop_size.1 + dh <= i32::MAX,
        Act::AdjDpi(d) => i32::MIN <= p.dpi_num + d <= i32::MAX,
        _ => true,
    }
}

/// The flag that switches off the viewporter protocol in the subject.
pub const NO_VIEWPORTER: &'static str = "--no-viewporter";

/// The flag that switches off the fractional-scale protocol in the subject.
pub const NO_FRACTIONAL_SCALE: &'static str = "--no-fractional-scale";

/// The flag that switches off the wlr foreign-toplevel protocol in the subject.
pub const NO_FOREIGN_WLR: &'static str = "--no-foreign-wlr";

/// The flag that switches off the ext foreign-toplevel protocol in the subject.
pub const NO_FOREIGN_EXT: &'static str = "--no-foreign-ext";

/// The subject's command-line flags: one per protocol the controller has switched off,
/// in the order viewporter, fractional scale, wlr foreign, ext foreign.
pub open spec fn subject_flags(p: Params) -> Seq<Seq<char>> {
    (if p.proto_vp {
        Seq::empty()
    } else {
        seq![NO_VIEWPORTER@]
    }) + (if p.proto_fs {
        Seq::empty()
    } else {
        seq![NO_FRACTIONAL_SCALE@]
    }) + (if p.proto_fwlr {
        Seq::empty()
    } else {
        seq![NO_FOREIGN_WLR@]
    }) + (if p.proto_fext {
        Seq::empty()
    } else {
        seq![NO_FOREIGN_EXT@]
    })
}

impl Params {
    /// The indices into the anchor cycle are in range.
    pub open spec fn wf(self) -> bool {
        self.anchor_i < 9 && self.gravity_i < 9
    }

    /// The starting parameters: no exclusive zone or margins, a 480 × 320 surface, a
    /// 160 × 120 popup anchored bottom-left with bottom-right gravity, DPI scale 2, every
    /// protocol enabled.
    pub fn new() -> (r: Params)
        ensures
            r.wf(),
            r == (Params {
                excl: 0,
                margins: (0, 0, 0, 0),
                size: (480, 320),
                pop_off: (0, 0),
                pop_size: (160, 120),
                move_step: 40,
                anchor_i: 7,
                gravity_i: 8,
                dpi_num: 2,
                proto_vp: true,
                proto_fs: true,
                proto_fwlr: true,
                proto_fext: true,
            }),
    {
        Params {
            excl: 0,
            margins: (0, 0, 0, 0),
            size: (480, 320),
            pop_off: (0, 0),
            pop_size: (160, 120),
            move_step: 40,
            anchor_i: 7,
            gravity_i: 8,
            dpi_num: 2,
            proto_vp: true,
            proto_fs: true,
            proto_fwlr: true,
            proto_fext: true,
        }
    }

    /// The arguments the subject is spawned with, [`subject_flags`].
    pub fn subject_args(&self) -> (r: Vec<String>)
        ensures
            texts_of(r@) == subject_flags(*self),
    {
        let mut v: Vec<String> = Vec::new();
        if !self.proto_vp {
            v.push(string_from(NO_VIEWPORTER));
        }
        let ghost a = texts_of(v@);
        assert(a =~= (if self.proto_vp {
            Seq::empty()
        } else {
            seq![NO_VIEWPORTER@]
        }));
        if !self.proto_fs {
            v.push(string_from(NO_FRACTIONAL_SCALE));
        }
        let ghost b = texts_of(v@);
        assert(b =~= a + (if self.proto_fs {
            Seq::empty()
        } else {
            seq![NO_FRACTIONAL_SCALE@]
        }));
        if !self.proto_fwlr {
            v.push(string_from(NO_FOREIGN_WLR));
        }
        let ghost c = texts_of(v@);
        assert(c =~= b + (if self.proto_fwlr {
            Seq::empty()
        } else {
            seq![NO_FOREIGN_WLR@]
        }));
        if !self.proto_fext {
            v.push(string_from(NO_FOREIGN_EXT));
        }
        assert(texts_of(v@) =~= c + (if self.proto_fext {
            Seq::empty()
        } else {
            seq![NO_FOREIGN_EXT@]
        }));
        v
    }

    /// Applies a click: adjusts the parameters and says what to do next. Adjusting a
    /// subject property forwards the command that sets it; margins and sizes do not go
    /// below 0 (popup sizes below 8); the DPI scale stays in `1..=8`; the anchor and
    /// gravity cycle.
    pub fn act(&mut self, a: Act) -> (e: Option<Effect>)
        requires
            old(self).wf(),
            act_fits(*old(self), a),
        ensures
            final(self).wf(),
            ({
                let p = *old(self);
                let q = *final(self);
                match a {
                    Act::Send(c) => q == p && e == Some(Effect::Send(c)),
                    Act::AdjExcl(d) => q == (Params { excl: (p.excl + d) as i32, ..p }) && e
                        == Some(Effect::Send(Command::Excl(q.excl))),
                    Act::AdjMargin(i, d) => {
                        &&& q.margins == if i == 0 {
                            (at_least(p.margins.0 + d, 0) as i32, p.margins.1, p.margins.2, p.margins.3)
                        } else if i == 1 {
                            (p.margins.0, at_least(p.margins.1 + d, 0) as i32, p.margins.2, p.margins.3)
                        } else if i == 2 {
                            (p.margins.0, p.margins.1, at_least(p.margins.2 + d, 0) as i32, p.margins.3)
                        } else {
                            (p.margins.0, p.margins.1, p.margins.2, at_least(p.margins.3 + d, 0) as i32)
                        }
                        &&& q == (Params { margins: q.margins, ..p })
                        &&& e == Some(
                            Effect::Send(
                                Command::Margin(q.margins.0, q.margins.1, q.margins.2, q.margins.3),
                            ),
                        )
                    },
                    Act::AdjSize(dw, dh) => q == (Params {
                        size: (at_least(p.size.0 + dw, 0) as i32, at_least(p.size.1 + dh, 0) as i32),
                        ..p
                    }) && e == Some(Effect::Send(Command::Size(q.size.0 as u32, q.size.1 as u32))),
                    Act::AdjPopOff(dx, dy) => q == (Params {
                        pop_off: ((p.pop_off.0 + dx) as i32, (p.pop_off.1 + dy) as i32),
                        ..p
                    }) && e == Some(Effect::Send(Command::PopupOff(q.pop_off.0, q.pop_off.1))),
                    Act::AdjPopSize(dw, dh) => q == (Params {
                        pop_size: (
                            at_least(p.pop_size.0 + dw, 8) as i32,
                            at_least(p.pop_size.1 + dh, 8) as i32,
                        ),
                        ..p
                    }) && e == Some(
                        Effect::Send(Command::PopupSize(q.pop_size.0 as u32, q.pop_size.1 as u32)),
                    ),
                    Act::AdjDpi(d) => q == (Params { dpi_num: clamp(p.dpi_num + d, 1, 8) as i32, ..p })
                        && e is None,
                    Act::CycleAnchor => q == (Params { anchor_i: ((p.anchor_i + 1) % 9) as usize, ..p })
                        && e == Some(Effect::Send(Command::PopupAnchor(anchor_at(q.anchor_i as int)))),
                    Act::CycleGravity => q == (Params {
                        gravity_i: ((p.gravity_i + 1) % 9) as usize,
                        ..p
                    }) && e == Some(Effect::Send(Command::PopupGravity(anchor_at(q.gravity_i as int)))),
                    Act::ToggleProto(i) => q == (if i == 0 {
                        Params { proto_vp: !p.proto_vp, ..p }
                    } else if i == 1 {
                        Params { proto_fs: !p.proto_fs, ..p }
                    } else if i == 2 {
                        Params { proto_fwlr: !p.proto_fwlr, ..p }
                    } else {
                        Params { proto_fext: !p.proto_fext, ..p }
                    }) && e == Some(Effect::ProtoToggled),
                    Act::Respawn => q == p && e == Some(Effect::Respawn),
                }
            }),
    {
        match a {
            Act::Send(c) => Some(Effect::Send(c)),
            Act::AdjExcl(d) => {
                self.excl = self.excl + d;
                Some(Effect::Send(Command::Excl(self.excl)))
            },
            Act::AdjMargin(i, d) => {
                let (t, r, b, l) = self.margins;
                let bump = |v: i32| -> (w: i32)
                    requires
                        i32::MIN <= v + d <= i32::MAX,
                    ensures
                        w == at_least(v + d, 0),
                    {
                        if v + d < 0 {
                            0
                        } else {
                            v + d
                        }
                    };
                self.margins = if i == 0 {
                    (bump(t), r, b, l)
                } else if i == 1 {
                    (t, bump(r), b, l)
                } else if i == 2 {
                    (t, r, bump(b), l)
                } else {
                    (t, r, b, bump(l))
                };
                let (t, r, b, l) = self.margins;
                Some(Effect::Send(Command::Margin(t, r, b, l)))
            },
            Act::AdjSize(dw, dh) => {
                let w = if self.size.0 + dw < 0 {
                    0
                } else {
                    self.size.0 + dw
                };
                let h = if self.size.1 + dh < 0 {
                    0
                } else {
                    self.size.1 + dh
                };
                self.size = (w, h);
                Some(Effect::Send(Command::Size(w as u32, h as u32)))
            },
            Act::AdjPopOff(dx, dy) => {
                self.pop_off = (self.pop_off.0 + dx, self.pop_off.1 + dy);
                Some(Effect::Send(Command::PopupOff(self.pop_off.0, self.pop_off.1)))
            },
            Act::AdjPopSize(dw, dh) => {
                let w = if self.pop_size.0 + dw < 8 {
                    8
                } else {
                    self.pop_size.0 + dw
                };
                let h = if self.pop_size.1 + dh < 8 {
                    8
                } else {
                    self.pop_size.1 + dh
                };
                self.pop_size = (w, h);
                Some(Effect::Send(Command::PopupSize(w as u32, h as u32)))
            },
            Act::AdjDpi(d) => {
                let v = self.dpi_num + d;
                self.dpi_num = if v < 1 {
                    1
                } else if v > 8 {
                    8
                } else {
                    v
                };
                None
            },
            Act::CycleAnchor => {
                self.anchor_i = (self.anchor_i + 1) % 9;
                Some(Effect::Send(Command::PopupAnchor(anchor_of(self.anchor_i))))
            },
            Act::CycleGravity => {
                self.gravity_i = (self.gravity_i + 1) % 9;
                Some(Effect::Send(Command::PopupGravity(anchor_of(self.gravity_i))))
            },
            Act::ToggleProto(i) => {
                if i == 0 {
                    self.proto_vp = !self.proto_vp;
                } else if i == 1 {
                    self.proto_fs = !self.proto_fs;
                } else if i == 2 {
                    self.proto_fwlr = !self.proto_fwlr;
                } else {
                    self.proto_fext = !self.proto_fext;
                }
                Some(Effect::ProtoToggled)
            },
            Act::Respawn => Some(Effect::Respawn),
        }
    }
}

/// Appends a line to the command log, keeping only the newest `keep`.
pub fn push_log(log: &mut Vec<String>, s: String, keep: usize)
    ensures
        final(log)@ == if old(log)@.len() + 1 > keep {
            old(log)@.push(s).skip(old(log)@.len() + 1 - keep)
        } else {
            old(log)@.push(s)
        },
{
    push_bounded(log, s, keep);
}

/// The message shown when a protocol is toggled.
pub fn proto_toggled_note() -> (r: String)
    ensures
        r@ == "proto toggled — press RESPAWN to apply"@,
{
    string_from("proto toggled — press RESPAWN to apply")
}

} // verus!
