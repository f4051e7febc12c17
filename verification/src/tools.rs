//! How the pen and touch viewers label and colour what they track (a tablet tool by its
//! type, a touch point by its slot) and how a pen tool's ink and hover trail advance
//! from frame to frame. Positions are a type parameter: the viewers use floating-point
//! surface coordinates, which this module only carries.

use vstd::prelude::*;

use crate::canvas::{BLUE, CYAN, GREEN, LTGREY, MAGENTA, ORANGE, RED, YELLOW};

verus! {

/// The physical type a tablet tool announces (`zwp_tablet_tool_v2.type`).
#[derive(Clone, Copy, Debug, PartialEq, Eq, Structural)]
pub enum ToolType {
    Pen,
    Eraser,
    Brush,
    Pencil,
    Airbrush,
    Finger,
    Mouse,
    Lens,
}

/// The name shown for a tool: its type in capitals, or `TOOL` before it announced one.
pub open spec fn tool_name_spec(t: Option<ToolType>) -> Seq<char> {
    match t {
        Some(ToolType::Pen) => "PEN"@,
        Some(ToolType::Eraser) => "ERASER"@,
        Some(ToolType::Brush) => "BRUSH"@,
        Some(ToolType::Pencil) => "PENCIL"@,
        Some(ToolType::Airbrush) => "AIRBRUSH"@,
        Some(ToolType::Finger) => "FINGER"@,
        Some(ToolType::Mouse) => "MOUSE"@,
        Some(ToolType::Lens) => "LENS"@,
        None => "TOOL"@,
    }
}

/// The name shown for a tool, [`tool_name_spec`].
pub fn tool_name(t: Option<ToolType>) -> (r: &'static str)
    ensures
        r@ == tool_name_spec(t),
{
    match t {
        Some(ToolType::Pen) => "PEN",
        Some(ToolType::Eraser) => "ERASER",
        Some(ToolType::Brush) => "BRUSH",
        Some(ToolType::Pencil) => "PENCIL",
        Some(ToolType::Airbrush) => "AIRBRUSH",
        Some(ToolType::Finger) => "FINGER",
        Some(ToolType::Mouse) => "MOUSE",
        Some(ToolType::Lens) => "LENS",
        None => "TOOL",
    }
}

/// Whether a tool erases.
pub fn is_eraser(t: Option<ToolType>) -> (r: bool)
    ensures
        r == (t == Some(ToolType::Eraser)),
{
    match t {
        Some(ToolType::Eraser) => true,
        _ => false,
    }
}

/// A tool's stable colour by type: the eraser is unmistakable magenta; brush green,
/// pencil yellow, airbrush orange, mouse and lens light grey; anything else cyan.
pub open spec fn tool_colour_spec(t: Option<ToolType>) -> u32 {
    match t {
        Some(ToolType::Eraser) => MAGENTA,
        Some(ToolType::Brush) => GREEN,
        Some(ToolType::Pencil) => YELLOW,
        Some(ToolType::Airbrush) => ORANGE,
        Some(ToolType::Mouse) | Some(ToolType::Lens) => LTGREY,
        _ => CYAN,
    }
}

/// A tool's stable colour, [`tool_colour_spec`].
pub fn tool_colour(t: Option<ToolType>) -> (r: u32)
    ensures
        r == tool_colour_spec(t),
{
    match t {
        Some(ToolType::Eraser) => MAGENTA,
        Some(ToolType::Brush) => GREEN,
        Some(ToolType::Pencil) => YELLOW,
        Some(ToolType::Airbrush) => ORANGE,
        Some(ToolType::Mouse) | Some(ToolType::Lens) => LTGREY,
        _ => CYAN,
    }
}

/// The colour of touch slot `k` (0..6) in the palette touch points cycle through.
pub open spec fn slot_palette(k: int) -> u32 {
    if k == 0 {
        CYAN
    } else if k == 1 {
        MAGENTA
    } else if k == 2 {
        YELLOW
    } else if k == 3 {
        GREEN
    } else if k == 4 {
        RED
    } else {
        BLUE
    }
}

/// The colour of a touch point by its id: the palette walked by the id modulo 6, never
/// negative.
pub fn slot_colour(id: i32) -> (r: u32)
    ensures
        r == slot_palette(id as int % 6),
{
    let k = if id >= 0 {
        id % 6
    } else {
        let m = (-(id as i64)) % 6;
        if m == 0 {
            0
        } else {
            (6 - m) as i32
        }
    };
    proof {
        let a = id as int;
        if a < 0 {
            let u = -a;
            let q = u / 6;
            let m = u % 6;
            assert(u == 6 * q + m);
            if m == 0 {
                vstd::arithmetic::div_mod::lemma_fundamental_div_mod_converse(a, 6, -q, 0);
            } else {
                vstd::arithmetic::div_mod::lemma_fundamental_div_mod_converse(a, 6, -q - 1, 6 - m);
            }
        }
    }
    match k {
        0 => CYAN,
        1 => MAGENTA,
        2 => YELLOW,
        3 => GREEN,
        4 => RED,
        _ => BLUE,
    }
}

/// Trail points kept per pen tool (hover) and per finger.
pub const TRAIL: usize = 24;

/// Ink segments kept (the oldest go first).
pub const INK_MAX: usize = 6000;

/// Event-log lines the pen viewer keeps.
pub const PEN_LOG_LINES: usize = 14;

/// Event-log lines the touch viewer keeps.
pub const TOUCH_LOG_LINES: usize = 16;

/// The newest `keep` items of `s` (all of them when there are no more than `keep`).
pub open spec fn keep_last<T>(s: Seq<T>, keep: nat) -> Seq<T> {
    if s.len() > keep {
        s.skip(s.len() - keep)
    } else {
        s
    }
}

/// Appends `x`, then drops the oldest items until at most `keep` remain.
pub fn push_bounded<T>(v: &mut Vec<T>, x: T, keep: usize)
    ensures
        final(v)@ == keep_last(old(v)@.push(x), keep as nat),
{
    v.push(x);
    let ghost full = v@;
    let n = v.len();
    assert(full.len() == n);
    let mut dropped: usize = 0;
    while v.len() > keep
        invariant
            dropped <= full.len(),
            full.len() <= usize::MAX,
            v@ == full.skip(dropped as int),
            full.len() > keep ==> v@.len() >= keep,
            full.len() <= keep ==> dropped == 0,
        decreases v.len(),
    {
        v.remove(0);
        dropped += 1;
        assert(v@ =~= full.skip(dropped as int));
    }
    proof {
        if full.len() > keep {
            assert(dropped == full.len() - keep);
        } else {
            assert(full.skip(0) =~= full);
        }
    }
}

/// What one end-of-frame does to a pen tool: the segment to ink (from the last inked
/// point, or from here when the tip just landed) and the new last inked point.
pub open spec fn frame_ink<P>(down: bool, ink_prev: Option<P>, cur: P) -> (Option<(P, P)>, Option<P>) {
    if down {
        let from = match ink_prev {
            Some(p) => p,
            None => cur,
        };
        (Some((from, cur)), Some(cur))
    } else {
        (None, None)
    }
}

/// End of a tablet-tool frame (tablet events arrive in bursts closed by `frame`, so ink
/// is committed once per frame). With the tip down it gives the segment to ink and
/// remembers `cur` as the last inked point; lifted, it forgets it. In proximity the
/// position joins the hover trail, which keeps the newest [`TRAIL`] points.
pub fn tool_frame<P: Copy>(down: bool, proximity: bool, ink_prev: Option<P>, cur: P, trail: &mut Vec<P>) -> (r: (
    Option<(P, P)>,
    Option<P>,
))
    ensures
        r == frame_ink(down, ink_prev, cur),
        final(trail)@ == if proximity {
            keep_last(old(trail)@.push(cur), TRAIL as nat)
        } else {
            old(trail)@
        },
{
    let r = if down {
        let from = match ink_prev {
            Some(p) => p,
            None => cur,
        };
        (Some((from, cur)), Some(cur))
    } else {
        (None, None)
    };
    if proximity {
        push_bounded(trail, cur, TRAIL);
    }
    r
}

/// The idle tick: a lifted tool's trail loses its oldest point, down to one, so an idle
/// trail fades. (The touch viewer ages every finger's trail, as `down == false`.)
pub fn age_trail<P>(down: bool, trail: &mut Vec<P>)
    ensures
        final(trail)@ == if !down && old(trail)@.len() > 1 {
            old(trail)@.drop_first()
        } else {
            old(trail)@
        },
{
    if !down && trail.len() > 1 {
        trail.remove(0);
        assert(trail@ =~= old(trail)@.drop_first());
    }
}

/// What bringing an input binding (the tablet seat, or `wl_touch`) in line with what is
/// wanted asks for.
#[derive(Clone, Copy, Debug, PartialEq, Eq, Structural)]
pub enum Rebind {
    /// Wanted and not bound: bind it.
    Bind,
    /// Bound and no longer wanted: release it and forget what it tracked, so the
    /// compositor falls back to pointer emulation.
    Release,
    /// Already as wanted.
    Keep,
}

/// The live input toggle of the pen and touch viewers: compares what is wanted with
/// what is bound.
pub fn reconcile(want: bool, bound: bool) -> (r: Rebind)
    ensures
        r == if want && !bound {
            Rebind::Bind
        } else if !want && bound {
            Rebind::Release
        } else {
            Rebind::Keep
        },
{
    match (want, bound) {
        (true, false) => Rebind::Bind,
        (false, true) => Rebind::Release,
        _ => Rebind::Keep,
    }
}

} // verus!
