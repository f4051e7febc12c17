//! The layer subject's live state overlay: the lines of text it draws over its surface,
//! so what the compositor configured can be read off a screenshot.

use vstd::prelude::*;

use crate::harness::{on, state_letter, states_str, trunc};
use crate::layer_protocol::{Kbd, Layer, Region, ScaleReq};
use crate::layer_subject::{anchor_str, anchor_text, SubjectState};
use crate::text::{int_text, nat_text, push_int, push_nat, push_str, string_from};

verus! {

/// How `Debug` prints a layer.
pub open spec fn layer_name(l: Layer) -> Seq<char> {
    match l {
        Layer::Background => "Background"@,
        Layer::Bottom => "Bottom"@,
        Layer::Top => "Top"@,
        Layer::Overlay => "Overlay"@,
    }
}

/// How `Debug` prints a keyboard mode; the mode that never takes the keyboard prints
/// `None`.
pub open spec fn kbd_name(k: Kbd) -> Seq<char> {
    match k {
        Kbd::Disabled => "None"@,
        Kbd::Exclusive => "Exclusive"@,
        Kbd::OnDemand => "OnDemand"@,
    }
}

/// How `Debug` prints an input region; the empty region prints `None`.
pub open spec fn region_name(r: Region) -> Seq<char> {
    match r {
        Region::Full => "Full"@,
        Region::Empty => "None"@,
        Region::Circle => "Circle"@,
        Region::Holes => "Holes"@,
    }
}

/// How `Debug` prints a scale mode.
pub open spec fn scale_name(s: ScaleReq) -> Seq<char> {
    match s {
        ScaleReq::Normal => "Normal"@,
        ScaleReq::FsHonor => "FsHonor"@,
        ScaleReq::FsIgnore => "FsIgnore"@,
        ScaleReq::DpiHonor => "DpiHonor"@,
        ScaleReq::DpiIgnore => "DpiIgnore"@,
        ScaleReq::DpiScale(n) => "DpiScale("@ + int_text(n as int) + ")"@,
    }
}

/// What the overlay shows besides the subject's own parameters: what the compositor and
/// the seat reported.
pub struct OverlayInputs {
    /// The configured logical size.
    pub cfg: (i32, i32),
    /// The buffer size and buffer scale in use.
    pub buf: (i32, i32, i32),
    pub kbd_focus: bool,
    pub last_key: String,
    pub output_scale: i32,
    /// The preferred fractional scale, as text.
    pub frac: String,
    /// How many outputs the compositor advertises.
    pub outputs: usize,
    /// How many popups are open.
    pub popups: usize,
    /// The bound foreign-toplevel managers' versions, if bound.
    pub wlr_version: Option<u32>,
    pub ext_version: Option<u32>,
    /// The wlr toplevels: title, app id, states.
    pub wlr_tops: Vec<(String, String, Vec<u32>)>,
    /// The ext toplevels: title, app id, identifier.
    pub ext_tops: Vec<(String, String, String)>,
}

/// A manager version as the overlay shows it: `v<n>`, or `absent`.
pub open spec fn present_text(v: Option<u32>) -> Seq<char> {
    match v {
        Some(n) => "v"@ + nat_text(n as nat),
        None => "absent"@,
    }
}

/// At most the first `n` characters of `s`.
pub open spec fn trunc_text(s: Seq<char>, n: int) -> Seq<char> {
    if s.len() <= n {
        s
    } else {
        s.take(n)
    }
}

/// The letters of a toplevel's states, or `-` when there is none.
pub open spec fn states_text(states: Seq<u32>) -> Seq<char> {
    if states.len() == 0 {
        seq!['-']
    } else {
        states.map_values(|st: u32| state_letter(st))
    }
}

/// `on` or `off`.
pub open spec fn on_text(b: bool) -> Seq<char> {
    if b {
        "on"@
    } else {
        "off"@
    }
}

/// The fixed lines of the overlay: layer and anchors; exclusive zone and margins;
/// requested and configured size, keyboard mode and focus; the last key; buffer and
/// scales; input and opaque regions, output, popups, transparency and animation; the
/// foreign-toplevel managers and selection.
pub open spec fn head_lines(s: SubjectState, o: OverlayInputs) -> Seq<Seq<char>> {
    seq![
        "LAYER "@ + layer_name(s.layer) + "  ANCHOR "@ + anchor_text(s.anchor_bits),
        "EXCL "@ + int_text(s.excl as int) + "  MARGIN "@ + int_text(s.margins.0 as int) + " "@
            + int_text(s.margins.1 as int) + " "@ + int_text(s.margins.2 as int) + " "@ + int_text(
            s.margins.3 as int,
        ),
        "SIZE req "@ + nat_text(s.req_size.0 as nat) + "x"@ + nat_text(s.req_size.1 as nat)
            + " -> cfg "@ + int_text(o.cfg.0 as int) + "x"@ + int_text(o.cfg.1 as int) + "  KBD "@
            + kbd_name(s.kbd) + " FOCUS "@ + (if o.kbd_focus {
            "YES"@
        } else {
            "no"@
        }),
        "KEY "@ + o.last_key@,
        "BUF "@ + int_text(o.buf.0 as int) + "x"@ + int_text(o.buf.1 as int) + " scale "@ + int_text(
            o.buf.2 as int,
        ) + "  OUTSCALE "@ + int_text(o.output_scale as int) + " FRAC "@ + o.frac@ + "  SCALE "@
            + scale_name(s.scale),
        "INPUT "@ + region_name(s.input_region) + "  OPAQUE "@ + (if s.opaque {
            "full"@
        } else {
            "none"@
        }) + "  OUTPUT "@ + nat_text(s.output_sel as nat) + "/"@ + nat_text(o.outputs as nat)
            + "  POPUPS "@ + nat_text(o.popups as nat) + "  TRANSP "@ + on_text(s.transparent)
            + " ANIM "@ + on_text(s.animate),
        "FOREIGN wlr="@ + present_text(o.wlr_version) + " ext="@ + present_text(o.ext_version)
            + "  SEL "@ + nat_text(s.foreign_sel as nat),
    ]
}

/// The line for wlr toplevel `i`: marked `>` when selected, its title and app id cut
/// short, and its states.
pub open spec fn wlr_line(s: SubjectState, i: int, t: (String, String, Vec<u32>)) -> Seq<char> {
    (if i == s.foreign_sel {
        ">"@
    } else {
        " "@
    }) + "WLR["@ + nat_text(i as nat) + "] "@ + trunc_text(t.0@, 18) + " ("@ + trunc_text(t.1@, 14)
        + ") ["@ + states_text(t.2@) + "]"@
}

/// The line for ext toplevel `i`: its title, app id and identifier cut short.
pub open spec fn ext_line(i: int, t: (String, String, String)) -> Seq<char> {
    " EXT["@ + nat_text(i as nat) + "] "@ + trunc_text(t.0@, 16) + " ("@ + trunc_text(t.1@, 12)
        + ") id="@ + trunc_text(t.2@, 10)
}

/// Every line of the overlay: the fixed ones, then the first six wlr toplevels, then the
/// first four ext ones.
pub open spec fn overlay_spec(s: SubjectState, o: OverlayInputs) -> Seq<Seq<char>> {
    let nw = if o.wlr_tops@.len() < 6 {
        o.wlr_tops@.len()
    } else {
        6
    };
    let ne = if o.ext_tops@.len() < 4 {
        o.ext_tops@.len()
    } else {
        4
    };
    head_lines(s, o) + Seq::new(nw as nat, |i: int| wlr_line(s, i, o.wlr_tops@[i])) + Seq::new(
        ne as nat,
        |i: int| ext_line(i, o.ext_tops@[i]),
    )
}

fn layer_name_str(l: Layer) -> (r: &'static str)
    ensures
        r@ == layer_name(l),
{
    match l {
        Layer::Background => "Background",
        Layer::Bottom => "Bottom",
        Layer::Top => "Top",
        Layer::Overlay => "Overlay",
    }
}

fn kbd_name_str(k: Kbd) -> (r: &'static str)
    ensures
        r@ == kbd_name(k),
{
    match k {
        Kbd::Disabled => "None",
        Kbd::Exclusive => "Exclusive",
        Kbd::OnDemand => "OnDemand",
    }
}

fn region_name_str(r: Region) -> (t: &'static str)
    ensures
        t@ == region_name(r),
{
    match r {
        Region::Full => "Full",
        Region::Empty => "None",
        Region::Circle => "Circle",
        Region::Holes => "Holes",
    }
}

fn push_scale_name(t: &mut String, s: ScaleReq)
    ensures
        final(t)@ == old(t)@ + scale_name(s),
{
    match s {
        ScaleReq::Normal => push_str(t, "Normal"),
        ScaleReq::FsHonor => push_str(t, "FsHonor"),
        ScaleReq::FsIgnore => push_str(t, "FsIgnore"),
        ScaleReq::DpiHonor => push_str(t, "DpiHonor"),
        ScaleReq::DpiIgnore => push_str(t, "DpiIgnore"),
        ScaleReq::DpiScale(n) => {
            push_str(t, "DpiScale(");
            push_int(t, n as i64);
            push_str(t, ")");
        },
    }
}

fn push_present(t: &mut String, v: Option<u32>)
    ensures
        final(t)@ == old(t)@ + present_text(v),
{
    match v {
        Some(n) => {
            push_str(t, "v");
            push_nat(t, n as u64);
        },
        None => push_str(t, "absent"),
    }
}

/// Appends the decimal text of `n`.
fn push_i32(t: &mut String, n: i32)
    ensures
        final(t)@ == old(t)@ + int_text(n as int),
{
    push_int(t, n as i64);
}

impl SubjectState {
    fn head_overlay(&self, o: &OverlayInputs) -> (r: Vec<String>)
        ensures
            r@.map_values(|l: String| l@) == head_lines(*self, *o),
    {
        let mut l1 = string_from("LAYER ");
        push_str(&mut l1, layer_name_str(self.layer));
        push_str(&mut l1, "  ANCHOR ");
        let a = anchor_str(self.anchor_bits);
        push_str(&mut l1, a.as_str());

        let mut l2 = string_from("EXCL ");
        push_i32(&mut l2, self.excl);
        push_str(&mut l2, "  MARGIN ");
        push_i32(&mut l2, self.margins.0);
        push_str(&mut l2, " ");
        push_i32(&mut l2, self.margins.1);
        push_str(&mut l2, " ");
        push_i32(&mut l2, self.margins.2);
        push_str(&mut l2, " ");
        push_i32(&mut l2, self.margins.3);

        let mut l3 = string_from("SIZE req ");
        push_nat(&mut l3, self.req_size.0 as u64);
        push_str(&mut l3, "x");
        push_nat(&mut l3, self.req_size.1 as u64);
        push_str(&mut l3, " -> cfg ");
        push_i32(&mut l3, o.cfg.0);
        push_str(&mut l3, "x");
        push_i32(&mut l3, o.cfg.1);
        push_str(&mut l3, "  KBD ");
        push_str(&mut l3, kbd_name_str(self.kbd));
        push_str(&mut l3, " FOCUS ");
        push_str(&mut l3, if o.kbd_focus { "YES" } else { "no" });

        let mut l4 = string_from("KEY ");
        push_str(&mut l4, o.last_key.as_str());

        let mut l5 = string_from("BUF ");
        push_i32(&mut l5, o.buf.0);
        push_str(&mut l5, "x");
        push_i32(&mut l5, o.buf.1);
        push_str(&mut l5, " scale ");
        push_i32(&mut l5, o.buf.2);
        push_str(&mut l5, "  OUTSCALE ");
        push_i32(&mut l5, o.output_scale);
        push_str(&mut l5, " FRAC ");
        push_str(&mut l5, o.frac.as_str());
        push_str(&mut l5, "  SCALE ");
        push_scale_name(&mut l5, self.scale);

        let mut l6 = string_from("INPUT ");
        push_str(&mut l6, region_name_str(self.input_region));
        push_str(&mut l6, "  OPAQUE ");
        push_str(&mut l6, if self.opaque { "full" } else { "none" });
        push_str(&mut l6, "  OUTPUT ");
        push_nat(&mut l6, self.output_sel as u64);
        push_str(&mut l6, "/");
        push_nat(&mut l6, o.outputs as u64);
        push_str(&mut l6, "  POPUPS ");
        push_nat(&mut l6, o.popups as u64);
        push_str(&mut l6, "  TRANSP ");
        push_str(&mut l6, on(self.transparent));
        push_str(&mut l6, " ANIM ");
        push_str(&mut l6, on(self.animate));

        let mut l7 = string_from("FOREIGN wlr=");
        push_present(&mut l7, o.wlr_version);
        push_str(&mut l7, " ext=");
        push_present(&mut l7, o.ext_version);
        push_str(&mut l7, "  SEL ");
        push_nat(&mut l7, self.foreign_sel as u64);

        let v = vec![l1, l2, l3, l4, l5, l6, l7];
        assert(v@.map_values(|l: String| l@) =~= head_lines(*self, *o));
        v
    }

    /// The overlay's lines, [`overlay_spec`].
    pub fn overlay_lines(&self, o: &OverlayInputs) -> (r: Vec<String>)
        ensures
            r@.map_values(|l: String| l@) == overlay_spec(*self, *o),
    {
        let mut v = self.head_overlay(o);
        let ghost head = head_lines(*self, *o);
        let nw = if o.wlr_tops.len() < 6 {
            o.wlr_tops.len()
        } else {
            6
        };
        let ghost wl = Seq::new(nw as nat, |i: int| wlr_line(*self, i, o.wlr_tops@[i]));
        let mut i: usize = 0;
        while i < nw
            invariant
                i <= nw <= o.wlr_tops@.len(),
                wl == Seq::new(nw as nat, |i: int| wlr_line(*self, i, o.wlr_tops@[i])),
                v@.map_values(|l: String| l@) == head + wl.take(i as int),
            decreases nw - i,
        {
            let t = &o.wlr_tops[i];
            let mut line = string_from(if i == self.foreign_sel { ">" } else { " " });
            push_str(&mut line, "WLR[");
            push_nat(&mut line, i as u64);
            push_str(&mut line, "] ");
            let a = trunc(t.0.as_str(), 18);
            push_str(&mut line, a.as_str());
            push_str(&mut line, " (");
            let b = trunc(t.1.as_str(), 14);
            push_str(&mut line, b.as_str());
            push_str(&mut line, ") [");
            let c = states_str(t.2.as_slice());
            push_str(&mut line, c.as_str());
            push_str(&mut line, "]");
            let ghost before = v@.map_values(|l: String| l@);
            proof {
                assert(line@ == wlr_line(*self, i as int, o.wlr_tops@[i as int]));
            }
            v.push(line);
            assert(v@.map_values(|l: String| l@) =~= before.push(wl[i as int]));
            assert(wl.take(i + 1) =~= wl.take(i as int).push(wl[i as int]));
            i += 1;
        }
        assert(wl.take(i as int) =~= wl);
        let ne = if o.ext_tops.len() < 4 {
            o.ext_tops.len()
        } else {
            4
        };
        let ghost el = Seq::new(ne as nat, |i: int| ext_line(i, o.ext_tops@[i]));
        let mut j: usize = 0;
        while j < ne
            invariant
                j <= ne <= o.ext_tops@.len(),
                el == Seq::new(ne as nat, |i: int| ext_line(i, o.ext_tops@[i])),
                v@.map_values(|l: String| l@) == head + wl + el.take(j as int),
            decreases ne - j,
        {
            let t = &o.ext_tops[j];
            let mut line = string_from(" EXT[");
            push_nat(&mut line, j as u64);
            push_str(&mut line, "] ");
            let a = trunc(t.0.as_str(), 16);
            push_str(&mut line, a.as_str());
            push_str(&mut line, " (");
            let b = trunc(t.1.as_str(), 12);
            push_str(&mut line, b.as_str());
            push_str(&mut line, ") id=");
            let c = trunc(t.2.as_str(), 10);
            push_str(&mut line, c.as_str());
            let ghost before = v@.map_values(|l: String| l@);
            proof {
                assert(line@ == ext_line(j as int, o.ext_tops@[j as int]));
            }
            v.push(line);
            assert(v@.map_values(|l: String| l@) =~= before.push(el[j as int]));
            assert(el.take(j + 1) =~= el.take(j as int).push(el[j as int]));
            j += 1;
        }
        assert(el.take(j as int) =~= el);
        v
    }
}

} // verus!
