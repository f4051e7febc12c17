//! The window subject's state overlay: the lines of text it draws into its main surface.
//!
//! The counter line is what makes each frame's pixels differ, so it is also what makes
//! a tear visible (the number splits across the seam). With it off, successive frames
//! can be pixel-identical: the compositor still composites and flips, but a tear has
//! nothing to reveal, so it is the control case for "is that seam real".

use vstd::prelude::*;

use crate::text::{int_text, nat_text, push_int, push_nat, push_str, string_from};
use crate::window_protocol::DecoMode;
use crate::window_subject::{DecoSide, ScaleMode, WindowState};

verus! {

/// How `Debug` prints a scale mode.
pub open spec fn scale_mode_name(m: ScaleMode) -> Seq<char> {
    match m {
        ScaleMode::Normal => "Normal"@,
        ScaleMode::FsHonor => "FsHonor"@,
        ScaleMode::FsIgnore => "FsIgnore"@,
        ScaleMode::FsForce(n) => "FsForce("@ + nat_text(n as nat) + ")"@,
        ScaleMode::FsNoViewport => "FsNoViewport"@,
        ScaleMode::FsMismatch => "FsMismatch"@,
        ScaleMode::DpiHonor => "DpiHonor"@,
        ScaleMode::DpiIgnore => "DpiIgnore"@,
        ScaleMode::DpiForce(n) => "DpiForce("@ + int_text(n as int) + ")"@,
        ScaleMode::DpiNondiv => "DpiNondiv"@,
        ScaleMode::DpiMismatch => "DpiMismatch"@,
        ScaleMode::DpiZero => "DpiZero"@,
    }
}

/// How `Debug` prints a requested decoration mode; no decorations prints `None`.
pub open spec fn deco_name(m: DecoMode) -> Seq<char> {
    match m {
        DecoMode::Server => "Server"@,
        DecoMode::Client => "Client"@,
        DecoMode::Undecorated => "None"@,
    }
}

/// The configured decoration side as the overlay shows it: `server`, `client`, or `?`
/// for an unknown mode or none configured yet.
pub open spec fn side_text(s: Option<DecoSide>) -> Seq<char> {
    match s {
        Some(DecoSide::Server) => "server"@,
        Some(DecoSide::Client) => "client"@,
        _ => "?"@,
    }
}

/// How `Display` prints a boolean.
pub open spec fn bool_text(b: bool) -> Seq<char> {
    if b {
        "true"@
    } else {
        "false"@
    }
}

/// How `Debug` prints a list of integers: `[a, b, …]`.
pub open spec fn list_text(v: Seq<i32>) -> Seq<char> {
    "["@ + list_items(v) + "]"@
}

/// The items of a list, `, `-separated.
pub open spec fn list_items(v: Seq<i32>) -> Seq<char>
    decreases v.len(),
{
    if v.len() == 0 {
        Seq::empty()
    } else if v.len() == 1 {
        int_text(v[0] as int)
    } else {
        int_text(v[0] as int) + ", "@ + list_items(v.drop_first())
    }
}

/// What the overlay shows besides the subject's toggles.
pub struct FrameInputs {
    /// Logical size.
    pub logical: (i32, i32),
    /// Buffer size.
    pub buffer: (i32, i32),
    pub buffer_scale: i32,
    /// Viewport destination, if any.
    pub dest: Option<(i32, i32)>,
    pub output_scale: i32,
    /// The preferred fractional scale, as text.
    pub frac: String,
    pub subs: usize,
    pub popups: usize,
    /// What icon was last requested.
    pub icon_label: String,
    /// Whether the compositor offers the toplevel-icon manager.
    pub icon_mgr: bool,
    /// The icon sizes the compositor asked for.
    pub icon_sizes: Vec<i32>,
}

/// The overlay's lines without the counter.
pub open spec fn state_lines(s: WindowState, f: FrameInputs) -> Seq<Seq<char>> {
    seq![
        "CONFIGURE "@ + int_text(f.logical.0 as int) + "x"@ + int_text(f.logical.1 as int),
        "BUFFER "@ + int_text(f.buffer.0 as int) + "x"@ + int_text(f.buffer.1 as int) + "  SCALE "@
            + int_text(f.buffer_scale as int),
        "VP DEST "@ + match f.dest {
            Some((w, h)) => int_text(w as int) + "x"@ + int_text(h as int),
            None => "NONE"@,
        },
        "OUT SCALE "@ + int_text(f.output_scale as int) + "  FRAC "@ + f.frac@,
        "SCALEMODE "@ + scale_mode_name(s.scale_mode),
        "DECO req="@ + deco_name(s.deco_requested) + " eff="@ + side_text(s.deco_effective)
            + " ign="@ + bool_text(s.deco_ignore),
        "ACK "@ + (if s.no_ack {
            "OFF"@
        } else {
            "ON"@
        }) + "  GEOMIS "@ + bool_text(s.geo_mismatch) + "  BUFDELTA "@ + int_text(
            s.buf_delta as int,
        ),
        "SUBS "@ + nat_text(f.subs as nat) + "  POPUPS "@ + nat_text(f.popups as nat),
        "ICON "@ + f.icon_label@ + "  [mgr "@ + (if f.icon_mgr {
            "yes"@
        } else {
            "NO"@
        }) + " sizes "@ + list_text(f.icon_sizes@) + "]"@,
    ]
}

/// Every line of the overlay: the frame and commit counter first when it is shown, then
/// configure and buffer sizes, viewport destination, scales, decorations, acking and
/// geometry toggles, child surfaces, and the icon.
pub open spec fn window_overlay_spec(s: WindowState, f: FrameInputs) -> Seq<Seq<char>> {
    if s.show_counter {
        seq![
            "FRAME "@ + nat_text(s.commits as nat) + "  COMMIT "@ + nat_text(s.commit_hz as nat)
                + " Hz"@,
        ] + state_lines(s, f)
    } else {
        state_lines(s, f)
    }
}

fn push_i32(t: &mut String, n: i32)
    ensures
        final(t)@ == old(t)@ + int_text(n as int),
{
    push_int(t, n as i64);
}

fn push_bool(t: &mut String, b: bool)
    ensures
        final(t)@ == old(t)@ + bool_text(b),
{
    push_str(t, if b { "true" } else { "false" });
}

fn push_scale_mode(t: &mut String, m: ScaleMode)
    ensures
        final(t)@ == old(t)@ + scale_mode_name(m),
{
    match m {
        ScaleMode::Normal => push_str(t, "Normal"),
        ScaleMode::FsHonor => push_str(t, "FsHonor"),
        ScaleMode::FsIgnore => push_str(t, "FsIgnore"),
        ScaleMode::FsForce(n) => {
            push_str(t, "FsForce(");
            push_nat(t, n as u64);
            push_str(t, ")");
        },
        ScaleMode::FsNoViewport => push_str(t, "FsNoViewport"),
        ScaleMode::FsMismatch => push_str(t, "FsMismatch"),
        ScaleMode::DpiHonor => push_str(t, "DpiHonor"),
        ScaleMode::DpiIgnore => push_str(t, "DpiIgnore"),
        ScaleMode::DpiForce(n) => {
            push_str(t, "DpiForce(");
            push_i32(t, n);
            push_str(t, ")");
        },
        ScaleMode::DpiNondiv => push_str(t, "DpiNondiv"),
        ScaleMode::DpiMismatch => push_str(t, "DpiMismatch"),
        ScaleMode::DpiZero => push_str(t, "DpiZero"),
    }
}

proof fn lemma_list_items_push(v: Seq<i32>, x: i32)
    ensures
        list_items(v.push(x)) == if v.len() == 0 {
            int_text(x as int)
        } else {
            list_items(v) + ", "@ + int_text(x as int)
        },
    decreases v.len(),
{
    if v.len() == 0 {
        assert(v.push(x) =~= seq![x]);
        assert(list_items(seq![x]) == int_text(x as int));
    } else if v.len() == 1 {
        assert(v.push(x).drop_first() =~= seq![x]);
        assert(list_items(seq![x]) == int_text(x as int));
        assert(list_items(v) == int_text(v[0] as int));
        assert(v.push(x)[0] == v[0]);
    } else {
        assert(v.push(x).drop_first() =~= v.drop_first().push(x));
        lemma_list_items_push(v.drop_first(), x);
        assert(v.push(x)[0] == v[0]);
        assert(int_text(v[0] as int) + ", "@ + (list_items(v.drop_first()) + ", "@ + int_text(
            x as int,
        )) =~= int_text(v[0] as int) + ", "@ + list_items(v.drop_first()) + ", "@ + int_text(
            x as int,
        ));
    }
}

fn push_list(t: &mut String, v: &Vec<i32>)
    ensures
        final(t)@ == old(t)@ + list_text(v@),
{
    push_str(t, "[");
    let ghost start = t@;
    let mut i: usize = 0;
    while i < v.len()
        invariant
            i <= v@.len(),
            t@ == start + list_items(v@.take(i as int)),
        decreases v@.len() - i,
    {
        proof {
            lemma_list_items_push(v@.take(i as int), v@[i as int]);
            assert(v@.take(i + 1) =~= v@.take(i as int).push(v@[i as int]));
        }
        if i > 0 {
            push_str(t, ", ");
        }
        push_i32(t, v[i]);
        i += 1;
    }
    assert(v@.take(i as int) =~= v@);
    push_str(t, "]");
}

impl WindowState {
    /// The overlay's lines, [`window_overlay_spec`].
    pub fn overlay_lines(&self, f: &FrameInputs) -> (r: Vec<String>)
        ensures
            r@.map_values(|l: String| l@) == window_overlay_spec(*self, *f),
    {
        let mut l1 = string_from("CONFIGURE ");
        push_i32(&mut l1, f.logical.0);
        push_str(&mut l1, "x");
        push_i32(&mut l1, f.logical.1);

        let mut l2 = string_from("BUFFER ");
        push_i32(&mut l2, f.buffer.0);
        push_str(&mut l2, "x");
        push_i32(&mut l2, f.buffer.1);
        push_str(&mut l2, "  SCALE ");
        push_i32(&mut l2, f.buffer_scale);

        let mut l3 = string_from("VP DEST ");
        match f.dest {
            Some((w, h)) => {
                push_i32(&mut l3, w);
                push_str(&mut l3, "x");
                push_i32(&mut l3, h);
            },
            None => push_str(&mut l3, "NONE"),
        }

        let mut l4 = string_from("OUT SCALE ");
        push_i32(&mut l4, f.output_scale);
        push_str(&mut l4, "  FRAC ");
        push_str(&mut l4, f.frac.as_str());

        let mut l5 = string_from("SCALEMODE ");
        push_scale_mode(&mut l5, self.scale_mode);

        let mut l6 = string_from("DECO req=");
        push_str(
            &mut l6,
            match self.deco_requested {
                DecoMode::Server => "Server",
                DecoMode::Client => "Client",
                DecoMode::Undecorated => "None",
            },
        );
        push_str(&mut l6, " eff=");
        push_str(
            &mut l6,
            match self.deco_effective {
                Some(DecoSide::Server) => "server",
                Some(DecoSide::Client) => "client",
                _ => "?",
            },
        );
        push_str(&mut l6, " ign=");
        push_bool(&mut l6, self.deco_ignore);

        let mut l7 = string_from("ACK ");
        push_str(&mut l7, if self.no_ack { "OFF" } else { "ON" });
        push_str(&mut l7, "  GEOMIS ");
        push_bool(&mut l7, self.geo_mismatch);
        push_str(&mut l7, "  BUFDELTA ");
        push_i32(&mut l7, self.buf_delta);

        let mut l8 = string_from("SUBS ");
        push_nat(&mut l8, f.subs as u64);
        push_str(&mut l8, "  POPUPS ");
        push_nat(&mut l8, f.popups as u64);

        let mut l9 = string_from("ICON ");
        push_str(&mut l9, f.icon_label.as_str());
        push_str(&mut l9, "  [mgr ");
        push_str(&mut l9, if f.icon_mgr { "yes" } else { "NO" });
        push_str(&mut l9, " sizes ");
        push_list(&mut l9, &f.icon_sizes);
        push_str(&mut l9, "]");

        assert(l1@ == state_lines(*self, *f)[0]);
        assert(l2@ == state_lines(*self, *f)[1]);
        assert(l3@ == state_lines(*self, *f)[2]);
        assert(l4@ == state_lines(*self, *f)[3]);
        assert(l5@ == state_lines(*self, *f)[4]);
        assert(l6@ == state_lines(*self, *f)[5]);
        assert(l7@ == state_lines(*self, *f)[6]);
        assert(l8@ == state_lines(*self, *f)[7]);
        assert(l9@ == state_lines(*self, *f)[8]);
        let mut rest = vec![l1, l2, l3, l4, l5, l6, l7, l8, l9];
        assert(rest@.map_values(|l: String| l@) =~= state_lines(*self, *f));
        let v = if self.show_counter {
            let mut l0 = string_from("FRAME ");
            push_nat(&mut l0, self.commits as u64);
            push_str(&mut l0, "  COMMIT ");
            push_nat(&mut l0, self.commit_hz as u64);
            push_str(&mut l0, " Hz");
            let mut v = vec![l0];
            let ghost first = v@.map_values(|l: String| l@);
            let ghost tail = rest@.map_values(|l: String| l@);
            v.append(&mut rest);
            assert(v@.map_values(|l: String| l@) =~= first + tail);
            v
        } else {
            rest
        };
        assert(v@.map_values(|l: String| l@) =~= window_overlay_spec(*self, *f));
        v
    }
}

} // verus!
