//! Live user preferences: per-output mode and activity profiles, the cursor-teleport
//! layout, keyboard layout, input method, and the normalization applied on load.
//!
//! Floating-point preference values are held as their IEEE-754 bit patterns (`f64` as
//! `u64`, `f32` as `u32`); nothing here computes with them.

use vstd::prelude::*;

use crate::config::opt_view;
use crate::text::{chars_eq, chars_of, string_from};

verus! {

/// A per-output mode preference keyed by EDID identity. `Advertised` is the only variant
/// applied by default policy; the synthesis variants need the mode-synthesis enable.
#[derive(Clone, Debug)]
pub enum ModeRequest {
    /// Pick from the modes the monitor advertises.
    Advertised { width: u16, height: u16, refresh_mhz: u32 },
    /// Synthesize via CVT; `refresh_bits` is the `f64` refresh in Hz, as bits.
    Cvt { width: u16, height: u16, refresh_bits: u64 },
    /// A raw modeline.
    Modeline(String),
}

/// Per-monitor output preference. `identity = None` applies to any output.
#[derive(Clone, Debug)]
pub struct OutputProfile {
    /// EDID identity ("make model serial") this profile applies to.
    pub identity: Option<String>,
    pub mode: Option<ModeRequest>,
    /// Whether this monitor is driven; an inactive one keeps its profile and placement.
    pub active: bool,
}

impl Default for OutputProfile {
    /// Any output, no mode, active.
    fn default() -> (r: OutputProfile)
        ensures
            r.identity is None && r.mode is None && r.active,
    {
        OutputProfile { identity: None, mode: None, active: true }
    }
}

/// One placed monitor in the cursor-teleport layout; coordinates are abstract layout
/// units held as `f32` bits.
#[derive(Clone, Debug)]
pub struct LayoutPlacement {
    /// Stable per-placement id.
    pub id: u64,
    /// EDID identity of the monitor this zone represents.
    pub identity: String,
    pub x_bits: u32,
    pub y_bits: u32,
    pub w_bits: u32,
    pub h_bits: u32,
}

/// Fallback mode for monitors without a per-output mode; `refresh_mhz` in mHz.
#[derive(Clone, Copy, Debug, PartialEq, Eq, Structural)]
pub struct DefaultMode {
    pub width: u16,
    pub height: u16,
    pub refresh_mhz: u32,
}

/// Where the keyboard layout comes from.
#[derive(Clone, Copy, Debug, PartialEq, Eq, Structural)]
pub enum LayoutSource {
    /// Read layout/variant/options from the `XKB_DEFAULT_*` environment.
    Env,
    /// Use the explicit fields.
    Manual,
}

/// Keyboard layout (xkb) preference.
#[derive(Clone, Debug)]
pub struct KeyboardLayout {
    pub source: LayoutSource,
    /// Comma-separated xkb layout code(s), e.g. `"us,se"`.
    pub layout: String,
    /// Comma-separated xkb variant(s).
    pub variant: String,
    /// xkb options.
    pub options: String,
}

impl Default for KeyboardLayout {
    /// The environment's layout, with `us` kept for a switch to manual.
    fn default() -> (r: KeyboardLayout)
        ensures
            r.source == LayoutSource::Env,
            r.layout@ == "us"@,
            r.variant@ == Seq::<char>::empty(),
            r.options@ == Seq::<char>::empty(),
    {
        KeyboardLayout {
            source: LayoutSource::Env,
            layout: string_from("us"),
            variant: String::new(),
            options: String::new(),
        }
    }
}

/// The input-method program to launch; an empty `program` launches nothing.
#[derive(Clone, Debug)]
pub struct Ime {
    pub program: String,
    pub args: Vec<String>,
}

impl Default for Ime {
    /// Nothing to launch.
    fn default() -> (r: Ime)
        ensures
            r.program@ == Seq::<char>::empty(),
            r.args@.len() == 0,
    {
        Ime { program: String::new(), args: Vec::new() }
    }
}

/// The complete preferences document.
#[derive(Clone, Debug)]
pub struct Preference {
    /// Pointer speed multiplier, as `f64` bits.
    pub cursor_sensitivity_bits: u64,
    /// Natural (inverted) touchpad scrolling.
    pub input_natural_scroll: bool,
    /// Per-output profiles, priority-ordered: the first is the default output.
    pub outputs: Vec<OutputProfile>,
    /// Fallback mode for monitors without a per-output mode.
    pub outputs_default_mode: Option<DefaultMode>,
    /// The cursor-teleport layout.
    pub outputs_layout: Vec<LayoutPlacement>,
    /// Wrap the pointer around the layout's edges instead of clamping.
    pub teleport_cyclic: bool,
    /// The input method launched at startup.
    pub ime: Option<Ime>,
    pub keyboard: KeyboardLayout,
    /// Default background shader for new worlds.
    pub background_shader: Option<String>,
}

/// The bits of `1.0_f64`.
pub const ONE_F64_BITS: u64 = 0x3FF0_0000_0000_0000;

impl Default for Preference {
    /// Unscaled pointer, natural scrolling, no profiles or layout, no input method, the
    /// environment's keyboard layout.
    fn default() -> (r: Preference)
        ensures
            r.cursor_sensitivity_bits == ONE_F64_BITS,
            r.input_natural_scroll,
            r.outputs@.len() == 0,
            r.outputs_default_mode is None,
            r.outputs_layout@.len() == 0,
            !r.teleport_cyclic,
            r.ime is None,
            r.keyboard.source == LayoutSource::Env,
            r.keyboard.layout@ == "us"@,
            r.background_shader is None,
    {
        Preference {
            cursor_sensitivity_bits: ONE_F64_BITS,
            input_natural_scroll: true,
            outputs: Vec::new(),
            outputs_default_mode: None,
            outputs_layout: Vec::new(),
            teleport_cyclic: false,
            ime: None,
            keyboard: KeyboardLayout::default(),
            background_shader: None,
        }
    }
}

/// Lowest plausible default-mode refresh, in mHz.
pub const MIN_DEFAULT_REFRESH_MHZ: u32 = 20_000;

/// Sanitizes a freshly loaded document: a default-mode refresh below 20 Hz (someone
/// typed `60` meaning 60 Hz) becomes 30 Hz. Everything else is kept.
pub fn normalize(p: Preference) -> (r: Preference)
    ensures
        r.outputs_default_mode == match p.outputs_default_mode {
            Some(m) => Some(
                if m.refresh_mhz < MIN_DEFAULT_REFRESH_MHZ {
                    DefaultMode { refresh_mhz: 30_000, ..m }
                } else {
                    m
                },
            ),
            None => None,
        },
        r == (Preference { outputs_default_mode: r.outputs_default_mode, ..p }),
{
    let mut p = p;
    match p.outputs_default_mode {
        Some(m) => {
            if m.refresh_mhz < MIN_DEFAULT_REFRESH_MHZ {
                p.outputs_default_mode = Some(DefaultMode { refresh_mhz: 30_000, ..m });
            }
        },
        None => {},
    }
    p
}

/// The first profile whose identity is `key`.
pub open spec fn profile_index(v: Seq<OutputProfile>, key: Seq<char>) -> Option<int>
    decreases v.len(),
{
    if v.len() == 0 {
        None
    } else {
        match profile_index(v.drop_last(), key) {
            Some(i) => Some(i),
            None => if opt_view(v.last().identity) == Some(key) {
                Some(v.len() - 1)
            } else {
                None
            },
        }
    }
}

/// Whether the monitor `key` is driven: its first profile's flag, active when none.
pub open spec fn active_of(v: Seq<OutputProfile>, key: Seq<char>) -> bool {
    match profile_index(v, key) {
        Some(i) => v[i].active,
        None => true,
    }
}

/// The mode of the monitor `key`'s first profile.
pub open spec fn mode_of(v: Seq<OutputProfile>, key: Seq<char>) -> Option<ModeRequest> {
    match profile_index(v, key) {
        Some(i) => v[i].mode,
        None => None,
    }
}

proof fn lemma_profile_index(v: Seq<OutputProfile>, key: Seq<char>)
    ensures
        profile_index(v, key) matches Some(i) ==> 0 <= i < v.len() && opt_view(v[i].identity)
            == Some(key) && forall|k: int| 0 <= k < i ==> opt_view(#[trigger] v[k].identity) != Some(
            key,
        ),
        profile_index(v, key) is None ==> forall|k: int|
            0 <= k < v.len() ==> opt_view(#[trigger] v[k].identity) != Some(key),
    decreases v.len(),
{
    if v.len() > 0 {
        lemma_profile_index(v.drop_last(), key);
        assert forall|k: int| 0 <= k < v.len() - 1 implies v.drop_last()[k] == v[k] by {}
    }
}

/// Any sequence whose first match for `key` is at `i` has `profile_index` `i`.
proof fn lemma_profile_index_is(v: Seq<OutputProfile>, key: Seq<char>, i: int)
    requires
        0 <= i < v.len(),
        opt_view(v[i].identity) == Some(key),
        forall|k: int| 0 <= k < i ==> opt_view(#[trigger] v[k].identity) != Some(key),
    ensures
        profile_index(v, key) == Some(i),
    decreases v.len(),
{
    if i < v.len() - 1 {
        lemma_profile_index_is(v.drop_last(), key, i);
    } else {
        lemma_profile_index_none(v.drop_last(), key);
    }
}

/// A sequence without a match for `key` has no `profile_index`.
proof fn lemma_profile_index_none(v: Seq<OutputProfile>, key: Seq<char>)
    requires
        forall|k: int| 0 <= k < v.len() ==> opt_view(#[trigger] v[k].identity) != Some(key),
    ensures
        profile_index(v, key) is None,
    decreases v.len(),
{
    if v.len() > 0 {
        lemma_profile_index_none(v.drop_last(), key);
    }
}

/// Whether an optional identity is `key`.
fn identity_is(identity: &Option<String>, key: &Vec<char>) -> (r: bool)
    ensures
        r == (opt_view(*identity) == Some(key@)),
{
    match identity {
        Some(s) => chars_eq(&chars_of(s.as_str()), key),
        None => false,
    }
}

/// Where the first profile for `key` is.
fn find_profile(outputs: &Vec<OutputProfile>, key: &str) -> (r: Option<usize>)
    ensures
        r matches Some(i) ==> profile_index(outputs@, key@) == Some(i as int) && i
            < outputs@.len(),
        r is None ==> profile_index(outputs@, key@) is None,
{
    let k = chars_of(key);
    let mut i: usize = 0;
    while i < outputs.len()
        invariant
            i <= outputs.len(),
            k@ == key@,
            forall|j: int| 0 <= j < i ==> opt_view(#[trigger] outputs@[j].identity) != Some(key@),
        decreases outputs.len() - i,
    {
        if identity_is(&outputs[i].identity, &k) {
            proof {
                lemma_profile_index_is(outputs@, key@, i as int);
            }
            return Some(i);
        }
        i += 1;
    }
    proof {
        lemma_profile_index_none(outputs@, key@);
    }
    None
}

/// `new` is `old` with the first profile for `key` changed by `f`, or, when there is
/// none, with `made` appended: a fresh profile for `key`.
pub open spec fn changed_or_added(
    old: Seq<OutputProfile>,
    new: Seq<OutputProfile>,
    key: Seq<char>,
    f: spec_fn(OutputProfile) -> OutputProfile,
    made: spec_fn(OutputProfile) -> bool,
) -> bool {
    match profile_index(old, key) {
        Some(i) => new == old.update(i, f(old[i])),
        None => {
            &&& new.len() == old.len() + 1
            &&& new.drop_last() == old
            &&& opt_view(new.last().identity) == Some(key)
            &&& made(new.last())
        },
    }
}

/// Sets the mode of the profile for `edid_key`, adding a profile (active, with that
/// mode) when there is none. The other fields of an existing profile are kept.
pub fn upsert_output(outputs: &mut Vec<OutputProfile>, edid_key: &str, mode: ModeRequest)
    ensures
        changed_or_added(
            old(outputs)@,
            final(outputs)@,
            edid_key@,
            |p: OutputProfile| OutputProfile { mode: Some(mode), ..p },
            |p: OutputProfile| p.mode == Some(mode) && p.active,
        ),
{
    match find_profile(outputs, edid_key) {
        Some(i) => {
            let ghost before = outputs@;
            let mut p = outputs.remove(i);
            p.mode = Some(mode);
            outputs.insert(i, p);
            assert(outputs@ =~= before.update(i as int, OutputProfile { mode: Some(mode), ..before[i as int] }));
        },
        None => {
            let ghost before = outputs@;
            outputs.push(
                OutputProfile { identity: Some(string_from(edid_key)), mode: Some(mode), active: true },
            );
            assert(outputs@.drop_last() =~= before);
        },
    }
}

/// Whether the monitor keyed by `edid_key` is driven; unknown monitors are.
pub fn output_active(outputs: &[OutputProfile], edid_key: &str) -> (r: bool)
    ensures
        r == active_of(outputs@, edid_key@),
{
    let k = chars_of(edid_key);
    let mut i: usize = 0;
    while i < outputs.len()
        invariant
            i <= outputs.len(),
            k@ == edid_key@,
            forall|j: int| 0 <= j < i ==> opt_view(#[trigger] outputs@[j].identity) != Some(
                edid_key@,
            ),
        decreases outputs.len() - i,
    {
        if identity_is(&outputs[i].identity, &k) {
            proof {
                lemma_profile_index_is(outputs@, edid_key@, i as int);
            }
            return outputs[i].active;
        }
        i += 1;
    }
    proof {
        lemma_profile_index_none(outputs@, edid_key@);
    }
    true
}

/// Sets the driven flag for `edid_key`, adding an identity-only profile when there is
/// none. The profile's mode is kept.
pub fn set_active(outputs: &mut Vec<OutputProfile>, edid_key: &str, active: bool)
    ensures
        changed_or_added(
            old(outputs)@,
            final(outputs)@,
            edid_key@,
            |p: OutputProfile| OutputProfile { active: active, ..p },
            |p: OutputProfile| p.mode is None && p.active == active,
        ),
{
    match find_profile(outputs, edid_key) {
        Some(i) => {
            let ghost before = outputs@;
            let mut p = outputs.remove(i);
            p.active = active;
            outputs.insert(i, p);
            assert(outputs@ =~= before.update(i as int, OutputProfile { active: active, ..before[i as int] }));
        },
        None => {
            let ghost before = outputs@;
            outputs.push(OutputProfile { identity: Some(string_from(edid_key)), mode: None, active });
            assert(outputs@.drop_last() =~= before);
        },
    }
}

/// Replaces the whole cursor-teleport layout.
pub fn set_layout(prefs: &mut Preference, placements: Vec<LayoutPlacement>)
    ensures
        *final(prefs) == (Preference { outputs_layout: placements, ..*old(prefs) }),
{
    prefs.outputs_layout = placements;
}

/// Makes the profile for `edid_key` the first entry (the default output): an existing
/// profile moves to the front with its mode kept; otherwise an identity-only active
/// profile is put there.
pub fn set_default(outputs: &mut Vec<OutputProfile>, edid_key: &str)
    ensures
        match profile_index(old(outputs)@, edid_key@) {
            Some(i) => final(outputs)@ == seq![old(outputs)@[i]] + old(outputs)@.remove(i),
            None => {
                &&& final(outputs)@.len() == old(outputs)@.len() + 1
                &&& final(outputs)@.drop_first() == old(outputs)@
                &&& opt_view(final(outputs)@[0].identity) == Some(edid_key@)
                &&& final(outputs)@[0].mode is None
                &&& final(outputs)@[0].active
            },
        },
{
    let profile = match find_profile(outputs, edid_key) {
        Some(i) => outputs.remove(i),
        None => OutputProfile { identity: Some(string_from(edid_key)), mode: None, active: true },
    };
    let ghost before = outputs@;
    outputs.insert(0, profile);
    assert(outputs@ =~= seq![profile] + before);
}

/// After `set_active`, the monitor reads back as set, and every other monitor reads as
/// before.
pub proof fn lemma_set_active_reads_back(
    old: Seq<OutputProfile>,
    new: Seq<OutputProfile>,
    key: Seq<char>,
    active: bool,
    other: Seq<char>,
)
    requires
        changed_or_added(
            old,
            new,
            key,
            |p: OutputProfile| OutputProfile { active: active, ..p },
            |p: OutputProfile| p.mode is None && p.active == active,
        ),
    ensures
        active_of(new, key) == active,
        other != key ==> active_of(new, other) == active_of(old, other),
{
    lemma_profile_index(old, key);
    lemma_profile_index(old, other);
    lemma_changed_index(old, new, key, other, |p: OutputProfile| OutputProfile { active: active, ..p });
}

/// After `upsert_output`, the monitor's mode reads back as set, and every other
/// monitor's mode and flag are as before.
pub proof fn lemma_upsert_reads_back(
    old: Seq<OutputProfile>,
    new: Seq<OutputProfile>,
    key: Seq<char>,
    mode: ModeRequest,
    other: Seq<char>,
)
    requires
        changed_or_added(
            old,
            new,
            key,
            |p: OutputProfile| OutputProfile { mode: Some(mode), ..p },
            |p: OutputProfile| p.mode == Some(mode) && p.active,
        ),
    ensures
        mode_of(new, key) == Some(mode),
        other != key ==> mode_of(new, other) == mode_of(old, other) && active_of(new, other)
            == active_of(old, other),
{
    lemma_profile_index(old, key);
    lemma_profile_index(old, other);
    lemma_changed_index(old, new, key, other, |p: OutputProfile| OutputProfile { mode: Some(mode), ..p });
}

/// A change that keeps identities moves no monitor's first profile.
proof fn lemma_changed_index(
    old: Seq<OutputProfile>,
    new: Seq<OutputProfile>,
    key: Seq<char>,
    other: Seq<char>,
    f: spec_fn(OutputProfile) -> OutputProfile,
)
    requires
        forall|p: OutputProfile| #[trigger] f(p).identity == p.identity,
        match profile_index(old, key) {
            Some(i) => new == old.update(i, f(old[i])),
            None => new.len() == old.len() + 1 && new.drop_last() == old && opt_view(
                new.last().identity,
            ) == Some(key),
        },
    ensures
        profile_index(new, key) == match profile_index(old, key) {
            Some(i) => Some(i),
            None => Some(old.len() as int),
        },
        other != key ==> profile_index(new, other) == profile_index(old, other),
{
    lemma_profile_index(old, key);
    lemma_profile_index(old, other);
    match profile_index(old, key) {
        Some(i) => {
            assert(f(old[i]).identity == old[i].identity);
            assert forall|k: int| 0 <= k < new.len() implies #[trigger] new[k].identity
                == old[k].identity by {
                if k == i {
                    assert(f(old[i]).identity == old[i].identity);
                }
            }
            lemma_profile_index_is(new, key, i);
            match profile_index(old, other) {
                Some(j) => lemma_profile_index_is(new, other, j),
                None => lemma_profile_index_none(new, other),
            }
        },
        None => {
            assert forall|k: int| 0 <= k < old.len() implies #[trigger] new[k] == old[k] by {
                assert(new.drop_last()[k] == new[k]);
            }
            lemma_profile_index_is(new, key, old.len() as int);
            if other != key {
                match profile_index(old, other) {
                    Some(j) => lemma_profile_index_is(new, other, j),
                    None => lemma_profile_index_none(new, other),
                }
            }
        },
    }
}

} // verus!
