//! Experimental GPU/dmabuf-bridge flags, given as an ordered list of strings. Each
//! recognized `gpu_*` string maps to one independent bit of [`GpuFlags`]; the flags
//! compose. Unrecognized strings are collected so that a caller can warn about them.

use vstd::prelude::*;

use crate::text::{chars_eq_str, chars_of, string_from, texts_of};

verus! {

/// The OR of every recognized `gpu_*` flag.
#[derive(Clone, Copy, Debug, PartialEq, Eq, Structural)]
pub struct GpuFlags {
    bits: u16,
}

/// Opt out of the default modifier negotiation.
pub const NO_NEGOTIATE_MODIFIERS: u16 = 0x1;
/// The `gpu_force_linear` bit.
pub const FORCE_LINEAR: u16 = 0x2;
/// The `gpu_force_tiled` bit.
pub const FORCE_TILED: u16 = 0x4;
/// The `gpu_negotiate_formats` bit.
pub const NEGOTIATE_FORMATS: u16 = 0x8;
/// The `gpu_allow_dcc` bit.
pub const ALLOW_DCC: u16 = 0x10;
/// The `gpu_force_multiplane` bit.
pub const FORCE_MULTIPLANE: u16 = 0x20;
/// The `gpu_probe_modifiers` bit.
pub const PROBE_MODIFIERS: u16 = 0x40;
/// Opt out of the default render-node pin.
pub const NO_PIN_WGPU_NODE: u16 = 0x80;

impl View for GpuFlags {
    type V = u16;

    /// The raw bits.
    closed spec fn view(&self) -> u16 {
        self.bits
    }
}

impl GpuFlags {
    /// No flags set.
    pub fn empty() -> (r: GpuFlags)
        ensures
            r@ == 0,
    {
        GpuFlags { bits: 0 }
    }

    /// The raw bits.
    pub fn bits(&self) -> (r: u16)
        ensures
            r == self@,
    {
        self.bits
    }

    /// Flags from raw bits, keeping every bit.
    pub fn from_bits_retain(bits: u16) -> (r: GpuFlags)
        ensures
            r@ == bits,
    {
        GpuFlags { bits }
    }

    /// Every flag of `other` is set here.
    pub fn contains(&self, other: GpuFlags) -> (r: bool)
        ensures
            r == (self@ & other@ == other@),
    {
        self.bits & other.bits == other.bits
    }
}

/// The bit a flag string names, if it names one.
pub open spec fn flag_bit(s: Seq<char>) -> Option<u16> {
    if s == "gpu_no_negotiate_modifiers"@ {
        Some(NO_NEGOTIATE_MODIFIERS)
    } else if s == "gpu_force_linear"@ {
        Some(FORCE_LINEAR)
    } else if s == "gpu_force_tiled"@ {
        Some(FORCE_TILED)
    } else if s == "gpu_negotiate_formats"@ {
        Some(NEGOTIATE_FORMATS)
    } else if s == "gpu_allow_dcc"@ {
        Some(ALLOW_DCC)
    } else if s == "gpu_force_multiplane"@ {
        Some(FORCE_MULTIPLANE)
    } else if s == "gpu_probe_modifiers"@ {
        Some(PROBE_MODIFIERS)
    } else if s == "gpu_no_pin_wgpu_node"@ {
        Some(NO_PIN_WGPU_NODE)
    } else {
        None
    }
}

/// The bit a flag string names, if it names one.
pub fn bit_for(flag: &str) -> (r: Option<GpuFlags>)
    ensures
        r matches Some(b) ==> flag_bit(flag@) == Some(b@),
        r is None ==> flag_bit(flag@) is None,
{
    let f = chars_of(flag);
    if chars_eq_str(&f, "gpu_no_negotiate_modifiers") {
        Some(GpuFlags { bits: NO_NEGOTIATE_MODIFIERS })
    } else if chars_eq_str(&f, "gpu_force_linear") {
        Some(GpuFlags { bits: FORCE_LINEAR })
    } else if chars_eq_str(&f, "gpu_force_tiled") {
        Some(GpuFlags { bits: FORCE_TILED })
    } else if chars_eq_str(&f, "gpu_negotiate_formats") {
        Some(GpuFlags { bits: NEGOTIATE_FORMATS })
    } else if chars_eq_str(&f, "gpu_allow_dcc") {
        Some(GpuFlags { bits: ALLOW_DCC })
    } else if chars_eq_str(&f, "gpu_force_multiplane") {
        Some(GpuFlags { bits: FORCE_MULTIPLANE })
    } else if chars_eq_str(&f, "gpu_probe_modifiers") {
        Some(GpuFlags { bits: PROBE_MODIFIERS })
    } else if chars_eq_str(&f, "gpu_no_pin_wgpu_node") {
        Some(GpuFlags { bits: NO_PIN_WGPU_NODE })
    } else {
        None
    }
}

/// The OR of the bits of every recognized string.
pub open spec fn known_or(raw: Seq<Seq<char>>) -> u16
    decreases raw.len(),
{
    if raw.len() == 0 {
        0
    } else {
        match flag_bit(raw.last()) {
            Some(b) => known_or(raw.drop_last()) | b,
            None => known_or(raw.drop_last()),
        }
    }
}

/// The aggregated bits: every recognized flag, and `allow_dcc` wherever
/// `force_multiplane` is set.
pub open spec fn aggregate_bits(raw: Seq<Seq<char>>) -> u16 {
    let u = known_or(raw);
    if u & FORCE_MULTIPLANE == FORCE_MULTIPLANE {
        u | ALLOW_DCC
    } else {
        u
    }
}

/// The unrecognized strings, in order.
pub open spec fn unknown_of(raw: Seq<Seq<char>>) -> Seq<Seq<char>> {
    raw.filter(|s: Seq<char>| flag_bit(s) is None)
}

/// The experiment set: its flags, the raw ordered list (for last-wins force resolution)
/// and the unrecognized strings.
pub struct Experimental {
    pub flags: GpuFlags,
    pub raw: Vec<String>,
    pub unknown: Vec<String>,
}

/// Folds the ordered raw list into the typed flags, collecting the unrecognized strings.
pub fn aggregate(raw: Vec<String>) -> (r: Experimental)
    ensures
        r.flags@ == aggregate_bits(texts_of(raw@)),
        r.raw == raw,
        texts_of(r.unknown@) == unknown_of(texts_of(raw@)),
{
    let mut bits: u16 = 0;
    let mut unknown: Vec<String> = Vec::new();
    let ghost all = texts_of(raw@);
    let mut i: usize = 0;
    while i < raw.len()
        invariant
            i <= raw.len(),
            all == texts_of(raw@),
            bits == known_or(all.take(i as int)),
            texts_of(unknown@) == unknown_of(all.take(i as int)),
        decreases raw.len() - i,
    {
        let ghost before = unknown@;
        proof {
            assert(all.take(i + 1).drop_last() =~= all.take(i as int));
            assert(all.take(i + 1).last() == raw@[i as int]@);
            assert(all.take(i + 1) =~= all.take(i as int).push(raw@[i as int]@));
            all.take(i as int).lemma_filter_push(raw@[i as int]@, |s: Seq<char>| flag_bit(s) is None);
        }
        match bit_for(raw[i].as_str()) {
            Some(b) => {
                bits = bits | b.bits();
            },
            None => {
                unknown.push(string_from(raw[i].as_str()));
                assert(texts_of(unknown@) =~= texts_of(before).push(raw@[i as int]@));
            },
        }
        i += 1;
    }
    assert(all.take(raw.len() as int) =~= all);
    if bits & FORCE_MULTIPLANE == FORCE_MULTIPLANE {
        bits = bits | ALLOW_DCC;
    }
    Experimental { flags: GpuFlags { bits }, raw, unknown }
}

/// The aggregated experimental flags.
pub fn get(e: &Experimental) -> (r: GpuFlags)
    ensures
        r == e.flags,
{
    e.flags
}

/// The raw ordered flag list, for last-wins `force_linear`/`force_tiled` resolution.
pub fn raw(e: &Experimental) -> (r: &[String])
    ensures
        r@ == e.raw@,
{
    e.raw.as_slice()
}

/// The unrecognized flag strings.
pub fn unknown(e: &Experimental) -> (r: &[String])
    ensures
        r@ == e.unknown@,
{
    e.unknown.as_slice()
}

/// An empty list gives no flags and no unrecognized strings.
pub proof fn lemma_aggregate_empty()
    ensures
        aggregate_bits(Seq::<Seq<char>>::empty()) == 0,
        unknown_of(Seq::<Seq<char>>::empty()) == Seq::<Seq<char>>::empty(),
{
    assert(0u16 & 0x20 == 0) by (bit_vector);
    assert(unknown_of(Seq::<Seq<char>>::empty()) =~= Seq::<Seq<char>>::empty());
}

/// `force_multiplane` never comes without `allow_dcc`.
pub proof fn lemma_multiplane_implies_dcc(raw: Seq<Seq<char>>)
    ensures
        aggregate_bits(raw) & FORCE_MULTIPLANE == FORCE_MULTIPLANE ==> aggregate_bits(raw)
            & ALLOW_DCC == ALLOW_DCC,
{
    let u = known_or(raw);
    assert((u | 0x10) & 0x10 == 0x10) by (bit_vector);
    assert(u & 0x20 != 0x20 ==> u & 0x20 != 0x20);
}

/// Each recognized string in the list sets its bit.
pub proof fn lemma_aggregate_has(raw: Seq<Seq<char>>, i: int)
    requires
        0 <= i < raw.len(),
        flag_bit(raw[i]) is Some,
    ensures
        aggregate_bits(raw) & flag_bit(raw[i]).unwrap() == flag_bit(raw[i]).unwrap(),
{
    let c = flag_bit(raw[i]).unwrap();
    let k = known_or(raw);
    lemma_known_has(raw, i);
    assert(k & c == c ==> (k | 0x10) & c == c) by (bit_vector);
}

/// Each recognized string in the list sets its bit in the plain OR.
proof fn lemma_known_has(raw: Seq<Seq<char>>, i: int)
    requires
        0 <= i < raw.len(),
        flag_bit(raw[i]) is Some,
    ensures
        known_or(raw) & flag_bit(raw[i]).unwrap() == flag_bit(raw[i]).unwrap(),
    decreases raw.len(),
{
    let c = flag_bit(raw[i]).unwrap();
    let u = known_or(raw.drop_last());
    if i == raw.len() - 1 {
        assert((u | c) & c == c) by (bit_vector);
    } else {
        lemma_known_has(raw.drop_last(), i);
        assert(raw.drop_last()[i] == raw[i]);
        if let Some(b) = flag_bit(raw.last()) {
            assert(u & c == c ==> (u | b) & c == c) by (bit_vector);
        }
    }
}

} // verus!
