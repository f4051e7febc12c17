//! The per-render-node `mode` token set and its folded [`ModeFlags`].
//!
//! Tokens mirror the `gpu_*` experimental flags: same names, same polarity (the opt-out
//! flags stay opt-out), plus topology/routing/performance tokens. An empty token list
//! folds to `ModeFlags::empty()`.

use vstd::prelude::*;

verus! {

/// One `mode` token (authored as a snake_case JSON string). The list composes.
#[derive(Clone, Copy, Debug, PartialEq, Eq, Structural)]
pub enum ModeToken {
    /// Session anchor for singular roles. Implicit for a single-entry map.
    SessionPrimary,
    /// A secondary render/offload node.
    Render,
    /// Opt out of modifier negotiation.
    NoNegotiateModifiers,
    ForceLinear,
    ForceTiled,
    AllowDcc,
    /// Retain only DCC modifiers; implies `AllowDcc`.
    ForceMultiplane,
    ProbeModifiers,
    /// Opt out of pinning wgpu to this node.
    NoPinWgpu,
    /// Opt out of overlay/cursor direct scanout.
    NoDirectScanout,
    ScanoutBridge,
    UntileBlit,
    DmabufMainDevice,
    ZeroCopy,
    LocalRender,
    RenderDiscovery,
    ScanoutDiscovery,
    BlitFallback,
}

/// Folded `mode` bits. `NO_*` bits mean "opt out", so an empty set is the default
/// behaviour.
#[derive(Clone, Copy, Debug, PartialEq, Eq, Structural)]
pub struct ModeFlags {
    bits: u32,
}

/// The bit a token sets: one distinct bit per token, in declaration order.
pub open spec fn token_bit(t: ModeToken) -> u32 {
    match t {
        ModeToken::SessionPrimary => 1,
        ModeToken::Render => 2,
        ModeToken::NoNegotiateModifiers => 4,
        ModeToken::ForceLinear => 8,
        ModeToken::ForceTiled => 16,
        ModeToken::AllowDcc => 32,
        ModeToken::ForceMultiplane => 64,
        ModeToken::ProbeModifiers => 128,
        ModeToken::NoPinWgpu => 256,
        ModeToken::NoDirectScanout => 512,
        ModeToken::ScanoutBridge => 1024,
        ModeToken::UntileBlit => 2048,
        ModeToken::DmabufMainDevice => 4096,
        ModeToken::ZeroCopy => 8192,
        ModeToken::LocalRender => 16384,
        ModeToken::RenderDiscovery => 32768,
        ModeToken::ScanoutDiscovery => 65536,
        ModeToken::BlitFallback => 131072,
    }
}

/// The `session_primary` bit.
pub const SESSION_PRIMARY: u32 = 0x1;
/// The `render` bit.
pub const RENDER: u32 = 0x2;
/// The `no_negotiate_modifiers` bit.
pub const NO_NEGOTIATE_MODIFIERS: u32 = 0x4;
/// The `force_linear` bit.
pub const FORCE_LINEAR: u32 = 0x8;
/// The `force_tiled` bit.
pub const FORCE_TILED: u32 = 0x10;
/// The `allow_dcc` bit.
pub const ALLOW_DCC: u32 = 0x20;
/// The `force_multiplane` bit.
pub const FORCE_MULTIPLANE: u32 = 0x40;
/// The `probe_modifiers` bit.
pub const PROBE_MODIFIERS: u32 = 0x80;
/// The `no_pin_wgpu` bit.
pub const NO_PIN_WGPU: u32 = 0x100;
/// The `no_direct_scanout` bit.
pub const NO_DIRECT_SCANOUT: u32 = 0x200;
/// The `scanout_bridge` bit.
pub const SCANOUT_BRIDGE: u32 = 0x400;
/// The `untile_blit` bit.
pub const UNTILE_BLIT: u32 = 0x800;
/// The `dmabuf_main_device` bit.
pub const DMABUF_MAIN_DEVICE: u32 = 0x1000;
/// The `zero_copy` bit.
pub const ZERO_COPY: u32 = 0x2000;
/// The `local_render` bit.
pub const LOCAL_RENDER: u32 = 0x4000;
/// The `render_discovery` bit.
pub const RENDER_DISCOVERY: u32 = 0x8000;
/// The `scanout_discovery` bit.
pub const SCANOUT_DISCOVERY: u32 = 0x10000;
/// The `blit_fallback` bit.
pub const BLIT_FALLBACK: u32 = 0x20000;

impl View for ModeFlags {
    type V = u32;

    /// The raw bits.
    closed spec fn view(&self) -> u32 {
        self.bits
    }
}

impl ModeFlags {
    /// No flags set.
    pub fn empty() -> (r: ModeFlags)
        ensures
            r@ == 0,
    {
        ModeFlags { bits: 0 }
    }

    /// The raw bits.
    pub fn bits(&self) -> (r: u32)
        ensures
            r == self@,
    {
        self.bits
    }

    /// Flags from raw bits, keeping every bit.
    pub fn from_bits_retain(bits: u32) -> (r: ModeFlags)
        ensures
            r@ == bits,
    {
        ModeFlags { bits }
    }

    /// Every flag of `other` is set here.
    pub fn contains(&self, other: ModeFlags) -> (r: bool)
        ensures
            r == (self@ & other@ == other@),
    {
        self.bits & other.bits == other.bits
    }

    /// The flags set in either.
    pub fn union(self, other: ModeFlags) -> (r: ModeFlags)
        ensures
            r@ == self@ | other@,
    {
        ModeFlags { bits: self.bits | other.bits }
    }

    /// Sets the flags of `other`.
    pub fn insert(&mut self, other: ModeFlags)
        ensures
            final(self)@ == old(self)@ | other@,
    {
        self.bits = self.bits | other.bits;
    }

    /// Clears the flags of `other`.
    pub fn remove(&mut self, other: ModeFlags)
        ensures
            final(self)@ == old(self)@ & !other@,
    {
        self.bits = self.bits & !other.bits;
    }

    /// Whether no flag is set.
    pub fn is_empty(&self) -> (r: bool)
        ensures
            r == (self@ == 0),
    {
        self.bits == 0
    }
}

impl Default for ModeFlags {
    /// No flags set.
    fn default() -> (r: ModeFlags)
        ensures
            r@ == 0,
    {
        ModeFlags { bits: 0 }
    }
}

impl ModeToken {
    /// The single bit this token sets.
    pub fn flag(self) -> (r: ModeFlags)
        ensures
            r@ == token_bit(self),
    {
        match self {
            ModeToken::SessionPrimary => ModeFlags { bits: SESSION_PRIMARY },
            ModeToken::Render => ModeFlags { bits: RENDER },
            ModeToken::NoNegotiateModifiers => ModeFlags { bits: NO_NEGOTIATE_MODIFIERS },
            ModeToken::ForceLinear => ModeFlags { bits: FORCE_LINEAR },
            ModeToken::ForceTiled => ModeFlags { bits: FORCE_TILED },
            ModeToken::AllowDcc => ModeFlags { bits: ALLOW_DCC },
            ModeToken::ForceMultiplane => ModeFlags { bits: FORCE_MULTIPLANE },
            ModeToken::ProbeModifiers => ModeFlags { bits: PROBE_MODIFIERS },
            ModeToken::NoPinWgpu => ModeFlags { bits: NO_PIN_WGPU },
            ModeToken::NoDirectScanout => ModeFlags { bits: NO_DIRECT_SCANOUT },
            ModeToken::ScanoutBridge => ModeFlags { bits: SCANOUT_BRIDGE },
            ModeToken::UntileBlit => ModeFlags { bits: UNTILE_BLIT },
            ModeToken::DmabufMainDevice => ModeFlags { bits: DMABUF_MAIN_DEVICE },
            ModeToken::ZeroCopy => ModeFlags { bits: ZERO_COPY },
            ModeToken::LocalRender => ModeFlags { bits: LOCAL_RENDER },
            ModeToken::RenderDiscovery => ModeFlags { bits: RENDER_DISCOVERY },
            ModeToken::ScanoutDiscovery => ModeFlags { bits: SCANOUT_DISCOVERY },
            ModeToken::BlitFallback => ModeFlags { bits: BLIT_FALLBACK },
        }
    }
}

/// The OR of the bits of every token.
pub open spec fn or_all(ts: Seq<ModeToken>) -> u32
    decreases ts.len(),
{
    if ts.len() == 0 {
        0
    } else {
        or_all(ts.drop_last()) | token_bit(ts.last())
    }
}

/// A `force_linear` or `force_tiled` token.
pub open spec fn is_force(t: ModeToken) -> bool {
    t == ModeToken::ForceLinear || t == ModeToken::ForceTiled
}

/// The last `force_linear`/`force_tiled` token in order, if any.
pub open spec fn last_force(ts: Seq<ModeToken>) -> Option<ModeToken>
    decreases ts.len(),
{
    if ts.len() == 0 {
        None
    } else if is_force(ts.last()) {
        Some(ts.last())
    } else {
        last_force(ts.drop_last())
    }
}

/// The folded bits of a token list: the OR of all tokens, where both force bits are set
/// only the one of the last force token stays, and `force_multiplane` adds `allow_dcc`.
pub open spec fn fold_spec(ts: Seq<ModeToken>) -> u32 {
    let u = or_all(ts);
    let both = FORCE_LINEAR | FORCE_TILED;
    let v = if u & FORCE_LINEAR == FORCE_LINEAR && u & FORCE_TILED == FORCE_TILED {
        (u & !both) | token_bit(last_force(ts).unwrap())
    } else {
        u
    };
    if v & FORCE_MULTIPLANE == FORCE_MULTIPLANE {
        v | ALLOW_DCC
    } else {
        v
    }
}

proof fn lemma_bits_of_force(u: u32, b: u32)
    requires
        b == 8 || b == 16 || b == 1 || b == 2 || b == 4 || b == 32 || b == 64 || b == 128
            || b == 256 || b == 512 || b == 1024 || b == 2048 || b == 4096 || b == 8192 || b
            == 16384 || b == 32768 || b == 65536 || b == 131072,
    ensures
        b != 8 && (u | b) & 8 == 8 ==> u & 8 == 8,
        b != 16 && (u | b) & 16 == 16 ==> u & 16 == 16,
{
    assert(b != 8 && (u | b) & 8 == 8 && (b == 16 || b == 1 || b == 2 || b == 4 || b == 32 || b
        == 64 || b == 128 || b == 256 || b == 512 || b == 1024 || b == 2048 || b == 4096 || b
        == 8192 || b == 16384 || b == 32768 || b == 65536 || b == 131072) ==> u & 8 == 8)
        by (bit_vector);
    assert(b != 16 && (u | b) & 16 == 16 && (b == 8 || b == 1 || b == 2 || b == 4 || b == 32 || b
        == 64 || b == 128 || b == 256 || b == 512 || b == 1024 || b == 2048 || b == 4096 || b
        == 8192 || b == 16384 || b == 32768 || b == 65536 || b == 131072) ==> u & 16 == 16)
        by (bit_vector);
}

/// A force bit in the OR means a force token was seen.
proof fn lemma_force_seen(ts: Seq<ModeToken>)
    ensures
        or_all(ts) & FORCE_LINEAR == FORCE_LINEAR ==> last_force(ts) is Some,
        or_all(ts) & FORCE_TILED == FORCE_TILED ==> last_force(ts) is Some,
    decreases ts.len(),
{
    if ts.len() == 0 {
        assert(0u32 & 8 == 0) by (bit_vector);
        assert(0u32 & 16 == 0) by (bit_vector);
    } else {
        lemma_force_seen(ts.drop_last());
        lemma_bits_of_force(or_all(ts.drop_last()), token_bit(ts.last()));
    }
}

/// Fold an ordered token list into [`ModeFlags`]: the `force_linear`/`force_tiled`
/// conflict is resolved last-wins by order, and `force_multiplane` implies `allow_dcc`.
pub fn fold(tokens: &[ModeToken]) -> (r: ModeFlags)
    ensures
        r@ == fold_spec(tokens@),
{
    let mut flags = ModeFlags::empty();
    let mut last_force_bit: Option<ModeFlags> = None;
    let mut i: usize = 0;
    while i < tokens.len()
        invariant
            i <= tokens.len(),
            flags@ == or_all(tokens@.take(i as int)),
            match last_force_bit {
                Some(b) => last_force(tokens@.take(i as int)) matches Some(t) && b@
                    == token_bit(t),
                None => last_force(tokens@.take(i as int)) is None,
            },
        decreases tokens.len() - i,
    {
        let t = tokens[i];
        let bit = t.flag();
        proof {
            assert(tokens@.take(i + 1).drop_last() =~= tokens@.take(i as int));
            assert(tokens@.take(i + 1).last() == t);
        }
        if bit.bits() == FORCE_LINEAR || bit.bits() == FORCE_TILED {
            last_force_bit = Some(bit);
        }
        flags.insert(bit);
        i += 1;
    }
    assert(tokens@.take(tokens.len() as int) =~= tokens@);
    let linear = ModeFlags::from_bits_retain(FORCE_LINEAR);
    let tiled = ModeFlags::from_bits_retain(FORCE_TILED);
    if flags.contains(linear) && flags.contains(tiled) {
        proof {
            lemma_force_seen(tokens@);
        }
        flags.remove(linear.union(tiled));
        match last_force_bit {
            Some(b) => flags.insert(b),
            None => {},
        }
    }
    if flags.contains(ModeFlags::from_bits_retain(FORCE_MULTIPLANE)) {
        flags.insert(ModeFlags::from_bits_retain(ALLOW_DCC));
    }
    flags
}

/// Each token's bit is in the OR of a list that holds it.
proof fn lemma_or_all_has(ts: Seq<ModeToken>, i: int)
    requires
        0 <= i < ts.len(),
    ensures
        or_all(ts) & token_bit(ts[i]) == token_bit(ts[i]),
    decreases ts.len(),
{
    let u = or_all(ts.drop_last());
    let b = token_bit(ts.last());
    let c = token_bit(ts[i]);
    if i == ts.len() - 1 {
        assert((u | b) & b == b) by (bit_vector);
    } else {
        lemma_or_all_has(ts.drop_last(), i);
        assert(ts.drop_last()[i] == ts[i]);
        assert(u & c == c ==> (u | b) & c == c) by (bit_vector);
    }
}

/// The last force token's bit is in the OR.
proof fn lemma_last_force_in(ts: Seq<ModeToken>)
    ensures
        last_force(ts) matches Some(t) ==> is_force(t) && or_all(ts) & token_bit(t)
            == token_bit(t),
    decreases ts.len(),
{
    if ts.len() > 0 {
        if is_force(ts.last()) {
            lemma_or_all_has(ts, ts.len() - 1);
        } else {
            lemma_last_force_in(ts.drop_last());
            if let Some(t) = last_force(ts.drop_last()) {
                let u = or_all(ts.drop_last());
                let b = token_bit(ts.last());
                let c = token_bit(t);
                assert(u & c == c ==> (u | b) & c == c) by (bit_vector);
            }
        }
    }
}

/// An empty token list folds to no flags.
pub proof fn lemma_fold_empty()
    ensures
        fold_spec(Seq::<ModeToken>::empty()) == 0,
{
    assert(0u32 & 8 == 0 && 0u32 & 0x40 == 0) by (bit_vector);
}

/// Every token other than `force_linear`/`force_tiled` sets its bit in the fold, and
/// `force_multiplane` brings `allow_dcc` with it.
pub proof fn lemma_fold_keeps_tokens(ts: Seq<ModeToken>, i: int)
    requires
        0 <= i < ts.len(),
    ensures
        !is_force(ts[i]) ==> fold_spec(ts) & token_bit(ts[i]) == token_bit(ts[i]),
        ts[i] == ModeToken::ForceMultiplane ==> fold_spec(ts) & ALLOW_DCC == ALLOW_DCC,
{
    lemma_or_all_has(ts, i);
    lemma_force_seen(ts);
    assert(8u32 | 16u32 == 24u32) by (bit_vector);
    let u = or_all(ts);
    let c = token_bit(ts[i]);
    let x: u32 = if last_force(ts) is Some {
        token_bit(last_force(ts).unwrap())
    } else {
        token_bit(ModeToken::ForceLinear)
    };
    assert((c == 1 || c == 2 || c == 4 || c == 32 || c == 64 || c == 128 || c == 256 || c == 512
        || c == 1024 || c == 2048 || c == 4096 || c == 8192 || c == 16384 || c == 32768 || c
        == 65536 || c == 131072) ==> c & 24 == 0) by (bit_vector);
    assert(c & 24 == 0 && u & c == c ==> ((u & !24u32) | x) & c == c) by (bit_vector);
    assert(forall|v: u32| #![auto] v & c == c ==> (v | 32) & c == c) by (bit_vector);
    assert(forall|v: u32| #![auto] (v | 32) & 32 == 32) by (bit_vector);
    assert(forall|v: u32| #![auto] v & 0x40 == 0x40 ==> (v | 32) & 32 == 32 && (v | 32) & 0x40
        == 0x40) by (bit_vector);
    assert(((u & !24u32) | x) & 0x40 == 0x40 <== u & 0x40 == 0x40) by (bit_vector);
}

/// The `force_linear`/`force_tiled` conflict is resolved last-wins by order: of the two
/// force bits the fold holds exactly that of the last force token, and neither when
/// no force token was given.
pub proof fn lemma_fold_last_force_wins(ts: Seq<ModeToken>)
    ensures
        last_force(ts) matches Some(t) ==> fold_spec(ts) & (FORCE_LINEAR | FORCE_TILED)
            == token_bit(t),
        last_force(ts) is None ==> fold_spec(ts) & (FORCE_LINEAR | FORCE_TILED) == 0,
{
    lemma_force_seen(ts);
    lemma_last_force_in(ts);
    assert(8u32 | 16u32 == 24u32) by (bit_vector);
    let u = or_all(ts);
    assert(forall|v: u32| #![auto] (v | 32) & 24 == v & 24) by (bit_vector);
    if let Some(t) = last_force(ts) {
        let c = token_bit(t);
        assert((c == 8 || c == 16) && u & c == c && !(u & 8 == 8 && u & 16 == 16) ==> u & 24
            == c) by (bit_vector);
        assert((c == 8 || c == 16) ==> ((u & !24u32) | c) & 24 == c) by (bit_vector);
    } else {
        assert(!(u & 8 == 8) && !(u & 16 == 16) ==> u & 24 == 0) by (bit_vector);
    }
}

/// Each token's bit is a single bit of its own.
proof fn lemma_token_bit_single(t: ModeToken)
    ensures
        token_bit(t) != 0,
        token_bit(t) & ((token_bit(t) - 1) as u32) == 0,
{
    let c = token_bit(t);
    assert((c == 1 || c == 2 || c == 4 || c == 8 || c == 16 || c == 32 || c == 64 || c == 128
        || c == 256 || c == 512 || c == 1024 || c == 2048 || c == 4096 || c == 8192 || c == 16384
        || c == 32768 || c == 65536 || c == 131072) ==> c & ((c - 1) as u32) == 0) by (bit_vector);
}

/// A bit of the OR comes from a token that sets it.
proof fn lemma_or_all_from(ts: Seq<ModeToken>, t: ModeToken)
    ensures
        or_all(ts) & token_bit(t) == token_bit(t) ==> ts.contains(t),
    decreases ts.len(),
{
    let c = token_bit(t);
    if ts.len() == 0 {
        assert(c != 0 ==> 0u32 & c != c) by (bit_vector);
        lemma_token_bit_single(t);
    } else {
        lemma_or_all_from(ts.drop_last(), t);
        let u = or_all(ts.drop_last());
        let b = token_bit(ts.last());
        lemma_token_bit_single(t);
        lemma_token_bit_single(ts.last());
        if ts.last() != t {
            assert(b != c);
            assert(b != 0 && c != 0 && b & ((b - 1) as u32) == 0 && c & ((c - 1) as u32) == 0 && b != c && (u
                | b) & c == c ==> u & c == c) by (bit_vector);
            if or_all(ts) & c == c {
                let k = ts.drop_last().index_of(t);
                assert(ts[k] == t);
            }
        } else {
            assert(ts[ts.len() - 1] == t);
        }
    }
}

/// For every token other than `force_linear`, `force_tiled` and `allow_dcc`, the fold
/// holds its bit exactly when the list holds the token.
pub proof fn lemma_fold_bit_iff_token(ts: Seq<ModeToken>, t: ModeToken)
    requires
        !is_force(t),
        t != ModeToken::AllowDcc,
    ensures
        fold_spec(ts) & token_bit(t) == token_bit(t) <==> ts.contains(t),
{
    lemma_or_all_from(ts, t);
    lemma_force_seen(ts);
    lemma_last_force_in(ts);
    assert(8u32 | 16u32 == 24u32) by (bit_vector);
    if ts.contains(t) {
        lemma_fold_keeps_tokens(ts, ts.index_of(t));
    }
    let u = or_all(ts);
    let c = token_bit(t);
    let x: u32 = if last_force(ts) is Some {
        token_bit(last_force(ts).unwrap())
    } else {
        8
    };
    assert((x == 8 || x == 16) && c & 56 == 0 ==> ((u & !24u32) | x) & c == u & c && (((u
        & !24u32) | x) | 32) & c == u & c && (u | 32) & c == u & c) by (bit_vector);
    assert((c == 1 || c == 2 || c == 4 || c == 64 || c == 128 || c == 256 || c == 512 || c
        == 1024 || c == 2048 || c == 4096 || c == 8192 || c == 16384 || c == 32768 || c == 65536
        || c == 131072) ==> c & 56 == 0) by (bit_vector);
}

proof fn lemma_or_all_concat(a: Seq<ModeToken>, b: Seq<ModeToken>)
    ensures
        or_all(a + b) == or_all(a) | or_all(b),
    decreases b.len(),
{
    if b.len() == 0 {
        assert(a + b =~= a);
        let x = or_all(a);
        assert(x | 0 == x) by (bit_vector);
    } else {
        let b1 = b.drop_last();
        assert((a + b).drop_last() =~= a + b1);
        assert((a + b).last() == b.last());
        lemma_or_all_concat(a, b1);
        let (x, y, t) = (or_all(a), or_all(b1), token_bit(b.last()));
        assert((x | y) | t == x | (y | t)) by (bit_vector);
    }
}

proof fn lemma_last_force_concat(a: Seq<ModeToken>, b: Seq<ModeToken>)
    ensures
        last_force(a + b) == if last_force(b) is Some {
            last_force(b)
        } else {
            last_force(a)
        },
    decreases b.len(),
{
    if b.len() == 0 {
        assert(a + b =~= a);
    } else {
        let b1 = b.drop_last();
        assert((a + b).drop_last() =~= a + b1);
        assert((a + b).last() == b.last());
        lemma_last_force_concat(a, b1);
    }
}

/// Folding a token list twice over gives what folding it once gives: repeating the
/// tokens sets no new bit and leaves the last force token the last one.
pub proof fn lemma_fold_repeat(ts: Seq<ModeToken>)
    ensures
        fold_spec(ts + ts) == fold_spec(ts),
{
    lemma_or_all_concat(ts, ts);
    lemma_last_force_concat(ts, ts);
    let x = or_all(ts);
    assert(x | x == x) by (bit_vector);
}

/// The fold never keeps both force bits.
pub proof fn lemma_fold_one_force(ts: Seq<ModeToken>)
    ensures
        fold_spec(ts) & (FORCE_LINEAR | FORCE_TILED) != (FORCE_LINEAR | FORCE_TILED),
{
    lemma_fold_last_force_wins(ts);
    assert(8u32 | 16u32 == 24u32) by (bit_vector);
    match last_force(ts) {
        Some(t) => {
            lemma_last_force_is_force(ts);
        },
        None => {},
    }
}

proof fn lemma_last_force_is_force(ts: Seq<ModeToken>)
    ensures
        last_force(ts) matches Some(t) ==> is_force(t),
    decreases ts.len(),
{
    if ts.len() > 0 && !is_force(ts.last()) {
        lemma_last_force_is_force(ts.drop_last());
    }
}

/// The fold against the plain OR `U` of the tokens' bits: every bit but the force pair
/// and `allow_dcc` is `U`'s; the force pair holds the last force token's bit alone (or
/// nothing); `allow_dcc` is set exactly when `U` has `allow_dcc` or `force_multiplane`.
pub proof fn lemma_fold_bits(ts: Seq<ModeToken>)
    ensures
        fold_spec(ts) & !(FORCE_LINEAR | FORCE_TILED | ALLOW_DCC) == or_all(ts) & !(FORCE_LINEAR
            | FORCE_TILED | ALLOW_DCC),
        last_force(ts) matches Some(t) ==> fold_spec(ts) & (FORCE_LINEAR | FORCE_TILED)
            == token_bit(t),
        last_force(ts) is None ==> fold_spec(ts) & (FORCE_LINEAR | FORCE_TILED) == 0,
        (fold_spec(ts) & ALLOW_DCC == ALLOW_DCC) <==> (or_all(ts) & (ALLOW_DCC | FORCE_MULTIPLANE)
            != 0),
{
    lemma_fold_last_force_wins(ts);
    lemma_last_force_is_force(ts);
    let u = or_all(ts);
    let both = u & 8 == 8 && u & 16 == 16;
    let b: u32 = if both {
        token_bit(last_force(ts).unwrap())
    } else {
        0
    };
    if both {
        lemma_force_seen(ts);
        assert(b == 8 || b == 16);
    }
    let v: u32 = if both {
        (u & !24u32) | b
    } else {
        u
    };
    assert(8u32 | 16u32 == 24u32 && 8u32 | 16u32 | 32u32 == 56u32 && 32u32 | 64u32 == 96u32)
        by (bit_vector);
    assert(v & !56u32 == u & !56u32 && (v & 64 == 64 <==> u & 64 == 64) && (v & 32 == 32 <==> u
        & 32 == 32)) by (bit_vector)
        requires
            v == (if both {
                (u & !24u32) | b
            } else {
                u
            }),
            both ==> b == 8 || b == 16,
    ;
    let w: u32 = if v & 64 == 64 {
        v | 32
    } else {
        v
    };
    assert(w & !56u32 == v & !56u32 && (w & 32 == 32 <==> (v & 32 == 32 || v & 64 == 64)) && ((u
        & 96 != 0) <==> (u & 32 == 32 || u & 64 == 64))) by (bit_vector)
        requires
            w == (if v & 64 == 64 {
                v | 32
            } else {
                v
            }),
    ;
    assert(fold_spec(ts) == w);
}

} // verus!
