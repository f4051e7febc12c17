//! Normalizes the two settings variants into one [`ResolvedRouter`].
//!
//! The simple variant (`render_node` (+ `scanout_node`)) desugars to a single entry with an
//! empty behaviour mode. The advanced variant (`gpu_router`) is used directly: each entry's
//! tokens are folded, the entries are ordered by render-node path, and the
//! `session_primary` entry (or the lone entry of a single-entry map) is the anchor.
//! A record that [`Environment::validate`](crate::config::Environment::validate) accepts
//! always desugars.

use vstd::prelude::*;

use crate::config::{
    Environment, RouteEntry, has_token, opt_view, primary_count, validation,
};
use crate::mode::{
    ModeFlags, ModeToken, fold, fold_spec, lemma_fold_bit_iff_token, lemma_fold_keeps_tokens, token_bit,
};
use crate::mode::{LOCAL_RENDER, RENDER_DISCOVERY, SCANOUT_DISCOVERY, SESSION_PRIMARY};
use crate::text::{string_from, trim, trim_string};

verus! {

/// One declared render→scanout pair with its folded mode.
pub struct ResolvedEntry {
    pub render: String,
    pub scanout: Option<String>,
    pub mode: ModeFlags,
}

/// The single resolved model: the session-primary pair, and every declared pair ordered
/// by render-node path.
pub struct ResolvedRouter {
    pub primary_render: String,
    pub primary_scanout: Option<String>,
    pub entries: Vec<ResolvedEntry>,
}

/// The text of an entry: render path, scanout path, mode bits.
pub open spec fn entry_view(e: ResolvedEntry) -> (Seq<char>, Option<Seq<char>>, u32) {
    (e.render@, opt_view(e.scanout), e.mode@)
}

/// The texts of a list of entries.
pub open spec fn entry_views(v: Seq<ResolvedEntry>) -> Seq<(Seq<char>, Option<Seq<char>>, u32)> {
    v.map_values(|e: ResolvedEntry| entry_view(e))
}

/// Whether `std::path::Path` orders path `a` strictly before path `b`.
pub uninterp spec fn path_precedes(a: Seq<char>, b: Seq<char>) -> bool;

/// Whether `std::path::Path` holds paths `a` and `b` equal.
pub uninterp spec fn same_path(a: Seq<char>, b: Seq<char>) -> bool;

/// `Path::new(a) < Path::new(b)` from std (component-wise path order). The contract
/// names the result and states that the order is asymmetric, as std's `Ord` for `Path`
/// documents a total order.
#[verifier::external_body]
fn path_lt(a: &str, b: &str) -> (r: bool)
    ensures
        r == path_precedes(a@, b@),
        r ==> !path_precedes(b@, a@),
{
    std::path::Path::new(a) < std::path::Path::new(b)
}

/// `Path::new(a) == Path::new(b)` from std (component-wise path equality). The contract
/// names the result and states that equal text is an equal path.
#[verifier::external_body]
pub(crate) fn path_eq(a: &str, b: &str) -> (r: bool)
    ensures
        r == same_path(a@, b@),
        a@ == b@ ==> r,
{
    std::path::Path::new(a) == std::path::Path::new(b)
}

/// No entry's render path comes before that of the entry in front of it.
pub open spec fn path_ordered(v: Seq<(Seq<char>, Option<Seq<char>>, u32)>) -> bool {
    forall|i: int| 0 <= i < v.len() - 1 ==> !path_precedes(#[trigger] v[i + 1].0, v[i].0)
}

/// A trimmed optional path, `None` when it is absent or blank.
pub open spec fn trim_opt_spec(o: Option<String>) -> Option<Seq<char>> {
    match o {
        Some(s) => if trim(s@).len() > 0 {
            Some(trim(s@))
        } else {
            None
        },
        None => None,
    }
}

/// The resolved text of one `gpu_router` entry.
pub open spec fn declared(key: String, e: RouteEntry) -> (Seq<char>, Option<Seq<char>>, u32) {
    (trim(key@), trim_opt_spec(e.scanout), fold_spec(e.mode@))
}

/// The resolved texts of all `gpu_router` entries, in map order.
pub open spec fn declared_all(m: Seq<(String, RouteEntry)>) -> Seq<
    (Seq<char>, Option<Seq<char>>, u32),
> {
    m.map_values(|p: (String, RouteEntry)| declared(p.0, p.1))
}

/// Entry `i` anchors the session: it is the lone entry, or its mode has `session_primary`.
pub open spec fn is_anchor(m: Seq<(String, RouteEntry)>, i: int) -> bool {
    m.len() == 1 || fold_spec(m[i].1.mode@) & SESSION_PRIMARY == SESSION_PRIMARY
}

/// The last anchoring entry among the first `n`.
pub open spec fn anchor_in(m: Seq<(String, RouteEntry)>, n: nat) -> Option<int>
    decreases n,
{
    if n == 0 {
        None
    } else if is_anchor(m, n - 1) {
        Some(n - 1)
    } else {
        anchor_in(m, (n - 1) as nat)
    }
}

/// `v` with `x` inserted after the last element whose path does not come after `x`'s:
/// one step of a stable sort by path.
pub open spec fn insert_by_path(
    v: Seq<(Seq<char>, Option<Seq<char>>, u32)>,
    x: (Seq<char>, Option<Seq<char>>, u32),
) -> Seq<(Seq<char>, Option<Seq<char>>, u32)>
    decreases v.len(),
{
    if v.len() == 0 {
        seq![x]
    } else if path_precedes(x.0, v.last().0) {
        insert_by_path(v.drop_last(), x).push(v.last())
    } else {
        v.push(x)
    }
}

/// `v` stably sorted by path: entries whose paths neither precede the other keep their
/// order in `v`.
pub open spec fn sort_by_path(v: Seq<(Seq<char>, Option<Seq<char>>, u32)>) -> Seq<
    (Seq<char>, Option<Seq<char>>, u32),
>
    decreases v.len(),
{
    if v.len() == 0 {
        v
    } else {
        insert_by_path(sort_by_path(v.drop_last()), v.last())
    }
}

/// `r` is what the settings record resolves to.
pub open spec fn desugared(env: Environment, r: ResolvedRouter) -> bool {
    match env.render_node {
        Some(rn) => {
            &&& r.primary_render@ == trim(rn@)
            &&& opt_view(r.primary_scanout) == trim_opt_spec(env.scanout_node)
            &&& entry_views(r.entries@) == seq![(trim(rn@), trim_opt_spec(env.scanout_node), 0u32)]
        },
        None => {
            let m = env.gpu_router.unwrap()@;
            &&& anchor_in(m, m.len()) matches Some(p) && r.primary_render@ == trim(m[p].0@)
                && opt_view(r.primary_scanout) == trim_opt_spec(m[p].1.scanout)
            &&& entry_views(r.entries@) == sort_by_path(declared_all(m))
            &&& entry_views(r.entries@).to_multiset() == declared_all(m).to_multiset()
            &&& path_ordered(entry_views(r.entries@))
        },
    }
}

/// A copy of an optional string.
fn copy_opt(o: &Option<String>) -> (r: Option<String>)
    ensures
        opt_view(r) == opt_view(*o),
{
    match o {
        Some(s) => Some(string_from(s.as_str())),
        None => None,
    }
}

/// A trimmed optional path, `None` when it is absent or blank.
pub fn trim_opt(s: &Option<String>) -> (r: Option<String>)
    ensures
        opt_view(r) == trim_opt_spec(*s),
{
    match s {
        Some(x) => {
            let t = trim_string(x.as_str());
            if t.as_str().is_empty() {
                None
            } else {
                Some(t)
            }
        },
        None => None,
    }
}

/// Inserts `e` after the last entry whose path does not come after it.
fn insert_ordered(out: &mut Vec<ResolvedEntry>, e: ResolvedEntry)
    requires
        path_ordered(entry_views(old(out)@)),
    ensures
        entry_views(final(out)@).to_multiset() == entry_views(old(out)@).to_multiset().insert(
            entry_view(e),
        ),
        path_ordered(entry_views(final(out)@)),
        final(out)@.len() == old(out)@.len() + 1,
        entry_views(final(out)@) == insert_by_path(entry_views(old(out)@), entry_view(e)),
{
    let mut j: usize = out.len();
    while j > 0 && path_lt(e.render.as_str(), out[j - 1].render.as_str())
        invariant
            j <= out.len(),
            out@ == old(out)@,
            path_ordered(entry_views(out@)),
            j < out.len() ==> !path_precedes(out@[j as int].render@, e.render@),
            forall|k: int| j <= k < out.len() ==> path_precedes(e.render@, #[trigger] out@[k].render@),
        decreases j,
    {
        j -= 1;
    }
    let ghost before = out@;
    let ghost x = entry_view(e);
    out.insert(j, e);
    proof {
        let v = entry_views(before);
        let w = entry_views(out@);
        assert(w =~= v.insert(j as int, x));
        vstd::seq_lib::to_multiset_insert(v, j as int, x);
        assert forall|k: int| j <= k < v.len() implies path_precedes(x.0, #[trigger] v[k].0) by {
            assert(v[k].0 == before[k].render@);
        }
        if j > 0 {
            assert(v[j - 1].0 == before[j - 1].render@);
            assert(!path_precedes(x.0, v[j - 1].0));
        }
        lemma_insert_by_path_at(v, x, j as int);
        assert forall|i: int| 0 <= i < w.len() - 1 implies !path_precedes(
            #[trigger] w[i + 1].0,
            w[i].0,
        ) by {
            if i + 1 < j {
                assert(w[i] == v[i] && w[i + 1] == v[i + 1]);
                assert(!path_precedes(v[i + 1].0, v[i].0));
            } else if i + 1 == j {
                assert(w[i] == v[i] && w[i + 1] == x);
                assert(v[i].0 == before[i].render@);
            } else if i == j {
                assert(w[i] == x && w[i + 1] == v[i]);
                assert(v[i].0 == before[i].render@);
            } else {
                assert(w[i] == v[i - 1] && w[i + 1] == v[i]);
                let k = i - 1;
                assert(0 <= k < v.len() - 1);
                assert(!path_precedes(v[k + 1].0, v[k].0));
                assert(k + 1 == i);
            }
        }
    }
}

/// Inserting after the last element whose path does not come after `x` is inserting at
/// `j` when every element from `j` on comes after `x` and the one before does not.
proof fn lemma_insert_by_path_at(
    v: Seq<(Seq<char>, Option<Seq<char>>, u32)>,
    x: (Seq<char>, Option<Seq<char>>, u32),
    j: int,
)
    requires
        0 <= j <= v.len(),
        forall|k: int| j <= k < v.len() ==> path_precedes(x.0, #[trigger] v[k].0),
        j > 0 ==> !path_precedes(x.0, v[j - 1].0),
    ensures
        insert_by_path(v, x) == v.insert(j, x),
    decreases v.len(),
{
    if v.len() == 0 {
        assert(v.insert(j, x) =~= seq![x]);
    } else if j == v.len() {
        assert(v.last() == v[j - 1]);
        assert(v.insert(j, x) =~= v.push(x));
    } else {
        assert(path_precedes(x.0, v[v.len() - 1].0));
        let w = v.drop_last();
        assert forall|k: int| j <= k < w.len() implies path_precedes(x.0, #[trigger] w[k].0) by {
            assert(w[k] == v[k]);
        }
        if j > 0 {
            assert(w[j - 1] == v[j - 1]);
        }
        lemma_insert_by_path_at(w, x, j);
        assert(w.insert(j, x).push(v.last()) =~= v.insert(j, x));
    }
}

/// An anchoring entry among the first `n` means one is found.
proof fn lemma_anchor_found(m: Seq<(String, RouteEntry)>, i: int, n: nat)
    requires
        0 <= i < n <= m.len(),
        is_anchor(m, i),
    ensures
        anchor_in(m, n) is Some,
    decreases n,
{
    if n - 1 != i && !is_anchor(m, n - 1) {
        lemma_anchor_found(m, i, (n - 1) as nat);
    }
}

/// A positive `session_primary` count points at an entry with the token.
proof fn lemma_primary_witness(m: Seq<(String, RouteEntry)>) -> (i: int)
    requires
        primary_count(m) > 0,
    ensures
        0 <= i < m.len(),
        has_token(m[i].1, ModeToken::SessionPrimary),
    decreases m.len(),
{
    if has_token(m.last().1, ModeToken::SessionPrimary) {
        m.len() - 1
    } else {
        let k = lemma_primary_witness(m.drop_last());
        assert(m.drop_last()[k] == m[k]);
        k
    }
}

/// A record that validates has an anchoring entry, when it uses the advanced variant.
proof fn lemma_valid_has_anchor(env: Environment)
    requires
        validation(env) is None,
        env.render_node is None,
    ensures
        env.gpu_router is Some,
        anchor_in(env.gpu_router.unwrap()@, env.gpu_router.unwrap()@.len()) is Some,
{
    let m = env.gpu_router.unwrap()@;
    if m.len() == 1 {
        lemma_anchor_found(m, 0, 1);
    } else {
        let i = lemma_primary_witness(m);
        let ts = m[i].1.mode@;
        let k = ts.index_of(ModeToken::SessionPrimary);
        lemma_fold_keeps_tokens(ts, k);
        assert(token_bit(ModeToken::SessionPrimary) == SESSION_PRIMARY);
        lemma_anchor_found(m, i, m.len());
    }
}

/// Resolves a validated settings record: the simple variant becomes one entry with an
/// empty mode; the advanced variant keeps every entry, folded and stably sorted by path
/// (entries whose paths compare equal keep their key order), and its anchoring entry
/// becomes the primary pair. Validation has checked that the advanced map's keys come
/// in key order ([`keys_ordered`]).
pub fn desugar(env: &Environment) -> (r: ResolvedRouter)
    requires
        validation(*env) is None,
    ensures
        desugared(*env, r),
{
    match &env.render_node {
        Some(rn) => {
            let pr = trim_string(rn.as_str());
            let ps = trim_opt(&env.scanout_node);
            let entry = ResolvedEntry {
                render: string_from(pr.as_str()),
                scanout: copy_opt(&ps),
                mode: ModeFlags::empty(),
            };
            let entries = vec![entry];
            assert(entry_views(entries@) =~= seq![
                (trim(rn@), trim_opt_spec(env.scanout_node), 0u32),
            ]);
            return ResolvedRouter { primary_render: pr, primary_scanout: ps, entries };
        },
        None => {},
    }
    proof {
        lemma_valid_has_anchor(*env);
    }
    let map = env.gpu_router.as_ref().unwrap();
    let ghost m = map@;
    let single = map.len() == 1;
    let mut entries: Vec<ResolvedEntry> = Vec::new();
    let mut primary: Option<(String, Option<String>)> = None;
    let mut i: usize = 0;
    proof {
        assert(entry_views(entries@) =~= Seq::empty());
        assert(declared_all(m.take(0)) =~= Seq::empty());
    }
    while i < map.len()
        invariant
            i <= map.len(),
            m == map@,
            single == (m.len() == 1),
            entry_views(entries@).to_multiset() == declared_all(m.take(i as int)).to_multiset(),
            entry_views(entries@) == sort_by_path(declared_all(m.take(i as int))),
            path_ordered(entry_views(entries@)),
            match primary {
                Some((a, b)) => anchor_in(m, i as nat) matches Some(p) && a@ == trim(m[p].0@)
                    && opt_view(b) == trim_opt_spec(m[p].1.scanout),
                None => anchor_in(m, i as nat) is None,
            },
        decreases map.len() - i,
    {
        let key = &map[i].0;
        let e = &map[i].1;
        let render = trim_string(key.as_str());
        let scanout = trim_opt(&e.scanout);
        let flags = fold(e.mode.as_slice());
        if single || flags.contains(ModeFlags::from_bits_retain(SESSION_PRIMARY)) {
            primary = Some((string_from(render.as_str()), copy_opt(&scanout)));
        }
        let ghost d = declared(*key, *e);
        let entry = ResolvedEntry { render, scanout, mode: flags };
        assert(entry_view(entry) == d);
        insert_ordered(&mut entries, entry);
        proof {
            assert(declared_all(m.take(i + 1)) =~= declared_all(m.take(i as int)).push(d));
            assert(declared_all(m.take(i + 1)).drop_last() =~= declared_all(m.take(i as int)));
            declared_all(m.take(i as int)).to_multiset_ensures();
        }
        i += 1;
    }
    assert(m.take(m.len() as int) =~= m);
    let (primary_render, primary_scanout) = primary.unwrap();
    ResolvedRouter { primary_render, primary_scanout, entries }
}

/// The mode of the first entry whose path equals `render`; no flags when none does.
pub open spec fn mode_lookup(v: Seq<ResolvedEntry>, render: Seq<char>) -> u32
    decreases v.len(),
{
    if v.len() == 0 {
        0
    } else if same_path(v[0].render@, render) {
        v[0].mode@
    } else {
        mode_lookup(v.drop_first(), render)
    }
}

/// The folded mode for a render node: the first matching entry's mode, no default set
/// OR'd in; a node without an entry has no flags.
pub fn mode_for(router: &ResolvedRouter, render: &str) -> (r: ModeFlags)
    ensures
        r@ == mode_lookup(router.entries@, render@),
{
    let v = &router.entries;
    let mut i: usize = 0;
    assert(v@.skip(0) =~= v@);
    while i < v.len()
        invariant
            i <= v.len(),
            v@ == router.entries@,
            mode_lookup(v@, render@) == mode_lookup(v@.skip(i as int), render@),
        decreases v.len() - i,
    {
        assert(v@.skip(i as int)[0] == v@[i as int]);
        assert(v@.skip(i as int).drop_first() =~= v@.skip(i + 1));
        if path_eq(v[i].render.as_str(), render) {
            let found = v[i].mode;
            return found;
        }
        i += 1;
    }
    ModeFlags::empty()
}

/// The session-primary render node.
pub fn primary_render(router: &ResolvedRouter) -> (r: String)
    ensures
        r@ == router.primary_render@,
{
    string_from(router.primary_render.as_str())
}

/// The session-primary render node as a string.
pub fn primary_render_string(router: &ResolvedRouter) -> (r: String)
    ensures
        r@ == router.primary_render@,
{
    string_from(router.primary_render.as_str())
}

/// The session-primary scanout override.
pub fn primary_scanout(router: &ResolvedRouter) -> (r: Option<String>)
    ensures
        opt_view(r) == opt_view(router.primary_scanout),
{
    copy_opt(&router.primary_scanout)
}

/// The session-primary node's mode.
pub fn primary_mode(router: &ResolvedRouter) -> (r: ModeFlags)
    ensures
        r@ == mode_lookup(router.entries@, router.primary_render@),
{
    mode_for(router, router.primary_render.as_str())
}

/// `render_discovery` on the primary node: heuristic first-card fallback is allowed.
pub fn render_fallback(router: &ResolvedRouter) -> (r: bool)
    ensures
        r == (mode_lookup(router.entries@, router.primary_render@) & RENDER_DISCOVERY
            == RENDER_DISCOVERY),
{
    primary_mode(router).contains(ModeFlags::from_bits_retain(RENDER_DISCOVERY))
}

/// `scanout_discovery` on the primary node: scanout auto-discovery is allowed.
pub fn scan_fallback(router: &ResolvedRouter) -> (r: bool)
    ensures
        r == (mode_lookup(router.entries@, router.primary_render@) & SCANOUT_DISCOVERY
            == SCANOUT_DISCOVERY),
{
    primary_mode(router).contains(ModeFlags::from_bits_retain(SCANOUT_DISCOVERY))
}

/// `local_render` on the primary node: composite on the render node itself and cross to
/// the scanout card, instead of compositing on the scanout card.
pub fn composite_on_render_node(router: &ResolvedRouter) -> (r: bool)
    ensures
        r == (mode_lookup(router.entries@, router.primary_render@) & LOCAL_RENDER
            == LOCAL_RENDER),
{
    primary_mode(router).contains(ModeFlags::from_bits_retain(LOCAL_RENDER))
}

/// A sequence with the multiset of a one-element sequence is that sequence.
proof fn lemma_single_multiset<A>(s: Seq<A>, x: A)
    requires
        s.to_multiset() == seq![x].to_multiset(),
    ensures
        s == seq![x],
{
    s.to_multiset_ensures();
    seq![x].to_multiset_ensures();
    assert(s.len() == 1);
    assert(s.contains(s[0]));
    assert(seq![x].to_multiset().count(s[0]) > 0);
    assert(seq![x].contains(s[0]));
    assert(s =~= seq![x]);
}

/// A single-entry `gpu_router` whose entry has an empty mode resolves exactly as the
/// bare `render_node` variant with the same paths.
pub proof fn lemma_single_entry_is_simple(
    simple: Environment,
    advanced: Environment,
    a: ResolvedRouter,
    b: ResolvedRouter,
)
    requires
        simple.render_node is Some,
        advanced.render_node is None,
        advanced.gpu_router matches Some(m) && m@.len() == 1 && m@[0].0@
            == simple.render_node.unwrap()@ && m@[0].1.mode@.len() == 0 && opt_view(
            m@[0].1.scanout,
        ) == opt_view(simple.scanout_node),
        desugared(simple, a),
        desugared(advanced, b),
    ensures
        a.primary_render@ == b.primary_render@,
        opt_view(a.primary_scanout) == opt_view(b.primary_scanout),
        entry_views(a.entries@) == entry_views(b.entries@),
{
    let m = advanced.gpu_router.unwrap()@;
    crate::mode::lemma_fold_empty();
    assert(m[0].1.mode@ =~= Seq::<ModeToken>::empty());
    assert(declared_all(m) =~= seq![declared(m[0].0, m[0].1)]);
    lemma_single_multiset(entry_views(b.entries@), declared(m[0].0, m[0].1));
}

/// Two entries carrying `session_primary` count as two.
proof fn lemma_two_primaries(m: Seq<(String, RouteEntry)>, i: int, j: int)
    requires
        0 <= i < j < m.len(),
        has_token(m[i].1, ModeToken::SessionPrimary),
        has_token(m[j].1, ModeToken::SessionPrimary),
    ensures
        primary_count(m) >= 2,
    decreases m.len(),
{
    if j < m.len() - 1 {
        assert(m.drop_last()[i] == m[i] && m.drop_last()[j] == m[j]);
        lemma_two_primaries(m.drop_last(), i, j);
    } else {
        assert(m.drop_last()[i] == m[i]);
        lemma_one_primary(m.drop_last(), i);
    }
}

/// An entry carrying `session_primary` counts as at least one.
proof fn lemma_one_primary(m: Seq<(String, RouteEntry)>, i: int)
    requires
        0 <= i < m.len(),
        has_token(m[i].1, ModeToken::SessionPrimary),
    ensures
        primary_count(m) >= 1,
    decreases m.len(),
{
    if i < m.len() - 1 {
        assert(m.drop_last()[i] == m[i]);
        lemma_one_primary(m.drop_last(), i);
    }
}

/// The primary pair of a resolved record: the trimmed `render_node` and `scanout_node`
/// with the simple variant; with the advanced variant that of the lone entry (whatever
/// its tokens), else that of the one entry carrying `session_primary` (there is exactly
/// one). A blank or absent scanout is none.
pub proof fn lemma_primary_pair(env: Environment, r: ResolvedRouter)
    requires
        validation(env) is None,
        desugared(env, r),
    ensures
        env.render_node matches Some(rn) ==> r.primary_render@ == trim(rn@) && opt_view(
            r.primary_scanout,
        ) == trim_opt_spec(env.scanout_node),
        env.render_node is None ==> ({
            let m = env.gpu_router.unwrap()@;
            &&& m.len() == 1 ==> r.primary_render@ == trim(m[0].0@) && opt_view(r.primary_scanout)
                == trim_opt_spec(m[0].1.scanout)
            &&& m.len() >= 2 ==> (exists|i: int|
                0 <= i < m.len() && #[trigger] has_token(m[i].1, ModeToken::SessionPrimary))
            &&& forall|i: int|
                0 <= i < m.len() && m.len() >= 2 && #[trigger] has_token(
                    m[i].1,
                    ModeToken::SessionPrimary,
                ) ==> r.primary_render@ == trim(m[i].0@) && opt_view(r.primary_scanout)
                    == trim_opt_spec(m[i].1.scanout)
        }),
{
    if env.render_node is None {
        let m = env.gpu_router.unwrap()@;
        let p = anchor_in(m, m.len()).unwrap();
        lemma_anchor_in_range(m, m.len());
        if m.len() >= 2 {
            crate::mode::lemma_fold_bit_iff_token(m[p].1.mode@, ModeToken::SessionPrimary);
            assert(token_bit(ModeToken::SessionPrimary) == SESSION_PRIMARY);
            assert(has_token(m[p].1, ModeToken::SessionPrimary));
            assert(primary_count(m) == 1);
            assert forall|i: int|
                0 <= i < m.len() && m.len() >= 2 && #[trigger] has_token(
                    m[i].1,
                    ModeToken::SessionPrimary,
                ) implies r.primary_render@ == trim(m[i].0@) && opt_view(r.primary_scanout)
                    == trim_opt_spec(m[i].1.scanout) by {
                if i < p {
                    lemma_two_primaries(m, i, p);
                } else if p < i {
                    lemma_two_primaries(m, p, i);
                }
            }
        }
    }
}

/// What `anchor_in` finds is an anchoring entry among the first `n`.
proof fn lemma_anchor_in_range(m: Seq<(String, RouteEntry)>, n: nat)
    requires
        n <= m.len(),
    ensures
        anchor_in(m, n) matches Some(p) ==> 0 <= p < n && is_anchor(m, p),
    decreases n,
{
    if n > 0 && !is_anchor(m, n - 1) {
        lemma_anchor_in_range(m, (n - 1) as nat);
    }
}

/// The mode of the first entry, in the given order, whose path `std::path::Path` holds
/// equal to `render`; no flags when none is.
pub open spec fn first_mode(v: Seq<(Seq<char>, Option<Seq<char>>, u32)>, render: Seq<char>) -> u32
    decreases v.len(),
{
    if v.len() == 0 {
        0
    } else if same_path(v[0].0, render) {
        v[0].2
    } else {
        first_mode(v.drop_first(), render)
    }
}

/// The entries whose path is held equal to `render`, in order.
pub open spec fn matching(v: Seq<(Seq<char>, Option<Seq<char>>, u32)>, render: Seq<char>) -> Seq<
    (Seq<char>, Option<Seq<char>>, u32),
>
    decreases v.len(),
{
    if v.len() == 0 {
        v
    } else {
        (if same_path(v[0].0, render) {
            seq![v[0]]
        } else {
            Seq::empty()
        }) + matching(v.drop_first(), render)
    }
}

/// `std::path::Path`'s order agrees with its equality about `render`: two paths both
/// equal to `render` do not order one before the other (std's `Ord` for `Path` is a
/// total order consistent with its `Eq`).
pub open spec fn order_agrees_at(render: Seq<char>) -> bool {
    forall|a: Seq<char>, b: Seq<char>|
        same_path(a, render) && same_path(b, render) ==> !#[trigger] path_precedes(a, b)
}

proof fn lemma_matching_push(
    v: Seq<(Seq<char>, Option<Seq<char>>, u32)>,
    x: (Seq<char>, Option<Seq<char>>, u32),
    render: Seq<char>,
)
    ensures
        matching(v.push(x), render) == matching(v, render) + (if same_path(x.0, render) {
            seq![x]
        } else {
            Seq::empty()
        }),
    decreases v.len(),
{
    if v.len() == 0 {
        let e = v.push(x).drop_first();
        assert(e =~= v);
        assert(e.len() == 0);
        assert(matching(e, render) == e);
        assert(matching(v, render) == v);
        assert(v.push(x)[0] == x);
        assert(matching(v.push(x), render) =~= (if same_path(x.0, render) {
            seq![x]
        } else {
            Seq::empty()
        }));
    } else {
        assert(v.push(x).drop_first() =~= v.drop_first().push(x));
        assert(v.push(x)[0] == v[0]);
        lemma_matching_push(v.drop_first(), x, render);
        let h = if same_path(v[0].0, render) {
            seq![v[0]]
        } else {
            Seq::<(Seq<char>, Option<Seq<char>>, u32)>::empty()
        };
        let t = if same_path(x.0, render) {
            seq![x]
        } else {
            Seq::<(Seq<char>, Option<Seq<char>>, u32)>::empty()
        };
        assert(h + (matching(v.drop_first(), render) + t) =~= (h + matching(v.drop_first(), render)) + t);
    }
}

/// A stable insertion by path keeps the entries equal to `render` in their order.
proof fn lemma_matching_insert(
    v: Seq<(Seq<char>, Option<Seq<char>>, u32)>,
    x: (Seq<char>, Option<Seq<char>>, u32),
    render: Seq<char>,
)
    requires
        order_agrees_at(render),
    ensures
        matching(insert_by_path(v, x), render) == matching(v.push(x), render),
    decreases v.len(),
{
    if v.len() > 0 && path_precedes(x.0, v.last().0) {
        let w = v.drop_last();
        let l = v.last();
        assert(insert_by_path(v, x) == insert_by_path(w, x).push(l));
        lemma_matching_insert(w, x, render);
        lemma_matching_push(insert_by_path(w, x), l, render);
        lemma_matching_push(w, x, render);
        lemma_matching_push(w, l, render);
        lemma_matching_push(v, x, render);
        assert(w.push(l) =~= v);
        if same_path(x.0, render) && same_path(l.0, render) {
            assert(!path_precedes(x.0, l.0));
        }
        let mx = if same_path(x.0, render) {
            seq![x]
        } else {
            Seq::<(Seq<char>, Option<Seq<char>>, u32)>::empty()
        };
        let ml = if same_path(l.0, render) {
            seq![l]
        } else {
            Seq::<(Seq<char>, Option<Seq<char>>, u32)>::empty()
        };
        assert(matching(w, render) + mx + ml =~= matching(w, render) + ml + mx);
    } else if v.len() == 0 {
        assert(insert_by_path(v, x) == seq![x]);
        assert(v.push(x) =~= seq![x]);
    } else {
        assert(insert_by_path(v, x) == v.push(x));
    }
}

/// Sorting by path keeps the entries equal to `render` in their order.
proof fn lemma_matching_sort(v: Seq<(Seq<char>, Option<Seq<char>>, u32)>, render: Seq<char>)
    requires
        order_agrees_at(render),
    ensures
        matching(sort_by_path(v), render) == matching(v, render),
    decreases v.len(),
{
    if v.len() > 0 {
        lemma_matching_sort(v.drop_last(), render);
        lemma_matching_insert(sort_by_path(v.drop_last()), v.last(), render);
        lemma_matching_push(sort_by_path(v.drop_last()), v.last(), render);
        lemma_matching_push(v.drop_last(), v.last(), render);
        assert(v.drop_last().push(v.last()) =~= v);
    }
}

/// The first match is the head of the matching entries.
proof fn lemma_first_mode_matching(v: Seq<(Seq<char>, Option<Seq<char>>, u32)>, render: Seq<char>)
    ensures
        first_mode(v, render) == if matching(v, render).len() > 0 {
            matching(v, render)[0].2
        } else {
            0
        },
    decreases v.len(),
{
    if v.len() > 0 {
        lemma_first_mode_matching(v.drop_first(), render);
        if same_path(v[0].0, render) {
            assert((seq![v[0]] + matching(v.drop_first(), render))[0] == v[0]);
        } else {
            assert(Seq::<(Seq<char>, Option<Seq<char>>, u32)>::empty() + matching(v.drop_first(), render)
                =~= matching(v.drop_first(), render));
        }
    }
}

/// Looking a path up in the entries is [`first_mode`] of their texts.
proof fn lemma_mode_lookup_views(v: Seq<ResolvedEntry>, render: Seq<char>)
    ensures
        mode_lookup(v, render) == first_mode(entry_views(v), render),
    decreases v.len(),
{
    if v.len() > 0 {
        assert(entry_views(v).drop_first() =~= entry_views(v.drop_first()));
        lemma_mode_lookup_views(v.drop_first(), render);
    }
}

/// `mode_for` on a resolved record: with the advanced variant, the folded mode of the
/// first `gpu_router` entry in key order whose trimmed key is the same path as `render`,
/// no flags when there is none; with the simple variant, no flags for every path. (The
/// order of `Path` must agree with its equality about `render`, as std documents.)
pub proof fn lemma_mode_for_key_order(env: Environment, r: ResolvedRouter, render: Seq<char>)
    requires
        validation(env) is None,
        desugared(env, r),
        order_agrees_at(render),
    ensures
        env.render_node is Some ==> mode_lookup(r.entries@, render) == 0,
        env.render_node is None ==> mode_lookup(r.entries@, render) == first_mode(
            declared_all(env.gpu_router.unwrap()@),
            render,
        ),
{
    lemma_mode_lookup_views(r.entries@, render);
    if env.render_node is Some {
        let v = entry_views(r.entries@);
        assert(v.len() == 1 && v[0].2 == 0);
        assert(v.drop_first() =~= Seq::<(Seq<char>, Option<Seq<char>>, u32)>::empty());
        assert(first_mode(v.drop_first(), render) == 0);
    } else {
        let d = declared_all(env.gpu_router.unwrap()@);
        lemma_matching_sort(d, render);
        lemma_first_mode_matching(d, render);
        lemma_first_mode_matching(sort_by_path(d), render);
    }
}

/// The first match is the entry at `a` when no entry before it matches.
proof fn lemma_first_mode_at(v: Seq<(Seq<char>, Option<Seq<char>>, u32)>, render: Seq<char>, a: int)
    requires
        0 <= a < v.len(),
        same_path(v[a].0, render),
        forall|i: int| 0 <= i < a ==> !same_path(#[trigger] v[i].0, render),
    ensures
        first_mode(v, render) == v[a].2,
    decreases a,
{
    if a > 0 {
        assert forall|i: int| 0 <= i < a - 1 implies !same_path(#[trigger] v.drop_first()[i].0, render) by {
            assert(v.drop_first()[i] == v[i + 1]);
        }
        assert(v.drop_first()[a - 1] == v[a]);
        assert(!same_path(v[0].0, render));
        lemma_first_mode_at(v.drop_first(), render, a - 1);
    }
}

/// Compositing on the render node follows the primary entry's `local_render` token: on
/// with the advanced variant exactly when the anchoring entry lists it, and always off
/// with the simple variant. (No other key is the same path as the primary node, the
/// primary node is the same path as itself, and `Path`'s order agrees with its equality
/// there, as std documents.)
pub proof fn lemma_composite_local_render(env: Environment, r: ResolvedRouter)
    requires
        validation(env) is None,
        desugared(env, r),
        order_agrees_at(r.primary_render@),
        env.render_node is None ==> ({
            let m = env.gpu_router.unwrap()@;
            let a = anchor_in(m, m.len()).unwrap();
            &&& same_path(trim(m[a].0@), r.primary_render@)
            &&& forall|i: int|
                0 <= i < m.len() && i != a ==> !same_path(#[trigger] trim(m[i].0@), r.primary_render@)
        }),
    ensures
        (mode_lookup(r.entries@, r.primary_render@) & LOCAL_RENDER == LOCAL_RENDER) <==> (
        env.render_node is None && has_token(
            env.gpu_router.unwrap()@[anchor_in(
                env.gpu_router.unwrap()@,
                env.gpu_router.unwrap()@.len(),
            ).unwrap()].1,
            ModeToken::LocalRender,
        )),
{
    lemma_mode_for_key_order(env, r, r.primary_render@);
    if env.render_node is Some {
        assert(0u32 & LOCAL_RENDER == 0) by (bit_vector);
    } else {
        let m = env.gpu_router.unwrap()@;
        let a = anchor_in(m, m.len()).unwrap();
        lemma_anchor_in_range(m, m.len());
        let d = declared_all(m);
        assert forall|i: int| 0 <= i < a implies !same_path(#[trigger] d[i].0, r.primary_render@) by {
            assert(d[i] == declared(m[i].0, m[i].1));
        }
        assert(d[a] == declared(m[a].0, m[a].1));
        lemma_first_mode_at(d, r.primary_render@, a);
        lemma_fold_bit_iff_token(m[a].1.mode@, ModeToken::LocalRender);
        assert(token_bit(ModeToken::LocalRender) == LOCAL_RENDER);
    }
}


} // verus!
