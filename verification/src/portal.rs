//! The portal checker's logic: which well-known bus names are present and how, whether a
//! bus address is the default per-user socket, the keyring collection record, and the
//! report that counts failures and warnings and renders each check's line.

use vstd::prelude::*;

use crate::config::{join_path, opt_view};
use crate::router::{path_eq, same_path};
use crate::text::{
    chars_of, is_prefix, push_char, push_nat, push_str, starts_with_chars, string_from, string_of,
    texts_of, trim,
};

verus! {

// ---------------------------------------------------------------------------------
// String order
// ---------------------------------------------------------------------------------

/// `a` sorts strictly before `b`: code point by code point, a proper prefix first (the
/// order of `String`, whose UTF-8 bytes sort as their code points do).
pub open spec fn text_lt(a: Seq<char>, b: Seq<char>) -> bool
    decreases a.len(),
{
    if a.len() == 0 {
        b.len() > 0
    } else if b.len() == 0 {
        false
    } else if a[0] != b[0] {
        a[0] < b[0]
    } else {
        text_lt(a.drop_first(), b.drop_first())
    }
}

/// The order is strict and total.
pub proof fn lemma_text_lt_total(a: Seq<char>, b: Seq<char>)
    ensures
        !(text_lt(a, b) && text_lt(b, a)),
        !text_lt(a, a),
        a != b ==> text_lt(a, b) || text_lt(b, a),
    decreases a.len(),
{
    if a.len() > 0 {
        lemma_text_lt_total(a.drop_first(), a.drop_first());
    }
    if a.len() > 0 && b.len() > 0 {
        lemma_text_lt_total(a.drop_first(), b.drop_first());
        if a[0] == b[0] {
            if a.drop_first() == b.drop_first() {
                assert(a =~= seq![a[0]] + a.drop_first());
                assert(b =~= seq![b[0]] + b.drop_first());
            }
        }
    } else if a.len() == 0 && b.len() == 0 {
        assert(a =~= b);
    }
}

/// The order is transitive.
pub proof fn lemma_text_lt_trans(a: Seq<char>, b: Seq<char>, c: Seq<char>)
    requires
        text_lt(a, b),
        text_lt(b, c),
    ensures
        text_lt(a, c),
    decreases a.len(),
{
    if a.len() > 0 && b.len() > 0 && c.len() > 0 && a[0] == b[0] && b[0] == c[0] {
        lemma_text_lt_trans(a.drop_first(), b.drop_first(), c.drop_first());
    }
}

/// Whether `a` sorts strictly before `b`.
pub(crate) fn chars_lt(a: &Vec<char>, b: &Vec<char>) -> (r: bool)
    ensures
        r == text_lt(a@, b@),
{
    let mut i: usize = 0;
    assert(a@.skip(0) =~= a@ && b@.skip(0) =~= b@);
    while i < a.len() && i < b.len()
        invariant
            i <= a.len(),
            i <= b.len(),
            text_lt(a@, b@) == text_lt(a@.skip(i as int), b@.skip(i as int)),
        decreases a.len() - i,
    {
        assert(a@.skip(i as int)[0] == a@[i as int]);
        assert(b@.skip(i as int)[0] == b@[i as int]);
        if a[i] != b[i] {
            return a[i] < b[i];
        }
        assert(a@.skip(i as int).drop_first() =~= a@.skip(i + 1));
        assert(b@.skip(i as int).drop_first() =~= b@.skip(i + 1));
        i += 1;
    }
    i < b.len()
}

/// Strictly increasing: sorted, without repeats.
pub open spec fn strictly_sorted(v: Seq<Seq<char>>) -> bool {
    forall|i: int, j: int| 0 <= i < j < v.len() ==> text_lt(#[trigger] v[i], #[trigger] v[j])
}

/// Adds `s` to a strictly sorted list unless it is already there.
fn insert_sorted(out: &mut Vec<String>, s: String)
    requires
        strictly_sorted(texts_of(old(out)@)),
    ensures
        strictly_sorted(texts_of(final(out)@)),
        forall|t: Seq<char>|
            #![trigger texts_of(final(out)@).contains(t)]
            texts_of(final(out)@).contains(t) <==> (texts_of(old(out)@).contains(t) || t == s@),
{
    let key = chars_of(s.as_str());
    let mut k: usize = 0;
    while k < out.len() && chars_lt(&chars_of(out[k].as_str()), &key)
        invariant
            k <= out.len(),
            out@ == old(out)@,
            key@ == s@,
            strictly_sorted(texts_of(out@)),
            forall|i: int| 0 <= i < k ==> text_lt(#[trigger] texts_of(out@)[i], s@),
        decreases out.len() - k,
    {
        k += 1;
    }
    let ghost v = texts_of(out@);
    if k < out.len() {
        let here = chars_of(out[k].as_str());
        if crate::text::chars_eq(&here, &key) {
            proof {
                assert(v[k as int] == s@);
            }
            return;
        }
        proof {
            lemma_text_lt_total(v[k as int], s@);
        }
    }
    out.insert(k, s);
    proof {
        let w = texts_of(out@);
        assert(w =~= v.insert(k as int, s@));
        assert forall|i: int, j: int| 0 <= i < j < w.len() implies text_lt(
            #[trigger] w[i],
            #[trigger] w[j],
        ) by {
            if j < k {
                assert(w[i] == v[i] && w[j] == v[j]);
            } else if j == k {
                assert(w[i] == v[i] && w[j] == s@);
            } else if i == k {
                assert(w[j] == v[j - 1]);
                if j - 1 > k {
                    lemma_text_lt_trans(s@, v[k as int], v[j - 1]);
                }
            } else if i < k {
                assert(w[i] == v[i] && w[j] == v[j - 1]);
            } else {
                assert(w[i] == v[i - 1] && w[j] == v[j - 1]);
            }
        }
        assert forall|t: Seq<char>| #![trigger w.contains(t)] w.contains(t) <==> (v.contains(t)
            || t == s@) by {
            if w.contains(t) {
                let i = choose|i: int| 0 <= i < w.len() && w[i] == t;
                if i < k {
                    assert(v[i] == t);
                } else if i > k {
                    assert(v[i - 1] == t);
                }
            }
            if t == s@ {
                assert(w[k as int] == t);
            } else if v.contains(t) {
                let i = choose|i: int| 0 <= i < v.len() && v[i] == t;
                if i < k {
                    assert(w[i] == t);
                } else {
                    assert(w[i + 1] == t);
                }
            }
        }
    }
}

// ---------------------------------------------------------------------------------
// Bus names
// ---------------------------------------------------------------------------------

/// Well-known names currently owned, plus those the bus knows how to start.
///
/// Activatable is the more useful of the two: a `.service` file plus an installed binary
/// is what "the portal works here" means; nothing has to be running yet.
pub struct Names {
    pub running: Vec<String>,
    pub activatable: Vec<String>,
}

/// Whether a list of strings holds the text `s`.
fn holds(v: &Vec<String>, s: &str) -> (r: bool)
    ensures
        r == texts_of(v@).contains(s@),
{
    let key = chars_of(s);
    let mut i: usize = 0;
    while i < v.len()
        invariant
            i <= v.len(),
            key@ == s@,
            forall|k: int| 0 <= k < i ==> texts_of(v@)[k] != s@,
        decreases v.len() - i,
    {
        let t = chars_of(v[i].as_str());
        if crate::text::chars_eq(&t, &key) {
            assert(texts_of(v@)[i as int] == s@);
            return true;
        }
        i += 1;
    }
    false
}

impl Names {
    /// The name is running or activatable.
    pub fn has(&self, name: &str) -> (r: bool)
        ensures
            r == (texts_of(self.running@).contains(name@) || texts_of(self.activatable@).contains(
                name@,
            )),
    {
        holds(&self.running, name) || holds(&self.activatable, name)
    }

    /// How the name is present, for the detail column.
    pub fn how(&self, name: &str) -> (r: &'static str)
        ensures
            ({
                let run = texts_of(self.running@).contains(name@);
                let act = texts_of(self.activatable@).contains(name@);
                r@ == if run && act {
                    "running, activatable"@
                } else if run {
                    "running"@
                } else if act {
                    "activatable"@
                } else {
                    "absent"@
                }
            }),
    {
        let run = holds(&self.running, name);
        let act = holds(&self.activatable, name);
        if run && act {
            "running, activatable"
        } else if run {
            "running"
        } else if act {
            "activatable"
        } else {
            "absent"
        }
    }

    /// Every present name that starts with `prefix`, sorted, each once.
    pub fn with_prefix(&self, prefix: &str) -> (r: Vec<String>)
        ensures
            strictly_sorted(texts_of(r@)),
            forall|t: Seq<char>|
                #![trigger texts_of(r@).contains(t)]
                texts_of(r@).contains(t) <==> ((texts_of(self.running@).contains(t) || texts_of(
                    self.activatable@,
                ).contains(t)) && is_prefix(prefix@, t)),
    {
        let p = chars_of(prefix);
        let mut found: Vec<String> = Vec::new();
        let ghost run = texts_of(self.running@);
        let ghost act = texts_of(self.activatable@);
        let mut i: usize = 0;
        while i < self.running.len()
            invariant
                i <= self.running.len(),
                p@ == prefix@,
                run == texts_of(self.running@),
                strictly_sorted(texts_of(found@)),
                forall|t: Seq<char>|
                    #![trigger texts_of(found@).contains(t)]
                    texts_of(found@).contains(t) <==> (run.take(i as int).contains(t) && is_prefix(
                        prefix@,
                        t,
                    )),
            decreases self.running.len() - i,
        {
            let c = chars_of(self.running[i].as_str());
            let ghost before = texts_of(found@);
            let ghost x = run[i as int];
            assert(x == c@);
            if starts_with_chars(&c, &p) {
                insert_sorted(&mut found, string_from(self.running[i].as_str()));
            }
            proof {
                lemma_take_push(run, i as int);
                assert forall|t: Seq<char>| #![trigger texts_of(found@).contains(t)] texts_of(
                    found@,
                ).contains(t) <==> (run.take(i + 1).contains(t) && is_prefix(prefix@, t)) by {
                    assert(run.take(i + 1).contains(t) <==> (run.take(i as int).contains(t) || t
                        == x));
                    assert(before.contains(t) <==> (run.take(i as int).contains(t) && is_prefix(
                        prefix@,
                        t,
                    )));
                }
            }
            i += 1;
        }
        let mut j: usize = 0;
        proof {
            assert(run.take(run.len() as int) =~= run);
            assert(act.take(0) =~= Seq::<Seq<char>>::empty());
        }
        while j < self.activatable.len()
            invariant
                j <= self.activatable.len(),
                p@ == prefix@,
                run == texts_of(self.running@),
                act == texts_of(self.activatable@),
                strictly_sorted(texts_of(found@)),
                forall|t: Seq<char>|
                    #![trigger texts_of(found@).contains(t)]
                    texts_of(found@).contains(t) <==> ((run.contains(t) || act.take(
                        j as int,
                    ).contains(t)) && is_prefix(prefix@, t)),
            decreases self.activatable.len() - j,
        {
            let c = chars_of(self.activatable[j].as_str());
            let ghost before = texts_of(found@);
            let ghost x = act[j as int];
            assert(x == c@);
            if starts_with_chars(&c, &p) {
                insert_sorted(&mut found, string_from(self.activatable[j].as_str()));
            }
            proof {
                lemma_take_push(act, j as int);
                assert forall|t: Seq<char>| #![trigger texts_of(found@).contains(t)] texts_of(
                    found@,
                ).contains(t) <==> ((run.contains(t) || act.take(j + 1).contains(t)) && is_prefix(
                    prefix@,
                    t,
                )) by {
                    assert(act.take(j + 1).contains(t) <==> (act.take(j as int).contains(t) || t
                        == x));
                    assert(before.contains(t) <==> ((run.contains(t) || act.take(
                        j as int,
                    ).contains(t)) && is_prefix(prefix@, t)));
                }
            }
            j += 1;
        }
        proof {
            assert(act.take(act.len() as int) =~= act);
        }
        found
    }
}

/// A prefix one longer holds what the shorter one holds and the next element.
proof fn lemma_take_push(s: Seq<Seq<char>>, i: int)
    requires
        0 <= i < s.len(),
    ensures
        forall|t: Seq<char>|
            #![trigger s.take(i + 1).contains(t)]
            s.take(i + 1).contains(t) <==> (s.take(i).contains(t) || t == s[i]),
{
    assert forall|t: Seq<char>| #![trigger s.take(i + 1).contains(t)] s.take(i + 1).contains(t)
        <==> (s.take(i).contains(t) || t == s[i]) by {
        if s.take(i + 1).contains(t) {
            let k = choose|k: int| 0 <= k < i + 1 && #[trigger] s.take(i + 1)[k] == t;
            if k < i {
                assert(s.take(i)[k] == t);
            }
        }
        if s.take(i).contains(t) {
            let k = choose|k: int| 0 <= k < i && #[trigger] s.take(i)[k] == t;
            assert(s.take(i + 1)[k] == t);
        }
        if t == s[i] {
            assert(s.take(i + 1)[i] == t);
        }
    }
}

/// The prefix of a unix-socket bus address.
pub open spec fn unix_path_prefix() -> Seq<char> {
    seq!['u', 'n', 'i', 'x', ':', 'p', 'a', 't', 'h', '=']
}

/// How many characters of `s` come before the first `c` (all of them when there is none).
pub open spec fn before_char(s: Seq<char>, c: char) -> nat
    decreases s.len(),
{
    if s.len() == 0 || s[0] == c {
        0
    } else {
        1 + before_char(s.drop_first(), c)
    }
}

/// The socket path of a `unix:path=` bus address: what follows the prefix, up to the
/// first `,`; nothing for another kind of address.
pub open spec fn unix_socket_path(address: Seq<char>) -> Option<Seq<char>> {
    if is_prefix(unix_path_prefix(), address) {
        let rest = address.skip(unix_path_prefix().len() as int);
        Some(rest.take(before_char(rest, ',') as int))
    } else {
        None
    }
}

pub proof fn lemma_before_char_bound(s: Seq<char>, c: char)
    ensures
        before_char(s, c) <= s.len(),
    decreases s.len(),
{
    if s.len() > 0 && s[0] != c {
        lemma_before_char_bound(s.drop_first(), c);
    }
}

/// Whether `address` points at the default per-user bus socket `<runtime_dir>/bus`,
/// where `runtime_dir` is the session's default runtime directory (`/run/user/<uid>`);
/// nothing when the address is not a `unix:path=` address or the directory is unknown.
///
/// A private session must answer `false` here.
pub fn is_default_bus(address: &str, runtime_dir: Option<String>) -> (r: Option<bool>)
    ensures
        unix_socket_path(address@) is None || runtime_dir is None ==> r is None,
        unix_socket_path(address@) is Some && runtime_dir is Some ==> r == Some(
            same_path(
                unix_socket_path(address@).unwrap(),
                join_path(runtime_dir.unwrap()@, seq!['b', 'u', 's']),
            ),
        ),
{
    let a = chars_of(address);
    let pre = chars_of("unix:path=");
    proof {
        reveal_strlit("unix:path=");
        assert(pre@ =~= unix_path_prefix());
    }
    if !starts_with_chars(&a, &pre) {
        return None;
    }
    let mut path: Vec<char> = Vec::new();
    let mut k: usize = pre.len();
    let ghost rest = a@.skip(pre.len() as int);
    proof {
        assert(rest.skip(0) =~= rest);
    }
    while k < a.len() && a[k] != ','
        invariant
            pre.len() <= k <= a.len(),
            a@ == address@,
            is_prefix(unix_path_prefix(), address@),
            pre@ == unix_path_prefix(),
            rest == a@.skip(pre.len() as int),
            path@ == rest.take(k - pre.len()),
            before_char(rest, ',') == (k - pre.len()) + before_char(rest.skip(k - pre.len()), ','),
        decreases a.len() - k,
    {
        let ghost j = k - pre.len();
        assert(rest.skip(j)[0] == a@[k as int]);
        assert(rest.skip(j).drop_first() =~= rest.skip(j + 1));
        path.push(a[k]);
        k += 1;
        assert(path@ =~= rest.take(k - pre.len()));
    }
    proof {
        let j = k - pre.len();
        if k < a.len() {
            assert(rest.skip(j)[0] == a@[k as int]);
        } else {
            assert(rest.skip(j).len() == 0);
        }
        assert(before_char(rest, ',') == j);
    }
    let dir = match runtime_dir {
        Some(d) => d,
        None => {
            return None;
        },
    };
    let mut default = dir;
    crate::config::push_component(&mut default, "bus");
    proof {
        reveal_strlit("bus");
        assert("bus"@ =~= seq!['b', 'u', 's']);
    }
    let p = string_of(&path);
    Some(path_eq(p.as_str(), default.as_str()))
}

// ---------------------------------------------------------------------------------
// Report
// ---------------------------------------------------------------------------------

/// The outcome of one check.
#[derive(Clone, Copy, Debug, PartialEq, Eq, Structural)]
pub enum Status {
    Pass,
    /// Missing, but the session still functions without it.
    Warn,
    /// Missing, and something the user will visibly try to do is now broken.
    Fail,
    /// Not a judgement: a value worth printing.
    Info,
}

/// The four-column tag of an outcome.
pub open spec fn tag_text(s: Status) -> Seq<char> {
    match s {
        Status::Pass => "OK  "@,
        Status::Warn => "WARN"@,
        Status::Fail => "FAIL"@,
        Status::Info => "    "@,
    }
}

impl Status {
    /// The four-column tag of the outcome.
    pub fn tag(self) -> (r: &'static str)
        ensures
            r@ == tag_text(self),
    {
        match self {
            Status::Pass => "OK  ",
            Status::Warn => "WARN",
            Status::Fail => "FAIL",
            Status::Info => "    ",
        }
    }
}

/// The running tally: how many checks failed and how many warned.
pub struct Report {
    pub failures: usize,
    pub warnings: usize,
}

/// `c` repeated `n` times.
pub open spec fn repeat_char(c: char, n: nat) -> Seq<char> {
    Seq::new(n, |i: int| c)
}

/// The text of one check line: two spaces, the tag, two spaces, the label padded with
/// spaces to 34 characters, then the detail.
pub open spec fn line_text(tag: Seq<char>, label: Seq<char>, detail: Seq<char>) -> Seq<char> {
    let pad: nat = if label.len() < 34 {
        (34 - label.len()) as nat
    } else {
        0
    };
    seq![' ', ' '] + tag + seq![' ', ' '] + label + repeat_char(' ', pad) + detail
}

/// Appends `c` `n` times.
fn push_repeat(s: &mut String, c: char, n: usize)
    ensures
        final(s)@ == old(s)@ + repeat_char(c, n as nat),
{
    let mut i: usize = 0;
    while i < n
        invariant
            i <= n,
            s@ == old(s)@ + repeat_char(c, i as nat),
        decreases n - i,
    {
        push_char(s, c);
        i += 1;
        assert(s@ =~= old(s)@ + repeat_char(c, i as nat));
    }
}

impl Default for Report {
    /// No failures and no warnings.
    fn default() -> (r: Report)
        ensures
            r.failures == 0 && r.warnings == 0,
    {
        Report { failures: 0, warnings: 0 }
    }
}

impl Report {
    /// Records a check: `Fail` counts a failure and `Warn` a warning. Gives back the
    /// line to print.
    pub fn line(&mut self, status: Status, label: &str, detail: &str) -> (r: String)
        requires
            status == Status::Fail ==> old(self).failures < usize::MAX,
            status == Status::Warn ==> old(self).warnings < usize::MAX,
        ensures
            final(self).failures == old(self).failures + if status == Status::Fail {
                1int
            } else {
                0
            },
            final(self).warnings == old(self).warnings + if status == Status::Warn {
                1int
            } else {
                0
            },
            r@ == line_text(tag_text(status), label@, detail@),
    {
        match status {
            Status::Fail => self.failures = self.failures + 1,
            Status::Warn => self.warnings = self.warnings + 1,
            _ => {},
        }
        let mut s = String::new();
        push_str(&mut s, "  ");
        push_str(&mut s, status.tag());
        push_str(&mut s, "  ");
        push_str(&mut s, label);
        let n = chars_of(label).len();
        let pad: usize = if n < 34 {
            34 - n
        } else {
            0
        };
        push_repeat(&mut s, ' ', pad);
        push_str(&mut s, detail);
        proof {
            reveal_strlit("  ");
            assert(s@ =~= line_text(tag_text(status), label@, detail@));
        }
        s
    }

    /// An `Ok` line.
    pub fn ok(&mut self, label: &str, detail: &str) -> (r: String)
        ensures
            final(self).failures == old(self).failures,
            final(self).warnings == old(self).warnings,
            r@ == line_text("OK  "@, label@, detail@),
    {
        self.line(Status::Pass, label, detail)
    }

    /// A `Warn` line.
    pub fn warn(&mut self, label: &str, detail: &str) -> (r: String)
        requires
            old(self).warnings < usize::MAX,
        ensures
            final(self).failures == old(self).failures,
            final(self).warnings == old(self).warnings + 1,
            r@ == line_text("WARN"@, label@, detail@),
    {
        self.line(Status::Warn, label, detail)
    }

    /// A `Fail` line.
    pub fn fail(&mut self, label: &str, detail: &str) -> (r: String)
        requires
            old(self).failures < usize::MAX,
        ensures
            final(self).failures == old(self).failures + 1,
            final(self).warnings == old(self).warnings,
            r@ == line_text("FAIL"@, label@, detail@),
    {
        self.line(Status::Fail, label, detail)
    }

    /// An `Info` line: a value, not a judgement.
    pub fn info(&mut self, label: &str, detail: &str) -> (r: String)
        ensures
            final(self).failures == old(self).failures,
            final(self).warnings == old(self).warnings,
            r@ == line_text("    "@, label@, detail@),
    {
        self.line(Status::Info, label, detail)
    }

    /// `Ok` when present, otherwise `Fail` for something load-bearing and `Warn` for
    /// something merely nice to have.
    pub fn presence(&mut self, present: bool, required: bool, label: &str, detail: &str) -> (r:
        String)
        requires
            old(self).failures < usize::MAX,
            old(self).warnings < usize::MAX,
        ensures
            final(self).failures == old(self).failures + if !present && required {
                1int
            } else {
                0
            },
            final(self).warnings == old(self).warnings + if !present && !required {
                1int
            } else {
                0
            },
            r@ == line_text(
                if present {
                    "OK  "@
                } else if required {
                    "FAIL"@
                } else {
                    "WARN"@
                },
                label@,
                detail@,
            ),
    {
        let status = if present {
            Status::Pass
        } else if required {
            Status::Fail
        } else {
            Status::Warn
        };
        self.line(status, label, detail)
    }

    /// The closing summary line.
    pub fn summary(&self) -> (r: String)
        ensures
            r@ == if self.failures == 0 && self.warnings == 0 {
                "all checks passed"@
            } else if self.failures == 0 {
                "no failures, "@ + crate::text::nat_text(self.warnings as nat) + " warning(s)"@
            } else {
                crate::text::nat_text(self.failures as nat) + " failure(s), "@
                    + crate::text::nat_text(self.warnings as nat) + " warning(s)"@
            },
    {
        let mut s = String::new();
        if self.failures == 0 && self.warnings == 0 {
            push_str(&mut s, "all checks passed");
        } else if self.failures == 0 {
            push_str(&mut s, "no failures, ");
            push_nat(&mut s, self.warnings as u64);
            push_str(&mut s, " warning(s)");
        } else {
            push_nat(&mut s, self.failures as u64);
            push_str(&mut s, " failure(s), ");
            push_nat(&mut s, self.warnings as u64);
            push_str(&mut s, " warning(s)");
        }
        s
    }
}

// ---------------------------------------------------------------------------------
// Keyring
// ---------------------------------------------------------------------------------

/// One secret-service collection.
pub struct Collection {
    pub path: String,
    pub label: String,
    pub locked: bool,
    /// The collection the `default` alias resolves to: the one an app that just asks for
    /// "a secret" touches.
    pub is_default: bool,
}

/// The default alias from a `ReadAlias` answer: `/` means the alias is unset.
pub fn default_alias(answer: Option<String>) -> (r: Option<String>)
    ensures
        opt_view(r) == match answer {
            Some(a) => if a@ == seq!['/'] {
                None
            } else {
                Some(a@)
            },
            None => None,
        },
{
    match answer {
        Some(a) => {
            let c = chars_of(a.as_str());
            if c.len() == 1 && c[0] == '/' {
                assert(a@ =~= seq!['/']);
                None
            } else {
                Some(a)
            }
        },
        None => None,
    }
}

/// The collection record from what the service answered: a blank or unreadable label
/// reads `<unnamed>`; an unreadable lock state counts as locked (guessing "unlocked"
/// would hide exactly the prompt worth reporting); it is the default when the default
/// alias names its path.
pub fn collection_of(
    path: String,
    label: Option<String>,
    locked: Option<bool>,
    default: &Option<String>,
) -> (r: Collection)
    ensures
        r.path@ == path@,
        r.label@ == match label {
            Some(l) => if trim(l@).len() > 0 {
                l@
            } else {
                "<unnamed>"@
            },
            None => "<unnamed>"@,
        },
        r.locked == match locked {
            Some(b) => b,
            None => true,
        },
        r.is_default == (opt_view(*default) == Some(path@)),
{
    let label = match label {
        Some(l) => {
            if crate::text::trim_chars(l.as_str()).len() > 0 {
                l
            } else {
                string_from("<unnamed>")
            }
        },
        None => string_from("<unnamed>"),
    };
    let locked = match locked {
        Some(b) => b,
        None => true,
    };
    let is_default = match default {
        Some(d) => crate::text::chars_eq(&chars_of(d.as_str()), &chars_of(path.as_str())),
        None => false,
    };
    Collection { path, label, locked, is_default }
}

/// Where `pam_gnome_keyring.so` may be installed, most specific first.
pub open spec fn keyring_candidate(i: int) -> Seq<char> {
    if i == 0 {
        "/usr/lib64/security/pam_gnome_keyring.so"@
    } else if i == 1 {
        "/usr/lib/x86_64-linux-gnu/security/pam_gnome_keyring.so"@
    } else if i == 2 {
        "/usr/lib/security/pam_gnome_keyring.so"@
    } else {
        "/lib/security/pam_gnome_keyring.so"@
    }
}

/// The places `pam_gnome_keyring.so` may be installed, in the order they are tried.
pub fn keyring_candidates() -> (r: Vec<String>)
    ensures
        r.len() == 4,
        forall|i: int| 0 <= i < 4 ==> #[trigger] r@[i]@ == keyring_candidate(i),
{
    let v = vec![
        string_from("/usr/lib64/security/pam_gnome_keyring.so"),
        string_from("/usr/lib/x86_64-linux-gnu/security/pam_gnome_keyring.so"),
        string_from("/usr/lib/security/pam_gnome_keyring.so"),
        string_from("/lib/security/pam_gnome_keyring.so"),
    ];
    v
}

/// Where `pam_gnome_keyring.so` lives: the first candidate that exists, where
/// `exists[i]` tells whether candidate `i` does; nothing when none does.
pub fn keyring_module(exists: &[bool]) -> (r: Option<String>)
    requires
        exists@.len() == 4,
    ensures
        r is None <==> forall|i: int| 0 <= i < 4 ==> !exists@[i],
        r matches Some(p) ==> exists|i: int|
            0 <= i < 4 && exists@[i] && p@ == keyring_candidate(i) && forall|k: int|
                0 <= k < i ==> !exists@[k],
{
    let c = keyring_candidates();
    let mut i: usize = 0;
    while i < 4
        invariant
            i <= 4,
            exists@.len() == 4,
            c.len() == 4,
            forall|k: int| 0 <= k < 4 ==> #[trigger] c@[k]@ == keyring_candidate(k),
            forall|k: int| 0 <= k < i ==> !exists@[k],
        decreases 4 - i,
    {
        if exists[i] {
            let p = string_from(c[i].as_str());
            assert(c@[i as int]@ == keyring_candidate(i as int));
            return Some(p);
        }
        i += 1;
    }
    None
}

// ---------------------------------------------------------------------------------
// PAM configuration
// ---------------------------------------------------------------------------------

/// `p` occurs in `s`.
pub open spec fn contains_text(s: Seq<char>, p: Seq<char>) -> bool {
    exists|i: int| 0 <= i && i + p.len() <= s.len() && #[trigger] s.subrange(i, i + p.len()) == p
}

/// A PAM line that loads the keyring module: not a comment, and naming
/// `pam_gnome_keyring.so`, once trimmed.
pub open spec fn keyring_line(l: Seq<char>) -> bool {
    let t = trim(l);
    !is_prefix(seq!['#'], t) && contains_text(t, "pam_gnome_keyring.so"@)
}

/// The trimmed keyring lines of a PAM file.
pub open spec fn keyring_lines(lines: Seq<Seq<char>>) -> Seq<Seq<char>> {
    lines.filter(|l: Seq<char>| keyring_line(l)).map_values(|l: Seq<char>| trim(l))
}

/// What a PAM service file does for keyring auto-unlock: nothing when no line loads the
/// module; otherwise whether an `auth` line does (capturing the password and unlocking
/// the collection) and whether a `session` line does (starting the daemon).
pub open spec fn pam_keyring_spec(lines: Seq<Seq<char>>) -> Option<(bool, bool)> {
    let ks = keyring_lines(lines);
    if ks.len() == 0 {
        None
    } else {
        Some(
            (
                exists|i: int| 0 <= i < ks.len() && is_prefix("auth"@, #[trigger] ks[i]),
                exists|i: int| 0 <= i < ks.len() && is_prefix("session"@, #[trigger] ks[i]),
            ),
        )
    }
}

/// Whether `t[start..end]` begins with `p`.
fn range_starts_with(t: &Vec<char>, start: usize, end: usize, p: &Vec<char>) -> (r: bool)
    requires
        start <= end <= t.len(),
    ensures
        r == is_prefix(p@, t@.subrange(start as int, end as int)),
{
    if p.len() > end - start {
        return false;
    }
    let mut k: usize = 0;
    while k < p.len()
        invariant
            k <= p.len(),
            p.len() <= end - start,
            start <= end <= t.len(),
            forall|j: int| 0 <= j < k ==> t@[start + j] == p@[j],
        decreases p.len() - k,
    {
        if t[start + k] != p[k] {
            assert(t@.subrange(start as int, end as int).take(p.len() as int)[k as int] != p@[k as int]);
            return false;
        }
        k += 1;
    }
    assert(t@.subrange(start as int, end as int).take(p.len() as int) =~= p@);
    true
}

/// Whether `p` occurs in `t[start..end]`.
fn range_contains(t: &Vec<char>, start: usize, end: usize, p: &Vec<char>) -> (r: bool)
    requires
        start <= end <= t.len(),
    ensures
        r == contains_text(t@.subrange(start as int, end as int), p@),
{
    let ghost s = t@.subrange(start as int, end as int);
    if p.len() == 0 {
        assert(s.subrange(0, 0 + p@.len() as int) =~= p@);
        return true;
    }
    let mut i: usize = start;
    while p.len() <= end - i
        invariant
            start <= i <= end,
            p.len() >= 1,
            end <= t.len(),
            s == t@.subrange(start as int, end as int),
            forall|j: int| 0 <= j < i - start ==> #[trigger] s.subrange(j, j + p.len()) != p@,
        decreases end - i,
    {
        if range_starts_with(t, i, end, p) {
            assert(s.subrange(i - start, i - start + p.len()) =~= t@.subrange(i as int, end as int).take(
                p.len() as int,
            ));
            return true;
        }
        assert(s.subrange(i - start, i - start + p.len()) =~= t@.subrange(i as int, end as int).take(
            p.len() as int,
        ));
        i += 1;
    }
    proof {
        assert forall|j: int| 0 <= j && j + p.len() <= s.len() implies #[trigger] s.subrange(
            j,
            j + p.len(),
        ) != p@ by {
            assert(j < i - start);
        }
    }
    false
}

/// Whether `p` occurs in `s`, [`contains_text`].
pub fn text_contains(s: &str, p: &str) -> (r: bool)
    ensures
        r == contains_text(s@, p@),
{
    let t = chars_of(s);
    let q = chars_of(p);
    assert(t@.subrange(0, t@.len() as int) =~= t@);
    range_contains(&t, 0, t.len(), &q)
}

/// The bounds of `t[start..end]` without its surrounding whitespace.
fn trim_range(t: &Vec<char>, start: usize, end: usize) -> (r: (usize, usize))
    requires
        start <= end <= t.len(),
    ensures
        start <= r.0 <= r.1 <= end,
        t@.subrange(r.0 as int, r.1 as int) == trim(t@.subrange(start as int, end as int)),
{
    let ghost s = t@.subrange(start as int, end as int);
    let mut a = start;
    assert(s.subrange(0, s.len() as int) =~= s);
    while a < end && crate::text::is_whitespace(t[a])
        invariant
            start <= a <= end,
            end <= t.len(),
            s == t@.subrange(start as int, end as int),
            crate::text::trim_front(s) == crate::text::trim_front(t@.subrange(a as int, end as int)),
        decreases end - a,
    {
        assert(t@.subrange(a as int, end as int).drop_first() =~= t@.subrange(a + 1, end as int));
        a += 1;
    }
    assert(crate::text::trim_front(s) == t@.subrange(a as int, end as int));
    let mut b = end;
    while b > a && crate::text::is_whitespace(t[b - 1])
        invariant
            start <= a <= b <= end,
            end <= t.len(),
            s == t@.subrange(start as int, end as int),
            trim(s) == crate::text::trim_back(t@.subrange(a as int, b as int)),
        decreases b - a,
    {
        assert(t@.subrange(a as int, b as int).drop_last() =~= t@.subrange(a as int, b - 1));
        b -= 1;
    }
    (a, b)
}

/// What a PAM service file's text does for keyring auto-unlock (see
/// [`pam_keyring_spec`]).
pub fn pam_keyring(text: &str) -> (r: Option<(bool, bool)>)
    ensures
        r == pam_keyring_spec(crate::session::text_lines(text@)),
{
    let t = chars_of(text);
    let needle = chars_of("pam_gnome_keyring.so");
    let hash = chars_of("#");
    let auth_w = chars_of("auth");
    let session_w = chars_of("session");
    proof {
        reveal_strlit("#");
        assert(hash@ =~= seq!['#']);
    }
    let n = t.len();
    let mut start: usize = 0;
    let mut any = false;
    let mut auth = false;
    let mut session = false;
    let ghost all = crate::session::text_lines(text@);
    let ghost mut seen: Seq<Seq<char>> = Seq::empty();
    proof {
        assert(t@.skip(0) =~= t@);
        assert(all =~= seen + crate::session::text_lines(t@.skip(0)));
    }
    while start < n
        invariant
            start <= n,
            n == t.len(),
            t@ == text@,
            needle@ == "pam_gnome_keyring.so"@,
            hash@ == seq!['#'],
            auth_w@ == "auth"@,
            session_w@ == "session"@,
            all == crate::session::text_lines(text@),
            all == seen + crate::session::text_lines(t@.skip(start as int)),
            any == (keyring_lines(seen).len() > 0),
            auth == exists|i: int|
                0 <= i < keyring_lines(seen).len() && is_prefix("auth"@, #[trigger] keyring_lines(seen)[i]),
            session == exists|i: int|
                0 <= i < keyring_lines(seen).len() && is_prefix("session"@, #[trigger] keyring_lines(seen)[i]),
        decreases n - start,
    {
        let (line_end, end) = crate::session::next_line(&t, start);
        let ghost line = t@.subrange(start as int, line_end as int);
        let (a, b) = trim_range(&t, start, line_end);
        let ghost tl = t@.subrange(a as int, b as int);
        let is_comment = range_starts_with(&t, a, b, &hash);
        let names = range_contains(&t, a, b, &needle);
        let ghost before = seen;
        if !is_comment && names {
            any = true;
            if range_starts_with(&t, a, b, &auth_w) {
                auth = true;
            }
            if range_starts_with(&t, a, b, &session_w) {
                session = true;
            }
        }
        let ghost auth_before = exists|i: int|
            0 <= i < keyring_lines(before).len() && is_prefix("auth"@, #[trigger] keyring_lines(before)[i]);
        let ghost session_before = exists|i: int|
            0 <= i < keyring_lines(before).len() && is_prefix("session"@, #[trigger] keyring_lines(before)[i]);
        proof {
            seen = seen.push(line);
            lemma_keyring_lines_push(before, line);
            if end < n {
                assert(seen + crate::session::text_lines(t@.skip(end + 1)) =~= before + (seq![line]
                    + crate::session::text_lines(t@.skip(end + 1))));
            }
            let kb = keyring_lines(before);
            let ks = keyring_lines(seen);
            if keyring_line(line) {
                assert(ks =~= kb.push(tl));
                assert(ks[kb.len() as int] == tl);
                assert forall|i: int| 0 <= i < kb.len() implies #[trigger] ks[i] == kb[i] by {}
                lemma_exists_push(kb, tl, "auth"@);
                lemma_exists_push(kb, tl, "session"@);
            } else {
                assert(ks =~= kb);
            }
        }
        if end >= n {
            proof {
                assert(all =~= seen);
            }
            start = n;
        } else {
            start = end + 1;
        }
    }
    proof {
        assert(t@.skip(start as int) =~= Seq::<char>::empty());
        assert(all =~= seen);
    }
    if any {
        Some((auth, session))
    } else {
        None
    }
}

/// A line of a list one longer begins with `w` when one of the shorter list does or the
/// new one does.
proof fn lemma_exists_push(v: Seq<Seq<char>>, x: Seq<char>, w: Seq<char>)
    ensures
        (exists|i: int| 0 <= i < v.push(x).len() && is_prefix(w, #[trigger] v.push(x)[i])) == ((
        exists|i: int| 0 <= i < v.len() && is_prefix(w, #[trigger] v[i])) || is_prefix(w, x)),
{
    let u = v.push(x);
    if exists|i: int| 0 <= i < u.len() && is_prefix(w, #[trigger] u[i]) {
        let i = choose|i: int| 0 <= i < u.len() && is_prefix(w, #[trigger] u[i]);
        if i < v.len() {
            assert(u[i] == v[i]);
        }
    }
    if exists|i: int| 0 <= i < v.len() && is_prefix(w, #[trigger] v[i]) {
        let i = choose|i: int| 0 <= i < v.len() && is_prefix(w, #[trigger] v[i]);
        assert(u[i] == v[i]);
    }
    if is_prefix(w, x) {
        assert(u[v.len() as int] == x);
    }
}

/// Adding a line adds its trimmed text to the keyring lines when it is one.
proof fn lemma_keyring_lines_push(lines: Seq<Seq<char>>, l: Seq<char>)
    ensures
        keyring_lines(lines.push(l)) == if keyring_line(l) {
            keyring_lines(lines).push(trim(l))
        } else {
            keyring_lines(lines)
        },
{
    lines.lemma_filter_push(l, |x: Seq<char>| keyring_line(x));
    let f = lines.filter(|x: Seq<char>| keyring_line(x));
    if keyring_line(l) {
        assert(f.push(l).map_values(|x: Seq<char>| trim(x)) =~= f.map_values(|x: Seq<char>| trim(x)).push(
            trim(l),
        ));
    }
}

/// The text of a PAM service record: its name, and its `auth` and `session` flags.
pub open spec fn service_view(e: (String, bool, bool)) -> (Seq<char>, bool, bool) {
    (e.0@, e.1, e.2)
}

/// The texts of a list of PAM service records.
pub open spec fn service_views(v: Seq<(String, bool, bool)>) -> Seq<(Seq<char>, bool, bool)> {
    v.map_values(|e: (String, bool, bool)| service_view(e))
}

/// Tuple order on service records: by name, then `auth`, then `session`, `false` first.
pub open spec fn service_lt(a: (Seq<char>, bool, bool), b: (Seq<char>, bool, bool)) -> bool {
    text_lt(a.0, b.0) || (a.0 == b.0 && ((!a.1 && b.1) || (a.1 == b.1 && !a.2 && b.2)))
}

proof fn lemma_service_lt(a: (Seq<char>, bool, bool), b: (Seq<char>, bool, bool), c: (
    Seq<char>,
    bool,
    bool,
))
    ensures
        !(service_lt(a, b) && service_lt(b, a)),
        service_lt(a, b) && service_lt(b, c) ==> service_lt(a, c),
{
    lemma_text_lt_total(a.0, b.0);
    lemma_text_lt_total(a.0, c.0);
    lemma_text_lt_total(b.0, c.0);
    if text_lt(a.0, b.0) && text_lt(b.0, c.0) {
        lemma_text_lt_trans(a.0, b.0, c.0);
    }
}

/// Whether service record `a` sorts strictly before `b`.
fn service_less(a: &(String, bool, bool), b: &(String, bool, bool)) -> (r: bool)
    ensures
        r == service_lt(service_view(*a), service_view(*b)),
{
    let x = chars_of(a.0.as_str());
    let y = chars_of(b.0.as_str());
    if chars_lt(&x, &y) {
        return true;
    }
    if !crate::text::chars_eq(&x, &y) {
        return false;
    }
    (!a.1 && b.1) || (a.1 == b.1 && !a.2 && b.2)
}

/// Sorted: no record sorts before one in front of it.
pub open spec fn services_sorted(v: Seq<(Seq<char>, bool, bool)>) -> bool {
    forall|i: int, j: int| 0 <= i < j < v.len() ==> !service_lt(#[trigger] v[j], #[trigger] v[i])
}

/// The PAM service records sorted by name, then flags, as the tuples' order sorts them.
pub fn sort_services(v: Vec<(String, bool, bool)>) -> (r: Vec<(String, bool, bool)>)
    ensures
        services_sorted(service_views(r@)),
        service_views(r@).to_multiset() == service_views(v@).to_multiset(),
{
    let mut out: Vec<(String, bool, bool)> = Vec::new();
    let mut rest = v;
    let ghost orig = service_views(rest@);
    let n0 = rest.len();
    proof {
        assert(service_views(out@) =~= Seq::empty());
        assert(orig.skip(0) =~= orig);
        assert(orig.take(0) =~= Seq::<(Seq<char>, bool, bool)>::empty());
        assert(orig.len() == n0);
    }
    let mut taken: usize = 0;
    while rest.len() > 0
        invariant
            orig.len() <= usize::MAX,
            taken + rest@.len() == orig.len(),
            service_views(rest@) == orig.skip(taken as int),
            services_sorted(service_views(out@)),
            service_views(out@).to_multiset() == orig.take(taken as int).to_multiset(),
        decreases rest.len(),
    {
        let ghost rv = service_views(rest@);
        let e = rest.remove(0);
        proof {
            assert(rv[0] == service_view(e));
            assert(service_views(rest@) =~= rv.drop_first());
            assert(orig.skip(taken + 1) =~= orig.skip(taken as int).drop_first());
            assert(orig.take(taken + 1) =~= orig.take(taken as int).push(service_view(e)));
            orig.take(taken as int).to_multiset_ensures();
        }
        let mut k: usize = 0;
        while k < out.len() && !service_less(&e, &out[k])
            invariant
                k <= out.len(),
                services_sorted(service_views(out@)),
                forall|i: int| 0 <= i < k ==> !service_lt(service_view(e), #[trigger] service_views(out@)[i]),
            decreases out.len() - k,
        {
            k += 1;
        }
        let ghost w0 = service_views(out@);
        let ghost x = service_view(e);
        out.insert(k, e);
        proof {
            let w = service_views(out@);
            assert(w =~= w0.insert(k as int, x));
            vstd::seq_lib::to_multiset_insert(w0, k as int, x);
            assert forall|i: int, j: int| 0 <= i < j < w.len() implies !service_lt(
                #[trigger] w[j],
                #[trigger] w[i],
            ) by {
                if j < k {
                    assert(w[i] == w0[i] && w[j] == w0[j]);
                } else if j == k {
                    assert(w[i] == w0[i] && w[j] == x);
                } else if i == k {
                    assert(w[i] == x && w[j] == w0[j - 1]);
                    lemma_service_lt(w0[j - 1], x, w0[k as int]);
                    assert(service_lt(x, w0[k as int]));
                    if j - 1 > k {
                        assert(!service_lt(w0[j - 1], w0[k as int]));
                    }
                } else if i < k {
                    assert(w[i] == w0[i] && w[j] == w0[j - 1]);
                } else {
                    assert(w[i] == w0[i - 1] && w[j] == w0[j - 1]);
                }
            }
        }
        taken += 1;
    }
    proof {
        assert(orig.take(taken as int) =~= orig);
    }
    out
}

} // verus!
