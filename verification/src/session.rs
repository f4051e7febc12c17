//! The window subject's session bookkeeping: which session-management namespace it
//! binds, how the compositor answered, and the tiny `id<TAB>value` store whose value is
//! keyed by the compositor-minted session id (so its return after a relaunch can only be
//! explained by the compositor handing back the same id).

use vstd::prelude::*;

use crate::config::{join_path, opt_view};
use crate::portal::before_char;
use crate::text::{chars_eq, chars_of, push_char, push_str, string_from, string_of};

verus! {

/// Which namespace the subject binds; separate globals, so a compositor may advertise
/// one, both or neither.
#[derive(Clone, Copy, Debug, PartialEq, Eq, Structural)]
pub enum Namespace {
    /// `xdg_session_manager_v1`: the current staging name.
    Xdg,
    /// `xx_session_manager_v1`: the pre-rename name.
    Xx,
}

/// The short label of a namespace.
pub open spec fn namespace_label(n: Namespace) -> Seq<char> {
    match n {
        Namespace::Xdg => "xdg"@,
        Namespace::Xx => "xx"@,
    }
}

impl Namespace {
    /// The short label shown in the overlay.
    pub fn label(self) -> (r: &'static str)
        ensures
            r@ == namespace_label(self),
    {
        match self {
            Namespace::Xdg => "xdg",
            Namespace::Xx => "xx",
        }
    }

    /// The global's interface name.
    pub fn global(self) -> (r: &'static str)
        ensures
            r@ == match self {
                Namespace::Xdg => "xdg_session_manager_v1"@,
                Namespace::Xx => "xx_session_manager_v1"@,
            },
    {
        match self {
            Namespace::Xdg => "xdg_session_manager_v1",
            Namespace::Xx => "xx_session_manager_v1",
        }
    }
}

/// How the compositor answered the session request.
#[derive(Clone, Copy, Debug, PartialEq, Eq, Structural)]
pub enum SessionPhase {
    /// No session global, or sessions disabled.
    Absent,
    /// Asked, still waiting.
    Pending,
    /// The compositor did not know the session: a fresh value was made.
    Created,
    /// The compositor knew the session and the toplevel: the value came back.
    Restored,
}

/// The label of a phase.
pub open spec fn phase_label(p: SessionPhase) -> Seq<char> {
    match p {
        SessionPhase::Absent => "ABSENT"@,
        SessionPhase::Pending => "PENDING"@,
        SessionPhase::Created => "NEW"@,
        SessionPhase::Restored => "RESTORED"@,
    }
}

impl SessionPhase {
    /// The label shown in the overlay.
    pub fn label(self) -> (r: &'static str)
        ensures
            r@ == phase_label(self),
    {
        match self {
            SessionPhase::Absent => "ABSENT",
            SessionPhase::Pending => "PENDING",
            SessionPhase::Created => "NEW",
            SessionPhase::Restored => "RESTORED",
        }
    }
}

/// Everything the subject knows about its own session.
pub struct SessionState {
    pub phase: SessionPhase,
    /// The id the compositor minted or accepted.
    pub id: Option<String>,
    /// The value keyed by that id; never passed on the command line.
    pub value: Option<String>,
    /// The toplevel's name inside the session.
    pub name: String,
    /// The store file's path.
    pub store: String,
    pub ns: Namespace,
}

impl SessionState {
    /// A session not yet bound: pending when sessions are enabled, else absent.
    pub fn new(name: String, store: String, ns: Namespace, enabled: bool) -> (r: SessionState)
        ensures
            r.phase == if enabled {
                SessionPhase::Pending
            } else {
                SessionPhase::Absent
            },
            r.id is None,
            r.value is None,
            r.name == name,
            r.store == store,
            r.ns == ns,
    {
        SessionState {
            phase: if enabled {
                SessionPhase::Pending
            } else {
                SessionPhase::Absent
            },
            id: None,
            value: None,
            name,
            store,
            ns,
        }
    }

    /// Binds the session `id`: its value is the one stored under it (`existing`) or,
    /// when there is none, the freshly minted `fresh`. Tells whether the store had one;
    /// this is the store's answer, independent of the compositor's.
    pub fn bind(&mut self, id: String, existing: Option<String>, fresh: String) -> (restored: bool)
        ensures
            restored == existing is Some,
            final(self).id == Some(id),
            final(self).value == Some(
                match existing {
                    Some(v) => v,
                    None => fresh,
                },
            ),
            final(self).phase == old(self).phase,
            final(self).name == old(self).name,
            final(self).store == old(self).store,
            final(self).ns == old(self).ns,
    {
        let restored = existing.is_some();
        let value = match existing {
            Some(v) => v,
            None => fresh,
        };
        self.id = Some(id);
        self.value = Some(value);
        restored
    }

    /// The one-line overlay summary: namespace, the first 8 characters of the id, the
    /// phase, and the value, with `-` for what is unknown.
    pub fn overlay(&self) -> (r: String)
        ensures
            r@ == "SESSION["@ + namespace_label(self.ns) + "] "@ + (match self.id {
                Some(i) => i@.take(if i@.len() < 8 {
                    i@.len() as int
                } else {
                    8
                }),
                None => seq!['-'],
            }) + " ["@ + phase_label(self.phase) + "] VALUE "@ + (match self.value {
                Some(v) => v@,
                None => seq!['-'],
            }),
    {
        let mut s = String::new();
        push_str(&mut s, "SESSION[");
        push_str(&mut s, self.ns.label());
        push_str(&mut s, "] ");
        match &self.id {
            Some(i) => {
                let c = chars_of(i.as_str());
                let n: usize = if c.len() < 8 {
                    c.len()
                } else {
                    8
                };
                let mut k: usize = 0;
                let ghost base = s@;
                while k < n
                    invariant
                        k <= n,
                        n <= c.len(),
                        s@ == base + c@.take(k as int),
                    decreases n - k,
                {
                    push_char(&mut s, c[k]);
                    k += 1;
                    assert(s@ =~= base + c@.take(k as int));
                }
            },
            None => push_char(&mut s, '-'),
        }
        push_str(&mut s, " [");
        push_str(&mut s, self.phase.label());
        push_str(&mut s, "] VALUE ");
        match &self.value {
            Some(v) => push_str(&mut s, v.as_str()),
            None => push_char(&mut s, '-'),
        }
        s
    }
}

/// The store line for `id` and its value: `id<TAB>value` and a newline, written as one
/// piece so concurrent appends cannot interleave within it.
pub fn store_line(id: &str, value: &str) -> (r: String)
    ensures
        r@ == id@ + seq!['\t'] + value@ + seq!['\n'],
{
    let mut s = string_from(id);
    push_char(&mut s, '\t');
    push_str(&mut s, value);
    push_char(&mut s, '\n');
    s
}

/// The lines of a text, as `str::lines` gives them: split at `\n`, a `\r` right before
/// it dropped, and no empty last line for a text that ends with a line ending.
pub open spec fn text_lines(s: Seq<char>) -> Seq<Seq<char>>
    decreases s.len(),
{
    if s.len() == 0 {
        Seq::empty()
    } else {
        let k = before_char(s, '\n');
        if k >= s.len() {
            seq![s]
        } else {
            let line = s.take(k as int);
            let line = if line.len() > 0 && line.last() == '\r' {
                line.drop_last()
            } else {
                line
            };
            proof {
                crate::portal::lemma_before_char_bound(s, '\n');
            }
            seq![line] + text_lines(s.skip(k as int + 1))
        }
    }
}

/// The value stored for `id` in a store text: the first line that splits at its first tab
/// into `id` and a value. Lines without a tab are skipped.
pub open spec fn stored_in(lines: Seq<Seq<char>>, id: Seq<char>) -> Option<Seq<char>>
    decreases lines.len(),
{
    if lines.len() == 0 {
        None
    } else {
        match line_value(lines[0], id) {
            Some(v) => Some(v),
            None => stored_in(lines.drop_first(), id),
        }
    }
}

/// The value a single store line holds for `id`: what follows its first tab, when what
/// precedes it is `id`.
pub open spec fn line_value(l: Seq<char>, id: Seq<char>) -> Option<Seq<char>> {
    let k = before_char(l, '\t');
    if k < l.len() && l.take(k as int) == id {
        Some(l.skip(k as int + 1))
    } else {
        None
    }
}

/// The line that starts at `start`, and where the next one starts.
pub(crate) fn next_line(t: &Vec<char>, start: usize) -> (r: (usize, usize))
    requires
        start < t.len(),
    ensures
        start <= r.0 <= r.1 <= t.len(),
        r.1 < t.len() ==> text_lines(t@.skip(start as int)) == seq![
            t@.subrange(start as int, r.0 as int),
        ] + text_lines(t@.skip(r.1 + 1)),
        r.1 >= t.len() ==> text_lines(t@.skip(start as int)) == seq![
            t@.subrange(start as int, r.0 as int),
        ],
{
    let n = t.len();
    let ghost rest = t@.skip(start as int);
    let mut end: usize = start;
    assert(rest.skip(0) =~= rest);
    while end < n && t[end] != '\n'
        invariant
            start <= end <= n,
            n == t.len(),
            rest == t@.skip(start as int),
            before_char(rest, '\n') == (end - start) + before_char(rest.skip(end - start), '\n'),
        decreases n - end,
    {
        assert(rest.skip(end - start)[0] == t@[end as int]);
        assert(rest.skip(end - start).drop_first() =~= rest.skip(end - start + 1));
        end += 1;
    }
    proof {
        if end < n {
            assert(rest.skip(end - start)[0] == t@[end as int]);
        } else {
            assert(rest.skip(end - start).len() == 0);
        }
        crate::portal::lemma_before_char_bound(rest, '\n');
    }
    let mut line_end = end;
    if end < n && end > start && t[end - 1] == '\r' {
        line_end = end - 1;
    }
    proof {
        let line = t@.subrange(start as int, line_end as int);
        let k = before_char(rest, '\n');
        assert(k == end - start);
        if end < n {
            let raw = rest.take(k as int);
            if raw.len() > 0 && raw.last() == '\r' {
                assert(raw.drop_last() =~= line);
            } else {
                assert(raw =~= line);
            }
            assert(rest.skip(k as int + 1) =~= t@.skip(end + 1));
        } else {
            assert(rest =~= line);
        }
    }
    (line_end, end)
}

/// The value the line `t[start..line_end]` holds for `key`.
fn line_entry(t: &Vec<char>, start: usize, line_end: usize, key: &Vec<char>) -> (r: Option<String>)
    requires
        start <= line_end <= t.len(),
    ensures
        opt_view(r) == line_value(t@.subrange(start as int, line_end as int), key@),
{
    let ghost line = t@.subrange(start as int, line_end as int);
    let mut tab = start;
    assert(line.skip(0) =~= line);
    while tab < line_end && t[tab] != '\t'
        invariant
            start <= tab <= line_end,
            line_end <= t.len(),
            line == t@.subrange(start as int, line_end as int),
            before_char(line, '\t') == (tab - start) + before_char(line.skip(tab - start), '\t'),
        decreases line_end - tab,
    {
        assert(line.skip(tab - start)[0] == t@[tab as int]);
        assert(line.skip(tab - start).drop_first() =~= line.skip(tab - start + 1));
        tab += 1;
    }
    proof {
        if tab < line_end {
            assert(line.skip(tab - start)[0] == t@[tab as int]);
        } else {
            assert(line.skip(tab - start).len() == 0);
        }
    }
    if tab >= line_end {
        return None;
    }
    let mut k: Vec<char> = Vec::new();
    let mut j = start;
    while j < tab
        invariant
            start <= j <= tab,
            tab < line_end <= t.len(),
            k@ == t@.subrange(start as int, j as int),
        decreases tab - j,
    {
        k.push(t[j]);
        j += 1;
        assert(k@ =~= t@.subrange(start as int, j as int));
    }
    assert(line.take(tab - start) =~= k@);
    if !chars_eq(&k, key) {
        return None;
    }
    let mut v: Vec<char> = Vec::new();
    let mut j = tab + 1;
    while j < line_end
        invariant
            tab + 1 <= j <= line_end,
            line_end <= t.len(),
            v@ == t@.subrange(tab + 1, j as int),
        decreases line_end - j,
    {
        v.push(t[j]);
        j += 1;
        assert(v@ =~= t@.subrange(tab + 1, j as int));
    }
    assert(line.skip(tab - start + 1) =~= v@);
    Some(string_of(&v))
}

/// The value the store text holds for `id`, if any.
pub fn stored_value(text: &str, id: &str) -> (r: Option<String>)
    ensures
        opt_view(r) == stored_in(text_lines(text@), id@),
{
    let t = chars_of(text);
    let key = chars_of(id);
    let n = t.len();
    let mut start: usize = 0;
    proof {
        assert(t@.skip(0) =~= t@);
    }
    while start < n
        invariant
            start <= n,
            n == t.len(),
            t@ == text@,
            key@ == id@,
            stored_in(text_lines(text@), id@) == stored_in(text_lines(t@.skip(start as int)), id@),
        decreases n - start,
    {
        let (line_end, end) = next_line(&t, start);
        let ghost line = t@.subrange(start as int, line_end as int);
        let ghost tail = if end < n {
            text_lines(t@.skip(end + 1))
        } else {
            Seq::<Seq<char>>::empty()
        };
        proof {
            assert(seq![line] + tail =~= text_lines(t@.skip(start as int))) by {
                if end >= n {
                    assert(seq![line] + tail =~= seq![line]);
                }
            }
            assert((seq![line] + tail)[0] == line);
            assert((seq![line] + tail).drop_first() =~= tail);
        }
        match line_entry(&t, start, line_end, &key) {
            Some(v) => {
                return Some(v);
            },
            None => {},
        }
        proof {
            assert(stored_in(seq![line] + tail, id@) == stored_in(tail, id@));
        }
        if end >= n {
            assert(stored_in(tail, id@) is None);
            return None;
        }
        start = end + 1;
    }
    proof {
        assert(t@.skip(start as int) =~= Seq::<char>::empty());
    }
    None
}

/// Uppercase hexadecimal digit for `d < 16`.
pub open spec fn hex_digit(d: int) -> char {
    if d < 10 {
        ((48 + d) as u8) as char
    } else {
        ((55 + d) as u8) as char
    }
}

/// `n` as eight uppercase hexadecimal digits (`{:08X}`).
pub open spec fn hex8_text(n: u32) -> Seq<char> {
    Seq::new(8, |i: int| hex_digit(((n as int) / pow16(7 - i)) % 16))
}

/// `16^e`.
pub open spec fn pow16(e: int) -> int
    decreases e,
{
    if e <= 0 {
        1
    } else {
        16 * pow16(e - 1)
    }
}

proof fn lemma_pow16_pos(e: int)
    ensures
        pow16(e) >= 1,
    decreases e,
{
    if e > 0 {
        lemma_pow16_pos(e - 1);
    }
}

/// `n` as eight uppercase hexadecimal digits, the way a session value is minted.
pub fn hex8(n: u32) -> (r: String)
    ensures
        r@ == hex8_text(n),
{
    let mut s = String::new();
    let mut i: u32 = 0;
    let mut div: u32 = 0x1000_0000;
    proof {
        reveal_with_fuel(pow16, 8);
        assert(s@ =~= hex8_text(n).take(0));
    }
    while i < 8
        invariant
            i <= 8,
            div >= 1,
            div as int == pow16(7 - i),
            s@ == hex8_text(n).take(i as int),
        decreases 8 - i,
    {
        let d = (n / div) % 16;
        let c = if d < 10 {
            ((48 + d) as u8) as char
        } else {
            ((55 + d) as u8) as char
        };
        assert(c == hex8_text(n)[i as int]);
        push_char(&mut s, c);
        proof {
            assert(s@ =~= hex8_text(n).take(i + 1));
            if i < 7 {
                assert(pow16(7 - i) == 16 * pow16(7 - i - 1));
                lemma_pow16_pos(7 - i - 1);
            }
        }
        if i < 7 {
            div = div / 16;
        }
        i += 1;
    }
    assert(hex8_text(n).take(8) =~= hex8_text(n));
    s
}

/// The store file's path: `y5-window-stress-sessions.txt` under `XDG_STATE_HOME`, or
/// under `/tmp` when that is unset.
pub fn store_path(state_home: Option<String>) -> (r: String)
    ensures
        r@ == join_path(
            match state_home {
                Some(h) => h@,
                None => "/tmp"@,
            },
            "y5-window-stress-sessions.txt"@,
        ),
{
    let mut base = match state_home {
        Some(h) => h,
        None => string_from("/tmp"),
    };
    crate::config::push_component(&mut base, "y5-window-stress-sessions.txt");
    base
}

/// The characters before the first `c` are the same in `a + b` when `a` holds a `c`.
proof fn lemma_before_char_concat(a: Seq<char>, b: Seq<char>, c: char)
    requires
        before_char(a, c) < a.len(),
    ensures
        before_char(a + b, c) == before_char(a, c),
    decreases a.len(),
{
    if a[0] != c {
        assert((a + b).drop_first() =~= a.drop_first() + b);
        lemma_before_char_concat(a.drop_first(), b, c);
    }
}

/// No character of `s` is `c`: the count before the first `c` is the whole length.
proof fn lemma_before_char_absent(s: Seq<char>, c: char)
    requires
        !s.contains(c),
    ensures
        before_char(s, c) == s.len(),
    decreases s.len(),
{
    if s.len() > 0 {
        assert(s[0] != c);
        assert forall|i: int| 0 <= i < s.drop_first().len() implies s.drop_first()[i] != c by {
            assert(s.drop_first()[i] == s[i + 1]);
        }
        lemma_before_char_absent(s.drop_first(), c);
    }
}

/// A text that ends with a line ending splits into its lines and then those of what
/// follows.
proof fn lemma_lines_concat(a: Seq<char>, b: Seq<char>)
    requires
        a.len() == 0 || a.last() == '\n',
    ensures
        text_lines(a + b) == text_lines(a) + text_lines(b),
    decreases a.len(),
{
    if a.len() == 0 {
        assert(a + b =~= b);
        assert(text_lines(a) =~= Seq::<Seq<char>>::empty());
        assert(text_lines(a) + text_lines(b) =~= text_lines(b));
    } else {
        let k = before_char(a, '\n');
        crate::portal::lemma_before_char_bound(a, '\n');
        if k == a.len() {
            lemma_before_char_last(a);
        }
        lemma_before_char_concat(a, b, '\n');
        let rest = a.skip(k as int + 1);
        assert((a + b).take(k as int) =~= a.take(k as int));
        assert((a + b).skip(k as int + 1) =~= rest + b);
        if rest.len() > 0 {
            assert(rest.last() == a.last());
        }
        lemma_lines_concat(rest, b);
        assert(text_lines(a + b) =~= text_lines(a) + text_lines(b));
    }
}

/// A non-empty text ending in `\n` has a `\n` before its end.
proof fn lemma_before_char_last(a: Seq<char>)
    requires
        a.len() > 0,
        a.last() == '\n',
    ensures
        before_char(a, '\n') < a.len(),
    decreases a.len(),
{
    if a[0] != '\n' {
        assert(a.drop_first().last() == a.last());
        lemma_before_char_last(a.drop_first());
    }
}

/// The first match in a list of lines is in the first part when there is one there.
proof fn lemma_stored_concat(a: Seq<Seq<char>>, b: Seq<Seq<char>>, id: Seq<char>)
    ensures
        stored_in(a + b, id) == match stored_in(a, id) {
            Some(v) => Some(v),
            None => stored_in(b, id),
        },
    decreases a.len(),
{
    if a.len() == 0 {
        assert(a + b =~= b);
    } else {
        assert((a + b)[0] == a[0]);
        assert((a + b).drop_first() =~= a.drop_first() + b);
        lemma_stored_concat(a.drop_first(), b, id);
    }
}

/// Appending the store line of `id` and `value` to a store text that ends at a line
/// boundary: the text then holds `value` for `id`, unless it already held one, which is
/// kept (the first match wins). `id` holds no tab or newline and `value` no newline nor
/// a final carriage return, as for a session id and a minted value.
pub proof fn lemma_store_append(text: Seq<char>, id: Seq<char>, value: Seq<char>)
    requires
        text.len() == 0 || text.last() == '\n',
        !id.contains('\t'),
        !id.contains('\n'),
        !value.contains('\n'),
        value.len() == 0 || value.last() != '\r',
    ensures
        stored_in(text_lines(text + (id + seq!['\t'] + value + seq!['\n'])), id) == match stored_in(
            text_lines(text),
            id,
        ) {
            Some(v) => Some(v),
            None => Some(value),
        },
{
    let l = id + seq!['\t'] + value;
    let line = l + seq!['\n'];
    assert(id + seq!['\t'] + value + seq!['\n'] == line);
    lemma_lines_concat(text, line);
    // The appended line reads back as one line.
    assert(!l.contains('\n')) by {
        assert forall|i: int| 0 <= i < l.len() implies l[i] != '\n' by {
            if i < id.len() {
                assert(l[i] == id[i]);
            } else if i > id.len() {
                assert(l[i] == value[i - id.len() - 1]);
            }
        }
    }
    lemma_before_char_absent(l, '\n');
    assert(line.take(l.len() as int) =~= l);
    assert(line[l.len() as int] == '\n');
    lemma_before_char_split(l, seq!['\n'], '\n');
    assert(line.skip(l.len() as int + 1) =~= Seq::<char>::empty());
    if value.len() > 0 {
        assert(l.last() == value.last());
    } else {
        assert(l.last() == '\t');
    }
    assert(!(l.len() > 0 && l.last() == '\r'));
    assert(before_char(seq!['\n'], '\n') == 0);
    assert(before_char(line, '\n') == l.len());
    assert(text_lines(line.skip(l.len() as int + 1)) =~= Seq::<Seq<char>>::empty());
    assert(text_lines(line) =~= seq![l] + Seq::<Seq<char>>::empty());
    assert(text_lines(line) =~= seq![l]);
    // The line holds `value` for `id`.
    lemma_before_char_absent(id, '\t');
    lemma_before_char_split(id, seq!['\t'] + value, '\t');
    assert(id + seq!['\t'] + value =~= id + (seq!['\t'] + value));
    assert((seq!['\t'] + value)[0] == '\t');
    assert(before_char(seq!['\t'] + value, '\t') == 0);
    assert(l.take(id.len() as int) =~= id);
    assert(l.skip(id.len() as int + 1) =~= value);
    assert(line_value(l, id) == Some(value));
    lemma_stored_concat(text_lines(text), seq![l], id);
    assert(seq![l].drop_first() =~= Seq::<Seq<char>>::empty());
}

/// Before the first `c` of `a + b` where `a` has none: all of `a`, then what `b` has.
proof fn lemma_before_char_split(a: Seq<char>, b: Seq<char>, c: char)
    requires
        before_char(a, c) == a.len(),
    ensures
        before_char(a + b, c) == a.len() + before_char(b, c),
    decreases a.len(),
{
    if a.len() == 0 {
        assert(a + b =~= b);
    } else {
        assert((a + b).drop_first() =~= a.drop_first() + b);
        lemma_before_char_split(a.drop_first(), b, c);
    }
}

} // verus!
