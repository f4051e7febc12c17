//! Character-level building blocks shared by the wire codecs: Unicode whitespace,
//! whitespace tokenization, decimal integers (printing and std-compatible parsing),
//! and comparisons against string literals.

use vstd::prelude::*;

verus! {

// ---------------------------------------------------------------------------------
// Strings
// ---------------------------------------------------------------------------------

/// Appends one character (std's `String::push`).
#[verifier::external_body]
pub(crate) fn push_char(s: &mut String, c: char)
    ensures
        final(s)@ == old(s)@.push(c),
{
    s.push(c);
}

/// Appends a string slice (std's `String::push_str`).
#[verifier::external_body]
pub(crate) fn push_str(s: &mut String, t: &str)
    ensures
        final(s)@ == old(s)@ + t@,
{
    s.push_str(t);
}

/// The characters of `s`, in order.
pub fn chars_of(s: &str) -> (r: Vec<char>)
    ensures
        r@ == s@,
{
    let mut out: Vec<char> = Vec::new();
    for c in it: s.chars()
        invariant
            out@ == it.seq().take(it.index() as int),
            it.seq() == s@,
    {
        out.push(c);
    }
    out
}

/// A `String` holding the characters of `s`.
pub fn string_from(s: &str) -> (r: String)
    ensures
        r@ == s@,
{
    let mut out = String::new();
    push_str(&mut out, s);
    assert(out@ =~= s@);
    out
}

/// A `String` holding exactly the characters of `v`.
pub fn string_of(v: &Vec<char>) -> (r: String)
    ensures
        r@ == v@,
{
    let mut s = String::new();
    let mut i: usize = 0;
    while i < v.len()
        invariant
            i <= v.len(),
            s@ == v@.take(i as int),
        decreases v.len() - i,
    {
        push_char(&mut s, v[i]);
        i += 1;
        assert(s@ =~= v@.take(i as int));
    }
    assert(v@.take(v.len() as int) =~= v@);
    s
}

/// Whether the characters in `t` spell exactly `lit`.
pub fn chars_eq_str(t: &Vec<char>, lit: &str) -> (r: bool)
    ensures
        r == (t@ == lit@),
{
    let l = chars_of(lit);
    if t.len() != l.len() {
        return false;
    }
    let mut i: usize = 0;
    while i < t.len()
        invariant
            i <= t.len(),
            t.len() == l.len(),
            l@ == lit@,
            forall|k: int| 0 <= k < i ==> t@[k] == l@[k],
        decreases t.len() - i,
    {
        if t[i] != l[i] {
            return false;
        }
        i += 1;
    }
    assert(t@ =~= l@);
    true
}

/// Whether the characters in `a` and `b` are the same.
pub fn chars_eq(a: &Vec<char>, b: &Vec<char>) -> (r: bool)
    ensures
        r == (a@ == b@),
{
    if a.len() != b.len() {
        return false;
    }
    let mut i: usize = 0;
    while i < a.len()
        invariant
            i <= a.len(),
            a.len() == b.len(),
            forall|k: int| 0 <= k < i ==> a@[k] == b@[k],
        decreases a.len() - i,
    {
        if a[i] != b[i] {
            return false;
        }
        i += 1;
    }
    assert(a@ =~= b@);
    true
}

/// The texts of a list of strings.
pub open spec fn texts_of(v: Seq<String>) -> Seq<Seq<char>> {
    v.map_values(|s: String| s@)
}

/// `s` without its leading whitespace.
pub open spec fn trim_front(s: Seq<char>) -> Seq<char>
    decreases s.len(),
{
    if s.len() > 0 && is_ws(s[0]) {
        trim_front(s.drop_first())
    } else {
        s
    }
}

/// `s` without its trailing whitespace.
pub open spec fn trim_back(s: Seq<char>) -> Seq<char>
    decreases s.len(),
{
    if s.len() > 0 && is_ws(s.last()) {
        trim_back(s.drop_last())
    } else {
        s
    }
}

/// `s` without leading and trailing whitespace (std's `str::trim`).
pub open spec fn trim(s: Seq<char>) -> Seq<char> {
    trim_back(trim_front(s))
}

/// The characters of `s` without leading and trailing whitespace.
pub fn trim_chars(s: &str) -> (r: Vec<char>)
    ensures
        r@ == trim(s@),
{
    let v = chars_of(s);
    let n = v.len();
    let mut i: usize = 0;
    assert(v@.subrange(0, n as int) =~= v@);
    while i < n && is_whitespace(v[i])
        invariant
            i <= n,
            n == v.len(),
            trim_front(v@) == trim_front(v@.subrange(i as int, n as int)),
        decreases n - i,
    {
        assert(v@.subrange(i as int, n as int).drop_first() =~= v@.subrange(i + 1, n as int));
        i += 1;
    }
    assert(trim_front(v@) == v@.subrange(i as int, n as int));
    let mut j: usize = n;
    while j > i && is_whitespace(v[j - 1])
        invariant
            i <= j <= n,
            n == v.len(),
            trim(v@) == trim_back(v@.subrange(i as int, j as int)),
        decreases j - i,
    {
        assert(v@.subrange(i as int, j as int).drop_last() =~= v@.subrange(i as int, j - 1));
        j -= 1;
    }
    let mut out: Vec<char> = Vec::new();
    let mut k: usize = i;
    while k < j
        invariant
            i <= k <= j,
            j <= n,
            n == v.len(),
            out@ == v@.subrange(i as int, k as int),
        decreases j - k,
    {
        out.push(v[k]);
        k += 1;
        assert(out@ =~= v@.subrange(i as int, k as int));
    }
    out
}

/// `s` without leading and trailing whitespace, as a `String`.
pub fn trim_string(s: &str) -> (r: String)
    ensures
        r@ == trim(s@),
{
    let v = trim_chars(s);
    string_of(&v)
}

/// Whether `p` is a prefix of `s`.
pub open spec fn is_prefix(p: Seq<char>, s: Seq<char>) -> bool {
    p.len() <= s.len() && s.take(p.len() as int) == p
}

/// Whether the characters of `s` begin with those of `p` (std's `starts_with`).
pub fn starts_with_chars(s: &Vec<char>, p: &Vec<char>) -> (r: bool)
    ensures
        r == is_prefix(p@, s@),
{
    if p.len() > s.len() {
        return false;
    }
    let mut i: usize = 0;
    while i < p.len()
        invariant
            i <= p.len(),
            p.len() <= s.len(),
            forall|k: int| 0 <= k < i ==> s@[k] == p@[k],
        decreases p.len() - i,
    {
        if s[i] != p[i] {
            assert(s@.take(p.len() as int)[i as int] != p@[i as int]);
            return false;
        }
        i += 1;
    }
    assert(s@.take(p.len() as int) =~= p@);
    true
}

// ---------------------------------------------------------------------------------
// Whitespace and tokens
// ---------------------------------------------------------------------------------

/// Unicode `White_Space`, which is what std's `char::is_whitespace` tests.
pub open spec fn is_ws(c: char) -> bool {
    let u = c as u32;
    (9 <= u && u <= 13) || u == 32 || u == 0x85 || u == 0xA0 || u == 0x1680
        || (0x2000 <= u && u <= 0x200A) || u == 0x2028 || u == 0x2029 || u == 0x202F
        || u == 0x205F || u == 0x3000
}

/// Executable [`is_ws`].
pub fn is_whitespace(c: char) -> (r: bool)
    ensures
        r == is_ws(c),
{
    let u = c as u32;
    (9 <= u && u <= 13) || u == 32 || u == 0x85 || u == 0xA0 || u == 0x1680
        || (0x2000 <= u && u <= 0x200A) || u == 0x2028 || u == 0x2029 || u == 0x202F
        || u == 0x205F || u == 0x3000
}

/// No character of `s` is whitespace.
pub open spec fn no_ws(s: Seq<char>) -> bool {
    forall|i: int| 0 <= i < s.len() ==> !is_ws(#[trigger] s[i])
}

/// Length of the run of non-whitespace characters that starts `s`.
pub open spec fn word_len(s: Seq<char>) -> nat
    decreases s.len(),
{
    if s.len() == 0 || is_ws(s[0]) {
        0
    } else {
        1 + word_len(s.drop_first())
    }
}

/// The whitespace-separated words of `s`, in order (std's `split_whitespace`).
pub open spec fn split_ws(s: Seq<char>) -> Seq<Seq<char>>
    decreases s.len(),
{
    if s.len() == 0 {
        Seq::empty()
    } else if is_ws(s[0]) {
        split_ws(s.drop_first())
    } else {
        let n = word_len(s);
        proof {
            lemma_word_len_bound(s);
        }
        if n == 0 {
            Seq::empty()
        } else {
            seq![s.take(n as int)] + split_ws(s.skip(n as int))
        }
    }
}

/// The words joined by single spaces (`join(" ")`).
pub open spec fn join_sp(ws: Seq<Seq<char>>) -> Seq<char>
    decreases ws.len(),
{
    if ws.len() == 0 {
        Seq::empty()
    } else if ws.len() == 1 {
        ws[0]
    } else {
        ws[0] + seq![' '] + join_sp(ws.drop_first())
    }
}

/// Every word is non-empty and free of whitespace.
pub open spec fn plain_words(ws: Seq<Seq<char>>) -> bool {
    forall|i: int| 0 <= i < ws.len() ==> #[trigger] ws[i].len() > 0 && no_ws(ws[i])
}

/// The character views of a vector of character vectors.
pub open spec fn views(v: Seq<Vec<char>>) -> Seq<Seq<char>> {
    v.map_values(|t: Vec<char>| t@)
}

pub proof fn lemma_word_len_bound(s: Seq<char>)
    ensures
        word_len(s) <= s.len(),
        forall|k: int| 0 <= k < word_len(s) ==> !is_ws(#[trigger] s[k]),
        word_len(s) < s.len() ==> is_ws(s[word_len(s) as int]),
    decreases s.len(),
{
    if s.len() > 0 && !is_ws(s[0]) {
        lemma_word_len_bound(s.drop_first());
        assert forall|k: int| 0 <= k < word_len(s) implies !is_ws(#[trigger] s[k]) by {
            if k > 0 {
                assert(s[k] == s.drop_first()[k - 1]);
            }
        }
        if word_len(s) < s.len() {
            assert(s[word_len(s) as int] == s.drop_first()[word_len(s) - 1]);
        }
    }
}

proof fn lemma_word_len_concat(w: Seq<char>, rest: Seq<char>)
    requires
        no_ws(w),
        rest.len() == 0 || is_ws(rest[0]),
    ensures
        word_len(w + rest) == w.len(),
    decreases w.len(),
{
    if w.len() == 0 {
        assert(w + rest =~= rest);
    } else {
        assert((w + rest).drop_first() =~= w.drop_first() + rest);
        assert((w + rest)[0] == w[0]);
        lemma_word_len_concat(w.drop_first(), rest);
    }
}

/// Splitting a leading word off: `w` followed by whitespace (or nothing) is one token.
pub proof fn lemma_split_word(w: Seq<char>, rest: Seq<char>)
    requires
        w.len() > 0,
        no_ws(w),
        rest.len() == 0 || is_ws(rest[0]),
    ensures
        split_ws(w + rest) == seq![w] + split_ws(rest),
{
    let s = w + rest;
    lemma_word_len_concat(w, rest);
    assert(s[0] == w[0]);
    assert(s.take(w.len() as int) =~= w);
    assert(s.skip(w.len() as int) =~= rest);
}

/// Tokenizing words joined by single spaces gives the words back.
pub proof fn lemma_split_join(ws: Seq<Seq<char>>)
    requires
        plain_words(ws),
    ensures
        split_ws(join_sp(ws)) == ws,
    decreases ws.len(),
{
    if ws.len() == 0 {
    } else {
        let w = ws[0];
        assert(w.len() > 0 && no_ws(w));
        let tail = ws.drop_first();
        if ws.len() == 1 {
            lemma_split_word(w, Seq::empty());
            assert(w + Seq::<char>::empty() =~= w);
            assert(split_ws(Seq::<char>::empty()) == Seq::<Seq<char>>::empty());
            assert(ws =~= seq![w]);
        } else {
            assert(plain_words(tail)) by {
                assert forall|i: int| 0 <= i < tail.len() implies #[trigger] tail[i].len() > 0
                    && no_ws(tail[i]) by {
                    assert(tail[i] == ws[i + 1]);
                }
            }
            lemma_split_join(tail);
            let rest = seq![' '] + join_sp(tail);
            lemma_split_word(w, rest);
            assert(join_sp(ws) == w + rest) by {
                assert(w + seq![' '] + join_sp(tail) =~= w + rest);
            }
            lemma_split_step_ws(rest, 0);
            assert(rest.skip(0) =~= rest);
            assert(rest.skip(1) =~= join_sp(tail));
            assert(ws =~= seq![w] + tail);
        }
    }
}

proof fn lemma_split_step_ws(s: Seq<char>, i: int)
    requires
        0 <= i < s.len(),
        is_ws(s[i]),
    ensures
        split_ws(s.skip(i)) == split_ws(s.skip(i + 1)),
{
    assert(s.skip(i)[0] == s[i]);
    assert(s.skip(i).drop_first() =~= s.skip(i + 1));
}

proof fn lemma_split_step_word(s: Seq<char>, i: int, j: int)
    requires
        0 <= i < j <= s.len(),
        forall|k: int| i <= k < j ==> !is_ws(#[trigger] s[k]),
        j == s.len() || is_ws(s[j]),
    ensures
        split_ws(s.skip(i)) == seq![s.subrange(i, j)] + split_ws(s.skip(j)),
{
    let w = s.subrange(i, j);
    let rest = s.skip(j);
    assert(no_ws(w)) by {
        assert forall|k: int| 0 <= k < w.len() implies !is_ws(#[trigger] w[k]) by {
            assert(w[k] == s[i + k]);
        }
    }
    if j < s.len() {
        assert(rest[0] == s[j]);
    }
    assert(s.skip(i) =~= w + rest);
    lemma_split_word(w, rest);
}

/// The whitespace-separated words of `line` (std's `split_whitespace`).
pub fn split_whitespace(line: &str) -> (r: Vec<Vec<char>>)
    ensures
        views(r@) == split_ws(line@),
{
    let s = chars_of(line);
    let n = s.len();
    let mut out: Vec<Vec<char>> = Vec::new();
    let mut i: usize = 0;
    assert(s@.skip(0) =~= s@);
    while i < n
        invariant
            i <= n,
            n == s.len(),
            s@ == line@,
            views(out@) + split_ws(s@.skip(i as int)) == split_ws(s@),
        decreases n - i,
    {
        if is_whitespace(s[i]) {
            proof {
                lemma_split_step_ws(s@, i as int);
            }
            i += 1;
        } else {
            let start = i;
            let mut word: Vec<char> = Vec::new();
            while i < n && !is_whitespace(s[i])
                invariant
                    start <= i <= n,
                    n == s.len(),
                    word@ == s@.subrange(start as int, i as int),
                    forall|k: int| start <= k < i ==> !is_ws(#[trigger] s@[k]),
                decreases n - i,
            {
                word.push(s[i]);
                i += 1;
                assert(word@ =~= s@.subrange(start as int, i as int));
            }
            proof {
                lemma_split_step_word(s@, start as int, i as int);
            }
            let ghost before = views(out@);
            out.push(word);
            proof {
                assert(views(out@) =~= before.push(s@.subrange(start as int, i as int)));
                assert(views(out@) + split_ws(s@.skip(i as int)) =~= before + (seq![
                    s@.subrange(start as int, i as int),
                ] + split_ws(s@.skip(i as int))));
            }
        }
    }
    assert(s@.skip(n as int) =~= Seq::<char>::empty());
    assert(views(out@) + Seq::<Seq<char>>::empty() =~= views(out@));
    out
}

/// The words of `toks` from index `from` on, joined by single spaces.
pub fn join_from(toks: &Vec<Vec<char>>, from: usize) -> (r: String)
    requires
        from <= toks.len(),
    ensures
        r@ == join_sp(views(toks@).skip(from as int)),
{
    let mut s = String::new();
    let mut i = from;
    if i >= toks.len() {
        assert(views(toks@).skip(from as int) =~= Seq::<Seq<char>>::empty());
        return s;
    }
    let ghost all = views(toks@).skip(from as int);
    // Build left to right; the remaining suffix is joined onto what is built.
    let first = string_of(&toks[i]);
    s = first;
    i += 1;
    proof {
        assert(all[0] == toks@[from as int]@);
        assert(all.drop_first() =~= views(toks@).skip(i as int));
        lemma_join_tail(all[0], all.drop_first());
        if all.len() > 1 {
            assert(join_sp(all) == all[0] + seq![' '] + join_sp(all.drop_first()));
        } else {
            assert(join_sp(all) == all[0]);
        }
    }
    while i < toks.len()
        invariant
            from < i <= toks.len(),
            all == views(toks@).skip(from as int),
            join_sp(all) == join_tail(s@, views(toks@).skip(i as int)),
        decreases toks.len() - i,
    {
        let ghost old_s = s@;
        let ghost rest = views(toks@).skip(i as int);
        proof {
            assert(rest[0] == toks@[i as int]@);
            assert(rest.drop_first() =~= views(toks@).skip(i + 1));
            assert(join_tail(old_s, rest) == join_tail(old_s + seq![' '] + rest[0], rest.drop_first()));
        }
        push_char(&mut s, ' ');
        let w = string_of(&toks[i]);
        push_str(&mut s, w.as_str());
        i += 1;
        assert(s@ =~= old_s + seq![' '] + rest[0]);
    }
    proof {
        assert(views(toks@).skip(i as int) =~= Seq::<Seq<char>>::empty());
    }
    s
}

/// `acc` followed by each word of `rest`, each preceded by a space.
pub open spec fn join_tail(acc: Seq<char>, rest: Seq<Seq<char>>) -> Seq<char>
    decreases rest.len(),
{
    if rest.len() == 0 {
        acc
    } else {
        join_tail(acc + seq![' '] + rest[0], rest.drop_first())
    }
}

proof fn lemma_join_tail(acc: Seq<char>, ws: Seq<Seq<char>>)
    ensures
        join_tail(acc, ws) == if ws.len() == 0 {
            acc
        } else {
            acc + seq![' '] + join_sp(ws)
        },
    decreases ws.len(),
{
    if ws.len() > 0 {
        lemma_join_tail(acc + seq![' '] + ws[0], ws.drop_first());
        if ws.len() > 1 {
            assert(acc + seq![' '] + ws[0] + seq![' '] + join_sp(ws.drop_first()) =~= acc + seq![
                ' ',
            ] + join_sp(ws));
        }
    }
}

// ---------------------------------------------------------------------------------
// Decimal integers
// ---------------------------------------------------------------------------------

/// An ASCII decimal digit.
pub open spec fn is_digit(c: char) -> bool {
    48 <= c as u32 && c as u32 <= 57
}

/// Every character is an ASCII decimal digit.
pub open spec fn all_digits(s: Seq<char>) -> bool {
    forall|i: int| 0 <= i < s.len() ==> is_digit(#[trigger] s[i])
}

/// The value of a digit string, most significant first.
pub open spec fn digits_value(s: Seq<char>) -> int
    decreases s.len(),
{
    if s.len() == 0 {
        0
    } else {
        digits_value(s.drop_last()) * 10 + (s.last() as u32 - 48)
    }
}

/// The token carries a leading minus that the type accepts.
pub open spec fn int_neg(s: Seq<char>, signed: bool) -> bool {
    signed && s.len() > 0 && s[0] == '-'
}

/// The token without its accepted leading sign.
pub open spec fn int_body(s: Seq<char>, signed: bool) -> Seq<char> {
    if s.len() > 0 && (s[0] == '+' || int_neg(s, signed)) {
        s.drop_first()
    } else {
        s
    }
}

/// What std's `FromStr` gives for an integer type with range `lo..=hi`: an optional
/// `+` (or `-` for signed types), then one or more ASCII digits, with the value in range.
pub open spec fn parse_int_spec(s: Seq<char>, signed: bool, lo: int, hi: int) -> Option<int> {
    let neg = int_neg(s, signed);
    let body = int_body(s, signed);
    if body.len() == 0 || !all_digits(body) {
        None
    } else {
        let v = if neg {
            -digits_value(body)
        } else {
            digits_value(body)
        };
        if lo <= v && v <= hi {
            Some(v)
        } else {
            None
        }
    }
}

/// The character for digit `d` (`0..=9`).
pub open spec fn digit_char(d: int) -> char {
    if d == 0 {
        '0'
    } else if d == 1 {
        '1'
    } else if d == 2 {
        '2'
    } else if d == 3 {
        '3'
    } else if d == 4 {
        '4'
    } else if d == 5 {
        '5'
    } else if d == 6 {
        '6'
    } else if d == 7 {
        '7'
    } else if d == 8 {
        '8'
    } else {
        '9'
    }
}

proof fn lemma_digit_char(d: int)
    requires
        0 <= d < 10,
    ensures
        digit_char(d) as u32 == 48 + d,
{
    if d == 0 {
        assert('0' as u32 == 48);
    } else if d == 1 {
        assert('1' as u32 == 49);
    } else if d == 2 {
        assert('2' as u32 == 50);
    } else if d == 3 {
        assert('3' as u32 == 51);
    } else if d == 4 {
        assert('4' as u32 == 52);
    } else if d == 5 {
        assert('5' as u32 == 53);
    } else if d == 6 {
        assert('6' as u32 == 54);
    } else if d == 7 {
        assert('7' as u32 == 55);
    } else if d == 8 {
        assert('8' as u32 == 56);
    } else {
        assert('9' as u32 == 57);
    }
}

/// Decimal text of a natural number, no leading zeros (`Display`).
pub open spec fn nat_text(n: nat) -> Seq<char>
    decreases n,
{
    if n < 10 {
        seq![digit_char(n as int)]
    } else {
        nat_text(n / 10).push(digit_char((n % 10) as int))
    }
}

/// Decimal text of an integer, with a leading `-` when negative (`Display`).
pub open spec fn int_text(n: int) -> Seq<char> {
    if n < 0 {
        seq!['-'] + nat_text((-n) as nat)
    } else {
        nat_text(n as nat)
    }
}

/// Properties of [`nat_text`]: digits only, non-empty, and its value is `n`.
pub proof fn lemma_nat_text(n: nat)
    ensures
        nat_text(n).len() > 0,
        all_digits(nat_text(n)),
        digits_value(nat_text(n)) == n,
        no_ws(nat_text(n)),
    decreases n,
{
    lemma_digit_char((n % 10) as int);
    if n < 10 {
        let t = nat_text(n);
        assert(t.drop_last() =~= Seq::<char>::empty());
        assert(digits_value(t.drop_last()) == 0);
        assert(t.last() == digit_char(n as int));
        assert(digits_value(t) == n);
    }
    if n >= 10 {
        lemma_nat_text(n / 10);
        let t = nat_text(n);
        assert(t.drop_last() =~= nat_text(n / 10));
        assert(t.last() == digit_char((n % 10) as int));
        assert(digits_value(t) == (n / 10) * 10 + n % 10);
        assert(all_digits(t)) by {
            assert forall|i: int| 0 <= i < t.len() implies is_digit(#[trigger] t[i]) by {
                if i < t.len() - 1 {
                    assert(t[i] == nat_text(n / 10)[i]);
                }
            }
        }
    }
    let t = nat_text(n);
    assert(no_ws(t)) by {
        assert forall|i: int| 0 <= i < t.len() implies !is_ws(#[trigger] t[i]) by {
            assert(is_digit(t[i]));
        }
    }
}

/// Properties of [`int_text`]: non-empty and free of whitespace.
pub proof fn lemma_int_text_plain(n: int)
    ensures
        int_text(n).len() > 0,
        no_ws(int_text(n)),
{
    if n < 0 {
        lemma_nat_text((-n) as nat);
        let t = int_text(n);
        assert forall|i: int| 0 <= i < t.len() implies !is_ws(#[trigger] t[i]) by {
            if i > 0 {
                assert(t[i] == nat_text((-n) as nat)[i - 1]);
            }
        }
    } else {
        lemma_nat_text(n as nat);
    }
}

/// Parsing the printed form of an in-range integer gives the integer back.
pub proof fn lemma_int_round_trip(n: int, signed: bool, lo: int, hi: int)
    requires
        lo <= n <= hi,
        n < 0 ==> signed,
    ensures
        parse_int_spec(int_text(n), signed, lo, hi) == Some(n),
{
    if n < 0 {
        let t = int_text(n);
        lemma_nat_text((-n) as nat);
        assert(t.drop_first() =~= nat_text((-n) as nat));
    } else {
        let t = nat_text(n as nat);
        lemma_nat_text(n as nat);
        assert(is_digit(t[0]));
    }
}

proof fn lemma_digits_value_prefix(s: Seq<char>, k: int)
    requires
        0 <= k <= s.len(),
        all_digits(s),
    ensures
        digits_value(s) >= digits_value(s.take(k)),
        digits_value(s.take(k)) >= 0,
    decreases s.len(),
{
    if s.len() == 0 {
        assert(s.take(k) =~= s);
    } else if k == s.len() {
        assert(s.take(k) =~= s);
        lemma_digits_value_prefix(s.drop_last(), k - 1);
    } else {
        lemma_digits_value_prefix(s.drop_last(), k);
        assert(s.drop_last().take(k) =~= s.take(k));
        lemma_digits_value_prefix(s.drop_last(), 0);
    }
}

proof fn lemma_digits_value_step(s: Seq<char>, i: int)
    requires
        0 <= i < s.len(),
    ensures
        digits_value(s.take(i + 1)) == digits_value(s.take(i)) * 10 + (s[i] as u32 - 48),
{
    assert(s.take(i + 1).drop_last() =~= s.take(i));
}

/// The character for digit `d`.
pub fn digit_to_char(d: u64) -> (c: char)
    requires
        d < 10,
    ensures
        c == digit_char(d as int),
        is_digit(c),
        c as u32 - 48 == d,
{
    match d {
        0 => '0',
        1 => '1',
        2 => '2',
        3 => '3',
        4 => '4',
        5 => '5',
        6 => '6',
        7 => '7',
        8 => '8',
        _ => '9',
    }
}

/// Appends the decimal text of `n`.
pub fn push_nat(s: &mut String, n: u64)
    ensures
        final(s)@ == old(s)@ + nat_text(n as nat),
    decreases n,
{
    if n >= 10 {
        push_nat(s, n / 10);
    }
    let c = digit_to_char(n % 10);
    push_char(s, c);
    proof {
        if n >= 10 {
            assert(nat_text(n as nat) == nat_text((n / 10) as nat).push(digit_char((n % 10) as int)));
        }
    }
}

/// Appends the decimal text of `n`, as `Display` prints it.
pub fn push_int(s: &mut String, n: i64)
    requires
        n > i64::MIN,
    ensures
        final(s)@ == old(s)@ + int_text(n as int),
{
    if n < 0 {
        push_char(s, '-');
        push_nat(s, (-n) as u64);
    } else {
        push_nat(s, n as u64);
    }
}

/// Parses an integer token the way std's `FromStr` does for a type whose range is
/// `lo..=hi` (signed types accept a leading `-`).
pub fn parse_int(t: &Vec<char>, signed: bool, lo: i64, hi: i64) -> (r: Option<i64>)
    requires
        -0x1_0000_0000 <= lo <= hi <= 0x1_0000_0000,
    ensures
        match r {
            Some(v) => parse_int_spec(t@, signed, lo as int, hi as int) == Some(v as int),
            None => parse_int_spec(t@, signed, lo as int, hi as int) is None,
        },
{
    let n = t.len();
    if n == 0 {
        return None;
    }
    let neg = signed && t[0] == '-';
    let start: usize = if t[0] == '+' || neg {
        1
    } else {
        0
    };
    if start == n {
        return None;
    }
    let ghost body = if start == 1 {
        t@.drop_first()
    } else {
        t@
    };
    assert(body =~= t@.subrange(start as int, n as int));
    assert(body == int_body(t@, signed));
    assert(neg == int_neg(t@, signed));
    let mut val: u64 = 0;
    let mut i = start;
    while i < n
        invariant
            start <= i <= n,
            n == t.len(),
            body == t@.subrange(start as int, n as int),
            body == int_body(t@, signed),
            neg == int_neg(t@, signed),
            -0x1_0000_0000 <= lo <= hi <= 0x1_0000_0000,
            all_digits(body.take(i - start)),
            val as int == digits_value(body.take(i - start)),
            val <= 0x2_0000_0000,
        decreases n - i,
    {
        let c = t[i];
        if !(48 <= c as u32 && c as u32 <= 57) {
            assert(body[i - start] == c);
            assert(!is_digit(body[i - start]));
            return None;
        }
        proof {
            lemma_digits_value_step(body, i - start);
            assert(all_digits(body.take(i - start + 1))) by {
                assert forall|k: int| 0 <= k < i - start + 1 implies is_digit(
                    #[trigger] body.take(i - start + 1)[k],
                ) by {
                    if k < i - start {
                        assert(body.take(i - start + 1)[k] == body.take(i - start)[k]);
                    }
                }
            }
        }
        val = val * 10 + (c as u32 - 48) as u64;
        i += 1;
        if val > 0x2_0000_0000 {
            proof {
                if all_digits(body) {
                    lemma_digits_value_prefix(body, i - start);
                }
            }
            return None;
        }
    }
    assert(body.take(n - start) =~= body);
    assert(body.len() > 0 && all_digits(body));
    assert(val as int == digits_value(body));
    let v: i64 = if neg {
        -(val as i64)
    } else {
        val as i64
    };
    if lo <= v && v <= hi {
        Some(v)
    } else {
        None
    }
}

// ---------------------------------------------------------------------------------
// Wire lines: a verb followed by space-separated arguments
// ---------------------------------------------------------------------------------

/// Joining one more word appends a space and the word.
pub proof fn lemma_join_push(ws: Seq<Seq<char>>, w: Seq<char>)
    requires
        ws.len() > 0,
    ensures
        join_sp(ws.push(w)) == join_sp(ws) + seq![' '] + w,
    decreases ws.len(),
{
    if ws.len() == 1 {
        assert(ws.push(w).drop_first() =~= seq![w]);
        assert(join_sp(ws.push(w)) == ws[0] + seq![' '] + join_sp(seq![w]));
    } else {
        lemma_join_push(ws.drop_first(), w);
        assert(ws.push(w).drop_first() =~= ws.drop_first().push(w));
        assert(ws[0] + seq![' '] + (join_sp(ws.drop_first()) + seq![' '] + w) =~= ws[0] + seq![
            ' ',
        ] + join_sp(ws.drop_first()) + seq![' '] + w);
    }
}

/// The string holding `w`, the one-word line.
pub fn line_of(w: &str) -> (r: String)
    ensures
        r@ == join_sp(seq![w@]),
{
    let mut s = String::new();
    push_str(&mut s, w);
    assert(s@ =~= w@);
    s
}

/// Appends a space and then `w`, extending a line by one word.
pub(crate) fn push_word(s: &mut String, w: &str, Ghost(ws): Ghost<Seq<Seq<char>>>)
    requires
        ws.len() > 0,
        old(s)@ == join_sp(ws),
    ensures
        final(s)@ == join_sp(ws.push(w@)),
{
    push_char(s, ' ');
    push_str(s, w);
    proof {
        lemma_join_push(ws, w@);
    }
}

/// Appends a space and then the decimal text of `n`, extending a line by one word.
pub(crate) fn push_int_word(s: &mut String, n: i64, Ghost(ws): Ghost<Seq<Seq<char>>>)
    requires
        ws.len() > 0,
        old(s)@ == join_sp(ws),
        n > i64::MIN,
    ensures
        final(s)@ == join_sp(ws.push(int_text(n as int))),
{
    push_char(s, ' ');
    push_int(s, n);
    proof {
        lemma_join_push(ws, int_text(n as int));
        assert(final(s)@ =~= join_sp(ws) + seq![' '] + int_text(n as int));
    }
}

/// The line `verb w`.
pub fn line_word(v: &str, w: &str) -> (r: String)
    ensures
        r@ == join_sp(seq![v@, w@]),
{
    let mut s = line_of(v);
    let ghost ws = seq![v@];
    push_word(&mut s, w, Ghost(ws));
    assert(seq![v@].push(w@) =~= seq![v@, w@]);
    s
}

/// The line `verb a`.
pub fn line_int(v: &str, a: i64) -> (r: String)
    requires
        a > i64::MIN,
    ensures
        r@ == join_sp(seq![v@, int_text(a as int)]),
{
    let mut s = line_of(v);
    let ghost ws = seq![v@];
    push_int_word(&mut s, a, Ghost(ws));
    assert(seq![v@].push(int_text(a as int)) =~= seq![v@, int_text(a as int)]);
    s
}

/// The line `verb a b`.
pub fn line_int2(v: &str, a: i64, b: i64) -> (r: String)
    requires
        a > i64::MIN,
        b > i64::MIN,
    ensures
        r@ == join_sp(seq![v@, int_text(a as int), int_text(b as int)]),
{
    let mut s = line_int(v, a);
    let ghost ws = seq![v@, int_text(a as int)];
    push_int_word(&mut s, b, Ghost(ws));
    assert(seq![v@, int_text(a as int)].push(int_text(b as int)) =~= seq![
        v@,
        int_text(a as int),
        int_text(b as int),
    ]);
    s
}

/// The line `verb a b c`.
pub fn line_int3(v: &str, a: i64, b: i64, c: i64) -> (r: String)
    requires
        a > i64::MIN,
        b > i64::MIN,
        c > i64::MIN,
    ensures
        r@ == join_sp(seq![v@, int_text(a as int), int_text(b as int), int_text(c as int)]),
{
    let mut s = line_int2(v, a, b);
    let ghost ws = seq![v@, int_text(a as int), int_text(b as int)];
    push_int_word(&mut s, c, Ghost(ws));
    assert(seq![v@, int_text(a as int), int_text(b as int)].push(int_text(c as int)) =~= seq![
        v@,
        int_text(a as int),
        int_text(b as int),
        int_text(c as int),
    ]);
    s
}

/// The line `verb a b c d`.
pub fn line_int4(v: &str, a: i64, b: i64, c: i64, d: i64) -> (r: String)
    requires
        a > i64::MIN,
        b > i64::MIN,
        c > i64::MIN,
        d > i64::MIN,
    ensures
        r@ == join_sp(
            seq![v@, int_text(a as int), int_text(b as int), int_text(c as int), int_text(d as int)],
        ),
{
    let mut s = line_int3(v, a, b, c);
    let ghost ws = seq![v@, int_text(a as int), int_text(b as int), int_text(c as int)];
    push_int_word(&mut s, d, Ghost(ws));
    assert(seq![v@, int_text(a as int), int_text(b as int), int_text(c as int)].push(
        int_text(d as int),
    ) =~= seq![v@, int_text(a as int), int_text(b as int), int_text(c as int), int_text(d as int)]);
    s
}

/// The line `verb a b c d e`.
pub fn line_int5(v: &str, a: i64, b: i64, c: i64, d: i64, e: i64) -> (r: String)
    requires
        a > i64::MIN,
        b > i64::MIN,
        c > i64::MIN,
        d > i64::MIN,
        e > i64::MIN,
    ensures
        r@ == join_sp(
            seq![
                v@,
                int_text(a as int),
                int_text(b as int),
                int_text(c as int),
                int_text(d as int),
                int_text(e as int),
            ],
        ),
{
    let mut s = line_int4(v, a, b, c, d);
    let ghost ws = seq![v@, int_text(a as int), int_text(b as int), int_text(c as int), int_text(d as int)];
    push_int_word(&mut s, e, Ghost(ws));
    assert(ws.push(int_text(e as int)) =~= seq![
        v@,
        int_text(a as int),
        int_text(b as int),
        int_text(c as int),
        int_text(d as int),
        int_text(e as int),
    ]);
    s
}

/// The `k`-th word, if there is one.
pub open spec fn word_at(ws: Seq<Seq<char>>, k: int) -> Option<Seq<char>> {
    if 0 <= k < ws.len() {
        Some(ws[k])
    } else {
        None
    }
}

/// The `k`-th word read as an integer of range `lo..=hi`, if it is there and parses.
pub open spec fn int_at(ws: Seq<Seq<char>>, k: int, signed: bool, lo: int, hi: int) -> Option<int> {
    if 0 <= k < ws.len() {
        parse_int_spec(ws[k], signed, lo, hi)
    } else {
        None
    }
}

/// Executable [`int_at`].
pub fn int_arg(toks: &Vec<Vec<char>>, k: usize, signed: bool, lo: i64, hi: i64) -> (r: Option<i64>)
    requires
        -0x1_0000_0000 <= lo <= hi <= 0x1_0000_0000,
    ensures
        match r {
            Some(v) => int_at(views(toks@), k as int, signed, lo as int, hi as int) == Some(v as int)
                && lo <= v <= hi,
            None => int_at(views(toks@), k as int, signed, lo as int, hi as int) is None,
        },
{
    if k < toks.len() {
        assert(views(toks@)[k as int] == toks@[k as int]@);
        parse_int(&toks[k], signed, lo, hi)
    } else {
        None
    }
}

/// Whether the `k`-th word is exactly `lit`.
pub fn word_is(toks: &Vec<Vec<char>>, k: usize, lit: &str) -> (r: bool)
    ensures
        r == (word_at(views(toks@), k as int) == Some(lit@)),
{
    if k < toks.len() {
        assert(views(toks@)[k as int] == toks@[k as int]@);
        chars_eq_str(&toks[k], lit)
    } else {
        false
    }
}

/// The on/off words: `on`, `1` or `true` read as on; `off`, `0` or `false` as off.
pub open spec fn on_of(w: Seq<char>) -> Option<bool> {
    if w == "on"@ || w == "1"@ || w == "true"@ {
        Some(true)
    } else if w == "off"@ || w == "0"@ || w == "false"@ {
        Some(false)
    } else {
        None
    }
}

/// The `k`-th word read as on/off.
pub open spec fn on_at(ws: Seq<Seq<char>>, k: int) -> Option<bool> {
    match word_at(ws, k) {
        Some(w) => on_of(w),
        None => None,
    }
}

/// Executable [`on_at`].
pub fn on_arg(toks: &Vec<Vec<char>>, k: usize) -> (r: Option<bool>)
    ensures
        r == on_at(views(toks@), k as int),
{
    if word_is(toks, k, "on") || word_is(toks, k, "1") || word_is(toks, k, "true") {
        Some(true)
    } else if word_is(toks, k, "off") || word_is(toks, k, "0") || word_is(toks, k, "false") {
        Some(false)
    } else {
        None
    }
}

/// The word `on` or `off`.
pub open spec fn on_word(on: bool) -> Seq<char> {
    if on {
        "on"@
    } else {
        "off"@
    }
}

/// Reading back an on/off word gives the flag.
pub proof fn lemma_on_word(on: bool)
    ensures
        on_of(on_word(on)) == Some(on),
        on_word(on).len() > 0,
        no_ws(on_word(on)),
{
    reveal_strlit("on");
    reveal_strlit("off");
    reveal_strlit("1");
    reveal_strlit("true");
    assert("on"@.len() == 2);
    assert("off"@.len() == 3);
    assert("1"@.len() == 1);
    assert("true"@.len() == 4);
    if !on {
        assert("off"@ != "on"@);
        assert("off"@ != "1"@);
        assert("off"@ != "true"@);
    }
}

/// The line `verb a w`.
pub fn line_int_word(v: &str, a: i64, w: &str) -> (r: String)
    requires
        a > i64::MIN,
    ensures
        r@ == join_sp(seq![v@, int_text(a as int), w@]),
{
    let mut s = line_int(v, a);
    let ghost ws = seq![v@, int_text(a as int)];
    push_word(&mut s, w, Ghost(ws));
    assert(ws.push(w@) =~= seq![v@, int_text(a as int), w@]);
    s
}

/// The line `verb a b c d e w x`.
pub fn line_int5_word2(v: &str, a: i64, b: i64, c: i64, d: i64, e: i64, w: &str, x: &str) -> (r:
    String)
    requires
        a > i64::MIN,
        b > i64::MIN,
        c > i64::MIN,
        d > i64::MIN,
        e > i64::MIN,
    ensures
        r@ == join_sp(
            seq![
                v@,
                int_text(a as int),
                int_text(b as int),
                int_text(c as int),
                int_text(d as int),
                int_text(e as int),
                w@,
                x@,
            ],
        ),
{
    let mut s = line_int5(v, a, b, c, d, e);
    let ghost ws = seq![
        v@,
        int_text(a as int),
        int_text(b as int),
        int_text(c as int),
        int_text(d as int),
        int_text(e as int),
    ];
    push_word(&mut s, w, Ghost(ws));
    push_word(&mut s, x, Ghost(ws.push(w@)));
    assert(ws.push(w@).push(x@) =~= seq![
        v@,
        int_text(a as int),
        int_text(b as int),
        int_text(c as int),
        int_text(d as int),
        int_text(e as int),
        w@,
        x@,
    ]);
    s
}

/// The line `verb a` followed by a space and free text.
pub fn line_int_text(v: &str, a: i64, t: &str) -> (r: String)
    requires
        a > i64::MIN,
    ensures
        r@ == join_sp(seq![v@, int_text(a as int)]) + seq![' '] + t@,
{
    let mut s = line_int(v, a);
    push_char(&mut s, ' ');
    push_str(&mut s, t);
    s
}

/// The line `verb` followed by a space and free text.
pub fn line_text(v: &str, t: &str) -> (r: String)
    ensures
        r@ == join_sp(seq![v@]) + seq![' '] + t@,
{
    let mut s = line_of(v);
    push_char(&mut s, ' ');
    push_str(&mut s, t);
    s
}

/// Words followed by a space and free text split into those words and the text's own.
pub proof fn lemma_split_join_text(ws: Seq<Seq<char>>, t: Seq<char>)
    requires
        ws.len() > 0,
        plain_words(ws),
    ensures
        split_ws(join_sp(ws) + seq![' '] + t) == ws + split_ws(t),
    decreases ws.len(),
{
    let w = ws[0];
    assert(w.len() > 0 && no_ws(w));
    if ws.len() == 1 {
        let rest = seq![' '] + t;
        lemma_split_word(w, rest);
        assert(join_sp(ws) + seq![' '] + t =~= w + rest);
        lemma_split_step_ws(rest, 0);
        assert(rest.skip(0) =~= rest);
        assert(rest.skip(1) =~= t);
        assert(ws =~= seq![w]);
    } else {
        let tail = ws.drop_first();
        assert(plain_words(tail)) by {
            assert forall|i: int| 0 <= i < tail.len() implies #[trigger] tail[i].len() > 0
                && no_ws(tail[i]) by {
                assert(tail[i] == ws[i + 1]);
            }
        }
        lemma_split_join_text(tail, t);
        let rest = seq![' '] + (join_sp(tail) + seq![' '] + t);
        lemma_split_word(w, rest);
        assert(join_sp(ws) + seq![' '] + t =~= w + rest);
        lemma_split_step_ws(rest, 0);
        assert(rest.skip(0) =~= rest);
        assert(rest.skip(1) =~= join_sp(tail) + seq![' '] + t);
        assert(ws + split_ws(t) =~= seq![w] + (tail + split_ws(t)));
    }
}

// ---- the rest of a line ---------------------------------------------------------

/// Length of the run of whitespace that starts `s`.
pub open spec fn ws_run(s: Seq<char>) -> nat
    decreases s.len(),
{
    if s.len() > 0 && is_ws(s[0]) {
        1 + ws_run(s.drop_first())
    } else {
        0
    }
}

/// `s` after its leading whitespace and the word that follows it.
pub open spec fn skip_word(s: Seq<char>) -> Seq<char> {
    let t = s.skip(ws_run(s) as int);
    t.skip(word_len(t) as int)
}

/// `s` after its first `n` words (and the whitespace before each).
pub open spec fn rest_after(s: Seq<char>, n: nat) -> Seq<char>
    decreases n,
{
    if n == 0 {
        s
    } else {
        skip_word(rest_after(s, (n - 1) as nat))
    }
}

/// The rest of `line` after its first `n` words and the one whitespace character that
/// separates them from it, unchanged.
pub open spec fn rest_of_line(line: Seq<char>, n: nat) -> Seq<char> {
    let a = rest_after(line, n);
    if a.len() > 0 {
        a.drop_first()
    } else {
        a
    }
}

pub proof fn lemma_ws_run_bound(s: Seq<char>)
    ensures
        ws_run(s) <= s.len(),
    decreases s.len(),
{
    if s.len() > 0 && is_ws(s[0]) {
        lemma_ws_run_bound(s.drop_first());
    }
}

/// Peeling the first word off first gives the same rest.
pub proof fn lemma_rest_after_front(s: Seq<char>, n: nat)
    requires
        n > 0,
    ensures
        rest_after(s, n) == rest_after(skip_word(s), (n - 1) as nat),
    decreases n,
{
    if n > 1 {
        lemma_rest_after_front(s, (n - 1) as nat);
        assert(rest_after(s, n) == skip_word(rest_after(s, (n - 1) as nat)));
        assert(rest_after(skip_word(s), (n - 1) as nat) == skip_word(
            rest_after(skip_word(s), (n - 2) as nat),
        ));
    } else {
        assert(rest_after(s, 0) == s);
        assert(rest_after(skip_word(s), 0) == skip_word(s));
    }
}

/// A word without whitespace, followed by nothing or by whitespace, is read whole.
proof fn lemma_word_len_of(w: Seq<char>, r: Seq<char>)
    requires
        no_ws(w),
        r.len() == 0 || is_ws(r[0]),
    ensures
        word_len(w + r) == w.len(),
    decreases w.len(),
{
    if w.len() == 0 {
        assert(w + r =~= r);
    } else {
        assert((w + r).drop_first() =~= w.drop_first() + r);
        lemma_word_len_of(w.drop_first(), r);
    }
}

/// After plain words joined by spaces, the rest is what followed them, when that is
/// empty or starts with whitespace.
pub proof fn lemma_rest_after_join(ws: Seq<Seq<char>>, r: Seq<char>)
    requires
        ws.len() > 0,
        plain_words(ws),
        r.len() == 0 || is_ws(r[0]),
    ensures
        rest_after(join_sp(ws) + r, ws.len()) == r,
    decreases ws.len(),
{
    let w = ws[0];
    assert(w.len() > 0 && no_ws(w));
    if ws.len() == 1 {
        let s = w + r;
        assert(s[0] == w[0]);
        assert(s.skip(0) =~= s);
        lemma_word_len_of(w, r);
        assert(s.skip(w.len() as int) =~= r);
        assert(skip_word(s) == r);
        assert(rest_after(s, 0) == s);
    } else {
        let rest = ws.drop_first();
        assert(plain_words(rest)) by {
            assert forall|i: int| 0 <= i < rest.len() implies #[trigger] rest[i].len() > 0 && no_ws(rest[i]) by {
                assert(rest[i] == ws[i + 1]);
            }
        }
        let x = join_sp(rest) + r;
        let s = join_sp(ws) + r;
        assert(s =~= w + (seq![' '] + x));
        assert(s[0] == w[0]);
        assert(s.skip(0) =~= s);
        lemma_word_len_of(w, seq![' '] + x);
        assert(s.skip(w.len() as int) =~= seq![' '] + x);
        assert(skip_word(s) == seq![' '] + x);
        lemma_rest_after_front(s, ws.len());
        // The space before the next word is skipped with it.
        let y = seq![' '] + x;
        lemma_join_first(rest);
        assert(x[0] == rest[0][0]);
        assert(y.drop_first() =~= x);
        assert(ws_run(x) == 0);
        assert(ws_run(y) == 1);
        assert(y.skip(1) =~= x);
        assert(x.skip(0) =~= x);
        assert(skip_word(y) == skip_word(x));
        lemma_rest_after_front(y, rest.len());
        lemma_rest_after_front(x, rest.len());
        lemma_rest_after_join(rest, r);
    }
}

/// Plain words joined by spaces start with the first word's first character.
proof fn lemma_join_first(ws: Seq<Seq<char>>)
    requires
        ws.len() > 0,
        ws[0].len() > 0,
    ensures
        join_sp(ws).len() > 0,
        join_sp(ws)[0] == ws[0][0],
{
}

/// The rest of a line after plain words, one space and a text is the text, whatever it
/// holds.
pub proof fn lemma_rest_of_line_join(ws: Seq<Seq<char>>, t: Seq<char>)
    requires
        ws.len() > 0,
        plain_words(ws),
    ensures
        rest_of_line(join_sp(ws) + seq![' '] + t, ws.len()) == t,
{
    let r = seq![' '] + t;
    assert(join_sp(ws) + seq![' '] + t =~= join_sp(ws) + r);
    lemma_rest_after_join(ws, r);
    assert(r.drop_first() =~= t);
}

/// Index in `v` where its first `n` words end, [`rest_after`].
fn after_words(v: &Vec<char>, n: usize) -> (r: usize)
    ensures
        r <= v.len(),
        v@.skip(r as int) == rest_after(v@, n as nat),
{
    let len = v.len();
    let mut i: usize = 0;
    let mut k: usize = 0;
    assert(v@.skip(0) =~= v@);
    while k < n
        invariant
            k <= n,
            i <= len == v.len(),
            v@.skip(i as int) == rest_after(v@, k as nat),
        decreases n - k,
    {
        let ghost s0 = v@.skip(i as int);
        let i0 = i;
        while i < len && is_whitespace(v[i])
            invariant
                i0 <= i <= len == v.len(),
                s0 == v@.skip(i0 as int),
                ws_run(s0) == (i - i0) + ws_run(v@.skip(i as int)),
            decreases len - i,
        {
            assert(v@.skip(i as int).drop_first() =~= v@.skip(i + 1));
            i += 1;
        }
        let ghost t = v@.skip(i as int);
        proof {
            if i < len {
                assert(v@.skip(i as int)[0] == v@[i as int]);
            }
            assert(ws_run(t) == 0);
            assert(s0.skip(ws_run(s0) as int) =~= t);
        }
        let i1 = i;
        while i < len && !is_whitespace(v[i])
            invariant
                i1 <= i <= len == v.len(),
                t == v@.skip(i1 as int),
                word_len(t) == (i - i1) + word_len(v@.skip(i as int)),
            decreases len - i,
        {
            assert(v@.skip(i as int).drop_first() =~= v@.skip(i + 1));
            i += 1;
        }
        proof {
            if i < len {
                assert(v@.skip(i as int)[0] == v@[i as int]);
            }
            assert(word_len(v@.skip(i as int)) == 0);
            assert(t.skip(word_len(t) as int) =~= v@.skip(i as int));
            assert(skip_word(s0) == v@.skip(i as int));
        }
        k += 1;
    }
    i
}

/// The rest of `line` after its first `n` words and one separating character,
/// [`rest_of_line`].
pub fn rest_text(v: &Vec<char>, n: usize) -> (r: String)
    ensures
        r@ == rest_of_line(v@, n as nat),
{
    let mut i = after_words(v, n);
    if i < v.len() {
        assert(v@.skip(i as int).drop_first() =~= v@.skip(i + 1));
        i += 1;
    }
    let mut out: Vec<char> = Vec::new();
    let start = i;
    while i < v.len()
        invariant
            start <= i <= v.len(),
            out@ == v@.subrange(start as int, i as int),
        decreases v.len() - i,
    {
        out.push(v[i]);
        i += 1;
        assert(out@ =~= v@.subrange(start as int, i as int));
    }
    assert(v@.skip(start as int) =~= v@.subrange(start as int, v.len() as int));
    string_of(&out)
}

/// Every character of `s` is whitespace.
pub open spec fn all_ws(s: Seq<char>) -> bool {
    forall|i: int| 0 <= i < s.len() ==> is_ws(#[trigger] s[i])
}

/// A word runs to the end of `s` and stops at whitespace that follows.
proof fn lemma_word_len_then_ws(s: Seq<char>, w: Seq<char>)
    requires
        w.len() == 0 || is_ws(w[0]),
    ensures
        word_len(s + w) == word_len(s),
    decreases s.len(),
{
    if s.len() == 0 {
        assert(s + w =~= w);
    } else if !is_ws(s[0]) {
        assert((s + w).drop_first() =~= s.drop_first() + w);
        lemma_word_len_then_ws(s.drop_first(), w);
    }
}

/// Leading whitespace splits into no word.
pub proof fn lemma_split_ws_lead(w: Seq<char>, s: Seq<char>)
    requires
        all_ws(w),
    ensures
        split_ws(w + s) == split_ws(s),
    decreases w.len(),
{
    if w.len() > 0 {
        assert((w + s)[0] == w[0]);
        assert((w + s).drop_first() =~= w.drop_first() + s);
        lemma_split_ws_lead(w.drop_first(), s);
    } else {
        assert(w + s =~= s);
    }
}

/// Trailing whitespace splits into no word.
pub proof fn lemma_split_ws_trail(s: Seq<char>, w: Seq<char>)
    requires
        all_ws(w),
    ensures
        split_ws(s + w) == split_ws(s),
    decreases s.len(),
{
    if s.len() == 0 {
        assert(s + w =~= w + Seq::<char>::empty());
        lemma_split_ws_lead(w, Seq::<char>::empty());
        assert(split_ws(Seq::<char>::empty()) == Seq::<Seq<char>>::empty());
        assert(w + Seq::<char>::empty() =~= w);
    } else if is_ws(s[0]) {
        assert((s + w)[0] == s[0]);
        assert((s + w).drop_first() =~= s.drop_first() + w);
        lemma_split_ws_trail(s.drop_first(), w);
    } else {
        assert((s + w)[0] == s[0]);
        lemma_word_len_then_ws(s, w);
        let n = word_len(s);
        lemma_word_len_bound(s);
        assert(n > 0) by {
            assert(s.drop_first().len() >= 0);
        }
        assert((s + w).take(n as int) =~= s.take(n as int));
        assert((s + w).skip(n as int) =~= s.skip(n as int) + w);
        lemma_split_ws_trail(s.skip(n as int), w);
    }
}

} // verus!
