//! The portal's configuration as xdg-desktop-portal would look for it: which
//! `portals.conf` files it consults, most specific first, what `default=` line each
//! sets, and how the ScreenCast source mask reads.
//!
//! This reports what is on disk rather than re-deriving the backend the portal will
//! pick: the real choice also weighs each backend's own portal files, and a probe that
//! guesses wrong is worse than one that shows its working.

use vstd::prelude::*;

use crate::config::join_path;
use crate::portal::before_char;
use crate::session::{next_line, text_lines};
use crate::text::{
    chars_of, is_prefix, push_nat, push_str, starts_with_chars, string_from, string_of,
    trim, nat_text,
};

verus! {

/// What `str::to_lowercase` gives for `s` (Unicode lowercase mapping).
pub uninterp spec fn lowercase(s: Seq<char>) -> Seq<char>;

/// std's `str::to_lowercase`: the result is [`lowercase`] of the text.
#[verifier::external_body]
fn to_lowercase(s: &str) -> (r: String)
    ensures
        r@ == lowercase(s@),
{
    s.to_lowercase()
}

/// The config names for a desktop list: `XDG_CURRENT_DESKTOP` is colon-separated and
/// tried left to right; each non-empty entry, lowercased, names `<entry>-portals.conf`.
pub open spec fn desktop_names(s: Seq<char>) -> Seq<Seq<char>>
    decreases s.len(),
{
    let k = before_char(s, ':');
    let field = if k >= s.len() {
        s
    } else {
        s.take(k as int)
    };
    let here = if field.len() > 0 {
        seq![lowercase(field) + "-portals.conf"@]
    } else {
        Seq::empty()
    };
    if k >= s.len() {
        here
    } else {
        here + desktop_names(s.skip(k as int + 1))
    }
}

/// Every config name consulted, most specific first: the desktop ones, then the
/// generic `portals.conf`.
pub open spec fn config_names_spec(desktop: Seq<char>) -> Seq<Seq<char>> {
    desktop_names(desktop).push("portals.conf"@)
}

/// `c` joined onto `base` as a path join does: an absolute `c` replaces `base`.
pub open spec fn join_any(base: Seq<char>, c: Seq<char>) -> Seq<char> {
    if c.len() > 0 && c[0] == '/' {
        c
    } else {
        join_path(base, c)
    }
}

/// The directories consulted, most specific first: the user's config directory's
/// `xdg-desktop-portal`, then the system's, then the distribution's.
pub open spec fn config_dirs(config_home: Seq<char>) -> Seq<Seq<char>> {
    seq![
        config_home + "/xdg-desktop-portal"@,
        "/etc/xdg-desktop-portal"@,
        "/usr/share/xdg-desktop-portal"@,
    ]
}

/// The candidate files for a list of config names, directory by directory, and within a
/// directory name by name.
pub open spec fn candidates_of(config_home: Seq<char>, names: Seq<Seq<char>>) -> Seq<Seq<char>> {
    let dirs = config_dirs(config_home);
    names.map_values(|n: Seq<char>| join_any(dirs[0], n)) + names.map_values(
        |n: Seq<char>| join_any(dirs[1], n),
    ) + names.map_values(|n: Seq<char>| join_any(dirs[2], n))
}

/// Every candidate file for a desktop list: [`candidates_of`] its config names.
pub open spec fn config_candidates_spec(config_home: Seq<char>, desktop: Seq<char>) -> Seq<Seq<char>> {
    candidates_of(config_home, config_names_spec(desktop))
}

/// The user's config directory: `XDG_CONFIG_HOME` when it is set (even empty), else
/// `<HOME>/.config`.
pub fn config_home(xdg_config_home: Option<String>, home: &str) -> (r: String)
    ensures
        r@ == match xdg_config_home {
            Some(x) => x@,
            None => home@ + "/.config"@,
        },
{
    match xdg_config_home {
        Some(x) => x,
        None => {
            let mut s = string_from(home);
            push_str(&mut s, "/.config");
            s
        },
    }
}

/// The end of the field of `t` that starts at `start`: the next `:` or the end.
fn next_field(t: &Vec<char>, start: usize) -> (r: usize)
    requires
        start <= t.len(),
    ensures
        start <= r <= t.len(),
        r - start == before_char(t@.skip(start as int), ':'),
        r < t.len() ==> t@[r as int] == ':',
{
    let ghost rest = t@.skip(start as int);
    let mut end: usize = start;
    assert(rest.skip(0) =~= rest);
    while end < t.len() && t[end] != ':'
        invariant
            start <= end <= t.len(),
            rest == t@.skip(start as int),
            before_char(rest, ':') == (end - start) + before_char(rest.skip(end - start), ':'),
        decreases t.len() - end,
    {
        assert(rest.skip(end - start).drop_first() =~= rest.skip(end - start + 1));
        end += 1;
    }
    if end < t.len() {
        assert(rest.skip(end - start)[0] == ':');
    } else {
        assert(rest.skip(end - start).len() == 0);
    }
    end
}

/// The config names consulted for a desktop list, [`config_names_spec`].
pub fn config_names(desktop: &str) -> (r: Vec<String>)
    ensures
        r@.map_values(|s: String| s@) == config_names_spec(desktop@),
{
    let t = chars_of(desktop);
    let mut out: Vec<String> = Vec::new();
    let mut start: usize = 0;
    assert(t@.skip(0) =~= t@);
    loop
        invariant_except_break
            start <= t.len(),
            t@ == desktop@,
            out@.map_values(|s: String| s@) + desktop_names(t@.skip(start as int)) == desktop_names(
                t@,
            ),
        ensures
            t@ == desktop@,
            out@.map_values(|s: String| s@) == desktop_names(t@),
        decreases t.len() - start,
    {
        let end = next_field(&t, start);
        let ghost rest = t@.skip(start as int);
        let ghost before = out@.map_values(|s: String| s@);
        let ghost field = t@.subrange(start as int, end as int);
        proof {
            if end < t.len() {
                assert(rest.take(end - start) =~= t@.subrange(start as int, end as int));
                assert(rest.skip(end - start + 1) =~= t@.skip(end + 1));
            } else {
                assert(rest =~= t@.subrange(start as int, end as int));
            }
        }
        if end > start {
            let mut piece: Vec<char> = Vec::new();
            let mut k: usize = start;
            while k < end
                invariant
                    start <= k <= end <= t.len(),
                    piece@ == t@.subrange(start as int, k as int),
                decreases end - k,
            {
                piece.push(t[k]);
                k += 1;
                assert(piece@ =~= t@.subrange(start as int, k as int));
            }
            let p = string_of(&piece);
            let mut name = to_lowercase(p.as_str());
            push_str(&mut name, "-portals.conf");
            out.push(name);
            assert(out@.map_values(|s: String| s@) =~= before.push(
                lowercase(t@.subrange(start as int, end as int)) + "-portals.conf"@,
            ));
        }
        if end >= t.len() {
            assert(out@.map_values(|s: String| s@) =~= before + desktop_names(rest));
            break;
        }
        assert(out@.map_values(|s: String| s@) + desktop_names(t@.skip(end + 1)) =~= before
            + desktop_names(rest));
        start = end + 1;
    }
    let ghost before = out@.map_values(|s: String| s@);
    out.push(string_from("portals.conf"));
    assert(out@.map_values(|s: String| s@) =~= before.push("portals.conf"@));
    out
}

/// Joins `c` onto `base` as a path join does, [`join_any`].
fn join_onto(base: &str, c: &str) -> (r: String)
    ensures
        r@ == join_any(base@, c@),
{
    let cv = chars_of(c);
    if cv.len() > 0 && cv[0] == '/' {
        string_from(c)
    } else {
        let mut s = string_from(base);
        crate::config::push_component(&mut s, c);
        s
    }
}

/// Every candidate config file, [`config_candidates_spec`].
pub fn config_candidates(config_home: &str, desktop: &str) -> (r: Vec<String>)
    ensures
        r@.map_values(|s: String| s@) == config_candidates_spec(config_home@, desktop@),
{
    let names = config_names(desktop);
    candidates_for(config_home, &names)
}

/// The candidate files for config names already worked out, [`candidates_of`].
pub fn candidates_for(config_home: &str, names: &Vec<String>) -> (r: Vec<String>)
    ensures
        r@.map_values(|s: String| s@) == candidates_of(config_home@, names@.map_values(|s: String| s@)),
{
    let mut dir0 = string_from(config_home);
    push_str(&mut dir0, "/xdg-desktop-portal");
    let dirs = vec![dir0, string_from("/etc/xdg-desktop-portal"), string_from("/usr/share/xdg-desktop-portal")];
    let ghost nv = names@.map_values(|s: String| s@);
    let ghost dv = config_dirs(config_home@);
    assert(dirs@.map_values(|s: String| s@) =~= dv);
    let mut out: Vec<String> = Vec::new();
    let mut d: usize = 0;
    while d < 3
        invariant
            d <= 3,
            dirs@.len() == 3,
            dirs@.map_values(|s: String| s@) == dv,
            nv == names@.map_values(|s: String| s@),
            dv == config_dirs(config_home@),
            out@.map_values(|s: String| s@) == if d == 0 {
                Seq::empty()
            } else if d == 1 {
                nv.map_values(|n: Seq<char>| join_any(dv[0], n))
            } else if d == 2 {
                nv.map_values(|n: Seq<char>| join_any(dv[0], n)) + nv.map_values(
                    |n: Seq<char>| join_any(dv[1], n),
                )
            } else {
                candidates_of(config_home@, nv)
            },
        decreases 3 - d,
    {
        let ghost start = out@.map_values(|s: String| s@);
        let ghost dd = dv[d as int];
        assert(dirs@[d as int]@ == dd);
        let mut i: usize = 0;
        while i < names.len()
            invariant
                i <= names@.len(),
                d < 3,
                dirs@.len() == 3,
                dirs@[d as int]@ == dd,
                nv == names@.map_values(|s: String| s@),
                out@.map_values(|s: String| s@) == start + nv.take(i as int).map_values(
                    |n: Seq<char>| join_any(dd, n),
                ),
            decreases names@.len() - i,
        {
            let p = join_onto(dirs[d].as_str(), names[i].as_str());
            let ghost before = out@.map_values(|s: String| s@);
            out.push(p);
            assert(nv.take(i + 1).map_values(|n: Seq<char>| join_any(dd, n)) =~= nv.take(
                i as int,
            ).map_values(|n: Seq<char>| join_any(dd, n)).push(join_any(dd, nv[i as int])));
            assert(out@.map_values(|s: String| s@) =~= before.push(join_any(dd, nv[i as int])));
            i += 1;
        }
        assert(nv.take(i as int) =~= nv);
        d += 1;
    }
    out
}

/// The `default=` line a config sets: the first line that, trimmed, starts with
/// `default`, trimmed.
pub open spec fn default_line_of(lines: Seq<Seq<char>>) -> Option<Seq<char>>
    decreases lines.len(),
{
    if lines.len() == 0 {
        None
    } else if is_prefix("default"@, trim(lines[0])) {
        Some(trim(lines[0]))
    } else {
        default_line_of(lines.drop_first())
    }
}

/// The `default=` line a config text sets, [`default_line_of`] of its lines.
pub fn default_line(text: &str) -> (r: Option<String>)
    ensures
        match r {
            Some(s) => default_line_of(text_lines(text@)) == Some(s@),
            None => default_line_of(text_lines(text@)) is None,
        },
{
    let t = chars_of(text);
    let key = chars_of("default");
    let n = t.len();
    let mut start: usize = 0;
    assert(t@.skip(0) =~= t@);
    while start < n
        invariant
            start <= n == t.len(),
            t@ == text@,
            key@ == "default"@,
            default_line_of(text_lines(t@)) == default_line_of(text_lines(t@.skip(start as int))),
        decreases n - start,
    {
        let (line_end, next) = next_line(&t, start);
        let ghost line = t@.subrange(start as int, line_end as int);
        let mut piece: Vec<char> = Vec::new();
        let mut k: usize = start;
        while k < line_end
            invariant
                start <= k <= line_end <= t.len(),
                piece@ == t@.subrange(start as int, k as int),
            decreases line_end - k,
        {
            piece.push(t[k]);
            k += 1;
            assert(piece@ =~= t@.subrange(start as int, k as int));
        }
        let p = string_of(&piece);
        let trimmed = crate::text::trim_chars(p.as_str());
        if starts_with_chars(&trimmed, &key) {
            return Some(string_of(&trimmed));
        }
        proof {
            assert(piece@ == line);
            assert(trimmed@ == trim(line));
        }
        if next >= n {
            proof {
                let ls = text_lines(t@.skip(start as int));
                assert(ls == seq![line]);
                assert(ls.drop_first() =~= Seq::<Seq<char>>::empty());
                assert(default_line_of(ls) == default_line_of(ls.drop_first()));
                assert(default_line_of(Seq::<Seq<char>>::empty()) is None);
            }
            return None;
        }
        assert(text_lines(t@.skip(start as int)).drop_first() =~= text_lines(t@.skip(next + 1)));
        start = next + 1;
    }
    assert(t@.skip(start as int) =~= Seq::<char>::empty());
    None
}

/// The kinds a ScreenCast `AvailableSourceTypes` mask names: bit 1 monitor, bit 2
/// window, bit 4 virtual.
pub open spec fn source_kinds(bits: u32) -> Seq<Seq<char>> {
    (if bits & 1 != 0 {
        seq!["monitor"@]
    } else {
        Seq::empty()
    }) + (if bits & 2 != 0 {
        seq!["window"@]
    } else {
        Seq::empty()
    }) + (if bits & 4 != 0 {
        seq!["virtual"@]
    } else {
        Seq::empty()
    })
}

/// Words joined with `, `.
pub open spec fn join_comma(ws: Seq<Seq<char>>) -> Seq<char>
    decreases ws.len(),
{
    if ws.len() == 0 {
        Seq::empty()
    } else if ws.len() == 1 {
        ws[0]
    } else {
        ws[0] + ", "@ + join_comma(ws.drop_first())
    }
}

/// How a ScreenCast source mask reads: its kinds joined with `, `, or `none (bits=<n>)`
/// when it names none.
pub open spec fn source_types_spec(bits: u32) -> Seq<char> {
    if source_kinds(bits).len() == 0 {
        "none (bits="@ + nat_text(bits as nat) + ")"@
    } else {
        join_comma(source_kinds(bits))
    }
}

/// How a ScreenCast source mask reads, [`source_types_spec`].
pub fn source_types_text(bits: u32) -> (r: String)
    ensures
        r@ == source_types_spec(bits),
{
    let mut kinds: Vec<&'static str> = Vec::new();
    if bits & 1 != 0 {
        kinds.push("monitor");
    }
    if bits & 2 != 0 {
        kinds.push("window");
    }
    if bits & 4 != 0 {
        kinds.push("virtual");
    }
    let ghost kv = kinds@.map_values(|k: &'static str| k@);
    assert(kv =~= source_kinds(bits));
    if kinds.len() == 0 {
        let mut s = string_from("none (bits=");
        push_nat(&mut s, bits as u64);
        push_str(&mut s, ")");
        return s;
    }
    let mut s = string_from(kinds[0]);
    proof {
        lemma_join_comma(kv);
        assert(kv.skip(1) =~= kv.drop_first());
    }
    let mut i: usize = 1;
    while i < kinds.len()
        invariant
            1 <= i <= kinds@.len() <= 3,
            kv == kinds@.map_values(|k: &'static str| k@),
            kv == source_kinds(bits),
            s@ + join_comma_tail(kv.skip(i as int)) == join_comma(kv),
        decreases kinds@.len() - i,
    {
        push_str(&mut s, ", ");
        push_str(&mut s, kinds[i]);
        assert(kv.skip(i as int).drop_first() =~= kv.skip(i + 1));
        assert(kv.skip(i as int)[0] == kv[i as int]);
        i += 1;
    }
    assert(kv.skip(i as int) =~= Seq::<Seq<char>>::empty());
    s
}

pub(crate) proof fn lemma_join_comma(ws: Seq<Seq<char>>)
    requires
        ws.len() >= 1,
    ensures
        join_comma(ws) == ws[0] + join_comma_tail(ws.drop_first()),
    decreases ws.len(),
{
    if ws.len() > 1 {
        let rest = ws.drop_first();
        lemma_join_comma(rest);
        assert(join_comma_tail(rest) == ", "@ + rest[0] + join_comma_tail(rest.drop_first()));
        assert(ws[0] + ", "@ + (rest[0] + join_comma_tail(rest.drop_first())) =~= ws[0] + (", "@
            + rest[0] + join_comma_tail(rest.drop_first())));
    } else {
        assert(ws.drop_first().len() == 0);
        assert(ws[0] + Seq::<char>::empty() =~= ws[0]);
    }
}

/// The tail of a `, `-joined list: each word preceded by `, `.
pub open spec fn join_comma_tail(ws: Seq<Seq<char>>) -> Seq<char>
    decreases ws.len(),
{
    if ws.len() == 0 {
        Seq::empty()
    } else {
        ", "@ + ws[0] + join_comma_tail(ws.drop_first())
    }
}

} // verus!
