//! What the portal checker reports, given what it found.
//!
//! Each check asks the bus or the system something and then decides which lines to
//! report. The asking stays with the caller; these functions take its answers and
//! return the lines, as `(outcome, label, detail)`, in the order they are printed.

use vstd::prelude::*;

use crate::portal::{contains_text, text_contains, Collection, Status};
use crate::portal_config::{join_any, join_comma, join_comma_tail};
use crate::text::{chars_of, nat_text, push_char, push_nat, push_str, string_from, string_of};

verus! {

/// The secret service's bus name.
pub const SECRETS_NAME: &'static str = "org.freedesktop.secrets";

/// A report line as values.
pub open spec fn entry_view(e: (Status, String, String)) -> (Status, Seq<char>, Seq<char>) {
    (e.0, e.1@, e.2@)
}

/// Report lines as values.
pub open spec fn entries_view(v: Seq<(Status, String, String)>) -> Seq<(Status, Seq<char>, Seq<char>)> {
    v.map_values(|e: (Status, String, String)| entry_view(e))
}

/// An error text cut to 90 characters, with `…` marking the cut.
pub open spec fn short_spec(t: Seq<char>) -> Seq<char> {
    if t.len() > 90 {
        t.take(90).push('…')
    } else {
        t
    }
}

/// A D-Bus error text kept to one readable line, [`short_spec`].
pub fn short_text(t: &str) -> (r: String)
    ensures
        r@ == short_spec(t@),
{
    let c = chars_of(t);
    if c.len() > 90 {
        let mut s = String::new();
        let mut i: usize = 0;
        while i < 90
            invariant
                i <= 90 < c@.len(),
                s@ == c@.take(i as int),
            decreases 90 - i,
        {
            push_char(&mut s, c[i]);
            i += 1;
            assert(s@ =~= c@.take(i as int));
        }
        push_char(&mut s, '…');
        s
    } else {
        string_of(&c)
    }
}

/// The report line for one collection: unlocked is fine; a locked default collection is
/// the password prompt, deterministically; a locked secondary one is normal. The default
/// one is tagged ` [default]`.
pub open spec fn collection_entry(label: Seq<char>, locked: bool, is_default: bool) -> (
    Status,
    Seq<char>,
    Seq<char>,
) {
    let l = if is_default {
        label + " [default]"@
    } else {
        label
    };
    if !locked {
        (Status::Pass, l, "unlocked"@)
    } else if is_default {
        (Status::Fail, l, "LOCKED — this is what prompts you for a password"@)
    } else {
        (Status::Info, l, "locked (not the default collection)"@)
    }
}

/// What a PAM service does for the keyring, by its `auth` and `session` lines.
pub open spec fn pam_roles(auth: bool, session: bool) -> Seq<char> {
    if auth && session {
        "auth + session (full auto-unlock)"@
    } else if auth {
        "auth only (unlocks, does not start the daemon)"@
    } else if session {
        "session only — does NOT unlock, expect a prompt"@
    } else {
        "password-change hook only"@
    }
}

/// A collection as values: label, locked, default.
pub open spec fn collection_view(c: Collection) -> (Seq<char>, bool, bool) {
    (c.label@, c.locked, c.is_default)
}

/// The lines for the collections the service listed.
pub open spec fn collection_lines(found: Seq<(Seq<char>, bool, bool)>) -> Seq<
    (Status, Seq<char>, Seq<char>),
> {
    if found.len() == 0 {
        seq![
            (
                Status::Warn,
                "collections"@,
                "none — the first app to want a secret is asked to create one"@,
            ),
        ]
    } else {
        found.map_values(|c: (Seq<char>, bool, bool)| collection_entry(c.0, c.1, c.2)) + if exists|
            i: int,
        | 0 <= i < found.len() && #[trigger] found[i].2 {
            Seq::empty()
        } else {
            seq![(Status::Warn, "default alias"@, "unset — no collection is the one apps reach for"@)]
        }
    }
}

/// The lines for the keyring PAM module: where it is installed and which services load
/// it, by name, as `(name, auth, session)`.
pub open spec fn pam_lines(module: Option<Seq<char>>, wired: Seq<(Seq<char>, bool, bool)>) -> Seq<
    (Status, Seq<char>, Seq<char>),
> {
    match module {
        None => seq![
            (
                Status::Warn,
                "pam_gnome_keyring.so"@,
                "not installed — no PAM stack can auto-unlock"@,
            ),
        ],
        Some(p) => seq![(Status::Info, "pam_gnome_keyring.so"@, p)] + (if wired.len() == 0 {
            seq![(Status::Warn, "PAM auto-unlock"@, "no /etc/pam.d service references it"@)]
        } else {
            Seq::empty()
        }) + wired.map_values(
            |w: (Seq<char>, bool, bool)| (Status::Info, "  /etc/pam.d/"@ + w.0, pam_roles(w.1, w.2)),
        ),
    }
}

/// The secrets section for a present service: its implementation (the owning command,
/// or not started yet), the collections (or why they could not be read), then the PAM
/// side that decides whether the default collection was unlocked at login.
pub open spec fn secrets_lines(
    owner: Option<Seq<char>>,
    collections: Result<Seq<(Seq<char>, bool, bool)>, Seq<char>>,
    module: Option<Seq<char>>,
    wired: Seq<(Seq<char>, bool, bool)>,
) -> Seq<(Status, Seq<char>, Seq<char>)> {
    seq![
        (
            Status::Info,
            "implementation"@,
            match owner {
                Some(o) => o,
                None => "activatable, not yet started"@,
            },
        ),
    ] + match collections {
        Err(e) => seq![
            (Status::Fail, "collections"@, "service present but unreadable: "@ + short_spec(e)),
        ],
        Ok(found) => collection_lines(found),
    } + pam_lines(module, wired)
}

/// The secrets section when the service is not on the bus at all.
pub fn secrets_absent() -> (r: Vec<(Status, String, String)>)
    ensures
        entries_view(r@) == seq![
            (
                Status::Warn,
                SECRETS_NAME@,
                "absent — apps needing a secret will fail or offer to create a keyring"@,
            ),
        ],
{
    let v = vec![
        (
            Status::Warn,
            string_from(SECRETS_NAME),
            string_from("absent — apps needing a secret will fail or offer to create a keyring"),
        ),
    ];
    assert(entries_view(v@) =~= seq![
        (
            Status::Warn,
            SECRETS_NAME@,
            "absent — apps needing a secret will fail or offer to create a keyring"@,
        ),
    ]);
    v
}

/// Appends one line.
fn push_entry(v: &mut Vec<(Status, String, String)>, s: Status, label: String, detail: String)
    ensures
        entries_view(final(v)@) == entries_view(old(v)@).push((s, label@, detail@)),
{
    let ghost e = (s, label@, detail@);
    v.push((s, label, detail));
    assert(entries_view(v@) =~= entries_view(old(v)@).push(e));
}

/// The roles text of a PAM service, [`pam_roles`].
fn pam_roles_str(auth: bool, session: bool) -> (r: &'static str)
    ensures
        r@ == pam_roles(auth, session),
{
    if auth && session {
        "auth + session (full auto-unlock)"
    } else if auth {
        "auth only (unlocks, does not start the daemon)"
    } else if session {
        "session only — does NOT unlock, expect a prompt"
    } else {
        "password-change hook only"
    }
}

/// The lines for the collections, [`collection_lines`].
fn push_collections(v: &mut Vec<(Status, String, String)>, found: &Vec<Collection>)
    ensures
        entries_view(final(v)@) == entries_view(old(v)@) + collection_lines(
            found@.map_values(|c: Collection| collection_view(c)),
        ),
{
    let ghost fv = found@.map_values(|c: Collection| collection_view(c));
    if found.len() == 0 {
        push_entry(
            v,
            Status::Warn,
            string_from("collections"),
            string_from("none — the first app to want a secret is asked to create one"),
        );
        assert(entries_view(v@) =~= entries_view(old(v)@) + collection_lines(fv));
        return;
    }
    let ghost mapped = fv.map_values(|c: (Seq<char>, bool, bool)| collection_entry(c.0, c.1, c.2));
    let mut has_default = false;
    let mut i: usize = 0;
    while i < found.len()
        invariant
            i <= found@.len(),
            fv == found@.map_values(|c: Collection| collection_view(c)),
            mapped == fv.map_values(|c: (Seq<char>, bool, bool)| collection_entry(c.0, c.1, c.2)),
            entries_view(v@) == entries_view(old(v)@) + mapped.take(i as int),
            has_default == exists|k: int| 0 <= k < i && #[trigger] fv[k].2,
        decreases found@.len() - i,
    {
        let c = &found[i];
        let mut label = string_from(c.label.as_str());
        if c.is_default {
            push_str(&mut label, " [default]");
        }
        let (s, d) = if !c.locked {
            (Status::Pass, "unlocked")
        } else if c.is_default {
            (Status::Fail, "LOCKED — this is what prompts you for a password")
        } else {
            (Status::Info, "locked (not the default collection)")
        };
        proof {
            assert(fv[i as int] == collection_view(found@[i as int]));
        }
        push_entry(v, s, label, string_from(d));
        has_default = has_default || c.is_default;
        i += 1;
        proof {
            assert(mapped.take(i as int) =~= mapped.take(i - 1).push(mapped[i - 1]));
            assert(has_default == exists|k: int| 0 <= k < i && #[trigger] fv[k].2) by {
                if fv[i - 1].2 {
                    assert(0 <= i - 1 < i && fv[i - 1].2);
                }
            }
        }
    }
    proof {
        assert(mapped.take(i as int) =~= mapped);
    }
    if !has_default {
        push_entry(
            v,
            Status::Warn,
            string_from("default alias"),
            string_from("unset — no collection is the one apps reach for"),
        );
    }
    assert(entries_view(v@) =~= entries_view(old(v)@) + collection_lines(fv));
}

/// The lines for the keyring PAM module, [`pam_lines`].
fn push_pam(v: &mut Vec<(Status, String, String)>, module: Option<String>, wired: &Vec<(String, bool, bool)>)
    ensures
        entries_view(final(v)@) == entries_view(old(v)@) + pam_lines(
            match module {
                Some(p) => Some(p@),
                None => None,
            },
            wired@.map_values(|w: (String, bool, bool)| (w.0@, w.1, w.2)),
        ),
{
    let ghost wv = wired@.map_values(|w: (String, bool, bool)| (w.0@, w.1, w.2));
    let ghost mv = match &module {
        Some(p) => Some(p@),
        None => None::<Seq<char>>,
    };
    match module {
        None => {
            push_entry(
                v,
                Status::Warn,
                string_from("pam_gnome_keyring.so"),
                string_from("not installed — no PAM stack can auto-unlock"),
            );
            assert(entries_view(v@) =~= entries_view(old(v)@) + pam_lines(mv, wv));
        },
        Some(p) => {
            push_entry(v, Status::Info, string_from("pam_gnome_keyring.so"), p);
            if wired.len() == 0 {
                push_entry(
                    v,
                    Status::Warn,
                    string_from("PAM auto-unlock"),
                    string_from("no /etc/pam.d service references it"),
                );
            }
            let ghost start = entries_view(v@);
            let ghost mapped = wv.map_values(
                |w: (Seq<char>, bool, bool)| (Status::Info, "  /etc/pam.d/"@ + w.0, pam_roles(w.1, w.2)),
            );
            let mut i: usize = 0;
            while i < wired.len()
                invariant
                    i <= wired@.len(),
                    wv == wired@.map_values(|w: (String, bool, bool)| (w.0@, w.1, w.2)),
                    mapped == wv.map_values(
                        |w: (Seq<char>, bool, bool)|
                            (Status::Info, "  /etc/pam.d/"@ + w.0, pam_roles(w.1, w.2)),
                    ),
                    entries_view(v@) == start + mapped.take(i as int),
                decreases wired@.len() - i,
            {
                let (name, auth, session) = (&wired[i].0, wired[i].1, wired[i].2);
                let mut label = string_from("  /etc/pam.d/");
                push_str(&mut label, name.as_str());
                proof {
                    assert(wv[i as int] == (wired@[i as int].0@, wired@[i as int].1, wired@[i as int].2));
                }
                push_entry(v, Status::Info, label, string_from(pam_roles_str(auth, session)));
                i += 1;
                assert(mapped.take(i as int) =~= mapped.take(i - 1).push(mapped[i - 1]));
            }
            assert(mapped.take(i as int) =~= mapped);
            assert(entries_view(v@) =~= entries_view(old(v)@) + pam_lines(mv, wv));
        },
    }
}

/// The secrets section for a present service, [`secrets_lines`]: `owner` is the command
/// owning the name, if started; `collections` what the service listed, or the error
/// text; `module` where the PAM module is installed; `wired` the PAM services that load
/// it, as `(name, auth, session)`.
pub fn secrets_entries(
    owner: Option<String>,
    collections: Result<Vec<Collection>, String>,
    module: Option<String>,
    wired: &Vec<(String, bool, bool)>,
) -> (r: Vec<(Status, String, String)>)
    ensures
        entries_view(r@) == secrets_lines(
            match owner {
                Some(o) => Some(o@),
                None => None,
            },
            match collections {
                Ok(found) => Ok(found@.map_values(|c: Collection| collection_view(c))),
                Err(e) => Err(e@),
            },
            match module {
                Some(p) => Some(p@),
                None => None,
            },
            wired@.map_values(|w: (String, bool, bool)| (w.0@, w.1, w.2)),
        ),
{
    let mut v: Vec<(Status, String, String)> = Vec::new();
    let detail = match owner {
        Some(o) => o,
        None => string_from("activatable, not yet started"),
    };
    push_entry(&mut v, Status::Info, string_from("implementation"), detail);
    match collections {
        Err(e) => {
            let mut d = string_from("service present but unreadable: ");
            let s = short_text(e.as_str());
            push_str(&mut d, s.as_str());
            push_entry(&mut v, Status::Fail, string_from("collections"), d);
        },
        Ok(found) => {
            push_collections(&mut v, &found);
        },
    }
    push_pam(&mut v, module, wired);
    v
}

/// How an interactive call's answer is reported: a cancelled dialog still appeared,
/// which is what is being tested, so it only warns.
pub open spec fn interactive_status_spec(outcome: Seq<char>) -> Status {
    if contains_text(outcome, "cancelled"@) {
        Status::Warn
    } else {
        Status::Pass
    }
}

/// The outcome of an interactive portal call that answered, [`interactive_status_spec`].
pub fn interactive_status(outcome: &str) -> (r: Status)
    ensures
        r == interactive_status_spec(outcome@),
{
    if text_contains(outcome, "cancelled") {
        Status::Warn
    } else {
        Status::Pass
    }
}

/// The detail for a portal interface whose version could not be read: a missing
/// interface is a portal build that does not carry it; anything else means the service
/// is there and broken, and its error is shown.
pub open spec fn interface_detail_spec(err: Seq<char>) -> Seq<char> {
    if contains_text(err, "No such interface"@) {
        "not offered by this portal"@
    } else {
        short_spec(err)
    }
}

/// The detail for a portal interface whose version could not be read,
/// [`interface_detail_spec`].
pub fn interface_detail(err: &str) -> (r: String)
    ensures
        r@ == interface_detail_spec(err@),
{
    if text_contains(err, "No such interface") {
        string_from("not offered by this portal")
    } else {
        short_text(err)
    }
}

// ---------------------------------------------------------------------------------
// Presence
// ---------------------------------------------------------------------------------

/// The outcome of a presence check: present passes; missing fails when required and
/// only warns otherwise.
pub open spec fn presence_status(present: bool, required: bool) -> Status {
    if present {
        Status::Pass
    } else if required {
        Status::Fail
    } else {
        Status::Warn
    }
}

fn presence_of(present: bool, required: bool) -> (r: Status)
    ensures
        r == presence_status(present, required),
{
    if present {
        Status::Pass
    } else if required {
        Status::Fail
    } else {
        Status::Warn
    }
}

// ---------------------------------------------------------------------------------
// Bus
// ---------------------------------------------------------------------------------

/// What the bus address's identity says: the default per-user bus, a private one, or
/// not a socket path at all.
pub open spec fn identity_text(identity: Option<bool>) -> Seq<char> {
    match identity {
        Some(true) => "the default per-user bus (not isolated)"@,
        Some(false) => "a private bus (isolated from the default)"@,
        None => "not a unix socket path — cannot classify"@,
    }
}

/// The bus section: the address and where it came from, whether it is the default
/// per-user bus, and whether it could be reached (else the connection error).
pub open spec fn bus_lines(
    address: Seq<char>,
    origin: Seq<char>,
    identity: Option<bool>,
    connect: Result<(), Seq<char>>,
) -> Seq<(Status, Seq<char>, Seq<char>)> {
    seq![
        (Status::Info, "address"@, address),
        (Status::Info, "resolved from"@, origin),
        (Status::Info, "identity"@, identity_text(identity)),
        match connect {
            Ok(_) => (Status::Pass, "connect"@, "session bus reachable"@),
            Err(e) => (Status::Fail, "connect"@, e),
        },
    ]
}

/// The bus section, [`bus_lines`].
pub fn bus_entries(address: &str, origin: &str, identity: Option<bool>, connect: Result<(), String>) -> (r:
    Vec<(Status, String, String)>)
    ensures
        entries_view(r@) == bus_lines(
            address@,
            origin@,
            identity,
            match connect {
                Ok(u) => Ok(u),
                Err(e) => Err(e@),
            },
        ),
{
    let mut v: Vec<(Status, String, String)> = Vec::new();
    push_entry(&mut v, Status::Info, string_from("address"), string_from(address));
    push_entry(&mut v, Status::Info, string_from("resolved from"), string_from(origin));
    let id = match identity {
        Some(true) => "the default per-user bus (not isolated)",
        Some(false) => "a private bus (isolated from the default)",
        None => "not a unix socket path — cannot classify",
    };
    push_entry(&mut v, Status::Info, string_from("identity"), string_from(id));
    match connect {
        Ok(_) => push_entry(&mut v, Status::Pass, string_from("connect"), string_from("session bus reachable")),
        Err(e) => push_entry(&mut v, Status::Fail, string_from("connect"), e),
    }
    assert(entries_view(v@) =~= bus_lines(
        address@,
        origin@,
        identity,
        match connect {
            Ok(u) => Ok(u),
            Err(e) => Err(e@),
        },
    ));
    v
}

// ---------------------------------------------------------------------------------
// Portal
// ---------------------------------------------------------------------------------

/// The portal frontend's bus name.
pub const PORTAL_DESTINATION: &'static str = "org.freedesktop.portal.Desktop";

/// How many portal interfaces are checked.
pub const INTERFACE_COUNT: usize = 8;

/// Portal interface `i` checked, by suffix, and whether it is required: a user will
/// visibly try to use a required one and be met with nothing at all when it is missing.
pub open spec fn interface_at(i: int) -> (Seq<char>, bool) {
    if i == 0 {
        ("FileChooser"@, true)
    } else if i == 1 {
        ("OpenURI"@, true)
    } else if i == 2 {
        ("Settings"@, true)
    } else if i == 3 {
        ("Screenshot"@, false)
    } else if i == 4 {
        ("ScreenCast"@, false)
    } else if i == 5 {
        ("Secret"@, false)
    } else if i == 6 {
        ("Inhibit"@, false)
    } else {
        ("Notification"@, false)
    }
}

/// Portal interface `i`, [`interface_at`].
pub fn interface(i: usize) -> (r: (&'static str, bool))
    requires
        i < INTERFACE_COUNT,
    ensures
        (r.0@, r.1) == interface_at(i as int),
{
    match i {
        0 => ("FileChooser", true),
        1 => ("OpenURI", true),
        2 => ("Settings", true),
        3 => ("Screenshot", false),
        4 => ("ScreenCast", false),
        5 => ("Secret", false),
        6 => ("Inhibit", false),
        _ => ("Notification", false),
    }
}

/// The line for portal interface `i`, given its `version` or the error reading it.
pub open spec fn interface_line(i: int, version: Result<u32, Seq<char>>) -> (Status, Seq<char>, Seq<char>) {
    let (name, required) = interface_at(i);
    match version {
        Ok(v) => (Status::Pass, name, "version "@ + nat_text(v as nat)),
        Err(e) => (presence_status(false, required), name, interface_detail_spec(e)),
    }
}

/// The portal section: whether the frontend is on the bus (and how); if not, that
/// nothing else can work; if so, each interface's version or why it is missing, then the
/// ScreenCast sources when they could be read.
pub open spec fn portal_lines(
    present: bool,
    how: Seq<char>,
    versions: Seq<Result<u32, Seq<char>>>,
    sources: Option<Seq<char>>,
) -> Seq<(Status, Seq<char>, Seq<char>)> {
    seq![(presence_status(present, true), PORTAL_DESTINATION@, how)] + if !present {
        seq![(Status::Info, Seq::empty(), "nothing below can succeed — install xdg-desktop-portal"@)]
    } else {
        Seq::new(versions.len(), |i: int| interface_line(i, versions[i])) + match sources {
            Some(k) => seq![(Status::Info, "ScreenCast sources"@, k)],
            None => Seq::empty(),
        }
    }
}

/// A version answer as values.
pub open spec fn version_view(r: Result<u32, String>) -> Result<u32, Seq<char>> {
    match r {
        Ok(v) => Ok(v),
        Err(e) => Err(e@),
    }
}

/// The portal section, [`portal_lines`]: `versions` holds one answer per interface, in
/// the order of [`interface`].
pub fn portal_entries(present: bool, how: &str, versions: &Vec<Result<u32, String>>, sources: Option<String>) -> (r:
    Vec<(Status, String, String)>)
    requires
        present ==> versions@.len() == INTERFACE_COUNT,
    ensures
        entries_view(r@) == portal_lines(
            present,
            how@,
            versions@.map_values(|x: Result<u32, String>| version_view(x)),
            match sources {
                Some(k) => Some(k@),
                None => None,
            },
        ),
{
    let ghost vv = versions@.map_values(|x: Result<u32, String>| version_view(x));
    let mut v: Vec<(Status, String, String)> = Vec::new();
    push_entry(&mut v, presence_of(present, true), string_from(PORTAL_DESTINATION), string_from(how));
    if !present {
        push_entry(
            &mut v,
            Status::Info,
            string_from(""),
            string_from("nothing below can succeed — install xdg-desktop-portal"),
        );
        proof {
            reveal_strlit("");
        }
        assert(entries_view(v@) =~= portal_lines(present, how@, vv, None)) by {
            assert(""@ =~= Seq::<char>::empty());
        }
        assert(entries_view(v@) =~= portal_lines(
            present,
            how@,
            vv,
            match sources {
                Some(k) => Some(k@),
                None => None,
            },
        ));
        return v;
    }
    let ghost head = entries_view(v@);
    let ghost lines = Seq::new(vv.len(), |i: int| interface_line(i, vv[i]));
    let mut i: usize = 0;
    while i < versions.len()
        invariant
            i <= versions@.len() == INTERFACE_COUNT,
            vv == versions@.map_values(|x: Result<u32, String>| version_view(x)),
            lines == Seq::new(vv.len(), |i: int| interface_line(i, vv[i])),
            entries_view(v@) == head + lines.take(i as int),
        decreases versions@.len() - i,
    {
        let (name, required) = interface(i);
        match &versions[i] {
            Ok(ver) => {
                let mut d = string_from("version ");
                push_nat(&mut d, *ver as u64);
                push_entry(&mut v, Status::Pass, string_from(name), d);
            },
            Err(e) => {
                push_entry(&mut v, presence_of(false, required), string_from(name), interface_detail(e.as_str()));
            },
        }
        proof {
            assert(vv[i as int] == version_view(versions@[i as int]));
            assert(lines.take(i + 1) =~= lines.take(i as int).push(lines[i as int]));
        }
        i += 1;
    }
    assert(lines.take(i as int) =~= lines);
    match sources {
        Some(k) => push_entry(&mut v, Status::Info, string_from("ScreenCast sources"), k),
        None => {},
    }
    assert(entries_view(v@) =~= portal_lines(
        present,
        how@,
        vv,
        match sources {
            Some(k) => Some(k@),
            None => None,
        },
    ));
    v
}

// ---------------------------------------------------------------------------------
// Backend
// ---------------------------------------------------------------------------------

/// The backend section: the desktop the backend is matched on (unset is a real problem:
/// with nothing to match on the frontend can end up serving no backend at all), the
/// installed implementations (none is the quiet failure), and each `portals.conf` found
/// with the `default=` line it sets.
pub open spec fn backend_lines(
    desktop: Seq<char>,
    impls: Seq<Seq<char>>,
    configs: Seq<(Seq<char>, Option<Seq<char>>)>,
) -> Seq<(Status, Seq<char>, Seq<char>)> {
    seq![
        if desktop.len() == 0 {
            (
                Status::Warn,
                "XDG_CURRENT_DESKTOP"@,
                "<unset> — the portal has no desktop to match on"@,
            )
        } else {
            (Status::Info, "XDG_CURRENT_DESKTOP"@, desktop)
        },
        (
            presence_status(impls.len() > 0, true),
            "implementations"@,
            if impls.len() == 0 {
                "none installed"@
            } else {
                join_comma(impls)
            },
        ),
    ] + (if configs.len() == 0 {
        seq![(Status::Warn, "portals.conf"@, "none found — backend choice is unconfigured"@)]
    } else {
        Seq::empty()
    }) + configs.map_values(
        |c: (Seq<char>, Option<Seq<char>>)|
            (
                Status::Info,
                "portals.conf"@,
                c.0 + " ["@ + match c.1 {
                    Some(d) => d,
                    None => "no default="@,
                } + "]"@,
            ),
    )
}

/// A found config as values.
pub open spec fn config_view(c: (String, Option<String>)) -> (Seq<char>, Option<Seq<char>>) {
    (
        c.0@,
        match c.1 {
            Some(d) => Some(d@),
            None => None,
        },
    )
}

/// Words joined with `, `, [`join_comma`].
fn join_words(ws: &Vec<String>) -> (r: String)
    ensures
        r@ == join_comma(ws@.map_values(|w: String| w@)),
{
    let ghost wv = ws@.map_values(|w: String| w@);
    if ws.len() == 0 {
        return String::new();
    }
    let mut s = string_from(ws[0].as_str());
    proof {
        crate::portal_config::lemma_join_comma(wv);
        assert(wv.skip(1) =~= wv.drop_first());
    }
    let mut i: usize = 1;
    while i < ws.len()
        invariant
            1 <= i <= ws@.len(),
            wv == ws@.map_values(|w: String| w@),
            s@ + join_comma_tail(wv.skip(i as int)) == join_comma(wv),
        decreases ws@.len() - i,
    {
        push_str(&mut s, ", ");
        push_str(&mut s, ws[i].as_str());
        assert(wv.skip(i as int).drop_first() =~= wv.skip(i + 1));
        assert(wv.skip(i as int)[0] == wv[i as int]);
        i += 1;
    }
    assert(wv.skip(i as int) =~= Seq::<Seq<char>>::empty());
    s
}

/// The backend section, [`backend_lines`].
pub fn backend_entries(desktop: &str, impls: &Vec<String>, configs: &Vec<(String, Option<String>)>) -> (r:
    Vec<(Status, String, String)>)
    ensures
        entries_view(r@) == backend_lines(
            desktop@,
            impls@.map_values(|w: String| w@),
            configs@.map_values(|c: (String, Option<String>)| config_view(c)),
        ),
{
    let ghost cv = configs@.map_values(|c: (String, Option<String>)| config_view(c));
    let mut v: Vec<(Status, String, String)> = Vec::new();
    if chars_of(desktop).len() == 0 {
        push_entry(
            &mut v,
            Status::Warn,
            string_from("XDG_CURRENT_DESKTOP"),
            string_from("<unset> — the portal has no desktop to match on"),
        );
    } else {
        push_entry(&mut v, Status::Info, string_from("XDG_CURRENT_DESKTOP"), string_from(desktop));
    }
    let detail = if impls.len() == 0 {
        string_from("none installed")
    } else {
        join_words(impls)
    };
    push_entry(&mut v, presence_of(impls.len() > 0, true), string_from("implementations"), detail);
    if configs.len() == 0 {
        push_entry(
            &mut v,
            Status::Warn,
            string_from("portals.conf"),
            string_from("none found — backend choice is unconfigured"),
        );
    }
    let ghost head = entries_view(v@);
    let ghost mapped = cv.map_values(
        |c: (Seq<char>, Option<Seq<char>>)|
            (
                Status::Info,
                "portals.conf"@,
                c.0 + " ["@ + match c.1 {
                    Some(d) => d,
                    None => "no default="@,
                } + "]"@,
            ),
    );
    let mut i: usize = 0;
    while i < configs.len()
        invariant
            i <= configs@.len(),
            cv == configs@.map_values(|c: (String, Option<String>)| config_view(c)),
            mapped == cv.map_values(
                |c: (Seq<char>, Option<Seq<char>>)|
                    (
                        Status::Info,
                        "portals.conf"@,
                        c.0 + " ["@ + match c.1 {
                            Some(d) => d,
                            None => "no default="@,
                        } + "]"@,
                    ),
            ),
            entries_view(v@) == head + mapped.take(i as int),
        decreases configs@.len() - i,
    {
        let mut d = string_from(configs[i].0.as_str());
        push_str(&mut d, " [");
        match &configs[i].1 {
            Some(x) => push_str(&mut d, x.as_str()),
            None => push_str(&mut d, "no default="),
        }
        push_str(&mut d, "]");
        proof {
            assert(cv[i as int] == config_view(configs@[i as int]));
        }
        push_entry(&mut v, Status::Info, string_from("portals.conf"), d);
        assert(mapped.take(i + 1) =~= mapped.take(i as int).push(mapped[i as int]));
        i += 1;
    }
    assert(mapped.take(i as int) =~= mapped);
    assert(entries_view(v@) =~= backend_lines(desktop@, impls@.map_values(|w: String| w@), cv));
    v
}

// ---------------------------------------------------------------------------------
// Session services
// ---------------------------------------------------------------------------------

/// How many session services are checked.
pub const SERVICE_COUNT: usize = 7;

/// Session service `i`: its well-known name, whether it is required, and what breaks
/// without it.
pub open spec fn service_at(i: int) -> (Seq<char>, bool, Seq<char>) {
    if i == 0 {
        ("ca.desrt.dconf"@, true, "GSettings writes fall back to memory"@)
    } else if i == 1 {
        ("org.gtk.vfs.Daemon"@, false, "Files loses trash, recent, mounts"@)
    } else if i == 2 {
        ("org.gtk.vfs.UDisks2VolumeMonitor"@, false, "no removable volumes in Files"@)
    } else if i == 3 {
        ("org.freedesktop.Notifications"@, false, "no desktop notifications"@)
    } else if i == 4 {
        ("org.a11y.Bus"@, false, "accessibility bus absent"@)
    } else if i == 5 {
        ("org.freedesktop.systemd1"@, false, "no transient scopes for launched apps"@)
    } else {
        ("org.freedesktop.FileManager1"@, false, "\"show in file manager\" does nothing"@)
    }
}

/// Session service `i`, [`service_at`], with the object path it is pinged on.
pub fn service(i: usize) -> (r: (&'static str, &'static str, bool, &'static str))
    requires
        i < SERVICE_COUNT,
    ensures
        (r.0@, r.2, r.3@) == service_at(i as int),
{
    match i {
        0 => ("ca.desrt.dconf", "/ca/desrt/dconf/Writer/user", true, "GSettings writes fall back to memory"),
        1 => ("org.gtk.vfs.Daemon", "/org/gtk/vfs/Daemon", false, "Files loses trash, recent, mounts"),
        2 => (
            "org.gtk.vfs.UDisks2VolumeMonitor",
            "/org/gtk/Private/RemoteVolumeMonitor",
            false,
            "no removable volumes in Files",
        ),
        3 => (
            "org.freedesktop.Notifications",
            "/org/freedesktop/Notifications",
            false,
            "no desktop notifications",
        ),
        4 => ("org.a11y.Bus", "/org/a11y/bus", false, "accessibility bus absent"),
        5 => (
            "org.freedesktop.systemd1",
            "/org/freedesktop/systemd1",
            false,
            "no transient scopes for launched apps",
        ),
        _ => (
            "org.freedesktop.FileManager1",
            "/org/freedesktop/FileManager1",
            false,
            "\"show in file manager\" does nothing",
        ),
    }
}

/// What probing one session service found.
#[derive(Clone, Debug)]
pub enum Probe {
    /// The name is not on the bus.
    Absent,
    /// It answered a ping; how it is on the bus (running or activatable).
    Responds(String),
    /// It is registered but the ping failed, with the error text.
    Broken(String),
}

/// A probe as values.
pub open spec fn probe_view(p: Probe) -> Option<Result<Seq<char>, Seq<char>>> {
    match p {
        Probe::Absent => None,
        Probe::Responds(h) => Some(Ok(h@)),
        Probe::Broken(e) => Some(Err(e@)),
    }
}

/// The line for session service `i`: responding passes; absent or not answering is a
/// presence failure, with what breaks or the error.
pub open spec fn service_line(i: int, probe: Option<Result<Seq<char>, Seq<char>>>) -> (
    Status,
    Seq<char>,
    Seq<char>,
) {
    let (name, required, consequence) = service_at(i);
    match probe {
        None => (presence_status(false, required), name, "absent — "@ + consequence),
        Some(Ok(how)) => (Status::Pass, name, "responds ("@ + how + ")"@),
        Some(Err(e)) => (
            presence_status(false, required),
            name,
            "registered but not answering: "@ + short_spec(e),
        ),
    }
}

/// The session-services section, one line per probe in the order of [`service`].
pub fn services_entries(probes: &Vec<Probe>) -> (r: Vec<(Status, String, String)>)
    requires
        probes@.len() == SERVICE_COUNT,
    ensures
        entries_view(r@) == Seq::new(
            probes@.len(),
            |i: int| service_line(i, probe_view(probes@[i])),
        ),
{
    let ghost lines = Seq::new(probes@.len(), |i: int| service_line(i, probe_view(probes@[i])));
    let mut v: Vec<(Status, String, String)> = Vec::new();
    let mut i: usize = 0;
    while i < probes.len()
        invariant
            i <= probes@.len() == SERVICE_COUNT,
            lines == Seq::new(probes@.len(), |i: int| service_line(i, probe_view(probes@[i]))),
            entries_view(v@) == lines.take(i as int),
        decreases probes@.len() - i,
    {
        let (name, _, required, consequence) = service(i);
        match &probes[i] {
            Probe::Absent => {
                let mut d = string_from("absent — ");
                push_str(&mut d, consequence);
                push_entry(&mut v, presence_of(false, required), string_from(name), d);
            },
            Probe::Responds(how) => {
                let mut d = string_from("responds (");
                push_str(&mut d, how.as_str());
                push_str(&mut d, ")");
                push_entry(&mut v, Status::Pass, string_from(name), d);
            },
            Probe::Broken(e) => {
                let mut d = string_from("registered but not answering: ");
                let t = short_text(e.as_str());
                push_str(&mut d, t.as_str());
                push_entry(&mut v, presence_of(false, required), string_from(name), d);
            },
        }
        assert(lines.take(i + 1) =~= lines.take(i as int).push(lines[i as int]));
        i += 1;
    }
    assert(lines.take(i as int) =~= lines);
    v
}

// ---------------------------------------------------------------------------------
// Environment
// ---------------------------------------------------------------------------------

/// Where `WAYLAND_DISPLAY` points: itself when absolute, else joined onto the runtime
/// directory.
pub fn display_path(runtime: &str, display: &str) -> (r: String)
    ensures
        r@ == join_any(runtime@, display@),
{
    let d = chars_of(display);
    if d.len() > 0 && d[0] == '/' {
        string_from(display)
    } else {
        let mut s = string_from(runtime);
        crate::config::push_component(&mut s, display);
        s
    }
}

/// The session variables reported as they are.
pub open spec fn session_var(i: int) -> Seq<char> {
    if i == 0 {
        "DISPLAY"@
    } else if i == 1 {
        "XDG_SESSION_TYPE"@
    } else if i == 2 {
        "XDG_SESSION_DESKTOP"@
    } else if i == 3 {
        "XDG_SESSION_ID"@
    } else {
        "XDG_SEAT"@
    }
}

/// Session variable `i`, [`session_var`].
pub fn session_var_name(i: usize) -> (r: &'static str)
    requires
        i < 5,
    ensures
        r@ == session_var(i as int),
{
    match i {
        0 => "DISPLAY",
        1 => "XDG_SESSION_TYPE",
        2 => "XDG_SESSION_DESKTOP",
        3 => "XDG_SESSION_ID",
        _ => "XDG_SEAT",
    }
}

/// An optional text, or `<unset>`.
pub open spec fn or_unset(v: Option<Seq<char>>) -> Seq<char> {
    match v {
        Some(x) => x,
        None => "<unset>"@,
    }
}

/// The environment section: the runtime directory; whether `WAYLAND_DISPLAY` resolves to
/// a socket in it (`exists` says whether the resolved path exists); the session
/// variables; and, when there is no logind session, a note that the `XDG_SESSION_*`
/// family comes from PAM at login rather than from anything advertised.
pub open spec fn environment_lines(
    runtime: Seq<char>,
    display: Option<Seq<char>>,
    exists: bool,
    vars: Seq<Option<Seq<char>>>,
    session_id_set: bool,
) -> Seq<(Status, Seq<char>, Seq<char>)> {
    seq![
        (Status::Info, "XDG_RUNTIME_DIR"@, if runtime.len() == 0 {
            "<unset>"@
        } else {
            runtime
        }),
        match display {
            Some(d) => if runtime.len() > 0 {
                if exists {
                    (Status::Pass, "WAYLAND_DISPLAY"@, d + " → "@ + join_any(runtime, d))
                } else {
                    (
                        Status::Fail,
                        "WAYLAND_DISPLAY"@,
                        d + " → "@ + join_any(runtime, d) + " does not exist"@,
                    )
                }
            } else {
                (Status::Warn, "WAYLAND_DISPLAY"@, d + " (no runtime dir to resolve it in)"@)
            },
            None => (Status::Warn, "WAYLAND_DISPLAY"@, "<unset> — not a Wayland session"@),
        },
    ] + Seq::new(vars.len(), |i: int| (Status::Info, session_var(i), or_unset(vars[i])))
        + if session_id_set {
        Seq::empty()
    } else {
        seq![
            (
                Status::Info,
                Seq::empty(),
                "no logind session — XDG_SESSION_* comes from pam_systemd at login"@,
            ),
        ]
    }
}

/// An optional text as values.
pub open spec fn opt_text(v: Option<String>) -> Option<Seq<char>> {
    match v {
        Some(x) => Some(x@),
        None => None,
    }
}

/// The environment section, [`environment_lines`]: `runtime` is `XDG_RUNTIME_DIR` (empty
/// when unset), `display` `WAYLAND_DISPLAY`, `exists` whether [`display_path`] of them
/// exists, `vars` the values of the [`session_var`]s, and `session_id_set` whether
/// `XDG_SESSION_ID` is set at all.
pub fn environment_entries(
    runtime: &str,
    display: Option<String>,
    exists: bool,
    vars: &Vec<Option<String>>,
    session_id_set: bool,
) -> (r: Vec<(Status, String, String)>)
    requires
        vars@.len() == 5,
    ensures
        entries_view(r@) == environment_lines(
            runtime@,
            opt_text(display),
            exists,
            vars@.map_values(|x: Option<String>| opt_text(x)),
            session_id_set,
        ),
{
    let ghost xv = vars@.map_values(|x: Option<String>| opt_text(x));
    let ghost dv = opt_text(display);
    let mut v: Vec<(Status, String, String)> = Vec::new();
    let has_runtime = chars_of(runtime).len() > 0;
    let rt = if has_runtime {
        string_from(runtime)
    } else {
        string_from("<unset>")
    };
    push_entry(&mut v, Status::Info, string_from("XDG_RUNTIME_DIR"), rt);
    match display {
        Some(d) => {
            if has_runtime {
                let path = display_path(runtime, d.as_str());
                let mut t = string_from(d.as_str());
                push_str(&mut t, " → ");
                push_str(&mut t, path.as_str());
                if exists {
                    push_entry(&mut v, Status::Pass, string_from("WAYLAND_DISPLAY"), t);
                } else {
                    push_str(&mut t, " does not exist");
                    push_entry(&mut v, Status::Fail, string_from("WAYLAND_DISPLAY"), t);
                }
            } else {
                let mut t = string_from(d.as_str());
                push_str(&mut t, " (no runtime dir to resolve it in)");
                push_entry(&mut v, Status::Warn, string_from("WAYLAND_DISPLAY"), t);
            }
        },
        None => {
            push_entry(
                &mut v,
                Status::Warn,
                string_from("WAYLAND_DISPLAY"),
                string_from("<unset> — not a Wayland session"),
            );
        },
    }
    let ghost head = entries_view(v@);
    let ghost lines = Seq::new(xv.len(), |i: int| (Status::Info, session_var(i), or_unset(xv[i])));
    let mut i: usize = 0;
    while i < vars.len()
        invariant
            i <= vars@.len() == 5,
            xv == vars@.map_values(|x: Option<String>| opt_text(x)),
            lines == Seq::new(xv.len(), |i: int| (Status::Info, session_var(i), or_unset(xv[i]))),
            entries_view(v@) == head + lines.take(i as int),
        decreases vars@.len() - i,
    {
        let value = match &vars[i] {
            Some(x) => string_from(x.as_str()),
            None => string_from("<unset>"),
        };
        proof {
            assert(xv[i as int] == opt_text(vars@[i as int]));
        }
        push_entry(&mut v, Status::Info, string_from(session_var_name(i)), value);
        assert(lines.take(i + 1) =~= lines.take(i as int).push(lines[i as int]));
        i += 1;
    }
    assert(lines.take(i as int) =~= lines);
    if !session_id_set {
        push_entry(
            &mut v,
            Status::Info,
            string_from(""),
            string_from("no logind session — XDG_SESSION_* comes from pam_systemd at login"),
        );
        proof {
            reveal_strlit("");
            assert(""@ =~= Seq::<char>::empty());
        }
    }
    assert(entries_view(v@) =~= environment_lines(runtime@, dv, exists, xv, session_id_set));
    v
}

// ---------------------------------------------------------------------------------
// Interactive calls
// ---------------------------------------------------------------------------------

/// The line for one interactive portal call: its answer, warned when the user
/// cancelled; or the error.
pub open spec fn interactive_line(label: Seq<char>, result: Result<Seq<char>, Seq<char>>) -> (
    Status,
    Seq<char>,
    Seq<char>,
) {
    match result {
        Ok(outcome) => (interactive_status_spec(outcome), label, outcome),
        Err(e) => (Status::Fail, label, short_spec(e)),
    }
}

/// The line for one interactive portal call, [`interactive_line`].
pub fn interactive_entry(label: &str, result: Result<String, String>) -> (r: (Status, String, String))
    ensures
        entry_view(r) == interactive_line(
            label@,
            match result {
                Ok(o) => Ok(o@),
                Err(e) => Err(e@),
            },
        ),
{
    match result {
        Ok(outcome) => (interactive_status(outcome.as_str()), string_from(label), outcome),
        Err(e) => (Status::Fail, string_from(label), short_text(e.as_str())),
    }
}

} // verus!
