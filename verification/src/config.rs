//! The compositor's runtime configuration: the settings record, the checks that reject
//! an ambiguous GPU topology, the canonical starting values, and where the settings file
//! lives.
//!
//! The GPU routing fields form two mutually exclusive variants: the simple `render_node`
//! (+ optional `scanout_node`) and the advanced `gpu_router` map from render-node path to
//! [`RouteEntry`]. Exactly one must be present; [`Environment::validate`] says which
//! rule a settings record breaks, if any.

use vstd::prelude::*;

use crate::mode::ModeToken;
use crate::portal::{chars_lt, lemma_text_lt_trans, text_lt};
use crate::text::{
    chars_of, is_prefix, nat_text, push_nat, push_str, string_from, string_of, texts_of, trim,
    trim_chars,
};

verus! {

/// One render node's routing in the advanced (`gpu_router`) variant. The map key is the
/// render-node path; this is its value. `mode` composes per-node behaviour tokens;
/// `scanout` is the KMS card this node scans out to (`None` = its own card).
#[derive(Clone, Debug)]
pub struct RouteEntry {
    pub mode: Vec<ModeToken>,
    pub scanout: Option<String>,
}

/// The complete runtime configuration. Every field is required except the GPU routing
/// fields, of which exactly one variant must be present.
///
/// `gpu_router` holds the map's entries in key order, as the settings map yields them.
#[derive(Clone, Debug)]
pub struct Environment {
    /// Renderer backend: `"vulkan"` or `"gles"`.
    pub renderer: String,
    /// Fall back to GLES if Vulkan initialization fails.
    pub renderer_fallback: bool,
    /// Frame-sync: `""`, `"infence"` or `"infence_2"`.
    pub renderer_sync: String,
    /// Enable HDR output (Vulkan only).
    pub hdr: bool,
    /// Scanout bit depth: `8` (SDR) or `10` (deep color).
    pub depth: u8,
    /// Enable adaptive sync / VRR.
    pub vrr: bool,
    /// Simple variant: the DRM render node path, e.g. `/dev/dri/renderD128`.
    pub render_node: Option<String>,
    /// Simple variant only: an explicit KMS scanout card for split render/scanout systems.
    pub scanout_node: Option<String>,
    /// Advanced variant: render-node path → [`RouteEntry`], in key order.
    pub gpu_router: Option<Vec<(String, RouteEntry)>>,
    /// XDG desktop name advertised to clients.
    pub desktop_name: String,
    /// Developer-log level spec, e.g. `"info,warn,error"`.
    pub log_level: String,
    /// Vulkan diagnostics overlay: `""`, `"vk"`, or `"blit"`.
    pub vk_diag: String,
    /// Capture encoder: `"mesa"`/`"vaapi"` for VAAPI, else NVENC.
    pub capture_encoder: String,
    /// Live-capture video codec: `"av1"` | `"h265"` | `"h264"`.
    pub capture_codec: String,
    /// Live-capture quality: `"lossless"` or `"optimized"`.
    pub capture_quality: String,
    /// Max live-capture frame rate.
    pub capture_refresh_rate_max: u32,
    /// Post-capture software re-encode: `""` = off, `"ffmpeg"` = always.
    pub capture_background_encoder: String,
    /// Fall back to the readback encoder when zero-copy NVENC fails to start.
    pub capture_nvenc_allow_readback_fallback: bool,
    /// Keep the capture's variable frame rate.
    pub capture_variable_frame_rate: bool,
    /// `false` = compositor-tracked window sizing; `true` = client xdg geometry.
    pub window_client_size_fallback: bool,
    /// `false` = fit only the root toplevel; `true` = fit the whole surface tree.
    pub window_subsurface_shrinks: bool,
}

/// Why a settings record is rejected.
#[derive(Clone, Debug, PartialEq, Eq)]
pub enum ConfigError {
    /// Both `render_node` and `gpu_router` are set.
    BothVariants,
    /// Neither `render_node` nor `gpu_router` is set.
    NoVariant,
    /// `scanout_node` is set beside `gpu_router`.
    ScanoutWithRouter,
    /// `render_node` is blank.
    EmptyRenderNode,
    /// `gpu_router` has no entry.
    EmptyRouter,
    /// A `gpu_router` key is blank.
    EmptyKey,
    /// The entry has a routing token but no `scanout` and is not `session_primary`.
    RoutesNowhere { key: String },
    /// The entry has `blit_fallback` without `untile_blit`.
    BlitWithoutUntile { key: String },
    /// A multi-entry `gpu_router` has this many `session_primary` entries, not one.
    PrimaryCount { found: usize },
    /// The `gpu_router` keys are not strictly increasing: a map keyed by text holds
    /// each key once, in order.
    KeysOutOfOrder,
}

/// The `gpu_router` keys are strictly increasing, as a map ordered by key holds them:
/// the order of the list is the key order and no key appears twice.
pub open spec fn keys_ordered(m: Seq<(String, RouteEntry)>) -> bool {
    forall|i: int, j: int| 0 <= i < j < m.len() ==> text_lt(#[trigger] m[i].0@, #[trigger] m[j].0@)
}

/// Whether the entry's token list holds `t`.
pub open spec fn has_token(e: RouteEntry, t: ModeToken) -> bool {
    e.mode@.contains(t)
}

/// What is wrong with one `gpu_router` entry, if anything (the first failing check).
pub open spec fn entry_fault(key: String, e: RouteEntry) -> Option<ConfigError> {
    let primary = has_token(e, ModeToken::SessionPrimary);
    if trim(key@).len() == 0 {
        Some(ConfigError::EmptyKey)
    } else if !(e.scanout is Some || primary) && (has_token(e, ModeToken::ZeroCopy)
        || has_token(e, ModeToken::LocalRender) || has_token(e, ModeToken::BlitFallback)) {
        Some(ConfigError::RoutesNowhere { key })
    } else if has_token(e, ModeToken::BlitFallback) && !has_token(e, ModeToken::UntileBlit) {
        Some(ConfigError::BlitWithoutUntile { key })
    } else {
        None
    }
}

/// The fault of the first faulty entry, in map order.
pub open spec fn first_entry_fault(m: Seq<(String, RouteEntry)>) -> Option<ConfigError>
    decreases m.len(),
{
    if m.len() == 0 {
        None
    } else {
        match entry_fault(m[0].0, m[0].1) {
            Some(f) => Some(f),
            None => first_entry_fault(m.drop_first()),
        }
    }
}

/// How many entries carry the `session_primary` token.
pub open spec fn primary_count(m: Seq<(String, RouteEntry)>) -> nat
    decreases m.len(),
{
    if m.len() == 0 {
        0
    } else {
        (if has_token(m.last().1, ModeToken::SessionPrimary) {
            1nat
        } else {
            0nat
        }) + primary_count(m.drop_last())
    }
}

/// The rule a settings record breaks, checked in this order, or `None` when it is valid.
pub open spec fn validation(env: Environment) -> Option<ConfigError> {
    let simple = env.render_node is Some;
    let advanced = env.gpu_router is Some;
    if simple && advanced {
        Some(ConfigError::BothVariants)
    } else if !simple && !advanced {
        Some(ConfigError::NoVariant)
    } else if advanced && env.scanout_node is Some {
        Some(ConfigError::ScanoutWithRouter)
    } else if simple {
        if trim(env.render_node.unwrap()@).len() == 0 {
            Some(ConfigError::EmptyRenderNode)
        } else {
            None
        }
    } else {
        let m = env.gpu_router.unwrap()@;
        if m.len() == 0 {
            Some(ConfigError::EmptyRouter)
        } else {
            match first_entry_fault(m) {
                Some(f) => Some(f),
                None => if m.len() >= 2 && primary_count(m) != 1 {
                    Some(ConfigError::PrimaryCount { found: primary_count(m) as usize })
                } else if !keys_ordered(m) {
                    Some(ConfigError::KeysOutOfOrder)
                } else {
                    None
                },
            }
        }
    }
}

/// Two errors are the same rule on the same key text.
pub open spec fn same_error(a: ConfigError, b: ConfigError) -> bool {
    match (a, b) {
        (ConfigError::RoutesNowhere { key: x }, ConfigError::RoutesNowhere { key: y }) => x@
            == y@,
        (ConfigError::BlitWithoutUntile { key: x }, ConfigError::BlitWithoutUntile { key: y }) => x@
            == y@,
        (ConfigError::RoutesNowhere { .. }, _) => false,
        (ConfigError::BlitWithoutUntile { .. }, _) => false,
        _ => a == b,
    }
}

/// A copy of a string, character for character.
fn copy_string(s: &String) -> (r: String)
    ensures
        r@ == s@,
{
    string_from(s.as_str())
}

/// Whether `tokens` holds `t`.
pub fn has_mode_token(tokens: &Vec<ModeToken>, t: ModeToken) -> (r: bool)
    ensures
        r == tokens@.contains(t),
{
    let mut i: usize = 0;
    while i < tokens.len()
        invariant
            i <= tokens.len(),
            forall|k: int| 0 <= k < i ==> tokens@[k] != t,
        decreases tokens.len() - i,
    {
        if tokens[i] == t {
            return true;
        }
        i += 1;
    }
    false
}

/// Whether the string is empty once surrounding whitespace is removed.
fn is_blank(s: &String) -> (r: bool)
    ensures
        r == (trim(s@).len() == 0),
{
    let t = trim_chars(s.as_str());
    t.len() == 0
}

/// Whether the keys of `map` strictly increase, [`keys_ordered`].
fn keys_in_order(map: &Vec<(String, RouteEntry)>) -> (r: bool)
    ensures
        r == keys_ordered(map@),
{
    let m = map.len();
    if m == 0 {
        return true;
    }
    let mut prev = chars_of(map[0].0.as_str());
    let mut k: usize = 1;
    while k < m
        invariant
            1 <= k <= m == map@.len(),
            prev@ == map@[k - 1].0@,
            forall|i: int, j: int| 0 <= i < j < k ==> text_lt(#[trigger] map@[i].0@, #[trigger] map@[j].0@),
        decreases m - k,
    {
        let cur = chars_of(map[k].0.as_str());
        if !chars_lt(&prev, &cur) {
            assert(!text_lt(map@[k - 1].0@, map@[k as int].0@));
            return false;
        }
        proof {
            assert forall|i: int, j: int| 0 <= i < j < k + 1 implies text_lt(
                #[trigger] map@[i].0@,
                #[trigger] map@[j].0@,
            ) by {
                if j == k && i < k - 1 {
                    lemma_text_lt_trans(map@[i].0@, map@[k - 1].0@, map@[j].0@);
                }
            }
        }
        prev = cur;
        k += 1;
    }
    true
}

/// Checks one `gpu_router` entry.
fn check_entry(key: &String, e: &RouteEntry) -> (r: Option<ConfigError>)
    ensures
        r is None <==> entry_fault(*key, *e) is None,
        r matches Some(x) ==> same_error(x, entry_fault(*key, *e).unwrap()),
{
    if is_blank(key) {
        return Some(ConfigError::EmptyKey);
    }
    let primary = has_mode_token(&e.mode, ModeToken::SessionPrimary);
    let routes_somewhere = e.scanout.is_some() || primary;
    let blit = has_mode_token(&e.mode, ModeToken::BlitFallback);
    if !routes_somewhere && (has_mode_token(&e.mode, ModeToken::ZeroCopy) || has_mode_token(
        &e.mode,
        ModeToken::LocalRender,
    ) || blit) {
        return Some(ConfigError::RoutesNowhere { key: copy_string(key) });
    }
    if blit && !has_mode_token(&e.mode, ModeToken::UntileBlit) {
        return Some(ConfigError::BlitWithoutUntile { key: copy_string(key) });
    }
    None
}

proof fn lemma_primary_count_bound(m: Seq<(String, RouteEntry)>)
    ensures
        primary_count(m) <= m.len(),
    decreases m.len(),
{
    if m.len() > 0 {
        lemma_primary_count_bound(m.drop_last());
    }
}

proof fn lemma_first_fault_step(m: Seq<(String, RouteEntry)>, i: int)
    requires
        0 <= i < m.len(),
        first_entry_fault(m.take(i)) is None,
    ensures
        entry_fault(m[i].0, m[i].1) is None ==> first_entry_fault(m.take(i + 1)) is None,
        entry_fault(m[i].0, m[i].1) is Some ==> first_entry_fault(m) == entry_fault(
            m[i].0,
            m[i].1,
        ),
    decreases i,
{
    if i > 0 {
        let t = m.take(i);
        let u = m.take(i + 1);
        assert(t.drop_first() =~= m.drop_first().take(i - 1));
        assert(u.drop_first() =~= m.drop_first().take(i));
        assert(t[0] == m[0]);
        assert(u[0] == m[0]);
        assert(entry_fault(m[0].0, m[0].1) is None);
        assert(first_entry_fault(m.drop_first().take(i - 1)) is None);
        assert(m.drop_first()[i - 1] == m[i]);
        lemma_first_fault_step(m.drop_first(), i - 1);
        assert(first_entry_fault(u) == first_entry_fault(m.drop_first().take(i)));
        assert(first_entry_fault(m) == first_entry_fault(m.drop_first()));
    } else {
        assert(m.take(1).drop_first() =~= Seq::<(String, RouteEntry)>::empty());
        assert(m.take(1)[0] == m[0]);
        assert(first_entry_fault(m.take(1).drop_first()) is None);
        if entry_fault(m[0].0, m[0].1) is None {
            assert(first_entry_fault(m.take(1)) == first_entry_fault(m.take(1).drop_first()));
        }
    }
}

impl Environment {
    /// Strict validation of the two mutually exclusive GPU routing variants: `Ok` when
    /// the record is usable, else the first rule it breaks.
    pub fn validate(&self) -> (r: Result<(), ConfigError>)
        ensures
            r is Ok <==> validation(*self) is None,
            r matches Err(x) ==> same_error(x, validation(*self).unwrap()),
    {
        let simple = self.render_node.is_some();
        let advanced = self.gpu_router.is_some();
        if simple && advanced {
            return Err(ConfigError::BothVariants);
        }
        if !simple && !advanced {
            return Err(ConfigError::NoVariant);
        }
        if advanced && self.scanout_node.is_some() {
            return Err(ConfigError::ScanoutWithRouter);
        }
        match &self.render_node {
            Some(r) => {
                if is_blank(r) {
                    return Err(ConfigError::EmptyRenderNode);
                }
                return Ok(());
            },
            None => {},
        }
        let map = match &self.gpu_router {
            Some(m) => m,
            None => {
                return Ok(());
            },
        };
        if map.len() == 0 {
            return Err(ConfigError::EmptyRouter);
        }
        let mut primaries: usize = 0;
        let mut i: usize = 0;
        while i < map.len()
            invariant
                i <= map.len(),
                first_entry_fault(map@.take(i as int)) is None,
                primaries == primary_count(map@.take(i as int)),
                primaries <= i,
                self.gpu_router matches Some(g) && g@ == map@,
                self.render_node is None,
                self.scanout_node is None,
            decreases map.len() - i,
        {
            let key = &map[i].0;
            let e = &map[i].1;
            proof {
                lemma_first_fault_step(map@, i as int);
                assert(map@.take(i + 1).drop_last() =~= map@.take(i as int));
            }
            match check_entry(key, e) {
                Some(f) => {
                    assert(map@[i as int] == (*key, *e));
                    assert(first_entry_fault(map@) == entry_fault(*key, *e));
                    return Err(f);
                },
                None => {},
            }
            if has_mode_token(&e.mode, ModeToken::SessionPrimary) {
                primaries += 1;
            }
            i += 1;
        }
        assert(map@.take(map.len() as int) =~= map@);
        if map.len() >= 2 && primaries != 1 {
            return Err(ConfigError::PrimaryCount { found: primaries });
        }
        if !keys_in_order(map) {
            return Err(ConfigError::KeysOutOfOrder);
        }
        Ok(())
    }
}

/// The text of an optional string.
pub open spec fn opt_view(o: Option<String>) -> Option<Seq<char>> {
    match o {
        Some(s) => Some(s@),
        None => None,
    }
}

/// The flag that takes the settings path as its next argument.
pub open spec fn config_flag() -> Seq<char> {
    seq!['-', '-', 'c', 'o', 'n', 'f', 'i', 'g', '-', 'f', 'i', 'l', 'e']
}

/// The flag that carries the settings path after `=`.
pub open spec fn config_flag_eq() -> Seq<char> {
    config_flag().push('=')
}

/// The settings path named on a command line: the first argument that is
/// `--config-file=<path>` gives `<path>`; the first that is `--config-file` gives the
/// argument after it, or nothing when it is the last.
pub open spec fn config_arg(args: Seq<Seq<char>>) -> Option<Seq<char>>
    decreases args.len(),
{
    if args.len() == 0 {
        None
    } else if is_prefix(config_flag_eq(), args[0]) {
        Some(args[0].skip(config_flag_eq().len() as int))
    } else if args[0] == config_flag() {
        if args.len() >= 2 {
            Some(args[1])
        } else {
            None
        }
    } else {
        config_arg(args.drop_first())
    }
}

/// The characters of `v` from index `from` on.
fn chars_from(v: &Vec<char>, from: usize) -> (r: String)
    requires
        from <= v.len(),
    ensures
        r@ == v@.skip(from as int),
{
    let mut out: Vec<char> = Vec::new();
    let mut k: usize = from;
    while k < v.len()
        invariant
            from <= k <= v.len(),
            out@ == v@.subrange(from as int, k as int),
        decreases v.len() - k,
    {
        out.push(v[k]);
        k += 1;
        assert(out@ =~= v@.subrange(from as int, k as int));
    }
    assert(v@.subrange(from as int, v.len() as int) =~= v@.skip(from as int));
    string_of(&out)
}

/// Extracts a `--config-file` value from a list of command-line arguments.
pub fn config_file_arg(args: &Vec<String>) -> (r: Option<String>)
    ensures
        opt_view(r) == config_arg(texts_of(args@)),
{
    let flag_eq = chars_of("--config-file=");
    let flag = chars_of("--config-file");
    proof {
        reveal_strlit("--config-file=");
        reveal_strlit("--config-file");
        assert(flag_eq@ =~= config_flag_eq());
        assert(flag@ =~= config_flag());
    }
    let ghost all = texts_of(args@);
    let mut i: usize = 0;
    assert(all.skip(0) =~= all);
    while i < args.len()
        invariant
            i <= args.len(),
            all == texts_of(args@),
            flag_eq@ == config_flag_eq(),
            flag@ == config_flag(),
            config_arg(all) == config_arg(all.skip(i as int)),
        decreases args.len() - i,
    {
        let a = chars_of(args[i].as_str());
        proof {
            assert(all.skip(i as int)[0] == a@);
            assert(all.skip(i as int).drop_first() =~= all.skip(i + 1));
        }
        if crate::text::starts_with_chars(&a, &flag_eq) {
            return Some(chars_from(&a, flag_eq.len()));
        }
        if crate::text::chars_eq(&a, &flag) {
            if i + 1 < args.len() {
                proof {
                    assert(all.skip(i as int)[1] == args@[i + 1]@);
                }
                return Some(string_from(args[i + 1].as_str()));
            }
            return None;
        }
        i += 1;
    }
    None
}

/// Canonical complete starting settings, shared by the configuration tools: the simple
/// `render_node` variant on `/dev/dri/renderD128` and a value for every required field.
pub fn default_settings() -> (r: Environment)
    ensures
        r.renderer@ == "vulkan"@,
        r.renderer_fallback,
        r.renderer_sync@ == Seq::<char>::empty(),
        !r.hdr,
        r.depth == 8,
        !r.vrr,
        opt_view(r.render_node) == Some("/dev/dri/renderD128"@),
        r.scanout_node is None,
        r.gpu_router is None,
        r.desktop_name@ == "Y5Compositor"@,
        r.log_level@ == "info,warn,error"@,
        r.vk_diag@ == Seq::<char>::empty(),
        r.capture_encoder@ == "nvenc"@,
        r.capture_codec@ == "av1"@,
        r.capture_quality@ == "optimized"@,
        r.capture_refresh_rate_max == 120,
        r.capture_background_encoder@ == "ffmpeg"@,
        !r.capture_nvenc_allow_readback_fallback,
        !r.capture_variable_frame_rate,
        !r.window_client_size_fallback,
        !r.window_subsurface_shrinks,
{
    Environment {
        renderer: string_from("vulkan"),
        renderer_fallback: true,
        renderer_sync: String::new(),
        hdr: false,
        depth: 8,
        vrr: false,
        render_node: Some(string_from("/dev/dri/renderD128")),
        scanout_node: None,
        gpu_router: None,
        desktop_name: string_from("Y5Compositor"),
        log_level: string_from("info,warn,error"),
        vk_diag: String::new(),
        capture_encoder: string_from("nvenc"),
        capture_codec: string_from("av1"),
        capture_quality: string_from("optimized"),
        capture_refresh_rate_max: 120,
        capture_background_encoder: string_from("ffmpeg"),
        capture_nvenc_allow_readback_fallback: false,
        capture_variable_frame_rate: false,
        window_client_size_fallback: false,
        window_subsurface_shrinks: false,
    }
}

/// `base` with the relative component `c` appended, as a path join does: a `/` goes
/// between them unless `base` is empty or already ends in one.
pub open spec fn join_path(base: Seq<char>, c: Seq<char>) -> Seq<char> {
    if base.len() == 0 || base.last() == '/' {
        base + c
    } else {
        base + seq!['/'] + c
    }
}

/// Appends the relative component `c` to the path `base`.
pub(crate) fn push_component(base: &mut String, c: &str)
    ensures
        final(base)@ == join_path(old(base)@, c@),
{
    let v = chars_of(base.as_str());
    if v.len() > 0 && v[v.len() - 1] != '/' {
        crate::text::push_char(base, '/');
    }
    crate::text::push_str(base, c);
}

/// Where the settings file lives, given the `--config-file` argument, `XDG_CONFIG_HOME`
/// and `HOME`: the argument if given, else `<XDG_CONFIG_HOME>/y5.compositor/settings.json`
/// when that is set and non-empty, else `<HOME>/.config/y5.compositor/settings.json`;
/// nothing when neither directory is known.
pub open spec fn settings_path_spec(
    arg: Option<Seq<char>>,
    xdg: Option<Seq<char>>,
    home: Option<Seq<char>>,
) -> Option<Seq<char>> {
    let dir = seq!['y', '5', '.', 'c', 'o', 'm', 'p', 'o', 's', 'i', 't', 'o', 'r'];
    let file = seq!['s', 'e', 't', 't', 'i', 'n', 'g', 's', '.', 'j', 's', 'o', 'n'];
    let dot_config = seq!['.', 'c', 'o', 'n', 'f', 'i', 'g'];
    match arg {
        Some(p) => Some(p),
        None => {
            let base = match xdg {
                Some(x) => if x.len() > 0 {
                    Some(x)
                } else {
                    match home {
                        Some(h) => Some(join_path(h, dot_config)),
                        None => None,
                    }
                },
                None => match home {
                    Some(h) => Some(join_path(h, dot_config)),
                    None => None,
                },
            };
            match base {
                Some(b) => Some(join_path(join_path(b, dir), file)),
                None => None,
            }
        },
    }
}

/// The settings-file path from the `--config-file` argument and the two directory
/// variables (see [`settings_path_spec`]).
pub fn settings_path(arg: Option<String>, xdg: Option<String>, home: Option<String>) -> (r: Option<
    String,
>)
    ensures
        opt_view(r) == settings_path_spec(opt_view(arg), opt_view(xdg), opt_view(home)),
{
    proof {
        reveal_strlit("y5.compositor");
        reveal_strlit("settings.json");
        reveal_strlit(".config");
    }
    let ghost dir_lit = "y5.compositor"@;
    let ghost file_lit = "settings.json"@;
    let ghost cfg_lit = ".config"@;
    assert(dir_lit =~= seq!['y', '5', '.', 'c', 'o', 'm', 'p', 'o', 's', 'i', 't', 'o', 'r']);
    assert(file_lit =~= seq!['s', 'e', 't', 't', 'i', 'n', 'g', 's', '.', 'j', 's', 'o', 'n']);
    assert(cfg_lit =~= seq!['.', 'c', 'o', 'n', 'f', 'i', 'g']);
    if let Some(p) = arg {
        return Some(p);
    }
    let mut base = match xdg {
        Some(x) if !x.as_str().is_empty() => x,
        _ => match home {
            Some(h) => {
                let mut h = h;
                push_component(&mut h, ".config");
                h
            },
            None => {
                return None;
            },
        },
    };
    push_component(&mut base, "y5.compositor");
    push_component(&mut base, "settings.json");
    Some(base)
}

/// What follows the path in the message for a rejected record.
pub open spec fn error_text(err: ConfigError) -> Seq<char> {
    match err {
        ConfigError::BothVariants => ": set EITHER `render_node` (simple) OR `gpu_router` (advanced), never both."@,
        ConfigError::NoVariant => ": must set `render_node` (single-GPU) or `gpu_router` (multi-GPU)."@,
        ConfigError::ScanoutWithRouter => ": `scanout_node` is only valid with `render_node`; put `scanout` inside each `gpu_router` entry."@,
        ConfigError::EmptyRenderNode => ": `render_node` is empty."@,
        ConfigError::EmptyRouter => ": `gpu_router` is empty; add at least one render-node entry, or use `render_node`."@,
        ConfigError::EmptyKey => ": `gpu_router` has an empty render-node key."@,
        ConfigError::KeysOutOfOrder => ": `gpu_router` keys must each appear once, in key order."@,
        ConfigError::RoutesNowhere { key } => ": `gpu_router["@ + key@ + "]` has a routing token (zero_copy/local_render/blit_fallback) but no `scanout` and is not `session_primary` — it routes nowhere."@,
        ConfigError::BlitWithoutUntile { key } => ": `gpu_router["@ + key@ + "]` has `blit_fallback` without `untile_blit` — nothing to fall back to."@,
        ConfigError::PrimaryCount { found } => ": a multi-entry `gpu_router` needs exactly one `session_primary` entry (found "@ + nat_text(found as nat) + ")."@,
    }
}

/// The message for a rejected settings record read from `path`: `settings <path>` and
/// the rule it breaks.
pub open spec fn describe_text(err: ConfigError, path: Seq<char>) -> Seq<char> {
    "settings "@ + path + error_text(err)
}

/// The message for a rejected settings record, [`describe_text`].
pub fn describe(err: &ConfigError, path: &str) -> (r: String)
    ensures
        r@ == describe_text(*err, path@),
{
    let mut s = string_from("settings ");
    push_str(&mut s, path);
    let ghost head = s@;
        match err {
            ConfigError::BothVariants => push_str(&mut s, ": set EITHER `render_node` (simple) OR `gpu_router` (advanced), never both."),
            ConfigError::NoVariant => push_str(&mut s, ": must set `render_node` (single-GPU) or `gpu_router` (multi-GPU)."),
            ConfigError::ScanoutWithRouter => push_str(&mut s, ": `scanout_node` is only valid with `render_node`; put `scanout` inside each `gpu_router` entry."),
            ConfigError::EmptyRenderNode => push_str(&mut s, ": `render_node` is empty."),
            ConfigError::EmptyRouter => push_str(&mut s, ": `gpu_router` is empty; add at least one render-node entry, or use `render_node`."),
            ConfigError::EmptyKey => push_str(&mut s, ": `gpu_router` has an empty render-node key."),
            ConfigError::KeysOutOfOrder => push_str(&mut s, ": `gpu_router` keys must each appear once, in key order."),
            ConfigError::RoutesNowhere { key } => {
                push_str(&mut s, ": `gpu_router[");
                push_str(&mut s, key.as_str());
                push_str(&mut s, "]` has a routing token (zero_copy/local_render/blit_fallback) but no `scanout` and is not `session_primary` — it routes nowhere.");
            },
            ConfigError::BlitWithoutUntile { key } => {
                push_str(&mut s, ": `gpu_router[");
                push_str(&mut s, key.as_str());
                push_str(&mut s, "]` has `blit_fallback` without `untile_blit` — nothing to fall back to.");
            },
            ConfigError::PrimaryCount { found } => {
                push_str(&mut s, ": a multi-entry `gpu_router` needs exactly one `session_primary` entry (found ");
                push_nat(&mut s, *found as u64);
                push_str(&mut s, ").");
            },
        }
    assert(s@ =~= describe_text(*err, path@));
    s
}

/// Whether `a` is the flag [`config_arg`] looks for, in either form.
pub open spec fn is_config_flag(a: Seq<char>) -> bool {
    is_prefix(config_flag_eq(), a) || a == config_flag()
}

/// The settings path comes from the first argument that is the flag: after `=`, or the
/// next argument verbatim (nothing when it is the last); arguments after it never matter.
/// With no such argument there is none.
pub proof fn lemma_config_arg_first(args: Seq<Seq<char>>, i: int)
    requires
        0 <= i < args.len(),
        is_config_flag(args[i]),
        forall|j: int| 0 <= j < i ==> !is_config_flag(#[trigger] args[j]),
    ensures
        config_arg(args) == if is_prefix(config_flag_eq(), args[i]) {
            Some(args[i].skip(config_flag_eq().len() as int))
        } else if i + 1 < args.len() {
            Some(args[i + 1])
        } else {
            None
        },
    decreases i,
{
    if i > 0 {
        assert(!is_config_flag(args[0]));
        assert forall|j: int| 0 <= j < i - 1 implies !is_config_flag(#[trigger] args.drop_first()[j]) by {
            assert(args.drop_first()[j] == args[j + 1]);
        }
        assert(args.drop_first()[i - 1] == args[i]);
        lemma_config_arg_first(args.drop_first(), i - 1);
        if i + 1 < args.len() {
            assert(args.drop_first()[i] == args[i + 1]);
        }
    }
}

/// Without the flag among the arguments there is no settings path.
pub proof fn lemma_config_arg_absent(args: Seq<Seq<char>>)
    requires
        forall|j: int| 0 <= j < args.len() ==> !is_config_flag(#[trigger] args[j]),
    ensures
        config_arg(args) is None,
    decreases args.len(),
{
    if args.len() > 0 {
        assert(!is_config_flag(args[0]));
        assert forall|j: int| 0 <= j < args.len() - 1 implies !is_config_flag(#[trigger] args.drop_first()[j]) by {
            assert(args.drop_first()[j] == args[j + 1]);
        }
        lemma_config_arg_absent(args.drop_first());
    }
}

/// An entry that carries a routing token (`zero_copy`, `local_render` or
/// `blit_fallback`) but has no scanout and is not `session_primary` routes nowhere: with
/// a non-blank key it is rejected as such, and a router holding one never validates.
pub proof fn lemma_routes_nowhere(key: String, e: RouteEntry)
    requires
        trim(key@).len() > 0,
        e.scanout is None,
        !has_token(e, ModeToken::SessionPrimary),
        has_token(e, ModeToken::ZeroCopy) || has_token(e, ModeToken::LocalRender) || has_token(
            e,
            ModeToken::BlitFallback,
        ),
    ensures
        entry_fault(key, e) == Some(ConfigError::RoutesNowhere { key }),
{
}

/// A router with a faulty entry never validates: the first faulty entry's fault is
/// reported unless an earlier rule already failed.
pub proof fn lemma_faulty_entry_rejected(env: Environment, i: int)
    requires
        env.gpu_router matches Some(m) && 0 <= i < m@.len() && entry_fault(m@[i].0, m@[i].1) is Some,
    ensures
        validation(env) is Some,
{
    let m = env.gpu_router.unwrap()@;
    lemma_fault_found(m, i);
}

/// A router record (no render node, no scanout node) whose entries before `i` are sound
/// and whose entry `i` is faulty is rejected with exactly that entry's fault: an entry
/// that routes nowhere is reported as `RoutesNowhere` with its own key.
pub proof fn lemma_first_fault_reported(env: Environment, i: int)
    requires
        env.render_node is None,
        env.scanout_node is None,
        env.gpu_router matches Some(m) && 0 <= i < m@.len() && entry_fault(m@[i].0, m@[i].1) is Some
            && forall|j: int| 0 <= j < i ==> (#[trigger] entry_fault(m@[j].0, m@[j].1)) is None,
    ensures
        validation(env) == entry_fault(env.gpu_router.unwrap()@[i].0, env.gpu_router.unwrap()@[i].1),
{
    lemma_first_fault_is(env.gpu_router.unwrap()@, i);
}

proof fn lemma_first_fault_is(m: Seq<(String, RouteEntry)>, i: int)
    requires
        0 <= i < m.len(),
        entry_fault(m[i].0, m[i].1) is Some,
        forall|j: int| 0 <= j < i ==> (#[trigger] entry_fault(m[j].0, m[j].1)) is None,
    ensures
        first_entry_fault(m) == entry_fault(m[i].0, m[i].1),
    decreases i,
{
    if i > 0 {
        assert(entry_fault(m[0].0, m[0].1) is None);
        let d = m.drop_first();
        assert(d[i - 1] == m[i]);
        assert forall|j: int| 0 <= j < i - 1 implies (#[trigger] entry_fault(d[j].0, d[j].1)) is None by {
            assert(d[j] == m[j + 1]);
            assert(entry_fault(m[j + 1].0, m[j + 1].1) is None);
        }
        lemma_first_fault_is(d, i - 1);
    }
}

proof fn lemma_fault_found(m: Seq<(String, RouteEntry)>, i: int)
    requires
        0 <= i < m.len(),
        entry_fault(m[i].0, m[i].1) is Some,
    ensures
        first_entry_fault(m) is Some,
    decreases i,
{
    if i > 0 && entry_fault(m[0].0, m[0].1) is None {
        assert(m.drop_first()[i - 1] == m[i]);
        lemma_fault_found(m.drop_first(), i - 1);
    }
}

} // verus!
