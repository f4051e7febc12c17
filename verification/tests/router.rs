use compositor_developer::config::{default_settings, Environment, RouteEntry};
use compositor_developer::mode::{ModeToken, LOCAL_RENDER, RENDER_DISCOVERY, SESSION_PRIMARY};
use compositor_developer::router::{
    composite_on_render_node, desugar, mode_for, primary_mode, primary_render,
    primary_render_string, primary_scanout, render_fallback, scan_fallback, trim_opt,
};

fn advanced(entries: Vec<(&str, Vec<ModeToken>, Option<&str>)>) -> Environment {
    let mut env = default_settings();
    env.render_node = None;
    env.gpu_router = Some(
        entries
            .into_iter()
            .map(|(k, mode, scanout)| {
                (k.to_string(), RouteEntry { mode, scanout: scanout.map(|s| s.to_string()) })
            })
            .collect(),
    );
    env
}

#[test]
fn simple_variant_desugars_to_one_entry() {
    let mut env = default_settings();
    env.render_node = Some("  /dev/dri/renderD128 ".to_string());
    env.scanout_node = Some(" /dev/dri/card0".to_string());
    let r = desugar(&env);
    assert_eq!(primary_render(&r), "/dev/dri/renderD128");
    assert_eq!(primary_render_string(&r), "/dev/dri/renderD128");
    assert_eq!(primary_scanout(&r).as_deref(), Some("/dev/dri/card0"));
    assert_eq!(r.entries.len(), 1);
    assert_eq!(r.entries[0].mode.bits(), 0);
    assert_eq!(primary_mode(&r).bits(), 0);
    assert!(!render_fallback(&r));
    assert!(!scan_fallback(&r));
    assert!(!composite_on_render_node(&r));
}

#[test]
fn blank_scanout_is_none() {
    assert_eq!(trim_opt(&Some("   ".to_string())), None);
    assert_eq!(trim_opt(&None), None);
    assert_eq!(trim_opt(&Some(" a ".to_string())).as_deref(), Some("a"));
}

#[test]
fn single_entry_router_matches_bare_render_node() {
    let r = desugar(&advanced(vec![("/dev/dri/renderD128", vec![], None)]));
    assert_eq!(primary_render(&r), "/dev/dri/renderD128");
    assert_eq!(primary_scanout(&r), None);
    assert_eq!(r.entries.len(), 1);
    assert_eq!(r.entries[0].mode.bits(), 0);
}

#[test]
fn advanced_variant_orders_by_path_and_finds_primary() {
    let r = desugar(&advanced(vec![
        ("/dev/dri/renderD128", vec![ModeToken::Render], Some("/dev/dri/card0")),
        ("/dev/dri/renderD129", vec![ModeToken::SessionPrimary, ModeToken::LocalRender, ModeToken::RenderDiscovery], Some("/dev/dri/card1")),
    ]));
    assert_eq!(primary_render(&r), "/dev/dri/renderD129");
    assert_eq!(primary_scanout(&r).as_deref(), Some("/dev/dri/card1"));
    assert_eq!(r.entries.len(), 2);
    assert_eq!(r.entries[0].render, "/dev/dri/renderD128");
    assert_eq!(r.entries[1].render, "/dev/dri/renderD129");
    let pm = primary_mode(&r).bits();
    assert_eq!(pm & SESSION_PRIMARY, SESSION_PRIMARY);
    assert_eq!(pm & LOCAL_RENDER, LOCAL_RENDER);
    assert_eq!(pm & RENDER_DISCOVERY, RENDER_DISCOVERY);
    assert!(composite_on_render_node(&r));
    assert!(render_fallback(&r));
    assert!(!scan_fallback(&r));
    assert_eq!(mode_for(&r, "/dev/dri/renderD128").bits(), ModeToken::Render.flag().bits());
    // Path equality is component-wise.
    assert_eq!(mode_for(&r, "/dev/dri//renderD128").bits(), ModeToken::Render.flag().bits());
    assert_eq!(mode_for(&r, "/dev/dri/renderD200").bits(), 0);
}

#[test]
fn path_equal_keys_keep_key_order() {
    // " /dev/dri/renderD128" sorts before "/dev/dri/renderD128" as a key; both trim to
    // the same path, and the first in key order is the one `mode_for` finds.
    let r = desugar(&advanced(vec![
        (" /dev/dri/renderD128", vec![ModeToken::SessionPrimary, ModeToken::LocalRender], None),
        ("/dev/dri/renderD128", vec![ModeToken::RenderDiscovery], None),
    ]));
    assert_eq!(r.entries.len(), 2);
    assert_eq!(r.entries[0].mode.bits() & LOCAL_RENDER, LOCAL_RENDER);
    assert_eq!(r.entries[1].mode.bits(), RENDER_DISCOVERY);
    let m = mode_for(&r, "/dev/dri/renderD128").bits();
    assert_eq!(m & LOCAL_RENDER, LOCAL_RENDER);
    assert_eq!(m & RENDER_DISCOVERY, 0);
}
