use compositor_developer::config::{
    config_file_arg, default_settings, describe, settings_path, ConfigError, Environment, RouteEntry,
};
use compositor_developer::mode::ModeToken;

fn simple(render: &str) -> Environment {
    let mut env = default_settings();
    env.render_node = Some(render.to_string());
    env
}

fn advanced(entries: Vec<(&str, Vec<ModeToken>, Option<&str>)>) -> Environment {
    let mut env = default_settings();
    env.render_node = None;
    env.gpu_router = Some(
        entries
            .into_iter()
            .map(|(k, mode, scanout)| {
                (k.to_string(), RouteEntry { mode, scanout: scanout.map(|s| s.to_string()) })
            })
            .collect(),
    );
    env
}

#[test]
fn config_file_arg_forms() {
    let args = |v: &[&str]| v.iter().map(|s| s.to_string()).collect::<Vec<String>>();
    assert_eq!(config_file_arg(&args(&["y5", "--config-file=/tmp/a.json"])), Some("/tmp/a.json".to_string()));
    assert_eq!(config_file_arg(&args(&["y5", "--config-file", "/tmp/b.json"])), Some("/tmp/b.json".to_string()));
    assert_eq!(config_file_arg(&args(&["y5", "--config-file"])), None);
    assert_eq!(config_file_arg(&args(&["y5", "--other", "x"])), None);
    assert_eq!(config_file_arg(&args(&[])), None);
    // The first occurrence wins.
    assert_eq!(
        config_file_arg(&args(&["--config-file=first", "--config-file=second"])),
        Some("first".to_string())
    );
    assert_eq!(config_file_arg(&args(&["--config-file="])), Some(String::new()));
}

#[test]
fn default_settings_values() {
    let d = default_settings();
    assert_eq!(d.renderer, "vulkan");
    assert!(d.renderer_fallback);
    assert_eq!(d.renderer_sync, "");
    assert_eq!(d.depth, 8);
    assert_eq!(d.render_node.as_deref(), Some("/dev/dri/renderD128"));
    assert!(d.scanout_node.is_none());
    assert!(d.gpu_router.is_none());
    assert_eq!(d.desktop_name, "Y5Compositor");
    assert_eq!(d.log_level, "info,warn,error");
    assert_eq!(d.capture_encoder, "nvenc");
    assert_eq!(d.capture_codec, "av1");
    assert_eq!(d.capture_quality, "optimized");
    assert_eq!(d.capture_refresh_rate_max, 120);
    assert_eq!(d.capture_background_encoder, "ffmpeg");
    // The canonical defaults are themselves a valid record.
    assert_eq!(d.validate(), Ok(()));
}

#[test]
fn validate_variant_rules() {
    let mut both = simple("/dev/dri/renderD128");
    both.gpu_router = Some(vec![]);
    assert_eq!(both.validate(), Err(ConfigError::BothVariants));

    let mut neither = simple("x");
    neither.render_node = None;
    assert_eq!(neither.validate(), Err(ConfigError::NoVariant));

    let mut scan = advanced(vec![("/dev/dri/renderD128", vec![], None)]);
    scan.scanout_node = Some("/dev/dri/card0".to_string());
    assert_eq!(scan.validate(), Err(ConfigError::ScanoutWithRouter));

    assert_eq!(simple("   ").validate(), Err(ConfigError::EmptyRenderNode));
    let mut with_scanout = simple("/dev/dri/renderD128");
    with_scanout.scanout_node = Some("/dev/dri/card1".to_string());
    assert_eq!(with_scanout.validate(), Ok(()));

    assert_eq!(advanced(vec![]).validate(), Err(ConfigError::EmptyRouter));
}

#[test]
fn validate_router_entries() {
    assert_eq!(advanced(vec![(" ", vec![], None)]).validate(), Err(ConfigError::EmptyKey));
    assert_eq!(
        advanced(vec![("/dev/dri/renderD129", vec![ModeToken::ZeroCopy], None)]).validate(),
        Err(ConfigError::RoutesNowhere { key: "/dev/dri/renderD129".to_string() })
    );
    // A scanout or the primary token gives the routing token somewhere to go.
    assert_eq!(
        advanced(vec![("/dev/dri/renderD129", vec![ModeToken::ZeroCopy], Some("/dev/dri/card0"))]).validate(),
        Ok(())
    );
    assert_eq!(
        advanced(vec![(
            "/dev/dri/renderD129",
            vec![ModeToken::SessionPrimary, ModeToken::LocalRender],
            None
        )])
        .validate(),
        Ok(())
    );
    assert_eq!(
        advanced(vec![("/dev/dri/renderD129", vec![ModeToken::BlitFallback], Some("/dev/dri/card0"))]).validate(),
        Err(ConfigError::BlitWithoutUntile { key: "/dev/dri/renderD129".to_string() })
    );
    assert_eq!(
        advanced(vec![(
            "/dev/dri/renderD129",
            vec![ModeToken::BlitFallback, ModeToken::UntileBlit],
            Some("/dev/dri/card0")
        )])
        .validate(),
        Ok(())
    );
}

#[test]
fn validate_primary_count() {
    let none = advanced(vec![("/dev/dri/renderD128", vec![], None), ("/dev/dri/renderD129", vec![], None)]);
    assert_eq!(none.validate(), Err(ConfigError::PrimaryCount { found: 0 }));
    let two = advanced(vec![
        ("/dev/dri/renderD128", vec![ModeToken::SessionPrimary], None),
        ("/dev/dri/renderD129", vec![ModeToken::SessionPrimary], None),
    ]);
    assert_eq!(two.validate(), Err(ConfigError::PrimaryCount { found: 2 }));
    let one = advanced(vec![
        ("/dev/dri/renderD128", vec![ModeToken::SessionPrimary], None),
        ("/dev/dri/renderD129", vec![], Some("/dev/dri/card1")),
    ]);
    assert_eq!(one.validate(), Ok(()));
    // A single-entry map needs no primary token.
    assert_eq!(advanced(vec![("/dev/dri/renderD128", vec![], None)]).validate(), Ok(()));
}

#[test]
fn settings_path_resolution() {
    assert_eq!(
        settings_path(Some("/etc/y5.json".to_string()), Some("/x".to_string()), Some("/home/u".to_string())),
        Some("/etc/y5.json".to_string())
    );
    assert_eq!(
        settings_path(None, Some("/home/u/.cfg".to_string()), Some("/home/u".to_string())),
        Some("/home/u/.cfg/y5.compositor/settings.json".to_string())
    );
    assert_eq!(
        settings_path(None, Some(String::new()), Some("/home/u".to_string())),
        Some("/home/u/.config/y5.compositor/settings.json".to_string())
    );
    assert_eq!(
        settings_path(None, None, Some("/home/u/".to_string())),
        Some("/home/u/.config/y5.compositor/settings.json".to_string())
    );
    assert_eq!(settings_path(None, None, None), None);
}

#[test]
fn router_keys_must_be_in_key_order() {
    let ok = advanced(vec![
        ("/dev/dri/renderD128", vec![ModeToken::SessionPrimary], None),
        ("/dev/dri/renderD129", vec![], None),
    ]);
    assert_eq!(ok.validate(), Ok(()));
    let swapped = advanced(vec![
        ("/dev/dri/renderD129", vec![], None),
        ("/dev/dri/renderD128", vec![ModeToken::SessionPrimary], None),
    ]);
    assert_eq!(swapped.validate(), Err(ConfigError::KeysOutOfOrder));
    let twice = advanced(vec![
        ("/dev/dri/renderD128", vec![ModeToken::SessionPrimary], None),
        ("/dev/dri/renderD128", vec![], None),
    ]);
    assert_eq!(twice.validate(), Err(ConfigError::KeysOutOfOrder));
}

#[test]
fn validation_messages() {
    assert_eq!(
        describe(&ConfigError::EmptyRenderNode, "/etc/y5/settings.json"),
        "settings /etc/y5/settings.json: `render_node` is empty."
    );
    assert_eq!(
        describe(&ConfigError::PrimaryCount { found: 2 }, "s.json"),
        "settings s.json: a multi-entry `gpu_router` needs exactly one `session_primary` entry (found 2)."
    );
    assert_eq!(
        describe(&ConfigError::BlitWithoutUntile { key: "/dev/dri/renderD128".to_string() }, "s.json"),
        "settings s.json: `gpu_router[/dev/dri/renderD128]` has `blit_fallback` without `untile_blit` — nothing to fall back to."
    );
    assert_eq!(
        describe(&ConfigError::RoutesNowhere { key: "k".to_string() }, "p"),
        "settings p: `gpu_router[k]` has a routing token (zero_copy/local_render/blit_fallback) but no `scanout` and is not `session_primary` — it routes nowhere."
    );
    assert_eq!(
        describe(&ConfigError::BothVariants, "p"),
        "settings p: set EITHER `render_node` (simple) OR `gpu_router` (advanced), never both."
    );
}
