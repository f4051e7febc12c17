use compositor_developer::portal::{
    pam_keyring, sort_services, collection_of, default_alias, is_default_bus, keyring_candidates, keyring_module, Names,
    Report, Status,
};

fn names() -> Names {
    Names {
        running: vec!["org.freedesktop.portal.Desktop".to_string(), "org.a11y.Bus".to_string()],
        activatable: vec![
            "org.freedesktop.portal.Desktop".to_string(),
            "org.freedesktop.impl.portal.desktop.gtk".to_string(),
            "org.freedesktop.impl.portal.desktop.gnome".to_string(),
        ],
    }
}

#[test]
fn names_presence() {
    let n = names();
    assert!(n.has("org.a11y.Bus"));
    assert!(!n.has("org.example"));
    assert_eq!(n.how("org.freedesktop.portal.Desktop"), "running, activatable");
    assert_eq!(n.how("org.a11y.Bus"), "running");
    assert_eq!(n.how("org.freedesktop.impl.portal.desktop.gtk"), "activatable");
    assert_eq!(n.how("org.example"), "absent");
}

#[test]
fn names_with_prefix_sorted_unique() {
    let n = names();
    assert_eq!(
        n.with_prefix("org.freedesktop."),
        vec![
            "org.freedesktop.impl.portal.desktop.gnome".to_string(),
            "org.freedesktop.impl.portal.desktop.gtk".to_string(),
            "org.freedesktop.portal.Desktop".to_string(),
        ]
    );
    assert!(n.with_prefix("com.").is_empty());
}

#[test]
fn default_bus_detection() {
    let dir = Some("/run/user/1000".to_string());
    assert_eq!(is_default_bus("unix:path=/run/user/1000/bus", dir.clone()), Some(true));
    assert_eq!(is_default_bus("unix:path=/run/user/1000/bus,guid=abc", dir.clone()), Some(true));
    assert_eq!(is_default_bus("unix:path=/tmp/private/bus", dir.clone()), Some(false));
    assert_eq!(is_default_bus("unix:path=/run/user/1000//bus", dir.clone()), Some(true));
    assert_eq!(is_default_bus("tcp:host=localhost", dir.clone()), None);
    assert_eq!(is_default_bus("unix:path=/run/user/1000/bus", None), None);
}

#[test]
fn report_counts_and_lines() {
    let mut r = Report::default();
    assert_eq!(r.summary(), "all checks passed");
    let ok = r.ok("portal", "running");
    assert_eq!(ok, format!("  OK    {:<34}running", "portal"));
    r.warn("trash", "missing");
    assert_eq!(r.summary(), "no failures, 1 warning(s)");
    let fail = r.fail("file chooser", "absent");
    assert!(fail.starts_with("  FAIL  file chooser"));
    r.info("address", "unix:path=/x");
    assert_eq!((r.failures, r.warnings), (1, 1));
    r.presence(true, true, "a", "");
    r.presence(false, true, "b", "");
    r.presence(false, false, "c", "");
    assert_eq!((r.failures, r.warnings), (2, 2));
    assert_eq!(r.summary(), "2 failure(s), 2 warning(s)");
    let long = "x".repeat(40);
    assert_eq!(r.line(Status::Info, &long, "d"), format!("        {long}d"));
    assert_eq!(Status::Warn.tag(), "WARN");
}

#[test]
fn keyring_records() {
    assert_eq!(default_alias(Some("/".to_string())), None);
    assert_eq!(default_alias(Some("/org/x/login".to_string())).as_deref(), Some("/org/x/login"));
    assert_eq!(default_alias(None), None);
    let c = collection_of("/org/x/login".to_string(), Some("  ".to_string()), None, &Some("/org/x/login".to_string()));
    assert_eq!(c.label, "<unnamed>");
    assert!(c.locked);
    assert!(c.is_default);
    let d = collection_of("/org/x/other".to_string(), Some("Work".to_string()), Some(false), &None);
    assert_eq!(d.label, "Work");
    assert!(!d.locked);
    assert!(!d.is_default);
    let cands = keyring_candidates();
    assert_eq!(cands.len(), 4);
    assert_eq!(keyring_module(&[false, false, true, true]), Some(cands[2].clone()));
    assert_eq!(keyring_module(&[false; 4]), None);
}

#[test]
fn pam_keyring_parsing() {
    let text = "#%PAM-1.0\nauth  optional pam_gnome_keyring.so\n# session optional pam_gnome_keyring.so\naccount required pam_unix.so\n";
    assert_eq!(pam_keyring(text), Some((true, false)));
    let both = "  auth optional pam_gnome_keyring.so\r\nsession optional pam_gnome_keyring.so auto_start";
    assert_eq!(pam_keyring(both), Some((true, true)));
    assert_eq!(pam_keyring("auth required pam_unix.so\n"), None);
    assert_eq!(pam_keyring(""), None);
    assert_eq!(pam_keyring("password optional pam_gnome_keyring.so\n"), Some((false, false)));
    let sorted = sort_services(vec![
        ("login".to_string(), true, true),
        ("gdm-password".to_string(), true, false),
        ("gdm-autologin".to_string(), false, true),
        ("gdm-password".to_string(), false, false),
    ]);
    assert_eq!(
        sorted,
        vec![
            ("gdm-autologin".to_string(), false, true),
            ("gdm-password".to_string(), false, false),
            ("gdm-password".to_string(), true, false),
            ("login".to_string(), true, true),
        ]
    );
}
