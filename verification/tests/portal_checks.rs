use compositor_developer::portal::{Collection, Status};
use compositor_developer::portal_checks::{
    backend_entries, bus_entries, display_path, environment_entries, interactive_entry,
    interactive_status, interface, interface_detail, portal_entries, secrets_absent,
    secrets_entries, service, services_entries, short_text, Probe,
};

fn col(label: &str, locked: bool, is_default: bool) -> Collection {
    Collection { path: format!("/org/freedesktop/secrets/collection/{label}"), label: label.to_string(), locked, is_default }
}

fn e(s: Status, l: &str, d: &str) -> (Status, String, String) {
    (s, l.to_string(), d.to_string())
}

#[test]
fn short_error_text() {
    assert_eq!(short_text("no reply"), "no reply");
    let long: String = std::iter::repeat('x').take(100).collect();
    let cut = short_text(&long);
    assert_eq!(cut.chars().count(), 91);
    assert!(cut.ends_with('…'));
    let exactly: String = std::iter::repeat('é').take(90).collect();
    assert_eq!(short_text(&exactly), exactly);
}

#[test]
fn secrets_with_locked_default() {
    let lines = secrets_entries(
        Some("/usr/bin/gnome-keyring-daemon".to_string()),
        Ok(vec![col("Login", true, true), col("Work", true, false), col("Scratch", false, false)]),
        Some("/usr/lib/security/pam_gnome_keyring.so".to_string()),
        &vec![("gdm-password".to_string(), true, true), ("sshd".to_string(), false, true)],
    );
    assert_eq!(
        lines,
        vec![
            e(Status::Info, "implementation", "/usr/bin/gnome-keyring-daemon"),
            e(Status::Fail, "Login [default]", "LOCKED — this is what prompts you for a password"),
            e(Status::Info, "Work", "locked (not the default collection)"),
            e(Status::Pass, "Scratch", "unlocked"),
            e(Status::Info, "pam_gnome_keyring.so", "/usr/lib/security/pam_gnome_keyring.so"),
            e(Status::Info, "  /etc/pam.d/gdm-password", "auth + session (full auto-unlock)"),
            e(Status::Info, "  /etc/pam.d/sshd", "session only — does NOT unlock, expect a prompt"),
        ]
    );
}

#[test]
fn secrets_without_default_or_pam() {
    let lines = secrets_entries(None, Ok(vec![col("Work", false, false)]), None, &vec![]);
    assert_eq!(
        lines,
        vec![
            e(Status::Info, "implementation", "activatable, not yet started"),
            e(Status::Pass, "Work", "unlocked"),
            e(Status::Warn, "default alias", "unset — no collection is the one apps reach for"),
            e(Status::Warn, "pam_gnome_keyring.so", "not installed — no PAM stack can auto-unlock"),
        ]
    );
    let lines = secrets_entries(None, Ok(vec![]), Some("/lib/security/pam_gnome_keyring.so".to_string()), &vec![]);
    assert_eq!(lines[1], e(Status::Warn, "collections", "none — the first app to want a secret is asked to create one"));
    assert_eq!(lines[3], e(Status::Warn, "PAM auto-unlock", "no /etc/pam.d service references it"));
    assert_eq!(lines.len(), 4);
    let lines = secrets_entries(None, Err("org.freedesktop.DBus.Error.ServiceUnknown".to_string()), None, &vec![
        ("passwd".to_string(), false, false),
        ("login".to_string(), true, false),
    ]);
    assert_eq!(lines[1], e(Status::Fail, "collections", "service present but unreadable: org.freedesktop.DBus.Error.ServiceUnknown"));
    assert_eq!(lines.len(), 3);
    let lines = secrets_entries(None, Ok(vec![]), Some("m".to_string()), &vec![
        ("passwd".to_string(), false, false),
        ("login".to_string(), true, false),
    ]);
    assert_eq!(lines[3], e(Status::Info, "  /etc/pam.d/passwd", "password-change hook only"));
    assert_eq!(lines[4], e(Status::Info, "  /etc/pam.d/login", "auth only (unlocks, does not start the daemon)"));
}

#[test]
fn secrets_service_absent() {
    assert_eq!(
        secrets_absent(),
        vec![e(Status::Warn, "org.freedesktop.secrets", "absent — apps needing a secret will fail or offer to create a keyring")]
    );
}

#[test]
fn interactive_and_interface_outcomes() {
    assert_eq!(interactive_status("cancelled by the user"), Status::Warn);
    assert_eq!(interactive_status("file:///tmp/a.png"), Status::Pass);
    assert_eq!(interface_detail("org.freedesktop.DBus.Error.UnknownInterface: No such interface “org.freedesktop.portal.ScreenCast”"), "not offered by this portal");
    assert_eq!(interface_detail("timeout"), "timeout");
}

#[test]
fn bus_section() {
    let lines = bus_entries("unix:path=/run/user/1000/bus", "DBUS_SESSION_BUS_ADDRESS", Some(true), Ok(()));
    assert_eq!(
        lines,
        vec![
            e(Status::Info, "address", "unix:path=/run/user/1000/bus"),
            e(Status::Info, "resolved from", "DBUS_SESSION_BUS_ADDRESS"),
            e(Status::Info, "identity", "the default per-user bus (not isolated)"),
            e(Status::Pass, "connect", "session bus reachable"),
        ]
    );
    let lines = bus_entries("tcp:host=x", "no env", None, Err("refused".to_string()));
    assert_eq!(lines[2], e(Status::Info, "identity", "not a unix socket path — cannot classify"));
    assert_eq!(lines[3], e(Status::Fail, "connect", "refused"));
    assert_eq!(bus_entries("a", "b", Some(false), Ok(()))[2].2, "a private bus (isolated from the default)");
}

#[test]
fn portal_section() {
    let lines = portal_entries(false, "absent", &vec![], None);
    assert_eq!(
        lines,
        vec![
            e(Status::Fail, "org.freedesktop.portal.Desktop", "absent"),
            e(Status::Info, "", "nothing below can succeed — install xdg-desktop-portal"),
        ]
    );
    let mut versions: Vec<Result<u32, String>> = (0..8).map(|i| Ok(i + 1)).collect();
    versions[0] = Err("org.freedesktop.DBus.Error.UnknownInterface: No such interface".to_string());
    versions[4] = Err("No such interface".to_string());
    versions[5] = Err("timeout".to_string());
    let lines = portal_entries(true, "running", &versions, Some("monitor, window".to_string()));
    assert_eq!(lines.len(), 1 + 8 + 1);
    assert_eq!(lines[0], e(Status::Pass, "org.freedesktop.portal.Desktop", "running"));
    assert_eq!(lines[1], e(Status::Fail, "FileChooser", "not offered by this portal"));
    assert_eq!(lines[2], e(Status::Pass, "OpenURI", "version 2"));
    assert_eq!(lines[5], e(Status::Warn, "ScreenCast", "not offered by this portal"));
    assert_eq!(lines[6], e(Status::Warn, "Secret", "timeout"));
    assert_eq!(lines[9], e(Status::Info, "ScreenCast sources", "monitor, window"));
    assert_eq!(interface(7), ("Notification", false));
    assert_eq!(portal_entries(true, "activatable", &versions, None).len(), 9);
}

#[test]
fn backend_section() {
    let lines = backend_entries("", &vec![], &vec![]);
    assert_eq!(
        lines,
        vec![
            e(Status::Warn, "XDG_CURRENT_DESKTOP", "<unset> — the portal has no desktop to match on"),
            e(Status::Fail, "implementations", "none installed"),
            e(Status::Warn, "portals.conf", "none found — backend choice is unconfigured"),
        ]
    );
    let impls = vec!["org.freedesktop.impl.portal.desktop.gtk".to_string(), "org.freedesktop.impl.portal.desktop.wlr".to_string()];
    let configs = vec![
        ("/etc/xdg-desktop-portal/sway-portals.conf".to_string(), Some("default=wlr;gtk".to_string())),
        ("/usr/share/xdg-desktop-portal/portals.conf".to_string(), None),
    ];
    let lines = backend_entries("sway", &impls, &configs);
    assert_eq!(
        lines,
        vec![
            e(Status::Info, "XDG_CURRENT_DESKTOP", "sway"),
            e(Status::Pass, "implementations", "org.freedesktop.impl.portal.desktop.gtk, org.freedesktop.impl.portal.desktop.wlr"),
            e(Status::Info, "portals.conf", "/etc/xdg-desktop-portal/sway-portals.conf [default=wlr;gtk]"),
            e(Status::Info, "portals.conf", "/usr/share/xdg-desktop-portal/portals.conf [no default=]"),
        ]
    );
}

#[test]
fn services_section() {
    let mut probes = vec![Probe::Responds("running".to_string()); 7];
    probes[0] = Probe::Absent;
    probes[1] = Probe::Absent;
    probes[2] = Probe::Broken("NoReply".to_string());
    let lines = services_entries(&probes);
    assert_eq!(lines.len(), 7);
    assert_eq!(lines[0], e(Status::Fail, "ca.desrt.dconf", "absent — GSettings writes fall back to memory"));
    assert_eq!(lines[1], e(Status::Warn, "org.gtk.vfs.Daemon", "absent — Files loses trash, recent, mounts"));
    assert_eq!(lines[2], e(Status::Warn, "org.gtk.vfs.UDisks2VolumeMonitor", "registered but not answering: NoReply"));
    assert_eq!(lines[6], e(Status::Pass, "org.freedesktop.FileManager1", "responds (running)"));
    assert_eq!(service(0).1, "/ca/desrt/dconf/Writer/user");
}

#[test]
fn environment_section() {
    assert_eq!(display_path("/run/user/1000", "wayland-1"), "/run/user/1000/wayland-1");
    assert_eq!(display_path("/run/user/1000/", "wayland-1"), "/run/user/1000/wayland-1");
    assert_eq!(display_path("/run/user/1000", "/tmp/w"), "/tmp/w");
    let vars = vec![Some(":0".to_string()), Some("wayland".to_string()), None, Some("3".to_string()), Some("seat0".to_string())];
    let lines = environment_entries("/run/user/1000", Some("wayland-1".to_string()), true, &vars, true);
    assert_eq!(
        lines,
        vec![
            e(Status::Info, "XDG_RUNTIME_DIR", "/run/user/1000"),
            e(Status::Pass, "WAYLAND_DISPLAY", "wayland-1 → /run/user/1000/wayland-1"),
            e(Status::Info, "DISPLAY", ":0"),
            e(Status::Info, "XDG_SESSION_TYPE", "wayland"),
            e(Status::Info, "XDG_SESSION_DESKTOP", "<unset>"),
            e(Status::Info, "XDG_SESSION_ID", "3"),
            e(Status::Info, "XDG_SEAT", "seat0"),
        ]
    );
    let lines = environment_entries("/run/user/1000", Some("wayland-9".to_string()), false, &vars, false);
    assert_eq!(lines[1], e(Status::Fail, "WAYLAND_DISPLAY", "wayland-9 → /run/user/1000/wayland-9 does not exist"));
    assert_eq!(lines[7], e(Status::Info, "", "no logind session — XDG_SESSION_* comes from pam_systemd at login"));
    let lines = environment_entries("", Some("wayland-1".to_string()), false, &vars, true);
    assert_eq!(lines[0], e(Status::Info, "XDG_RUNTIME_DIR", "<unset>"));
    assert_eq!(lines[1], e(Status::Warn, "WAYLAND_DISPLAY", "wayland-1 (no runtime dir to resolve it in)"));
    let lines = environment_entries("/r", None, false, &vars, true);
    assert_eq!(lines[1], e(Status::Warn, "WAYLAND_DISPLAY", "<unset> — not a Wayland session"));
}

#[test]
fn interactive_lines() {
    assert_eq!(interactive_entry("Screenshot.Screenshot", Ok("cancelled".to_string())), e(Status::Warn, "Screenshot.Screenshot", "cancelled"));
    assert_eq!(interactive_entry("FileChooser.OpenFile", Ok("file:///a".to_string())), e(Status::Pass, "FileChooser.OpenFile", "file:///a"));
    assert_eq!(interactive_entry("ScreenCast.Start", Err("denied".to_string())), e(Status::Fail, "ScreenCast.Start", "denied"));
}
