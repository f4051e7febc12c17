use compositor_developer::portal_config::{
    candidates_for,
    config_candidates, config_home, config_names, default_line, source_types_text,
};

#[test]
fn config_names_follow_the_desktop_list() {
    assert_eq!(config_names("GNOME:ubuntu"), vec!["gnome-portals.conf", "ubuntu-portals.conf", "portals.conf"]);
    assert_eq!(config_names(""), vec!["portals.conf"]);
    assert_eq!(config_names("::KDE:"), vec!["kde-portals.conf", "portals.conf"]);
    assert_eq!(config_names("sway"), vec!["sway-portals.conf", "portals.conf"]);
}

#[test]
fn config_candidates_in_order() {
    assert_eq!(
        config_candidates("/home/u/.config", "sway"),
        vec![
            "/home/u/.config/xdg-desktop-portal/sway-portals.conf",
            "/home/u/.config/xdg-desktop-portal/portals.conf",
            "/etc/xdg-desktop-portal/sway-portals.conf",
            "/etc/xdg-desktop-portal/portals.conf",
            "/usr/share/xdg-desktop-portal/sway-portals.conf",
            "/usr/share/xdg-desktop-portal/portals.conf",
        ]
    );
    // An entry that is itself an absolute path replaces the directory, as a path join does.
    assert_eq!(config_candidates("/c", "/x")[0], "/x-portals.conf");
    assert_eq!(config_home(None, "/home/u"), "/home/u/.config");
    assert_eq!(config_home(Some("/xdg".to_string()), "/home/u"), "/xdg");
    assert_eq!(config_home(Some(String::new()), "/home/u"), "");
}

#[test]
fn default_lines() {
    assert_eq!(default_line("[preferred]\n  default=gtk \nother=x\n"), Some("default=gtk".to_string()));
    assert_eq!(default_line("[preferred]\r\ndefault=kde\r\n"), Some("default=kde".to_string()));
    assert_eq!(default_line("[preferred]\norg.freedesktop.impl.portal.Secret=gnome-keyring\n"), None);
    assert_eq!(default_line(""), None);
    assert_eq!(default_line("defaults"), Some("defaults".to_string()));
}

#[test]
fn screencast_source_masks() {
    assert_eq!(source_types_text(0), "none (bits=0)");
    assert_eq!(source_types_text(8), "none (bits=8)");
    assert_eq!(source_types_text(7), "monitor, window, virtual");
    assert_eq!(source_types_text(2), "window");
    assert_eq!(source_types_text(5), "monitor, virtual");
}

#[test]
fn candidates_for_given_names() {
    let names = vec!["kde-portals.conf".to_string(), "/opt/x.conf".to_string()];
    assert_eq!(
        candidates_for("/home/u/.config", &names),
        vec![
            "/home/u/.config/xdg-desktop-portal/kde-portals.conf",
            "/opt/x.conf",
            "/etc/xdg-desktop-portal/kde-portals.conf",
            "/opt/x.conf",
            "/usr/share/xdg-desktop-portal/kde-portals.conf",
            "/opt/x.conf",
        ]
    );
    assert!(candidates_for("/h", &Vec::new()).is_empty());
}
