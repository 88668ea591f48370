//! Settings.

use wireguard_gui::settings::{AppSettings, ThemePreference};

#[test]
fn default_theme_is_follow_system() {
    let s = AppSettings::default();
    assert_eq!(s.theme, ThemePreference::FollowSystem);
}

#[test]
fn default_auto_reconnect_is_true() {
    let s = AppSettings::default();
    assert!(s.auto_reconnect);
}

#[test]
fn default_close_to_tray_is_true() {
    let s = AppSettings::default();
    assert!(s.close_to_tray);
}

#[test]
fn default_kill_switch_is_false() {
    let s = AppSettings::default();
    assert!(!s.kill_switch);
}

#[test]
fn default_autostart_is_false() {
    let s = AppSettings::default();
    assert!(!s.autostart);
}

#[test]
fn default_connect_on_boot_is_none() {
    let s = AppSettings::default();
    assert!(s.connect_on_boot.is_none());
}

#[test]
fn default_destination_split_is_empty() {
    let s = AppSettings::default();
    assert!(s.destination_split.is_empty());
}

#[test]
fn default_netns_rules_is_empty() {
    let s = AppSettings::default();
    assert!(s.netns_rules.is_empty());
}
