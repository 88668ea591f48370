//! The tray.

use wireguard_gui::app::state::{tray_message, Message};
use wireguard_gui::tray::{AppTray, MenuEntry, TrayCmd, TrayEvent};

fn two_profiles() -> AppTray {
    let mut tray = AppTray::new();
    tray.apply(TrayCmd::SetProfiles(vec!["home".to_owned(), "work".to_owned()]));
    tray
}

fn item(e: &MenuEntry) -> (&str, bool) {
    match e {
        MenuEntry::Item { label, enabled, .. } => (label.as_str(), *enabled),
        _ => panic!("not an item: {e:?}"),
    }
}

#[test]
fn a_new_tray_shows_no_connection() {
    let tray = AppTray::new();
    assert_eq!(tray.icon_name(), "network-vpn-disconnected");
    assert_eq!(tray.title(), "WireGuard — disconnected");
    let menu = tray.menu();
    assert_eq!(menu.len(), 6);
    assert_eq!(item(&menu[0]), ("Open", true));
    assert!(matches!(menu[1], MenuEntry::Separator));
    match &menu[2] {
        MenuEntry::Submenu { label, enabled, entries } => {
            assert_eq!(label, "Connect");
            assert!(!enabled);
            assert!(entries.is_empty());
        }
        other => panic!("not a submenu: {other:?}"),
    }
    assert_eq!(item(&menu[3]), ("Disconnect", false));
    assert!(matches!(menu[4], MenuEntry::Separator));
    assert_eq!(item(&menu[5]), ("Quit", true));
}

#[test]
fn a_connected_tray_shows_it() {
    let mut tray = two_profiles();
    tray.apply(TrayCmd::SetConnected(Some("work".to_owned())));
    assert_eq!(tray.icon_name(), "network-vpn");
    assert_eq!(tray.title(), "WireGuard — connected");
    assert_eq!(item(&tray.menu()[3]), ("Disconnect", true));
    tray.apply(TrayCmd::SetConnected(None));
    assert_eq!(tray.icon_name(), "network-vpn-disconnected");
    assert_eq!(item(&tray.menu()[3]), ("Disconnect", false));
}

#[test]
fn only_the_connected_profile_is_disabled() {
    let mut tray = two_profiles();
    tray.apply(TrayCmd::SetConnected(Some("work".to_owned())));
    let entries = tray.connect_entries();
    assert_eq!(entries.len(), 2);
    assert_eq!(entries[0].profile, "home");
    assert_eq!(entries[0].label, "home");
    assert!(entries[0].enabled);
    assert_eq!(entries[1].profile, "work");
    assert_eq!(entries[1].label, "work (connected)");
    assert!(!entries[1].enabled);
}

#[test]
fn new_profiles_keep_the_connection() {
    let mut tray = two_profiles();
    tray.apply(TrayCmd::SetConnected(Some("work".to_owned())));
    tray.apply(TrayCmd::SetProfiles(vec!["work".to_owned()]));
    assert!(tray.connected);
    assert_eq!(tray.connected_profile.as_deref(), Some("work"));
    assert_eq!(tray.connect_entries().len(), 1);
}

#[test]
fn events_become_messages() {
    assert!(matches!(tray_message(TrayEvent::Open), Message::TrayOpen));
    assert!(matches!(tray_message(TrayEvent::Quit), Message::TrayQuit));
    assert!(matches!(tray_message(TrayEvent::Disconnect), Message::TrayDisconnect));
    match tray_message(TrayEvent::ConnectProfile("home".to_owned())) {
        Message::TrayConnectProfile(name) => assert_eq!(name, "home"),
        other => panic!("unexpected message: {other:?}"),
    }
}
