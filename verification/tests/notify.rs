//! The wording of notifications.

use wireguard_gui::notify::{fmt_connected, fmt_disconnected, fmt_dropped};

#[test]
fn connected_summary_is_fixed() {
    let (summary, _body) = fmt_connected("home-vpn");
    assert_eq!(summary, "WireGuard connected");
}

#[test]
fn connected_body_contains_name() {
    let (_summary, body) = fmt_connected("home-vpn");
    assert!(body.contains("home-vpn"), "body={body:?}");
}

#[test]
fn connected_body_exact() {
    let (_summary, body) = fmt_connected("home-vpn");
    assert_eq!(body, "Connected to home-vpn");
}

#[test]
fn connected_body_uses_provided_name() {
    let (_summary, body) = fmt_connected("Work VPN — EU");
    assert_eq!(body, "Connected to Work VPN — EU");
}

#[test]
fn disconnected_summary_is_fixed() {
    let (summary, _body) = fmt_disconnected("home-vpn");
    assert_eq!(summary, "WireGuard disconnected");
}

#[test]
fn disconnected_body_contains_name() {
    let (_summary, body) = fmt_disconnected("home-vpn");
    assert!(body.contains("home-vpn"), "body={body:?}");
}

#[test]
fn disconnected_body_exact() {
    let (_summary, body) = fmt_disconnected("home-vpn");
    assert_eq!(body, "Disconnected from home-vpn");
}

#[test]
fn dropped_summary_is_fixed() {
    let (summary, _body) = fmt_dropped("home-vpn");
    assert_eq!(summary, "WireGuard tunnel dropped");
}

#[test]
fn dropped_body_contains_name() {
    let (_summary, body) = fmt_dropped("home-vpn");
    assert!(body.contains("home-vpn"), "body={body:?}");
}

#[test]
fn dropped_body_exact() {
    let (_summary, body) = fmt_dropped("home-vpn");
    assert_eq!(body, "Lost connection to home-vpn");
}

#[test]
fn summaries_are_distinct() {
    let (s_conn, _) = fmt_connected("x");
    let (s_disc, _) = fmt_disconnected("x");
    let (s_drop, _) = fmt_dropped("x");
    assert_ne!(s_conn, s_disc);
    assert_ne!(s_conn, s_drop);
    assert_ne!(s_disc, s_drop);
}

#[test]
fn empty_name_connected() {
    let (_s, body) = fmt_connected("");
    assert_eq!(body, "Connected to ");
}

#[test]
fn empty_name_disconnected() {
    let (_s, body) = fmt_disconnected("");
    assert_eq!(body, "Disconnected from ");
}

#[test]
fn empty_name_dropped() {
    let (_s, body) = fmt_dropped("");
    assert_eq!(body, "Lost connection to ");
}
