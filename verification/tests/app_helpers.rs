//! Parts of the program's reactions.

use std::path::PathBuf;
use wireguard_gui::app::editor::split_endpoint;
use wireguard_gui::app::state::State;
use wireguard_gui::app::{KILL_SWITCH_LEASE_SECS, THROUGHPUT_HISTORY_LEN};
use wireguard_gui::config::store::ProfileStore;
use wireguard_gui::wg::status::{latest_handshake_age_secs, LiveStatus, PeerStatus};

const NOW: u64 = 1_710_000_000;

fn fresh_state() -> State {
    State::new(ProfileStore { dir: PathBuf::from("/profiles") }).0
}

#[test]
fn split_endpoint_ipv4_host_port() {
    assert_eq!(
        split_endpoint("203.0.113.7:51820"),
        Some(("203.0.113.7".to_string(), 51820))
    );
}

#[test]
fn split_endpoint_hostname_host_port() {
    assert_eq!(
        split_endpoint("vpn.example.com:51820"),
        Some(("vpn.example.com".to_string(), 51820))
    );
}

#[test]
fn split_endpoint_ipv6_bracketed() {
    assert_eq!(
        split_endpoint("[2001:db8::1]:51820"),
        Some(("2001:db8::1".to_string(), 51820))
    );
}

#[test]
fn split_endpoint_trims_whitespace() {
    assert_eq!(
        split_endpoint("  198.51.100.1:13231  "),
        Some(("198.51.100.1".to_string(), 13231))
    );
}

#[test]
fn split_endpoint_missing_port_is_none() {
    assert_eq!(split_endpoint("203.0.113.7"), None);
}

#[test]
fn split_endpoint_non_numeric_port_is_none() {
    assert_eq!(split_endpoint("203.0.113.7:notaport"), None);
    assert_eq!(split_endpoint("[2001:db8::1]:nope"), None);
}

#[test]
fn split_endpoint_empty_host_is_none() {
    assert_eq!(split_endpoint(":51820"), None);
    assert_eq!(split_endpoint("[]:51820"), None);
}

#[test]
fn split_endpoint_port_out_of_u16_range_is_none() {
    assert_eq!(split_endpoint("203.0.113.7:70000"), None);
}

fn peer_with_handshake(hs: Option<u64>) -> PeerStatus {
    PeerStatus {
        public_key: "k".into(),
        endpoint: None,
        last_handshake: hs,
        rx_bytes: 0,
        tx_bytes: 0,
    }
}

fn status_with(peers: Vec<PeerStatus>) -> LiveStatus {
    LiveStatus {
        interface: "wg-gui0".into(),
        public_key: "pk".into(),
        peers,
        fetched_at: NOW,
    }
}

#[test]
fn handshake_age_none_when_no_handshakes() {
    let st = status_with(vec![peer_with_handshake(None), peer_with_handshake(None)]);
    assert_eq!(latest_handshake_age_secs(&st, NOW), None);
}

#[test]
fn handshake_age_no_peers_is_none() {
    let st = status_with(vec![]);
    assert_eq!(latest_handshake_age_secs(&st, NOW), None);
}

#[test]
fn handshake_age_picks_most_recent() {
    let now = NOW;
    let old = now - 300;
    let recent = now - 5;
    let st = status_with(vec![
        peer_with_handshake(Some(old)),
        peer_with_handshake(Some(recent)),
        peer_with_handshake(None),
    ]);
    let age = latest_handshake_age_secs(&st, NOW).expect("should have an age");
    assert!((4..=30).contains(&age), "expected ~5s, got {age}");
}

#[test]
fn kill_switch_lease_is_positive_and_reasonable() {
    assert!(KILL_SWITCH_LEASE_SECS >= 60);
    assert!(KILL_SWITCH_LEASE_SECS <= 86_400);
}

#[test]
fn new_state_inits_dashboard_fields_empty() {
    let state = fresh_state();
    assert!(state.connected_since.is_none());
    assert!(state.throughput_history.is_empty());
}

#[test]
fn push_throughput_sample_appends_in_order() {
    let mut state = fresh_state();
    state.push_throughput_sample(10, 20);
    state.push_throughput_sample(30, 40);
    let samples: Vec<_> = state.throughput_history.iter().copied().collect();
    assert_eq!(samples, vec![(10, 20), (30, 40)]);
}

#[test]
fn push_throughput_sample_caps_history_evicting_oldest() {
    let mut state = fresh_state();
    for i in 0..(THROUGHPUT_HISTORY_LEN as u64 + 5) {
        state.push_throughput_sample(i, i * 2);
    }
    assert_eq!(state.throughput_history.len(), THROUGHPUT_HISTORY_LEN);
    assert_eq!(state.throughput_history.front().copied(), Some((5, 10)));
    let last = THROUGHPUT_HISTORY_LEN as u64 + 4;
    assert_eq!(state.throughput_history.back().copied(), Some((last, last * 2)));
}
