//! Running the server.

use wireguard_gui::server::manage::{detect_egress_iface_from, map_peers, SERVER_IFACE};
use wireguard_gui::server::{
    ServerConfig, ServerPeer, DEFAULT_CLIENT_ALLOWED_IPS, DEFAULT_LISTEN_PORT,
};
use wireguard_gui::wg::status::parse_wg_show_dump;
use wireguard_gui::wg::CLIENT_IFACE;

const NOW: u64 = 1_710_200_000;

#[test]
fn server_iface_is_valid_kernel_name_and_distinct_from_client() {
    assert!(SERVER_IFACE.len() <= 15, "SERVER_IFACE exceeds IFNAMSIZ");
    assert_eq!(SERVER_IFACE, "wg-gui-srv0");
    assert_ne!(
        SERVER_IFACE,
        CLIENT_IFACE,
        "server and client interfaces MUST differ so they can coexist"
    );
}

#[test]
fn egress_iface_simple_eth0() {
    let raw = "default via 192.168.1.1 dev eth0 proto dhcp metric 100\n";
    assert_eq!(detect_egress_iface_from(raw), Some("eth0".to_string()));
}

#[test]
fn egress_iface_ens3() {
    let raw = "default via 10.0.0.1 dev ens3\n";
    assert_eq!(detect_egress_iface_from(raw), Some("ens3".to_string()));
}

#[test]
fn egress_iface_wlan0() {
    let raw = "default via 192.168.0.1 dev wlan0 proto dhcp src 192.168.0.100 metric 600\n";
    assert_eq!(detect_egress_iface_from(raw), Some("wlan0".to_string()));
}

#[test]
fn egress_iface_with_extra_non_default_lines() {
    let raw = "\
10.0.0.0/8 via 10.0.0.1 dev eth0 proto static
172.16.0.0/12 via 172.16.0.1 dev eth0 proto static
default via 192.168.1.1 dev eth0 proto dhcp metric 100
192.168.1.0/24 dev eth0 proto kernel scope link\n";
    assert_eq!(detect_egress_iface_from(raw), Some("eth0".to_string()));
}

#[test]
fn egress_iface_no_default_route() {
    let raw = "10.0.0.0/8 via 10.0.0.1 dev eth0\n";
    assert_eq!(detect_egress_iface_from(raw), None);
}

#[test]
fn egress_iface_empty_output() {
    assert_eq!(detect_egress_iface_from(""), None);
}

#[test]
fn egress_iface_default_line_no_dev_token() {
    let raw = "default unreachable\n";
    assert_eq!(detect_egress_iface_from(raw), None);
}

#[test]
fn egress_iface_dev_is_last_token() {
    let raw = "default via 1.2.3.4 dev\n";
    assert_eq!(detect_egress_iface_from(raw), None);
}

#[test]
fn egress_iface_longer_interface_name() {
    let raw = "default via 10.1.2.3 dev enp0s31f6 proto dhcp metric 100\n";
    assert_eq!(detect_egress_iface_from(raw), Some("enp0s31f6".to_string()));
}

const ZERO_KEY: &str = "AAAAAAAAAAAAAAAAAAAAAAAAAAAAAAAAAAAAAAAAAAA=";

const ONE_KEY: &str = "AQEBAQEBAQEBAQEBAQEBAQEBAQEBAQEBAQEBAQEBAQE=";

const TWO_KEY: &str = "AgICAgICAgICAgICAgICAgICAgICAgICAgICAgICAgI=";

fn sample_config() -> ServerConfig {
    ServerConfig {
        name: "test-server".into(),
        private_key: ZERO_KEY.into(),
        public_key: ZERO_KEY.into(),
        listen_port: DEFAULT_LISTEN_PORT,
        address: "10.7.0.1/24".into(),
        subnet: "10.7.0.0/24".into(),
        endpoint_host: "vpn.example.com".into(),
        dns: vec!["1.1.1.1".into()],
        egress_iface: Some("eth0".into()),
        peers: vec![
            ServerPeer {
                name: "phone".into(),
                public_key: ZERO_KEY.into(),
                private_key: None,
                assigned_ip: "10.7.0.2".into(),
                preshared_key: None,
                client_allowed_ips: DEFAULT_CLIENT_ALLOWED_IPS.into(),
            },
            ServerPeer {
                name: "laptop".into(),
                public_key: ONE_KEY.into(),
                private_key: None,
                assigned_ip: "10.7.0.3".into(),
                preshared_key: None,
                client_allowed_ips: DEFAULT_CLIENT_ALLOWED_IPS.into(),
            },
        ],
    }
}

fn make_dump(peers: &[(&str, u64, u64, u64)]) -> String {
    let mut lines = vec![format!(
        "{ZERO_KEY}\t{ZERO_KEY}\t51820\t(none)"
    )];
    for (pubkey, handshake, rx, tx) in peers {
        lines.push(format!(
            "{pubkey}\t(none)\t(none)\t10.7.0.0/24\t{handshake}\t{rx}\t{tx}\toff"
        ));
    }
    lines.join("\n")
}

#[test]
fn map_peers_assigns_names_by_pubkey() {
    let dump = make_dump(&[(ZERO_KEY, 1_710_000_000, 1024, 2048), (ONE_KEY, 0, 0, 0)]);
    let live = parse_wg_show_dump(SERVER_IFACE, &dump, NOW).expect("parse");
    let config = sample_config();
    let named = map_peers(&live.peers, &config);

    assert_eq!(named.len(), 2);
    assert_eq!(named[0].name, "phone");
    assert_eq!(named[0].public_key, ZERO_KEY);
    assert_eq!(named[0].rx_bytes, 1024);
    assert_eq!(named[0].tx_bytes, 2048);
    let hs = named[0].last_handshake.expect("phone has handshake");
    assert_eq!(
        hs,
        1_710_000_000
    );

    assert_eq!(named[1].name, "laptop");
    assert_eq!(named[1].public_key, ONE_KEY);
    assert!(named[1].last_handshake.is_none());
    assert_eq!(named[1].rx_bytes, 0);
    assert_eq!(named[1].tx_bytes, 0);
}

#[test]
fn map_peers_fallback_name_for_unknown_pubkey() {
    let dump = make_dump(&[(TWO_KEY, 1_710_000_000, 512, 256)]);
    let live = parse_wg_show_dump(SERVER_IFACE, &dump, NOW).expect("parse");
    let config = sample_config();
    let named = map_peers(&live.peers, &config);

    assert_eq!(named.len(), 1);
    let fallback = &named[0].name;
    assert!(
        fallback.starts_with(&TWO_KEY[..12]),
        "expected fallback to start with first 12 chars of pubkey, got: {fallback:?}"
    );
    assert!(
        fallback.ends_with('…'),
        "expected fallback to end with '…', got: {fallback:?}"
    );
}

#[test]
fn map_peers_empty_dump_produces_empty_vec() {
    let dump = make_dump(&[]);
    let live = parse_wg_show_dump(SERVER_IFACE, &dump, NOW).expect("parse");
    let config = sample_config();
    let named = map_peers(&live.peers, &config);
    assert!(named.is_empty());
}

#[test]
fn map_peers_mixed_known_and_unknown() {
    let dump = make_dump(&[
        (ZERO_KEY, 1_710_100_000, 4096, 8192),
        (TWO_KEY, 0, 0, 0),
    ]);
    let live = parse_wg_show_dump(SERVER_IFACE, &dump, NOW).expect("parse");
    let config = sample_config();
    let named = map_peers(&live.peers, &config);

    assert_eq!(named.len(), 2);
    assert_eq!(named[0].name, "phone");
    assert_eq!(named[0].rx_bytes, 4096);

    assert!(named[1].name.starts_with(&TWO_KEY[..12]));
}

#[test]
fn map_peers_all_three_ordered_correctly() {
    let dump = make_dump(&[
        (ZERO_KEY, 1_000_000, 10, 20),
        (ONE_KEY, 2_000_000, 30, 40),
        (TWO_KEY, 3_000_000, 50, 60),
    ]);
    let live = parse_wg_show_dump(SERVER_IFACE, &dump, NOW).expect("parse");
    let config = sample_config();
    let named = map_peers(&live.peers, &config);

    assert_eq!(named.len(), 3);
    assert_eq!(named[0].name, "phone");
    assert_eq!(named[1].name, "laptop");
    assert!(named[2].name.starts_with(&TWO_KEY[..12]));

    assert_eq!(named[0].rx_bytes, 10);
    assert_eq!(named[1].rx_bytes, 30);
    assert_eq!(named[2].rx_bytes, 50);
}

#[test]
fn map_peers_handshake_times_correct() {
    let dump = make_dump(&[
        (ZERO_KEY, 1_710_000_000, 0, 0),
        (ONE_KEY, 0, 0, 0),
    ]);
    let live = parse_wg_show_dump(SERVER_IFACE, &dump, NOW).expect("parse");
    let config = sample_config();
    let named = map_peers(&live.peers, &config);

    let hs0 = named[0].last_handshake.expect("phone has handshake");
    assert_eq!(
        hs0,
        1_710_000_000
    );
    assert!(named[1].last_handshake.is_none(), "laptop never handshaked");
}
