//! The server's configuration.

use base64::Engine;
use wireguard_gui::error::AppError;
use wireguard_gui::server::{
    parse_cidr, qr_png, ServerConfig, ServerPeer, DEFAULT_ADDRESS, DEFAULT_CLIENT_ALLOWED_IPS,
    DEFAULT_LISTEN_PORT, DEFAULT_SUBNET,
};

const ZERO_KEY: &str = "AAAAAAAAAAAAAAAAAAAAAAAAAAAAAAAAAAAAAAAAAAA=";

fn sample_server() -> ServerConfig {
    ServerConfig {
        name: "home-server".into(),
        private_key: ZERO_KEY.into(),
        public_key: ZERO_KEY.into(),
        listen_port: DEFAULT_LISTEN_PORT,
        address: DEFAULT_ADDRESS.into(),
        subnet: DEFAULT_SUBNET.into(),
        endpoint_host: "vpn.example.com".into(),
        dns: vec!["1.1.1.1".into()],
        egress_iface: Some("eth0".into()),
        peers: vec![ServerPeer {
            name: "phone".into(),
            public_key: ZERO_KEY.into(),
            private_key: Some(ZERO_KEY.into()),
            assigned_ip: "10.7.0.2".into(),
            preshared_key: None,
            client_allowed_ips: DEFAULT_CLIENT_ALLOWED_IPS.into(),
        }],
    }
}

#[test]
fn defaults_are_frozen() {
    assert_eq!(DEFAULT_LISTEN_PORT, 51820);
    assert_eq!(DEFAULT_ADDRESS, "10.7.0.1/24");
    assert_eq!(DEFAULT_SUBNET, "10.7.0.0/24");
    assert_eq!(DEFAULT_CLIENT_ALLOWED_IPS, "0.0.0.0/0");
}

#[test]
fn server_config_default_is_empty() {
    let d = ServerConfig::default();
    assert!(d.peers.is_empty());
    assert!(d.name.is_empty());
    assert_eq!(d.listen_port, 0);
}

#[test]
fn qr_png_produces_valid_png_header() {
    let png = qr_png("[Interface]\nPrivateKey = abc\n").expect("qr render");
    assert!(png.len() > 8, "png too short");
    assert_eq!(
        &png[..8],
        &[0x89, 0x50, 0x4E, 0x47, 0x0D, 0x0A, 0x1A, 0x0A],
        "missing PNG signature"
    );
}

#[test]
fn qr_png_is_deterministic() {
    let a = qr_png("same text").expect("a");
    let b = qr_png("same text").expect("b");
    assert_eq!(a, b, "QR PNG should be deterministic for the same input");
}

#[test]
fn qr_png_differs_for_different_text() {
    let a = qr_png("text one").expect("a");
    let b = qr_png("text two and it is longer").expect("b");
    assert_ne!(a, b, "different inputs must yield different PNGs");
}

#[test]
fn server_conf_contains_interface_fields() {
    let cfg = sample_server();
    let conf = cfg.to_server_conf();
    assert!(conf.contains("[Interface]"), "missing [Interface]");
    assert!(
        conf.contains(&format!("PrivateKey = {}", ZERO_KEY)),
        "missing PrivateKey"
    );
    assert!(
        conf.contains("Address = 10.7.0.1/24"),
        "missing Address"
    );
    assert!(
        conf.contains("ListenPort = 51820"),
        "missing ListenPort"
    );
}

#[test]
fn server_conf_peer_uses_slash_32() {
    let cfg = sample_server();
    let conf = cfg.to_server_conf();
    assert!(
        conf.contains("[Peer]"),
        "missing [Peer] for the provisioned client"
    );
    assert!(
        conf.contains("AllowedIPs = 10.7.0.2/32"),
        "server peer AllowedIPs must be /32: {conf}"
    );
    assert!(
        conf.contains(&format!("PublicKey = {}", ZERO_KEY)),
        "missing PublicKey"
    );
}

#[test]
fn server_conf_no_peers_has_no_peer_section() {
    let mut cfg = sample_server();
    cfg.peers.clear();
    let conf = cfg.to_server_conf();
    assert!(!conf.contains("[Peer]"), "unexpected [Peer] in peerless conf");
}

#[test]
fn server_conf_preshared_key_included_when_present() {
    let mut cfg = sample_server();
    cfg.peers[0].preshared_key = Some("PSK+BASE64PLACEHOLDER=".into());
    let conf = cfg.to_server_conf();
    assert!(
        conf.contains("PresharedKey = PSK+BASE64PLACEHOLDER="),
        "PresharedKey missing from server conf: {conf}"
    );
}

#[test]
fn server_conf_round_trip_stable() {
    let cfg = sample_server();
    assert_eq!(cfg.to_server_conf(), cfg.to_server_conf());
}

#[test]
fn client_conf_contains_client_private_key() {
    let cfg = sample_server();
    let peer = &cfg.peers[0];
    let conf = cfg.client_conf(peer);
    assert!(conf.contains("[Interface]"), "missing [Interface]");
    assert!(
        conf.contains(&format!("PrivateKey = {}", ZERO_KEY)),
        "missing client PrivateKey"
    );
}

#[test]
fn client_conf_address_is_slash_32() {
    let cfg = sample_server();
    let peer = &cfg.peers[0];
    let conf = cfg.client_conf(peer);
    assert!(
        conf.contains("Address = 10.7.0.2/32"),
        "client Address must be /32: {conf}"
    );
}

#[test]
fn client_conf_dns_included() {
    let cfg = sample_server();
    let peer = &cfg.peers[0];
    let conf = cfg.client_conf(peer);
    assert!(conf.contains("DNS = 1.1.1.1"), "missing DNS: {conf}");
}

#[test]
fn client_conf_peer_section_points_at_server() {
    let cfg = sample_server();
    let peer = &cfg.peers[0];
    let conf = cfg.client_conf(peer);
    assert!(conf.contains("[Peer]"), "missing [Peer]");
    assert!(
        conf.contains(&format!("PublicKey = {}", cfg.public_key)),
        "client [Peer] must carry server public key"
    );
    assert!(
        conf.contains("Endpoint = vpn.example.com:51820"),
        "missing Endpoint: {conf}"
    );
    assert!(
        conf.contains("AllowedIPs = 0.0.0.0/0"),
        "missing AllowedIPs: {conf}"
    );
}

#[test]
fn client_conf_preshared_key_in_peer_section() {
    let mut cfg = sample_server();
    cfg.peers[0].preshared_key = Some("PSK+BASE64PLACEHOLDER=".into());
    let conf = cfg.client_conf(&cfg.peers[0].clone());
    assert!(
        conf.contains("PresharedKey = PSK+BASE64PLACEHOLDER="),
        "PresharedKey missing from client conf: {conf}"
    );
}

#[test]
fn client_conf_no_dns_when_empty() {
    let mut cfg = sample_server();
    cfg.dns.clear();
    let conf = cfg.client_conf(&cfg.peers[0].clone());
    assert!(
        !conf.contains("DNS"),
        "DNS line must be absent when dns is empty: {conf}"
    );
}

#[test]
fn client_conf_custom_allowed_ips() {
    let mut cfg = sample_server();
    cfg.peers[0].client_allowed_ips = "10.0.0.0/8".into();
    let conf = cfg.client_conf(&cfg.peers[0].clone());
    assert!(
        conf.contains("AllowedIPs = 10.0.0.0/8"),
        "custom AllowedIPs not reflected: {conf}"
    );
}

#[test]
fn next_ip_skips_server_and_existing_peers() {
    let cfg = sample_server();
    assert_eq!(cfg.next_ip(), "10.7.0.3");
}

#[test]
fn next_ip_on_empty_server_gives_first_host() {
    let mut cfg = sample_server();
    cfg.peers.clear();
    assert_eq!(cfg.next_ip(), "10.7.0.2");
}

#[test]
fn next_ip_sequential_allocation() {
    let mut cfg = sample_server();
    cfg.peers.clear();
    for i in 2u8..=5 {
        cfg.peers.push(ServerPeer {
            name: format!("peer{i}"),
            public_key: ZERO_KEY.into(),
            private_key: None,
            assigned_ip: format!("10.7.0.{i}"),
            preshared_key: None,
            client_allowed_ips: DEFAULT_CLIENT_ALLOWED_IPS.into(),
        });
    }
    assert_eq!(cfg.next_ip(), "10.7.0.6");
}

#[test]
fn next_ip_skips_gaps_in_taken_set() {
    let mut cfg = sample_server();
    cfg.peers[0].assigned_ip = "10.7.0.3".into();
    assert_eq!(cfg.next_ip(), "10.7.0.2");
}

#[test]
fn next_ip_subnet_full_returns_sentinel() {
    let mut cfg = ServerConfig {
        name: "tiny".into(),
        private_key: ZERO_KEY.into(),
        public_key: ZERO_KEY.into(),
        listen_port: DEFAULT_LISTEN_PORT,
        address: "10.7.0.1/30".into(),
        subnet: "10.7.0.0/30".into(),
        endpoint_host: "vpn.example.com".into(),
        dns: vec![],
        egress_iface: None,
        peers: vec![],
    };
    cfg.peers.push(ServerPeer {
        name: "only-peer".into(),
        public_key: ZERO_KEY.into(),
        private_key: None,
        assigned_ip: "10.7.0.2".into(),
        preshared_key: None,
        client_allowed_ips: DEFAULT_CLIENT_ALLOWED_IPS.into(),
    });
    let result = cfg.next_ip();
    assert_eq!(result, "subnet-full", "expected sentinel, got: {result}");
}

#[test]
fn next_ip_inner_returns_error_on_full_subnet() {
    let mut cfg = ServerConfig {
        name: "tiny".into(),
        private_key: ZERO_KEY.into(),
        public_key: ZERO_KEY.into(),
        listen_port: DEFAULT_LISTEN_PORT,
        address: "10.7.0.1/30".into(),
        subnet: "10.7.0.0/30".into(),
        endpoint_host: "vpn.example.com".into(),
        dns: vec![],
        egress_iface: None,
        peers: vec![],
    };
    cfg.peers.push(ServerPeer {
        name: "only-peer".into(),
        public_key: ZERO_KEY.into(),
        private_key: None,
        assigned_ip: "10.7.0.2".into(),
        preshared_key: None,
        client_allowed_ips: DEFAULT_CLIENT_ALLOWED_IPS.into(),
    });
    let err = cfg.next_ip_inner().unwrap_err();
    assert!(
        matches!(err, AppError::AllowedIpsError(_)),
        "expected AllowedIpsError, got: {err:?}"
    );
}

#[test]
fn add_peer_allocates_next_ip_and_returns_reference() {
    let mut cfg = sample_server();
    let peer = cfg.add_peer("laptop").expect("add_peer failed");
    assert_eq!(peer.name, "laptop");
    assert_eq!(peer.assigned_ip, "10.7.0.3");
    assert!(peer.private_key.is_some(), "private key must be set");
    assert!(!peer.public_key.is_empty(), "public key must not be empty");
    assert_eq!(peer.client_allowed_ips, DEFAULT_CLIENT_ALLOWED_IPS);
    assert_eq!(cfg.peers.len(), 2);
}

#[test]
fn add_peer_keys_are_valid_base64_32_bytes() {
    let mut cfg = sample_server();
    let peer = cfg.add_peer("tablet").expect("add_peer failed");
    let priv_bytes = base64::engine::general_purpose::STANDARD
        .decode(peer.private_key.as_ref().unwrap())
        .expect("private_key base64");
    let pub_bytes = base64::engine::general_purpose::STANDARD
        .decode(&peer.public_key)
        .expect("public_key base64");
    assert_eq!(priv_bytes.len(), 32, "private key must be 32 bytes");
    assert_eq!(pub_bytes.len(), 32, "public key must be 32 bytes");
}

#[test]
fn add_peer_successive_calls_allocate_sequentially() {
    let mut cfg = sample_server();
    let p3 = cfg.add_peer("a").unwrap().assigned_ip.clone();
    let p4 = cfg.add_peer("b").unwrap().assigned_ip.clone();
    assert_eq!(p3, "10.7.0.3");
    assert_eq!(p4, "10.7.0.4");
}

#[test]
fn remove_peer_removes_by_index() {
    let mut cfg = sample_server();
    assert_eq!(cfg.peers.len(), 1);
    cfg.remove_peer(0);
    assert!(cfg.peers.is_empty(), "peer list should be empty after remove");
}

#[test]
fn remove_peer_out_of_range_is_noop() {
    let mut cfg = sample_server();
    cfg.remove_peer(99);
    assert_eq!(cfg.peers.len(), 1, "peer count unchanged after out-of-range remove");
}

#[test]
fn generate_new_sets_expected_defaults() {
    let cfg = ServerConfig::generate_new("vpn.example.com").expect("generate_new failed");
    assert_eq!(cfg.endpoint_host, "vpn.example.com");
    assert_eq!(cfg.listen_port, DEFAULT_LISTEN_PORT);
    assert_eq!(cfg.address, DEFAULT_ADDRESS);
    assert_eq!(cfg.subnet, DEFAULT_SUBNET);
    assert!(cfg.peers.is_empty(), "fresh server must have no peers");
    assert!(!cfg.private_key.is_empty(), "private key must be set");
    assert!(!cfg.public_key.is_empty(), "public key must be set");
}

#[test]
fn generate_new_keys_are_valid_base64_32_bytes() {
    let cfg = ServerConfig::generate_new("example.com").expect("generate_new failed");
    let priv_bytes = base64::engine::general_purpose::STANDARD
        .decode(&cfg.private_key)
        .expect("private_key base64");
    let pub_bytes = base64::engine::general_purpose::STANDARD
        .decode(&cfg.public_key)
        .expect("public_key base64");
    assert_eq!(priv_bytes.len(), 32);
    assert_eq!(pub_bytes.len(), 32);
}

#[test]
fn generate_new_produces_distinct_keys_on_successive_calls() {
    let a = ServerConfig::generate_new("a.example.com").unwrap();
    let b = ServerConfig::generate_new("b.example.com").unwrap();
    assert_ne!(a.private_key, b.private_key, "keys must differ");
}

#[test]
fn parse_cidr_valid_24() {
    let (net, prefix) = parse_cidr("10.7.0.0/24").expect("parse failed");
    assert_eq!(net, 0x0a07_0000);
    assert_eq!(prefix, 24);
}

#[test]
fn parse_cidr_masks_host_bits() {
    let (net, prefix) = parse_cidr("10.7.0.1/24").expect("parse failed");
    assert_eq!(net, 0x0a07_0000);
    assert_eq!(prefix, 24);
}

#[test]
fn parse_cidr_slash_30() {
    let (net, prefix) = parse_cidr("10.7.0.0/30").expect("parse failed");
    assert_eq!(net, 0x0a07_0000);
    assert_eq!(prefix, 30);
}

#[test]
fn parse_cidr_invalid_returns_none() {
    assert!(parse_cidr("not-a-cidr").is_none());
    assert!(parse_cidr("10.7.0.0/33").is_none());
    assert!(parse_cidr("10.7.0.999/24").is_none());
}

#[test]
fn qr_png_non_empty() {
    let bytes = qr_png("test content for QR code").expect("qr_png failed");
    assert!(!bytes.is_empty(), "PNG bytes must be non-empty");
}

#[test]
fn qr_png_full_client_conf_is_valid_png() {
    let conf = "\
[Interface]
PrivateKey = AAAAAAAAAAAAAAAAAAAAAAAAAAAAAAAAAAAAAAAAAAA=
Address = 10.7.0.2/32
DNS = 1.1.1.1

[Peer]
PublicKey = AAAAAAAAAAAAAAAAAAAAAAAAAAAAAAAAAAAAAAAAAAA=
Endpoint = vpn.example.com:51820
AllowedIPs = 0.0.0.0/0
";
    let png = qr_png(conf).expect("qr_png on realistic conf failed");
    assert_eq!(&png[..8], &[0x89, 0x50, 0x4E, 0x47, 0x0D, 0x0A, 0x1A, 0x0A]);
    assert!(png.len() > 100, "PNG must be non-trivially large");
}
