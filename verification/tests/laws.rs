//! What holds of the library as a whole, on concrete values.

use wireguard_gui::config::keygen::{generate_keypair, is_valid_wg_key, pubkey_from_private};
use wireguard_gui::config::profile::{InterfaceSection, PeerSection, WgProfile};
use wireguard_gui::ip::{format_ipv4, is_ipv6, is_valid_cidr, parse_ipv4};
use wireguard_gui::net::allowed_ips::{split_exclude_rfc1918, AllowedIpsPreset};
use wireguard_gui::net::netns::strip_wg_quick_keys;
use wireguard_gui::net::watchdog::{next_backoff, next_backoff_secs};
use wireguard_gui::order::{sort_texts, text_before};
use wireguard_gui::server::change::{change_steps, create, ServerStep};
use wireguard_gui::server::{ServerConfig, ServerPeer};
use wireguard_gui::net::privilege::PrivCmd;
use wireguard_gui::stats::{human_bytes, UsageStore};

fn s(t: &str) -> String {
    t.to_owned()
}

fn full_profile() -> WgProfile {
    WgProfile {
        name: s("home"),
        interface: InterfaceSection {
            private_key: s("AAAAAAAAAAAAAAAAAAAAAAAAAAAAAAAAAAAAAAAAAAA="),
            address: vec![s("10.0.0.2/32"), s("fd00::2/128")],
            dns: vec![s("1.1.1.1")],
            listen_port: Some(51820),
            mtu: Some(1420),
            ..Default::default()
        },
        peers: vec![
            PeerSection {
                public_key: s("one"),
                preshared_key: Some(s("psk")),
                endpoint: Some(s("[2001:db8::1]:51820")),
                allowed_ips: vec![s("0.0.0.0/0"), s("::/0")],
                persistent_keepalive: Some(25),
                ..Default::default()
            },
            PeerSection { public_key: s("two"), ..Default::default() },
        ],
        path: None,
    }
}

#[test]
fn a_profile_reads_back_as_written() {
    let p = full_profile();
    let text = p.to_conf_string();
    let q = WgProfile::from_conf_str("home", &text).unwrap();
    assert_eq!(format!("{p:?}"), format!("{q:?}"));
}

#[test]
fn reading_again_changes_nothing() {
    let untidy = "# top\n[interface]\n  privatekey=abc # mine\nADDRESS = 10.0.0.1/24 ,, 10.0.0.2/24\n\
                  ; note\n[PEER]\nPublicKey = def\nAllowedIPs = 0.0.0.0/0\n";
    let once = WgProfile::from_conf_str("x", untidy).unwrap();
    assert_eq!(once.interface.private_key, "abc");
    assert_eq!(once.interface.address, vec!["10.0.0.1/24", "10.0.0.2/24"]);
    let twice = WgProfile::from_conf_str("x", &once.to_conf_string()).unwrap();
    assert_eq!(format!("{once:?}"), format!("{twice:?}"));
}

#[test]
fn routes_are_the_union_of_the_peers() {
    let p = full_profile();
    let routes = p.routed_networks();
    for peer in &p.peers {
        for ip in &peer.allowed_ips {
            assert!(routes.contains(ip));
        }
    }
    assert_eq!(routes.len(), 2);
    assert!(p.is_full_tunnel());
}

#[test]
fn the_last_preset_counts() {
    let p = full_profile();
    let split = AllowedIpsPreset::SplitExcludeRFC1918.apply_to_profile(&p).unwrap();
    let then_full = AllowedIpsPreset::FullTunnel.apply_to_profile(&split).unwrap();
    let full = AllowedIpsPreset::FullTunnel.apply_to_profile(&p).unwrap();
    assert_eq!(format!("{then_full:?}"), format!("{full:?}"));
    assert!(full.is_full_tunnel());
}

fn covered(list: &[String], addr: u32) -> bool {
    list.iter().any(|c| {
        let (ip, prefix) = c.split_once('/').unwrap();
        let prefix: u32 = prefix.parse().unwrap();
        let mask = if prefix == 0 { 0 } else { u32::MAX << (32 - prefix) };
        parse_ipv4(ip).unwrap() & mask == addr & mask
    })
}

#[test]
fn the_split_leaves_out_private_addresses() {
    let list = split_exclude_rfc1918();
    for (ip, inside) in [
        ("9.255.255.255", true),
        ("10.0.0.0", false),
        ("10.255.255.255", false),
        ("11.0.0.0", true),
        ("172.15.255.255", true),
        ("172.16.0.0", false),
        ("172.31.255.255", false),
        ("172.32.0.0", true),
        ("192.167.255.255", true),
        ("192.168.0.0", false),
        ("192.168.255.255", false),
        ("192.169.0.0", true),
        ("0.0.0.0", true),
        ("223.255.255.255", true),
        ("224.0.0.0", true),
        ("224.0.0.1", true),
        ("255.255.255.255", true),
    ] {
        assert_eq!(covered(&list, parse_ipv4(ip).unwrap()), inside, "{ip}");
    }
}

#[test]
fn the_split_ascends_without_overlap() {
    let mut next: u64 = 0;
    let list = split_exclude_rfc1918();
    assert_eq!(list.last().unwrap(), "224.0.0.0/3");
    for c in &list {
        let (ip, prefix) = c.split_once('/').unwrap();
        let low = u64::from(parse_ipv4(ip).unwrap());
        assert!(low >= next, "{c}");
        next = low + (1u64 << (32 - prefix.parse::<u32>().unwrap()));
    }
    assert_eq!(next, 1 << 32);
}

#[test]
fn stripping_twice_is_stripping_once() {
    let conf = "[Interface]\nPrivateKey = k\nAddress = 10.0.0.1/24\nDNS = 1.1.1.1\nMTU = 1420\n\
                [Peer]\nPublicKey = p\nAllowedIPs = 0.0.0.0/0\n";
    let once = strip_wg_quick_keys(conf);
    assert!(!once.contains("Address") && !once.contains("DNS") && !once.contains("MTU"));
    assert!(once.contains("PrivateKey = k"));
    assert!(once.contains("[Peer]\nPublicKey = p\nAllowedIPs = 0.0.0.0/0"));
    assert_eq!(strip_wg_quick_keys(&once), once);
}

#[test]
fn waits_double_up_to_a_minute() {
    let waits: Vec<u64> = (0..8).map(next_backoff_secs).collect();
    assert_eq!(waits, vec![2, 4, 8, 16, 32, 60, 60, 60]);
    assert_eq!(next_backoff_secs(63), 60);
    assert_eq!(next_backoff_secs(u32::MAX), 60);
    assert_eq!(next_backoff(3), std::time::Duration::from_secs(16));
}

#[test]
fn totals_never_shrink() {
    let mut store = UsageStore::default();
    let first = store.record("home", 1000, 500);
    assert_eq!((first.total_rx, first.session_rx), (0, 0));
    let second = store.record("home", 1500, 700);
    assert_eq!((second.total_rx, second.session_rx), (500, 500));
    let bounced = store.record("home", 10, 10);
    assert_eq!((bounced.total_rx, bounced.session_rx), (500, 0));
    let after = store.record("home", 30, 10);
    assert_eq!((after.total_rx, after.session_rx), (520, 20));
    assert!(after.session_rx <= after.total_rx);
}

#[test]
fn texts_are_sorted_and_none_is_lost() {
    let sorted = sort_texts(vec![s("b"), s(""), s("ab"), s("a"), s("b")]);
    assert_eq!(sorted, vec!["", "a", "ab", "b", "b"]);
    assert!(text_before("a", "ab"));
    assert!(!text_before("ab", "a"));
    assert!(!text_before("a", "a"));
    assert!(text_before("Z", "a"));
}

fn peer(ip: &str) -> ServerPeer {
    ServerPeer {
        name: s("c"),
        public_key: s("pk"),
        private_key: Some(s("sk")),
        assigned_ip: s(ip),
        preshared_key: None,
        client_allowed_ips: s("0.0.0.0/0"),
    }
}

#[test]
fn the_lowest_free_address_is_given() {
    let mut config = create("vpn.example.com", None).unwrap();
    assert_eq!(config.next_ip(), "10.7.0.2");
    config.peers.push(peer("10.7.0.2"));
    config.peers.push(peer("10.7.0.4"));
    assert_eq!(config.next_ip(), "10.7.0.3");
    let added = config.add_peer("phone").unwrap().assigned_ip.clone();
    assert_eq!(added, "10.7.0.3");
    assert_eq!(config.next_ip(), "10.7.0.5");
    config.remove_peer(0);
    assert_eq!(config.next_ip(), "10.7.0.2");
}

#[test]
fn a_full_subnet_has_no_address_left() {
    let mut config = create("h", None).unwrap();
    config.subnet = s("10.7.0.0/30");
    config.peers.push(peer("10.7.0.2"));
    assert!(config.next_ip_inner().is_err());
    assert!(config.add_peer("late").is_err());
    assert_eq!(config.peers.len(), 1);
}

#[test]
fn the_servers_texts_are_profiles() {
    let mut config = create("vpn.example.com", None).unwrap();
    config.add_peer("phone").unwrap();
    let server = WgProfile::from_conf_str("server", &config.to_server_conf()).unwrap();
    assert_eq!(server.interface.private_key, config.private_key);
    assert_eq!(server.peers[0].public_key, config.peers[0].public_key);
    let client =
        WgProfile::from_conf_str("phone", &config.client_conf(&config.peers[0])).unwrap();
    assert_eq!(client.peers[0].public_key, config.public_key);
    assert_eq!(client.peers[0].endpoint.as_deref(), Some("vpn.example.com:51820"));
    assert!(client.validate().is_empty());
}

#[test]
fn a_client_without_a_known_key_gets_the_rest() {
    let mut config = create("vpn.example.com", None).unwrap();
    let mut client = peer("10.7.0.2");
    client.private_key = None;
    client.client_allowed_ips = s("10.7.0.0/24,,  192.168.1.0/24 ,");
    config.peers.push(client);
    let read =
        WgProfile::from_conf_str("phone", &config.client_conf(&config.peers[0])).unwrap();
    assert_eq!(read.interface.private_key, "");
    assert_eq!(read.interface.address, vec!["10.7.0.2/32"]);
    assert_eq!(read.interface.dns, config.dns);
    assert_eq!(read.peers.len(), 1);
    assert_eq!(read.peers[0].public_key, config.public_key);
    assert_eq!(read.peers[0].allowed_ips, vec!["10.7.0.0/24", "192.168.1.0/24"]);
    assert_eq!(read.peers[0].endpoint.as_deref(), Some("vpn.example.com:51820"));
}

#[test]
fn a_new_server_knows_its_way_out() {
    let routes = "default via 192.168.1.1 dev eth0 proto dhcp metric 100\n";
    let config = create("h", Some(s(routes))).unwrap();
    assert_eq!(config.egress_iface.as_deref(), Some("eth0"));
    assert_eq!(create("h", None).unwrap().egress_iface, None);
    assert_eq!(pubkey_from_private(&config.private_key).unwrap(), config.public_key);
}

#[test]
fn a_changed_server_is_saved_before_it_is_applied() {
    let config = ServerConfig::default();
    let idle = change_steps(&config, false);
    assert!(matches!(&idle[..], [ServerStep::Save]));
    let running = change_steps(&config, true);
    match &running[..] {
        [ServerStep::Save, ServerStep::Run(PrivCmd::ServerWriteConf { conf_text }), ServerStep::Run(PrivCmd::ServerUp)] => {
            assert_eq!(*conf_text, config.to_server_conf())
        }
        other => panic!("unexpected: {other:?}"),
    }
}

#[test]
fn a_private_key_has_the_standard_public_key() {
    let private = "dwdtCnMYpX08FsFyUbJmRd9ML4frwJkqsXf7pR25LCo=";
    let public = "hSDwCYkwp1R0i33ctD73Wg2/Og0mOBr066SpjqqbTmo=";
    assert_eq!(pubkey_from_private(private).unwrap(), public);
    assert_eq!(pubkey_from_private(&format!(" {private}\n")).unwrap(), public);
    assert_eq!(
        pubkey_from_private("AAAA").unwrap_err().to_string(),
        "[E301] key generation failed: private key must be 32 bytes, got 3"
    );
    assert!(pubkey_from_private("!").unwrap_err().to_string().starts_with(
        "[E301] key generation failed: base64 decode failed: "
    ));
}

#[test]
fn generated_keys_belong_together() {
    let (private, public) = generate_keypair().unwrap();
    assert!(is_valid_wg_key(&private) && is_valid_wg_key(&public));
    assert_eq!(pubkey_from_private(&private).unwrap(), public);
    assert_ne!(generate_keypair().unwrap().0, private);
}

#[test]
fn addresses_are_read_and_written() {
    assert_eq!(parse_ipv4("192.168.1.2"), Some(0xC0A8_0102));
    assert_eq!(format_ipv4(0xC0A8_0102), "192.168.1.2");
    for bad in ["", "1.2.3", "1.2.3.4.5", "256.1.1.1", "01.2.3.4", "1.2.3.x", " 1.2.3.4"] {
        assert_eq!(parse_ipv4(bad), None, "{bad}");
    }
    for good in ["::", "::1", "1::", "2001:db8::1", "1:2:3:4:5:6:7:8", "::ffff:1.2.3.4"] {
        assert!(is_ipv6(good), "{good}");
    }
    for bad in ["", ":", ":::", "1:2:3:4:5:6:7", "1:2:3:4:5:6:7:8:9", "1::2::3", "12345::", "g::"] {
        assert!(!is_ipv6(bad), "{bad}");
    }
    assert!(is_valid_cidr("10.0.0.0/8") && is_valid_cidr("::/0"));
    assert!(!is_valid_cidr("10.0.0.0/33") && !is_valid_cidr("::/129"));
}

#[test]
fn sizes_are_shown_to_two_places() {
    assert_eq!(human_bytes(1), "1 B");
    assert_eq!(human_bytes(1025), "1.00 KiB");
    assert_eq!(human_bytes(1_048_575), "1024.00 KiB");
    assert_eq!(human_bytes(u64::MAX), "16777216.00 TiB");
}

#[test]
fn sizes_are_rounded_as_floating_point_shows_them() {
    let units = [(10u32, "KiB"), (20, "MiB"), (30, "GiB"), (40, "TiB")];
    for (shift, name) in units {
        let unit = 1u64 << shift;
        for k in 0..2000u64 {
            let bytes = unit + k * (unit / 1024) * 5 + k % 3;
            if shift < 40 && bytes >= unit * 1024 {
                continue;
            }
            let expected = format!("{:.2} {name}", bytes as f64 / unit as f64);
            assert_eq!(human_bytes(bytes), expected, "{bytes}");
        }
    }
    for bytes in [u64::MAX, u64::MAX / 2, (1 << 53) + 1, (1 << 54) + 3, 0x7fff_ffff_ffff_fdff] {
        let expected = format!("{:.2} TiB", bytes as f64 / (1u64 << 40) as f64);
        assert_eq!(human_bytes(bytes), expected, "{bytes}");
    }
}
