//! Presets for allowed networks.

use wireguard_gui::config::profile::{InterfaceSection, PeerSection, WgProfile};
use wireguard_gui::net::allowed_ips::{split_exclude_rfc1918, AllowedIpsPreset};

fn make_profile_with_peers(peers: usize) -> WgProfile {
    WgProfile {
        name: "test".to_string(),
        interface: InterfaceSection {
            private_key: "AAAA".to_string(),
            address: vec!["10.0.0.2/32".to_string()],
            dns: vec!["1.1.1.1".to_string()],
            listen_port: None,
            mtu: None,
        },
        peers: (0..peers)
            .map(|i| PeerSection {
                public_key: format!("PEER{i}"),
                preshared_key: None,
                endpoint: Some(format!("192.0.2.{i}:51820")),
                allowed_ips: vec!["10.0.0.0/8".to_string()],
                persistent_keepalive: None,
            })
            .collect(),
        path: None,
    }
}

#[test]
fn full_tunnel_display_name() {
    assert_eq!(AllowedIpsPreset::FullTunnel.display_name(), "Full Tunnel");
}

#[test]
fn full_tunnel_apply_no_peers() {
    let profile = make_profile_with_peers(0);
    let result = AllowedIpsPreset::FullTunnel
        .apply_to_profile(&profile)
        .unwrap();
    assert!(result.peers.is_empty());
}

#[test]
fn full_tunnel_apply_single_peer() {
    let profile = make_profile_with_peers(1);
    let result = AllowedIpsPreset::FullTunnel
        .apply_to_profile(&profile)
        .unwrap();
    assert_eq!(result.peers.len(), 1);
    assert_eq!(
        result.peers[0].allowed_ips,
        vec!["0.0.0.0/0".to_string(), "::/0".to_string()]
    );
}

#[test]
fn full_tunnel_apply_multiple_peers() {
    let profile = make_profile_with_peers(3);
    let result = AllowedIpsPreset::FullTunnel
        .apply_to_profile(&profile)
        .unwrap();
    assert_eq!(result.peers.len(), 3);
    for peer in &result.peers {
        assert_eq!(
            peer.allowed_ips,
            vec!["0.0.0.0/0".to_string(), "::/0".to_string()]
        );
    }
}

#[test]
fn full_tunnel_does_not_mutate_original() {
    let profile = make_profile_with_peers(1);
    let original_ips = profile.peers[0].allowed_ips.clone();
    let _result = AllowedIpsPreset::FullTunnel
        .apply_to_profile(&profile)
        .unwrap();
    assert_eq!(profile.peers[0].allowed_ips, original_ips);
}

#[test]
fn full_tunnel_preserves_other_fields() {
    let profile = make_profile_with_peers(1);
    let result = AllowedIpsPreset::FullTunnel
        .apply_to_profile(&profile)
        .unwrap();
    assert_eq!(result.name, profile.name);
    assert_eq!(result.interface.private_key, profile.interface.private_key);
    assert_eq!(result.peers[0].public_key, profile.peers[0].public_key);
    assert_eq!(result.peers[0].endpoint, profile.peers[0].endpoint);
}

#[test]
fn split_display_name() {
    assert_eq!(
        AllowedIpsPreset::SplitExcludeRFC1918.display_name(),
        "Split Tunnel (exclude RFC1918)"
    );
}

#[test]
fn split_apply_single_peer() {
    let profile = make_profile_with_peers(1);
    let result = AllowedIpsPreset::SplitExcludeRFC1918
        .apply_to_profile(&profile)
        .unwrap();
    assert_eq!(result.peers.len(), 1);
    let ips = &result.peers[0].allowed_ips;
    assert!(ips.contains(&"0.0.0.0/5".to_string()), "missing 0.0.0.0/5");
    assert!(ips.contains(&"::/0".to_string()), "missing ::/0");
}

#[test]
fn split_excludes_rfc1918_ranges() {
    let profile = make_profile_with_peers(1);
    let result = AllowedIpsPreset::SplitExcludeRFC1918
        .apply_to_profile(&profile)
        .unwrap();
    let ips = &result.peers[0].allowed_ips;
    assert!(
        !ips.contains(&"10.0.0.0/8".to_string()),
        "10/8 must be excluded"
    );
    assert!(
        !ips.contains(&"172.16.0.0/12".to_string()),
        "172.16/12 must be excluded"
    );
    assert!(
        !ips.contains(&"192.168.0.0/16".to_string()),
        "192.168/16 must be excluded"
    );
}

#[test]
fn split_apply_multiple_peers_all_equal() {
    let profile = make_profile_with_peers(4);
    let result = AllowedIpsPreset::SplitExcludeRFC1918
        .apply_to_profile(&profile)
        .unwrap();
    assert_eq!(result.peers.len(), 4);
    let first = &result.peers[0].allowed_ips;
    for peer in &result.peers {
        assert_eq!(&peer.allowed_ips, first);
    }
}

#[test]
fn split_cidr_count_matches_constant() {
    let profile = make_profile_with_peers(1);
    let result = AllowedIpsPreset::SplitExcludeRFC1918
        .apply_to_profile(&profile)
        .unwrap();
    assert_eq!(
        result.peers[0].allowed_ips.len(),
        split_exclude_rfc1918().len()
    );
}

#[test]
fn split_constant_entries_are_valid_cidr_strings() {
    for cidr in split_exclude_rfc1918() {
        assert!(cidr.contains('/'), "not a CIDR: {cidr}");
        let (_, prefix) = cidr.rsplit_once('/').unwrap();
        let prefix: u8 = prefix.parse().expect("prefix not a number");
        assert!(prefix <= 128, "prefix out of range: {cidr}");
    }
}

#[test]
fn custom_display_name() {
    let preset = AllowedIpsPreset::Custom(vec!["10.8.0.0/24".to_string()]);
    assert_eq!(preset.display_name(), "Custom");
}

#[test]
fn custom_apply_empty_list() {
    let profile = make_profile_with_peers(2);
    let preset = AllowedIpsPreset::Custom(vec![]);
    let result = preset.apply_to_profile(&profile).unwrap();
    for peer in &result.peers {
        assert!(peer.allowed_ips.is_empty());
    }
}

#[test]
fn custom_apply_single_cidr() {
    let profile = make_profile_with_peers(1);
    let cidr = "10.8.0.0/24".to_string();
    let preset = AllowedIpsPreset::Custom(vec![cidr.clone()]);
    let result = preset.apply_to_profile(&profile).unwrap();
    assert_eq!(result.peers[0].allowed_ips, vec![cidr]);
}

#[test]
fn custom_apply_multiple_cidrs() {
    let profile = make_profile_with_peers(2);
    let cidrs = vec![
        "10.8.0.0/24".to_string(),
        "192.0.2.0/24".to_string(),
        "::/1".to_string(),
    ];
    let preset = AllowedIpsPreset::Custom(cidrs.clone());
    let result = preset.apply_to_profile(&profile).unwrap();
    for peer in &result.peers {
        assert_eq!(peer.allowed_ips, cidrs);
    }
}

#[test]
fn custom_does_not_mutate_original() {
    let profile = make_profile_with_peers(1);
    let original_ips = profile.peers[0].allowed_ips.clone();
    let preset = AllowedIpsPreset::Custom(vec!["198.51.100.0/24".to_string()]);
    let _result = preset.apply_to_profile(&profile).unwrap();
    assert_eq!(profile.peers[0].allowed_ips, original_ips);
}

#[test]
fn custom_vector_cloned_independently() {
    let cidrs = vec!["10.0.0.0/8".to_string()];
    let preset = AllowedIpsPreset::Custom(cidrs.clone());
    let profile = make_profile_with_peers(1);
    let mut result = preset.apply_to_profile(&profile).unwrap();
    result.peers[0].allowed_ips.push("172.16.0.0/12".to_string());
    let result2 = preset.apply_to_profile(&profile).unwrap();
    assert_eq!(result2.peers[0].allowed_ips, cidrs);
}

#[test]
fn apply_returns_ok_for_all_presets() {
    let profile = make_profile_with_peers(2);
    let presets = [
        AllowedIpsPreset::FullTunnel,
        AllowedIpsPreset::SplitExcludeRFC1918,
        AllowedIpsPreset::Custom(vec!["0.0.0.0/0".to_string()]),
    ];
    for preset in &presets {
        assert!(
            preset.apply_to_profile(&profile).is_ok(),
            "{} returned Err",
            preset.display_name()
        );
    }
}
