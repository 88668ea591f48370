//! Profiles and their `.conf` text.

use wireguard_gui::config::profile::WgProfile;
use wireguard_gui::error::AppError;

const ZERO_KEY: &str = "AAAAAAAAAAAAAAAAAAAAAAAAAAAAAAAAAAAAAAAAAAA=";

fn minimal_conf(private_key: &str, allowed_ips: &str) -> String {
    format!(
        "[Interface]\nPrivateKey = {private_key}\nAddress = 10.0.0.1/24\n\n\
         [Peer]\nPublicKey = {ZERO_KEY}\nAllowedIPs = {allowed_ips}\n"
    )
}

#[test]
fn parse_minimal_profile() {
    let conf = minimal_conf(ZERO_KEY, "0.0.0.0/0");
    let p = WgProfile::from_conf_str("test", &conf).unwrap();
    assert_eq!(p.name, "test");
    assert_eq!(p.interface.private_key, ZERO_KEY);
    assert_eq!(p.interface.address, vec!["10.0.0.1/24"]);
    assert_eq!(p.peers.len(), 1);
    assert_eq!(p.peers[0].public_key, ZERO_KEY);
    assert_eq!(p.peers[0].allowed_ips, vec!["0.0.0.0/0"]);
}

#[test]
fn round_trip_preserves_data() {
    let conf = format!(
        "[Interface]\nPrivateKey = {ZERO_KEY}\nAddress = 10.0.0.2/24, fd00::2/128\n\
         DNS = 1.1.1.1, 8.8.8.8\nListenPort = 51820\nMTU = 1420\n\n\
         [Peer]\nPublicKey = {ZERO_KEY}\nEndpoint = vpn.example.com:51820\n\
         AllowedIPs = 0.0.0.0/0, ::/0\nPersistentKeepalive = 25\n"
    );
    let p = WgProfile::from_conf_str("wg0", &conf).unwrap();
    let out = p.to_conf_string();
    let p2 = WgProfile::from_conf_str("wg0", &out).unwrap();

    assert_eq!(p2.interface.private_key, ZERO_KEY);
    assert_eq!(p2.interface.address, vec!["10.0.0.2/24", "fd00::2/128"]);
    assert_eq!(p2.interface.dns, vec!["1.1.1.1", "8.8.8.8"]);
    assert_eq!(p2.interface.listen_port, Some(51820));
    assert_eq!(p2.interface.mtu, Some(1420));
    assert_eq!(p2.peers.len(), 1);
    assert_eq!(p2.peers[0].endpoint.as_deref(), Some("vpn.example.com:51820"));
    assert_eq!(p2.peers[0].persistent_keepalive, Some(25));
    assert!(p2.peers[0].allowed_ips.contains(&"0.0.0.0/0".to_owned()));
    assert!(p2.peers[0].allowed_ips.contains(&"::/0".to_owned()));
}

#[test]
fn multiple_peers_parsed() {
    let conf = format!(
        "[Interface]\nPrivateKey = {ZERO_KEY}\nAddress = 10.0.0.1/24\n\n\
         [Peer]\nPublicKey = {ZERO_KEY}\nAllowedIPs = 10.1.0.0/24\n\n\
         [Peer]\nPublicKey = {ZERO_KEY}\nAllowedIPs = 10.2.0.0/24\n"
    );
    let p = WgProfile::from_conf_str("multi", &conf).unwrap();
    assert_eq!(p.peers.len(), 2);
}

#[test]
fn inline_comments_stripped() {
    let conf = format!(
        "[Interface] # my tunnel\nPrivateKey = {ZERO_KEY} # secret\n\
         Address = 10.0.0.1/24 ; this is a comment\n"
    );
    let p = WgProfile::from_conf_str("comments", &conf).unwrap();
    assert_eq!(p.interface.private_key, ZERO_KEY);
    assert_eq!(p.interface.address, vec!["10.0.0.1/24"]);
}

#[test]
fn a_comment_begins_at_the_first_of_both_signs() {
    for line in ["10.0.0.1/24 ; lan # home", "10.0.0.1/24 # home ; lan", "10.0.0.1/24;#"] {
        let conf = format!("[Interface]\nAddress = {line}\n");
        let p = WgProfile::from_conf_str("c", &conf).unwrap();
        assert_eq!(p.interface.address, vec!["10.0.0.1/24"], "{line}");
    }
}

#[test]
fn parse_error_on_unknown_section() {
    let conf = "[Unknown]\nFoo = bar\n";
    let err = WgProfile::from_conf_str("bad", conf).unwrap_err();
    assert!(matches!(err, AppError::ProfileParseError { .. }));
}

#[test]
fn parse_error_on_key_before_section() {
    let conf = "PrivateKey = foo\n";
    let err = WgProfile::from_conf_str("bad", conf).unwrap_err();
    assert!(matches!(err, AppError::ProfileParseError { .. }));
}

#[test]
fn allowedips_comma_split_within_line() {
    let conf = format!(
        "[Interface]\nPrivateKey = {ZERO_KEY}\nAddress = 10.0.0.1/24\n\n\
         [Peer]\nPublicKey = {ZERO_KEY}\nAllowedIPs = 10.0.0.0/8, 192.168.0.0/16\n"
    );
    let p = WgProfile::from_conf_str("split", &conf).unwrap();
    assert_eq!(
        p.peers[0].allowed_ips,
        vec!["10.0.0.0/8", "192.168.0.0/16"]
    );
}

#[test]
fn validate_empty_private_key() {
    let conf = "[Interface]\nPrivateKey = \nAddress = 10.0.0.1/24\n\n\
                [Peer]\nPublicKey = AAAAAAAAAAAAAAAAAAAAAAAAAAAAAAAAAAAAAAAAAAA=\nAllowedIPs = 0.0.0.0/0\n";
    let p = WgProfile::from_conf_str("v", conf).unwrap();
    let errs = p.validate();
    assert!(errs.iter().any(|(f, _)| f == "Interface.PrivateKey"), "errs={errs:?}");
}

#[test]
fn validate_bad_private_key() {
    let mut p = WgProfile::default();
    p.interface.private_key = "not-valid-base64!!!".to_owned();
    p.interface.address = vec!["10.0.0.1/24".to_owned()];
    let errs = p.validate();
    assert!(errs.iter().any(|(f, _)| f == "Interface.PrivateKey"), "errs={errs:?}");
}

#[test]
fn validate_bad_cidr() {
    let mut p = WgProfile::default();
    p.interface.private_key = ZERO_KEY.to_owned();
    p.interface.address = vec!["not-a-cidr".to_owned()];
    let errs = p.validate();
    assert!(errs.iter().any(|(f, _)| f == "Interface.Address"), "errs={errs:?}");
}

#[test]
fn validate_cidr_prefix_too_large() {
    let mut p = WgProfile::default();
    p.interface.private_key = ZERO_KEY.to_owned();
    p.interface.address = vec!["10.0.0.1/33".to_owned()];
    let errs = p.validate();
    assert!(errs.iter().any(|(f, _)| f == "Interface.Address"), "errs={errs:?}");
}

#[test]
fn validate_valid_profile_no_errors() {
    let conf = minimal_conf(ZERO_KEY, "0.0.0.0/0");
    let p = WgProfile::from_conf_str("ok", &conf).unwrap();
    let errs = p.validate();
    assert!(errs.is_empty(), "unexpected errors: {errs:?}");
}

#[test]
fn validate_bad_peer_public_key() {
    let conf = format!(
        "[Interface]\nPrivateKey = {ZERO_KEY}\nAddress = 10.0.0.1/24\n\n\
         [Peer]\nPublicKey = badkey\nAllowedIPs = 0.0.0.0/0\n"
    );
    let p = WgProfile::from_conf_str("bad", &conf).unwrap();
    let errs = p.validate();
    assert!(errs.iter().any(|(f, _)| f.contains("PublicKey")), "errs={errs:?}");
}

#[test]
fn validate_bad_allowed_ips() {
    let conf = format!(
        "[Interface]\nPrivateKey = {ZERO_KEY}\nAddress = 10.0.0.1/24\n\n\
         [Peer]\nPublicKey = {ZERO_KEY}\nAllowedIPs = oops\n"
    );
    let p = WgProfile::from_conf_str("bad", &conf).unwrap();
    let errs = p.validate();
    assert!(errs.iter().any(|(f, _)| f.contains("AllowedIPs")), "errs={errs:?}");
}

#[test]
fn validate_bad_endpoint() {
    let conf = format!(
        "[Interface]\nPrivateKey = {ZERO_KEY}\nAddress = 10.0.0.1/24\n\n\
         [Peer]\nPublicKey = {ZERO_KEY}\nEndpoint = notanendpoint\nAllowedIPs = 0.0.0.0/0\n"
    );
    let p = WgProfile::from_conf_str("bad", &conf).unwrap();
    let errs = p.validate();
    assert!(errs.iter().any(|(f, _)| f.contains("Endpoint")), "errs={errs:?}");
}

#[test]
fn full_tunnel_via_v4() {
    let conf = minimal_conf(ZERO_KEY, "0.0.0.0/0");
    let p = WgProfile::from_conf_str("ft", &conf).unwrap();
    assert!(p.is_full_tunnel());
}

#[test]
fn full_tunnel_via_v6() {
    let conf = minimal_conf(ZERO_KEY, "::/0");
    let p = WgProfile::from_conf_str("ft6", &conf).unwrap();
    assert!(p.is_full_tunnel());
}

#[test]
fn split_tunnel_not_full() {
    let conf = minimal_conf(ZERO_KEY, "10.0.0.0/8");
    let p = WgProfile::from_conf_str("split", &conf).unwrap();
    assert!(!p.is_full_tunnel());
}

#[test]
fn routed_networks_dedup() {
    let conf = format!(
        "[Interface]\nPrivateKey = {ZERO_KEY}\nAddress = 10.0.0.1/24\n\n\
         [Peer]\nPublicKey = {ZERO_KEY}\nAllowedIPs = 10.0.0.0/8, 192.168.0.0/16\n\n\
         [Peer]\nPublicKey = {ZERO_KEY}\nAllowedIPs = 10.0.0.0/8, 172.16.0.0/12\n"
    );
    let p = WgProfile::from_conf_str("nets", &conf).unwrap();
    let nets = p.routed_networks();
    let count_10 = nets.iter().filter(|s| s.as_str() == "10.0.0.0/8").count();
    assert_eq!(count_10, 1, "nets={nets:?}");
    assert!(nets.contains(&"192.168.0.0/16".to_owned()));
    assert!(nets.contains(&"172.16.0.0/12".to_owned()));
}
