//! The helper's commands and rules.

use wireguard_gui::helper::{
    ip_link_show_argv, netns_del_argv, netns_launch_argv, netns_setup_argv_sequence,
    nft_delete_nat_table_argv, nft_delete_table_argv, nft_killswitch_ruleset, nft_nat_ruleset,
    sysctl_ipv4_forward_argv, sysctl_ipv6_forward_argv, systemd_run_deadman_argv,
    username_for_uid, wgquick_server_down_argv, wgquick_server_up_argv, CLIENT_CONF_PATH,
    SERVER_CONF_PATH,
};
use wireguard_gui::helper::steps::dispatch;
use wireguard_gui::net::privilege::PrivCmd;

const NFT_TABLE_FAMILY: &str = "inet";
const NFT_TABLE_NAME: &str = "wg_gui_killswitch";
const NFT_NAT_TABLE_FAMILY: &str = "inet";
const NFT_NAT_TABLE_NAME: &str = "wg_gui_srv_nat";

const PASSWD: &str = "root:x:0:0:root:/root:/bin/bash\nalice:x:1000:1000::/home/alice:/bin/sh\n";

#[test]
fn nft_ruleset_contains_table_name() {
    let rs = nft_killswitch_ruleset("wg0", "203.0.113.1", 51820, &[], None);
    assert!(rs.contains("wg_gui_killswitch"), "missing table name: {rs}");
    assert!(rs.contains("inet"), "missing family 'inet': {rs}");
}

#[test]
fn nft_ruleset_lockout_prevention_order() {
    let rs = nft_killswitch_ruleset(
        "wg-gui0",
        "203.0.113.7",
        51820,
        &["192.168.0.0/16".into()],
        None,
    );
    let lo_pos = rs.find("oifname lo accept").expect("lo accept missing");
    let iface_pos = rs.find("oifname wg-gui0 accept").expect("iface accept missing");
    let ep_pos = rs
        .find("ip daddr 203.0.113.7 udp dport 51820 accept")
        .expect("endpoint accept missing");
    let lan_pos = rs
        .find("ip daddr 192.168.0.0/16 accept")
        .expect("LAN accept missing");
    let est_pos = rs
        .find("ct state established,related accept")
        .expect("established accept missing");
    let drop_pos = rs.find("policy drop").expect("drop policy missing");

    assert!(lo_pos < drop_pos, "lo must come before drop");
    assert!(iface_pos < drop_pos, "iface must come before drop");
    assert!(ep_pos < drop_pos, "endpoint must come before drop");
    assert!(lan_pos < drop_pos, "LAN must come before drop");
    assert!(est_pos < drop_pos, "established must come before drop");
    assert!(lo_pos < iface_pos, "lo must come before iface");
    assert!(iface_pos < ep_pos, "iface must come before endpoint");
}

#[test]
fn nft_ruleset_netns_udp_punch_through() {
    let rs = nft_killswitch_ruleset(
        "wg0",
        "203.0.113.1",
        51820,
        &[],
        Some(&("198.51.100.5".into(), 12345)),
    );
    assert!(
        rs.contains("ip daddr 198.51.100.5 udp dport 12345 accept"),
        "netns punch-through missing: {rs}"
    );
}

#[test]
fn nft_ruleset_no_netns_punch_through_when_none() {
    let rs = nft_killswitch_ruleset("wg0", "203.0.113.1", 51820, &[], None);
    let count = rs.matches("udp dport").count();
    assert_eq!(count, 1, "expected 1 udp dport rule, got {count}: {rs}");
}

#[test]
fn nft_ruleset_multiple_lan_cidrs() {
    let lan = vec![
        "10.0.0.0/8".into(),
        "172.16.0.0/12".into(),
        "192.168.0.0/16".into(),
    ];
    let rs = nft_killswitch_ruleset("wg0", "203.0.113.1", 51820, &lan, None);
    assert!(rs.contains("ip daddr 10.0.0.0/8 accept"));
    assert!(rs.contains("ip daddr 172.16.0.0/12 accept"));
    assert!(rs.contains("ip daddr 192.168.0.0/16 accept"));
}

#[test]
fn nft_ruleset_empty_lan_cidrs() {
    let rs = nft_killswitch_ruleset("wg0", "203.0.113.1", 51820, &[], None);
    let daddr_count = rs.matches("ip daddr").count();
    assert_eq!(daddr_count, 1, "expected only endpoint daddr rule, got {daddr_count}: {rs}");
}

#[test]
fn deadman_argv_contains_lease_and_nft_delete() {
    let argv = systemd_run_deadman_argv(30);
    assert_eq!(argv[0], "systemd-run");
    assert!(
        argv.iter().any(|a| a == "--on-active"),
        "missing --on-active: {argv:?}"
    );
    assert!(
        argv.iter().any(|a| a == "30s"),
        "missing lease duration 30s: {argv:?}"
    );
    assert!(argv.iter().any(|a| a == "nft"), "missing nft: {argv:?}");
    assert!(
        argv.iter().any(|a| a == "delete"),
        "missing delete: {argv:?}"
    );
    assert!(
        argv.iter().any(|a| a == NFT_TABLE_FAMILY),
        "missing table family 'inet': {argv:?}"
    );
    assert!(
        argv.iter().any(|a| a == NFT_TABLE_NAME),
        "missing table name: {argv:?}"
    );
}

#[test]
fn deadman_argv_lease_is_respected() {
    let argv60 = systemd_run_deadman_argv(60);
    let argv300 = systemd_run_deadman_argv(300);
    assert!(argv60.iter().any(|a| a == "60s"));
    assert!(argv300.iter().any(|a| a == "300s"));
}

#[test]
fn nft_delete_table_argv_shape() {
    let argv = nft_delete_table_argv();
    assert_eq!(argv[0], "nft");
    assert_eq!(argv[1], "delete");
    assert_eq!(argv[2], "table");
    assert_eq!(argv[3], NFT_TABLE_FAMILY, "family must be 'inet'");
    assert_eq!(argv[4], NFT_TABLE_NAME, "name must be 'wg_gui_killswitch'");
    assert_eq!(argv.len(), 5);
}

#[test]
fn ip_link_show_argv_golden() {
    let argv = ip_link_show_argv("wg-gui0");
    assert_eq!(argv, vec!["ip", "link", "show", "wg-gui0"]);
}

#[test]
fn netns_setup_sequence_length_and_order() {
    let seq = netns_setup_argv_sequence("wg-gui-app", "wg-gui-ns0", "/run/wg.conf", "10.2.0.2/32");
    assert_eq!(seq.len(), 8, "expected 8 steps, got {}", seq.len());

    assert_eq!(&seq[0], &["ip", "netns", "add", "wg-gui-app"]);

    assert_eq!(
        &seq[1],
        &["ip", "link", "add", "wg-gui-ns0", "type", "wireguard"]
    );

    assert_eq!(
        &seq[2],
        &["ip", "link", "set", "wg-gui-ns0", "netns", "wg-gui-app"]
    );

    assert_eq!(
        &seq[3],
        &[
            "ip", "netns", "exec", "wg-gui-app",
            "wg", "setconf", "wg-gui-ns0", "/run/wg.conf"
        ]
    );

    assert!(seq[4].contains(&"addr".into()), "step 5 must contain addr: {:?}", seq[4]);
    assert!(seq[4].contains(&"10.2.0.2/32".into()), "step 5 must contain address");

    assert!(seq[5].contains(&"wg-gui-ns0".into()), "step 6 must reference wgif");
    assert!(seq[5].contains(&"up".into()), "step 6 must set up");

    assert!(seq[6].contains(&"lo".into()), "step 7 must reference lo");
    assert!(seq[6].contains(&"up".into()), "step 7 must set up");

    assert!(seq[7].contains(&"route".into()), "step 8 must be a route cmd");
    assert!(seq[7].contains(&"default".into()), "step 8 must add default route");
}

#[test]
fn netns_setup_sequence_references_all_params() {
    let seq = netns_setup_argv_sequence("test-ns", "test-wg0", "/tmp/test.conf", "10.0.0.1/24");
    let all: Vec<String> = seq.into_iter().flatten().collect();
    let joined = all.join(" ");
    assert!(joined.contains("test-ns"), "missing ns");
    assert!(joined.contains("test-wg0"), "missing wgif");
    assert!(joined.contains("/tmp/test.conf"), "missing conf_path");
    assert!(joined.contains("10.0.0.1/24"), "missing address");
}

#[test]
fn netns_del_argv_golden() {
    assert_eq!(
        netns_del_argv("wg-gui-app"),
        vec!["ip", "netns", "del", "wg-gui-app"]
    );
}

#[test]
fn netns_launch_argv_shape() {
    let env = vec![
        ("DISPLAY".into(), ":0".into()),
        ("XDG_RUNTIME_DIR".into(), "/run/user/1000".into()),
    ];
    let args = vec!["--new-instance".into()];
    let argv = netns_launch_argv("wg-gui-app", "alice", "/usr/bin/firefox", &args, &env);

    assert_eq!(argv[0], "ip");
    assert_eq!(argv[1], "netns");
    assert_eq!(argv[2], "exec");
    assert_eq!(argv[3], "wg-gui-app");
    assert_eq!(argv[4], "runuser");
    assert_eq!(argv[5], "-u");
    assert_eq!(argv[6], "alice");
    assert_eq!(argv[7], "--");
    assert_eq!(argv[8], "env");

    let kv_pos: Vec<_> = argv
        .iter()
        .enumerate()
        .filter(|(_, a)| a.contains('='))
        .collect();
    assert!(
        kv_pos.iter().any(|(_, a)| a.as_str() == "DISPLAY=:0"),
        "DISPLAY missing: {argv:?}"
    );
    assert!(
        kv_pos.iter().any(|(_, a)| a.as_str() == "XDG_RUNTIME_DIR=/run/user/1000"),
        "XDG_RUNTIME_DIR missing: {argv:?}"
    );

    assert!(
        argv.iter().any(|a| a == "/usr/bin/firefox"),
        "exe missing: {argv:?}"
    );
    assert!(
        argv.iter().any(|a| a == "--new-instance"),
        "arg missing: {argv:?}"
    );
}

#[test]
fn netns_launch_argv_empty_env_and_args() {
    let argv = netns_launch_argv("ns", "bob", "/usr/bin/ls", &[], &[]);
    assert!(argv.iter().any(|a| a == "env"), "env keyword missing");
    assert!(argv.last() == Some(&"/usr/bin/ls".into()), "exe must be last");
}

#[test]
fn boot_enable_argv_golden() {
    let iface = "wg-gui-home";
    let service = format!("wg-quick@{iface}");
    assert_eq!(service, "wg-quick@wg-gui-home");
}

#[test]
fn boot_disable_argv_golden() {
    let iface = "wg-gui-work";
    let service = format!("wg-quick@{iface}");
    assert_eq!(service, "wg-quick@wg-gui-work");
}

#[test]
fn username_for_uid_root_is_root() {
    let name = username_for_uid(PASSWD, 0).expect("root must be in /etc/passwd");
    assert_eq!(name, "root", "uid 0 should map to 'root', got '{name}'");
}

#[test]
fn username_for_uid_unknown_returns_err() {
    let result = username_for_uid(PASSWD, u32::MAX);
    assert!(result.is_err(), "unknown uid must return Err");
    let msg = result.unwrap_err().to_string();
    assert!(
        msg.contains(&u32::MAX.to_string()),
        "error must mention the uid: {msg}"
    );
}

#[test]
fn netns_launch_refuses_uid_zero() {
    let cmd = PrivCmd::NetnsLaunch {
        ns: "any-ns".into(),
        uid: 0,
        exe: "/bin/bash".into(),
        args: vec![],
        env: vec![],
    };
    let result = dispatch(cmd, 1, Ok(PASSWD.to_string()));
    assert!(result.is_err(), "uid 0 launch must be refused");
    let msg = result.unwrap_err().to_string();
    assert!(
        msg.contains("uid 0") || msg.contains("root"),
        "error must mention uid 0 or root: {msg}"
    );
}

#[test]
fn wgquick_server_up_argv_golden() {
    let argv = wgquick_server_up_argv();
    assert_eq!(argv, vec!["wg-quick", "up", SERVER_CONF_PATH]);
}

#[test]
fn wgquick_server_down_argv_golden() {
    let argv = wgquick_server_down_argv();
    assert_eq!(argv, vec!["wg-quick", "down", SERVER_CONF_PATH]);
}

#[test]
fn sysctl_ipv4_forward_argv_golden() {
    let argv = sysctl_ipv4_forward_argv();
    assert_eq!(argv, vec!["sysctl", "-w", "net.ipv4.ip_forward=1"]);
}

#[test]
fn sysctl_ipv6_forward_argv_golden() {
    let argv = sysctl_ipv6_forward_argv();
    assert_eq!(argv, vec!["sysctl", "-w", "net.ipv6.conf.all.forwarding=1"]);
}

#[test]
fn nft_delete_nat_table_argv_golden() {
    let argv = nft_delete_nat_table_argv();
    assert_eq!(argv.len(), 5, "expected 5 argv elements: {argv:?}");
    assert_eq!(argv[0], "nft");
    assert_eq!(argv[1], "delete");
    assert_eq!(argv[2], "table");
    assert_eq!(argv[3], NFT_NAT_TABLE_FAMILY, "family must be 'inet'");
    assert_eq!(argv[4], NFT_NAT_TABLE_NAME, "name must be 'wg_gui_srv_nat'");
}

#[test]
fn nft_nat_ruleset_contains_table_and_chain() {
    let rs = nft_nat_ruleset("10.7.0.0/24", "eth0");
    assert!(
        rs.contains("wg_gui_srv_nat"),
        "missing table name 'wg_gui_srv_nat': {rs}"
    );
    assert!(rs.contains("inet"), "missing family 'inet': {rs}");
    assert!(rs.contains("postrouting"), "missing postrouting hook: {rs}");
    assert!(rs.contains("masquerade"), "missing masquerade target: {rs}");
}

#[test]
fn nft_nat_ruleset_subnet_and_egress_embedded() {
    let rs = nft_nat_ruleset("10.7.0.0/24", "eth0");
    assert!(
        rs.contains("ip saddr 10.7.0.0/24"),
        "subnet missing from ruleset: {rs}"
    );
    assert!(
        rs.contains(r#"oifname "eth0""#),
        "egress iface (quoted) missing from ruleset: {rs}"
    );
}

#[test]
fn nft_nat_ruleset_different_params_produce_different_output() {
    let rs1 = nft_nat_ruleset("10.7.0.0/24", "eth0");
    let rs2 = nft_nat_ruleset("192.168.0.0/16", "ens3");
    assert_ne!(rs1, rs2, "different params must produce different rulesets");
}

#[test]
fn nft_nat_ruleset_postrouting_priority_is_100() {
    let rs = nft_nat_ruleset("10.7.0.0/24", "eth0");
    assert!(
        rs.contains("priority 100"),
        "expected postrouting priority 100: {rs}"
    );
}

#[test]
fn server_conf_path_is_etc_wireguard() {
    assert_eq!(SERVER_CONF_PATH, "/etc/wireguard/wg-gui-srv0.conf");
}

#[test]
fn client_conf_path_is_etc_wireguard_with_iface_basename() {
    assert_eq!(CLIENT_CONF_PATH, "/etc/wireguard/wg-gui0.conf");
    assert!(
        CLIENT_CONF_PATH.starts_with("/etc/wireguard/"),
        "client conf must live under /etc/wireguard (AppArmor): {CLIENT_CONF_PATH}"
    );
    assert!(
        CLIENT_CONF_PATH.ends_with("/wg-gui0.conf"),
        "client conf basename must be wg-gui0.conf: {CLIENT_CONF_PATH}"
    );
}
