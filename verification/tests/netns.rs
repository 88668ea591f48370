//! Network namespaces.

use std::path::PathBuf;
use wireguard_gui::error::AppError;
use wireguard_gui::net::netns::{
    launch_argv, list_netns_argv, parse_our_namespaces, resolv_conf_content, resolv_conf_path,
    setup_cmds, strip_wg_quick_keys, teardown_cmds, NetnsManager, NetnsRule,
};

#[test]
fn strip_removes_address_and_dns() {
    let conf = "[Interface]\n\
                PrivateKey = abc123\n\
                Address = 10.0.0.2/32\n\
                DNS = 1.1.1.1, 8.8.8.8\n\
                ListenPort = 51820\n\n\
                [Peer]\n\
                PublicKey = XYZ\n\
                AllowedIPs = 0.0.0.0/0\n";
    let out = strip_wg_quick_keys(conf);
    assert!(out.contains("PrivateKey = abc123"), "kept PrivateKey; out={out}");
    assert!(out.contains("ListenPort = 51820"), "kept ListenPort; out={out}");
    assert!(!out.contains("Address"), "dropped Address; out={out}");
    assert!(!out.contains("DNS"), "dropped DNS; out={out}");
    assert!(out.contains("[Peer]"), "kept [Peer] section; out={out}");
    assert!(out.contains("PublicKey = XYZ"), "kept PublicKey; out={out}");
    assert!(out.contains("AllowedIPs = 0.0.0.0/0"), "kept AllowedIPs; out={out}");
}

#[test]
fn strip_removes_mtu_postup_predown() {
    let conf = "[Interface]\n\
                PrivateKey = KEY\n\
                Address = 10.0.0.1/24\n\
                MTU = 1420\n\
                PostUp = iptables -A FORWARD -i wg0 -j ACCEPT\n\
                PreDown = iptables -D FORWARD -i wg0 -j ACCEPT\n";
    let out = strip_wg_quick_keys(conf);
    assert!(out.contains("PrivateKey"), "out={out}");
    assert!(!out.contains("MTU"), "dropped MTU; out={out}");
    assert!(!out.contains("PostUp"), "dropped PostUp; out={out}");
    assert!(!out.contains("PreDown"), "dropped PreDown; out={out}");
}

#[test]
fn strip_is_case_insensitive_on_keys() {
    let conf = "[Interface]\n\
                privatekey = K\n\
                address = 10.0.0.1/32\n\
                DNS = 1.1.1.1\n";
    let out = strip_wg_quick_keys(conf);
    assert!(out.contains("privatekey"), "kept privatekey; out={out}");
    assert!(!out.contains("address"), "dropped address; out={out}");
    assert!(!out.contains("DNS"), "dropped DNS; out={out}");
}

#[test]
fn strip_leaves_peer_sections_intact() {
    let conf = "[Interface]\n\
                PrivateKey = PRIV\n\
                Address = 10.0.0.2/32\n\n\
                [Peer]\n\
                PublicKey = PUB\n\
                PresharedKey = PSK\n\
                Endpoint = 203.0.113.1:51820\n\
                AllowedIPs = 0.0.0.0/0\n\
                PersistentKeepalive = 25\n";
    let out = strip_wg_quick_keys(conf);
    assert!(out.contains("PublicKey = PUB"));
    assert!(out.contains("PresharedKey = PSK"));
    assert!(out.contains("Endpoint = 203.0.113.1:51820"));
    assert!(out.contains("AllowedIPs = 0.0.0.0/0"));
    assert!(out.contains("PersistentKeepalive = 25"));
}

#[test]
fn strip_empty_conf_returns_empty() {
    assert_eq!(strip_wg_quick_keys(""), "");
}

#[test]
fn strip_conf_without_wg_quick_keys_is_unchanged() {
    let conf = "[Interface]\n\
                PrivateKey = KEY\n\
                ListenPort = 51820\n\n\
                [Peer]\n\
                PublicKey = PUB\n\
                AllowedIPs = 10.0.0.0/24\n";
    let out = strip_wg_quick_keys(conf);
    for line in conf.lines() {
        assert!(out.contains(line), "missing line {:?}; out={out}", line);
    }
}

#[test]
fn resolv_conf_single_server() {
    let out = resolv_conf_content(&["1.1.1.1"]);
    assert_eq!(out, "nameserver 1.1.1.1\n");
}

#[test]
fn resolv_conf_multiple_servers() {
    let out = resolv_conf_content(&["1.1.1.1", "8.8.8.8"]);
    assert_eq!(out, "nameserver 1.1.1.1\nnameserver 8.8.8.8\n");
}

#[test]
fn resolv_conf_empty_slice() {
    assert_eq!(resolv_conf_content(&[]), "");
}

#[test]
fn resolv_conf_trims_whitespace() {
    let out = resolv_conf_content(&["  1.1.1.1  ", "  8.8.8.8  "]);
    assert_eq!(out, "nameserver 1.1.1.1\nnameserver 8.8.8.8\n");
}

#[test]
fn resolv_conf_skips_empty_entries() {
    let out = resolv_conf_content(&["1.1.1.1", "", "8.8.8.8"]);
    assert_eq!(out, "nameserver 1.1.1.1\nnameserver 8.8.8.8\n");
}

#[test]
fn resolv_conf_path_correct() {
    let p = resolv_conf_path("wg-gui-firefox");
    assert_eq!(p, PathBuf::from("/etc/netns/wg-gui-firefox/resolv.conf"));
}

#[test]
fn setup_cmds_golden_count() {
    let cmds = setup_cmds("wg-gui-app", "wg-gui-ns0", "/run/wg-gui/ns.conf", "10.2.0.2/32");
    assert_eq!(cmds.len(), 8, "cmds={cmds:?}");
}

#[test]
fn setup_cmds_golden_step1_netns_add() {
    let cmds = setup_cmds("wg-gui-app", "wg-gui-ns0", "/run/wg-gui/ns.conf", "10.2.0.2/32");
    assert_eq!(cmds[0], vec!["ip", "netns", "add", "wg-gui-app"]);
}

#[test]
fn setup_cmds_golden_step2_link_add_wireguard() {
    let cmds = setup_cmds("wg-gui-app", "wg-gui-ns0", "/run/wg-gui/ns.conf", "10.2.0.2/32");
    assert_eq!(
        cmds[1],
        vec!["ip", "link", "add", "wg-gui-ns0", "type", "wireguard"]
    );
}

#[test]
fn setup_cmds_golden_step3_link_set_netns() {
    let cmds = setup_cmds("wg-gui-app", "wg-gui-ns0", "/run/wg-gui/ns.conf", "10.2.0.2/32");
    assert_eq!(
        cmds[2],
        vec!["ip", "link", "set", "wg-gui-ns0", "netns", "wg-gui-app"]
    );
}

#[test]
fn setup_cmds_golden_step4_wg_setconf() {
    let cmds = setup_cmds("wg-gui-app", "wg-gui-ns0", "/run/wg-gui/ns.conf", "10.2.0.2/32");
    assert_eq!(
        cmds[3],
        vec![
            "ip", "netns", "exec", "wg-gui-app",
            "wg", "setconf", "wg-gui-ns0", "/run/wg-gui/ns.conf"
        ]
    );
}

#[test]
fn setup_cmds_golden_step5_addr_add() {
    let cmds = setup_cmds("wg-gui-app", "wg-gui-ns0", "/run/wg-gui/ns.conf", "10.2.0.2/32");
    assert_eq!(
        cmds[4],
        vec!["ip", "-n", "wg-gui-app", "addr", "add", "10.2.0.2/32", "dev", "wg-gui-ns0"]
    );
}

#[test]
fn setup_cmds_golden_step6_wgif_up() {
    let cmds = setup_cmds("wg-gui-app", "wg-gui-ns0", "/run/wg-gui/ns.conf", "10.2.0.2/32");
    assert_eq!(
        cmds[5],
        vec!["ip", "-n", "wg-gui-app", "link", "set", "wg-gui-ns0", "up"]
    );
}

#[test]
fn setup_cmds_golden_step7_lo_up() {
    let cmds = setup_cmds("wg-gui-app", "wg-gui-ns0", "/run/wg-gui/ns.conf", "10.2.0.2/32");
    assert_eq!(
        cmds[6],
        vec!["ip", "-n", "wg-gui-app", "link", "set", "lo", "up"]
    );
}

#[test]
fn setup_cmds_golden_step8_default_route() {
    let cmds = setup_cmds("wg-gui-app", "wg-gui-ns0", "/run/wg-gui/ns.conf", "10.2.0.2/32");
    assert_eq!(
        cmds[7],
        vec!["ip", "-n", "wg-gui-app", "route", "add", "default", "dev", "wg-gui-ns0"]
    );
}

#[test]
fn teardown_cmds_golden_count() {
    let cmds = teardown_cmds("wg-gui-app");
    assert_eq!(cmds.len(), 2, "cmds={cmds:?}");
}

#[test]
fn teardown_cmds_golden_step1_netns_del() {
    let cmds = teardown_cmds("wg-gui-app");
    assert_eq!(cmds[0], vec!["ip", "netns", "del", "wg-gui-app"]);
}

#[test]
fn teardown_cmds_golden_step2_rm_etc_netns() {
    let cmds = teardown_cmds("wg-gui-app");
    assert_eq!(cmds[1], vec!["rm", "-rf", "/etc/netns/wg-gui-app"]);
}

#[test]
fn launch_argv_golden_no_args_no_env() {
    let argv = launch_argv("wg-gui-app", "alice", "/usr/bin/firefox", &[], &[]);
    assert_eq!(
        argv,
        vec![
            "ip", "netns", "exec", "wg-gui-app",
            "runuser", "-u", "alice", "--",
            "env",
            "/usr/bin/firefox",
        ]
    );
}

#[test]
fn launch_argv_golden_with_env_and_args() {
    let args: Vec<String> = vec!["--new-instance".into(), "--profile".into(), "p".into()];
    let env_vars: Vec<(String, String)> = vec![
        ("DISPLAY".into(), ":0".into()),
        ("WAYLAND_DISPLAY".into(), "wayland-0".into()),
        ("XDG_RUNTIME_DIR".into(), "/run/user/1000".into()),
    ];
    let argv = launch_argv("wg-gui-firefox", "alice", "/usr/bin/firefox", &args, &env_vars);

    assert_eq!(&argv[0..4], &["ip", "netns", "exec", "wg-gui-firefox"]);
    assert_eq!(&argv[4..8], &["runuser", "-u", "alice", "--"]);
    assert_eq!(argv[8], "env");
    assert_eq!(argv[9], "DISPLAY=:0");
    assert_eq!(argv[10], "WAYLAND_DISPLAY=wayland-0");
    assert_eq!(argv[11], "XDG_RUNTIME_DIR=/run/user/1000");
    assert_eq!(argv[12], "/usr/bin/firefox");
    assert_eq!(argv[13], "--new-instance");
    assert_eq!(argv[14], "--profile");
    assert_eq!(argv[15], "p");
    assert_eq!(argv.len(), 16);
}

#[test]
fn launch_argv_env_key_equals_value_format() {
    let env_vars = vec![("MY_KEY".into(), "my value with spaces".into())];
    let argv = launch_argv("wg-gui-app", "bob", "/usr/bin/true", &[], &env_vars);
    let found = argv.iter().any(|t| t == "MY_KEY=my value with spaces");
    assert!(found, "expected 'MY_KEY=my value with spaces' in argv={argv:?}");
}

#[test]
fn launch_argv_no_shell_quoting_needed() {
    let exe = "/home/user/my apps/browser";
    let argv = launch_argv("wg-gui-app", "alice", exe, &[], &[]);
    let last = argv.last().expect("argv must be non-empty");
    assert_eq!(last, exe);
}

#[test]
fn list_netns_argv_golden() {
    assert_eq!(list_netns_argv(), vec!["ip", "netns", "list"]);
}

#[test]
fn parse_our_namespaces_picks_wg_gui_prefix() {
    let output = "wg-gui-firefox (id: 3)\nwg-gui-chromium (id: 5)\nsome-other-ns\n";
    let ns = parse_our_namespaces(output);
    assert_eq!(ns, vec!["wg-gui-firefox", "wg-gui-chromium"]);
}

#[test]
fn parse_our_namespaces_empty_output() {
    assert!(parse_our_namespaces("").is_empty());
}

#[test]
fn parse_our_namespaces_no_match() {
    let output = "some-ns\nanother-ns\n";
    assert!(parse_our_namespaces(output).is_empty());
}

#[test]
fn parse_our_namespaces_without_id_suffix() {
    let output = "wg-gui-app\n";
    let ns = parse_our_namespaces(output);
    assert_eq!(ns, vec!["wg-gui-app"]);
}

#[test]
fn manager_setup_cmds_delegates_to_free_fn() {
    let mgr = NetnsManager;
    let via_mgr = mgr.setup_cmds("wg-gui-x", "wg-gui-if0", "/tmp/x.conf", "10.0.0.1/32");
    let direct = setup_cmds("wg-gui-x", "wg-gui-if0", "/tmp/x.conf", "10.0.0.1/32");
    assert_eq!(via_mgr, direct);
}

#[test]
fn manager_teardown_cmds_delegates_to_free_fn() {
    let mgr = NetnsManager;
    assert_eq!(mgr.teardown_cmds("wg-gui-x"), teardown_cmds("wg-gui-x"));
}

#[test]
fn manager_launch_argv_delegates_to_free_fn() {
    let mgr = NetnsManager;
    let args: Vec<String> = vec![];
    let env: Vec<(String, String)> = vec![];
    assert_eq!(
        mgr.launch_argv("wg-gui-x", "alice", "/usr/bin/x", &args, &env),
        launch_argv("wg-gui-x", "alice", "/usr/bin/x", &args, &env),
    );
}

#[test]
fn add_rule_rejects_empty_ns_name() {
    let mgr = NetnsManager;
    let rule = NetnsRule {
        executable_path: PathBuf::from("/usr/bin/x"),
        ns_name: "".into(),
    };
    let result = mgr.add_rule(&rule);
    assert!(result.is_err());
    assert!(matches!(result.unwrap_err(), AppError::NetnsFailed(_)));
}

#[test]
fn add_rule_rejects_non_wg_gui_prefix() {
    let mgr = NetnsManager;
    let rule = NetnsRule {
        executable_path: PathBuf::from("/usr/bin/x"),
        ns_name: "my-custom-ns".into(),
    };
    let result = mgr.add_rule(&rule);
    assert!(result.is_err());
}

#[test]
fn add_rule_accepts_valid_ns_name() {
    let mgr = NetnsManager;
    let rule = NetnsRule {
        executable_path: PathBuf::from("/usr/bin/firefox"),
        ns_name: "wg-gui-firefox".into(),
    };
    let result = mgr.add_rule(&rule);
    assert!(result.is_ok());
}
