//! The privileged helper: its plans, and what comes of them.

use wireguard_gui::error::AppError;
use wireguard_gui::helper::steps::{
    conclude, dispatch, needs_passwd, warning, Operation, Outcome, Step,
};
use wireguard_gui::helper::{
    nft_nat_ruleset, payload_source, stdin_payload, username_for_uid, PayloadSource, CLIENT_CONF_PATH,
    SERVER_CONF_PATH,
};
use wireguard_gui::net::privilege::PrivCmd;

fn s(t: &str) -> String {
    t.to_owned()
}

fn plan(cmd: PrivCmd) -> Vec<Step> {
    dispatch(cmd, 7, Ok(String::new())).unwrap()
}

fn argv(step: &Step) -> Vec<&str> {
    match step {
        Step::Run { argv }
        | Step::Check { argv, .. }
        | Step::TryRun { argv, .. }
        | Step::DeleteTable { argv } => argv.iter().map(|a| a.as_str()).collect(),
        other => panic!("no command: {other:?}"),
    }
}

fn arm() -> PrivCmd {
    PrivCmd::KillSwitchArm {
        iface: s("wg-gui0"),
        endpoint_ip: s("203.0.113.7"),
        endpoint_port: 51820,
        lan_cidrs: vec![s("10.0.0.0/8")],
        lease_secs: 30,
        netns_endpoint_udp: None,
    }
}

fn exited(stderr: &str) -> Outcome {
    Outcome::Exited { status: s("exit status: 1"), stderr: s(stderr) }
}

#[test]
fn tunnels_go_up_and_down() {
    let up = plan(PrivCmd::WgQuickUp { iface: s("wg-gui0"), conf_path: s("/tmp/x.conf") });
    assert_eq!(up.len(), 1);
    assert_eq!(argv(&up[0]), vec!["wg-quick", "up", "/tmp/x.conf"]);
    let down = plan(PrivCmd::WgQuickDown { iface: s("wg-gui0") });
    assert_eq!(argv(&down[0]), vec!["wg-quick", "down", "wg-gui0"]);
    assert_eq!(argv(&plan(PrivCmd::ServerUp)[0]), vec!["wg-quick", "up", SERVER_CONF_PATH]);
    assert_eq!(argv(&plan(PrivCmd::ServerDown)[0]), vec!["wg-quick", "down", SERVER_CONF_PATH]);
}

#[test]
fn boot_units_are_switched() {
    assert_eq!(
        argv(&plan(PrivCmd::BootEnableSystemd { iface: s("wg-gui-home") })[0]),
        vec!["systemctl", "enable", "wg-quick@wg-gui-home"]
    );
    assert_eq!(
        argv(&plan(PrivCmd::BootDisableSystemd { iface: s("wg-gui-home") })[0]),
        vec!["systemctl", "disable", "wg-quick@wg-gui-home"]
    );
}

#[test]
fn arming_checks_first_and_cleans_up() {
    let steps = plan(arm());
    assert_eq!(steps.len(), 5);
    assert!(matches!(steps[0], Step::Check { .. }));
    assert_eq!(argv(&steps[0]), vec!["ip", "link", "show", "wg-gui0"]);
    let path = match &steps[1] {
        Step::WriteText { path, text, .. } => {
            assert!(text.contains("oifname wg-gui0 accept"));
            assert!(text.contains("ip daddr 203.0.113.7 udp dport 51820 accept"));
            path.clone()
        }
        other => panic!("unexpected: {other:?}"),
    };
    assert_eq!(argv(&steps[2]), vec!["nft", "-f", path.as_str()]);
    match &steps[3] {
        Step::Cleanup { path: p, since } => {
            assert_eq!(*p, path);
            assert_eq!(*since, 1);
        }
        other => panic!("unexpected: {other:?}"),
    }
    assert!(matches!(steps[4], Step::TryRun { .. }));
    assert!(argv(&steps[4]).contains(&"30s"));
}

#[test]
fn the_rules_file_is_removed_after_a_failure() {
    let mut op = Operation::start(plan(arm()));
    for expected in 0..2usize {
        assert_eq!(op.next_step(), Some(expected));
        op.report(expected, &Outcome::Done);
    }
    assert_eq!(op.next_step(), Some(2));
    op.report(2, &exited("syntax error"));
    assert_eq!(op.next_step(), Some(3));
    op.report(3, &Outcome::Done);
    assert_eq!(op.next_step(), None);
    assert_eq!(
        op.finish().unwrap_err().to_string(),
        "[E502] IPC failed: 'nft' exited with status exit status: 1: syntax error"
    );
}

#[test]
fn an_absent_interface_is_refused() {
    let mut op = Operation::start(plan(arm()));
    op.report(0, &exited("does not exist"));
    assert_eq!(op.next_step(), None);
    match op.finish() {
        Err(AppError::IpcFailed(t)) => assert!(t.contains("wg-gui0"), "{t}"),
        other => panic!("unexpected: {other:?}"),
    }
}

#[test]
fn a_plan_without_failure_is_done() {
    let mut op = Operation::start(plan(arm()));
    while let Some(i) = op.next_step() {
        op.report(i, &Outcome::Done);
    }
    assert!(op.finish().is_ok());
}

#[test]
fn confs_are_kept_secret() {
    for (cmd, path) in [
        (PrivCmd::ClientWriteConf { conf_text: s("x") }, CLIENT_CONF_PATH),
        (PrivCmd::ServerWriteConf { conf_text: s("x") }, SERVER_CONF_PATH),
    ] {
        let steps = plan(cmd);
        assert!(matches!(&steps[0], Step::MakeDir { path, .. } if path == "/etc/wireguard"));
        match steps.last().unwrap() {
            Step::WriteSecret { path: p, text } => {
                assert_eq!(p, path);
                assert_eq!(text, "x");
            }
            other => panic!("unexpected: {other:?}"),
        }
    }
    match &plan(PrivCmd::ClientRemoveConf)[0] {
        Step::RemoveFile { path } => assert_eq!(path, CLIENT_CONF_PATH),
        other => panic!("unexpected: {other:?}"),
    }
}

#[test]
fn a_missing_table_is_as_good_as_deleted() {
    let step = &plan(PrivCmd::KillSwitchDisarm)[0];
    assert_eq!(argv(step), vec!["nft", "delete", "table", "inet", "wg_gui_killswitch"]);
    for absent in ["Error: No such file or directory", "table not found", "No such table x"] {
        assert!(conclude(step, &exited(absent)).is_ok());
    }
    assert!(conclude(step, &exited("busy")).is_err());
    assert!(matches!(conclude(step, &Outcome::Missing), Err(AppError::WgNotFound)));
    let nat = &plan(PrivCmd::NatDisable)[0];
    assert_eq!(argv(nat), vec!["nft", "delete", "table", "inet", "wg_gui_srv_nat"]);
}

#[test]
fn forwarding_for_ipv6_may_fail() {
    let steps = plan(PrivCmd::NatEnable { subnet: s("10.7.0.0/24"), egress_iface: s("eth0") });
    assert_eq!(argv(&steps[0]), vec!["sysctl", "-w", "net.ipv4.ip_forward=1"]);
    assert!(conclude(&steps[0], &exited("no")).is_err());
    assert_eq!(argv(&steps[1]), vec!["sysctl", "-w", "net.ipv6.conf.all.forwarding=1"]);
    assert!(conclude(&steps[1], &exited("no")).is_ok());
}

#[test]
fn namespaces_come_and_go() {
    let setup = plan(PrivCmd::NetnsSetup {
        ns: s("app"),
        wgif: s("wg1"),
        conf_path: s("/run/x.conf"),
        address: s("10.2.0.2/32"),
        dns: vec![s("1.1.1.1")],
    });
    assert_eq!(argv(&setup[0]), vec!["ip", "netns", "add", "app"]);
    match setup.last().unwrap() {
        Step::WriteText { path, text, netns, .. } => {
            assert_eq!(path, "/etc/netns/app/resolv.conf");
            assert_eq!(text, "nameserver 1.1.1.1\n");
            assert!(netns);
        }
        other => panic!("unexpected: {other:?}"),
    }
    let down = plan(PrivCmd::NetnsTeardown { ns: s("app") });
    assert_eq!(argv(&down[0]), vec!["ip", "netns", "del", "app"]);
    assert!(matches!(&down[1], Step::RemoveTree { path } if path == "/etc/netns/app"));
    assert!(conclude(&down[1], &Outcome::Broken(s("x"))).is_ok());
}

#[test]
fn blank_nameservers_are_passed_over() {
    let setup = plan(PrivCmd::NetnsSetup {
        ns: s("app"),
        wgif: s("wg1"),
        conf_path: s("/run/x.conf"),
        address: s("10.2.0.2/32"),
        dns: vec![s("1.1.1.1"), s(""), s(" 8.8.8.8 ")],
    });
    match setup.last().unwrap() {
        Step::WriteText { path, text, .. } => {
            assert_eq!(path, "/etc/netns/app/resolv.conf");
            assert_eq!(text, "nameserver 1.1.1.1\nnameserver 8.8.8.8\n");
        }
        other => panic!("unexpected: {other:?}"),
    }
    let bare = plan(PrivCmd::NetnsSetup {
        ns: s("app"),
        wgif: s("wg1"),
        conf_path: s("/run/x.conf"),
        address: s("10.2.0.2/32"),
        dns: vec![],
    });
    assert!(bare.iter().all(|step| matches!(step, Step::Run { .. })));
}

#[test]
fn the_nat_table_is_deleted_before_it_is_built() {
    let steps = plan(PrivCmd::NatEnable { subnet: s("10.7.0.0/24"), egress_iface: s("eth0") });
    assert_eq!(steps.len(), 5);
    let text = match &steps[2] {
        Step::WriteText { text, .. } => text.clone(),
        other => panic!("unexpected: {other:?}"),
    };
    assert_eq!(
        text,
        format!(
            "add table inet wg_gui_srv_nat\ndelete table inet wg_gui_srv_nat\n{}",
            nft_nat_ruleset("10.7.0.0/24", "eth0")
        )
    );
    assert_eq!(text.matches("masquerade").count(), 1);
}

#[test]
fn failures_that_end_nothing_are_warned_of() {
    let armed = plan(arm());
    assert_eq!(
        warning(&armed[4], &exited("no bus\n")).unwrap(),
        "helper: WARNING — dead-man timer could not be armed ([E502] IPC failed: \
         'systemd-run' exited with status exit status: 1: no bus). \
         Kill-switch is active but will NOT auto-expire if the GUI is killed."
    );
    assert_eq!(
        warning(&armed[4], &Outcome::Missing).unwrap(),
        "helper: WARNING — dead-man timer could not be armed ([E202] wireguard tooling not \
         found on PATH). Kill-switch is active but will NOT auto-expire if the GUI is killed."
    );
    assert_eq!(warning(&armed[4], &Outcome::Done), None);
    assert_eq!(warning(&armed[2], &exited("no")), None);
    let nat = plan(PrivCmd::NatEnable { subnet: s("10.7.0.0/24"), egress_iface: s("eth0") });
    assert_eq!(
        warning(&nat[1], &Outcome::Broken(s("denied"))).unwrap(),
        "helper: WARNING — IPv6 forwarding sysctl failed ([E502] IPC failed: spawn 'sysctl': \
         denied); continuing (IPv4-only NAT will work)"
    );
    let down = plan(PrivCmd::NetnsTeardown { ns: s("app") });
    assert_eq!(
        warning(&down[1], &Outcome::Broken(s("busy"))).unwrap(),
        "helper: WARNING — could not remove /etc/netns/app: busy"
    );
    assert_eq!(warning(&down[1], &Outcome::Missing), None);
}

#[test]
fn programs_run_as_the_user() {
    let launch = PrivCmd::NetnsLaunch {
        ns: s("app"),
        uid: 1000,
        exe: s("/usr/bin/firefox"),
        args: vec![s("-P")],
        env: vec![(s("DISPLAY"), s(":0"))],
    };
    assert!(needs_passwd(&launch));
    assert!(!needs_passwd(&PrivCmd::ServerUp));
    let passwd = s("root:x:0:0::/root:/bin/sh\nana:x:1000:1000::/home/ana:/bin/sh\n");
    let steps = dispatch(launch.clone(), 7, Ok(passwd)).unwrap();
    assert_eq!(
        argv(&steps[0]),
        vec![
            "ip", "netns", "exec", "app", "runuser", "-u", "ana", "--", "env", "DISPLAY=:0",
            "/usr/bin/firefox", "-P"
        ]
    );
    assert!(matches!(
        dispatch(launch.clone(), 7, Ok(s("root:x:0:0::/root:/bin/sh\n"))),
        Err(AppError::NetnsFailed(_))
    ));
    match dispatch(launch, 7, Err(s("denied"))) {
        Err(AppError::NetnsFailed(t)) => assert_eq!(t, "cannot read /etc/passwd: denied"),
        other => panic!("unexpected: {other:?}"),
    }
}

#[test]
fn programs_never_run_as_root() {
    let launch = PrivCmd::NetnsLaunch {
        ns: s("app"),
        uid: 0,
        exe: s("/usr/bin/firefox"),
        args: vec![],
        env: vec![],
    };
    match dispatch(launch, 7, Ok(s("root:x:0:0::/root:/bin/sh\n"))) {
        Err(AppError::NetnsFailed(t)) => assert_eq!(
            t,
            "netns launch refused: uid 0 (root) is not allowed for application launch"
        ),
        other => panic!("unexpected: {other:?}"),
    }
}

#[test]
fn users_are_found_by_number() {
    let passwd = "bad:x:10\nana:x:1000:1000::/h:/s\nben:x:1000:1000::/h:/s\n";
    assert_eq!(username_for_uid(passwd, 1000).unwrap(), "ana");
    assert_eq!(
        username_for_uid(passwd, 10).unwrap_err().to_string(),
        "[E902] network namespace operation failed: uid 10 not found in /etc/passwd — refusing \
         to launch (safety guard: never launch as root uid 0)"
    );
}

#[test]
fn outcomes_of_files() {
    let dir = Step::MakeDir { path: s("/etc/x"), netns: true };
    assert_eq!(
        conclude(&dir, &Outcome::Broken(s("ro"))).unwrap_err().to_string(),
        "[E902] network namespace operation failed: cannot create /etc/x: ro"
    );
    let plain = Step::MakeDir { path: s("/etc/x"), netns: false };
    assert_eq!(
        conclude(&plain, &Outcome::Broken(s("ro"))).unwrap_err().to_string(),
        "[E502] IPC failed: cannot create dir /etc/x: ro"
    );
    let secret = Step::WriteSecret { path: s("/etc/x"), text: s("k") };
    assert_eq!(
        conclude(&secret, &Outcome::Unopened(s("no"))).unwrap_err().to_string(),
        "[E502] IPC failed: cannot open /etc/x: no"
    );
    assert_eq!(
        conclude(&secret, &Outcome::Broken(s("full"))).unwrap_err().to_string(),
        "[E502] IPC failed: cannot write /etc/x: full"
    );
    let file = Step::RemoveFile { path: s("/etc/x") };
    assert!(conclude(&file, &Outcome::Missing).is_ok());
    assert_eq!(
        conclude(&file, &Outcome::Broken(s("busy"))).unwrap_err().to_string(),
        "[E502] IPC failed: cannot remove /etc/x: busy"
    );
    let run = Step::Run { argv: vec![s("wg")] };
    assert_eq!(
        conclude(&run, &Outcome::Broken(s("no fork"))).unwrap_err().to_string(),
        "[E502] IPC failed: spawn 'wg': no fork"
    );
}

#[test]
fn payloads_are_found() {
    assert_eq!(payload_source(&vec![]).unwrap(), PayloadSource::Stdin);
    assert_eq!(payload_source(&vec![s("-")]).unwrap(), PayloadSource::Stdin);
    assert_eq!(payload_source(&vec![s("--stdin")]).unwrap(), PayloadSource::Stdin);
    assert_eq!(
        payload_source(&vec![s("--json"), s("{}")]).unwrap(),
        PayloadSource::Given(s("{}"))
    );
    assert_eq!(
        payload_source(&vec![s("--json")]).unwrap_err().to_string(),
        "[E502] IPC failed: --json requires a payload argument"
    );
    assert_eq!(
        payload_source(&vec![s("-x")]).unwrap_err().to_string(),
        "[E502] IPC failed: unexpected argument: -x (expected --json <payload> or --stdin)"
    );
    assert_eq!(stdin_payload(" {}\n").unwrap(), "{}");
    assert_eq!(
        stdin_payload(" \n").unwrap_err().to_string(),
        "[E502] IPC failed: no payload: pass --json <payload> or pipe JSON on stdin"
    );
}
