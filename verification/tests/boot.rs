//! Connecting on boot.

use wireguard_gui::net::boot::{nm_autoconnect_argv, systemd_boot_cmd, BootAction};
use wireguard_gui::net::privilege::PrivCmd;

#[test]
fn nm_autoconnect_enable_golden() {
    let argv = nm_autoconnect_argv("home", BootAction::Enable);
    assert_eq!(
        argv,
        vec![
            "nmcli",
            "connection",
            "modify",
            "wg-gui-home",
            "connection.autoconnect",
            "yes",
        ],
        "argv = {argv:?}",
    );
}

#[test]
fn nm_autoconnect_disable_golden() {
    let argv = nm_autoconnect_argv("home", BootAction::Disable);
    assert_eq!(
        argv,
        vec![
            "nmcli",
            "connection",
            "modify",
            "wg-gui-home",
            "connection.autoconnect",
            "no",
        ],
        "argv = {argv:?}",
    );
}

#[test]
fn nm_autoconnect_hyphenated_profile_name() {
    let argv = nm_autoconnect_argv("work-vpn", BootAction::Enable);
    assert_eq!(argv[3], "wg-gui-work-vpn");
    assert_eq!(argv[5], "yes");
}

#[test]
fn nm_autoconnect_profile_name_with_spaces_is_single_arg() {
    let argv = nm_autoconnect_argv("my tunnel", BootAction::Enable);
    assert_eq!(argv[3], "wg-gui-my tunnel",
        "spaces must stay in one arg; argv = {argv:?}");
    assert_eq!(argv.len(), 6);
}

#[test]
fn nm_autoconnect_empty_profile_name() {
    let argv = nm_autoconnect_argv("", BootAction::Disable);
    assert_eq!(argv[3], "wg-gui-");
    assert_eq!(argv[5], "no");
    assert_eq!(argv.len(), 6);
}

#[test]
fn nm_autoconnect_argv_length_and_program() {
    for action in [BootAction::Enable, BootAction::Disable] {
        let argv = nm_autoconnect_argv("test", action);
        assert_eq!(argv.len(), 6, "action={action:?} argv={argv:?}");
        assert_eq!(argv[0], "nmcli");
        assert_eq!(argv[1], "connection");
        assert_eq!(argv[2], "modify");
        assert_eq!(argv[4], "connection.autoconnect");
    }
}

#[test]
fn nm_autoconnect_enable_vs_disable_only_last_differs() {
    let en = nm_autoconnect_argv("test", BootAction::Enable);
    let dis = nm_autoconnect_argv("test", BootAction::Disable);
    assert_eq!(en[..5], dis[..5], "first five elements must be identical");
    assert_ne!(en[5], dis[5]);
    assert_eq!(en[5], "yes");
    assert_eq!(dis[5], "no");
}

#[test]
fn systemd_boot_cmd_enable_variant() {
    let cmd = systemd_boot_cmd("wg-gui-home", BootAction::Enable);
    assert_eq!(
        cmd,
        PrivCmd::BootEnableSystemd { iface: "wg-gui-home".to_string() },
    );
}

#[test]
fn systemd_boot_cmd_disable_variant() {
    let cmd = systemd_boot_cmd("wg-gui-home", BootAction::Disable);
    assert_eq!(
        cmd,
        PrivCmd::BootDisableSystemd { iface: "wg-gui-home".to_string() },
    );
}

#[test]
fn systemd_boot_cmd_iface_passed_through_verbatim() {
    let iface = "wg-gui-my-special-tunnel";
    let en = systemd_boot_cmd(iface, BootAction::Enable);
    let dis = systemd_boot_cmd(iface, BootAction::Disable);
    if let PrivCmd::BootEnableSystemd { iface: i } = en {
        assert_eq!(i, iface);
    } else {
        panic!("expected BootEnableSystemd");
    }
    if let PrivCmd::BootDisableSystemd { iface: i } = dis {
        assert_eq!(i, iface);
    } else {
        panic!("expected BootDisableSystemd");
    }
}

#[test]
fn nm_argv_program_is_not_pkexec() {
    let argv = nm_autoconnect_argv("home", BootAction::Enable);
    assert_ne!(argv[0], "pkexec",
        "NM path must NOT go through pkexec; it uses NM's own polkit agent");
    assert_eq!(argv[0], "nmcli");
}
