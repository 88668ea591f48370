//! The protocol with the helper.

use wireguard_gui::net::privilege::{helper_argv, helper_argv_with, helper_path, HELPER_PATH};

#[test]
fn helper_argv_golden_shape() {
    let argv = helper_argv(r#"{"cmd":"KillSwitchDisarm"}"#);
    assert_eq!(argv.len(), 4);
    assert_eq!(argv[0], "pkexec");
    assert_eq!(argv[1], HELPER_PATH);
    assert_eq!(argv[2], "--json");
    assert_eq!(argv[3], r#"{"cmd":"KillSwitchDisarm"}"#);
}

#[test]
fn helper_argv_payload_is_single_arg() {
    let payload = r#"{"cmd":"WgQuickUp","iface":"wg gui","conf_path":"/tmp/a b.conf"}"#;
    let argv = helper_argv(payload);
    assert_eq!(argv[3], payload);
}

#[test]
fn helper_argv_honours_env_override_in_debug() {
    let helper = helper_path(Some("/home/dev/target/debug/wireguard-gui-helper".to_string()));
    let argv = helper_argv_with(&helper, "{}");
    assert_eq!(argv[1], "/home/dev/target/debug/wireguard-gui-helper");
}
