//! What is made of the outcomes of outside work.

use std::path::PathBuf;
use wireguard_gui::autostart::{AutostartManager, EntryWrite};
use wireguard_gui::error::AppError;
use wireguard_gui::net::boot::{boot_command, nmcli_result, BootAction, BootCommand};
use wireguard_gui::net::privilege::{
    helper_argv_with, helper_path, run_privileged, PrivCmd, RunOutcome, HELPER_PATH,
};
use wireguard_gui::persist::{FileRead, FileWrite};
use wireguard_gui::public_ip::parse_ipify;
use wireguard_gui::server::ServerConfig;
use wireguard_gui::settings::{AppSettings, ThemePreference};
use wireguard_gui::single_instance::{
    listen_step, send_raise, try_become_primary, AcceptOutcome, BindOutcome, ListenStep, Role,
    RAISE_BYTE, SOCKET_NAME,
};
use wireguard_gui::stats::{no_parent, UsageStore};

fn s(t: &str) -> String {
    t.to_owned()
}

fn ended(success: bool, code: Option<i32>, status: &str, stdout: &str, stderr: &str) -> RunOutcome {
    RunOutcome::Ended { success, code, status: s(status), stdout: s(stdout), stderr: s(stderr) }
}

#[test]
fn every_error_has_its_code() {
    let all: Vec<(AppError, &str)> = vec![
        (AppError::InvalidProfileName(s("a")), "[E101] invalid profile name: a"),
        (AppError::ProfileNotFound(s("a")), "[E102] profile not found: a"),
        (AppError::ProfileExists(s("a")), "[E103] profile already exists: a"),
        (
            AppError::ProfileParseError { name: s("a"), detail: s("b") },
            "[E104] failed to parse profile 'a': b",
        ),
        (
            AppError::ValidationError { field: s("a"), detail: s("b") },
            "[E105] validation error on field 'a': b",
        ),
        (AppError::ProfileIo(s("a")), "[E106] profile I/O error: a"),
        (AppError::WgQuickFailed(s("a")), "[E201] wg-quick failed: a"),
        (AppError::WgNotFound, "[E202] wireguard tooling not found on PATH"),
        (AppError::PermissionDenied, "[E203] permission denied (root/privilege required)"),
        (AppError::TunnelAlreadyActive(s("a")), "[E204] tunnel already active: a"),
        (AppError::NoActiveTunnel, "[E205] no active tunnel"),
        (AppError::WgShowParseFailed(s("a")), "[E206] failed to parse `wg show` output: a"),
        (AppError::TunnelTimeout, "[E207] tunnel operation timed out"),
        (AppError::KeygenFailed(s("a")), "[E301] key generation failed: a"),
        (AppError::AutostartWriteFailed(s("a")), "[E401] failed to write autostart entry: a"),
        (AppError::AlreadyRunning, "[E501] another instance is already running"),
        (AppError::IpcFailed(s("a")), "[E502] IPC failed: a"),
        (AppError::SettingsLoadFailed(s("a")), "[E601] failed to load settings: a"),
        (AppError::SettingsSaveFailed(s("a")), "[E602] failed to save settings: a"),
        (AppError::PublicIpFetchFailed(s("a")), "[E701] failed to fetch public IP: a"),
        (AppError::ImportFailed(s("a")), "[E801] import failed: a"),
        (AppError::ExportFailed(s("a")), "[E802] export failed: a"),
        (AppError::AllowedIpsError(s("a")), "[E901] AllowedIPs error: a"),
        (AppError::NetnsFailed(s("a")), "[E902] network namespace operation failed: a"),
    ];
    for (e, text) in all {
        assert_eq!(e.to_string(), text);
    }
}

#[test]
fn privileged_runs_are_judged() {
    assert!(run_privileged(&ended(true, Some(0), "exit status: 0", "", "")).is_ok());
    assert!(matches!(run_privileged(&RunOutcome::NotFound), Err(AppError::WgNotFound)));
    assert_eq!(
        run_privileged(&RunOutcome::NotStarted(s("no fork"))).unwrap_err().to_string(),
        "[E502] IPC failed: pkexec spawn error: no fork"
    );
    for code in [126, 127] {
        let o = ended(false, Some(code), "exit status", "", "");
        assert!(matches!(run_privileged(&o), Err(AppError::PermissionDenied)));
    }
    assert_eq!(
        run_privileged(&ended(false, Some(1), "exit status: 1", " out\n", "\terr "))
            .unwrap_err()
            .to_string(),
        "[E502] IPC failed: helper failed (exit status: 1): err out"
    );
    assert!(matches!(
        run_privileged(&ended(false, None, "signal: 9", "", "")),
        Err(AppError::IpcFailed(_))
    ));
}

#[test]
fn the_helper_can_be_overridden() {
    assert_eq!(helper_path(None), HELPER_PATH);
    assert_eq!(helper_path(Some(String::new())), HELPER_PATH);
    assert_eq!(helper_path(Some(s("/x/helper"))), "/x/helper");
    assert_eq!(
        helper_argv_with("/x/helper", "{}"),
        vec!["pkexec", "/x/helper", "--json", "{}"]
    );
}

#[test]
fn boot_goes_through_what_there_is() {
    match boot_command("home", BootAction::Enable, true) {
        BootCommand::Nmcli(argv) => assert_eq!(
            argv,
            vec!["nmcli", "connection", "modify", "wg-gui-home", "connection.autoconnect", "yes"]
        ),
        other => panic!("unexpected: {other:?}"),
    }
    match boot_command("home", BootAction::Disable, false) {
        BootCommand::Privileged(PrivCmd::BootDisableSystemd { iface }) => {
            assert_eq!(iface, "wg-gui-home")
        }
        other => panic!("unexpected: {other:?}"),
    }
}

#[test]
fn nmcli_runs_are_judged() {
    assert!(nmcli_result(&ended(true, Some(0), "exit status: 0", "", "")).is_ok());
    assert!(matches!(nmcli_result(&RunOutcome::NotFound), Err(AppError::WgNotFound)));
    assert_eq!(
        nmcli_result(&RunOutcome::NotStarted(s("no fork"))).unwrap_err().to_string(),
        "[E201] wg-quick failed: nmcli spawn error: no fork"
    );
    assert_eq!(
        nmcli_result(&ended(false, Some(10), "exit status: 10", "x", " unknown \n"))
            .unwrap_err()
            .to_string(),
        "[E201] wg-quick failed: nmcli autoconnect failed (exit status: 10): unknown"
    );
}

#[test]
fn the_autostart_entry_has_its_place() {
    let m = AutostartManager::new(Some(PathBuf::from("/home/u"))).unwrap();
    assert_eq!(
        m.desktop_path,
        PathBuf::from("/home/u/.config/autostart/wireguard-gui-rust.desktop")
    );
    assert_eq!(
        AutostartManager::new(None).unwrap_err().to_string(),
        "[E401] failed to write autostart entry: cannot determine home directory"
    );
}

#[test]
fn autostart_results() {
    let m = AutostartManager::new(Some(PathBuf::from("/h"))).unwrap();
    assert!(m.enable(EntryWrite::Written).is_ok());
    assert_eq!(
        m.enable(EntryWrite::NoProgram(s("e"))).unwrap_err().to_string(),
        "[E401] failed to write autostart entry: cannot resolve current_exe: e"
    );
    assert_eq!(
        m.enable(EntryWrite::NoDirectory(s("e"))).unwrap_err().to_string(),
        "[E401] failed to write autostart entry: cannot create autostart directory \
         /h/.config/autostart: e"
    );
    let entry = "/h/.config/autostart/wireguard-gui-rust.desktop";
    assert_eq!(
        m.enable(EntryWrite::Unwritten(s("e"))).unwrap_err().to_string(),
        format!("[E401] failed to write autostart entry: cannot write {entry}: e")
    );
    assert!(m.disable(true, Ok(())).is_ok());
    assert!(m.disable(false, Err(s("gone"))).is_ok());
    assert_eq!(
        m.disable(true, Err(s("busy"))).unwrap_err().to_string(),
        format!("[E401] failed to write autostart entry: cannot remove {entry}: busy")
    );
}

#[test]
fn settings_load() {
    let none = AppSettings::load(FileRead::Missing).unwrap();
    assert!(none.auto_reconnect && none.close_to_tray && !none.kill_switch && !none.autostart);
    let mut own = AppSettings::default();
    own.theme = ThemePreference::Named(s("Gruvbox"));
    own.auto_reconnect = false;
    let found = AppSettings::load(FileRead::Found(own.duplicate())).unwrap();
    assert_eq!(found.theme, ThemePreference::Named(s("Gruvbox")));
    assert!(!found.auto_reconnect);
    assert_eq!(
        AppSettings::load(FileRead::NoPlace).unwrap_err().to_string(),
        "[E601] failed to load settings: cannot determine config directory"
    );
    assert_eq!(
        AppSettings::load(FileRead::Unreadable { path: s("/p"), error: s("e") })
            .unwrap_err()
            .to_string(),
        "[E601] failed to load settings: /p: e"
    );
    assert_eq!(
        AppSettings::load(FileRead::Malformed { path: s("/p"), error: s("f") })
            .unwrap_err()
            .to_string(),
        "[E601] failed to load settings: /p: f"
    );
}

#[test]
fn settings_save() {
    assert!(AppSettings::save(FileWrite::Written).is_ok());
    let all = vec![
        (FileWrite::NoPlace, "cannot determine config directory"),
        (FileWrite::NoDirectory { dir: s("/d"), error: s("e") }, "create dir /d: e"),
        (FileWrite::Unserialized { error: s("e") }, "serialize: e"),
        (FileWrite::Unwritten { path: s("/p"), error: s("e") }, "/p: e"),
        (FileWrite::Unprotected { path: s("/p"), error: s("e") }, "chmod /p: e"),
        (
            FileWrite::Unrenamed { from: s("/t"), to: s("/p"), error: s("e") },
            "rename to /p: e",
        ),
    ];
    for (write, text) in all {
        let expected = format!("[E602] failed to save settings: {text}");
        assert_eq!(AppSettings::save(write.clone()).unwrap_err().to_string(), expected);
        assert_eq!(UsageStore::save(write).unwrap_err().to_string(), expected);
    }
    assert_eq!(
        no_parent("/").to_string(),
        "[E602] failed to save settings: no parent directory for /"
    );
}

#[test]
fn usage_load() {
    assert!(UsageStore::load(FileRead::Missing).unwrap().usage.is_empty());
    let mut store = UsageStore::default();
    store.record("home", 1, 2);
    let found = UsageStore::load(FileRead::Found(store)).unwrap();
    assert_eq!(found.last_seen.get("home"), Some(&(1, 2)));
    assert_eq!(
        UsageStore::load(FileRead::Malformed { path: s("/p"), error: s("e") })
            .unwrap_err()
            .to_string(),
        "[E601] failed to load settings: /p: e"
    );
    assert!(UsageStore::save(FileWrite::Written).is_ok());
}

#[test]
fn server_load_and_save() {
    assert!(ServerConfig::load(FileRead::Missing).unwrap().is_none());
    let config = ServerConfig::default();
    let copy = config.duplicate();
    assert_eq!(ServerConfig::load(FileRead::Found(config)).unwrap(), Some(copy));
    assert_eq!(
        ServerConfig::load(FileRead::NoPlace).unwrap_err().to_string(),
        "[E106] profile I/O error: cannot determine config directory"
    );
    assert_eq!(
        ServerConfig::load(FileRead::Unreadable { path: s("/p"), error: s("e") })
            .unwrap_err()
            .to_string(),
        "[E106] profile I/O error: failed to read /p: e"
    );
    assert_eq!(
        ServerConfig::load(FileRead::Malformed { path: s("/p"), error: s("e") })
            .unwrap_err()
            .to_string(),
        "[E106] profile I/O error: failed to parse server.json at /p: e"
    );
    assert!(ServerConfig::save(FileWrite::Written).is_ok());
    let all = vec![
        (FileWrite::NoPlace, "cannot determine config directory"),
        (
            FileWrite::NoDirectory { dir: s("/d"), error: s("e") },
            "failed to create config dir /d: e",
        ),
        (FileWrite::Unserialized { error: s("e") }, "failed to serialize server config: e"),
        (FileWrite::Unwritten { path: s("/p"), error: s("e") }, "failed to write /p: e"),
        (
            FileWrite::Unprotected { path: s("/p"), error: s("e") },
            "failed to set permissions on server.json: e",
        ),
        (
            FileWrite::Unrenamed { from: s("/t"), to: s("/p"), error: s("e") },
            "failed to rename /t → /p: e",
        ),
    ];
    for (write, text) in all {
        assert_eq!(
            ServerConfig::save(write).unwrap_err().to_string(),
            format!("[E106] profile I/O error: {text}")
        );
    }
}

#[test]
fn ipify_answers() {
    assert_eq!(parse_ipify(Ok(s(" 203.0.113.9\n"))).unwrap(), "203.0.113.9");
    assert_eq!(
        parse_ipify(Ok(s(" \n"))).unwrap_err().to_string(),
        "[E701] failed to fetch public IP: ipify returned an empty body"
    );
    assert_eq!(
        parse_ipify(Err(s("timeout"))).unwrap_err().to_string(),
        "[E701] failed to fetch public IP: timeout"
    );
}

#[test]
fn one_instance_is_the_first() {
    assert_eq!(try_become_primary(BindOutcome::Bound).unwrap(), Role::Primary);
    assert_eq!(
        try_become_primary(BindOutcome::InUse { asked: Ok(()) }).unwrap(),
        Role::Secondary
    );
    assert_eq!(
        try_become_primary(BindOutcome::InUse { asked: Err(s("refused")) })
            .unwrap_err()
            .to_string(),
        "[E502] IPC failed: refused"
    );
    assert_eq!(
        try_become_primary(BindOutcome::Failed(s("denied"))).unwrap_err().to_string(),
        "[E502] IPC failed: denied"
    );
    assert!(send_raise(Ok(())).is_ok());
    assert!(matches!(send_raise(Err(s("x"))), Err(AppError::IpcFailed(_))));
}

#[test]
fn the_socket_is_named() {
    assert_eq!(&SOCKET_NAME[..], b"\0wireguard-gui-rust-v1");
    assert_eq!(RAISE_BYTE, b'R');
}

#[test]
fn the_listener_forwards_naps_and_stops() {
    assert_eq!(listen_step(AcceptOutcome::Connected), ListenStep::Forward);
    assert_eq!(listen_step(AcceptOutcome::WouldBlock), ListenStep::Nap);
    assert_eq!(listen_step(AcceptOutcome::Failed), ListenStep::Stop);
}
