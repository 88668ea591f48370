//! How the program reacts to what happens.

use std::path::PathBuf;
use wireguard_gui::app::state::{Effect, Message, Moment, State};
use wireguard_gui::app::{BannerKind, EditorField, Screen, SortOrder, TunnelStatus};
use wireguard_gui::config::profile::{InterfaceSection, PeerSection, WgProfile};
use wireguard_gui::config::store::ProfileStore;
use wireguard_gui::error::AppError;
use wireguard_gui::net::boot::BootAction;
use wireguard_gui::net::privilege::PrivCmd;
use wireguard_gui::server::{ServerConfig, ServerPeer};
use wireguard_gui::settings::{AppSettings, ThemePreference};
use wireguard_gui::stats::UsageStore;
use wireguard_gui::tray::TrayCmd;
use wireguard_gui::wg::status::{LiveStatus, PeerStatus};

const NOW: u64 = 1_710_000_000;
const ZERO_KEY: &str = "AAAAAAAAAAAAAAAAAAAAAAAAAAAAAAAAAAAAAAAAAAA=";

fn s(t: &str) -> String {
    t.to_owned()
}

fn at() -> Moment {
    Moment { now: NOW, next_window: 9 }
}

fn profile(name: &str) -> WgProfile {
    WgProfile {
        name: s(name),
        interface: InterfaceSection {
            private_key: s(ZERO_KEY),
            address: vec![s("10.0.0.2/32")],
            ..Default::default()
        },
        peers: vec![PeerSection {
            public_key: s(ZERO_KEY),
            endpoint: Some(s("203.0.113.7:51820")),
            allowed_ips: vec![s("0.0.0.0/0")],
            ..Default::default()
        }],
        path: None,
    }
}

fn fresh() -> State {
    State::new(ProfileStore { dir: PathBuf::from("/profiles") }).0
}

fn with_profiles(names: &[&str]) -> State {
    let mut state = fresh();
    let all = names.iter().map(|n| profile(n)).collect();
    state.update(Message::ProfilesLoaded(Ok(all)), at());
    state
}

fn connected() -> State {
    let mut state = with_profiles(&["home", "work"]);
    state.update(Message::ConnectProfile(s("home")), at());
    state.update(Message::ConnectResult(Ok(())), at());
    state
}

fn live(handshake: Option<u64>) -> LiveStatus {
    LiveStatus {
        interface: s("wg-gui0"),
        public_key: s("pub"),
        peers: vec![
            PeerStatus {
                public_key: s("a"),
                endpoint: None,
                last_handshake: handshake,
                rx_bytes: 100,
                tx_bytes: 20,
            },
            PeerStatus {
                public_key: s("b"),
                endpoint: None,
                last_handshake: None,
                rx_bytes: 11,
                tx_bytes: 3,
            },
        ],
        fetched_at: NOW,
    }
}

fn banner(state: &State) -> (BannerKind, &str) {
    let b = state.banner.as_ref().expect("a banner");
    (b.kind, b.message.as_str())
}

fn server() -> ServerConfig {
    ServerConfig {
        address: s("10.7.0.1/24"),
        subnet: s("10.7.0.0/24"),
        egress_iface: Some(s("eth0")),
        ..Default::default()
    }
}

fn brings_up(effects: &[Effect]) -> bool {
    effects
        .iter()
        .any(|e| matches!(e, Effect::Connect(_) | Effect::ReconnectAfter { .. }))
}

#[test]
fn the_start_loads_everything() {
    let (state, effects) = State::new(ProfileStore { dir: PathBuf::from("/profiles") });
    assert_eq!(state.tunnel_status, TunnelStatus::Disconnected);
    assert_eq!(state.screen, Screen::ProfileList);
    assert!(state.auto_reconnect && state.notifications_enabled && !state.start_hidden());
    assert_eq!(state.title(), "WireGuard");
    assert_eq!(effects.len(), 3);
    assert!(matches!(effects[0], Effect::LoadProfiles));
    assert!(matches!(effects[1], Effect::LoadSettings));
    assert!(matches!(effects[2], Effect::LoadUsage));
}

#[test]
fn loaded_profiles_are_sorted_and_told_to_the_tray() {
    let mut state = fresh();
    let effects = state.update(
        Message::ProfilesLoaded(Ok(vec![profile("work"), profile("home")])),
        at(),
    );
    assert_eq!(state.profiles[0].name, "home");
    match &effects[..] {
        [Effect::TellTray(TrayCmd::SetProfiles(names))] => assert_eq!(names, &["home", "work"]),
        other => panic!("unexpected: {other:?}"),
    }
    state.update(Message::SortChanged(SortOrder::NameDesc), at());
    assert_eq!(state.profiles[0].name, "work");
    let effects = state.update(Message::ProfilesLoaded(Err(AppError::WgNotFound)), at());
    assert!(effects.is_empty());
    assert_eq!(
        banner(&state),
        (
            BannerKind::Error,
            "Failed to load profiles: [E202] wireguard tooling not found on PATH"
        )
    );
}

#[test]
fn connecting_and_coming_up() {
    let mut state = with_profiles(&["home", "work"]);
    let effects = state.update(Message::ConnectProfile(s("home")), at());
    assert!(matches!(&effects[..], [Effect::Connect(p)] if p.name == "home"));
    assert_eq!(state.tunnel_status, TunnelStatus::Connecting(s("home")));
    assert_eq!(state.title(), "WireGuard — connecting home…");
    let effects = state.update(Message::ConnectResult(Ok(())), at());
    assert_eq!(state.tunnel_status, TunnelStatus::Connected(s("home")));
    assert_eq!(state.title(), "WireGuard — home (connected)");
    assert_eq!(state.connected_since, Some(NOW));
    assert!(state.public_ip_loading);
    assert_eq!(banner(&state), (BannerKind::Success, "Connected to home"));
    assert_eq!(effects.len(), 5);
    assert!(matches!(effects[0], Effect::UpdateTrayIcon(true)));
    assert!(
        matches!(&effects[1], Effect::TellTray(TrayCmd::SetConnected(Some(n))) if n == "home")
    );
    match &effects[2] {
        Effect::Notify { summary, body } => {
            assert_eq!(summary, "WireGuard connected");
            assert_eq!(body, "Connected to home");
        }
        other => panic!("unexpected: {other:?}"),
    }
    assert!(matches!(&effects[3], Effect::FetchStatus(Some(i)) if i == "wg-gui0"));
    assert!(matches!(effects[4], Effect::FetchPublicIp));
}

#[test]
fn an_unknown_profile_is_not_connected() {
    let mut state = with_profiles(&["home"]);
    let effects = state.update(Message::ConnectProfile(s("ghost")), at());
    assert!(effects.is_empty());
    assert_eq!(state.tunnel_status, TunnelStatus::Disconnected);
    assert_eq!(banner(&state), (BannerKind::Error, "Profile 'ghost' not found"));
}

#[test]
fn a_failed_connection_is_reported() {
    let mut state = with_profiles(&["home"]);
    state.update(Message::ConnectProfile(s("home")), at());
    let effects = state.update(Message::ConnectResult(Err(AppError::PermissionDenied)), at());
    let text = "[E203] permission denied (root/privilege required)";
    assert_eq!(state.tunnel_status, TunnelStatus::Error(s(text)));
    assert_eq!(state.title(), "WireGuard — error");
    assert_eq!(
        banner(&state),
        (BannerKind::Error, format!("Connect failed: {text}").as_str())
    );
    assert!(matches!(effects[0], Effect::UpdateTrayIcon(false)));
    assert!(matches!(effects[1], Effect::FetchStatus(None)));
}

#[test]
fn the_kill_switch_lets_the_endpoint_through() {
    let mut state = with_profiles(&["home"]);
    state.settings.kill_switch = true;
    state.settings.destination_split = vec![s("192.168.0.0/16")];
    state.notifications_enabled = false;
    state.update(Message::ConnectProfile(s("home")), at());
    let effects = state.update(Message::ConnectResult(Ok(())), at());
    match &effects[2] {
        Effect::KillSwitch {
            armed: true,
            cmd:
                PrivCmd::KillSwitchArm {
                    iface,
                    endpoint_ip,
                    endpoint_port,
                    lan_cidrs,
                    lease_secs,
                    netns_endpoint_udp,
                },
        } => {
            assert_eq!(iface, "wg-gui0");
            assert_eq!(endpoint_ip, "203.0.113.7");
            assert_eq!(*endpoint_port, 51820);
            assert_eq!(lan_cidrs, &["192.168.0.0/16"]);
            assert_eq!(*lease_secs, 3600);
            assert!(netns_endpoint_udp.is_none());
        }
        other => panic!("unexpected: {other:?}"),
    }
}

#[test]
fn without_an_endpoint_the_kill_switch_is_not_armed() {
    let mut state = with_profiles(&["home"]);
    state.profiles[0].peers[0].endpoint = None;
    state.settings.kill_switch = true;
    state.update(Message::ConnectProfile(s("home")), at());
    let effects = state.update(Message::ConnectResult(Ok(())), at());
    assert!(!effects.iter().any(|e| matches!(e, Effect::KillSwitch { .. })));
    assert_eq!(
        banner(&state),
        (
            BannerKind::Warning,
            "Kill switch enabled but the profile has no peer endpoint to allow through — not \
             armed (would lock you out)."
        )
    );
}

#[test]
fn turning_the_kill_switch_on_and_off() {
    let mut state = connected();
    let effects = state.update(Message::SettingKillSwitchToggled(true), at());
    assert!(matches!(effects[0], Effect::KillSwitch { armed: true, .. }));
    assert!(matches!(effects[1], Effect::SaveSettings));
    let effects = state.update(Message::SettingKillSwitchToggled(false), at());
    assert!(matches!(
        effects[0],
        Effect::KillSwitch { armed: false, cmd: PrivCmd::KillSwitchDisarm }
    ));
    let mut idle = with_profiles(&["home"]);
    let effects = idle.update(Message::SettingKillSwitchToggled(true), at());
    assert!(matches!(&effects[..], [Effect::SaveSettings]));
}

#[test]
fn kill_switch_results() {
    for (armed, ok, expected) in [
        (true, true, (BannerKind::Success, "Kill switch armed")),
        (false, true, (BannerKind::Info, "Kill switch disarmed")),
        (
            true,
            false,
            (BannerKind::Error, "Kill switch arm failed: [E205] no active tunnel"),
        ),
        (
            false,
            false,
            (BannerKind::Error, "Kill switch disarm failed: [E205] no active tunnel"),
        ),
    ] {
        let mut state = fresh();
        let result = if ok { Ok(()) } else { Err(AppError::NoActiveTunnel) };
        assert!(state.update(Message::KillSwitchResult { armed, result }, at()).is_empty());
        assert_eq!(banner(&state), expected);
    }
}

#[test]
fn disconnecting_and_going_down() {
    let mut state = connected();
    state.settings.kill_switch = true;
    let effects = state.update(Message::DisconnectCurrent, at());
    assert!(matches!(&effects[..], [Effect::Disconnect(i)] if i == "wg-gui0"));
    assert_eq!(state.tunnel_status, TunnelStatus::Disconnecting);
    assert!(state.intentional_down);
    let effects = state.update(Message::DisconnectResult(Ok(())), at());
    assert_eq!(state.tunnel_status, TunnelStatus::Disconnected);
    assert_eq!(state.connected_since, None);
    assert!(state.live_status.is_none() && state.active_health.is_none());
    assert!(state.throughput_history.is_empty());
    assert_eq!(banner(&state), (BannerKind::Info, "Disconnected"));
    assert!(matches!(effects[0], Effect::UpdateTrayIcon(false)));
    assert!(matches!(effects[1], Effect::TellTray(TrayCmd::SetConnected(None))));
    assert!(matches!(&effects[2], Effect::Notify { body, .. } if body == "Disconnected from home"));
    assert!(matches!(effects[3], Effect::KillSwitch { armed: false, .. }));
    assert!(matches!(effects[4], Effect::FetchStatus(None)));
}

#[test]
fn a_tunnel_that_stays_is_reported() {
    let mut state = connected();
    state.update(Message::DisconnectCurrent, at());
    state.update(Message::DisconnectResult(Err(AppError::TunnelTimeout)), at());
    assert_eq!(
        state.tunnel_status,
        TunnelStatus::Error(s("[E207] tunnel operation timed out"))
    );
    assert_eq!(
        banner(&state),
        (BannerKind::Error, "Disconnect failed: [E207] tunnel operation timed out")
    );
}

#[test]
fn disconnecting_lasts() {
    let mut state = connected();
    state.update(Message::DisconnectCurrent, at());
    assert!(!brings_up(&state.update(Message::ReconnectTick(s("home")), at())));
    assert!(!brings_up(&state.update(Message::StatusTick, at())));
    assert!(!brings_up(&state.update(Message::DisconnectResult(Ok(())), at())));
    assert!(!brings_up(&state.update(Message::StatusTick, at())));
    assert!(brings_up(&state.update(Message::ConnectProfile(s("home")), at())));
}

#[test]
fn a_dropped_tunnel_is_reconnected_with_growing_waits() {
    let mut state = connected();
    let effects = state.update(Message::StatusTick, at());
    assert!(
        matches!(&effects[0], Effect::Notify { summary, .. } if summary == "WireGuard tunnel dropped")
    );
    assert!(matches!(&effects[1], Effect::ReconnectAfter { secs: 2, name } if name == "home"));
    assert_eq!(
        banner(&state),
        (BannerKind::Warning, "Tunnel dropped — reconnecting to home in 2s…")
    );
    for secs in [4, 8, 16, 32, 60, 60] {
        let effects = state.update(Message::StatusTick, at());
        match &effects[0] {
            Effect::ReconnectAfter { secs: got, .. } => assert_eq!(*got, secs),
            other => panic!("unexpected: {other:?}"),
        }
    }
    let effects = state.update(Message::ReconnectTick(s("home")), at());
    assert!(matches!(&effects[..], [Effect::Connect(p)] if p.name == "home"));
    assert_eq!(state.tunnel_status, TunnelStatus::Connecting(s("home")));
    assert!(!brings_up(&state.update(Message::StatusTick, at())));
}

#[test]
fn a_recent_handshake_keeps_the_tunnel() {
    let mut state = connected();
    state.reconnect_attempt = 3;
    state.update(Message::StatusFetched(Ok(Some(live(Some(NOW - 149))))), at());
    assert!(!brings_up(&state.update(Message::StatusTick, at())));
    assert_eq!(state.reconnect_attempt, 0);
    state.update(Message::StatusFetched(Ok(Some(live(Some(NOW - 150))))), at());
    assert!(brings_up(&state.update(Message::StatusTick, at())));
}

#[test]
fn without_auto_reconnect_nothing_is_reconnected() {
    let mut state = connected();
    let effects = state.update(Message::SettingAutoReconnectToggled(false), at());
    assert!(matches!(&effects[..], [Effect::SaveSettings]));
    assert!(!state.auto_reconnect && !state.settings.auto_reconnect);
    assert!(!brings_up(&state.update(Message::StatusTick, at())));
}

#[test]
fn figures_are_added_up() {
    let mut state = connected();
    let effects = state.update(Message::StatusFetched(Ok(Some(live(Some(NOW - 7))))), at());
    assert!(matches!(&effects[..], [Effect::SaveUsage]));
    assert_eq!(state.throughput_history.back(), Some(&(111, 23)));
    assert_eq!(state.usage_store.last_seen.get("home"), Some(&(111, 23)));
    assert_eq!(state.active_health.unwrap().handshake_age, Some(7));
    let mut more = live(Some(NOW - 7));
    more.peers[0].rx_bytes = 150;
    state.update(Message::StatusFetched(Ok(Some(more))), at());
    let usage = state.usage_store.get("home").unwrap();
    assert_eq!((usage.session_rx, usage.session_tx), (50, 0));
    state.update(Message::StatusFetched(Ok(None)), at());
    assert!(state.live_status.is_none() && state.active_health.is_none());
}

#[test]
fn missing_tools_are_not_reported_as_a_status() {
    let mut state = fresh();
    state.update(Message::StatusFetched(Err(AppError::WgNotFound)), at());
    assert!(state.banner.is_none());
    state.update(Message::StatusFetched(Err(AppError::PermissionDenied)), at());
    assert_eq!(
        banner(&state),
        (
            BannerKind::Warning,
            "Status: [E203] permission denied (root/privilege required)"
        )
    );
}

#[test]
fn public_addresses_come_and_go() {
    let mut state = fresh();
    state.public_ip_loading = true;
    state.update(Message::PublicIpFetched(Ok(s("203.0.113.1"))), at());
    assert_eq!(state.public_ip.as_deref(), Some("203.0.113.1"));
    assert!(!state.public_ip_loading);
    state.update(Message::PublicIpFetched(Err(AppError::PublicIpFetchFailed(s("x")))), at());
    assert_eq!(state.public_ip, None);
    assert!(state.banner.is_none());
}

#[test]
fn windows_are_hidden_and_shown() {
    let mut state = fresh();
    assert!(matches!(
        &state.update(Message::TrayOpen, at())[..],
        [Effect::OpenWindow(9)]
    ));
    assert!(state.update(Message::WindowOpened(9), at()).is_empty());
    assert!(matches!(
        &state.update(Message::WindowCloseRequested(9), at())[..],
        [Effect::HideWindow(9)]
    ));
    assert!(matches!(
        &state.update(Message::RaiseWindowRequested, at())[..],
        [Effect::ShowWindow(9)]
    ));
    assert!(matches!(&state.update(Message::TrayQuit, at())[..], [Effect::Exit]));
}

#[test]
fn only_the_first_window_starts_hidden() {
    let store = ProfileStore { dir: PathBuf::from("/profiles") };
    let (mut state, _) = State::new_with(store, true);
    assert!(state.start_hidden());
    assert!(matches!(
        &state.update(Message::WindowOpened(1), at())[..],
        [Effect::HideWindow(1)]
    ));
    assert!(!state.start_hidden());
    assert!(state.update(Message::WindowOpened(2), at()).is_empty());
}

#[test]
fn the_tray_does_the_same() {
    let mut by_window = with_profiles(&["home"]);
    let mut by_tray = with_profiles(&["home"]);
    let a = by_window.update(Message::ConnectProfile(s("home")), at());
    let b = by_tray.update(Message::TrayConnectProfile(s("home")), at());
    assert_eq!(format!("{a:?}"), format!("{b:?}"));
    assert_eq!(format!("{by_window:?}"), format!("{by_tray:?}"));
    let a = by_window.update(Message::DisconnectCurrent, at());
    let b = by_tray.update(Message::TrayDisconnect, at());
    assert_eq!(format!("{a:?}"), format!("{b:?}"));
    assert_eq!(format!("{by_window:?}"), format!("{by_tray:?}"));
}

#[test]
fn a_new_profile_is_edited_and_saved() {
    let mut state = fresh();
    let effects = state.update(Message::OpenNewProfile, at());
    assert!(matches!(&effects[..], [Effect::SeedRawEditor(_)]));
    assert_eq!(state.screen, Screen::Editor);
    assert!(state.update(Message::EditorSave, at()).is_empty());
    assert_eq!(
        banner(&state),
        (BannerKind::Error, "Cannot save: fix the validation errors first")
    );
    for field in [
        EditorField::ProfileName(s("home")),
        EditorField::PrivateKey(s(ZERO_KEY)),
        EditorField::Address(s("10.0.0.2/32, 10.0.0.3/32")),
        EditorField::AddPeer,
        EditorField::PeerPublicKey(0, s(ZERO_KEY)),
        EditorField::PeerAllowedIps(0, s("0.0.0.0/0")),
        EditorField::PeerKeepalive(0, s("25")),
    ] {
        state.update(Message::EditorFieldChanged(field), at());
    }
    let editor = state.editor.as_ref().unwrap();
    assert!(editor.validation_errors.is_empty(), "{:?}", editor.validation_errors);
    assert!(editor.raw_text.contains("PersistentKeepalive = 25"));
    let effects = state.update(Message::EditorSave, at());
    match &effects[..] {
        [Effect::SaveProfile { profile, is_new }] => {
            assert_eq!(profile.name, "home");
            assert_eq!(profile.interface.address, vec!["10.0.0.2/32", "10.0.0.3/32"]);
            assert!(is_new);
        }
        other => panic!("unexpected: {other:?}"),
    }
    let effects = state.update(Message::EditorSaveResult(Ok(profile("home"))), at());
    assert!(matches!(&effects[..], [Effect::LoadProfiles]));
    assert!(state.editor.is_none());
    assert_eq!(state.screen, Screen::ProfileList);
    assert_eq!(banner(&state), (BannerKind::Success, "Saved 'home'"));
}

#[test]
fn a_profile_without_a_name_is_not_saved() {
    let mut state = with_profiles(&["home"]);
    state.update(Message::EditProfile(s("home")), at());
    let editor = state.editor.as_mut().unwrap();
    editor.profile_name = s(" ");
    assert!(state.update(Message::EditorSave, at()).is_empty());
    assert_eq!(banner(&state), (BannerKind::Error, "Profile name must not be empty"));
}

#[test]
fn the_raw_text_becomes_the_draft() {
    let mut state = with_profiles(&["home"]);
    state.profiles[0].path = Some(PathBuf::from("/profiles/home.conf"));
    state.update(Message::EditProfile(s("home")), at());
    let effects = state.update(Message::EditorToggleRaw, at());
    assert_eq!(state.screen, Screen::RawEditor);
    let text = match &effects[..] {
        [Effect::SeedRawEditor(text)] => text.clone(),
        other => panic!("unexpected: {other:?}"),
    };
    let changed = text.replace("10.0.0.2/32", "10.9.9.9/32");
    state.update(Message::RawEditorAction(changed.clone()), at());
    let editor = state.editor.as_ref().unwrap();
    assert_eq!(editor.raw_text, changed);
    assert_eq!(editor.draft.interface.address, vec!["10.9.9.9/32"]);
    assert_eq!(editor.draft.path, Some(PathBuf::from("/profiles/home.conf")));
    state.update(Message::RawEditorAction(s("nonsense")), at());
    let (kind, message) = banner(&state);
    assert_eq!(kind, BannerKind::Warning);
    assert!(
        message.starts_with("Parse error: [E104] failed to parse profile 'home': "),
        "{message}"
    );
    let editor = state.editor.as_ref().unwrap();
    assert_eq!(editor.raw_text, "nonsense");
    assert_eq!(editor.draft.interface.address, vec!["10.9.9.9/32"]);
    assert!(state.update(Message::EditorToggleRaw, at()).is_empty());
    assert_eq!(state.screen, Screen::Editor);
    state.update(Message::EditorCancel, at());
    assert!(state.editor.is_none() && state.banner.is_none());
}

#[test]
fn generated_keys_reach_the_draft() {
    let mut state = with_profiles(&["home"]);
    state.update(Message::EditProfile(s("home")), at());
    assert!(matches!(
        &state.update(Message::GenerateKeypair, at())[..],
        [Effect::GenerateKeypair]
    ));
    state.update(Message::KeypairGenerated(Ok((s("priv"), s("pub")))), at());
    let editor = state.editor.as_ref().unwrap();
    assert_eq!(editor.draft.interface.private_key, "priv");
    assert!(editor.raw_text.contains("PrivateKey = priv"));
    assert!(!editor.validation_errors.is_empty());
    assert_eq!(
        banner(&state),
        (BannerKind::Info, "Generated keypair (public key: pub)")
    );
    state.update(Message::KeypairGenerated(Err(AppError::KeygenFailed(s("x")))), at());
    assert_eq!(
        banner(&state),
        (BannerKind::Error, "Keygen failed: [E301] key generation failed: x")
    );
}

#[test]
fn files_come_and_go() {
    let mut state = with_profiles(&["home"]);
    assert!(matches!(
        &state.update(Message::ImportProfile, at())[..],
        [Effect::PickImportFile]
    ));
    assert!(state.update(Message::ImportFileChosen(None), at()).is_empty());
    assert!(matches!(
        &state.update(Message::ImportFileChosen(Some(PathBuf::from("/a.conf"))), at())[..],
        [Effect::Import(p)] if p == &PathBuf::from("/a.conf")
    ));
    assert!(matches!(
        &state.update(Message::ImportFromQr, at())[..],
        [Effect::PickQrImage]
    ));
    assert!(matches!(
        &state.update(Message::ImportFromQrChosen(Some(PathBuf::from("/a.png"))), at())[..],
        [Effect::ImportQr(_)]
    ));
    let effects = state.update(Message::ImportResult(Ok(profile("a"))), at());
    assert!(matches!(&effects[..], [Effect::LoadProfiles]));
    assert_eq!(banner(&state), (BannerKind::Success, "Imported 'a'"));
    assert!(matches!(
        &state.update(Message::ExportProfile(s("home")), at())[..],
        [Effect::PickExportFile(n)] if n == "home"
    ));
    let path = PathBuf::from("/tmp/other.conf");
    assert!(matches!(
        &state.update(Message::ExportFileChosen(Some(path.clone())), at())[..],
        [Effect::Export { name, .. }] if name == "other"
    ));
    state.update(Message::SelectProfile(s("home")), at());
    assert!(matches!(
        &state.update(Message::ExportFileChosen(Some(path)), at())[..],
        [Effect::Export { name, .. }] if name == "home"
    ));
    state.update(Message::ExportResult(Ok(())), at());
    assert_eq!(banner(&state), (BannerKind::Success, "Exported profile"));
    assert!(matches!(
        &state.update(Message::DeleteProfile(s("home")), at())[..],
        [Effect::DeleteProfile(n)] if n == "home"
    ));
    assert!(matches!(
        &state.update(Message::DeleteResult(Ok(())), at())[..],
        [Effect::LoadProfiles]
    ));
}

#[test]
fn settings_are_taken_and_saved() {
    let mut state = fresh();
    let mut own = AppSettings::default();
    own.auto_reconnect = false;
    state.update(Message::SettingsLoaded(Ok(own)), at());
    assert!(!state.auto_reconnect);
    let effects = state.update(Message::SettingAutoStartToggled(true), at());
    assert!(matches!(
        &effects[..],
        [Effect::ApplyAutostart(true), Effect::SaveSettings]
    ));
    assert!(state.settings.autostart);
    state.update(Message::AutostartApplied(Err(AppError::AutostartWriteFailed(s("x")))), at());
    assert_eq!(
        banner(&state),
        (BannerKind::Error, "Autostart: [E401] failed to write autostart entry: x")
    );
    state.update(Message::SettingThemeChanged(ThemePreference::Dark), at());
    assert_eq!(state.settings.theme, ThemePreference::Dark);
    state.update(Message::SettingNotificationsToggled(false), at());
    assert!(!state.notifications_enabled);
    state.update(Message::DismissBanner, at());
    assert!(state.update(Message::SettingsSaved(Ok(())), at()).is_empty());
    assert!(state.banner.is_none());
}

#[test]
fn boot_changes_on_request() {
    let mut state = fresh();
    let effects = state.update(Message::SettingConnectOnBootChanged(Some(s("home"))), at());
    assert!(matches!(
        &effects[..],
        [Effect::ConfigureBoot { profile, action: BootAction::Enable }, Effect::SaveSettings]
            if profile == "home"
    ));
    let effects = state.update(Message::SettingConnectOnBootChanged(None), at());
    assert!(matches!(
        &effects[..],
        [Effect::ConfigureBoot { profile, action: BootAction::Disable }, Effect::SaveSettings]
            if profile == "home"
    ));
    assert_eq!(state.settings.connect_on_boot, None);
    let effects = state.update(Message::SettingConnectOnBootChanged(None), at());
    assert!(matches!(&effects[..], [Effect::SaveSettings]));
    state.update(Message::BootConfigResult(Ok(())), at());
    assert_eq!(banner(&state), (BannerKind::Success, "Connect-on-boot updated"));
}

#[test]
fn the_plan_of_a_profile_is_shown() {
    let mut state = with_profiles(&["home"]);
    state.update(Message::OpenPlanPreview(s("home")), at());
    assert_eq!(state.screen, Screen::PlanPreview);
    assert_eq!(state.dry_run_plan.as_ref().unwrap().profile.name, "home");
    state.update(Message::GoHome, at());
    assert!(state.dry_run_plan.is_none());
    assert_eq!(state.screen, Screen::ProfileList);
}

#[test]
fn a_known_server_is_not_loaded_again() {
    let mut state = fresh();
    assert!(matches!(
        &state.update(Message::OpenServer, at())[..],
        [Effect::LoadServer]
    ));
    state.update(Message::ServerLoadResult(Ok(Some(server()))), at());
    assert!(state.update(Message::OpenServer, at()).is_empty());
    assert_eq!(state.server, Some(server()));
}

#[test]
fn only_the_server_switches() {
    let mut state = fresh();
    assert!(state.update(Message::ServerStartToggle, at()).is_empty());
    assert_eq!(banner(&state), (BannerKind::Warning, "No server to start"));
    state.update(Message::ServerCreateResult(Ok(server())), at());
    assert!(matches!(
        &state.update(Message::ServerStartToggle, at())[..],
        [Effect::StartServer(_)]
    ));
    assert!(!state.server_running);
    state.update(Message::ServerOpResult(Ok(())), at());
    assert!(state.server_running);
    assert_eq!(banner(&state), (BannerKind::Success, "Server started"));
    let effects = state.update(Message::ServerNatToggle(true), at());
    match &effects[..] {
        [Effect::SwitchNat { enabled: true, cmd: PrivCmd::NatEnable { subnet, egress_iface } }] => {
            assert_eq!(subnet, "10.7.0.0/24");
            assert_eq!(egress_iface, "eth0");
        }
        other => panic!("unexpected: {other:?}"),
    }
    state.update(Message::ServerNatResult { enabled: true, result: Ok(()) }, at());
    assert!(state.server_running);
    assert_eq!(banner(&state), (BannerKind::Success, "NAT enabled"));
    assert!(matches!(
        &state.update(Message::ServerStartToggle, at())[..],
        [Effect::StopServer]
    ));
    state.update(Message::ServerOpResult(Ok(())), at());
    assert_eq!(banner(&state), (BannerKind::Success, "Server stopped"));
    state.server.as_mut().unwrap().egress_iface = None;
    assert!(state.update(Message::ServerNatToggle(true), at()).is_empty());
    assert_eq!(
        banner(&state),
        (BannerKind::Warning, "No egress interface detected — cannot enable NAT")
    );
}

#[test]
fn clients_come_and_go() {
    let mut state = fresh();
    state.update(Message::ServerCreateResult(Ok(server())), at());
    state.update(Message::ServerPeerNameChanged(s("  ")), at());
    assert!(state.update(Message::ServerAddPeer, at()).is_empty());
    assert_eq!(state.server_peer_name_input, "");
    assert_eq!(banner(&state), (BannerKind::Warning, "Enter a client name first"));
    state.update(Message::ServerPeerNameChanged(s("phone")), at());
    let effects = state.update(Message::ServerAddPeer, at());
    assert!(matches!(
        &effects[..],
        [Effect::AddPeer { name, running: false, .. }] if name == "phone"
    ));
    let mut config = server();
    config.peers.push(ServerPeer {
        name: s("phone"),
        public_key: s("pk"),
        private_key: Some(s("sk")),
        assigned_ip: s("10.7.0.2"),
        preshared_key: None,
        client_allowed_ips: s("0.0.0.0/0"),
    });
    let handout = config.client_conf(&config.peers[0]);
    state.update(Message::ServerAddPeerResult(Ok(config)), at());
    assert_eq!(state.last_client_conf, Some((s("phone"), handout)));
    let effects = state.update(Message::ServerRemovePeer(0), at());
    assert!(matches!(&effects[..], [Effect::RemovePeer { idx: 0, .. }]));
    assert_eq!(state.last_client_conf, None);
    state.update(Message::ServerRemovePeerResult(Ok(server())), at());
    assert_eq!(banner(&state), (BannerKind::Info, "Client removed"));
    assert!(state.server.as_ref().unwrap().peers.is_empty());
}

#[test]
fn the_servers_figures_are_asked_for_while_it_is_up() {
    let mut state = fresh();
    state.update(Message::ServerCreateResult(Ok(server())), at());
    assert!(state.update(Message::ServerStatusTick, at()).is_empty());
    state.update(Message::ServerOpResult(Ok(())), at());
    assert!(matches!(
        &state.update(Message::ServerStatusTick, at())[..],
        [Effect::FetchServerStatus(_)]
    ));
    state.update(Message::ServerStatusResult(Ok(live(None).peers)), at());
    assert_eq!(state.server_peer_status.len(), 2);
}

#[test]
fn usage_is_loaded() {
    let mut state = fresh();
    let mut store = UsageStore::default();
    store.record("home", 5, 6);
    state.update(Message::UsageLoaded(Ok(store)), at());
    assert_eq!(state.usage_store.last_seen.get("home"), Some(&(5, 6)));
    state.update(Message::UsageLoaded(Err(AppError::SettingsLoadFailed(s("x")))), at());
    assert_eq!(
        banner(&state),
        (BannerKind::Warning, "Failed to load usage: [E601] failed to load settings: x")
    );
}
