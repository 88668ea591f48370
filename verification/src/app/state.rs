//! What the program knows, what can happen to it, and what it has done.

use std::collections::VecDeque;
use std::path::PathBuf;

use crate::app::{
    Banner, BannerModel, EditorField, EditorModel, EditorState, Screen, SortOrder, TunnelModel,
    TunnelStatus, THROUGHPUT_HISTORY_LEN,
};
use crate::config::profile::{ProfileModel, WgProfile};
use crate::config::store::ProfileStore;
use crate::error::AppResult;
use crate::net::boot::BootAction;
use crate::net::privilege::{PrivCmd, PrivCmdModel};
use crate::server::{ServerConfig, ServerModel};
use crate::settings::{AppSettings, SettingsModel, ThemePreference};
use crate::stats::{StoreModel, UsageStore};
use crate::tray::{TrayCmd, TrayCmdModel, TrayEvent};
use crate::wg::status::{LiveStatus, LiveStatusModel, PeerStatus, PeerStatusModel};
use vstd::prelude::*;

verus! {

/// What a dry run is asked about.
#[derive(Debug, Clone)]
pub struct PlanRequest {
    pub profile: WgProfile,
    pub kill_switch: bool,
}

/// How well the tunnel is: the age of its most recent handshake, in seconds.
#[derive(Debug, Clone, Copy, PartialEq, Eq)]
pub struct Health {
    pub handshake_age: Option<u64>,
}

/// The whole state of the program.
#[derive(Debug)]
pub struct State {
    /// The main window, once there is one.
    pub main_window: Option<u64>,
    /// The profile store.
    pub profile_store: ProfileStore,
    /// All profiles.
    pub profiles: Vec<WgProfile>,
    /// The profile that is connected or being connected, or was chosen last.
    pub active_profile: Option<String>,
    /// How the tunnel stands.
    pub tunnel_status: TunnelStatus,
    /// What the window shows.
    pub screen: Screen,
    /// What is searched for in the list of profiles.
    pub search_query: String,
    /// How the list of profiles is sorted.
    pub sort_order: SortOrder,
    /// The editor, while one is open.
    pub editor: Option<EditorState>,
    /// The last live figures of the tunnel.
    pub live_status: Option<LiveStatus>,
    /// The last known public address.
    pub public_ip: Option<String>,
    /// Whether the public address is being asked for.
    pub public_ip_loading: bool,
    /// The settings.
    pub settings: AppSettings,
    /// Whether desktop notifications are shown.
    pub notifications_enabled: bool,
    /// The banner.
    pub banner: Option<Banner>,
    /// Whether a dropped tunnel is reconnected; always the same as in the settings.
    pub auto_reconnect: bool,
    /// What the dry run shown is asked about.
    pub dry_run_plan: Option<PlanRequest>,
    /// Whether the program is to start in the tray.
    pub start_hidden: bool,
    /// Whether the user has disconnected since last connecting.
    pub intentional_down: bool,
    /// How often reconnecting was tried since the tunnel was last well.
    pub reconnect_attempt: u32,
    /// The server, once it is known.
    pub server: Option<ServerConfig>,
    /// Whether the server is up.
    pub server_running: bool,
    /// The last live figures of the server's clients.
    pub server_peer_status: Vec<PeerStatus>,
    /// The name typed for a new client.
    pub server_peer_name_input: String,
    /// The last client made, and the `.conf` text to hand to it.
    pub last_client_conf: Option<(String, String)>,
    /// When the tunnel came up.
    pub connected_since: Option<u64>,
    /// Cumulative counts of bytes received and sent, the most recent last.
    pub throughput_history: VecDeque<(u64, u64)>,
    /// How much data each profile has moved.
    pub usage_store: UsageStore,
    /// How well the tunnel is, while it is up.
    pub active_health: Option<Health>,
}

/// When something happened, and what would be next.
#[derive(Debug, Clone, Copy)]
pub struct Moment {
    /// The time, in seconds since the epoch.
    pub now: u64,
    /// The number that the next window to be opened will have.
    pub next_window: u64,
}

/// Everything that can happen.
#[derive(Debug)]
pub enum Message {
    ProfilesLoaded(AppResult<Vec<WgProfile>>),
    SettingsLoaded(AppResult<AppSettings>),
    UsageLoaded(AppResult<UsageStore>),
    /// Another instance was started.
    RaiseWindowRequested,
    TrayOpen,
    TrayQuit,
    TrayConnectProfile(String),
    TrayDisconnect,
    WindowCloseRequested(u64),
    WindowOpened(u64),
    SearchChanged(String),
    SortChanged(SortOrder),
    SelectProfile(String),
    ConnectProfile(String),
    DisconnectCurrent,
    ConnectResult(AppResult<()>),
    DisconnectResult(AppResult<()>),
    /// What came of arming or lifting the kill switch.
    KillSwitchResult { armed: bool, result: AppResult<()> },
    /// The wait before reconnecting is over.
    ReconnectTick(String),
    DeleteProfile(String),
    DeleteResult(AppResult<()>),
    OpenNewProfile,
    EditProfile(String),
    EditorFieldChanged(EditorField),
    EditorToggleRaw,
    /// The text in the raw editor has become this.
    RawEditorAction(String),
    EditorSave,
    EditorSaveResult(AppResult<WgProfile>),
    EditorCancel,
    GenerateKeypair,
    KeypairGenerated(AppResult<(String, String)>),
    ImportProfile,
    ImportFileChosen(Option<PathBuf>),
    ImportResult(AppResult<WgProfile>),
    ImportFromQr,
    ImportFromQrChosen(Option<PathBuf>),
    ExportProfile(String),
    ExportFileChosen(Option<PathBuf>),
    ExportResult(AppResult<()>),
    StatusTick,
    StatusFetched(AppResult<Option<LiveStatus>>),
    PublicIpFetched(AppResult<String>),
    OpenPlanPreview(String),
    OpenSettings,
    GoHome,
    SettingAutoReconnectToggled(bool),
    SettingAutoStartToggled(bool),
    /// What came of changing the autostart entry.
    AutostartApplied(AppResult<()>),
    SettingKillSwitchToggled(bool),
    SettingConnectOnBootChanged(Option<String>),
    BootConfigResult(AppResult<()>),
    SettingThemeChanged(ThemePreference),
    SettingNotificationsToggled(bool),
    SettingsSaved(AppResult<()>),
    OpenServer,
    ServerLoadResult(AppResult<Option<ServerConfig>>),
    /// Make a server that clients reach under this host.
    ServerCreate(String),
    ServerCreateResult(AppResult<ServerConfig>),
    ServerStartToggle,
    ServerOpResult(AppResult<()>),
    ServerNatToggle(bool),
    ServerNatResult { enabled: bool, result: AppResult<()> },
    ServerPeerNameChanged(String),
    ServerAddPeer,
    ServerAddPeerResult(AppResult<ServerConfig>),
    ServerRemovePeer(usize),
    ServerRemovePeerResult(AppResult<ServerConfig>),
    ServerStatusTick,
    ServerStatusResult(AppResult<Vec<PeerStatus>>),
    DismissBanner,
}

/// Something the program has done for it, to be carried out in order.
#[derive(Debug)]
pub enum Effect {
    LoadProfiles,
    LoadSettings,
    LoadUsage,
    /// Save the settings of the state.
    SaveSettings,
    /// Save the figures of the state.
    SaveUsage,
    HideWindow(u64),
    ShowWindow(u64),
    /// Open a window, which gets this number.
    OpenWindow(u64),
    Exit,
    UpdateTrayIcon(bool),
    TellTray(TrayCmd),
    Notify { summary: String, body: String },
    /// Bring the tunnel of a profile up.
    Connect(WgProfile),
    /// Take an interface down.
    Disconnect(String),
    /// Arm the kill switch, or lift it.
    KillSwitch { armed: bool, cmd: PrivCmd },
    /// Report back with the profile's name after a wait.
    ReconnectAfter { secs: u64, name: String },
    FetchStatus(Option<String>),
    FetchPublicIp,
    DeleteProfile(String),
    SaveProfile { profile: WgProfile, is_new: bool },
    GenerateKeypair,
    PickImportFile,
    Import(PathBuf),
    PickQrImage,
    ImportQr(PathBuf),
    PickExportFile(String),
    Export { name: String, path: PathBuf },
    /// Show this text in the raw editor.
    SeedRawEditor(String),
    ApplyAutostart(bool),
    ConfigureBoot { profile: String, action: BootAction },
    LoadServer,
    CreateServer(String),
    StartServer(ServerConfig),
    StopServer,
    SwitchNat { enabled: bool, cmd: PrivCmd },
    AddPeer { config: ServerConfig, name: String, running: bool },
    RemovePeer { config: ServerConfig, idx: usize, running: bool },
    FetchServerStatus(ServerConfig),
}

// ── models ──────────────────────────────────────────────────────────────────

/// The whole state of the program.
pub struct StateModel {
    pub main_window: Option<u64>,
    pub store_dir: PathBuf,
    pub profiles: Seq<ProfileModel>,
    pub active_profile: Option<Seq<char>>,
    pub tunnel_status: TunnelModel,
    pub screen: Screen,
    pub search_query: Seq<char>,
    pub sort_order: SortOrder,
    pub editor: Option<EditorModel>,
    pub live_status: Option<LiveStatusModel>,
    pub public_ip: Option<Seq<char>>,
    pub public_ip_loading: bool,
    pub settings: SettingsModel,
    pub notifications_enabled: bool,
    pub banner: Option<BannerModel>,
    pub auto_reconnect: bool,
    pub dry_run_plan: Option<(ProfileModel, bool)>,
    pub start_hidden: bool,
    pub intentional_down: bool,
    pub reconnect_attempt: u32,
    pub server: Option<ServerModel>,
    pub server_running: bool,
    pub server_peer_status: Seq<PeerStatusModel>,
    pub server_peer_name_input: Seq<char>,
    pub last_client_conf: Option<(Seq<char>, Seq<char>)>,
    pub connected_since: Option<u64>,
    pub throughput_history: Seq<(u64, u64)>,
    pub usage: StoreModel,
    pub active_health: Option<Health>,
}

/// What an optional value says.
pub open spec fn opt<T: View>(o: Option<T>) -> Option<T::V> {
    match o {
        Some(x) => Some(x@),
        None => None,
    }
}

impl View for State {
    type V = StateModel;

    open spec fn view(&self) -> StateModel {
        StateModel {
            main_window: self.main_window,
            store_dir: self.profile_store.dir,
            profiles: crate::config::store::profile_views(self.profiles@),
            active_profile: opt(self.active_profile),
            tunnel_status: self.tunnel_status@,
            screen: self.screen,
            search_query: self.search_query@,
            sort_order: self.sort_order,
            editor: opt(self.editor),
            live_status: opt(self.live_status),
            public_ip: opt(self.public_ip),
            public_ip_loading: self.public_ip_loading,
            settings: self.settings@,
            notifications_enabled: self.notifications_enabled,
            banner: opt(self.banner),
            auto_reconnect: self.auto_reconnect,
            dry_run_plan: match self.dry_run_plan {
                Some(p) => Some((p.profile@, p.kill_switch)),
                None => None,
            },
            start_hidden: self.start_hidden,
            intentional_down: self.intentional_down,
            reconnect_attempt: self.reconnect_attempt,
            server: opt(self.server),
            server_running: self.server_running,
            server_peer_status: crate::wg::status::status_views(self.server_peer_status@),
            server_peer_name_input: self.server_peer_name_input@,
            last_client_conf: match self.last_client_conf {
                Some((name, text)) => Some((name@, text@)),
                None => None,
            },
            connected_since: self.connected_since,
            throughput_history: self.throughput_history@,
            usage: self.usage_store@,
            active_health: self.active_health,
        }
    }
}

/// Something the program has done for it.
pub enum EffectModel {
    LoadProfiles,
    LoadSettings,
    LoadUsage,
    SaveSettings,
    SaveUsage,
    HideWindow(u64),
    ShowWindow(u64),
    OpenWindow(u64),
    Exit,
    UpdateTrayIcon(bool),
    TellTray(TrayCmdModel),
    Notify { summary: Seq<char>, body: Seq<char> },
    Connect(ProfileModel),
    Disconnect(Seq<char>),
    KillSwitch { armed: bool, cmd: PrivCmdModel },
    ReconnectAfter { secs: u64, name: Seq<char> },
    FetchStatus(Option<Seq<char>>),
    FetchPublicIp,
    DeleteProfile(Seq<char>),
    SaveProfile { profile: ProfileModel, is_new: bool },
    GenerateKeypair,
    PickImportFile,
    Import(PathBuf),
    PickQrImage,
    ImportQr(PathBuf),
    PickExportFile(Seq<char>),
    Export { name: Seq<char>, path: PathBuf },
    SeedRawEditor(Seq<char>),
    ApplyAutostart(bool),
    ConfigureBoot { profile: Seq<char>, action: BootAction },
    LoadServer,
    CreateServer(Seq<char>),
    StartServer(ServerModel),
    StopServer,
    SwitchNat { enabled: bool, cmd: PrivCmdModel },
    AddPeer { config: ServerModel, name: Seq<char>, running: bool },
    RemovePeer { config: ServerModel, idx: usize, running: bool },
    FetchServerStatus(ServerModel),
}

impl View for Effect {
    type V = EffectModel;

    open spec fn view(&self) -> EffectModel {
        match *self {
            Effect::LoadProfiles => EffectModel::LoadProfiles,
            Effect::LoadSettings => EffectModel::LoadSettings,
            Effect::LoadUsage => EffectModel::LoadUsage,
            Effect::SaveSettings => EffectModel::SaveSettings,
            Effect::SaveUsage => EffectModel::SaveUsage,
            Effect::HideWindow(id) => EffectModel::HideWindow(id),
            Effect::ShowWindow(id) => EffectModel::ShowWindow(id),
            Effect::OpenWindow(id) => EffectModel::OpenWindow(id),
            Effect::Exit => EffectModel::Exit,
            Effect::UpdateTrayIcon(on) => EffectModel::UpdateTrayIcon(on),
            Effect::TellTray(cmd) => EffectModel::TellTray(cmd@),
            Effect::Notify { summary, body } => EffectModel::Notify {
                summary: summary@,
                body: body@,
            },
            Effect::Connect(p) => EffectModel::Connect(p@),
            Effect::Disconnect(iface) => EffectModel::Disconnect(iface@),
            Effect::KillSwitch { armed, cmd } => EffectModel::KillSwitch { armed, cmd: cmd@ },
            Effect::ReconnectAfter { secs, name } => EffectModel::ReconnectAfter {
                secs,
                name: name@,
            },
            Effect::FetchStatus(iface) => EffectModel::FetchStatus(opt(iface)),
            Effect::FetchPublicIp => EffectModel::FetchPublicIp,
            Effect::DeleteProfile(name) => EffectModel::DeleteProfile(name@),
            Effect::SaveProfile { profile, is_new } => EffectModel::SaveProfile {
                profile: profile@,
                is_new,
            },
            Effect::GenerateKeypair => EffectModel::GenerateKeypair,
            Effect::PickImportFile => EffectModel::PickImportFile,
            Effect::Import(path) => EffectModel::Import(path),
            Effect::PickQrImage => EffectModel::PickQrImage,
            Effect::ImportQr(path) => EffectModel::ImportQr(path),
            Effect::PickExportFile(name) => EffectModel::PickExportFile(name@),
            Effect::Export { name, path } => EffectModel::Export { name: name@, path },
            Effect::SeedRawEditor(text) => EffectModel::SeedRawEditor(text@),
            Effect::ApplyAutostart(on) => EffectModel::ApplyAutostart(on),
            Effect::ConfigureBoot { profile, action } => EffectModel::ConfigureBoot {
                profile: profile@,
                action,
            },
            Effect::LoadServer => EffectModel::LoadServer,
            Effect::CreateServer(host) => EffectModel::CreateServer(host@),
            Effect::StartServer(config) => EffectModel::StartServer(config@),
            Effect::StopServer => EffectModel::StopServer,
            Effect::SwitchNat { enabled, cmd } => EffectModel::SwitchNat { enabled, cmd: cmd@ },
            Effect::AddPeer { config, name, running } => EffectModel::AddPeer {
                config: config@,
                name: name@,
                running,
            },
            Effect::RemovePeer { config, idx, running } => EffectModel::RemovePeer {
                config: config@,
                idx,
                running,
            },
            Effect::FetchServerStatus(config) => EffectModel::FetchServerStatus(config@),
        }
    }
}

/// What a row of effects says.
pub open spec fn effect_views(v: Seq<Effect>) -> Seq<EffectModel> {
    v.map_values(|e: Effect| e@)
}

// ── beginning ───────────────────────────────────────────────────────────────

/// The state before anything has happened.
pub open spec fn initial_state(store_dir: PathBuf, start_hidden: bool) -> StateModel {
    StateModel {
        main_window: None,
        store_dir,
        profiles: Seq::empty(),
        active_profile: None,
        tunnel_status: TunnelModel::Disconnected,
        screen: Screen::ProfileList,
        search_query: Seq::empty(),
        sort_order: SortOrder::NameAsc,
        editor: None,
        live_status: None,
        public_ip: None,
        public_ip_loading: false,
        settings: crate::settings::default_settings(),
        notifications_enabled: true,
        banner: None,
        auto_reconnect: true,
        dry_run_plan: None,
        start_hidden,
        intentional_down: false,
        reconnect_attempt: 0,
        server: None,
        server_running: false,
        server_peer_status: Seq::empty(),
        server_peer_name_input: Seq::empty(),
        last_client_conf: None,
        connected_since: None,
        throughput_history: Seq::empty(),
        usage: crate::stats::empty_store(),
        active_health: None,
    }
}

/// What is loaded when the program starts.
pub open spec fn initial_effects() -> Seq<EffectModel> {
    seq![EffectModel::LoadProfiles, EffectModel::LoadSettings, EffectModel::LoadUsage]
}

/// The throughput history after one more sample: where there are too many, the oldest go.
pub open spec fn with_sample(history: Seq<(u64, u64)>, sample: (u64, u64)) -> Seq<(u64, u64)> {
    let all = history.push(sample);
    if all.len() > THROUGHPUT_HISTORY_LEN {
        all.skip(all.len() - THROUGHPUT_HISTORY_LEN)
    } else {
        all
    }
}

impl State {
    /// The state in which the program starts, with its window shown, and what it loads.
    pub fn new(profile_store: ProfileStore) -> (r: (State, Vec<Effect>))
        ensures
            r.0@ == initial_state(profile_store.dir, false),
            effect_views(r.1@) == initial_effects(),
    {
        State::new_with(profile_store, false)
    }

    /// The state in which the program starts, and what it loads.
    pub fn new_with(profile_store: ProfileStore, start_hidden: bool) -> (r: (State, Vec<Effect>))
        ensures
            r.0@ == initial_state(profile_store.dir, start_hidden),
            effect_views(r.1@) == initial_effects(),
    {
        let state = State {
            main_window: None,
            profile_store,
            profiles: Vec::new(),
            active_profile: None,
            tunnel_status: TunnelStatus::Disconnected,
            screen: Screen::ProfileList,
            search_query: String::new(),
            sort_order: SortOrder::NameAsc,
            editor: None,
            live_status: None,
            public_ip: None,
            public_ip_loading: false,
            settings: AppSettings::default(),
            notifications_enabled: true,
            banner: None,
            auto_reconnect: true,
            dry_run_plan: None,
            start_hidden,
            intentional_down: false,
            reconnect_attempt: 0,
            server: None,
            server_running: false,
            server_peer_status: Vec::new(),
            server_peer_name_input: String::new(),
            last_client_conf: None,
            connected_since: None,
            throughput_history: VecDeque::with_capacity(THROUGHPUT_HISTORY_LEN),
            usage_store: UsageStore::default(),
            active_health: None,
        };
        let effects = vec![Effect::LoadProfiles, Effect::LoadSettings, Effect::LoadUsage];
        proof {
            let m = initial_state(profile_store.dir, start_hidden);
            assert(state@.profiles =~= m.profiles);
            assert(state@.server_peer_status =~= m.server_peer_status);
            assert(state@.throughput_history =~= m.throughput_history);
            assert(state@.search_query =~= m.search_query);
            assert(state@.server_peer_name_input =~= m.server_peer_name_input);
            assert(effect_views(effects@) =~= initial_effects());
        }
        (state, effects)
    }

    /// Whether the program is to start in the tray.
    pub fn start_hidden(&self) -> (r: bool)
        ensures
            r == self@.start_hidden,
    {
        self.start_hidden
    }

    /// The title of the window.
    pub fn title(&self) -> (r: String)
        ensures
            r@ == crate::app::window_title(self@.tunnel_status),
    {
        match &self.tunnel_status {
            TunnelStatus::Connected(name) => {
                crate::text::text3("WireGuard — ", name.as_str(), " (connected)")
            },
            TunnelStatus::Connecting(name) => {
                crate::text::text3("WireGuard — connecting ", name.as_str(), "…")
            },
            TunnelStatus::Disconnecting => "WireGuard — disconnecting…".to_owned(),
            TunnelStatus::Error(_) => "WireGuard — error".to_owned(),
            TunnelStatus::Disconnected => "WireGuard".to_owned(),
        }
    }

    /// Adds a sample to the throughput history; where there are too many, the oldest go.
    pub fn push_throughput_sample(&mut self, rx: u64, tx: u64)
        ensures
            final(self)@ == (StateModel {
                throughput_history: with_sample(old(self)@.throughput_history, (rx, tx)),
                ..old(self)@
            }),
    {
        let ghost before = self@;
        self.throughput_history.push_back((rx, tx));
        let ghost all = self.throughput_history@;
        let ghost mut gone: int = 0;
        assert(all.skip(0) =~= all);
        while self.throughput_history.len() > THROUGHPUT_HISTORY_LEN
            invariant
                0 <= gone <= all.len(),
                all == before.throughput_history.push((rx, tx)),
                self.throughput_history@ == all.skip(gone),
                gone > 0 ==> self.throughput_history@.len() >= THROUGHPUT_HISTORY_LEN,
                self@ == (StateModel { throughput_history: all.skip(gone), ..before }),
            decreases self.throughput_history@.len(),
        {
            let _ = self.throughput_history.pop_front();
            proof {
                assert(all.skip(gone).skip(1) =~= all.skip(gone + 1));
                assert(self.throughput_history@ =~= all.skip(gone + 1));
                gone = gone + 1;
            }
        }
        assert(self@.throughput_history =~= with_sample(before.throughput_history, (rx, tx)));
    }
}

/// What an event in the tray is to the program.
pub fn tray_message(event: TrayEvent) -> (r: Message)
    ensures
        r == (match event {
            TrayEvent::Open => Message::TrayOpen,
            TrayEvent::Quit => Message::TrayQuit,
            TrayEvent::ConnectProfile(name) => Message::TrayConnectProfile(name),
            TrayEvent::Disconnect => Message::TrayDisconnect,
        }),
{
    match event {
        TrayEvent::Open => Message::TrayOpen,
        TrayEvent::Quit => Message::TrayQuit,
        TrayEvent::ConnectProfile(name) => Message::TrayConnectProfile(name),
        TrayEvent::Disconnect => Message::TrayDisconnect,
    }
}

} // verus!
