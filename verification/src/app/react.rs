//! How the state changes when something happens, and what is done then: the rules.

use crate::app::state::{EffectModel, Health, Message, Moment, StateModel};
use crate::app::{BannerKind, BannerModel, EditorField, EditorModel, Screen, SortOrder, TunnelModel};
use crate::config::profile::{PeerModel, ProfileModel, WgProfile};
use crate::error::{AppError, AppResult};
use crate::net::boot::BootAction;
use crate::net::privilege::PrivCmdModel;
use crate::server::{ServerConfig, ServerModel};
use crate::settings::{SettingsModel, ThemeModel};
use crate::tray::TrayCmdModel;
use crate::wg::status::{LiveStatus, LiveStatusModel, PeerStatusModel};
use std::path::PathBuf;
use vstd::prelude::*;

verus! {

/// The state after something happened, and what is done then.
pub type Reaction = (StateModel, Seq<EffectModel>);

/// Nothing is done.
pub open spec fn quiet(s: StateModel) -> Reaction {
    (s, Seq::empty())
}

/// The state with a banner.
pub open spec fn bannered(s: StateModel, kind: BannerKind, message: Seq<char>) -> StateModel {
    StateModel { banner: Some(BannerModel { kind, message }), ..s }
}

/// The state with a banner about an error.
pub open spec fn complained(
    s: StateModel,
    kind: BannerKind,
    head: Seq<char>,
    e: AppError,
) -> StateModel {
    bannered(s, kind, head + e.message())
}

/// The state with a banner that a profile is not there.
pub open spec fn unfound(s: StateModel, name: Seq<char>) -> StateModel {
    bannered(s, BannerKind::Error, "Profile '"@ + name + "' not found"@)
}

// ── profiles ────────────────────────────────────────────────────────────────

/// The first profile of a name.
pub open spec fn found(profiles: Seq<ProfileModel>, name: Seq<char>) -> Option<ProfileModel>
    decreases profiles.len(),
{
    if profiles.len() == 0 {
        None
    } else if profiles[0].name == name {
        Some(profiles[0])
    } else {
        found(profiles.skip(1), name)
    }
}

/// The profiles as an order sorts them.
pub open spec fn sorted_profiles(profiles: Seq<ProfileModel>, order: SortOrder) -> Seq<
    ProfileModel,
> {
    crate::order::arranged(profiles, crate::config::store::name_order(order is NameAsc))
}

/// The names of profiles.
pub open spec fn names(profiles: Seq<ProfileModel>) -> Seq<Seq<char>> {
    profiles.map_values(|p: ProfileModel| p.name)
}

/// Profiles were loaded, or not.
#[verifier::opaque]
pub open spec fn profiles_loaded(
    s: StateModel,
    r: Result<Seq<ProfileModel>, AppError>,
) -> Reaction {
    match r {
        Ok(profiles) => {
            let sorted = sorted_profiles(profiles, s.sort_order);
            (
                StateModel { profiles: sorted, ..s },
                seq![EffectModel::TellTray(TrayCmdModel::SetProfiles(names(sorted)))],
            )
        },
        Err(e) => quiet(complained(s, BannerKind::Error, "Failed to load profiles: "@, e)),
    }
}

// ── the window ──────────────────────────────────────────────────────────────

/// The window is to be shown; where there is none, one is opened.
#[verifier::opaque]
pub open spec fn window_shown(s: StateModel, at: Moment) -> Reaction {
    match s.main_window {
        Some(id) => (s, seq![EffectModel::ShowWindow(id)]),
        None => (
            StateModel { main_window: Some(at.next_window), ..s },
            seq![EffectModel::OpenWindow(at.next_window)],
        ),
    }
}

/// A window was opened. If the program is to start in the tray, the window is hidden, once.
#[verifier::opaque]
pub open spec fn window_opened(s: StateModel, id: u64) -> Reaction {
    let s = StateModel { main_window: Some(id), ..s };
    if s.start_hidden {
        (StateModel { start_hidden: false, ..s }, seq![EffectModel::HideWindow(id)])
    } else {
        quiet(s)
    }
}

// ── the tunnel ──────────────────────────────────────────────────────────────

/// The interface of the tunnel: the one it was last seen under, else the one it is given.
pub open spec fn tunnel_iface(s: StateModel) -> Seq<char> {
    match s.live_status {
        Some(live) => live.interface,
        None => crate::wg::CLIENT_IFACE@,
    }
}

/// The interface to ask about: the one the tunnel was last seen under, else the one it is given
/// while it is up or coming up.
pub open spec fn status_iface(s: StateModel) -> Option<Seq<char>> {
    match s.live_status {
        Some(live) => Some(live.interface),
        None => if s.tunnel_status is Connected || s.tunnel_status is Connecting {
            Some(crate::wg::CLIENT_IFACE@)
        } else {
            None
        },
    }
}

/// The tunnel's figures and the public address are asked for.
pub open spec fn refreshed(s: StateModel) -> Reaction {
    (
        StateModel { public_ip_loading: true, ..s },
        seq![EffectModel::FetchStatus(status_iface(s)), EffectModel::FetchPublicIp],
    )
}

/// Something is done, and then the tunnel's figures and the public address are asked for.
pub open spec fn done_and_refreshed(s: StateModel, done: Seq<EffectModel>) -> Reaction {
    (refreshed(s).0, done + refreshed(s).1)
}

/// The endpoint of the first peer that has one.
pub open spec fn first_endpoint(peers: Seq<PeerModel>) -> Option<Seq<char>>
    decreases peers.len(),
{
    if peers.len() == 0 {
        None
    } else if peers[0].endpoint is Some {
        peers[0].endpoint
    } else {
        first_endpoint(peers.skip(1))
    }
}

/// The operation that arms the kill switch for a profile. There is none where the profile has no
/// endpoint that can be let through: nothing could be reached to reconnect.
pub open spec fn arm_cmd(s: StateModel, name: Seq<char>) -> Option<PrivCmdModel> {
    match found(s.profiles, name) {
        None => None,
        Some(p) => match first_endpoint(p.peers) {
            None => None,
            Some(endpoint) => match crate::app::editor::endpoint_parts(endpoint) {
                None => None,
                Some((host, port)) => Some(
                    PrivCmdModel::KillSwitchArm {
                        iface: tunnel_iface(s),
                        endpoint_ip: host,
                        endpoint_port: port,
                        lan_cidrs: s.settings.destination_split,
                        lease_secs: crate::app::KILL_SWITCH_LEASE_SECS,
                        netns_endpoint_udp: None,
                    },
                ),
            },
        },
    }
}

/// Arming the kill switch.
pub open spec fn arming(cmd: PrivCmdModel) -> EffectModel {
    EffectModel::KillSwitch { armed: true, cmd }
}

/// Lifting the kill switch.
pub open spec fn disarming() -> EffectModel {
    EffectModel::KillSwitch { armed: false, cmd: PrivCmdModel::KillSwitchDisarm }
}

/// The name to show for the tunnel.
pub open spec fn tunnel_name(s: StateModel) -> Seq<char> {
    match s.active_profile {
        Some(name) => name,
        None => "tunnel"@,
    }
}

/// A notification, where they are shown.
pub open spec fn notice(s: StateModel, summary: Seq<char>, body: Seq<char>) -> Seq<EffectModel> {
    if s.notifications_enabled {
        seq![EffectModel::Notify { summary, body }]
    } else {
        Seq::empty()
    }
}

/// A profile is to be connected.
#[verifier::opaque]
pub open spec fn connecting(s: StateModel, name: Seq<char>) -> Reaction {
    match found(s.profiles, name) {
        None => quiet(unfound(s, name)),
        Some(p) => (
            StateModel {
                active_profile: Some(name),
                tunnel_status: TunnelModel::Connecting(name),
                intentional_down: false,
                reconnect_attempt: 0,
                ..s
            },
            seq![EffectModel::Connect(p)],
        ),
    }
}

/// The tunnel is to be taken down.
#[verifier::opaque]
pub open spec fn disconnecting(s: StateModel) -> Reaction {
    (
        StateModel {
            intentional_down: true,
            reconnect_attempt: 0,
            tunnel_status: TunnelModel::Disconnecting,
            ..s
        },
        seq![EffectModel::Disconnect(tunnel_iface(s))],
    )
}

/// The banner where the kill switch cannot be armed.
pub open spec fn unarmed_text() -> Seq<char> {
    "Kill switch enabled but the profile has no peer endpoint to allow through — not armed (would lock you out)."@
}

/// The tunnel has come up.
#[verifier::opaque]
pub open spec fn connected(s: StateModel, at: Moment) -> Reaction {
    let name = tunnel_name(s);
    let up = bannered(
        StateModel {
            tunnel_status: TunnelModel::Connected(name),
            reconnect_attempt: 0,
            connected_since: Some(at.now),
            throughput_history: Seq::empty(),
            usage: crate::stats::store_after_reset(s.usage, name),
            ..s
        },
        BannerKind::Success,
        "Connected to "@ + name,
    );
    let done = seq![
        EffectModel::UpdateTrayIcon(true),
        EffectModel::TellTray(TrayCmdModel::SetConnected(Some(name))),
    ] + notice(s, "WireGuard connected"@, "Connected to "@ + name);
    if s.settings.kill_switch {
        match arm_cmd(up, name) {
            Some(cmd) => done_and_refreshed(up, done.push(arming(cmd))),
            None => done_and_refreshed(bannered(up, BannerKind::Warning, unarmed_text()), done),
        }
    } else {
        done_and_refreshed(up, done)
    }
}

/// The tunnel could not be brought up.
#[verifier::opaque]
pub open spec fn unconnected(s: StateModel, e: AppError) -> Reaction {
    done_and_refreshed(
        complained(
            StateModel {
                tunnel_status: TunnelModel::Error(e.message()),
                connected_since: None,
                ..s
            },
            BannerKind::Error,
            "Connect failed: "@,
            e,
        ),
        seq![EffectModel::UpdateTrayIcon(false)],
    )
}

/// The tunnel has gone down.
#[verifier::opaque]
pub open spec fn disconnected(s: StateModel) -> Reaction {
    let down = bannered(
        StateModel {
            tunnel_status: TunnelModel::Disconnected,
            live_status: None,
            connected_since: None,
            throughput_history: Seq::empty(),
            active_health: None,
            ..s
        },
        BannerKind::Info,
        "Disconnected"@,
    );
    let done = seq![
        EffectModel::UpdateTrayIcon(false),
        EffectModel::TellTray(TrayCmdModel::SetConnected(None)),
    ] + notice(s, "WireGuard disconnected"@, "Disconnected from "@ + tunnel_name(s));
    if s.settings.kill_switch {
        done_and_refreshed(down, done.push(disarming()))
    } else {
        done_and_refreshed(down, done)
    }
}

/// The tunnel could not be taken down.
#[verifier::opaque]
pub open spec fn undisconnected(s: StateModel, e: AppError) -> Reaction {
    refreshed(
        complained(
            StateModel { tunnel_status: TunnelModel::Error(e.message()), ..s },
            BannerKind::Error,
            "Disconnect failed: "@,
            e,
        ),
    )
}

/// The kill switch was armed or lifted, or not.
#[verifier::opaque]
pub open spec fn kill_switch_done(s: StateModel, armed: bool, r: AppResult<()>) -> Reaction {
    quiet(
        match r {
            Ok(()) => if armed {
                bannered(s, BannerKind::Success, "Kill switch armed"@)
            } else {
                bannered(s, BannerKind::Info, "Kill switch disarmed"@)
            },
            Err(e) => if armed {
                complained(s, BannerKind::Error, "Kill switch arm failed: "@, e)
            } else {
                complained(s, BannerKind::Error, "Kill switch disarm failed: "@, e)
            },
        },
    )
}

/// The wait before reconnecting is over.
#[verifier::opaque]
pub open spec fn reconnect_due(s: StateModel, name: Seq<char>) -> Reaction {
    if s.intentional_down {
        quiet(s)
    } else {
        match found(s.profiles, name) {
            None => quiet(s),
            Some(p) => (
                StateModel { tunnel_status: TunnelModel::Connecting(name), ..s },
                seq![EffectModel::Connect(p)],
            ),
        }
    }
}

/// Whether a dropped tunnel would be reconnected: the user wants that and has not disconnected,
/// and a tunnel should be up.
pub open spec fn watching(s: StateModel) -> bool {
    &&& s.settings.auto_reconnect
    &&& !s.intentional_down
    &&& s.tunnel_status is Connected || s.tunnel_status is Connecting || s.tunnel_status is Error
    &&& s.active_profile is Some
}

/// The age of the most recent handshake, as last seen.
pub open spec fn seen_age(s: StateModel, now: u64) -> Option<u64> {
    match s.live_status {
        Some(live) => crate::wg::status::latest_age(live.peers, now),
        None => None,
    }
}

/// Whether the tunnel looks dropped.
pub open spec fn looks_dropped(s: StateModel, now: u64) -> bool {
    crate::net::watchdog::dropped(
        seen_age(s, now),
        s.live_status is Some,
        crate::net::watchdog::DEFAULT_THRESHOLD_SECS,
    )
}

/// The watchdog looks at the tunnel. A dropped one is reconnected after a wait that grows with
/// each attempt; a notification is shown for the first.
#[verifier::opaque]
pub open spec fn watched(s: StateModel, now: u64) -> Reaction {
    if !watching(s) {
        quiet(s)
    } else if !looks_dropped(s, now) {
        quiet(StateModel { reconnect_attempt: 0, ..s })
    } else if s.tunnel_status is Connecting {
        quiet(s)
    } else {
        let name = s.active_profile->0;
        let secs = crate::net::watchdog::backoff_secs(s.reconnect_attempt as nat) as u64;
        let attempt = if s.reconnect_attempt < u32::MAX {
            (s.reconnect_attempt + 1) as u32
        } else {
            u32::MAX
        };
        (
            bannered(
                StateModel { reconnect_attempt: attempt, ..s },
                BannerKind::Warning,
                "Tunnel dropped — reconnecting to "@ + name + " in "@ + crate::text::decimal(
                    secs as nat,
                ) + "s…"@,
            ),
            (if attempt == 1 {
                notice(s, "WireGuard tunnel dropped"@, "Lost connection to "@ + name)
            } else {
                Seq::empty()
            }).push(EffectModel::ReconnectAfter { secs, name }),
        )
    }
}

/// It is time to look at the tunnel.
#[verifier::opaque]
pub open spec fn ticked(s: StateModel, at: Moment) -> Reaction {
    let seen = watched(refreshed(s).0, at.now);
    (seen.0, seen.1 + refreshed(s).1)
}

/// The bytes received over all peers, or the greatest number that fits.
pub open spec fn received(peers: Seq<PeerStatusModel>) -> u64
    decreases peers.len(),
{
    if peers.len() == 0 {
        0
    } else {
        crate::stats::capped_sum(received(peers.drop_last()), peers.last().rx_bytes)
    }
}

/// The bytes sent over all peers, or the greatest number that fits.
pub open spec fn sent(peers: Seq<PeerStatusModel>) -> u64
    decreases peers.len(),
{
    if peers.len() == 0 {
        0
    } else {
        crate::stats::capped_sum(sent(peers.drop_last()), peers.last().tx_bytes)
    }
}

/// The tunnel was seen up, with these figures.
#[verifier::opaque]
pub open spec fn seen_up(s: StateModel, live: LiveStatusModel, now: u64) -> Reaction {
    let reading = (received(live.peers), sent(live.peers));
    (
        StateModel {
            throughput_history: crate::app::state::with_sample(s.throughput_history, reading),
            usage: match s.active_profile {
                Some(name) => crate::stats::store_after_reading(s.usage, name, reading),
                None => s.usage,
            },
            active_health: Some(
                Health { handshake_age: crate::wg::status::latest_age(live.peers, now) },
            ),
            live_status: Some(live),
            ..s
        },
        seq![EffectModel::SaveUsage],
    )
}

/// The tunnel's figures were fetched, or not. That the tools are missing is not reported.
#[verifier::opaque]
pub open spec fn status_fetched(
    s: StateModel,
    r: Result<Option<LiveStatusModel>, AppError>,
    now: u64,
) -> Reaction {
    match r {
        Ok(Some(live)) => seen_up(s, live, now),
        Ok(None) => quiet(StateModel { active_health: None, live_status: None, ..s }),
        Err(e) => if e is WgNotFound {
            quiet(s)
        } else {
            quiet(complained(s, BannerKind::Warning, "Status: "@, e))
        },
    }
}

// ── the editor ──────────────────────────────────────────────────────────────

/// The editor for a new profile.
pub open spec fn new_editor() -> EditorModel {
    let draft = ProfileModel {
        name: Seq::empty(),
        interface: crate::config::profile::empty_interface(),
        peers: Seq::empty(),
        path: None,
    };
    EditorModel {
        profile_name: Seq::empty(),
        draft,
        raw_text: crate::config::profile::conf_text(draft),
        validation_errors: Seq::empty(),
        is_new: true,
    }
}

/// The editor for a profile that is there.
pub open spec fn editor_of(name: Seq<char>, draft: ProfileModel) -> EditorModel {
    EditorModel {
        profile_name: name,
        draft,
        raw_text: crate::config::profile::conf_text(draft),
        validation_errors: crate::config::validate::profile_complaints(draft),
        is_new: false,
    }
}

/// The editor with its text and its complaints as its draft has them.
pub open spec fn in_step(e: EditorModel) -> EditorModel {
    EditorModel {
        raw_text: crate::config::profile::conf_text(e.draft),
        validation_errors: crate::config::validate::profile_complaints(e.draft),
        ..e
    }
}

/// An editor is opened.
#[verifier::opaque]
pub open spec fn opened(s: StateModel, e: EditorModel) -> Reaction {
    (
        StateModel { editor: Some(e), screen: Screen::Editor, ..s },
        seq![EffectModel::SeedRawEditor(e.raw_text)],
    )
}

/// The editor is opened for a profile that is there.
#[verifier::opaque]
pub open spec fn editing(s: StateModel, name: Seq<char>) -> Reaction {
    match found(s.profiles, name) {
        Some(p) => opened(s, editor_of(name, p)),
        None => quiet(unfound(s, name)),
    }
}

/// A field of the editor has changed.
#[verifier::opaque]
pub open spec fn field_changed(s: StateModel, field: EditorField) -> Reaction {
    quiet(
        match s.editor {
            Some(e) => StateModel {
                editor: Some(in_step(crate::app::editor::edited(e, field))),
                ..s
            },
            None => s,
        },
    )
}

/// The editor is closed.
#[verifier::opaque]
pub open spec fn closed(s: StateModel) -> StateModel {
    StateModel { editor: None, screen: Screen::ProfileList, ..s }
}

/// The other one of the two editors is shown.
#[verifier::opaque]
pub open spec fn toggled(s: StateModel) -> Reaction {
    if s.screen is RawEditor {
        quiet(StateModel { screen: Screen::Editor, ..s })
    } else {
        (
            StateModel { screen: Screen::RawEditor, ..s },
            match s.editor {
                Some(e) => seq![EffectModel::SeedRawEditor(e.raw_text)],
                None => Seq::empty(),
            },
        )
    }
}

/// The name under which the editor's text is read.
pub open spec fn editor_name(e: EditorModel) -> Seq<char> {
    if e.profile_name.len() == 0 {
        e.draft.name
    } else {
        e.profile_name
    }
}

/// The text in the raw editor has changed. Where it can be read it becomes the draft, which keeps
/// its path.
#[verifier::opaque]
pub open spec fn raw_changed(s: StateModel, text: Seq<char>) -> StateModel {
    match s.editor {
        None => s,
        Some(e) => {
            let name = editor_name(e);
            let e = EditorModel { raw_text: text, ..e };
            match crate::config::profile::parsed_conf(name, text) {
                Ok(p) => {
                    let draft = ProfileModel { path: e.draft.path, ..p };
                    StateModel {
                        editor: Some(
                            EditorModel {
                                draft,
                                validation_errors: crate::config::validate::profile_complaints(
                                    draft,
                                ),
                                ..e
                            },
                        ),
                        banner: None,
                        ..s
                    }
                },
                Err(detail) => bannered(
                    StateModel { editor: Some(e), ..s },
                    BannerKind::Warning,
                    "Parse error: "@ + ("[E104] failed to parse profile '"@ + name + "': "@
                        + detail),
                ),
            }
        },
    }
}

/// The editor with the name of its draft as typed, where one is typed.
pub open spec fn named(e: EditorModel) -> EditorModel {
    if e.profile_name.len() == 0 {
        e
    } else {
        EditorModel { draft: ProfileModel { name: e.profile_name, ..e.draft }, ..e }
    }
}

/// The draft is to be saved. It is not where something is wrong with it, or it has no name.
#[verifier::opaque]
pub open spec fn saving(s: StateModel) -> Reaction {
    match s.editor {
        None => quiet(s),
        Some(e) => {
            let e = named(e);
            let wrong = crate::config::validate::profile_complaints(e.draft);
            if wrong.len() > 0 {
                quiet(
                    bannered(
                        StateModel {
                            editor: Some(EditorModel { validation_errors: wrong, ..e }),
                            ..s
                        },
                        BannerKind::Error,
                        "Cannot save: fix the validation errors first"@,
                    ),
                )
            } else if crate::text::trimmed(e.draft.name).len() == 0 {
                quiet(
                    bannered(
                        StateModel { editor: Some(e), ..s },
                        BannerKind::Error,
                        "Profile name must not be empty"@,
                    ),
                )
            } else {
                (
                    StateModel { editor: Some(e), ..s },
                    seq![EffectModel::SaveProfile { profile: e.draft, is_new: e.is_new }],
                )
            }
        },
    }
}

/// Keys were generated, or not.
#[verifier::opaque]
pub open spec fn keys_generated(
    s: StateModel,
    r: Result<(Seq<char>, Seq<char>), AppError>,
) -> Reaction {
    match r {
        Ok((private_key, public_key)) => quiet(
            bannered(
                StateModel {
                    editor: match s.editor {
                        Some(e) => Some(
                            in_step(
                                crate::app::editor::with_interface(
                                    e,
                                    crate::config::profile::InterfaceModel {
                                        private_key,
                                        ..e.draft.interface
                                    },
                                ),
                            ),
                        ),
                        None => None,
                    },
                    ..s
                },
                BannerKind::Info,
                "Generated keypair (public key: "@ + public_key + ")"@,
            ),
        ),
        Err(e) => quiet(complained(s, BannerKind::Error, "Keygen failed: "@, e)),
    }
}

/// The profiles are loaded again after a change, which a banner reports.
#[verifier::opaque]
pub open spec fn reloaded(s: StateModel, kind: BannerKind, message: Seq<char>) -> Reaction {
    (bannered(s, kind, message), seq![EffectModel::LoadProfiles])
}

/// The name of the profile to export to a path: the active one, else the one the path is named
/// after.
pub open spec fn export_name(s: StateModel, path: PathBuf) -> Seq<char> {
    match s.active_profile {
        Some(name) => name,
        None => match crate::paths::path_stem(path) {
            Some(stem) => stem,
            None => Seq::empty(),
        },
    }
}

/// A destination for exporting was chosen, or none.
#[verifier::opaque]
pub open spec fn export_chosen(s: StateModel, choice: Option<PathBuf>) -> Reaction {
    match choice {
        Some(path) => (s, seq![EffectModel::Export { name: export_name(s, path), path }]),
        None => quiet(s),
    }
}

/// The dry run of a profile is shown.
#[verifier::opaque]
pub open spec fn plan_opened(s: StateModel, name: Seq<char>) -> Reaction {
    match found(s.profiles, name) {
        Some(p) => quiet(
            StateModel {
                dry_run_plan: Some((p, s.settings.kill_switch)),
                active_profile: Some(name),
                screen: Screen::PlanPreview,
                ..s
            },
        ),
        None => quiet(unfound(s, name)),
    }
}

// ── settings ────────────────────────────────────────────────────────────────

/// Dropped tunnels are to be reconnected, or no longer.
#[verifier::opaque]
pub open spec fn auto_reconnect_toggled(s: StateModel, on: bool) -> Reaction {
    (
        StateModel {
            auto_reconnect: on,
            settings: SettingsModel { auto_reconnect: on, ..s.settings },
            ..s
        },
        seq![EffectModel::SaveSettings],
    )
}

/// The program is to start on login, or no longer.
#[verifier::opaque]
pub open spec fn autostart_toggled(s: StateModel, on: bool) -> Reaction {
    (
        StateModel { settings: SettingsModel { autostart: on, ..s.settings }, ..s },
        seq![EffectModel::ApplyAutostart(on), EffectModel::SaveSettings],
    )
}

/// Another theme is chosen.
#[verifier::opaque]
pub open spec fn theme_changed(s: StateModel, theme: ThemeModel) -> Reaction {
    (
        StateModel { settings: SettingsModel { theme, ..s.settings }, ..s },
        seq![EffectModel::SaveSettings],
    )
}

/// Notifications are to be shown, or no longer.
#[verifier::opaque]
pub open spec fn notifications_toggled(s: StateModel, on: bool) -> Reaction {
    (StateModel { notifications_enabled: on, ..s }, seq![EffectModel::SaveSettings])
}

/// The kill switch is wanted, or no longer. While connected it is armed at once; it is always
/// lifted at once.
#[verifier::opaque]
pub open spec fn kill_switch_toggled(s: StateModel, on: bool) -> Reaction {
    let s = StateModel { settings: SettingsModel { kill_switch: on, ..s.settings }, ..s };
    if on {
        (s, kill_switch_wanted(s))
    } else {
        (s, seq![disarming(), EffectModel::SaveSettings])
    }
}

/// What is done when the kill switch is wanted.
#[verifier::opaque]
pub open spec fn kill_switch_wanted(s: StateModel) -> Seq<EffectModel> {
    if s.tunnel_status is Connected {
        match arm_cmd(s, tunnel_name(s)) {
            Some(cmd) => seq![arming(cmd), EffectModel::SaveSettings],
            None => seq![EffectModel::SaveSettings],
        }
    } else {
        seq![EffectModel::SaveSettings]
    }
}

/// The profile to connect on boot has changed. Connecting on boot is turned on for a new one, and
/// off for the one before where there is no new one.
#[verifier::opaque]
pub open spec fn boot_changed(s: StateModel, choice: Option<Seq<char>>) -> Reaction {
    let after = StateModel {
        settings: SettingsModel { connect_on_boot: choice, ..s.settings },
        ..s
    };
    let boot = match choice {
        Some(profile) => seq![EffectModel::ConfigureBoot { profile, action: BootAction::Enable }],
        None => match s.settings.connect_on_boot {
            Some(profile) => seq![
                EffectModel::ConfigureBoot { profile, action: BootAction::Disable },
            ],
            None => Seq::empty(),
        },
    };
    (after, boot.push(EffectModel::SaveSettings))
}

/// Settings were loaded, or not.
#[verifier::opaque]
pub open spec fn settings_loaded(s: StateModel, r: Result<SettingsModel, AppError>) -> Reaction {
    match r {
        Ok(settings) => quiet(
            StateModel { auto_reconnect: settings.auto_reconnect, settings, ..s },
        ),
        Err(e) => quiet(complained(s, BannerKind::Warning, "Failed to load settings: "@, e)),
    }
}

// ── the server ──────────────────────────────────────────────────────────────

/// The server is to be started, or stopped where it is up.
#[verifier::opaque]
pub open spec fn server_toggled(s: StateModel) -> Reaction {
    match s.server {
        None => quiet(bannered(s, BannerKind::Warning, "No server to start"@)),
        Some(config) => (
            s,
            seq![
                if s.server_running {
                    EffectModel::StopServer
                } else {
                    EffectModel::StartServer(config)
                },
            ],
        ),
    }
}

/// The server was started or stopped, or not.
#[verifier::opaque]
pub open spec fn server_switched(s: StateModel, r: AppResult<()>) -> Reaction {
    match r {
        Ok(()) => quiet(
            bannered(
                StateModel { server_running: !s.server_running, ..s },
                BannerKind::Success,
                "Server "@ + if s.server_running {
                    "stopped"@
                } else {
                    "started"@
                },
            ),
        ),
        Err(e) => quiet(complained(s, BannerKind::Error, "Server op failed: "@, e)),
    }
}

/// Address translation is to be turned on or off.
#[verifier::opaque]
pub open spec fn nat_toggled(s: StateModel, on: bool) -> Reaction {
    match s.server {
        None => quiet(s),
        Some(config) => if on {
            match config.egress_iface {
                Some(egress_iface) => (
                    s,
                    seq![
                        EffectModel::SwitchNat {
                            enabled: true,
                            cmd: PrivCmdModel::NatEnable { subnet: config.subnet, egress_iface },
                        },
                    ],
                ),
                None => quiet(
                    bannered(
                        s,
                        BannerKind::Warning,
                        "No egress interface detected — cannot enable NAT"@,
                    ),
                ),
            }
        } else {
            (s, seq![EffectModel::SwitchNat { enabled: false, cmd: PrivCmdModel::NatDisable }])
        },
    }
}

/// Address translation was turned on or off, or not.
#[verifier::opaque]
pub open spec fn nat_switched(s: StateModel, enabled: bool, r: AppResult<()>) -> Reaction {
    quiet(
        match r {
            Ok(()) => bannered(
                s,
                BannerKind::Success,
                if enabled {
                    "NAT enabled"@
                } else {
                    "NAT disabled"@
                },
            ),
            Err(e) => complained(
                s,
                BannerKind::Error,
                if enabled {
                    "NAT enable failed: "@
                } else {
                    "NAT disable failed: "@
                },
                e,
            ),
        },
    )
}

/// A client of the typed name is to be added. The typed name is taken away, whether or not it is
/// blank.
#[verifier::opaque]
pub open spec fn adding_peer(s: StateModel) -> Reaction {
    match s.server {
        None => quiet(s),
        Some(config) => {
            let name = s.server_peer_name_input;
            let s = StateModel { server_peer_name_input: Seq::empty(), ..s };
            if crate::text::trimmed(name).len() == 0 {
                quiet(bannered(s, BannerKind::Warning, "Enter a client name first"@))
            } else {
                (s, seq![EffectModel::AddPeer { config, name, running: s.server_running }])
            }
        },
    }
}

/// A client was added, or not. What to hand to it is kept.
#[verifier::opaque]
pub open spec fn peer_added(s: StateModel, r: Result<ServerModel, AppError>) -> Reaction {
    match r {
        Ok(config) => quiet(
            bannered(
                StateModel {
                    last_client_conf: if config.peers.len() > 0 {
                        let peer = config.peers.last();
                        Some((peer.name, crate::server::conf::handout_text(config, peer)))
                    } else {
                        s.last_client_conf
                    },
                    server: Some(config),
                    ..s
                },
                BannerKind::Success,
                "Client added"@,
            ),
        ),
        Err(e) => quiet(complained(s, BannerKind::Error, "Add client failed: "@, e)),
    }
}

/// A client is to be removed. What was to be handed to a client is no longer shown.
#[verifier::opaque]
pub open spec fn removing_peer(s: StateModel, idx: usize) -> Reaction {
    match s.server {
        None => quiet(s),
        Some(config) => (
            StateModel { last_client_conf: None, ..s },
            seq![EffectModel::RemovePeer { config, idx, running: s.server_running }],
        ),
    }
}

/// A server that came from somewhere takes its place, with a banner, or an error is reported.
#[verifier::opaque]
pub open spec fn server_set(
    s: StateModel,
    r: AppResult<ServerConfig>,
    kind: BannerKind,
    good: Seq<char>,
    bad: Seq<char>,
) -> Reaction {
    match r {
        Ok(config) => quiet(bannered(StateModel { server: Some(config@), ..s }, kind, good)),
        Err(e) => quiet(complained(s, BannerKind::Error, bad, e)),
    }
}

// ── everything ──────────────────────────────────────────────────────────────

/// A banner reports success, or an error.
#[verifier::opaque]
pub open spec fn reported(
    s: StateModel,
    r: AppResult<()>,
    kind: BannerKind,
    good: Seq<char>,
    bad: Seq<char>,
) -> Reaction {
    match r {
        Ok(()) => quiet(bannered(s, kind, good)),
        Err(e) => quiet(complained(s, BannerKind::Error, bad, e)),
    }
}

/// What a result says.
pub open spec fn result_view<T: View>(r: AppResult<T>) -> Result<T::V, AppError> {
    match r {
        Ok(x) => Ok(x@),
        Err(e) => Err(e),
    }
}

/// The profiles in a result.
pub open spec fn profiles_view(r: AppResult<Vec<WgProfile>>) -> Result<
    Seq<ProfileModel>,
    AppError,
> {
    match r {
        Ok(v) => Ok(crate::config::store::profile_views(v@)),
        Err(e) => Err(e),
    }
}

/// The keys in a result.
pub open spec fn keys_view(r: AppResult<(String, String)>) -> Result<
    (Seq<char>, Seq<char>),
    AppError,
> {
    match r {
        Ok((private_key, public_key)) => Ok((private_key@, public_key@)),
        Err(e) => Err(e),
    }
}

/// The live figures in a result.
pub open spec fn fetched_view(r: AppResult<Option<LiveStatus>>) -> Result<
    Option<LiveStatusModel>,
    AppError,
> {
    match r {
        Ok(o) => Ok(crate::app::state::opt(o)),
        Err(e) => Err(e),
    }
}

/// What messages are about.
#[derive(Debug, Clone, Copy, PartialEq, Eq, Structural)]
pub enum Topic {
    /// The window, the tray and the start.
    Program,
    /// The list of profiles.
    Profiles,
    /// The tunnel.
    Tunnel,
    /// The editor.
    Editing,
    /// The settings.
    Settings,
    /// The server.
    Server,
    /// The server's clients.
    Clients,
}

/// What a message is about.
pub open spec fn topic_of(message: Message) -> Topic {
    match message {
        Message::SettingsLoaded(_) => Topic::Program,
        Message::UsageLoaded(_) => Topic::Program,
        Message::RaiseWindowRequested => Topic::Program,
        Message::TrayOpen => Topic::Program,
        Message::TrayQuit => Topic::Program,
        Message::WindowCloseRequested(_) => Topic::Program,
        Message::WindowOpened(_) => Topic::Program,
        Message::PublicIpFetched(_) => Topic::Program,
        Message::OpenSettings => Topic::Program,
        Message::GoHome => Topic::Program,
        Message::DismissBanner => Topic::Program,
        Message::OpenPlanPreview(_) => Topic::Program,
        Message::ProfilesLoaded(_) => Topic::Profiles,
        Message::SearchChanged(_) => Topic::Profiles,
        Message::SortChanged(_) => Topic::Profiles,
        Message::SelectProfile(_) => Topic::Profiles,
        Message::DeleteProfile(_) => Topic::Profiles,
        Message::DeleteResult(_) => Topic::Profiles,
        Message::ImportProfile => Topic::Profiles,
        Message::ImportFileChosen(_) => Topic::Profiles,
        Message::ImportResult(_) => Topic::Profiles,
        Message::ImportFromQr => Topic::Profiles,
        Message::ImportFromQrChosen(_) => Topic::Profiles,
        Message::ExportProfile(_) => Topic::Profiles,
        Message::ExportFileChosen(_) => Topic::Profiles,
        Message::ExportResult(_) => Topic::Profiles,
        Message::TrayConnectProfile(_) => Topic::Tunnel,
        Message::TrayDisconnect => Topic::Tunnel,
        Message::ConnectProfile(_) => Topic::Tunnel,
        Message::DisconnectCurrent => Topic::Tunnel,
        Message::ConnectResult(_) => Topic::Tunnel,
        Message::DisconnectResult(_) => Topic::Tunnel,
        Message::KillSwitchResult { .. } => Topic::Tunnel,
        Message::ReconnectTick(_) => Topic::Tunnel,
        Message::StatusTick => Topic::Tunnel,
        Message::StatusFetched(_) => Topic::Tunnel,
        Message::OpenNewProfile => Topic::Editing,
        Message::EditProfile(_) => Topic::Editing,
        Message::EditorFieldChanged(_) => Topic::Editing,
        Message::EditorToggleRaw => Topic::Editing,
        Message::RawEditorAction(_) => Topic::Editing,
        Message::EditorSave => Topic::Editing,
        Message::EditorSaveResult(_) => Topic::Editing,
        Message::EditorCancel => Topic::Editing,
        Message::GenerateKeypair => Topic::Editing,
        Message::KeypairGenerated(_) => Topic::Editing,
        Message::SettingAutoReconnectToggled(_) => Topic::Settings,
        Message::SettingAutoStartToggled(_) => Topic::Settings,
        Message::AutostartApplied(_) => Topic::Settings,
        Message::SettingKillSwitchToggled(_) => Topic::Settings,
        Message::SettingConnectOnBootChanged(_) => Topic::Settings,
        Message::BootConfigResult(_) => Topic::Settings,
        Message::SettingThemeChanged(_) => Topic::Settings,
        Message::SettingNotificationsToggled(_) => Topic::Settings,
        Message::SettingsSaved(_) => Topic::Settings,
        Message::OpenServer => Topic::Server,
        Message::ServerLoadResult(_) => Topic::Server,
        Message::ServerCreate(_) => Topic::Server,
        Message::ServerCreateResult(_) => Topic::Server,
        Message::ServerStartToggle => Topic::Server,
        Message::ServerOpResult(_) => Topic::Server,
        Message::ServerNatToggle(_) => Topic::Server,
        Message::ServerNatResult { .. } => Topic::Server,
        Message::ServerPeerNameChanged(_) => Topic::Clients,
        Message::ServerAddPeer => Topic::Clients,
        Message::ServerAddPeerResult(_) => Topic::Clients,
        Message::ServerRemovePeer(_) => Topic::Clients,
        Message::ServerRemovePeerResult(_) => Topic::Clients,
        Message::ServerStatusTick => Topic::Clients,
        Message::ServerStatusResult(_) => Topic::Clients,
    }
}

/// How the state changes by a message about the window, the tray and the start, and what is done then.
#[verifier::opaque]
pub open spec fn react_program(s: StateModel, message: Message, at: Moment) -> Reaction {
    match message {
        Message::SettingsLoaded(r) => settings_loaded(s, result_view(r)),
        Message::UsageLoaded(r) => match r {
            Ok(store) => quiet(StateModel { usage: store@, ..s }),
            Err(e) => quiet(complained(s, BannerKind::Warning, "Failed to load usage: "@, e)),
        },
        Message::RaiseWindowRequested => window_shown(s, at),
        Message::TrayOpen => window_shown(s, at),
        Message::TrayQuit => (s, seq![EffectModel::Exit]),
        Message::WindowCloseRequested(id) => (
            StateModel { main_window: Some(id), ..s },
            seq![EffectModel::HideWindow(id)],
        ),
        Message::WindowOpened(id) => window_opened(s, id),
        Message::PublicIpFetched(r) => quiet(
            StateModel {
                public_ip_loading: false,
                public_ip: match r {
                    Ok(ip) => Some(ip@),
                    Err(_) => None,
                },
                ..s
            },
        ),
        Message::OpenSettings => quiet(StateModel { screen: Screen::Settings, ..s }),
        Message::GoHome => quiet(
            StateModel { screen: Screen::ProfileList, dry_run_plan: None, ..s },
        ),
        Message::DismissBanner => quiet(StateModel { banner: None, ..s }),
        Message::OpenPlanPreview(name) => plan_opened(s, name@),
        _ => quiet(s),
    }
}

/// How the state changes by a message about the list of profiles, and what is done then.
#[verifier::opaque]
pub open spec fn react_profiles(s: StateModel, message: Message) -> Reaction {
    match message {
        Message::ProfilesLoaded(r) => profiles_loaded(s, profiles_view(r)),
        Message::SearchChanged(q) => quiet(StateModel { search_query: q@, ..s }),
        Message::SortChanged(order) => quiet(
            StateModel {
                sort_order: order,
                profiles: sorted_profiles(s.profiles, order),
                ..s
            },
        ),
        Message::SelectProfile(name) => quiet(StateModel { active_profile: Some(name@), ..s }),
        Message::DeleteProfile(name) => (s, seq![EffectModel::DeleteProfile(name@)]),
        Message::DeleteResult(r) => match r {
            Ok(()) => reloaded(s, BannerKind::Info, "Profile deleted"@),
            Err(e) => quiet(complained(s, BannerKind::Error, "Delete failed: "@, e)),
        },
        Message::ImportProfile => (s, seq![EffectModel::PickImportFile]),
        Message::ImportFileChosen(choice) => match choice {
            Some(path) => (s, seq![EffectModel::Import(path)]),
            None => quiet(s),
        },
        Message::ImportResult(r) => match r {
            Ok(p) => reloaded(s, BannerKind::Success, "Imported '"@ + p@.name + "'"@),
            Err(e) => quiet(complained(s, BannerKind::Error, "Import failed: "@, e)),
        },
        Message::ImportFromQr => (s, seq![EffectModel::PickQrImage]),
        Message::ImportFromQrChosen(choice) => match choice {
            Some(path) => (s, seq![EffectModel::ImportQr(path)]),
            None => quiet(s),
        },
        Message::ExportProfile(name) => (s, seq![EffectModel::PickExportFile(name@)]),
        Message::ExportFileChosen(choice) => export_chosen(s, choice),
        Message::ExportResult(r) => reported(
            s,
            r,
            BannerKind::Success,
            "Exported profile"@,
            "Export failed: "@,
        ),
        _ => quiet(s),
    }
}

/// How the state changes by a message about the tunnel, and what is done then.
#[verifier::opaque]
pub open spec fn react_tunnel(s: StateModel, message: Message, at: Moment) -> Reaction {
    match message {
        Message::TrayConnectProfile(name) => connecting(s, name@),
        Message::TrayDisconnect => disconnecting(s),
        Message::ConnectProfile(name) => connecting(s, name@),
        Message::DisconnectCurrent => disconnecting(s),
        Message::ConnectResult(r) => match r {
            Ok(()) => connected(s, at),
            Err(e) => unconnected(s, e),
        },
        Message::DisconnectResult(r) => match r {
            Ok(()) => disconnected(s),
            Err(e) => undisconnected(s, e),
        },
        Message::KillSwitchResult { armed, result } => kill_switch_done(s, armed, result),
        Message::ReconnectTick(name) => reconnect_due(s, name@),
        Message::StatusTick => ticked(s, at),
        Message::StatusFetched(r) => status_fetched(s, fetched_view(r), at.now),
        _ => quiet(s),
    }
}

/// How the state changes by a message about the editor, and what is done then.
#[verifier::opaque]
pub open spec fn react_editing(s: StateModel, message: Message) -> Reaction {
    match message {
        Message::OpenNewProfile => opened(s, new_editor()),
        Message::EditProfile(name) => editing(s, name@),
        Message::EditorFieldChanged(field) => field_changed(s, field),
        Message::EditorToggleRaw => toggled(s),
        Message::RawEditorAction(text) => quiet(raw_changed(s, text@)),
        Message::EditorSave => saving(s),
        Message::EditorSaveResult(r) => match r {
            Ok(p) => reloaded(closed(s), BannerKind::Success, "Saved '"@ + p@.name + "'"@),
            Err(e) => quiet(complained(s, BannerKind::Error, "Save failed: "@, e)),
        },
        Message::EditorCancel => quiet(StateModel { banner: None, ..closed(s) }),
        Message::GenerateKeypair => (s, seq![EffectModel::GenerateKeypair]),
        Message::KeypairGenerated(r) => keys_generated(s, keys_view(r)),
        _ => quiet(s),
    }
}

/// How the state changes by a message about the settings, and what is done then.
#[verifier::opaque]
pub open spec fn react_settings(s: StateModel, message: Message) -> Reaction {
    match message {
        Message::SettingAutoReconnectToggled(on) => auto_reconnect_toggled(s, on),
        Message::SettingAutoStartToggled(on) => autostart_toggled(s, on),
        Message::AutostartApplied(r) => match r {
            Ok(()) => quiet(s),
            Err(e) => quiet(complained(s, BannerKind::Error, "Autostart: "@, e)),
        },
        Message::SettingKillSwitchToggled(on) => kill_switch_toggled(s, on),
        Message::SettingConnectOnBootChanged(choice) => boot_changed(
            s,
            crate::app::state::opt(choice),
        ),
        Message::BootConfigResult(r) => reported(
            s,
            r,
            BannerKind::Success,
            "Connect-on-boot updated"@,
            "Connect-on-boot update failed: "@,
        ),
        Message::SettingThemeChanged(theme) => theme_changed(s, theme@),
        Message::SettingNotificationsToggled(on) => notifications_toggled(s, on),
        Message::SettingsSaved(r) => match r {
            Ok(()) => quiet(s),
            Err(e) => quiet(complained(s, BannerKind::Error, "Save settings failed: "@, e)),
        },
        _ => quiet(s),
    }
}

/// How the state changes by a message about the server, and what is done then.
#[verifier::opaque]
pub open spec fn react_server(s: StateModel, message: Message) -> Reaction {
    match message {
        Message::OpenServer => (
            StateModel { screen: Screen::Server, ..s },
            if s.server is None {
                seq![EffectModel::LoadServer]
            } else {
                Seq::empty()
            },
        ),
        Message::ServerLoadResult(r) => match r {
            Ok(Some(config)) => quiet(StateModel { server: Some(config@), ..s }),
            Ok(None) => quiet(s),
            Err(e) => quiet(complained(s, BannerKind::Warning, "Load server failed: "@, e)),
        },
        Message::ServerCreate(host) => (s, seq![EffectModel::CreateServer(host@)]),
        Message::ServerCreateResult(r) => server_set(
            s,
            r,
            BannerKind::Success,
            "Server created"@,
            "Create server failed: "@,
        ),
        Message::ServerStartToggle => server_toggled(s),
        Message::ServerOpResult(r) => server_switched(s, r),
        Message::ServerNatToggle(on) => nat_toggled(s, on),
        Message::ServerNatResult { enabled, result } => nat_switched(s, enabled, result),
        _ => quiet(s),
    }
}

/// How the state changes by a message about the server's clients, and what is done then.
#[verifier::opaque]
pub open spec fn react_clients(s: StateModel, message: Message) -> Reaction {
    match message {
        Message::ServerPeerNameChanged(name) => quiet(
            StateModel { server_peer_name_input: name@, ..s },
        ),
        Message::ServerAddPeer => adding_peer(s),
        Message::ServerAddPeerResult(r) => peer_added(s, result_view(r)),
        Message::ServerRemovePeer(idx) => removing_peer(s, idx),
        Message::ServerRemovePeerResult(r) => server_set(
            s,
            r,
            BannerKind::Info,
            "Client removed"@,
            "Remove client failed: "@,
        ),
        Message::ServerStatusTick => match s.server {
            Some(config) => if s.server_running {
                (s, seq![EffectModel::FetchServerStatus(config)])
            } else {
                quiet(s)
            },
            None => quiet(s),
        },
        Message::ServerStatusResult(r) => match r {
            Ok(peers) => quiet(
                StateModel { server_peer_status: crate::wg::status::status_views(peers@), ..s },
            ),
            Err(e) => quiet(complained(s, BannerKind::Warning, "Server status: "@, e)),
        },
        _ => quiet(s),
    }
}

/// How the state changes when something happens, and what is done then.
pub open spec fn react(s: StateModel, message: Message, at: Moment) -> Reaction {
    match topic_of(message) {
        Topic::Program => react_program(s, message, at),
        Topic::Profiles => react_profiles(s, message),
        Topic::Tunnel => react_tunnel(s, message, at),
        Topic::Editing => react_editing(s, message),
        Topic::Settings => react_settings(s, message),
        Topic::Server => react_server(s, message),
        Topic::Clients => react_clients(s, message),
    }
}

} // verus!
