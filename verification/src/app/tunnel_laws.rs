//! What connecting, watching and disconnecting a tunnel does.

use crate::app::state::{Effect, EffectModel, Message, Moment, State, StateModel};
use crate::app::{BannerKind, BannerModel, TunnelModel};
use crate::config::profile::{PeerModel, ProfileModel};
use crate::error::{AppError, AppResult};
use crate::net::privilege::PrivCmdModel;
use crate::tray::TrayCmdModel;
use crate::wg::status::LiveStatus;
use vstd::prelude::*;

verus! {

// ── finding ─────────────────────────────────────────────────────────────────

/// The profile of a name is the first that has it; there is none exactly where none has it.
pub proof fn law_profiles_are_found_by_name(profiles: Seq<ProfileModel>, name: Seq<char>)
    ensures
        match crate::app::react::found(profiles, name) {
            Some(p) => p.name == name && exists|i: int|
                0 <= i < profiles.len() && #[trigger] profiles[i] == p && forall|j: int|
                    0 <= j < i ==> (#[trigger] profiles[j]).name != name,
            None => forall|i: int| 0 <= i < profiles.len() ==> (#[trigger] profiles[i]).name != name,
        },
    decreases profiles.len(),
{
    if profiles.len() > 0 {
        let rest = profiles.skip(1);
        law_profiles_are_found_by_name(rest, name);
        if profiles[0].name != name {
            match crate::app::react::found(rest, name) {
                Some(p) => {
                    let i = choose|i: int|
                        0 <= i < rest.len() && #[trigger] rest[i] == p && forall|j: int|
                            0 <= j < i ==> (#[trigger] rest[j]).name != name;
                    assert(profiles[i + 1] == p);
                    assert forall|j: int| 0 <= j < i + 1 implies (#[trigger] profiles[j]).name
                        != name by {
                        if j > 0 {
                            assert(profiles[j] == rest[j - 1]);
                        }
                    }
                },
                None => {
                    assert forall|i: int| 0 <= i < profiles.len() implies (
                    #[trigger] profiles[i]).name != name by {
                        if i > 0 {
                            assert(profiles[i] == rest[i - 1]);
                        }
                    }
                },
            }
        } else {
            assert(profiles[0] == crate::app::react::found(profiles, name)->0);
        }
    }
}

/// The endpoint of a profile is that of its first peer with one.
pub proof fn law_the_first_endpoint_counts(peers: Seq<PeerModel>)
    ensures
        match crate::app::react::first_endpoint(peers) {
            Some(e) => exists|i: int|
                0 <= i < peers.len() && (#[trigger] peers[i]).endpoint == Some(e) && forall|j: int|
                    0 <= j < i ==> (#[trigger] peers[j]).endpoint is None,
            None => forall|i: int| 0 <= i < peers.len() ==> (#[trigger] peers[i]).endpoint is None,
        },
    decreases peers.len(),
{
    if peers.len() > 0 {
        let rest = peers.skip(1);
        law_the_first_endpoint_counts(rest);
        if peers[0].endpoint is None {
            match crate::app::react::first_endpoint(rest) {
                Some(e) => {
                    let i = choose|i: int|
                        0 <= i < rest.len() && (#[trigger] rest[i]).endpoint == Some(e)
                            && forall|j: int| 0 <= j < i ==> (#[trigger] rest[j]).endpoint is None;
                    assert(peers[i + 1] == rest[i]);
                    assert forall|j: int| 0 <= j < i + 1 implies (
                    #[trigger] peers[j]).endpoint is None by {
                        if j > 0 {
                            assert(peers[j] == rest[j - 1]);
                        }
                    }
                },
                None => {
                    assert forall|i: int| 0 <= i < peers.len() implies (
                    #[trigger] peers[i]).endpoint is None by {
                        if i > 0 {
                            assert(peers[i] == rest[i - 1]);
                        }
                    }
                },
            }
        }
    }
}

// ── connecting ──────────────────────────────────────────────────────────────

/// Whether nothing but what is known of the tunnel, the banner and the usage differs between two
/// states.
pub open spec fn only_tunnel(s: StateModel, after: StateModel) -> bool {
    after == (StateModel {
        active_profile: after.active_profile,
        tunnel_status: after.tunnel_status,
        live_status: after.live_status,
        public_ip_loading: after.public_ip_loading,
        banner: after.banner,
        intentional_down: after.intentional_down,
        reconnect_attempt: after.reconnect_attempt,
        connected_since: after.connected_since,
        throughput_history: after.throughput_history,
        usage: after.usage,
        active_health: after.active_health,
        ..s
    })
}

/// Messages about the tunnel change nothing but what is known of the tunnel, the banner and the
/// usage: no profile, no setting, no screen.
pub proof fn law_the_tunnel_touches_nothing_else(s: StateModel, message: Message, at: Moment)
    requires
        crate::app::react::topic_of(message) is Tunnel,
    ensures
        only_tunnel(s, crate::app::react::react(s, message, at).0),
{
    reveal(crate::app::react::react_tunnel);
    match message {
        Message::ConnectResult(Ok(_)) => {
            reveal(crate::app::react::connected);
        },
        Message::ConnectResult(Err(_)) => {
            reveal(crate::app::react::unconnected);
        },
        Message::DisconnectResult(Ok(_)) => {
            reveal(crate::app::react::disconnected);
        },
        Message::DisconnectResult(Err(_)) => {
            reveal(crate::app::react::undisconnected);
        },
        Message::StatusTick => {
            reveal(crate::app::react::ticked);
            reveal(crate::app::react::watched);
        },
        Message::StatusFetched(_) => {
            reveal(crate::app::react::status_fetched);
            reveal(crate::app::react::seen_up);
        },
        Message::KillSwitchResult { .. } => {
            reveal(crate::app::react::kill_switch_done);
        },
        Message::ReconnectTick(_) => {
            reveal(crate::app::react::reconnect_due);
        },
        _ => {
            reveal(crate::app::react::connecting);
            reveal(crate::app::react::disconnecting);
        },
    }
}

/// Connecting brings up the profile that was asked for, which is then the active one, and takes
/// back that the user had disconnected. A profile that is not there is reported, and nothing else
/// happens.
pub proof fn law_connecting_brings_up_what_was_asked_for(s: StateModel, name: String, at: Moment)
    ensures
        ({
            let r = crate::app::react::react(s, Message::ConnectProfile(name), at);
            match crate::app::react::found(s.profiles, name@) {
                Some(p) => r.1 == seq![EffectModel::Connect(p)] && p.name == name@
                    && r.0.tunnel_status == TunnelModel::Connecting(name@) && r.0.active_profile
                    == Some(name@) && !r.0.intentional_down && r.0.reconnect_attempt == 0
                    && r.0.banner == s.banner && r.0.live_status == s.live_status,
                None => r.1.len() == 0 && r.0 == (StateModel {
                    banner: Some(
                        BannerModel {
                            kind: BannerKind::Error,
                            message: "Profile '"@ + name@ + "' not found"@,
                        },
                    ),
                    ..s
                }),
            }
        }),
{
    reveal(crate::app::react::react_tunnel);
    reveal(crate::app::react::connecting);
    law_profiles_are_found_by_name(s.profiles, name@);
}

/// The name that the tunnel goes by: that of the active profile.
pub open spec fn goes_by(s: StateModel) -> Seq<char> {
    match s.active_profile {
        Some(name) => name,
        None => "tunnel"@,
    }
}

/// A tunnel that came up is the active profile's; it is shown as connected everywhere, from now on,
/// with its counts starting afresh, and the user hears of it where notifications are shown.
pub proof fn law_a_tunnel_that_came_up_is_shown(s: StateModel, at: Moment)
    ensures
        ({
            let r = crate::app::react::react(s, Message::ConnectResult(Ok(())), at);
            let name = goes_by(s);
            &&& r.0.tunnel_status == TunnelModel::Connected(name)
            &&& r.0.connected_since == Some(at.now)
            &&& r.0.reconnect_attempt == 0
            &&& r.0.throughput_history.len() == 0
            &&& r.0.usage == crate::stats::store_after_reset(s.usage, name)
            &&& r.0.active_profile == s.active_profile
            &&& r.0.intentional_down == s.intentional_down
            &&& r.0.live_status == s.live_status && r.0.active_health == s.active_health
            &&& r.0.public_ip_loading
            &&& r.1.contains(EffectModel::UpdateTrayIcon(true))
            &&& r.1.contains(EffectModel::TellTray(TrayCmdModel::SetConnected(Some(name))))
            &&& r.1.contains(EffectModel::FetchPublicIp)
            &&& s.notifications_enabled ==> r.1.contains(
                EffectModel::Notify {
                    summary: "WireGuard connected"@,
                    body: "Connected to "@ + name,
                },
            )
            &&& !s.notifications_enabled ==> forall|i: int|
                0 <= i < r.1.len() ==> !((#[trigger] r.1[i]) is Notify)
            &&& !s.settings.kill_switch ==> r.0.banner == Some(
                BannerModel { kind: BannerKind::Success, message: "Connected to "@ + name },
            )
        }),
{
    reveal(crate::app::react::react_tunnel);
    reveal(crate::app::react::connected);
    let r = crate::app::react::react(s, Message::ConnectResult(Ok(())), at);
    assert(r.1[0] == EffectModel::UpdateTrayIcon(true));
    assert(r.1[1] == EffectModel::TellTray(TrayCmdModel::SetConnected(Some(goes_by(s)))));
    assert(r.1.last() == EffectModel::FetchPublicIp);
    if s.notifications_enabled {
        assert(r.1[2] is Notify);
    }
}

/// Whether an effect arms the kill switch on `iface` for the endpoint `host` and `port`.
pub open spec fn arms_for(
    e: EffectModel,
    iface: Seq<char>,
    host: Seq<char>,
    port: u16,
    lan: Seq<Seq<char>>,
) -> bool {
    e == (EffectModel::KillSwitch {
        armed: true,
        cmd: PrivCmdModel::KillSwitchArm {
            iface,
            endpoint_ip: host,
            endpoint_port: port,
            lan_cidrs: lan,
            lease_secs: 3600,
            netns_endpoint_udp: None,
        },
    })
}

/// The interface that the tunnel is on, as far as is known.
pub open spec fn on_iface(s: StateModel) -> Seq<char> {
    match s.live_status {
        Some(live) => live.interface,
        None => "wg-gui0"@,
    }
}

/// While the user wants the kill switch, coming up arms it, on the tunnel's interface, for the
/// endpoint of the profile that came up, with the local networks of the settings left reachable and
/// for an hour. Where there is no endpoint to let through it is not armed, and the user is warned.
/// While the user does not want it, it is not armed.
pub proof fn law_coming_up_arms_the_kill_switch(
    s: StateModel,
    at: Moment,
    p: ProfileModel,
    endpoint: Seq<char>,
    host: Seq<char>,
    port: u16,
)
    requires
        crate::app::react::found(s.profiles, goes_by(s)) == Some(p),
        crate::app::react::first_endpoint(p.peers) == Some(endpoint),
        crate::app::editor::endpoint_parts(endpoint) == Some((host, port)),
    ensures
        ({
            let r = crate::app::react::react(s, Message::ConnectResult(Ok(())), at);
            let on = crate::app::react::react(s, Message::SettingKillSwitchToggled(true), at);
            let n = r.1.len() as int;
            &&& s.settings.kill_switch ==> n >= 3 && arms_for(
                r.1[n - 3],
                on_iface(s),
                host,
                port,
                s.settings.destination_split,
            )
            &&& s.settings.kill_switch ==> r.0.banner == Some(
                BannerModel { kind: BannerKind::Success, message: "Connected to "@ + goes_by(s) },
            )
            &&& !s.settings.kill_switch ==> forall|i: int|
                0 <= i < n ==> !((#[trigger] r.1[i]) is KillSwitch)
            &&& s.tunnel_status is Connected ==> arms_for(
                on.1[0],
                on_iface(s),
                host,
                port,
                s.settings.destination_split,
            )
            &&& !(s.tunnel_status is Connected) ==> forall|i: int|
                0 <= i < on.1.len() ==> !((#[trigger] on.1[i]) is KillSwitch)
        }),
{
    reveal(crate::app::react::react_tunnel);
    reveal(crate::app::react::react_settings);
    reveal(crate::app::react::connected);
    reveal(crate::app::react::kill_switch_toggled);
    reveal(crate::app::react::kill_switch_wanted);
}

/// Where the profile that came up is not known or has no endpoint that can be let through, the kill
/// switch is not armed, and the user is warned.
pub proof fn law_nobody_is_locked_out(s: StateModel, at: Moment)
    requires
        s.settings.kill_switch,
        match crate::app::react::found(s.profiles, goes_by(s)) {
            None => true,
            Some(p) => match crate::app::react::first_endpoint(p.peers) {
                None => true,
                Some(endpoint) => crate::app::editor::endpoint_parts(endpoint) is None,
            },
        },
    ensures
        ({
            let r = crate::app::react::react(s, Message::ConnectResult(Ok(())), at);
            &&& forall|i: int| 0 <= i < r.1.len() ==> !((#[trigger] r.1[i]) is KillSwitch)
            &&& r.0.banner == Some(
                BannerModel {
                    kind: BannerKind::Warning,
                    message: "Kill switch enabled but the profile has no peer endpoint to allow through — not armed (would lock you out)."@,
                },
            )
            &&& r.0.tunnel_status is Connected
        }),
{
    reveal(crate::app::react::react_tunnel);
    reveal(crate::app::react::connected);
}

/// A tunnel that could not be brought up is shown as failed, with the reason, and as not connected
/// in the tray. That the user wants it up is not forgotten, nor which profile it is, nor how often
/// it was tried.
pub proof fn law_a_failed_connection_is_reported(s: StateModel, e: AppError, at: Moment)
    ensures
        ({
            let r = crate::app::react::react(s, Message::ConnectResult(Err(e)), at);
            &&& r.0.tunnel_status == TunnelModel::Error(e.message())
            &&& r.0.connected_since is None
            &&& r.0.banner == Some(
                BannerModel {
                    kind: BannerKind::Error,
                    message: "Connect failed: "@ + e.message(),
                },
            )
            &&& r.0.active_profile == s.active_profile
            &&& r.0.intentional_down == s.intentional_down
            &&& r.0.reconnect_attempt == s.reconnect_attempt
            &&& r.0.live_status == s.live_status && r.0.usage == s.usage
            &&& r.1.contains(EffectModel::UpdateTrayIcon(false))
            &&& !r.1.contains(EffectModel::UpdateTrayIcon(true))
        }),
{
    reveal(crate::app::react::react_tunnel);
    reveal(crate::app::react::unconnected);
    let r = crate::app::react::react(s, Message::ConnectResult(Err(e)), at);
    assert(r.1[0] == EffectModel::UpdateTrayIcon(false));
}

// ── disconnecting ───────────────────────────────────────────────────────────

/// Disconnecting takes down the interface that the tunnel is on, and the user is known to want that.
pub proof fn law_disconnecting_takes_the_tunnel_down(s: StateModel, at: Moment)
    ensures
        ({
            let r = crate::app::react::react(s, Message::DisconnectCurrent, at);
            &&& r.0.intentional_down
            &&& r.0.tunnel_status is Disconnecting
            &&& r.0.reconnect_attempt == 0
            &&& r.0.active_profile == s.active_profile && r.0.live_status == s.live_status
            &&& r.1 == seq![EffectModel::Disconnect(on_iface(s))]
        }),
{
    reveal(crate::app::react::react_tunnel);
    reveal(crate::app::react::disconnecting);
}

/// A tunnel that has gone down is shown as disconnected everywhere, nothing is known of it any more,
/// and the kill switch is lifted where the user has it on: the host can reach the world again.
pub proof fn law_going_down_lifts_the_kill_switch(s: StateModel, at: Moment)
    ensures
        ({
            let r = crate::app::react::react(s, Message::DisconnectResult(Ok(())), at);
            let lift = EffectModel::KillSwitch { armed: false, cmd: PrivCmdModel::KillSwitchDisarm };
            &&& r.0.tunnel_status is Disconnected
            &&& r.0.live_status is None && r.0.connected_since is None
                && r.0.active_health is None && r.0.throughput_history.len() == 0
            &&& r.0.intentional_down == s.intentional_down
            &&& r.0.active_profile == s.active_profile && r.0.usage == s.usage
            &&& r.0.banner == Some(
                BannerModel { kind: BannerKind::Info, message: "Disconnected"@ },
            )
            &&& r.1.contains(EffectModel::UpdateTrayIcon(false))
            &&& r.1.contains(EffectModel::TellTray(TrayCmdModel::SetConnected(None)))
            &&& s.notifications_enabled ==> r.1.contains(
                EffectModel::Notify {
                    summary: "WireGuard disconnected"@,
                    body: "Disconnected from "@ + goes_by(s),
                },
            )
            &&& s.settings.kill_switch ==> r.1.contains(lift)
            &&& !s.settings.kill_switch ==> !r.1.contains(lift)
        }),
{
    reveal(crate::app::react::react_tunnel);
    reveal(crate::app::react::disconnected);
    let r = crate::app::react::react(s, Message::DisconnectResult(Ok(())), at);
    let n = r.1.len() as int;
    assert(r.1[0] == EffectModel::UpdateTrayIcon(false));
    assert(r.1[1] == EffectModel::TellTray(TrayCmdModel::SetConnected(None)));
    if s.notifications_enabled {
        assert(r.1[2] is Notify);
    }
    if s.settings.kill_switch {
        assert(r.1[n - 3] is KillSwitch);
    }
}

/// A tunnel that could not be taken down is reported and not taken for gone: what was known of it
/// stays, and the kill switch is not lifted.
pub proof fn law_a_tunnel_that_stays_up_is_not_forgotten(s: StateModel, e: AppError, at: Moment)
    ensures
        ({
            let r = crate::app::react::react(s, Message::DisconnectResult(Err(e)), at);
            &&& r.0.tunnel_status == TunnelModel::Error(e.message())
            &&& r.0.banner == Some(
                BannerModel {
                    kind: BannerKind::Error,
                    message: "Disconnect failed: "@ + e.message(),
                },
            )
            &&& r.0.live_status == s.live_status && r.0.intentional_down == s.intentional_down
                && r.0.connected_since == s.connected_since
            &&& forall|i: int| 0 <= i < r.1.len() ==> !((#[trigger] r.1[i]) is KillSwitch)
        }),
{
    reveal(crate::app::react::react_tunnel);
    reveal(crate::app::react::undisconnected);
}

/// What came of arming or lifting the kill switch is said, and changes nothing else.
pub proof fn law_the_kill_switch_is_reported(
    s: StateModel,
    armed: bool,
    result: AppResult<()>,
    at: Moment,
)
    ensures
        ({
            let r = crate::app::react::react(s, Message::KillSwitchResult { armed, result }, at);
            let says = match result {
                Ok(()) => if armed {
                    "Kill switch armed"@
                } else {
                    "Kill switch disarmed"@
                },
                Err(e) => if armed {
                    "Kill switch arm failed: "@ + e.message()
                } else {
                    "Kill switch disarm failed: "@ + e.message()
                },
            };
            &&& r.1.len() == 0
            &&& r.0.banner is Some
            &&& r.0 == (StateModel { banner: r.0.banner, ..s })
            &&& r.0.banner->0.message == says
            &&& result is Err ==> r.0.banner->0.kind is Error
            &&& result is Ok && armed ==> r.0.banner->0.kind is Success
            &&& result is Ok && !armed ==> r.0.banner->0.kind is Info
        }),
{
    reveal(crate::app::react::react_tunnel);
    reveal(crate::app::react::kill_switch_done);
}

// ── watching ────────────────────────────────────────────────────────────────

/// Whether the tunnel looks dropped: it was not last seen up, or none of its peers had a handshake,
/// or the most recent one is two and a half minutes old.
pub open spec fn seems_dropped(s: StateModel, now: u64) -> bool {
    match s.live_status {
        None => true,
        Some(live) => match crate::wg::status::latest_age(live.peers, now) {
            None => true,
            Some(age) => age >= 150,
        },
    }
}

/// How long is waited before an attempt to reconnect, by how many there were before it.
pub open spec fn wait_before(attempts: nat) -> u64 {
    if attempts == 0 {
        2
    } else if attempts == 1 {
        4
    } else if attempts == 2 {
        8
    } else if attempts == 3 {
        16
    } else if attempts == 4 {
        32
    } else {
        60
    }
}

/// Whether the user wants dropped tunnels reconnected, has not disconnected, and has a tunnel that
/// should be up.
pub open spec fn to_be_kept_up(s: StateModel) -> bool {
    &&& s.settings.auto_reconnect
    &&& !s.intentional_down
    &&& s.active_profile is Some
    &&& s.tunnel_status is Connected || s.tunnel_status is Error
}

/// The waits are those of the schedule.
proof fn lemma_waits(attempts: nat)
    ensures
        crate::net::watchdog::backoff_secs(attempts) == wait_before(attempts),
{
    crate::net::watchdog::law_backoff_schedule(if attempts >= 5 {
        attempts
    } else {
        5
    });
}

/// A tunnel that should be up and looks dropped is reconnected, whether it was connected or the last
/// attempt failed: its profile is tried again after a wait that grows with each attempt, and the
/// user is told how long that is. A notification is shown for the first attempt only.
pub proof fn law_dropped_tunnels_are_reconnected(s: StateModel, at: Moment)
    requires
        to_be_kept_up(s),
        seems_dropped(s, at.now),
    ensures
        ({
            let r = crate::app::react::react(s, Message::StatusTick, at);
            let name = s.active_profile->0;
            let secs = wait_before(s.reconnect_attempt as nat);
            &&& r.1.contains(EffectModel::ReconnectAfter { secs, name })
            &&& r.0.reconnect_attempt == if s.reconnect_attempt < u32::MAX {
                s.reconnect_attempt + 1
            } else {
                u32::MAX as int
            }
            &&& r.0.banner == Some(
                BannerModel {
                    kind: BannerKind::Warning,
                    message: "Tunnel dropped — reconnecting to "@ + name + " in "@
                        + crate::text::decimal(secs as nat) + "s…"@,
                },
            )
            &&& r.0.tunnel_status == s.tunnel_status && r.0.active_profile == s.active_profile
            &&& s.notifications_enabled && s.reconnect_attempt == 0 ==> r.1.contains(
                EffectModel::Notify {
                    summary: "WireGuard tunnel dropped"@,
                    body: "Lost connection to "@ + name,
                },
            )
            &&& !s.notifications_enabled || s.reconnect_attempt > 0 ==> forall|i: int|
                0 <= i < r.1.len() ==> !((#[trigger] r.1[i]) is Notify)
        }),
{
    reveal(crate::app::react::react_tunnel);
    reveal(crate::app::react::ticked);
    reveal(crate::app::react::watched);
    lemma_waits(s.reconnect_attempt as nat);
    let r = crate::app::react::react(s, Message::StatusTick, at);
    let n = r.1.len() as int;
    assert(r.1[n - 3] == EffectModel::ReconnectAfter {
        secs: wait_before(s.reconnect_attempt as nat),
        name: s.active_profile->0,
    });
    if s.notifications_enabled && s.reconnect_attempt == 0 {
        assert(r.1[0] is Notify);
    }
}

/// A tunnel is reconnected only while it should be up and looks dropped; one that is well has the
/// count of attempts start over, and one that is coming up is left alone. The tunnel's figures and
/// the public address are asked for at each look.
pub proof fn law_only_dropped_tunnels_are_reconnected(s: StateModel, at: Moment)
    ensures
        ({
            let r = crate::app::react::react(s, Message::StatusTick, at);
            let n = r.1.len() as int;
            &&& !(to_be_kept_up(s) && seems_dropped(s, at.now)) ==> forall|i: int|
                0 <= i < n ==> !((#[trigger] r.1[i]) is ReconnectAfter) && !(r.1[i] is Notify)
            &&& !(to_be_kept_up(s) && seems_dropped(s, at.now)) ==> r.0.banner == s.banner
            &&& to_be_kept_up(s) && !seems_dropped(s, at.now) ==> r.0.reconnect_attempt == 0
            &&& s.tunnel_status is Connecting && seems_dropped(s, at.now)
                ==> r.0.reconnect_attempt == s.reconnect_attempt
            &&& s.intentional_down || !s.settings.auto_reconnect ==> r.0.reconnect_attempt
                == s.reconnect_attempt
            &&& n >= 2
            &&& r.1[n - 2] == EffectModel::FetchStatus(
                match s.live_status {
                    Some(live) => Some(live.interface),
                    None => if s.tunnel_status is Connected || s.tunnel_status is Connecting {
                        Some("wg-gui0"@)
                    } else {
                        None
                    },
                },
            )
            &&& r.1[n - 1] is FetchPublicIp
            &&& r.0.public_ip_loading
            &&& r.0.tunnel_status == s.tunnel_status && r.0.live_status == s.live_status
            &&& r.0.intentional_down == s.intentional_down && r.0.usage == s.usage
        }),
{
    reveal(crate::app::react::react_tunnel);
    reveal(crate::app::react::ticked);
    reveal(crate::app::react::watched);
}

/// When the wait is over the profile is brought up again, unless the user has disconnected in the
/// meantime or the profile is gone. How often it was tried is not forgotten.
pub proof fn law_the_wait_ends_in_an_attempt(s: StateModel, name: String, at: Moment)
    ensures
        ({
            let r = crate::app::react::react(s, Message::ReconnectTick(name), at);
            let found = crate::app::react::found(s.profiles, name@);
            &&& !s.intentional_down && found is Some ==> r.1 == seq![EffectModel::Connect(found->0)]
                && r.0 == (StateModel { tunnel_status: TunnelModel::Connecting(name@), ..s })
            &&& s.intentional_down || found is None ==> r.1.len() == 0 && r.0 == s
        }),
{
    reveal(crate::app::react::react_tunnel);
    reveal(crate::app::react::reconnect_due);
}

/// Reconnecting does not give up: after an attempt that failed, the next look at the tunnel
/// schedules another one, for the same profile and after a wait that is never shorter.
pub proof fn law_reconnecting_does_not_give_up(
    s: StateModel,
    e: AppError,
    name: String,
    at: Moment,
    later: Moment,
)
    requires
        s.settings.auto_reconnect,
        !s.intentional_down,
        s.active_profile == Some(name@),
        s.tunnel_status is Connected || s.tunnel_status is Error,
        s.live_status is None,
        crate::app::react::found(s.profiles, name@) is Some,
    ensures
        ({
            let seen = crate::app::react::react(s, Message::StatusTick, at);
            let tried = crate::app::react::react(seen.0, Message::ReconnectTick(name), at);
            let failed = crate::app::react::react(tried.0, Message::ConnectResult(Err(e)), later);
            let again = crate::app::react::react(failed.0, Message::StatusTick, later);
            let first = wait_before(s.reconnect_attempt as nat);
            &&& seen.1.contains(EffectModel::ReconnectAfter { secs: first, name: name@ })
            &&& tried.1.len() == 1 && tried.1[0] is Connect
            &&& exists|secs: u64|
                secs >= first && #[trigger] again.1.contains(
                    EffectModel::ReconnectAfter { secs, name: name@ },
                )
        }),
{
    let seen = crate::app::react::react(s, Message::StatusTick, at);
    law_dropped_tunnels_are_reconnected(s, at);
    law_the_tunnel_touches_nothing_else(s, Message::StatusTick, at);
    law_only_dropped_tunnels_are_reconnected(s, at);
    law_the_wait_ends_in_an_attempt(seen.0, name, at);
    let tried = crate::app::react::react(seen.0, Message::ReconnectTick(name), at);
    law_a_failed_connection_is_reported(tried.0, e, later);
    law_the_tunnel_touches_nothing_else(tried.0, Message::ConnectResult(Err(e)), later);
    let failed = crate::app::react::react(tried.0, Message::ConnectResult(Err(e)), later);
    law_dropped_tunnels_are_reconnected(failed.0, later);
    let again = crate::app::react::react(failed.0, Message::StatusTick, later);
    let secs = wait_before(failed.0.reconnect_attempt as nat);
    assert(again.1.contains(EffectModel::ReconnectAfter { secs, name: name@ }));
}

// ── figures ─────────────────────────────────────────────────────────────────

/// A tunnel seen up has its figures kept, its health, one more sample of what it has moved, and its
/// usage booked to the active profile and saved. One not seen up is known not to be; one that could
/// not be asked after stays as it was last seen.
pub proof fn law_figures_are_kept(
    s: StateModel,
    fetched: AppResult<Option<LiveStatus>>,
    at: Moment,
)
    ensures
        ({
            let r = crate::app::react::react(s, Message::StatusFetched(fetched), at);
            &&& r.0.tunnel_status == s.tunnel_status && r.0.intentional_down == s.intentional_down
                && r.0.reconnect_attempt == s.reconnect_attempt && r.0.active_profile
                == s.active_profile
            &&& match fetched {
                Ok(Some(live)) => {
                    let moved = (
                        crate::app::react::received(live@.peers),
                        crate::app::react::sent(live@.peers),
                    );
                    &&& r.1 == seq![EffectModel::SaveUsage]
                    &&& r.0.live_status == Some(live@)
                    &&& r.0.active_health is Some
                    &&& r.0.active_health->0.handshake_age == crate::wg::status::latest_age(
                        live@.peers,
                        at.now,
                    )
                    &&& r.0.throughput_history.len() > 0 && r.0.throughput_history.last() == moved
                    &&& s.throughput_history.len() < 60 ==> r.0.throughput_history
                        == s.throughput_history.push(moved)
                    &&& s.throughput_history.len() == 60 ==> r.0.throughput_history
                        == s.throughput_history.skip(1).push(moved)
                    &&& s.active_profile is Some ==> r.0.usage == crate::stats::store_after_reading(
                        s.usage,
                        s.active_profile->0,
                        moved,
                    )
                    &&& s.active_profile is None ==> r.0.usage == s.usage
                    &&& r.0.banner == s.banner
                },
                Ok(None) => r.1.len() == 0 && r.0 == (StateModel {
                    live_status: None,
                    active_health: None,
                    ..s
                }),
                Err(e) => r.1.len() == 0 && r.0 == (StateModel { banner: r.0.banner, ..s })
                    && if e is WgNotFound {
                    r.0.banner == s.banner
                } else {
                    r.0.banner is Some && r.0.banner->0.kind is Warning && r.0.banner->0.message
                        == "Status: "@ + e.message()
                },
            }
        }),
{
    reveal(crate::app::react::react_tunnel);
    reveal(crate::app::react::status_fetched);
    reveal(crate::app::react::seen_up);
    let r = crate::app::react::react(s, Message::StatusFetched(fetched), at);
    if let Ok(Some(live)) = fetched {
        let moved = (
            crate::app::react::received(live@.peers),
            crate::app::react::sent(live@.peers),
        );
        if s.throughput_history.len() == 60 {
            assert(s.throughput_history.push(moved).skip(1) =~= s.throughput_history.skip(
                1,
            ).push(moved));
        }
    }
}

/// What was received and sent are the sums over the peers, as far as they fit: one more peer adds
/// what it received to the one and what it sent to the other.
pub proof fn law_bytes_are_summed_over_the_peers(
    peers: Seq<crate::wg::status::PeerStatusModel>,
    next: crate::wg::status::PeerStatusModel,
)
    ensures
        ({
            let rx = crate::app::react::received(peers) + next.rx_bytes;
            let tx = crate::app::react::sent(peers) + next.tx_bytes;
            &&& crate::app::react::received(Seq::empty()) == 0
            &&& crate::app::react::sent(Seq::empty()) == 0
            &&& crate::app::react::received(peers.push(next)) == if rx <= u64::MAX {
                rx
            } else {
                u64::MAX as int
            }
            &&& crate::app::react::sent(peers.push(next)) == if tx <= u64::MAX {
                tx
            } else {
                u64::MAX as int
            }
        }),
{
    assert(peers.push(next).drop_last() =~= peers);
}

/// The program looks at the tunnel with each tick, and where it should be up and looks dropped, it
/// has the profile connected again after a wait: also where the last attempt ended in an error.
pub proof fn law_a_tick_reconnects(state: &mut State, at: Moment, effects: Vec<Effect>)
    requires
        call_ensures(State::update, (state, Message::StatusTick, at), effects),
        to_be_kept_up(old(state)@),
        seems_dropped(old(state)@, at.now),
    ensures
        crate::app::state::effect_views(effects@).contains(
            EffectModel::ReconnectAfter {
                secs: wait_before(old(state)@.reconnect_attempt as nat),
                name: old(state)@.active_profile->0,
            },
        ),
        final(state)@.tunnel_status == old(state)@.tunnel_status,
        final(state)@.active_profile == old(state)@.active_profile,
{
    law_dropped_tunnels_are_reconnected(old(state)@, at);
}

} // verus!
