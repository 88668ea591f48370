//! What holds of the program however it is used.

use crate::app::react::{Reaction, Topic};
use crate::app::state::{EffectModel, Message, Moment, StateModel};
use crate::app::{SortOrder, THROUGHPUT_HISTORY_LEN};
use crate::config::profile::ProfileModel;
use crate::net::privilege::PrivCmdModel;
use vstd::prelude::*;

verus! {

/// Whether profiles stand as an order sorts them.
#[verifier::opaque]
pub open spec fn in_order(profiles: Seq<ProfileModel>, order: SortOrder) -> bool {
    crate::order::is_sorted(profiles, crate::config::store::name_order(order is NameAsc))
}

/// Whether the parts of a state fit together.
pub open spec fn coherent(s: StateModel) -> bool {
    // What the settings say of reconnecting is what is done.
    &&& s.auto_reconnect == s.settings.auto_reconnect
    // The throughput history does not grow without end.
    &&& s.throughput_history.len() <= THROUGHPUT_HISTORY_LEN
    // The tunnel's health is known exactly while the tunnel was last seen up.
    &&& s.active_health is Some <==> s.live_status is Some
    // While connected it is known since when.
    &&& s.tunnel_status is Connected ==> s.connected_since is Some
    // The profiles stand in order.
    &&& in_order(s.profiles, s.sort_order)
}

/// Whether an effect brings a tunnel up, now or later.
pub open spec fn brings_up(e: EffectModel) -> bool {
    e is Connect || e is ReconnectAfter
}

/// Whether one of some effects brings a tunnel up, now or later.
pub open spec fn any_brings_up(done: Seq<EffectModel>) -> bool {
    exists|i: int| 0 <= i < done.len() && brings_up(#[trigger] done[i])
}

/// Whether one of some effects changes what is connected on boot.
pub open spec fn any_changes_boot(done: Seq<EffectModel>) -> bool {
    exists|i: int| 0 <= i < done.len() && (#[trigger] done[i]) is ConfigureBoot
}

/// Whether an effect arms the kill switch.
pub open spec fn arms(e: EffectModel) -> bool {
    e matches EffectModel::KillSwitch { armed: true, cmd: _ }
}

/// Whether one of some effects arms the kill switch.
pub open spec fn any_arms(done: Seq<EffectModel>) -> bool {
    exists|i: int| 0 <= i < done.len() && arms(#[trigger] done[i])
}

/// Whether a message asks to connect a profile.
pub open spec fn asks_to_connect(message: Message) -> bool {
    message is ConnectProfile || message is TrayConnectProfile
}

/// Whether a message reports that the server was started or stopped.
pub open spec fn server_has_switched(message: Message) -> bool {
    message matches Message::ServerOpResult(Ok(_))
}

/// What every reaction to `message` keeps to.
spec fn sound(s: StateModel, message: Message, r: Reaction) -> bool {
    &&& s.intentional_down && !asks_to_connect(message) ==> r.0.intentional_down && !any_brings_up(
        r.1,
    )
    &&& r.0.server_running != s.server_running ==> server_has_switched(message)
    &&& any_changes_boot(r.1) ==> message is SettingConnectOnBootChanged
    &&& any_arms(r.1) ==> message is ConnectResult || message is SettingKillSwitchToggled
}

/// Messages about the window, the tray and the start keep the state together.
proof fn lemma_program_coherent(s: StateModel, message: Message, at: Moment)
    requires
        coherent(s),
    ensures
        coherent(crate::app::react::react_program(s, message, at).0),
{
    reveal(crate::app::react::react_program);
    reveal(crate::app::react::settings_loaded);
    reveal(crate::app::react::window_shown);
    reveal(crate::app::react::window_opened);
    reveal(crate::app::react::plan_opened);
}

/// What messages about the window, the tray and the start keep to.
proof fn lemma_program_sound(s: StateModel, message: Message, at: Moment)
    ensures
        sound(s, message, crate::app::react::react_program(s, message, at)),
{
    reveal(crate::app::react::react_program);
    reveal(crate::app::react::settings_loaded);
    reveal(crate::app::react::window_shown);
    reveal(crate::app::react::window_opened);
    reveal(crate::app::react::plan_opened);
}

/// Messages about the list of profiles keep the state together.
proof fn lemma_profiles_coherent(s: StateModel, message: Message)
    requires
        coherent(s),
    ensures
        coherent(crate::app::react::react_profiles(s, message).0),
{
    reveal(crate::app::react::react_profiles);
    reveal(crate::app::react::profiles_loaded);
    reveal(crate::app::react::reloaded);
    reveal(crate::app::react::reported);
    reveal(crate::app::react::export_chosen);
    reveal(in_order);
    match message {
        Message::ProfilesLoaded(Ok(v)) => {
            let order = crate::config::store::name_order(s.sort_order is NameAsc);
            crate::config::store::lemma_name_order(s.sort_order is NameAsc);
            crate::order::law_arranged_is_sorted(
                crate::config::store::profile_views(v@),
                order,
            );
        },
        Message::SortChanged(o) => {
            let order = crate::config::store::name_order(o is NameAsc);
            crate::config::store::lemma_name_order(o is NameAsc);
            crate::order::law_arranged_is_sorted(s.profiles, order);
        },
        _ => {},
    }
}

/// What messages about the list of profiles keep to.
proof fn lemma_profiles_sound(s: StateModel, message: Message)
    ensures
        sound(s, message, crate::app::react::react_profiles(s, message)),
{
    reveal(crate::app::react::react_profiles);
    reveal(crate::app::react::profiles_loaded);
    reveal(crate::app::react::reloaded);
    reveal(crate::app::react::reported);
    reveal(crate::app::react::export_chosen);
}

/// Messages about the editor keep the state together.
proof fn lemma_editing_coherent(s: StateModel, message: Message)
    requires
        coherent(s),
    ensures
        coherent(crate::app::react::react_editing(s, message).0),
{
    reveal(crate::app::react::react_editing);
    match message {
        Message::OpenNewProfile => {
            reveal(crate::app::react::opened);
        },
        Message::EditProfile(_) => {
            reveal(crate::app::react::opened);
            reveal(crate::app::react::editing);
        },
        Message::EditorFieldChanged(_) => {
            reveal(crate::app::react::field_changed);
        },
        Message::EditorToggleRaw => {
            reveal(crate::app::react::toggled);
        },
        Message::RawEditorAction(_) => {
            reveal(crate::app::react::raw_changed);
        },
        Message::EditorSave => {
            reveal(crate::app::react::saving);
        },
        Message::KeypairGenerated(_) => {
            reveal(crate::app::react::keys_generated);
        },
        _ => {
            reveal(crate::app::react::closed);
            reveal(crate::app::react::reloaded);
        },
    }
}

/// What messages about the editor keep to.
proof fn lemma_editing_sound(s: StateModel, message: Message)
    ensures
        sound(s, message, crate::app::react::react_editing(s, message)),
{
    reveal(crate::app::react::react_editing);
    match message {
        Message::OpenNewProfile => {
            reveal(crate::app::react::opened);
        },
        Message::EditProfile(_) => {
            reveal(crate::app::react::opened);
            reveal(crate::app::react::editing);
        },
        Message::EditorFieldChanged(_) => {
            reveal(crate::app::react::field_changed);
        },
        Message::EditorToggleRaw => {
            reveal(crate::app::react::toggled);
        },
        Message::RawEditorAction(_) => {
            reveal(crate::app::react::raw_changed);
        },
        Message::EditorSave => {
            reveal(crate::app::react::saving);
        },
        Message::KeypairGenerated(_) => {
            reveal(crate::app::react::keys_generated);
        },
        _ => {
            reveal(crate::app::react::closed);
            reveal(crate::app::react::reloaded);
        },
    }
}

/// Messages about the settings keep the state together.
proof fn lemma_settings_coherent(s: StateModel, message: Message)
    requires
        coherent(s),
    ensures
        coherent(crate::app::react::react_settings(s, message).0),
{
    reveal(crate::app::react::react_settings);
    match message {
        Message::SettingAutoReconnectToggled(_) => {
            reveal(crate::app::react::auto_reconnect_toggled);
        },
        Message::SettingAutoStartToggled(_) => {
            reveal(crate::app::react::autostart_toggled);
        },
        Message::SettingKillSwitchToggled(_) => {
            reveal(crate::app::react::kill_switch_toggled);
        },
        Message::SettingConnectOnBootChanged(_) => {
            reveal(crate::app::react::boot_changed);
        },
        Message::SettingThemeChanged(_) => {
            reveal(crate::app::react::theme_changed);
        },
        Message::SettingNotificationsToggled(_) => {
            reveal(crate::app::react::notifications_toggled);
        },
        _ => {
            reveal(crate::app::react::reported);
        },
    }
}

/// What messages about the settings keep to.
proof fn lemma_settings_sound(s: StateModel, message: Message)
    ensures
        sound(s, message, crate::app::react::react_settings(s, message)),
{
    reveal(crate::app::react::react_settings);
    reveal(crate::app::react::auto_reconnect_toggled);
    reveal(crate::app::react::autostart_toggled);
    reveal(crate::app::react::theme_changed);
    reveal(crate::app::react::notifications_toggled);
    reveal(crate::app::react::kill_switch_toggled);
    reveal(crate::app::react::kill_switch_wanted);
    reveal(crate::app::react::boot_changed);
    reveal(crate::app::react::reported);
}

/// Messages about the server keep the state together.
proof fn lemma_server_coherent(s: StateModel, message: Message)
    requires
        coherent(s),
    ensures
        coherent(crate::app::react::react_server(s, message).0),
{
    reveal(crate::app::react::react_server);
    reveal(crate::app::react::server_set);
    reveal(crate::app::react::server_toggled);
    reveal(crate::app::react::server_switched);
    reveal(crate::app::react::nat_toggled);
    reveal(crate::app::react::nat_switched);
}

/// What messages about the server keep to.
proof fn lemma_server_sound(s: StateModel, message: Message)
    ensures
        sound(s, message, crate::app::react::react_server(s, message)),
{
    reveal(crate::app::react::react_server);
    reveal(crate::app::react::server_set);
    reveal(crate::app::react::server_toggled);
    reveal(crate::app::react::server_switched);
    reveal(crate::app::react::nat_toggled);
    reveal(crate::app::react::nat_switched);
}

/// Messages about the server's clients keep the state together.
proof fn lemma_clients_coherent(s: StateModel, message: Message)
    requires
        coherent(s),
    ensures
        coherent(crate::app::react::react_clients(s, message).0),
{
    reveal(crate::app::react::react_clients);
    reveal(crate::app::react::server_set);
    reveal(crate::app::react::adding_peer);
    reveal(crate::app::react::peer_added);
    reveal(crate::app::react::removing_peer);
}

/// What messages about the server's clients keep to.
proof fn lemma_clients_sound(s: StateModel, message: Message)
    ensures
        sound(s, message, crate::app::react::react_clients(s, message)),
{
    reveal(crate::app::react::react_clients);
    reveal(crate::app::react::server_set);
    reveal(crate::app::react::adding_peer);
    reveal(crate::app::react::peer_added);
    reveal(crate::app::react::removing_peer);
}

/// Messages about the tunnel keep the state together.
proof fn lemma_tunnel_coherent(s: StateModel, message: Message, at: Moment)
    requires
        coherent(s),
    ensures
        coherent(crate::app::react::react_tunnel(s, message, at).0),
{
    reveal(crate::app::react::react_tunnel);
    match message {
        Message::ConnectResult(Ok(_)) => {
            reveal(crate::app::react::connected);
        },
        Message::ConnectResult(Err(_)) => {
            reveal(crate::app::react::unconnected);
        },
        Message::DisconnectResult(Ok(_)) => {
            reveal(crate::app::react::disconnected);
        },
        Message::DisconnectResult(Err(_)) => {
            reveal(crate::app::react::undisconnected);
        },
        Message::StatusTick => {
            reveal(crate::app::react::ticked);
            reveal(crate::app::react::watched);
        },
        Message::StatusFetched(_) => {
            reveal(crate::app::react::status_fetched);
            reveal(crate::app::react::seen_up);
        },
        _ => {
            reveal(crate::app::react::connecting);
            reveal(crate::app::react::disconnecting);
            reveal(crate::app::react::kill_switch_done);
            reveal(crate::app::react::reconnect_due);
        },
    }
}

/// Effects one behind the other bring up what either does.
proof fn lemma_add(a: Seq<EffectModel>, b: Seq<EffectModel>)
    ensures
        any_brings_up(a + b) <==> any_brings_up(a) || any_brings_up(b),
        any_changes_boot(a + b) <==> any_changes_boot(a) || any_changes_boot(b),
        any_arms(a + b) <==> any_arms(a) || any_arms(b),
{
    let c = a + b;
    assert forall|i: int| 0 <= i < a.len() implies #[trigger] a[i] == c[i] by {}
    assert forall|i: int| 0 <= i < b.len() implies #[trigger] b[i] == c[a.len() + i] by {}
    assert forall|i: int| 0 <= i < c.len() implies (i < a.len() && #[trigger] c[i] == a[i]) || (i
        >= a.len() && c[i] == b[i - a.len()]) by {}
}

/// Asking for figures brings nothing up and arms nothing.
proof fn lemma_refresh_is_harmless(s: StateModel)
    ensures
        !any_brings_up(crate::app::react::refreshed(s).1),
        !any_changes_boot(crate::app::react::refreshed(s).1),
        !any_arms(crate::app::react::refreshed(s).1),
{
}

/// What coming up keeps to.
proof fn lemma_connected_sound(s: StateModel, at: Moment)
    ensures
        crate::app::react::connected(s, at).0.server_running == s.server_running,
        crate::app::react::connected(s, at).0.intentional_down == s.intentional_down,
        !any_brings_up(crate::app::react::connected(s, at).1),
        !any_changes_boot(crate::app::react::connected(s, at).1),
{
    reveal(crate::app::react::connected);
    let done = crate::app::react::connected(s, at).1;
    assert forall|i: int| 0 <= i < done.len() implies !brings_up(#[trigger] done[i])
        && !(done[i] is ConfigureBoot) by {}
}

/// What going down keeps to.
proof fn lemma_disconnected_sound(s: StateModel)
    ensures
        crate::app::react::disconnected(s).0.server_running == s.server_running,
        crate::app::react::disconnected(s).0.intentional_down == s.intentional_down,
        !any_brings_up(crate::app::react::disconnected(s).1),
        !any_changes_boot(crate::app::react::disconnected(s).1),
        !any_arms(crate::app::react::disconnected(s).1),
{
    reveal(crate::app::react::disconnected);
    let done = crate::app::react::disconnected(s).1;
    assert forall|i: int| 0 <= i < done.len() implies !brings_up(#[trigger] done[i])
        && !(done[i] is ConfigureBoot) && !arms(done[i]) by {}
}

/// What looking at the tunnel keeps to.
proof fn lemma_ticked_sound(s: StateModel, at: Moment)
    ensures
        crate::app::react::ticked(s, at).0.server_running == s.server_running,
        crate::app::react::ticked(s, at).0.intentional_down == s.intentional_down,
        s.intentional_down ==> !any_brings_up(crate::app::react::ticked(s, at).1),
        !any_changes_boot(crate::app::react::ticked(s, at).1),
        !any_arms(crate::app::react::ticked(s, at).1),
{
    reveal(crate::app::react::ticked);
    reveal(crate::app::react::watched);
    let seen = crate::app::react::watched(crate::app::react::refreshed(s).0, at.now);
    assert forall|i: int| 0 <= i < seen.1.len() implies !((#[trigger] seen.1[i]) is ConfigureBoot)
        && !arms(seen.1[i]) by {}
    assert(!any_changes_boot(seen.1) && !any_arms(seen.1));
    lemma_refresh_is_harmless(s);
    lemma_add(seen.1, crate::app::react::refreshed(s).1);
}

/// What messages about the tunnel keep to.
proof fn lemma_tunnel_sound(s: StateModel, message: Message, at: Moment)
    ensures
        sound(s, message, crate::app::react::react_tunnel(s, message, at)),
{
    reveal(crate::app::react::react_tunnel);
    match message {
        Message::ConnectResult(Ok(_)) => {
            lemma_connected_sound(s, at);
        },
        Message::ConnectResult(Err(_)) => {
            reveal(crate::app::react::unconnected);
        },
        Message::DisconnectResult(Ok(_)) => {
            lemma_disconnected_sound(s);
        },
        Message::DisconnectResult(Err(_)) => {
            reveal(crate::app::react::undisconnected);
        },
        Message::StatusTick => {
            lemma_ticked_sound(s, at);
        },
        Message::StatusFetched(_) => {
            reveal(crate::app::react::status_fetched);
            reveal(crate::app::react::seen_up);
        },
        _ => {
            reveal(crate::app::react::connecting);
            reveal(crate::app::react::disconnecting);
            reveal(crate::app::react::kill_switch_done);
            reveal(crate::app::react::reconnect_due);
        },
    }
}

// ── laws ────────────────────────────────────────────────────────────────────

/// The state in which the program starts fits together.
pub proof fn law_start_is_coherent(store_dir: std::path::PathBuf, start_hidden: bool)
    ensures
        coherent(crate::app::state::initial_state(store_dir, start_hidden)),
{
    reveal(in_order);
}

/// Whatever happens, the parts of the state still fit together.
pub proof fn law_reactions_keep_coherence(s: StateModel, message: Message, at: Moment)
    requires
        coherent(s),
    ensures
        coherent(crate::app::react::react(s, message, at).0),
{
    match crate::app::react::topic_of(message) {
        Topic::Program => {
            lemma_program_coherent(s, message, at);
        },
        Topic::Profiles => {
            lemma_profiles_coherent(s, message);
        },
        Topic::Tunnel => {
            lemma_tunnel_coherent(s, message, at);
        },
        Topic::Editing => {
            lemma_editing_coherent(s, message);
        },
        Topic::Settings => {
            lemma_settings_coherent(s, message);
        },
        Topic::Server => {
            lemma_server_coherent(s, message);
        },
        Topic::Clients => {
            lemma_clients_coherent(s, message);
        },
    }
}

/// After the user has disconnected, nothing brings a tunnel up until the user asks for one.
pub proof fn law_disconnecting_lasts(s: StateModel, message: Message, at: Moment)
    requires
        s.intentional_down,
        !asks_to_connect(message),
    ensures
        crate::app::react::react(s, message, at).0.intentional_down,
        !any_brings_up(crate::app::react::react(s, message, at).1),
{
    match crate::app::react::topic_of(message) {
        Topic::Program => {
            lemma_program_sound(s, message, at);
        },
        Topic::Profiles => {
            lemma_profiles_sound(s, message);
        },
        Topic::Tunnel => {
            lemma_tunnel_sound(s, message, at);
        },
        Topic::Editing => {
            lemma_editing_sound(s, message);
        },
        Topic::Settings => {
            lemma_settings_sound(s, message);
        },
        Topic::Server => {
            lemma_server_sound(s, message);
        },
        Topic::Clients => {
            lemma_clients_sound(s, message);
        },
    }
}

/// Only the report that the server was started or stopped changes whether it is up; turning
/// address translation on or off does not.
pub proof fn law_only_the_server_switches(s: StateModel, message: Message, at: Moment)
    requires
        !server_has_switched(message),
    ensures
        crate::app::react::react(s, message, at).0.server_running == s.server_running,
{
    match crate::app::react::topic_of(message) {
        Topic::Program => {
            lemma_program_sound(s, message, at);
        },
        Topic::Profiles => {
            lemma_profiles_sound(s, message);
        },
        Topic::Tunnel => {
            lemma_tunnel_sound(s, message, at);
        },
        Topic::Editing => {
            lemma_editing_sound(s, message);
        },
        Topic::Settings => {
            lemma_settings_sound(s, message);
        },
        Topic::Server => {
            lemma_server_sound(s, message);
        },
        Topic::Clients => {
            lemma_clients_sound(s, message);
        },
    }
}

/// Connecting on boot changes only when the user changes it.
pub proof fn law_boot_changes_on_request(s: StateModel, message: Message, at: Moment)
    requires
        !(message is SettingConnectOnBootChanged),
    ensures
        !any_changes_boot(crate::app::react::react(s, message, at).1),
{
    match crate::app::react::topic_of(message) {
        Topic::Program => {
            lemma_program_sound(s, message, at);
        },
        Topic::Profiles => {
            lemma_profiles_sound(s, message);
        },
        Topic::Tunnel => {
            lemma_tunnel_sound(s, message, at);
        },
        Topic::Editing => {
            lemma_editing_sound(s, message);
        },
        Topic::Settings => {
            lemma_settings_sound(s, message);
        },
        Topic::Server => {
            lemma_server_sound(s, message);
        },
        Topic::Clients => {
            lemma_clients_sound(s, message);
        },
    }
}

/// The tray connects and disconnects just as the window does.
pub proof fn law_the_tray_does_the_same(s: StateModel, name: String, at: Moment)
    ensures
        crate::app::react::react(s, Message::TrayConnectProfile(name), at)
            == crate::app::react::react(s, Message::ConnectProfile(name), at),
        crate::app::react::react(s, Message::TrayDisconnect, at) == crate::app::react::react(
            s,
            Message::DisconnectCurrent,
            at,
        ),
{
    reveal(crate::app::react::react_tunnel);
}

/// Whether an effect arms the kill switch on the tunnel's interface, for the endpoint of the
/// profile that the tunnel belongs to.
pub open spec fn lets_through(s: StateModel, e: EffectModel) -> bool {
    match crate::app::react::found(s.profiles, crate::app::react::tunnel_name(s)) {
        None => false,
        Some(p) => match crate::app::react::first_endpoint(p.peers) {
            None => false,
            Some(endpoint) => e matches EffectModel::KillSwitch {
                armed: true,
                cmd: PrivCmdModel::KillSwitchArm {
                    iface,
                    endpoint_ip,
                    endpoint_port,
                    lan_cidrs,
                    lease_secs,
                    netns_endpoint_udp: None,
                },
            } && crate::app::editor::endpoint_parts(endpoint) == Some((endpoint_ip, endpoint_port))
                && iface == crate::app::react::tunnel_iface(s) && lease_secs
                == crate::app::KILL_SWITCH_LEASE_SECS && lan_cidrs == s.settings.destination_split,
        },
    }
}

/// Coming up arms the kill switch only for the endpoint.
proof fn lemma_connected_arms(s: StateModel, at: Moment, i: int)
    requires
        0 <= i < crate::app::react::connected(s, at).1.len(),
        arms(crate::app::react::connected(s, at).1[i]),
    ensures
        lets_through(s, crate::app::react::connected(s, at).1[i]),
        crate::app::react::connected(s, at).0.settings.kill_switch,
{
    reveal(crate::app::react::connected);
}

/// Turning the kill switch on arms it only for the endpoint.
proof fn lemma_toggling_arms(s: StateModel, on: bool, i: int)
    requires
        0 <= i < crate::app::react::kill_switch_toggled(s, on).1.len(),
        arms(crate::app::react::kill_switch_toggled(s, on).1[i]),
    ensures
        lets_through(s, crate::app::react::kill_switch_toggled(s, on).1[i]),
        crate::app::react::kill_switch_toggled(s, on).0.settings.kill_switch,
{
    reveal(crate::app::react::kill_switch_toggled);
    reveal(crate::app::react::kill_switch_wanted);
}

/// The kill switch is armed only for an endpoint of the profile that the tunnel belongs to, on
/// the tunnel's interface and for the same time, and only while the user wants it.
pub proof fn law_arming_lets_the_endpoint_through(
    s: StateModel,
    message: Message,
    at: Moment,
    i: int,
)
    requires
        0 <= i < crate::app::react::react(s, message, at).1.len(),
        arms(crate::app::react::react(s, message, at).1[i]),
    ensures
        lets_through(s, crate::app::react::react(s, message, at).1[i]),
        crate::app::react::react(s, message, at).0.settings.kill_switch,
{
    assert(any_arms(crate::app::react::react(s, message, at).1));
    match crate::app::react::topic_of(message) {
        Topic::Program => {
            lemma_program_sound(s, message, at);
        },
        Topic::Profiles => {
            lemma_profiles_sound(s, message);
        },
        Topic::Tunnel => {
            lemma_tunnel_sound(s, message, at);
        },
        Topic::Editing => {
            lemma_editing_sound(s, message);
        },
        Topic::Settings => {
            lemma_settings_sound(s, message);
        },
        Topic::Server => {
            lemma_server_sound(s, message);
        },
        Topic::Clients => {
            lemma_clients_sound(s, message);
        },
    }
    match message {
        Message::ConnectResult(Ok(_)) => {
            reveal(crate::app::react::react_tunnel);
            lemma_connected_arms(s, at, i);
        },
        Message::ConnectResult(Err(_)) => {
            reveal(crate::app::react::react_tunnel);
            reveal(crate::app::react::unconnected);
        },
        Message::SettingKillSwitchToggled(on) => {
            reveal(crate::app::react::react_settings);
            lemma_toggling_arms(s, on, i);
        },
        _ => {},
    }
}

/// A server that is known is not loaded again when the server's screen is opened.
pub proof fn law_opening_keeps_the_server(s: StateModel, at: Moment)
    requires
        s.server is Some,
    ensures
        crate::app::react::react(s, Message::OpenServer, at).0.server == s.server,
        crate::app::react::react(s, Message::OpenServer, at).1.len() == 0,
{
    reveal(crate::app::react::react_server);
}

/// Hiding the window when it is closed and showing it again keeps it the same window.
pub proof fn law_closed_to_the_tray_and_back(s: StateModel, id: u64, at: Moment, later: Moment)
    ensures
        ({
            let hidden = crate::app::react::react(s, Message::WindowCloseRequested(id), at);
            let shown = crate::app::react::react(hidden.0, Message::TrayOpen, later);
            &&& hidden.1 == seq![EffectModel::HideWindow(id)]
            &&& shown.1 == seq![EffectModel::ShowWindow(id)]
            &&& shown.0 == hidden.0
        }),
{
    reveal(crate::app::react::react_program);
    reveal(crate::app::react::window_shown);
}

/// A program that is to start in the tray hides its first window, and no later one.
pub proof fn law_only_the_first_window_is_hidden(s: StateModel, first: u64, second: u64, at: Moment)
    requires
        s.start_hidden,
    ensures
        ({
            let one = crate::app::react::react(s, Message::WindowOpened(first), at);
            let two = crate::app::react::react(one.0, Message::WindowOpened(second), at);
            &&& one.1 == seq![EffectModel::HideWindow(first)]
            &&& !one.0.start_hidden
            &&& two.1.len() == 0
        }),
{
    reveal(crate::app::react::react_program);
    reveal(crate::app::react::window_opened);
}

/// The text that the raw editor shows for a draft whose values `.conf` text can carry reads back
/// as that draft.
pub proof fn law_raw_text_reads_back(s: StateModel)
    requires
        s.editor is Some,
        s.editor->0.raw_text == crate::config::profile::conf_text(s.editor->0.draft),
        crate::app::react::editor_name(s.editor->0) == s.editor->0.draft.name,
        crate::config::round_trip::clean_profile(s.editor->0.draft),
    ensures
        ({
            let after = crate::app::react::raw_changed(s, s.editor->0.raw_text);
            &&& after.editor is Some
            &&& after.editor->0.draft == s.editor->0.draft
            &&& after.editor->0.raw_text == s.editor->0.raw_text
            &&& after.banner is None
        }),
{
    reveal(crate::app::react::raw_changed);
    crate::config::round_trip::law_conf_round_trip(s.editor->0.draft);
}

/// What is handed to be saved is valid and has a name.
pub proof fn law_only_valid_profiles_are_saved(s: StateModel, at: Moment, i: int)
    requires
        0 <= i < crate::app::react::react(s, Message::EditorSave, at).1.len(),
    ensures
        crate::app::react::react(s, Message::EditorSave, at).1[i] matches EffectModel::SaveProfile {
            profile,
            is_new: _,
        } && crate::config::validate::profile_complaints(profile).len() == 0
            && crate::text::trimmed(profile.name).len() > 0,
{
    reveal(crate::app::react::react_editing);
    reveal(crate::app::react::saving);
}

} // verus!
