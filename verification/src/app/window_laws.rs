//! What the window and the tray show and pass on.

use crate::app::state::{Effect, EffectModel, Message, State};
use crate::app::TunnelStatus;
use crate::config::store::ProfileStore;
use crate::tray::TrayEvent;
use vstd::prelude::*;

verus! {

/// The title of the window names the profile while it is up or coming up, and tells each state of
/// the tunnel from the others.
pub proof fn law_the_title_says_how_the_tunnel_stands(state: State, r: String)
    requires
        call_ensures(State::title, (&state,), r),
    ensures
        match state.tunnel_status {
            TunnelStatus::Connected(name) => r@ == "WireGuard — "@ + name@ + " (connected)"@,
            TunnelStatus::Connecting(name) => r@ == "WireGuard — connecting "@ + name@ + "…"@,
            TunnelStatus::Disconnecting => r@ == "WireGuard — disconnecting…"@,
            TunnelStatus::Error(_) => r@ == "WireGuard — error"@,
            TunnelStatus::Disconnected => r@ == "WireGuard"@,
        },
{
}

/// Each event in the tray reaches the program as the message it is named for.
pub proof fn law_tray_events_are_passed_on(event: TrayEvent, r: Message)
    requires
        call_ensures(crate::app::state::tray_message, (event,), r),
    ensures
        r is TrayOpen <==> event is Open,
        r is TrayQuit <==> event is Quit,
        r is TrayDisconnect <==> event is Disconnect,
        r is TrayConnectProfile <==> event is ConnectProfile,
        event is ConnectProfile ==> r->TrayConnectProfile_0 == event->ConnectProfile_0,
{
}

/// The history of the throughput holds the latest samples in their order, at most 60 of them: the
/// new one comes last, and where there is no more room the oldest goes.
pub proof fn law_the_history_holds_the_latest(state: &mut State, rx: u64, tx: u64)
    requires
        call_ensures(State::push_throughput_sample, (state, rx, tx), ()),
        old(state)@.throughput_history.len() <= 60,
    ensures
        ({
            let was = old(state)@.throughput_history;
            let now = final(state)@.throughput_history;
            &&& now.len() > 0 && now.last() == (rx, tx)
            &&& was.len() < 60 ==> now.len() == was.len() + 1 && now.drop_last() == was
            &&& was.len() == 60 ==> now.len() == 60 && now.drop_last() == was.skip(1)
            &&& final(state)@.tunnel_status == old(state)@.tunnel_status
            &&& final(state)@.profiles == old(state)@.profiles
        }),
{
    let was = old(state)@.throughput_history;
    let now = final(state)@.throughput_history;
    if was.len() < 60 {
        assert(now.drop_last() =~= was);
    } else {
        assert(now.drop_last() =~= was.skip(1));
    }
}

/// The program starts with no tunnel, no profile shown and no window, on the list of profiles, and
/// loads the profiles, the settings and the figures. The window is hidden only where that was asked
/// for.
pub proof fn law_the_program_starts_disconnected(
    store: ProfileStore,
    hidden: bool,
    one: (State, Vec<Effect>),
    two: (State, Vec<Effect>),
)
    requires
        call_ensures(State::new_with, (store, hidden), one),
        call_ensures(State::new, (store,), two),
    ensures
        one.0@.tunnel_status is Disconnected && one.0@.active_profile is None,
        one.0@.start_hidden == hidden && !two.0@.start_hidden,
        one.0@.profiles.len() == 0 && one.0@.editor is None && one.0@.banner is None,
        one.0@.screen is ProfileList && one.0@.sort_order is NameAsc,
        one.0@.server is None && !one.0@.server_running,
        one.0@.live_status is None && one.0@.connected_since is None,
        one.0@.reconnect_attempt == 0 && !one.0@.intentional_down,
        one.0@.auto_reconnect && one.0@.settings.auto_reconnect && !one.0@.settings.kill_switch,
        one.0@.store_dir == store.dir,
        crate::app::state::effect_views(one.1@) == seq![
            EffectModel::LoadProfiles,
            EffectModel::LoadSettings,
            EffectModel::LoadUsage,
        ],
        crate::app::state::effect_views(two.1@) == crate::app::state::effect_views(one.1@),
{
}

/// Where the tunnel stands so, the title is that of every state that stands so: nothing else shows
/// in it.
pub proof fn law_the_title_is_of_the_tunnel_alone(a: State, b: State, x: String, y: String)
    requires
        call_ensures(State::title, (&a,), x),
        call_ensures(State::title, (&b,), y),
        a@.tunnel_status == b@.tunnel_status,
    ensures
        x@ == y@,
{
}

// ── endpoints ───────────────────────────────────────────────────────────────

/// An endpoint `host:port` comes apart into its host and its port; one without a host, and one
/// whose port does not fit 16 bits, do not.
pub proof fn law_endpoints_come_apart(host: Seq<char>, port: nat)
    requires
        crate::text::is_trimmed(host),
        host.len() > 0 ==> host[0] != '[',
    ensures
        ({
            let parts = crate::app::editor::endpoint_parts(
                host + ":"@ + crate::text::decimal(port),
            );
            &&& host.len() > 0 && port <= 65535 ==> parts == Some((host, port as u16))
            &&& host.len() == 0 || port > 65535 ==> parts is None
        }),
{
    reveal_strlit(":");
    let d = crate::text::decimal(port);
    let s = host + ":"@ + d;
    crate::text::lemma_decimal(port);
    let n = host.len() as int;
    assert forall|j: int| n + 1 <= j < s.len() implies s[j] != ':' by {
        assert(crate::text::is_digit(d[j - n - 1]));
        assert(s[j] == d[j - n - 1]);
    }
    crate::text::lemma_cut_last_at(s, ':', n + 1);
    assert(s.take(n) =~= host);
    assert(s.skip(n + 1) =~= d);
    assert(crate::text::is_digit(d[0]) && crate::text::is_digit(d[d.len() - 1]));
    assert(s.last() == d[d.len() - 1]);
    if n > 0 {
        assert(s[0] == host[0]);
    } else {
        assert(s[0] == ':');
    }
    crate::text::lemma_trim_keeps(s);
    crate::text::lemma_trim_keeps(d);
}

/// An endpoint `[address]:port` comes apart into the address without its brackets and the port.
pub proof fn law_brackets_are_taken_off(address: Seq<char>, port: nat)
    requires
        address.len() > 0,
        !address.contains(']'),
    ensures
        ({
            let parts = crate::app::editor::endpoint_parts(
                "["@ + address + "]:"@ + crate::text::decimal(port),
            );
            &&& port <= 65535 ==> parts == Some((address, port as u16))
            &&& port > 65535 ==> parts is None
        }),
{
    reveal_strlit("[");
    reveal_strlit("]:");
    let p = "]:"@;
    let d = crate::text::decimal(port);
    let s = "["@ + address + p + d;
    crate::text::lemma_decimal(port);
    assert(crate::text::is_digit(d[0]) && crate::text::is_digit(d[d.len() - 1]));
    assert(s[0] == '[' && s.last() == d[d.len() - 1]);
    crate::text::lemma_trim_keeps(s);
    crate::text::lemma_trim_keeps(d);
    let t = s.skip(1);
    let n = address.len() as int;
    assert(t =~= address + p + d);
    assert forall|j: int| 0 <= j < n implies !#[trigger] crate::text::occurs_at(t, p, j) by {
        if crate::text::occurs_at(t, p, j) {
            assert(t.subrange(j, j + 2)[0] == t[j]);
            assert(t[j] == address[j]);
            assert(address.contains(address[j]));
        }
    }
    assert(t.subrange(n, n + 2) =~= p);
    assert(crate::text::occurs_at(t, p, n));
    crate::config::validate::lemma_before_text(t, p, n);
    assert(t.take(n) =~= address);
    assert(t.skip(n + 2) =~= d);
}

} // verus!
