//! How the program reacts to what happens.

use std::path::PathBuf;

use crate::app::editor::{apply_editor_field, split_endpoint};
use crate::app::react::Topic;
use crate::app::state::{Effect, EffectModel, Health, Message, Moment, PlanRequest, State, StateModel};
use crate::app::{
    Banner, BannerKind, EditorField, EditorState, Screen, SortOrder, TunnelStatus,
    KILL_SWITCH_LEASE_SECS,
};
use crate::config::profile::{copied_text, WgProfile};
use crate::config::store::sort_profiles;
use crate::error::{AppError, AppResult};
use crate::net::boot::BootAction;
use crate::net::killswitch::KillSwitch;
use crate::net::privilege::PrivCmd;
use crate::net::watchdog::{next_backoff_secs, should_reconnect, DEFAULT_THRESHOLD_SECS};
use crate::notify::{fmt_connected, fmt_disconnected, fmt_dropped};
use crate::paths::stem_of;
use crate::server::ServerConfig;
use crate::settings::{AppSettings, ThemePreference};
use crate::text::{copied, decimal_text, same, text2, text3, trim};
use crate::tray::TrayCmd;
use crate::wg::status::{latest_handshake_age_secs, LiveStatus};
use crate::wg::CLIENT_IFACE;
use vstd::prelude::*;

verus! {

// ── effects ─────────────────────────────────────────────────────────────────

/// Nothing to do.
fn nothing() -> (r: Vec<Effect>)
    ensures
        crate::app::state::effect_views(r@) == Seq::<EffectModel>::empty(),
{
    let r: Vec<Effect> = Vec::new();
    assert(crate::app::state::effect_views(r@) =~= Seq::<EffectModel>::empty());
    r
}

/// One thing to do.
fn one(e: Effect) -> (r: Vec<Effect>)
    ensures
        crate::app::state::effect_views(r@) == seq![e@],
{
    let ghost m = e@;
    let r = vec![e];
    assert(crate::app::state::effect_views(r@) =~= seq![m]);
    r
}

/// Two things to do.
fn two(a: Effect, b: Effect) -> (r: Vec<Effect>)
    ensures
        crate::app::state::effect_views(r@) == seq![a@, b@],
{
    let ghost m = a@;
    let ghost n = b@;
    let r = vec![a, b];
    assert(crate::app::state::effect_views(r@) =~= seq![m, n]);
    r
}

/// One more thing to do.
fn also(done: &mut Vec<Effect>, e: Effect)
    ensures
        crate::app::state::effect_views(final(done)@) == crate::app::state::effect_views(
            old(done)@,
        ).push(e@),
{
    let ghost before = done@;
    let ghost m = e@;
    done.push(e);
    assert(crate::app::state::effect_views(done@) =~= crate::app::state::effect_views(
        before,
    ).push(m));
}

// ── parts ───────────────────────────────────────────────────────────────────

impl State {
    /// Shows a banner.
    fn set_banner(&mut self, kind: BannerKind, message: String)
        ensures
            final(self)@ == crate::app::react::bannered(old(self)@, kind, message@),
    {
        self.banner = Some(Banner { kind, message });
    }

    /// Shows a banner about an error.
    fn complain(&mut self, kind: BannerKind, head: &str, e: &AppError)
        ensures
            final(self)@ == crate::app::react::complained(old(self)@, kind, head@, *e),
    {
        let m = e.to_string();
        let t = text2(head, m.as_str());
        self.set_banner(kind, t);
    }

    /// Shows a banner that a profile is not there.
    fn set_unfound(&mut self, name: &str)
        ensures
            final(self)@ == crate::app::react::unfound(old(self)@, name@),
    {
        let t = text3("Profile '", name, "' not found");
        self.set_banner(BannerKind::Error, t);
    }

    /// The first profile of a name.
    fn find_profile(&self, name: &str) -> (r: Option<&WgProfile>)
        ensures
            match r {
                Some(p) => crate::app::react::found(self@.profiles, name@) == Some(p@),
                None => crate::app::react::found(self@.profiles, name@) is None,
            },
    {
        let ghost pv = self@.profiles;
        let mut i: usize = 0;
        assert(pv.skip(0) =~= pv);
        while i < self.profiles.len()
            invariant
                i <= self.profiles@.len(),
                pv == crate::config::store::profile_views(self.profiles@),
                crate::app::react::found(pv, name@) == crate::app::react::found(
                    pv.skip(i as int),
                    name@,
                ),
            decreases self.profiles@.len() - i,
        {
            assert(pv.skip(i as int)[0] == self.profiles@[i as int]@);
            assert(pv.skip(i as int).skip(1) =~= pv.skip(i as int + 1));
            if same(self.profiles[i].name.as_str(), name) {
                return Some(&self.profiles[i]);
            }
            i += 1;
        }
        None
    }

    /// Sorts the profiles as they are to be.
    fn apply_sort(&mut self)
        ensures
            final(self)@ == (StateModel {
                profiles: crate::app::react::sorted_profiles(
                    old(self)@.profiles,
                    old(self)@.sort_order,
                ),
                ..old(self)@
            }),
    {
        let mut profiles: Vec<WgProfile> = Vec::new();
        std::mem::swap(&mut profiles, &mut self.profiles);
        let ascending = match self.sort_order {
            SortOrder::NameAsc => true,
            SortOrder::NameDesc => false,
        };
        self.profiles = sort_profiles(profiles, ascending);
    }

    /// The names of the profiles.
    fn profile_names(&self) -> (r: Vec<String>)
        ensures
            crate::text::views(r@) == crate::app::react::names(self@.profiles),
    {
        let mut out: Vec<String> = Vec::new();
        let mut i: usize = 0;
        while i < self.profiles.len()
            invariant
                i <= self.profiles@.len(),
                out@.len() == i,
                forall|j: int| 0 <= j < i ==> (#[trigger] out@[j])@ == self.profiles@[j].name@,
            decreases self.profiles@.len() - i,
        {
            out.push(self.profiles[i].name.clone());
            i += 1;
        }
        assert(crate::text::views(out@) =~= crate::app::react::names(self@.profiles));
        out
    }

    /// The name to show for the tunnel.
    fn tunnel_name(&self) -> (r: String)
        ensures
            r@ == crate::app::react::tunnel_name(self@),
    {
        match &self.active_profile {
            Some(name) => name.clone(),
            None => "tunnel".to_owned(),
        }
    }

    /// The interface of the tunnel.
    fn tunnel_iface(&self) -> (r: String)
        ensures
            r@ == crate::app::react::tunnel_iface(self@),
    {
        match &self.live_status {
            Some(live) => live.interface.clone(),
            None => CLIENT_IFACE.to_owned(),
        }
    }

    /// Has the tunnel's figures and the public address asked for, behind what else is done.
    fn refresh_after(&mut self, done: Vec<Effect>) -> (r: Vec<Effect>)
        ensures
            (final(self)@, crate::app::state::effect_views(r@))
                == crate::app::react::done_and_refreshed(
                old(self)@,
                crate::app::state::effect_views(done@),
            ),
    {
        let ghost dv = crate::app::state::effect_views(done@);
        let mut effects = done;
        let iface = match &self.live_status {
            Some(live) => Some(live.interface.clone()),
            None => match &self.tunnel_status {
                TunnelStatus::Connected(_) => Some(CLIENT_IFACE.to_owned()),
                TunnelStatus::Connecting(_) => Some(CLIENT_IFACE.to_owned()),
                _ => None,
            },
        };
        self.public_ip_loading = true;
        also(&mut effects, Effect::FetchStatus(iface));
        also(&mut effects, Effect::FetchPublicIp);
        proof {
            let more = crate::app::react::refreshed(old(self)@).1;
            assert(dv.push(more[0]).push(more[1]) =~= dv + more);
        }
        effects
    }

    /// Has the tunnel's figures and the public address asked for.
    fn status_refresh(&mut self) -> (r: Vec<Effect>)
        ensures
            (final(self)@, crate::app::state::effect_views(r@)) == crate::app::react::refreshed(
                old(self)@,
            ),
    {
        let done = nothing();
        let ghost s = self@;
        proof {
            assert(Seq::<EffectModel>::empty() + crate::app::react::refreshed(s).1
                =~= crate::app::react::refreshed(s).1);
        }
        self.refresh_after(done)
    }

    /// The operation that arms the kill switch for a profile, where there is an endpoint to let
    /// through.
    fn arm_kill_switch(&self, name: &str) -> (r: Option<PrivCmd>)
        ensures
            match r {
                Some(cmd) => crate::app::react::arm_cmd(self@, name@) == Some(cmd@),
                None => crate::app::react::arm_cmd(self@, name@) is None,
            },
    {
        match self.find_profile(name) {
            Some(profile) => match endpoint_of(profile) {
                Some(endpoint) => match split_endpoint(endpoint.as_str()) {
                    Some((host, port)) => Some(
                        KillSwitch.arm(
                            self.tunnel_iface(),
                            host,
                            port,
                            copied(&self.settings.destination_split),
                            KILL_SWITCH_LEASE_SECS,
                            None,
                        ),
                    ),
                    None => None,
                },
                None => None,
            },
            None => None,
        }
    }

    /// Shows a notification, where they are shown.
    fn notice(&self, done: &mut Vec<Effect>, text: (String, String))
        ensures
            crate::app::state::effect_views(final(done)@) == crate::app::state::effect_views(
                old(done)@,
            ) + crate::app::react::notice(self@, text.0@, text.1@),
    {
        let ghost before = crate::app::state::effect_views(done@);
        if self.notifications_enabled {
            let (summary, body) = text;
            also(done, Effect::Notify { summary, body });
        }
        assert(crate::app::state::effect_views(done@) =~= before + crate::app::react::notice(
            self@,
            text.0@,
            text.1@,
        ));
    }
}

/// The endpoint of the first peer that has one.
fn endpoint_of(profile: &WgProfile) -> (r: Option<String>)
    ensures
        crate::app::state::opt(r) == crate::app::react::first_endpoint(profile@.peers),
{
    let ghost pv = profile@.peers;
    let mut i: usize = 0;
    assert(pv.skip(0) =~= pv);
    while i < profile.peers.len()
        invariant
            i <= profile.peers@.len(),
            pv == crate::config::profile::peer_views(profile.peers@),
            crate::app::react::first_endpoint(pv) == crate::app::react::first_endpoint(
                pv.skip(i as int),
            ),
        decreases profile.peers@.len() - i,
    {
        assert(pv.skip(i as int)[0] == profile.peers@[i as int]@);
        assert(pv.skip(i as int).skip(1) =~= pv.skip(i as int + 1));
        if let Some(ep) = &profile.peers[i].endpoint {
            return Some(ep.clone());
        }
        i += 1;
    }
    None
}

// ── the tunnel ──────────────────────────────────────────────────────────────

impl State {
    /// Connects a profile.
    fn connect_profile(&mut self, name: String) -> (r: Vec<Effect>)
        ensures
            (final(self)@, crate::app::state::effect_views(r@)) == crate::app::react::connecting(old(self)@, name@),
    {
        proof {
            reveal(crate::app::react::connecting);
        }
        let profile = match self.find_profile(name.as_str()) {
            Some(p) => p.duplicate(),
            None => {
                self.set_unfound(name.as_str());
                return nothing();
            },
        };
        self.active_profile = Some(name.clone());
        self.tunnel_status = TunnelStatus::Connecting(name);
        self.intentional_down = false;
        self.reconnect_attempt = 0;
        one(Effect::Connect(profile))
    }

    /// Takes the tunnel down.
    fn disconnect_current(&mut self) -> (r: Vec<Effect>)
        ensures
            (final(self)@, crate::app::state::effect_views(r@)) == crate::app::react::disconnecting(old(self)@),
    {
        proof {
            reveal(crate::app::react::disconnecting);
        }
        let iface = self.tunnel_iface();
        self.intentional_down = true;
        self.reconnect_attempt = 0;
        self.tunnel_status = TunnelStatus::Disconnecting;
        one(Effect::Disconnect(iface))
    }

    /// The tunnel has come up.
    fn on_connected(&mut self, at: Moment) -> (r: Vec<Effect>)
        ensures
            (final(self)@, crate::app::state::effect_views(r@)) == crate::app::react::connected(old(self)@, at),
    {
        proof {
            reveal(crate::app::react::connected);
        }
        let name = self.tunnel_name();
        let ghost before = self@;
        self.tunnel_status = TunnelStatus::Connected(name.clone());
        self.reconnect_attempt = 0;
        self.connected_since = Some(at.now);
        self.throughput_history.clear();
        self.usage_store.reset_session(name.as_str());
        let mut done = two(
            Effect::UpdateTrayIcon(true),
            Effect::TellTray(TrayCmd::SetConnected(Some(name.clone()))),
        );
        self.notice(&mut done, fmt_connected(name.as_str()));
        let t = text2("Connected to ", name.as_str());
        self.set_banner(BannerKind::Success, t);
        proof {
            let up = crate::app::react::bannered(
                StateModel {
                    tunnel_status: crate::app::TunnelModel::Connected(name@),
                    reconnect_attempt: 0,
                    connected_since: Some(at.now),
                    throughput_history: Seq::empty(),
                    usage: crate::stats::store_after_reset(before.usage, name@),
                    ..before
                },
                BannerKind::Success,
                "Connected to "@ + name@,
            );
            assert(self@.throughput_history =~= up.throughput_history);
            assert(self@ == up);
        }
        if self.settings.kill_switch {
            match self.arm_kill_switch(name.as_str()) {
                Some(cmd) => {
                    also(&mut done, Effect::KillSwitch { armed: true, cmd });
                },
                None => {
                    self.set_banner(
                        BannerKind::Warning,
                        "Kill switch enabled but the profile has no peer endpoint to allow through — not armed (would lock you out).".to_owned(),
                    );
                },
            }
        }
        self.refresh_after(done)
    }

    /// The tunnel could not be brought up.
    fn on_unconnected(&mut self, e: AppError) -> (r: Vec<Effect>)
        ensures
            (final(self)@, crate::app::state::effect_views(r@)) == crate::app::react::unconnected(old(self)@, e),
    {
        proof {
            reveal(crate::app::react::unconnected);
        }
        self.tunnel_status = TunnelStatus::Error(e.to_string());
        self.connected_since = None;
        self.complain(BannerKind::Error, "Connect failed: ", &e);
        let done = one(Effect::UpdateTrayIcon(false));
        self.refresh_after(done)
    }

    /// The tunnel has gone down.
    fn on_disconnected(&mut self) -> (r: Vec<Effect>)
        ensures
            (final(self)@, crate::app::state::effect_views(r@)) == crate::app::react::disconnected(old(self)@),
    {
        proof {
            reveal(crate::app::react::disconnected);
        }
        let mut done = two(
            Effect::UpdateTrayIcon(false),
            Effect::TellTray(TrayCmd::SetConnected(None)),
        );
        let name = self.tunnel_name();
        self.notice(&mut done, fmt_disconnected(name.as_str()));
        self.tunnel_status = TunnelStatus::Disconnected;
        self.live_status = None;
        self.connected_since = None;
        self.throughput_history.clear();
        self.active_health = None;
        self.set_banner(BannerKind::Info, "Disconnected".to_owned());
        assert(self@.throughput_history =~= Seq::empty());
        if self.settings.kill_switch {
            let cmd = KillSwitch.disarm();
            also(&mut done, Effect::KillSwitch { armed: false, cmd });
        }
        self.refresh_after(done)
    }

    /// The tunnel could not be taken down.
    fn on_undisconnected(&mut self, e: AppError) -> (r: Vec<Effect>)
        ensures
            (final(self)@, crate::app::state::effect_views(r@)) == crate::app::react::undisconnected(old(self)@, e),
    {
        proof {
            reveal(crate::app::react::undisconnected);
        }
        self.tunnel_status = TunnelStatus::Error(e.to_string());
        self.complain(BannerKind::Error, "Disconnect failed: ", &e);
        self.status_refresh()
    }

    /// The kill switch was armed or lifted, or not.
    fn on_kill_switch(&mut self, armed: bool, result: AppResult<()>) -> (r: Vec<Effect>)
        ensures
            (final(self)@, crate::app::state::effect_views(r@)) == crate::app::react::kill_switch_done(old(self)@, armed, result),
    {
        proof {
            reveal(crate::app::react::kill_switch_done);
        }
        match result {
            Ok(()) => {
                if armed {
                    self.set_banner(BannerKind::Success, "Kill switch armed".to_owned());
                } else {
                    self.set_banner(BannerKind::Info, "Kill switch disarmed".to_owned());
                }
            },
            Err(e) => {
                if armed {
                    self.complain(BannerKind::Error, "Kill switch arm failed: ", &e);
                } else {
                    self.complain(BannerKind::Error, "Kill switch disarm failed: ", &e);
                }
            },
        }
        nothing()
    }

    /// The wait before reconnecting is over.
    fn on_reconnect_due(&mut self, name: String) -> (r: Vec<Effect>)
        ensures
            (final(self)@, crate::app::state::effect_views(r@)) == crate::app::react::reconnect_due(old(self)@, name@),
    {
        proof {
            reveal(crate::app::react::reconnect_due);
        }
        if self.intentional_down {
            return nothing();
        }
        let profile = match self.find_profile(name.as_str()) {
            Some(p) => p.duplicate(),
            None => {
                return nothing();
            },
        };
        self.tunnel_status = TunnelStatus::Connecting(name);
        one(Effect::Connect(profile))
    }

    /// Looks whether the tunnel has dropped.
    fn auto_reconnect(&mut self, now: u64) -> (r: Vec<Effect>)
        ensures
            (final(self)@, crate::app::state::effect_views(r@)) == crate::app::react::watched(old(self)@, now),
    {
        proof {
            reveal(crate::app::react::watched);
        }
        if !self.settings.auto_reconnect || self.intentional_down {
            return nothing();
        }
        let (watch, is_connecting) = match &self.tunnel_status {
            TunnelStatus::Connected(_) => (true, false),
            TunnelStatus::Connecting(_) => (true, true),
            TunnelStatus::Error(_) => (true, false),
            _ => (false, false),
        };
        if !watch {
            return nothing();
        }
        let name = match &self.active_profile {
            Some(n) => n.clone(),
            None => {
                return nothing();
            },
        };
        let (iface_present, age): (bool, Option<u64>) = match &self.live_status {
            Some(live) => (true, latest_handshake_age_secs(live, now)),
            None => (false, None),
        };
        if !should_reconnect(age, iface_present, self.intentional_down, DEFAULT_THRESHOLD_SECS) {
            self.reconnect_attempt = 0;
            return nothing();
        }
        if is_connecting {
            return nothing();
        }
        let ghost before = self@;
        let secs: u64 = next_backoff_secs(self.reconnect_attempt);
        self.reconnect_attempt = self.reconnect_attempt.saturating_add(1);
        let mut done = nothing();
        if self.reconnect_attempt == 1 {
            self.notice(&mut done, fmt_dropped(name.as_str()));
        }
        let mut t = text3("Tunnel dropped — reconnecting to ", name.as_str(), " in ");
        let n = decimal_text(secs);
        t.push_str(n.as_str());
        t.push_str("s…");
        self.set_banner(BannerKind::Warning, t);
        proof {
            let none = Seq::<EffectModel>::empty();
            let shown = crate::app::react::notice(
                before,
                "WireGuard tunnel dropped"@,
                "Lost connection to "@ + name@,
            );
            assert(none + shown =~= shown);
        }
        also(&mut done, Effect::ReconnectAfter { secs, name });
        done
    }

    /// It is time to look at the tunnel.
    fn on_tick(&mut self, at: Moment) -> (r: Vec<Effect>)
        ensures
            (final(self)@, crate::app::state::effect_views(r@)) == crate::app::react::ticked(old(self)@, at),
    {
        proof {
            reveal(crate::app::react::ticked);
        }
        let refresh = self.status_refresh();
        let mut done = self.auto_reconnect(at.now);
        let ghost dv = crate::app::state::effect_views(done@);
        let ghost rv = crate::app::state::effect_views(refresh@);
        let mut more = refresh;
        done.append(&mut more);
        assert(crate::app::state::effect_views(done@) =~= dv + rv);
        done
    }

    /// The tunnel was seen up.
    fn on_seen_up(&mut self, live: LiveStatus, now: u64) -> (r: Vec<Effect>)
        ensures
            (final(self)@, crate::app::state::effect_views(r@)) == crate::app::react::seen_up(old(self)@, live@, now),
    {
        proof {
            reveal(crate::app::react::seen_up);
        }
        let (rx, tx) = traffic(&live);
        self.push_throughput_sample(rx, tx);
        let active = copied_text(&self.active_profile);
        if let Some(name) = &active {
            let _ = self.usage_store.record(name.as_str(), rx, tx);
        }
        self.active_health = Some(
            Health { handshake_age: latest_handshake_age_secs(&live, now) },
        );
        self.live_status = Some(live);
        one(Effect::SaveUsage)
    }

    /// The tunnel's figures were fetched, or not.
    fn on_status(&mut self, result: AppResult<Option<LiveStatus>>, now: u64) -> (r: Vec<Effect>)
        ensures
            (final(self)@, crate::app::state::effect_views(r@)) == crate::app::react::status_fetched(
                old(self)@,
                crate::app::react::fetched_view(result),
                now,
            ),
    {
        proof {
            reveal(crate::app::react::status_fetched);
        }
        match result {
            Ok(Some(live)) => self.on_seen_up(live, now),
            Ok(None) => {
                self.active_health = None;
                self.live_status = None;
                nothing()
            },
            Err(e) => {
                let missing = match &e {
                    AppError::WgNotFound => true,
                    _ => false,
                };
                if !missing {
                    self.complain(BannerKind::Warning, "Status: ", &e);
                }
                nothing()
            },
        }
    }
}

/// The bytes received and sent over all peers, each at most the greatest number that fits.
fn traffic(live: &LiveStatus) -> (r: (u64, u64))
    ensures
        r == (crate::app::react::received(live@.peers), crate::app::react::sent(live@.peers)),
{
    let ghost pv = live@.peers;
    let mut rx: u64 = 0;
    let mut tx: u64 = 0;
    let mut i: usize = 0;
    while i < live.peers.len()
        invariant
            i <= live.peers@.len(),
            pv == crate::wg::status::status_views(live.peers@),
            rx == crate::app::react::received(pv.take(i as int)),
            tx == crate::app::react::sent(pv.take(i as int)),
        decreases live.peers@.len() - i,
    {
        proof {
            let t = pv.take(i as int + 1);
            assert(t.drop_last() =~= pv.take(i as int));
            assert(t.last() == live.peers@[i as int]@);
        }
        rx = rx.saturating_add(live.peers[i].rx_bytes);
        tx = tx.saturating_add(live.peers[i].tx_bytes);
        i += 1;
    }
    assert(pv.take(i as int) =~= pv);
    (rx, tx)
}

// ── profiles and the window ─────────────────────────────────────────────────

impl State {
    /// Profiles were loaded, or not.
    fn on_profiles(&mut self, result: AppResult<Vec<WgProfile>>) -> (r: Vec<Effect>)
        ensures
            (final(self)@, crate::app::state::effect_views(r@)) == crate::app::react::profiles_loaded(
                old(self)@,
                crate::app::react::profiles_view(result),
            ),
    {
        proof {
            reveal(crate::app::react::profiles_loaded);
        }
        match result {
            Ok(profiles) => {
                self.profiles = profiles;
                self.apply_sort();
                one(Effect::TellTray(TrayCmd::SetProfiles(self.profile_names())))
            },
            Err(e) => {
                self.complain(BannerKind::Error, "Failed to load profiles: ", &e);
                nothing()
            },
        }
    }

    /// The window is to be shown.
    fn show_window(&mut self, at: Moment) -> (r: Vec<Effect>)
        ensures
            (final(self)@, crate::app::state::effect_views(r@)) == crate::app::react::window_shown(old(self)@, at),
    {
        proof {
            reveal(crate::app::react::window_shown);
        }
        match self.main_window {
            Some(id) => one(Effect::ShowWindow(id)),
            None => {
                self.main_window = Some(at.next_window);
                one(Effect::OpenWindow(at.next_window))
            },
        }
    }

    /// A window was opened.
    fn on_window_opened(&mut self, id: u64) -> (r: Vec<Effect>)
        ensures
            (final(self)@, crate::app::state::effect_views(r@)) == crate::app::react::window_opened(old(self)@, id),
    {
        proof {
            reveal(crate::app::react::window_opened);
        }
        self.main_window = Some(id);
        if self.start_hidden {
            self.start_hidden = false;
            return one(Effect::HideWindow(id));
        }
        nothing()
    }

    /// Opens the dry run of a profile.
    fn open_plan(&mut self, name: String) -> (r: Vec<Effect>)
        ensures
            (final(self)@, crate::app::state::effect_views(r@)) == crate::app::react::plan_opened(old(self)@, name@),
    {
        proof {
            reveal(crate::app::react::plan_opened);
        }
        let profile = match self.find_profile(name.as_str()) {
            Some(p) => p.duplicate(),
            None => {
                self.set_unfound(name.as_str());
                return nothing();
            },
        };
        self.dry_run_plan = Some(PlanRequest { profile, kill_switch: self.settings.kill_switch });
        self.active_profile = Some(name);
        self.screen = Screen::PlanPreview;
        nothing()
    }

    /// A destination for exporting was chosen, or none.
    fn on_export_chosen(&mut self, choice: Option<PathBuf>) -> (r: Vec<Effect>)
        ensures
            (final(self)@, crate::app::state::effect_views(r@)) == crate::app::react::export_chosen(old(self)@, choice),
    {
        proof {
            reveal(crate::app::react::export_chosen);
        }
        match choice {
            Some(path) => {
                let name = match &self.active_profile {
                    Some(n) => n.clone(),
                    None => match stem_of(&path) {
                        Some(stem) => stem,
                        None => String::new(),
                    },
                };
                assert(name@ =~= crate::app::react::export_name(self@, path));
                one(Effect::Export { name, path })
            },
            None => nothing(),
        }
    }

    /// The profiles are loaded again after a change, which a banner reports.
    fn reload(&mut self, kind: BannerKind, message: String) -> (r: Vec<Effect>)
        ensures
            (final(self)@, crate::app::state::effect_views(r@)) == crate::app::react::reloaded(old(self)@, kind, message@),
    {
        proof {
            reveal(crate::app::react::reloaded);
        }
        self.set_banner(kind, message);
        one(Effect::LoadProfiles)
    }

    /// An error is reported.
    fn failed(&mut self, kind: BannerKind, head: &str, e: &AppError) -> (r: Vec<Effect>)
        ensures
            (final(self)@, crate::app::state::effect_views(r@)) == crate::app::react::quiet(
                crate::app::react::complained(old(self)@, kind, head@, *e),
            ),
    {
        self.complain(kind, head, e);
        nothing()
    }

    /// A banner reports success, or an error.
    fn report(&mut self, result: AppResult<()>, kind: BannerKind, good: &str, bad: &str) -> (r: Vec<Effect>)
        ensures
            (final(self)@, crate::app::state::effect_views(r@)) == crate::app::react::reported(
                old(self)@,
                result,
                kind,
                good@,
                bad@,
            ),
    {
        proof {
            reveal(crate::app::react::reported);
        }
        match result {
            Ok(()) => {
                self.set_banner(kind, good.to_owned());
                nothing()
            },
            Err(e) => self.failed(BannerKind::Error, bad, &e),
        }
    }
}

// ── the editor ──────────────────────────────────────────────────────────────

impl State {
    /// Opens an editor.
    fn open_editor(&mut self, editor: EditorState) -> (r: Vec<Effect>)
        ensures
            (final(self)@, crate::app::state::effect_views(r@)) == crate::app::react::opened(old(self)@, editor@),
    {
        proof {
            reveal(crate::app::react::opened);
        }
        let text = editor.raw_text.clone();
        self.editor = Some(editor);
        self.screen = Screen::Editor;
        one(Effect::SeedRawEditor(text))
    }

    /// Opens the editor for a new profile.
    fn open_new(&mut self) -> (r: Vec<Effect>)
        ensures
            (final(self)@, crate::app::state::effect_views(r@)) == crate::app::react::opened(
                old(self)@,
                crate::app::react::new_editor(),
            ),
    {
        proof {
            reveal(crate::app::react::opened);
        }
        let draft = WgProfile::default();
        let raw_text = draft.to_conf_string();
        let editor = EditorState {
            profile_name: String::new(),
            draft,
            raw_text,
            validation_errors: Vec::new(),
            is_new: true,
        };
        assert(editor@.validation_errors =~= Seq::empty());
        assert(editor@.profile_name =~= Seq::empty());
        self.open_editor(editor)
    }

    /// Opens the editor for a profile.
    fn edit_profile(&mut self, name: String) -> (r: Vec<Effect>)
        ensures
            (final(self)@, crate::app::state::effect_views(r@)) == crate::app::react::editing(old(self)@, name@),
    {
        proof {
            reveal(crate::app::react::editing);
        }
        let draft = match self.find_profile(name.as_str()) {
            Some(p) => p.duplicate(),
            None => {
                self.set_unfound(name.as_str());
                return nothing();
            },
        };
        let raw_text = draft.to_conf_string();
        let validation_errors = draft.validate();
        self.open_editor(
            EditorState { profile_name: name, draft, raw_text, validation_errors, is_new: false },
        )
    }

    /// A field of the editor has changed.
    fn on_field(&mut self, field: EditorField) -> (r: Vec<Effect>)
        ensures
            (final(self)@, crate::app::state::effect_views(r@)) == crate::app::react::field_changed(old(self)@, field),
    {
        proof {
            reveal(crate::app::react::field_changed);
        }
        let mut open: Option<EditorState> = None;
        std::mem::swap(&mut open, &mut self.editor);
        if let Some(mut editor) = open {
            apply_editor_field(&mut editor, field);
            editor.validation_errors = editor.draft.validate();
            editor.raw_text = editor.draft.to_conf_string();
            self.editor = Some(editor);
        }
        nothing()
    }

    /// Shows the other one of the two editors.
    fn toggle_raw(&mut self) -> (r: Vec<Effect>)
        ensures
            (final(self)@, crate::app::state::effect_views(r@)) == crate::app::react::toggled(old(self)@),
    {
        proof {
            reveal(crate::app::react::toggled);
        }
        match self.screen {
            Screen::RawEditor => {
                self.screen = Screen::Editor;
                nothing()
            },
            _ => {
                self.screen = Screen::RawEditor;
                match &self.editor {
                    Some(editor) => one(Effect::SeedRawEditor(editor.raw_text.clone())),
                    None => nothing(),
                }
            },
        }
    }

    /// The text in the raw editor has changed.
    fn sync_raw_text(&mut self, text: String)
        ensures
            final(self)@ == crate::app::react::raw_changed(old(self)@, text@),
    {
        proof {
            reveal(crate::app::react::raw_changed);
        }
        let mut open: Option<EditorState> = None;
        std::mem::swap(&mut open, &mut self.editor);
        if let Some(mut editor) = open {
            let name = if editor.profile_name.as_str().is_empty() {
                editor.draft.name.clone()
            } else {
                editor.profile_name.clone()
            };
            let parsed = WgProfile::from_conf_str(name.as_str(), text.as_str());
            editor.raw_text = text;
            match parsed {
                Ok(mut draft) => {
                    let mut path: Option<PathBuf> = None;
                    std::mem::swap(&mut path, &mut editor.draft.path);
                    draft.path = path;
                    editor.validation_errors = draft.validate();
                    editor.draft = draft;
                    self.editor = Some(editor);
                    self.banner = None;
                },
                Err(e) => {
                    self.editor = Some(editor);
                    self.complain(BannerKind::Warning, "Parse error: ", &e);
                },
            }
        }
    }

    /// Saves the draft.
    fn save_editor(&mut self) -> (r: Vec<Effect>)
        ensures
            (final(self)@, crate::app::state::effect_views(r@)) == crate::app::react::saving(old(self)@),
    {
        proof {
            reveal(crate::app::react::saving);
        }
        let mut open: Option<EditorState> = None;
        std::mem::swap(&mut open, &mut self.editor);
        match open {
            None => nothing(),
            Some(mut editor) => {
                if !editor.profile_name.as_str().is_empty() {
                    editor.draft.name = editor.profile_name.clone();
                }
                let errors = editor.draft.validate();
                proof {
                    assert(crate::config::validate::complaints(errors@).len() == errors@.len());
                }
                if errors.len() > 0 {
                    editor.validation_errors = errors;
                    self.editor = Some(editor);
                    self.set_banner(
                        BannerKind::Error,
                        "Cannot save: fix the validation errors first".to_owned(),
                    );
                    return nothing();
                }
                if trim(editor.draft.name.as_str()).is_empty() {
                    self.editor = Some(editor);
                    self.set_banner(BannerKind::Error, "Profile name must not be empty".to_owned());
                    return nothing();
                }
                let profile = editor.draft.duplicate();
                let is_new = editor.is_new;
                self.editor = Some(editor);
                one(Effect::SaveProfile { profile, is_new })
            },
        }
    }

    /// Closes the editor.
    fn close_editor(&mut self)
        ensures
            final(self)@ == crate::app::react::closed(old(self)@),
    {
        proof {
            reveal(crate::app::react::closed);
        }
        self.editor = None;
        self.screen = Screen::ProfileList;
    }

    /// Keys were generated, or not.
    fn on_keypair(&mut self, result: AppResult<(String, String)>) -> (r: Vec<Effect>)
        ensures
            (final(self)@, crate::app::state::effect_views(r@)) == crate::app::react::keys_generated(
                old(self)@,
                crate::app::react::keys_view(result),
            ),
    {
        proof {
            reveal(crate::app::react::keys_generated);
        }
        match result {
            Ok((private_key, public_key)) => {
                let mut open: Option<EditorState> = None;
                std::mem::swap(&mut open, &mut self.editor);
                if let Some(mut editor) = open {
                    editor.draft.interface.private_key = private_key;
                    editor.validation_errors = editor.draft.validate();
                    editor.raw_text = editor.draft.to_conf_string();
                    self.editor = Some(editor);
                }
                let t = text3("Generated keypair (public key: ", public_key.as_str(), ")");
                self.set_banner(BannerKind::Info, t);
                nothing()
            },
            Err(e) => self.failed(BannerKind::Error, "Keygen failed: ", &e),
        }
    }
}

// ── settings ────────────────────────────────────────────────────────────────

impl State {
    /// Settings were loaded, or not.
    fn on_settings(&mut self, result: AppResult<AppSettings>) -> (r: Vec<Effect>)
        ensures
            (final(self)@, crate::app::state::effect_views(r@)) == crate::app::react::settings_loaded(
                old(self)@,
                crate::app::react::result_view(result),
            ),
    {
        proof {
            reveal(crate::app::react::settings_loaded);
        }
        match result {
            Ok(settings) => {
                self.auto_reconnect = settings.auto_reconnect;
                self.settings = settings;
                nothing()
            },
            Err(e) => self.failed(BannerKind::Warning, "Failed to load settings: ", &e),
        }
    }

    /// Dropped tunnels are to be reconnected, or no longer.
    fn toggle_auto_reconnect(&mut self, on: bool) -> (r: Vec<Effect>)
        ensures
            (final(self)@, crate::app::state::effect_views(r@))
                == crate::app::react::auto_reconnect_toggled(old(self)@, on),
    {
        proof {
            reveal(crate::app::react::auto_reconnect_toggled);
        }
        self.settings.auto_reconnect = on;
        self.auto_reconnect = on;
        one(Effect::SaveSettings)
    }

    /// The program is to start on login, or no longer.
    fn toggle_autostart(&mut self, on: bool) -> (r: Vec<Effect>)
        ensures
            (final(self)@, crate::app::state::effect_views(r@))
                == crate::app::react::autostart_toggled(old(self)@, on),
    {
        proof {
            reveal(crate::app::react::autostart_toggled);
        }
        self.settings.autostart = on;
        two(Effect::ApplyAutostart(on), Effect::SaveSettings)
    }

    /// Another theme is chosen.
    fn change_theme(&mut self, theme: ThemePreference) -> (r: Vec<Effect>)
        ensures
            (final(self)@, crate::app::state::effect_views(r@))
                == crate::app::react::theme_changed(old(self)@, theme@),
    {
        proof {
            reveal(crate::app::react::theme_changed);
        }
        self.settings.theme = theme;
        one(Effect::SaveSettings)
    }

    /// Notifications are to be shown, or no longer.
    fn toggle_notifications(&mut self, on: bool) -> (r: Vec<Effect>)
        ensures
            (final(self)@, crate::app::state::effect_views(r@))
                == crate::app::react::notifications_toggled(old(self)@, on),
    {
        proof {
            reveal(crate::app::react::notifications_toggled);
        }
        self.notifications_enabled = on;
        one(Effect::SaveSettings)
    }

    /// The kill switch is wanted, or no longer.
    fn toggle_kill_switch(&mut self, on: bool) -> (r: Vec<Effect>)
        ensures
            (final(self)@, crate::app::state::effect_views(r@)) == crate::app::react::kill_switch_toggled(old(self)@, on),
    {
        proof {
            reveal(crate::app::react::kill_switch_toggled);
        }
        self.settings.kill_switch = on;
        if on {
            self.want_kill_switch()
        } else {
            let cmd = KillSwitch.disarm();
            two(Effect::KillSwitch { armed: false, cmd }, Effect::SaveSettings)
        }
    }

    /// What is done when the kill switch is wanted.
    fn want_kill_switch(&self) -> (r: Vec<Effect>)
        ensures
            crate::app::state::effect_views(r@) == crate::app::react::kill_switch_wanted(self@),
    {
        proof {
            reveal(crate::app::react::kill_switch_wanted);
        }
        let is_connected = match &self.tunnel_status {
            TunnelStatus::Connected(_) => true,
            _ => false,
        };
        if is_connected {
            let name = self.tunnel_name();
            if let Some(cmd) = self.arm_kill_switch(name.as_str()) {
                return two(Effect::KillSwitch { armed: true, cmd }, Effect::SaveSettings);
            }
        }
        one(Effect::SaveSettings)
    }

    /// The profile to connect on boot has changed.
    fn change_boot(&mut self, choice: Option<String>) -> (r: Vec<Effect>)
        ensures
            (final(self)@, crate::app::state::effect_views(r@)) == crate::app::react::boot_changed(
                old(self)@,
                crate::app::state::opt(choice),
            ),
    {
        proof {
            reveal(crate::app::react::boot_changed);
        }
        let mut done = nothing();
        match &choice {
            Some(profile) => {
                also(
                    &mut done,
                    Effect::ConfigureBoot { profile: profile.clone(), action: BootAction::Enable },
                );
            },
            None => {
                if let Some(profile) = &self.settings.connect_on_boot {
                    also(
                        &mut done,
                        Effect::ConfigureBoot {
                            profile: profile.clone(),
                            action: BootAction::Disable,
                        },
                    );
                }
            },
        }
        let ghost boot = crate::app::state::effect_views(done@);
        self.settings.connect_on_boot = choice;
        also(&mut done, Effect::SaveSettings);
        proof {
            let all = crate::app::react::boot_changed(
                old(self)@,
                crate::app::state::opt(choice),
            ).1;
            assert(boot =~= all.drop_last());
            assert(crate::app::state::effect_views(done@) =~= all);
        }
        done
    }
}

// ── the server ──────────────────────────────────────────────────────────────

impl State {
    /// Starts the server, or stops it where it is up.
    fn toggle_server(&mut self) -> (r: Vec<Effect>)
        ensures
            (final(self)@, crate::app::state::effect_views(r@)) == crate::app::react::server_toggled(old(self)@),
    {
        proof {
            reveal(crate::app::react::server_toggled);
        }
        match &self.server {
            None => {
                self.set_banner(BannerKind::Warning, "No server to start".to_owned());
                nothing()
            },
            Some(config) => {
                if self.server_running {
                    one(Effect::StopServer)
                } else {
                    one(Effect::StartServer(config.duplicate()))
                }
            },
        }
    }

    /// The server was started or stopped, or not.
    fn on_server_op(&mut self, result: AppResult<()>) -> (r: Vec<Effect>)
        ensures
            (final(self)@, crate::app::state::effect_views(r@)) == crate::app::react::server_switched(old(self)@, result),
    {
        proof {
            reveal(crate::app::react::server_switched);
        }
        match result {
            Ok(()) => {
                self.server_running = !self.server_running;
                let verb = if self.server_running {
                    "started"
                } else {
                    "stopped"
                };
                let t = text2("Server ", verb);
                self.set_banner(BannerKind::Success, t);
                nothing()
            },
            Err(e) => self.failed(BannerKind::Error, "Server op failed: ", &e),
        }
    }

    /// Turns address translation on or off.
    fn toggle_nat(&mut self, on: bool) -> (r: Vec<Effect>)
        ensures
            (final(self)@, crate::app::state::effect_views(r@)) == crate::app::react::nat_toggled(old(self)@, on),
    {
        proof {
            reveal(crate::app::react::nat_toggled);
        }
        match &self.server {
            None => nothing(),
            Some(config) => {
                if on {
                    match &config.egress_iface {
                        Some(egress) => one(
                            Effect::SwitchNat {
                                enabled: true,
                                cmd: PrivCmd::NatEnable {
                                    subnet: config.subnet.clone(),
                                    egress_iface: egress.clone(),
                                },
                            },
                        ),
                        None => {
                            self.set_banner(
                                BannerKind::Warning,
                                "No egress interface detected — cannot enable NAT".to_owned(),
                            );
                            nothing()
                        },
                    }
                } else {
                    one(Effect::SwitchNat { enabled: false, cmd: PrivCmd::NatDisable })
                }
            },
        }
    }

    /// Address translation was turned on or off, or not.
    fn on_nat(&mut self, enabled: bool, result: AppResult<()>) -> (r: Vec<Effect>)
        ensures
            (final(self)@, crate::app::state::effect_views(r@)) == crate::app::react::nat_switched(old(self)@, enabled, result),
    {
        proof {
            reveal(crate::app::react::nat_switched);
        }
        match result {
            Ok(()) => {
                let t = if enabled {
                    "NAT enabled"
                } else {
                    "NAT disabled"
                };
                self.set_banner(BannerKind::Success, t.to_owned());
            },
            Err(e) => {
                if enabled {
                    self.complain(BannerKind::Error, "NAT enable failed: ", &e);
                } else {
                    self.complain(BannerKind::Error, "NAT disable failed: ", &e);
                }
            },
        }
        nothing()
    }

    /// Adds a client of the typed name.
    fn add_peer(&mut self) -> (r: Vec<Effect>)
        ensures
            (final(self)@, crate::app::state::effect_views(r@)) == crate::app::react::adding_peer(old(self)@),
    {
        proof {
            reveal(crate::app::react::adding_peer);
        }
        let config = match &self.server {
            Some(c) => c.duplicate(),
            None => {
                return nothing();
            },
        };
        let mut name = String::new();
        std::mem::swap(&mut name, &mut self.server_peer_name_input);
        assert(self@.server_peer_name_input =~= Seq::empty());
        if trim(name.as_str()).is_empty() {
            self.set_banner(BannerKind::Warning, "Enter a client name first".to_owned());
            return nothing();
        }
        one(Effect::AddPeer { config, name, running: self.server_running })
    }

    /// A client was added, or not.
    fn on_peer_added(&mut self, result: AppResult<ServerConfig>) -> (r: Vec<Effect>)
        ensures
            (final(self)@, crate::app::state::effect_views(r@)) == crate::app::react::peer_added(
                old(self)@,
                crate::app::react::result_view(result),
            ),
    {
        proof {
            reveal(crate::app::react::peer_added);
        }
        match result {
            Ok(config) => {
                let n: usize = config.peers.len();
                proof {
                    assert(config@.peers.len() == n);
                }
                if n > 0 {
                    let peer = &config.peers[n - 1];
                    assert(peer@ == config@.peers.last());
                    let conf = config.client_conf(peer);
                    self.last_client_conf = Some((peer.name.clone(), conf));
                }
                self.server = Some(config);
                self.set_banner(BannerKind::Success, "Client added".to_owned());
                nothing()
            },
            Err(e) => self.failed(BannerKind::Error, "Add client failed: ", &e),
        }
    }

    /// Removes a client.
    fn remove_peer(&mut self, idx: usize) -> (r: Vec<Effect>)
        ensures
            (final(self)@, crate::app::state::effect_views(r@)) == crate::app::react::removing_peer(old(self)@, idx),
    {
        proof {
            reveal(crate::app::react::removing_peer);
        }
        let config = match &self.server {
            Some(c) => c.duplicate(),
            None => {
                return nothing();
            },
        };
        self.last_client_conf = None;
        one(Effect::RemovePeer { config, idx, running: self.server_running })
    }

    /// A server takes its place, or an error is reported.
    fn set_server(&mut self, result: AppResult<ServerConfig>, kind: BannerKind, good: &str, bad: &str) -> (r: Vec<Effect>)
        ensures
            (final(self)@, crate::app::state::effect_views(r@)) == crate::app::react::server_set(
                old(self)@,
                result,
                kind,
                good@,
                bad@,
            ),
    {
        proof {
            reveal(crate::app::react::server_set);
        }
        match result {
            Ok(config) => {
                self.server = Some(config);
                self.set_banner(kind, good.to_owned());
                nothing()
            },
            Err(e) => self.failed(BannerKind::Error, bad, &e),
        }
    }
}

// ── everything ──────────────────────────────────────────────────────────────

impl State {
    /// What a message is about.
    fn topic(message: &Message) -> (r: Topic)
        ensures
            r == crate::app::react::topic_of(*message),
    {
        match message {
            Message::SettingsLoaded(_) => Topic::Program,
            Message::UsageLoaded(_) => Topic::Program,
            Message::RaiseWindowRequested => Topic::Program,
            Message::TrayOpen => Topic::Program,
            Message::TrayQuit => Topic::Program,
            Message::WindowCloseRequested(_) => Topic::Program,
            Message::WindowOpened(_) => Topic::Program,
            Message::PublicIpFetched(_) => Topic::Program,
            Message::OpenSettings => Topic::Program,
            Message::GoHome => Topic::Program,
            Message::DismissBanner => Topic::Program,
            Message::OpenPlanPreview(_) => Topic::Program,
            Message::ProfilesLoaded(_) => Topic::Profiles,
            Message::SearchChanged(_) => Topic::Profiles,
            Message::SortChanged(_) => Topic::Profiles,
            Message::SelectProfile(_) => Topic::Profiles,
            Message::DeleteProfile(_) => Topic::Profiles,
            Message::DeleteResult(_) => Topic::Profiles,
            Message::ImportProfile => Topic::Profiles,
            Message::ImportFileChosen(_) => Topic::Profiles,
            Message::ImportResult(_) => Topic::Profiles,
            Message::ImportFromQr => Topic::Profiles,
            Message::ImportFromQrChosen(_) => Topic::Profiles,
            Message::ExportProfile(_) => Topic::Profiles,
            Message::ExportFileChosen(_) => Topic::Profiles,
            Message::ExportResult(_) => Topic::Profiles,
            Message::TrayConnectProfile(_) => Topic::Tunnel,
            Message::TrayDisconnect => Topic::Tunnel,
            Message::ConnectProfile(_) => Topic::Tunnel,
            Message::DisconnectCurrent => Topic::Tunnel,
            Message::ConnectResult(_) => Topic::Tunnel,
            Message::DisconnectResult(_) => Topic::Tunnel,
            Message::KillSwitchResult { .. } => Topic::Tunnel,
            Message::ReconnectTick(_) => Topic::Tunnel,
            Message::StatusTick => Topic::Tunnel,
            Message::StatusFetched(_) => Topic::Tunnel,
            Message::OpenNewProfile => Topic::Editing,
            Message::EditProfile(_) => Topic::Editing,
            Message::EditorFieldChanged(_) => Topic::Editing,
            Message::EditorToggleRaw => Topic::Editing,
            Message::RawEditorAction(_) => Topic::Editing,
            Message::EditorSave => Topic::Editing,
            Message::EditorSaveResult(_) => Topic::Editing,
            Message::EditorCancel => Topic::Editing,
            Message::GenerateKeypair => Topic::Editing,
            Message::KeypairGenerated(_) => Topic::Editing,
            Message::SettingAutoReconnectToggled(_) => Topic::Settings,
            Message::SettingAutoStartToggled(_) => Topic::Settings,
            Message::AutostartApplied(_) => Topic::Settings,
            Message::SettingKillSwitchToggled(_) => Topic::Settings,
            Message::SettingConnectOnBootChanged(_) => Topic::Settings,
            Message::BootConfigResult(_) => Topic::Settings,
            Message::SettingThemeChanged(_) => Topic::Settings,
            Message::SettingNotificationsToggled(_) => Topic::Settings,
            Message::SettingsSaved(_) => Topic::Settings,
            Message::OpenServer => Topic::Server,
            Message::ServerLoadResult(_) => Topic::Server,
            Message::ServerCreate(_) => Topic::Server,
            Message::ServerCreateResult(_) => Topic::Server,
            Message::ServerStartToggle => Topic::Server,
            Message::ServerOpResult(_) => Topic::Server,
            Message::ServerNatToggle(_) => Topic::Server,
            Message::ServerNatResult { .. } => Topic::Server,
            Message::ServerPeerNameChanged(_) => Topic::Clients,
            Message::ServerAddPeer => Topic::Clients,
            Message::ServerAddPeerResult(_) => Topic::Clients,
            Message::ServerRemovePeer(_) => Topic::Clients,
            Message::ServerRemovePeerResult(_) => Topic::Clients,
            Message::ServerStatusTick => Topic::Clients,
            Message::ServerStatusResult(_) => Topic::Clients,
        }
    }

    /// Takes in a message about the window, the tray and the start.
    fn update_program(&mut self, message: Message, at: Moment) -> (r: Vec<Effect>)
        ensures
            (final(self)@, crate::app::state::effect_views(r@)) == crate::app::react::react_program(
                old(self)@,
                message,
                at,
            ),
    {
        proof {
            reveal(crate::app::react::react_program);
        }
        match message {
            Message::SettingsLoaded(result) => self.on_settings(result),
            Message::UsageLoaded(result) => match result {
                Ok(store) => {
                    self.usage_store = store;
                    nothing()
                },
                Err(e) => self.failed(BannerKind::Warning, "Failed to load usage: ", &e),
            },
            Message::RaiseWindowRequested => self.show_window(at),
            Message::TrayOpen => self.show_window(at),
            Message::TrayQuit => one(Effect::Exit),
            Message::WindowCloseRequested(id) => {
                self.main_window = Some(id);
                one(Effect::HideWindow(id))
            },
            Message::WindowOpened(id) => self.on_window_opened(id),
            Message::PublicIpFetched(result) => {
                self.public_ip_loading = false;
                self.public_ip = match result {
                    Ok(ip) => Some(ip),
                    Err(_) => None,
                };
                nothing()
            },
            Message::OpenSettings => {
                self.screen = Screen::Settings;
                nothing()
            },
            Message::GoHome => {
                self.screen = Screen::ProfileList;
                self.dry_run_plan = None;
                nothing()
            },
            Message::DismissBanner => {
                self.banner = None;
                nothing()
            },
            Message::OpenPlanPreview(name) => self.open_plan(name),
            _ => nothing(),
        }
    }

    /// Takes in a message about the list of profiles.
    fn update_profiles(&mut self, message: Message, at: Moment) -> (r: Vec<Effect>)
        ensures
            (final(self)@, crate::app::state::effect_views(r@)) == crate::app::react::react_profiles(
                old(self)@,
                message,
            ),
    {
        proof {
            reveal(crate::app::react::react_profiles);
        }
        match message {
            Message::ProfilesLoaded(result) => self.on_profiles(result),
            Message::SearchChanged(q) => {
                self.search_query = q;
                nothing()
            },
            Message::SortChanged(order) => {
                self.sort_order = order;
                self.apply_sort();
                nothing()
            },
            Message::SelectProfile(name) => {
                self.active_profile = Some(name);
                nothing()
            },
            Message::DeleteProfile(name) => one(Effect::DeleteProfile(name)),
            Message::DeleteResult(result) => match result {
                Ok(()) => self.reload(BannerKind::Info, "Profile deleted".to_owned()),
                Err(e) => self.failed(BannerKind::Error, "Delete failed: ", &e),
            },
            Message::ImportProfile => one(Effect::PickImportFile),
            Message::ImportFileChosen(choice) => match choice {
                Some(path) => one(Effect::Import(path)),
                None => nothing(),
            },
            Message::ImportResult(result) => match result {
                Ok(profile) => {
                    let t = text3("Imported '", profile.name.as_str(), "'");
                    self.reload(BannerKind::Success, t)
                },
                Err(e) => self.failed(BannerKind::Error, "Import failed: ", &e),
            },
            Message::ImportFromQr => one(Effect::PickQrImage),
            Message::ImportFromQrChosen(choice) => match choice {
                Some(path) => one(Effect::ImportQr(path)),
                None => nothing(),
            },
            Message::ExportProfile(name) => one(Effect::PickExportFile(name)),
            Message::ExportFileChosen(choice) => self.on_export_chosen(choice),
            Message::ExportResult(result) => self.report(
                result,
                BannerKind::Success,
                "Exported profile",
                "Export failed: ",
            ),
            _ => nothing(),
        }
    }

    /// Takes in a message about the tunnel.
    fn update_tunnel(&mut self, message: Message, at: Moment) -> (r: Vec<Effect>)
        ensures
            (final(self)@, crate::app::state::effect_views(r@)) == crate::app::react::react_tunnel(
                old(self)@,
                message,
                at,
            ),
    {
        proof {
            reveal(crate::app::react::react_tunnel);
        }
        match message {
            Message::TrayConnectProfile(name) => self.connect_profile(name),
            Message::TrayDisconnect => self.disconnect_current(),
            Message::ConnectProfile(name) => self.connect_profile(name),
            Message::DisconnectCurrent => self.disconnect_current(),
            Message::ConnectResult(result) => match result {
                Ok(()) => self.on_connected(at),
                Err(e) => self.on_unconnected(e),
            },
            Message::DisconnectResult(result) => match result {
                Ok(()) => self.on_disconnected(),
                Err(e) => self.on_undisconnected(e),
            },
            Message::KillSwitchResult { armed, result } => self.on_kill_switch(armed, result),
            Message::ReconnectTick(name) => self.on_reconnect_due(name),
            Message::StatusTick => self.on_tick(at),
            Message::StatusFetched(result) => self.on_status(result, at.now),
            _ => nothing(),
        }
    }

    /// Takes in a message about the editor.
    fn update_editing(&mut self, message: Message, at: Moment) -> (r: Vec<Effect>)
        ensures
            (final(self)@, crate::app::state::effect_views(r@)) == crate::app::react::react_editing(
                old(self)@,
                message,
            ),
    {
        proof {
            reveal(crate::app::react::react_editing);
        }
        match message {
            Message::OpenNewProfile => self.open_new(),
            Message::EditProfile(name) => self.edit_profile(name),
            Message::EditorFieldChanged(field) => self.on_field(field),
            Message::EditorToggleRaw => self.toggle_raw(),
            Message::RawEditorAction(text) => {
                self.sync_raw_text(text);
                nothing()
            },
            Message::EditorSave => self.save_editor(),
            Message::EditorSaveResult(result) => match result {
                Ok(profile) => {
                    self.close_editor();
                    let t = text3("Saved '", profile.name.as_str(), "'");
                    self.reload(BannerKind::Success, t)
                },
                Err(e) => self.failed(BannerKind::Error, "Save failed: ", &e),
            },
            Message::EditorCancel => {
                self.close_editor();
                self.banner = None;
                nothing()
            },
            Message::GenerateKeypair => one(Effect::GenerateKeypair),
            Message::KeypairGenerated(result) => self.on_keypair(result),
            _ => nothing(),
        }
    }

    /// Takes in a message about the settings.
    fn update_settings(&mut self, message: Message, at: Moment) -> (r: Vec<Effect>)
        ensures
            (final(self)@, crate::app::state::effect_views(r@)) == crate::app::react::react_settings(
                old(self)@,
                message,
            ),
    {
        proof {
            reveal(crate::app::react::react_settings);
        }
        match message {
            Message::SettingAutoReconnectToggled(on) => self.toggle_auto_reconnect(on),
            Message::SettingAutoStartToggled(on) => self.toggle_autostart(on),
            Message::AutostartApplied(result) => match result {
                Ok(()) => nothing(),
                Err(e) => self.failed(BannerKind::Error, "Autostart: ", &e),
            },
            Message::SettingKillSwitchToggled(on) => self.toggle_kill_switch(on),
            Message::SettingConnectOnBootChanged(choice) => self.change_boot(choice),
            Message::BootConfigResult(result) => self.report(
                result,
                BannerKind::Success,
                "Connect-on-boot updated",
                "Connect-on-boot update failed: ",
            ),
            Message::SettingThemeChanged(theme) => self.change_theme(theme),
            Message::SettingNotificationsToggled(on) => self.toggle_notifications(on),
            Message::SettingsSaved(result) => match result {
                Ok(()) => nothing(),
                Err(e) => self.failed(BannerKind::Error, "Save settings failed: ", &e),
            },
            _ => nothing(),
        }
    }

    /// Takes in a message about the server.
    fn update_server(&mut self, message: Message, at: Moment) -> (r: Vec<Effect>)
        ensures
            (final(self)@, crate::app::state::effect_views(r@)) == crate::app::react::react_server(
                old(self)@,
                message,
            ),
    {
        proof {
            reveal(crate::app::react::react_server);
        }
        match message {
            Message::OpenServer => {
                self.screen = Screen::Server;
                if self.server.is_none() {
                    return one(Effect::LoadServer);
                }
                nothing()
            },
            Message::ServerLoadResult(result) => match result {
                Ok(Some(config)) => {
                    self.server = Some(config);
                    nothing()
                },
                Ok(None) => nothing(),
                Err(e) => self.failed(BannerKind::Warning, "Load server failed: ", &e),
            },
            Message::ServerCreate(host) => one(Effect::CreateServer(host)),
            Message::ServerCreateResult(result) => self.set_server(
                result,
                BannerKind::Success,
                "Server created",
                "Create server failed: ",
            ),
            Message::ServerStartToggle => self.toggle_server(),
            Message::ServerOpResult(result) => self.on_server_op(result),
            Message::ServerNatToggle(on) => self.toggle_nat(on),
            Message::ServerNatResult { enabled, result } => self.on_nat(enabled, result),
            _ => nothing(),
        }
    }

    /// Takes in a message about the server's clients.
    fn update_clients(&mut self, message: Message, at: Moment) -> (r: Vec<Effect>)
        ensures
            (final(self)@, crate::app::state::effect_views(r@)) == crate::app::react::react_clients(
                old(self)@,
                message,
            ),
    {
        proof {
            reveal(crate::app::react::react_clients);
        }
        match message {
            Message::ServerPeerNameChanged(name) => {
                self.server_peer_name_input = name;
                nothing()
            },
            Message::ServerAddPeer => self.add_peer(),
            Message::ServerAddPeerResult(result) => self.on_peer_added(result),
            Message::ServerRemovePeer(idx) => self.remove_peer(idx),
            Message::ServerRemovePeerResult(result) => self.set_server(
                result,
                BannerKind::Info,
                "Client removed",
                "Remove client failed: ",
            ),
            Message::ServerStatusTick => match &self.server {
                Some(config) => {
                    if self.server_running {
                        one(Effect::FetchServerStatus(config.duplicate()))
                    } else {
                        nothing()
                    }
                },
                None => nothing(),
            },
            Message::ServerStatusResult(result) => match result {
                Ok(peers) => {
                    self.server_peer_status = peers;
                    nothing()
                },
                Err(e) => self.failed(BannerKind::Warning, "Server status: ", &e),
            },
            _ => nothing(),
        }
    }

    /// Takes in that something happened, and says what is to be done, in order.
    pub fn update(&mut self, message: Message, at: Moment) -> (r: Vec<Effect>)
        ensures
            (final(self)@, crate::app::state::effect_views(r@)) == crate::app::react::react(
                old(self)@,
                message,
                at,
            ),
    {
        match State::topic(&message) {
            Topic::Program => self.update_program(message, at),
            Topic::Profiles => self.update_profiles(message, at),
            Topic::Tunnel => self.update_tunnel(message, at),
            Topic::Editing => self.update_editing(message, at),
            Topic::Settings => self.update_settings(message, at),
            Topic::Server => self.update_server(message, at),
            Topic::Clients => self.update_clients(message, at),
        }
    }
}

} // verus!
