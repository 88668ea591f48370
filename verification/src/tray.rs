//! The tray icon: what it shows and what its menu offers.

use crate::text::{same, text2};
use vstd::prelude::*;

verus! {

/// What the user does in the tray.
#[derive(Debug, Clone)]
pub enum TrayEvent {
    Open,
    Quit,
    /// Connect a profile.
    ConnectProfile(String),
    /// Disconnect.
    Disconnect,
}

/// What the program tells the tray.
#[derive(Debug, Clone)]
pub enum TrayCmd {
    /// The profiles that can be connected.
    SetProfiles(Vec<String>),
    /// The profile that is connected, if any.
    SetConnected(Option<String>),
}

/// What the tray is told.
pub enum TrayCmdModel {
    SetProfiles(Seq<Seq<char>>),
    SetConnected(Option<Seq<char>>),
}

impl View for TrayCmd {
    type V = TrayCmdModel;

    open spec fn view(&self) -> TrayCmdModel {
        match *self {
            TrayCmd::SetProfiles(v) => TrayCmdModel::SetProfiles(crate::text::views(v@)),
            TrayCmd::SetConnected(o) => TrayCmdModel::SetConnected(
                crate::config::profile::opt_view(o),
            ),
        }
    }
}

/// What the tray knows.
#[derive(Debug, Clone)]
pub struct AppTray {
    /// Whether a tunnel is up.
    pub connected: bool,
    /// The profiles that can be connected.
    pub profiles: Vec<String>,
    /// The profile that is connected.
    pub connected_profile: Option<String>,
}

/// What the tray knows.
pub struct TrayModel {
    pub connected: bool,
    pub profiles: Seq<Seq<char>>,
    pub connected_profile: Option<Seq<char>>,
}

impl View for AppTray {
    type V = TrayModel;

    open spec fn view(&self) -> TrayModel {
        TrayModel {
            connected: self.connected,
            profiles: crate::text::views(self.profiles@),
            connected_profile: crate::config::profile::opt_view(self.connected_profile),
        }
    }
}

/// An entry of the tray's menu.
#[derive(Debug, Clone)]
pub enum MenuEntry {
    /// A line between entries.
    Separator,
    /// An entry that can be chosen while it is enabled.
    Item { label: String, enabled: bool, event: TrayEvent },
    /// A menu of its own.
    Submenu { label: String, enabled: bool, entries: Vec<ProfileEntry> },
}

/// The entry of one profile in the menu of profiles.
#[derive(Debug, Clone)]
pub struct ProfileEntry {
    pub profile: String,
    pub label: String,
    pub enabled: bool,
}

/// The entry of one profile.
pub struct ProfileEntryModel {
    pub profile: Seq<char>,
    pub label: Seq<char>,
    pub enabled: bool,
}

impl View for ProfileEntry {
    type V = ProfileEntryModel;

    open spec fn view(&self) -> ProfileEntryModel {
        ProfileEntryModel {
            profile: self.profile@,
            label: self.label@,
            enabled: self.enabled,
        }
    }
}

/// The entry of a profile: the connected one says so and cannot be chosen.
pub open spec fn profile_entry(tray: TrayModel, name: Seq<char>) -> ProfileEntryModel {
    if tray.connected_profile == Some(name) {
        ProfileEntryModel { profile: name, label: name + " (connected)"@, enabled: false }
    } else {
        ProfileEntryModel { profile: name, label: name, enabled: true }
    }
}

/// The entries of all profiles.
pub open spec fn profile_entries(tray: TrayModel) -> Seq<ProfileEntryModel> {
    tray.profiles.map_values(|name: Seq<char>| profile_entry(tray, name))
}

/// What a row of entries says.
pub open spec fn entry_views(v: Seq<ProfileEntry>) -> Seq<ProfileEntryModel> {
    v.map_values(|e: ProfileEntry| e@)
}

/// Whether an entry is a plain one with these properties.
pub open spec fn is_item(e: MenuEntry, text: Seq<char>, on: bool, sent: TrayEvent) -> bool {
    e matches MenuEntry::Item { label, enabled, event } && label@ == text && enabled == on && event
        == sent
}

impl AppTray {
    /// A tray before any profile is known.
    pub fn new() -> (r: Self)
        ensures
            r@ == (TrayModel {
                connected: false,
                profiles: Seq::empty(),
                connected_profile: None,
            }),
    {
        let r = AppTray { connected: false, profiles: Vec::new(), connected_profile: None };
        assert(r@.profiles =~= Seq::empty());
        r
    }

    /// Takes what the program tells the tray.
    pub fn apply(&mut self, cmd: TrayCmd)
        ensures
            final(self)@ == (match cmd@ {
                TrayCmdModel::SetProfiles(profiles) => TrayModel { profiles, ..old(self)@ },
                TrayCmdModel::SetConnected(connected_profile) => TrayModel {
                    connected: connected_profile is Some,
                    connected_profile,
                    ..old(self)@
                },
            }),
    {
        match cmd {
            TrayCmd::SetProfiles(profiles) => {
                self.profiles = profiles;
            },
            TrayCmd::SetConnected(connected) => {
                self.connected = connected.is_some();
                self.connected_profile = connected;
            },
        }
    }

    /// The name of the icon.
    pub fn icon_name(&self) -> (r: String)
        ensures
            r@ == if self@.connected {
                "network-vpn"@
            } else {
                "network-vpn-disconnected"@
            },
    {
        if self.connected {
            "network-vpn".to_owned()
        } else {
            "network-vpn-disconnected".to_owned()
        }
    }

    /// The title.
    pub fn title(&self) -> (r: String)
        ensures
            r@ == if self@.connected {
                "WireGuard — connected"@
            } else {
                "WireGuard — disconnected"@
            },
    {
        if self.connected {
            "WireGuard — connected".to_owned()
        } else {
            "WireGuard — disconnected".to_owned()
        }
    }

    /// The entries of all profiles.
    pub fn connect_entries(&self) -> (r: Vec<ProfileEntry>)
        ensures
            entry_views(r@) == profile_entries(self@),
    {
        let mut out: Vec<ProfileEntry> = Vec::new();
        let mut i: usize = 0;
        while i < self.profiles.len()
            invariant
                i <= self.profiles@.len(),
                out@.len() == i,
                forall|j: int|
                    0 <= j < i ==> (#[trigger] out@[j])@ == profile_entry(
                        self@,
                        self.profiles@[j]@,
                    ),
            decreases self.profiles@.len() - i,
        {
            let name = self.profiles[i].as_str();
            let is_connected = match &self.connected_profile {
                Some(c) => same(c.as_str(), name),
                None => false,
            };
            let label = if is_connected {
                text2(name, " (connected)")
            } else {
                name.to_owned()
            };
            out.push(ProfileEntry { profile: name.to_owned(), label, enabled: !is_connected });
            i += 1;
        }
        assert(entry_views(out@) =~= profile_entries(self@));
        out
    }

    /// The menu: to open the window, to connect a profile, to disconnect while connected, and to
    /// quit.
    pub fn menu(&self) -> (r: Vec<MenuEntry>)
        ensures
            r@.len() == 6,
            is_item(r@[0], "Open"@, true, TrayEvent::Open),
            r@[1] is Separator,
            r@[2] matches MenuEntry::Submenu { label, enabled, entries } && label@ == "Connect"@
                && entry_views(entries@) == profile_entries(self@) && enabled
                == (self@.profiles.len() > 0),
            is_item(r@[3], "Disconnect"@, self@.connected, TrayEvent::Disconnect),
            r@[4] is Separator,
            is_item(r@[5], "Quit"@, true, TrayEvent::Quit),
    {
        let entries = self.connect_entries();
        let enabled = entries.len() > 0;
        proof {
            assert(entry_views(entries@).len() == entries@.len());
        }
        vec![
            MenuEntry::Item { label: "Open".to_owned(), enabled: true, event: TrayEvent::Open },
            MenuEntry::Separator,
            MenuEntry::Submenu { label: "Connect".to_owned(), enabled, entries },
            MenuEntry::Item {
                label: "Disconnect".to_owned(),
                enabled: self.connected,
                event: TrayEvent::Disconnect,
            },
            MenuEntry::Separator,
            MenuEntry::Item { label: "Quit".to_owned(), enabled: true, event: TrayEvent::Quit },
        ]
    }
}

/// An entry of the menu of profiles can be chosen exactly where its profile is not the connected
/// one.
pub proof fn law_only_the_connected_profile_is_disabled(tray: TrayModel, i: int)
    requires
        0 <= i < tray.profiles.len(),
    ensures
        profile_entries(tray)[i].enabled <==> tray.connected_profile != Some(tray.profiles[i]),
        profile_entries(tray)[i].profile == tray.profiles[i],
{
}

/// The menu offers, in this order, to open the window, to connect a profile, to disconnect and to
/// quit. Disconnecting can be chosen exactly while connected, connecting exactly while there are
/// profiles; each entry sends the event that it is named for.
pub proof fn law_the_menu_does_what_it_says(tray: AppTray, r: Vec<MenuEntry>)
    requires
        call_ensures(AppTray::menu, (&tray,), r),
    ensures
        r@.len() == 6,
        r@[0] is Item && r@[0]->Item_label@ == "Open"@ && r@[0]->event is Open,
        r@[2] is Submenu && r@[2]->Submenu_label@ == "Connect"@,
        r@[3] is Item && r@[3]->Item_label@ == "Disconnect"@ && r@[3]->event is Disconnect,
        r@[5] is Item && r@[5]->Item_label@ == "Quit"@ && r@[5]->event is Quit,
        r@[0]->Item_enabled && r@[5]->Item_enabled,
        r@[3]->Item_enabled <==> tray.connected,
        r@[2]->Submenu_enabled <==> tray.profiles@.len() > 0,
        r@[2]->entries@.len() == tray.profiles@.len(),
        forall|i: int|
            0 <= i < tray.profiles@.len() ==> (#[trigger] r@[2]->entries@[i]).profile@
                == tray.profiles@[i]@,
        r@[1] is Separator && r@[4] is Separator,
{
    let entries = r@[2]->entries;
    assert(tray@.profiles.len() == tray.profiles@.len());
    assert(entry_views(entries@).len() == entries@.len());
    assert(profile_entries(tray@).len() == tray.profiles@.len());
    assert forall|i: int| 0 <= i < tray.profiles@.len() implies (#[trigger] entries@[i]).profile@
        == tray.profiles@[i]@ by {
        assert(entry_views(entries@)[i] == entries@[i]@);
        assert(profile_entries(tray@)[i].profile == tray@.profiles[i]);
    }
}

/// The profile that is connected is marked, and no other one is.
pub proof fn law_the_connected_profile_is_marked(tray: TrayModel, i: int)
    requires
        0 <= i < tray.profiles.len(),
    ensures
        tray.connected_profile == Some(tray.profiles[i]) ==> profile_entries(tray)[i].label
            == tray.profiles[i] + " (connected)"@,
        tray.connected_profile != Some(tray.profiles[i]) ==> profile_entries(tray)[i].label
            == tray.profiles[i],
{
}

/// The icon and the title tell a tray that is connected from one that is not, and nothing else.
pub proof fn law_the_icon_shows_the_connection(tray: AppTray, icon: String, title: String)
    requires
        call_ensures(AppTray::icon_name, (&tray,), icon),
        call_ensures(AppTray::title, (&tray,), title),
    ensures
        tray.connected ==> icon@ == "network-vpn"@ && title@ == "WireGuard — connected"@,
        !tray.connected ==> icon@ == "network-vpn-disconnected"@ && title@
            == "WireGuard — disconnected"@,
{
}

/// A tray is not connected and knows no profiles before it is told of any.
pub proof fn law_a_new_tray_is_disconnected(tray: AppTray)
    requires
        call_ensures(AppTray::new, (), tray),
    ensures
        !tray.connected,
        tray@.connected_profile is None,
        tray.profiles@.len() == 0,
{
    assert(tray@.profiles.len() == tray.profiles@.len());
}

} // verus!
