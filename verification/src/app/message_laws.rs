//! What the other messages do: about the list of profiles, the window, the settings and the server.

use crate::app::state::{EffectModel, Message, Moment, StateModel};
use crate::app::{BannerKind, BannerModel, Screen, SortOrder};
use crate::config::profile::WgProfile;
use crate::error::AppResult;
use crate::net::boot::BootAction;
use crate::net::privilege::PrivCmdModel;
use crate::server::ServerConfig;
use crate::settings::{AppSettings, SettingsModel, ThemePreference};
use crate::stats::UsageStore;
use crate::wg::status::PeerStatus;
use std::path::PathBuf;
use vstd::prelude::*;

verus! {

/// Whether a state has this banner.
pub open spec fn says(s: StateModel, kind: BannerKind, message: Seq<char>) -> bool {
    s.banner == Some(BannerModel { kind, message })
}

/// Whether nothing but the banner differs between two states.
pub open spec fn only_says(s: StateModel, after: StateModel) -> bool {
    after == (StateModel { banner: after.banner, ..s })
}

// ── the list of profiles ────────────────────────────────────────────────────

/// Loaded profiles become the list: all of them and no other, sorted as the user has chosen, and
/// the tray offers them in that order. A failure is said, and the list stays.
pub proof fn law_loaded_profiles_are_listed(
    s: StateModel,
    loaded: AppResult<Vec<WgProfile>>,
    at: Moment,
)
    ensures
        ({
            let r = crate::app::react::react(s, Message::ProfilesLoaded(loaded), at);
            match loaded {
                Ok(v) => {
                    let all = crate::config::store::profile_views(v@);
                    &&& r.0 == (StateModel { profiles: r.0.profiles, ..s })
                    &&& r.0.profiles.to_multiset() == all.to_multiset()
                    &&& r.0.profiles.len() == all.len()
                    &&& forall|i: int, j: int|
                        0 <= i < j < r.0.profiles.len() ==> if s.sort_order is NameAsc {
                            !crate::order::precedes(
                                (#[trigger] r.0.profiles[j]).name,
                                (#[trigger] r.0.profiles[i]).name,
                            )
                        } else {
                            !crate::order::precedes(r.0.profiles[i].name, r.0.profiles[j].name)
                        }
                    &&& r.1.len() == 1
                    &&& r.1[0] is TellTray
                    &&& r.1[0]->TellTray_0 is SetProfiles
                    &&& r.1[0]->TellTray_0->SetProfiles_0.len() == r.0.profiles.len()
                    &&& forall|i: int|
                        0 <= i < r.0.profiles.len() ==> r.1[0]->TellTray_0->SetProfiles_0[i] == (
                        #[trigger] r.0.profiles[i]).name
                },
                Err(e) => only_says(s, r.0) && r.1.len() == 0 && says(
                    r.0,
                    BannerKind::Error,
                    "Failed to load profiles: "@ + e.message(),
                ),
            }
        }),
{
    reveal(crate::app::react::react_profiles);
    reveal(crate::app::react::profiles_loaded);
    if let Ok(v) = loaded {
        let all = crate::config::store::profile_views(v@);
        lemma_sorted(all, s.sort_order);
    }
}

/// Sorting profiles keeps them all and puts them in order.
proof fn lemma_sorted(all: Seq<crate::config::profile::ProfileModel>, order: SortOrder)
    ensures
        ({
            let sorted = crate::app::react::sorted_profiles(all, order);
            &&& sorted.to_multiset() == all.to_multiset()
            &&& sorted.len() == all.len()
            &&& forall|i: int, j: int|
                0 <= i < j < sorted.len() ==> if order is NameAsc {
                    !crate::order::precedes(
                        (#[trigger] sorted[j]).name,
                        (#[trigger] sorted[i]).name,
                    )
                } else {
                    !crate::order::precedes(sorted[i].name, sorted[j].name)
                }
        }),
{
    let before = crate::config::store::name_order(order is NameAsc);
    let sorted = crate::app::react::sorted_profiles(all, order);
    crate::config::store::lemma_name_order(order is NameAsc);
    crate::order::law_arranged_is_sorted(all, before);
    crate::order::law_arranged_keeps_items(all, before);
    assert forall|i: int, j: int| 0 <= i < j < sorted.len() implies if order is NameAsc {
        !crate::order::precedes((#[trigger] sorted[j]).name, (#[trigger] sorted[i]).name)
    } else {
        !crate::order::precedes(sorted[i].name, sorted[j].name)
    } by {
        assert(!before(sorted[j], sorted[i]));
    }
}

/// Another order sorts the profiles that are there anew and loses none; it is the order of what is
/// loaded from then on.
pub proof fn law_another_order_sorts_anew(s: StateModel, order: SortOrder, at: Moment)
    ensures
        ({
            let r = crate::app::react::react(s, Message::SortChanged(order), at);
            &&& r.1.len() == 0
            &&& r.0 == (StateModel { sort_order: order, profiles: r.0.profiles, ..s })
            &&& r.0.profiles.to_multiset() == s.profiles.to_multiset()
            &&& forall|i: int, j: int|
                0 <= i < j < r.0.profiles.len() ==> if order is NameAsc {
                    !crate::order::precedes(
                        (#[trigger] r.0.profiles[j]).name,
                        (#[trigger] r.0.profiles[i]).name,
                    )
                } else {
                    !crate::order::precedes(r.0.profiles[i].name, r.0.profiles[j].name)
                }
        }),
{
    reveal(crate::app::react::react_profiles);
    lemma_sorted(s.profiles, order);
}

/// Searching and selecting keep what was typed and chosen, and do nothing else.
pub proof fn law_searching_and_selecting(s: StateModel, text: String, at: Moment)
    ensures
        crate::app::react::react(s, Message::SearchChanged(text), at).0 == (StateModel {
            search_query: text@,
            ..s
        }),
        crate::app::react::react(s, Message::SearchChanged(text), at).1.len() == 0,
        crate::app::react::react(s, Message::SelectProfile(text), at).0 == (StateModel {
            active_profile: Some(text@),
            ..s
        }),
        crate::app::react::react(s, Message::SelectProfile(text), at).1.len() == 0,
{
    reveal(crate::app::react::react_profiles);
}

/// Deleting deletes the profile that was named and no other; once it is gone the profiles are loaded
/// again, and a failure is said.
pub proof fn law_deleting_deletes_what_was_named(
    s: StateModel,
    name: String,
    done: AppResult<()>,
    at: Moment,
)
    ensures
        ({
            let ask = crate::app::react::react(s, Message::DeleteProfile(name), at);
            let r = crate::app::react::react(s, Message::DeleteResult(done), at);
            &&& ask.0 == s && ask.1 == seq![EffectModel::DeleteProfile(name@)]
            &&& only_says(s, r.0)
            &&& match done {
                Ok(()) => r.1 == seq![EffectModel::LoadProfiles] && says(
                    r.0,
                    BannerKind::Info,
                    "Profile deleted"@,
                ),
                Err(e) => r.1.len() == 0 && says(
                    r.0,
                    BannerKind::Error,
                    "Delete failed: "@ + e.message(),
                ),
            }
        }),
{
    reveal(crate::app::react::react_profiles);
    reveal(crate::app::react::reloaded);
}

/// Importing asks for a file and imports the chosen one: a `.conf` file as such, and a picture as a
/// QR code. Choosing none does nothing. What was imported is named and the profiles are loaded
/// again; a failure is said.
pub proof fn law_importing_takes_the_chosen_file(
    s: StateModel,
    path: PathBuf,
    done: AppResult<WgProfile>,
    at: Moment,
)
    ensures
        ({
            let r = crate::app::react::react(s, Message::ImportResult(done), at);
            &&& crate::app::react::react(s, Message::ImportProfile, at) == (
                s,
                seq![EffectModel::PickImportFile],
            )
            &&& crate::app::react::react(s, Message::ImportFromQr, at) == (
                s,
                seq![EffectModel::PickQrImage],
            )
            &&& crate::app::react::react(s, Message::ImportFileChosen(Some(path)), at) == (
                s,
                seq![EffectModel::Import(path)],
            )
            &&& crate::app::react::react(s, Message::ImportFromQrChosen(Some(path)), at) == (
                s,
                seq![EffectModel::ImportQr(path)],
            )
            &&& crate::app::react::react(s, Message::ImportFileChosen(None), at) == (
                s,
                Seq::<EffectModel>::empty(),
            )
            &&& crate::app::react::react(s, Message::ImportFromQrChosen(None), at) == (
                s,
                Seq::<EffectModel>::empty(),
            )
            &&& only_says(s, r.0)
            &&& match done {
                Ok(p) => r.1 == seq![EffectModel::LoadProfiles] && says(
                    r.0,
                    BannerKind::Success,
                    "Imported '"@ + p@.name + "'"@,
                ),
                Err(e) => r.1.len() == 0 && says(
                    r.0,
                    BannerKind::Error,
                    "Import failed: "@ + e.message(),
                ),
            }
        }),
{
    reveal(crate::app::react::react_profiles);
    reveal(crate::app::react::reloaded);
}

/// Exporting asks where to, and exports the active profile there, or else the one that the chosen
/// file is named after. Choosing no file does nothing.
pub proof fn law_exporting_writes_to_the_chosen_file(
    s: StateModel,
    name: String,
    path: PathBuf,
    done: AppResult<()>,
    at: Moment,
)
    ensures
        ({
            let chosen = crate::app::react::react(s, Message::ExportFileChosen(Some(path)), at);
            let r = crate::app::react::react(s, Message::ExportResult(done), at);
            &&& crate::app::react::react(s, Message::ExportProfile(name), at) == (
                s,
                seq![EffectModel::PickExportFile(name@)],
            )
            &&& crate::app::react::react(s, Message::ExportFileChosen(None), at) == (
                s,
                Seq::<EffectModel>::empty(),
            )
            &&& chosen.0 == s
            &&& chosen.1.len() == 1 && chosen.1[0] is Export && chosen.1[0]->Export_path == path
            &&& s.active_profile is Some ==> chosen.1[0]->Export_name == s.active_profile->0
            &&& s.active_profile is None && crate::paths::path_stem(path) is Some
                ==> chosen.1[0]->Export_name == crate::paths::path_stem(path)->0
            &&& only_says(s, r.0) && r.1.len() == 0
            &&& match done {
                Ok(()) => says(r.0, BannerKind::Success, "Exported profile"@),
                Err(e) => says(r.0, BannerKind::Error, "Export failed: "@ + e.message()),
            }
        }),
{
    reveal(crate::app::react::react_profiles);
    reveal(crate::app::react::export_chosen);
    reveal(crate::app::react::reported);
}

// ── the window ──────────────────────────────────────────────────────────────

/// The window is shown when the tray or another start of the program asks for it: the one there is,
/// or else a new one, which is then the one there is.
pub proof fn law_the_window_is_raised(s: StateModel, at: Moment)
    ensures
        ({
            let tray = crate::app::react::react(s, Message::TrayOpen, at);
            let other = crate::app::react::react(s, Message::RaiseWindowRequested, at);
            &&& tray == other
            &&& tray.0 == (StateModel { main_window: tray.0.main_window, ..s })
            &&& match s.main_window {
                Some(id) => tray.1 == seq![EffectModel::ShowWindow(id)] && tray.0.main_window
                    == Some(id),
                None => tray.1 == seq![EffectModel::OpenWindow(at.next_window)]
                    && tray.0.main_window == Some(at.next_window),
            }
        }),
{
    reveal(crate::app::react::react_program);
    reveal(crate::app::react::window_shown);
}

/// Only quitting in the tray ends the program; closing the window hides it.
pub proof fn law_closing_is_not_quitting(s: StateModel, id: u64, at: Moment)
    ensures
        crate::app::react::react(s, Message::TrayQuit, at) == (s, seq![EffectModel::Exit]),
        crate::app::react::react(s, Message::WindowCloseRequested(id), at).1 == seq![
            EffectModel::HideWindow(id),
        ],
        crate::app::react::react(s, Message::WindowCloseRequested(id), at).0 == (StateModel {
            main_window: Some(id),
            ..s
        }),
        !s.start_hidden ==> crate::app::react::react(s, Message::WindowOpened(id), at).1.len() == 0,
        crate::app::react::react(s, Message::WindowOpened(id), at).0 == (StateModel {
            main_window: Some(id),
            start_hidden: false,
            ..s
        }),
{
    reveal(crate::app::react::react_program);
    reveal(crate::app::react::window_opened);
}

/// The screens are reached, and left for the list of profiles; a banner can be taken away. Nothing
/// else changes by that.
pub proof fn law_screens_are_reached_and_left(s: StateModel, name: String, at: Moment)
    ensures
        ({
            let plan = crate::app::react::react(s, Message::OpenPlanPreview(name), at);
            &&& crate::app::react::react(s, Message::OpenSettings, at) == (
                StateModel { screen: Screen::Settings, ..s },
                Seq::<EffectModel>::empty(),
            )
            &&& crate::app::react::react(s, Message::GoHome, at) == (
                StateModel { screen: Screen::ProfileList, dry_run_plan: None, ..s },
                Seq::<EffectModel>::empty(),
            )
            &&& crate::app::react::react(s, Message::DismissBanner, at) == (
                StateModel { banner: None, ..s },
                Seq::<EffectModel>::empty(),
            )
            &&& plan.1.len() == 0
            &&& match crate::app::react::found(s.profiles, name@) {
                Some(p) => plan.0 == (StateModel {
                    screen: Screen::PlanPreview,
                    active_profile: Some(name@),
                    dry_run_plan: Some((p, s.settings.kill_switch)),
                    ..s
                }),
                None => only_says(s, plan.0) && says(
                    plan.0,
                    BannerKind::Error,
                    "Profile '"@ + name@ + "' not found"@,
                ),
            }
        }),
{
    reveal(crate::app::react::react_program);
    reveal(crate::app::react::plan_opened);
}

/// What was loaded at the start takes its place; what could not be loaded is said, and what there
/// was stays.
pub proof fn law_what_was_loaded_takes_its_place(
    s: StateModel,
    settings: AppResult<AppSettings>,
    usage: AppResult<UsageStore>,
    ip: AppResult<String>,
    at: Moment,
)
    ensures
        ({
            let a = crate::app::react::react(s, Message::SettingsLoaded(settings), at);
            let b = crate::app::react::react(s, Message::UsageLoaded(usage), at);
            let c = crate::app::react::react(s, Message::PublicIpFetched(ip), at);
            &&& a.1.len() == 0 && b.1.len() == 0 && c.1.len() == 0
            &&& match settings {
                Ok(x) => a.0 == (StateModel {
                    settings: x@,
                    auto_reconnect: x@.auto_reconnect,
                    ..s
                }),
                Err(e) => only_says(s, a.0) && says(
                    a.0,
                    BannerKind::Warning,
                    "Failed to load settings: "@ + e.message(),
                ),
            }
            &&& match usage {
                Ok(x) => b.0 == (StateModel { usage: x@, ..s }),
                Err(e) => only_says(s, b.0) && says(
                    b.0,
                    BannerKind::Warning,
                    "Failed to load usage: "@ + e.message(),
                ),
            }
            &&& c.0 == (StateModel {
                public_ip_loading: false,
                public_ip: c.0.public_ip,
                ..s
            })
            &&& ip is Ok ==> c.0.public_ip == Some((ip->Ok_0)@)
            &&& ip is Err ==> c.0.public_ip is None
        }),
{
    reveal(crate::app::react::react_program);
    reveal(crate::app::react::settings_loaded);
}

/// The program starts disconnected, with the list of profiles shown, and loads the profiles, the
/// settings and the usage.
pub proof fn law_the_start(dir: PathBuf, hidden: bool)
    ensures
        ({
            let s = crate::app::state::initial_state(dir, hidden);
            &&& s.tunnel_status is Disconnected && s.active_profile is None
            &&& s.screen is ProfileList && s.sort_order is NameAsc
            &&& s.store_dir == dir && s.start_hidden == hidden
            &&& s.main_window is None && s.editor is None && s.banner is None
            &&& s.profiles.len() == 0 && s.live_status is None
            &&& !s.intentional_down && s.reconnect_attempt == 0
            &&& s.server is None && !s.server_running
            &&& s.notifications_enabled
            &&& crate::app::state::initial_effects().contains(EffectModel::LoadProfiles)
            &&& crate::app::state::initial_effects().contains(EffectModel::LoadSettings)
            &&& crate::app::state::initial_effects().contains(EffectModel::LoadUsage)
            &&& crate::app::state::initial_effects().len() == 3
        }),
{
    let e = crate::app::state::initial_effects();
    assert(e[0] is LoadProfiles && e[1] is LoadSettings && e[2] is LoadUsage);
}

// ── settings ────────────────────────────────────────────────────────────────

/// Each switch sets its own setting to what was asked for, leaves the others, and has the settings
/// saved.
pub proof fn law_each_switch_has_its_setting(
    s: StateModel,
    on: bool,
    theme: ThemePreference,
    choice: Option<String>,
    at: Moment,
)
    ensures
        ({
            let reconnect = crate::app::react::react(
                s,
                Message::SettingAutoReconnectToggled(on),
                at,
            );
            let login = crate::app::react::react(s, Message::SettingAutoStartToggled(on), at);
            let kill = crate::app::react::react(s, Message::SettingKillSwitchToggled(on), at);
            let boot = crate::app::react::react(
                s,
                Message::SettingConnectOnBootChanged(choice),
                at,
            );
            let look = crate::app::react::react(s, Message::SettingThemeChanged(theme), at);
            let notes = crate::app::react::react(s, Message::SettingNotificationsToggled(on), at);
            &&& reconnect.0 == (StateModel {
                auto_reconnect: on,
                settings: SettingsModel { auto_reconnect: on, ..s.settings },
                ..s
            })
            &&& login.0 == (StateModel {
                settings: SettingsModel { autostart: on, ..s.settings },
                ..s
            })
            &&& kill.0 == (StateModel {
                settings: SettingsModel { kill_switch: on, ..s.settings },
                ..s
            })
            &&& boot.0 == (StateModel {
                settings: SettingsModel {
                    connect_on_boot: match choice {
                        Some(name) => Some(name@),
                        None => None,
                    },
                    ..s.settings
                },
                ..s
            })
            &&& look.0 == (StateModel {
                settings: SettingsModel { theme: theme@, ..s.settings },
                ..s
            })
            &&& notes.0 == (StateModel { notifications_enabled: on, ..s })
            &&& reconnect.1 == seq![EffectModel::SaveSettings]
            &&& login.1 == seq![EffectModel::ApplyAutostart(on), EffectModel::SaveSettings]
            &&& kill.1.len() > 0 && kill.1.last() is SaveSettings
            &&& boot.1.len() > 0 && boot.1.last() is SaveSettings
            &&& look.1 == seq![EffectModel::SaveSettings]
            &&& notes.1 == seq![EffectModel::SaveSettings]
        }),
{
    reveal(crate::app::react::react_settings);
    reveal(crate::app::react::auto_reconnect_toggled);
    reveal(crate::app::react::autostart_toggled);
    reveal(crate::app::react::kill_switch_toggled);
    reveal(crate::app::react::kill_switch_wanted);
    reveal(crate::app::react::boot_changed);
    reveal(crate::app::react::theme_changed);
    reveal(crate::app::react::notifications_toggled);
}

/// Turning the kill switch off lifts it at once, whatever the tunnel does.
pub proof fn law_turning_off_lifts_at_once(s: StateModel, at: Moment)
    ensures
        crate::app::react::react(s, Message::SettingKillSwitchToggled(false), at).1 == seq![
            EffectModel::KillSwitch { armed: false, cmd: PrivCmdModel::KillSwitchDisarm },
            EffectModel::SaveSettings,
        ],
{
    reveal(crate::app::react::react_settings);
    reveal(crate::app::react::kill_switch_toggled);
}

/// Choosing a profile to connect on boot turns that on for it; choosing none turns it off for the
/// one before, where there was one.
pub proof fn law_boot_follows_the_choice(s: StateModel, name: String, at: Moment)
    ensures
        ({
            let one = crate::app::react::react(
                s,
                Message::SettingConnectOnBootChanged(Some(name)),
                at,
            );
            let none = crate::app::react::react(s, Message::SettingConnectOnBootChanged(None), at);
            &&& one.1 == seq![
                EffectModel::ConfigureBoot { profile: name@, action: BootAction::Enable },
                EffectModel::SaveSettings,
            ]
            &&& match s.settings.connect_on_boot {
                Some(old_name) => none.1 == seq![
                    EffectModel::ConfigureBoot { profile: old_name, action: BootAction::Disable },
                    EffectModel::SaveSettings,
                ],
                None => none.1 == seq![EffectModel::SaveSettings],
            }
        }),
{
    reveal(crate::app::react::react_settings);
    reveal(crate::app::react::boot_changed);
    let one = crate::app::react::react(s, Message::SettingConnectOnBootChanged(Some(name)), at);
    let none = crate::app::react::react(s, Message::SettingConnectOnBootChanged(None), at);
    assert(one.1 =~= seq![
        EffectModel::ConfigureBoot { profile: name@, action: BootAction::Enable },
        EffectModel::SaveSettings,
    ]);
    match s.settings.connect_on_boot {
        Some(old_name) => {
            assert(none.1 =~= seq![
                EffectModel::ConfigureBoot { profile: old_name, action: BootAction::Disable },
                EffectModel::SaveSettings,
            ]);
        },
        None => {
            assert(none.1 =~= seq![EffectModel::SaveSettings]);
        },
    }
}

/// A failure to apply or save a setting is said and changes nothing else.
pub proof fn law_failed_settings_are_said(s: StateModel, done: AppResult<()>, at: Moment)
    ensures
        ({
            let login = crate::app::react::react(s, Message::AutostartApplied(done), at);
            let boot = crate::app::react::react(s, Message::BootConfigResult(done), at);
            let saved = crate::app::react::react(s, Message::SettingsSaved(done), at);
            &&& login.1.len() == 0 && boot.1.len() == 0 && saved.1.len() == 0
            &&& only_says(s, login.0) && only_says(s, boot.0) && only_says(s, saved.0)
            &&& match done {
                Ok(()) => login.0 == s && saved.0 == s && says(
                    boot.0,
                    BannerKind::Success,
                    "Connect-on-boot updated"@,
                ),
                Err(e) => says(login.0, BannerKind::Error, "Autostart: "@ + e.message()) && says(
                    boot.0,
                    BannerKind::Error,
                    "Connect-on-boot update failed: "@ + e.message(),
                ) && says(saved.0, BannerKind::Error, "Save settings failed: "@ + e.message()),
            }
        }),
{
    reveal(crate::app::react::react_settings);
    reveal(crate::app::react::reported);
}

// ── the server ──────────────────────────────────────────────────────────────

/// The server is started with its configuration where it is down, and stopped where it is up; what
/// was reported to have happened turns that round, and a failure does not.
pub proof fn law_the_server_is_started_and_stopped(
    s: StateModel,
    done: AppResult<()>,
    at: Moment,
)
    ensures
        ({
            let ask = crate::app::react::react(s, Message::ServerStartToggle, at);
            let r = crate::app::react::react(s, Message::ServerOpResult(done), at);
            &&& match s.server {
                None => ask.1.len() == 0 && only_says(s, ask.0) && says(
                    ask.0,
                    BannerKind::Warning,
                    "No server to start"@,
                ),
                Some(config) => ask.0 == s && ask.1.len() == 1 && if s.server_running {
                    ask.1[0] is StopServer
                } else {
                    ask.1[0] == EffectModel::StartServer(config)
                },
            }
            &&& r.1.len() == 0
            &&& match done {
                Ok(()) => r.0 == (StateModel {
                    server_running: !s.server_running,
                    banner: r.0.banner,
                    ..s
                }) && says(
                    r.0,
                    BannerKind::Success,
                    if r.0.server_running {
                        "Server started"@
                    } else {
                        "Server stopped"@
                    },
                ),
                Err(e) => only_says(s, r.0) && says(
                    r.0,
                    BannerKind::Error,
                    "Server op failed: "@ + e.message(),
                ),
            }
        }),
{
    reveal(crate::app::react::react_server);
    reveal(crate::app::react::server_toggled);
    reveal(crate::app::react::server_switched);
    reveal_strlit("Server ");
    reveal_strlit("started");
    reveal_strlit("stopped");
    reveal_strlit("Server started");
    reveal_strlit("Server stopped");
    assert("Server started"@ =~= "Server "@ + "started"@);
    assert("Server stopped"@ =~= "Server "@ + "stopped"@);
}

/// Translation is turned on for the server's own subnet and the interface it goes out by, which must
/// be known, and turned off without any condition; what came of it is said.
pub proof fn law_translation_is_for_the_servers_subnet(
    s: StateModel,
    enabled: bool,
    result: AppResult<()>,
    at: Moment,
)
    ensures
        ({
            let on = crate::app::react::react(s, Message::ServerNatToggle(true), at);
            let off = crate::app::react::react(s, Message::ServerNatToggle(false), at);
            let r = crate::app::react::react(s, Message::ServerNatResult { enabled, result }, at);
            &&& match s.server {
                None => on == (s, Seq::<EffectModel>::empty()) && off == (
                    s,
                    Seq::<EffectModel>::empty(),
                ),
                Some(config) => off == (
                    s,
                    seq![
                        EffectModel::SwitchNat { enabled: false, cmd: PrivCmdModel::NatDisable },
                    ],
                ) && match config.egress_iface {
                    Some(egress_iface) => on == (
                        s,
                        seq![
                            EffectModel::SwitchNat {
                                enabled: true,
                                cmd: PrivCmdModel::NatEnable { subnet: config.subnet, egress_iface },
                            },
                        ],
                    ),
                    None => on.1.len() == 0 && only_says(s, on.0) && on.0.banner is Some
                        && on.0.banner->0.kind is Warning,
                },
            }
            &&& r.1.len() == 0 && only_says(s, r.0)
            &&& match result {
                Ok(()) => says(
                    r.0,
                    BannerKind::Success,
                    if enabled {
                        "NAT enabled"@
                    } else {
                        "NAT disabled"@
                    },
                ),
                Err(e) => says(
                    r.0,
                    BannerKind::Error,
                    if enabled {
                        "NAT enable failed: "@
                    } else {
                        "NAT disable failed: "@
                    } + e.message(),
                ),
            }
        }),
{
    reveal(crate::app::react::react_server);
    reveal(crate::app::react::nat_toggled);
    reveal(crate::app::react::nat_switched);
}

/// A server that was loaded or made takes its place; a failure is said and leaves the one there is.
/// Opening the server's screen loads one where none is known, and making one is for the typed host.
pub proof fn law_servers_take_their_place(
    s: StateModel,
    host: String,
    loaded: AppResult<Option<ServerConfig>>,
    made: AppResult<ServerConfig>,
    at: Moment,
)
    ensures
        ({
            let open = crate::app::react::react(s, Message::OpenServer, at);
            let ask = crate::app::react::react(s, Message::ServerCreate(host), at);
            let l = crate::app::react::react(s, Message::ServerLoadResult(loaded), at);
            let m = crate::app::react::react(s, Message::ServerCreateResult(made), at);
            &&& open.0 == (StateModel { screen: Screen::Server, ..s })
            &&& s.server is None ==> open.1 == seq![EffectModel::LoadServer]
            &&& s.server is Some ==> open.1.len() == 0
            &&& ask == (s, seq![EffectModel::CreateServer(host@)])
            &&& l.1.len() == 0 && m.1.len() == 0
            &&& match loaded {
                Ok(Some(c)) => l.0 == (StateModel { server: Some(c@), ..s }),
                Ok(None) => l.0 == s,
                Err(e) => only_says(s, l.0) && says(
                    l.0,
                    BannerKind::Warning,
                    "Load server failed: "@ + e.message(),
                ),
            }
            &&& match made {
                Ok(c) => m.0 == (StateModel { server: Some(c@), banner: m.0.banner, ..s }) && says(
                    m.0,
                    BannerKind::Success,
                    "Server created"@,
                ),
                Err(e) => only_says(s, m.0) && says(
                    m.0,
                    BannerKind::Error,
                    "Create server failed: "@ + e.message(),
                ),
            }
        }),
{
    reveal(crate::app::react::react_server);
    reveal(crate::app::react::server_set);
}

/// A client of the typed name is added to the server as it is, and the name is taken away; a blank
/// name adds nothing. What to hand to the client that was added last is kept until one is removed.
pub proof fn law_clients_are_added(
    s: StateModel,
    name: String,
    added: AppResult<ServerConfig>,
    at: Moment,
)
    ensures
        ({
            let typed = crate::app::react::react(s, Message::ServerPeerNameChanged(name), at);
            let ask = crate::app::react::react(s, Message::ServerAddPeer, at);
            let r = crate::app::react::react(s, Message::ServerAddPeerResult(added), at);
            &&& typed == (
                StateModel { server_peer_name_input: name@, ..s },
                Seq::<EffectModel>::empty(),
            )
            &&& match s.server {
                None => ask == (s, Seq::<EffectModel>::empty()),
                Some(config) => ask.0.server_peer_name_input.len() == 0 && ask.0 == (StateModel {
                    server_peer_name_input: ask.0.server_peer_name_input,
                    banner: ask.0.banner,
                    ..s
                }) && if crate::text::trimmed(s.server_peer_name_input).len() == 0 {
                    ask.1.len() == 0 && says(
                        ask.0,
                        BannerKind::Warning,
                        "Enter a client name first"@,
                    )
                } else {
                    ask.0.banner == s.banner && ask.1 == seq![
                        EffectModel::AddPeer {
                            config,
                            name: s.server_peer_name_input,
                            running: s.server_running,
                        },
                    ]
                },
            }
            &&& r.1.len() == 0
            &&& match added {
                Ok(c) => r.0 == (StateModel {
                    server: Some(c@),
                    last_client_conf: r.0.last_client_conf,
                    banner: r.0.banner,
                    ..s
                }) && says(r.0, BannerKind::Success, "Client added"@) && (c@.peers.len() > 0
                    ==> r.0.last_client_conf == Some(
                    (
                        c@.peers.last().name,
                        crate::server::conf::handout_text(c@, c@.peers.last()),
                    ),
                )) && (c@.peers.len() == 0 ==> r.0.last_client_conf == s.last_client_conf),
                Err(e) => only_says(s, r.0) && says(
                    r.0,
                    BannerKind::Error,
                    "Add client failed: "@ + e.message(),
                ),
            }
        }),
{
    reveal(crate::app::react::react_clients);
    reveal(crate::app::react::adding_peer);
    reveal(crate::app::react::peer_added);
}

/// Removing removes the client that was pointed at from the server as it is, and nothing is left to
/// hand out; the server without it takes its place.
pub proof fn law_clients_are_removed(
    s: StateModel,
    idx: usize,
    removed: AppResult<ServerConfig>,
    at: Moment,
)
    ensures
        ({
            let ask = crate::app::react::react(s, Message::ServerRemovePeer(idx), at);
            let r = crate::app::react::react(s, Message::ServerRemovePeerResult(removed), at);
            &&& match s.server {
                None => ask == (s, Seq::<EffectModel>::empty()),
                Some(config) => ask == (
                    StateModel { last_client_conf: None, ..s },
                    seq![EffectModel::RemovePeer { config, idx, running: s.server_running }],
                ),
            }
            &&& r.1.len() == 0
            &&& match removed {
                Ok(c) => r.0 == (StateModel { server: Some(c@), banner: r.0.banner, ..s }) && says(
                    r.0,
                    BannerKind::Info,
                    "Client removed"@,
                ),
                Err(e) => only_says(s, r.0) && says(
                    r.0,
                    BannerKind::Error,
                    "Remove client failed: "@ + e.message(),
                ),
            }
        }),
{
    reveal(crate::app::react::react_clients);
    reveal(crate::app::react::removing_peer);
    reveal(crate::app::react::server_set);
}

/// The clients' figures are asked for while the server is up, and kept; a failure is said and keeps
/// the last ones.
pub proof fn law_clients_are_watched(
    s: StateModel,
    fetched: AppResult<Vec<PeerStatus>>,
    at: Moment,
)
    ensures
        ({
            let tick = crate::app::react::react(s, Message::ServerStatusTick, at);
            let r = crate::app::react::react(s, Message::ServerStatusResult(fetched), at);
            &&& tick.0 == s
            &&& s.server is Some && s.server_running ==> tick.1 == seq![
                EffectModel::FetchServerStatus(s.server->0),
            ]
            &&& s.server is None || !s.server_running ==> tick.1.len() == 0
            &&& r.1.len() == 0
            &&& match fetched {
                Ok(v) => r.0 == (StateModel {
                    server_peer_status: r.0.server_peer_status,
                    ..s
                }) && r.0.server_peer_status.len() == v@.len() && forall|i: int|
                    0 <= i < v@.len() ==> #[trigger] r.0.server_peer_status[i] == v@[i]@,
                Err(e) => only_says(s, r.0) && says(
                    r.0,
                    BannerKind::Warning,
                    "Server status: "@ + e.message(),
                ),
            }
        }),
{
    reveal(crate::app::react::react_clients);
}

} // verus!
