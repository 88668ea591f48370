//! Settings the user can change.

use crate::config::profile::copied_text;
use crate::error::{AppError, AppResult};
use crate::net::netns::NetnsRule;
use crate::persist::{FileRead, FileWrite};
use crate::text::{copied, text2, text3, text4};
use vstd::prelude::*;

verus! {

/// How the theme is chosen.
#[derive(Debug, Clone, PartialEq, Eq)]
pub enum ThemePreference {
    /// As the desktop does.
    FollowSystem,
    Light,
    Dark,
    /// By name.
    Named(String),
}

/// All settings.
#[derive(Debug, Clone)]
pub struct AppSettings {
    pub theme: ThemePreference,
    pub auto_reconnect: bool,
    /// The profile to connect on boot.
    pub connect_on_boot: Option<String>,
    pub kill_switch: bool,
    pub autostart: bool,
    pub close_to_tray: bool,
    /// The networks that stay outside the tunnel.
    pub destination_split: Vec<String>,
    pub netns_rules: Vec<NetnsRule>,
}

/// What a choice of theme says.
pub enum ThemeModel {
    FollowSystem,
    Light,
    Dark,
    Named(Seq<char>),
}

/// What settings say.
pub struct SettingsModel {
    pub theme: ThemeModel,
    pub auto_reconnect: bool,
    pub connect_on_boot: Option<Seq<char>>,
    pub kill_switch: bool,
    pub autostart: bool,
    pub close_to_tray: bool,
    pub destination_split: Seq<Seq<char>>,
    pub netns_rules: Seq<crate::net::netns::RuleModel>,
}

impl View for ThemePreference {
    type V = ThemeModel;

    open spec fn view(&self) -> ThemeModel {
        match *self {
            ThemePreference::FollowSystem => ThemeModel::FollowSystem,
            ThemePreference::Light => ThemeModel::Light,
            ThemePreference::Dark => ThemeModel::Dark,
            ThemePreference::Named(s) => ThemeModel::Named(s@),
        }
    }
}

impl View for AppSettings {
    type V = SettingsModel;

    open spec fn view(&self) -> SettingsModel {
        SettingsModel {
            theme: self.theme@,
            auto_reconnect: self.auto_reconnect,
            connect_on_boot: crate::config::profile::opt_view(self.connect_on_boot),
            kill_switch: self.kill_switch,
            autostart: self.autostart,
            close_to_tray: self.close_to_tray,
            destination_split: crate::text::views(self.destination_split@),
            netns_rules: crate::net::netns::rule_views(self.netns_rules@),
        }
    }
}

/// The settings before the user has changed any.
pub open spec fn default_settings() -> SettingsModel {
    SettingsModel {
        theme: ThemeModel::FollowSystem,
        auto_reconnect: true,
        connect_on_boot: None,
        kill_switch: false,
        autostart: false,
        close_to_tray: true,
        destination_split: Seq::empty(),
        netns_rules: Seq::empty(),
    }
}

impl Default for ThemePreference {
    fn default() -> (r: Self)
        ensures
            r is FollowSystem,
    {
        ThemePreference::FollowSystem
    }
}

impl Default for AppSettings {
    fn default() -> (r: Self)
        ensures
            r@ == default_settings(),
    {
        let r = AppSettings {
            theme: ThemePreference::FollowSystem,
            auto_reconnect: true,
            connect_on_boot: None,
            kill_switch: false,
            autostart: false,
            close_to_tray: true,
            destination_split: Vec::new(),
            netns_rules: Vec::new(),
        };
        assert(r@.destination_split =~= default_settings().destination_split);
        assert(r@.netns_rules =~= default_settings().netns_rules);
        r
    }
}

impl ThemePreference {
    /// A copy that says the same.
    pub fn duplicate(&self) -> (r: Self)
        ensures
            r@ == self@,
    {
        match self {
            ThemePreference::FollowSystem => ThemePreference::FollowSystem,
            ThemePreference::Light => ThemePreference::Light,
            ThemePreference::Dark => ThemePreference::Dark,
            ThemePreference::Named(s) => ThemePreference::Named(s.clone()),
        }
    }
}

/// Why the settings were not loaded, if they were not.
pub open spec fn load_failure<T>(read: FileRead<T>) -> Option<Seq<char>> {
    match read {
        FileRead::NoPlace => Some("cannot determine config directory"@),
        FileRead::Missing => None,
        FileRead::Unreadable { path, error } => Some(path@ + ": "@ + error@),
        FileRead::Malformed { path, error } => Some(path@ + ": "@ + error@),
        FileRead::Found(_) => None,
    }
}

/// The failure of loading, if there is one.
pub(crate) fn load_error<T>(read: &FileRead<T>) -> (r: Option<AppError>)
    ensures
        match load_failure(*read) {
            Some(t) => r matches Some(AppError::SettingsLoadFailed(s)) && s@ == t,
            None => r is None,
        },
{
    match read {
        FileRead::NoPlace => Some(
            AppError::SettingsLoadFailed("cannot determine config directory".to_owned()),
        ),
        FileRead::Missing => None,
        FileRead::Unreadable { path, error } => Some(
            AppError::SettingsLoadFailed(text3(path.as_str(), ": ", error.as_str())),
        ),
        FileRead::Malformed { path, error } => Some(
            AppError::SettingsLoadFailed(text3(path.as_str(), ": ", error.as_str())),
        ),
        FileRead::Found(_) => None,
    }
}

/// Why something was not saved, if it was not.
pub open spec fn save_failure(write: FileWrite) -> Option<Seq<char>> {
    match write {
        FileWrite::NoPlace => Some("cannot determine config directory"@),
        FileWrite::NoDirectory { dir, error } => Some("create dir "@ + dir@ + ": "@ + error@),
        FileWrite::Unserialized { error } => Some("serialize: "@ + error@),
        FileWrite::Unwritten { path, error } => Some(path@ + ": "@ + error@),
        FileWrite::Unprotected { path, error } => Some("chmod "@ + path@ + ": "@ + error@),
        FileWrite::Unrenamed { from: _, to, error } => Some("rename to "@ + to@ + ": "@ + error@),
        FileWrite::Written => None,
    }
}

/// The result of saving.
pub(crate) fn save_result(write: &FileWrite) -> (r: AppResult<()>)
    ensures
        match save_failure(*write) {
            Some(t) => r matches Err(AppError::SettingsSaveFailed(s)) && s@ == t,
            None => r is Ok,
        },
{
    let t = match write {
        FileWrite::NoPlace => "cannot determine config directory".to_owned(),
        FileWrite::NoDirectory { dir, error } => {
            text4("create dir ", dir.as_str(), ": ", error.as_str())
        },
        FileWrite::Unserialized { error } => text2("serialize: ", error.as_str()),
        FileWrite::Unwritten { path, error } => text3(path.as_str(), ": ", error.as_str()),
        FileWrite::Unprotected { path, error } => {
            text4("chmod ", path.as_str(), ": ", error.as_str())
        },
        FileWrite::Unrenamed { from: _, to, error } => {
            text4("rename to ", to.as_str(), ": ", error.as_str())
        },
        FileWrite::Written => {
            return Ok(());
        },
    };
    Err(AppError::SettingsSaveFailed(t))
}

impl AppSettings {
    /// A copy that says the same.
    pub fn duplicate(&self) -> (r: Self)
        ensures
            r@ == self@,
    {
        AppSettings {
            theme: self.theme.duplicate(),
            auto_reconnect: self.auto_reconnect,
            connect_on_boot: copied_text(&self.connect_on_boot),
            kill_switch: self.kill_switch,
            autostart: self.autostart,
            close_to_tray: self.close_to_tray,
            destination_split: copied(&self.destination_split),
            netns_rules: crate::net::netns::copied_rules(&self.netns_rules),
        }
    }

    /// The settings that reading their file gave: the default ones where there is no file yet.
    pub fn load(read: FileRead<AppSettings>) -> (r: AppResult<Self>)
        ensures
            match read {
                FileRead::Found(s) => r == Ok::<AppSettings, AppError>(s),
                FileRead::Missing => r matches Ok(s) && s@ == default_settings(),
                _ => r matches Err(AppError::SettingsLoadFailed(t)) && load_failure(read) == Some(
                    t@,
                ),
            },
    {
        match load_error(&read) {
            Some(e) => Err(e),
            None => match read {
                FileRead::Found(s) => Ok(s),
                _ => Ok(AppSettings::default()),
            },
        }
    }

    /// The result of saving settings.
    pub fn save(write: FileWrite) -> (r: AppResult<()>)
        ensures
            match r {
                Ok(()) => write is Written,
                Err(AppError::SettingsSaveFailed(t)) => save_failure(write) == Some(t@),
                Err(_) => false,
            },
    {
        save_result(&write)
    }
}

// ── laws ────────────────────────────────────────────────────────────────────

/// Before the user has changed anything, a tunnel that drops is reconnected, closing the window
/// leaves the program in the tray, the theme is the desktop's, and nothing else is turned on.
pub proof fn law_the_settings_at_first(s: AppSettings)
    requires
        call_ensures(AppSettings::load, (FileRead::Missing,), Ok::<AppSettings, AppError>(s)),
    ensures
        s.auto_reconnect && s.close_to_tray,
        !s.kill_switch && !s.autostart,
        s.theme is FollowSystem,
        s@.connect_on_boot is None,
        s.destination_split@.len() == 0 && s.netns_rules@.len() == 0,
{
    assert(s@.destination_split.len() == s.destination_split@.len());
    assert(s@.netns_rules.len() == s.netns_rules@.len());
    assert(s@.theme is FollowSystem);
}

/// Settings that were found are taken as they are; settings that are there but cannot be read are
/// not replaced by others.
pub proof fn law_settings_that_are_there_are_kept(read: FileRead<AppSettings>, r: AppResult<
    AppSettings,
>)
    requires
        call_ensures(AppSettings::load, (read,), r),
    ensures
        read is Found ==> r == Ok::<AppSettings, AppError>(read->Found_0),
        r is Ok <==> read is Found || read is Missing,
        r is Err ==> r->Err_0 is SettingsLoadFailed,
        read is NoPlace ==> r->Err_0->SettingsLoadFailed_0@ == "cannot determine config directory"@,
        read is Unreadable ==> r->Err_0->SettingsLoadFailed_0@ == read->Unreadable_path@ + ": "@
            + read->Unreadable_error@,
        read is Malformed ==> r->Err_0->SettingsLoadFailed_0@ == read->Malformed_path@ + ": "@
            + read->Malformed_error@,
{
}

/// Saving succeeds exactly when the file was written to its end and put in place; each step that
/// fails is told with the place and the reason.
pub proof fn law_only_what_was_written_is_saved(write: FileWrite, r: AppResult<()>)
    requires
        call_ensures(AppSettings::save, (write,), r),
    ensures
        r is Ok <==> write is Written,
        r is Err ==> r->Err_0 is SettingsSaveFailed,
        write is NoPlace ==> r->Err_0->SettingsSaveFailed_0@ == "cannot determine config directory"@,
        write is NoDirectory ==> r->Err_0->SettingsSaveFailed_0@ == "create dir "@ + write->dir@
            + ": "@ + write->NoDirectory_error@,
        write is Unserialized ==> r->Err_0->SettingsSaveFailed_0@ == "serialize: "@
            + write->Unserialized_error@,
        write is Unwritten ==> r->Err_0->SettingsSaveFailed_0@ == write->Unwritten_path@ + ": "@
            + write->Unwritten_error@,
        write is Unprotected ==> r->Err_0->SettingsSaveFailed_0@ == "chmod "@
            + write->Unprotected_path@ + ": "@ + write->Unprotected_error@,
        write is Unrenamed ==> r->Err_0->SettingsSaveFailed_0@ == "rename to "@ + write->to@
            + ": "@ + write->Unrenamed_error@,
{
}

} // verus!
