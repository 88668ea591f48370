//! Connecting on boot, through NetworkManager or through systemd.

use crate::error::{AppError, AppResult};
use crate::net::privilege::{PrivCmd, RunOutcome};
use crate::text::{owned, text2, text4, trim};
use vstd::prelude::*;

verus! {

/// Whether connecting on boot is turned on or off.
#[derive(Debug, Clone, Copy, PartialEq, Eq, Structural)]
pub enum BootAction {
    Enable,
    Disable,
}

/// The word that NetworkManager takes for an action.
pub open spec fn autoconnect_word(action: BootAction) -> Seq<char> {
    match action {
        BootAction::Enable => "yes"@,
        BootAction::Disable => "no"@,
    }
}

/// The command that has NetworkManager connect a profile on boot, or not.
pub fn nm_autoconnect_argv(profile_name: &str, action: BootAction) -> (r: Vec<String>)
    ensures
        crate::text::views(r@) == seq![
            "nmcli"@,
            "connection"@,
            "modify"@,
            "wg-gui-"@ + profile_name@,
            "connection.autoconnect"@,
            autoconnect_word(action),
        ],
{
    let mut conn = "wg-gui-".to_owned();
    conn.push_str(profile_name);
    let value = match action {
        BootAction::Enable => "yes",
        BootAction::Disable => "no",
    };
    let r = owned(
        vec!["nmcli", "connection", "modify", conn.as_str(), "connection.autoconnect", value],
    );
    assert(crate::text::views(r@) =~= seq![
        "nmcli"@,
        "connection"@,
        "modify"@,
        "wg-gui-"@ + profile_name@,
        "connection.autoconnect"@,
        autoconnect_word(action),
    ]);
    r
}

/// The command that asks the helper to have systemd connect an interface on boot, or not.
pub fn systemd_boot_cmd(iface: &str, action: BootAction) -> (r: PrivCmd)
    ensures
        match action {
            BootAction::Enable => r matches PrivCmd::BootEnableSystemd { iface: i } && i@ == iface@,
            BootAction::Disable => r matches PrivCmd::BootDisableSystemd { iface: i } && i@
                == iface@,
        },
{
    match action {
        BootAction::Enable => PrivCmd::BootEnableSystemd { iface: iface.to_owned() },
        BootAction::Disable => PrivCmd::BootDisableSystemd { iface: iface.to_owned() },
    }
}

/// How connecting on boot is arranged.
#[derive(Debug, Clone)]
pub enum BootCommand {
    /// By a command that NetworkManager's client runs without privileges.
    Nmcli(Vec<String>),
    /// By the privileged helper.
    Privileged(PrivCmd),
}

/// How to have a profile connected on boot, or not: through NetworkManager where it runs, else
/// through systemd.
pub fn boot_command(profile_name: &str, action: BootAction, has_nm: bool) -> (r: BootCommand)
    ensures
        if has_nm {
            r matches BootCommand::Nmcli(argv) && crate::text::views(argv@) == seq![
                "nmcli"@,
                "connection"@,
                "modify"@,
                "wg-gui-"@ + profile_name@,
                "connection.autoconnect"@,
                autoconnect_word(action),
            ]
        } else {
            r matches BootCommand::Privileged(cmd) && match action {
                BootAction::Enable => cmd matches PrivCmd::BootEnableSystemd { iface } && iface@
                    == "wg-gui-"@ + profile_name@,
                BootAction::Disable => cmd matches PrivCmd::BootDisableSystemd { iface } && iface@
                    == "wg-gui-"@ + profile_name@,
            }
        },
{
    if has_nm {
        BootCommand::Nmcli(nm_autoconnect_argv(profile_name, action))
    } else {
        let iface = text2("wg-gui-", profile_name);
        BootCommand::Privileged(systemd_boot_cmd(iface.as_str(), action))
    }
}

/// The result of having NetworkManager's client change a connection.
pub fn nmcli_result(o: &RunOutcome) -> (r: AppResult<()>)
    ensures
        match *o {
            RunOutcome::NotFound => r matches Err(AppError::WgNotFound),
            RunOutcome::NotStarted(e) => r matches Err(AppError::WgQuickFailed(t)) && t@
                == "nmcli spawn error: "@ + e@,
            RunOutcome::Ended { success, code: _, status, stdout: _, stderr } => if success {
                r is Ok
            } else {
                r matches Err(AppError::WgQuickFailed(t)) && t@ == "nmcli autoconnect failed ("@
                    + status@ + "): "@ + crate::text::trimmed(stderr@)
            },
        },
{
    match o {
        RunOutcome::NotFound => Err(AppError::WgNotFound),
        RunOutcome::NotStarted(e) => {
            Err(AppError::WgQuickFailed(text2("nmcli spawn error: ", e.as_str())))
        },
        RunOutcome::Ended { success, code: _, status, stdout: _, stderr } => {
            if *success {
                return Ok(());
            }
            Err(
                AppError::WgQuickFailed(
                    text4(
                        "nmcli autoconnect failed (",
                        status.as_str(),
                        "): ",
                        trim(stderr.as_str()),
                    ),
                ),
            )
        },
    }
}

} // verus!
