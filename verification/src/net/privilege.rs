//! The protocol between the unprivileged program and its privileged helper.

use crate::error::{AppError, AppResult};
use crate::text::{owned, text2, text4, trim};
use vstd::prelude::*;
use vstd::string::*;

verus! {

/// Where the helper is installed.
pub const HELPER_PATH: &'static str = "/usr/lib/wireguard-gui/wireguard-gui-helper";

/// The environment variable that names another helper while developing.
pub const HELPER_BIN_ENV: &'static str = "WG_GUI_HELPER_BIN";

/// One operation that needs privileges.
#[derive(Debug, Clone, PartialEq, Eq)]
pub enum PrivCmd {
    /// Bring a tunnel up from a configuration file.
    WgQuickUp { iface: String, conf_path: String },
    /// Take a tunnel down.
    WgQuickDown { iface: String },
    /// Write the client's configuration.
    ClientWriteConf { conf_text: String },
    /// Remove the client's configuration.
    ClientRemoveConf,
    /// Let only the tunnel, the local network and the tunnel's endpoint through, for a limited
    /// time unless renewed.
    KillSwitchArm {
        iface: String,
        endpoint_ip: String,
        endpoint_port: u16,
        lan_cidrs: Vec<String>,
        lease_secs: u64,
        netns_endpoint_udp: Option<(String, u16)>,
    },
    /// Lift the kill switch.
    KillSwitchDisarm,
    /// Build a network namespace that reaches the world only through a tunnel of its own.
    NetnsSetup { ns: String, wgif: String, conf_path: String, address: String, dns: Vec<String> },
    /// Take a network namespace down.
    NetnsTeardown { ns: String },
    /// Start a program inside a network namespace as an ordinary user.
    NetnsLaunch {
        ns: String,
        uid: u32,
        exe: String,
        args: Vec<String>,
        env: Vec<(String, String)>,
    },
    /// Connect on boot.
    BootEnableSystemd { iface: String },
    /// Do not connect on boot.
    BootDisableSystemd { iface: String },
    /// Write the server's configuration.
    ServerWriteConf { conf_text: String },
    /// Bring the server up.
    ServerUp,
    /// Take the server down.
    ServerDown,
    /// Translate the addresses of the tunnel's subnet on their way out.
    NatEnable { subnet: String, egress_iface: String },
    /// Stop translating.
    NatDisable,
}

/// What an operation says.
pub enum PrivCmdModel {
    WgQuickUp { iface: Seq<char>, conf_path: Seq<char> },
    WgQuickDown { iface: Seq<char> },
    ClientWriteConf { conf_text: Seq<char> },
    ClientRemoveConf,
    KillSwitchArm {
        iface: Seq<char>,
        endpoint_ip: Seq<char>,
        endpoint_port: u16,
        lan_cidrs: Seq<Seq<char>>,
        lease_secs: u64,
        netns_endpoint_udp: Option<(Seq<char>, u16)>,
    },
    KillSwitchDisarm,
    NetnsSetup {
        ns: Seq<char>,
        wgif: Seq<char>,
        conf_path: Seq<char>,
        address: Seq<char>,
        dns: Seq<Seq<char>>,
    },
    NetnsTeardown { ns: Seq<char> },
    NetnsLaunch {
        ns: Seq<char>,
        uid: u32,
        exe: Seq<char>,
        args: Seq<Seq<char>>,
        env: Seq<(Seq<char>, Seq<char>)>,
    },
    BootEnableSystemd { iface: Seq<char> },
    BootDisableSystemd { iface: Seq<char> },
    ServerWriteConf { conf_text: Seq<char> },
    ServerUp,
    ServerDown,
    NatEnable { subnet: Seq<char>, egress_iface: Seq<char> },
    NatDisable,
}

impl View for PrivCmd {
    type V = PrivCmdModel;

    open spec fn view(&self) -> PrivCmdModel {
        match *self {
            PrivCmd::WgQuickUp { iface, conf_path } => PrivCmdModel::WgQuickUp {
                iface: iface@,
                conf_path: conf_path@,
            },
            PrivCmd::WgQuickDown { iface } => PrivCmdModel::WgQuickDown { iface: iface@ },
            PrivCmd::ClientWriteConf { conf_text } => PrivCmdModel::ClientWriteConf {
                conf_text: conf_text@,
            },
            PrivCmd::ClientRemoveConf => PrivCmdModel::ClientRemoveConf,
            PrivCmd::KillSwitchArm {
                iface,
                endpoint_ip,
                endpoint_port,
                lan_cidrs,
                lease_secs,
                netns_endpoint_udp,
            } => PrivCmdModel::KillSwitchArm {
                iface: iface@,
                endpoint_ip: endpoint_ip@,
                endpoint_port,
                lan_cidrs: crate::text::views(lan_cidrs@),
                lease_secs,
                netns_endpoint_udp: match netns_endpoint_udp {
                    Some((host, port)) => Some((host@, port)),
                    None => None,
                },
            },
            PrivCmd::KillSwitchDisarm => PrivCmdModel::KillSwitchDisarm,
            PrivCmd::NetnsSetup { ns, wgif, conf_path, address, dns } => PrivCmdModel::NetnsSetup {
                ns: ns@,
                wgif: wgif@,
                conf_path: conf_path@,
                address: address@,
                dns: crate::text::views(dns@),
            },
            PrivCmd::NetnsTeardown { ns } => PrivCmdModel::NetnsTeardown { ns: ns@ },
            PrivCmd::NetnsLaunch { ns, uid, exe, args, env } => PrivCmdModel::NetnsLaunch {
                ns: ns@,
                uid,
                exe: exe@,
                args: crate::text::views(args@),
                env: env@.map_values(|e: (String, String)| (e.0@, e.1@)),
            },
            PrivCmd::BootEnableSystemd { iface } => PrivCmdModel::BootEnableSystemd {
                iface: iface@,
            },
            PrivCmd::BootDisableSystemd { iface } => PrivCmdModel::BootDisableSystemd {
                iface: iface@,
            },
            PrivCmd::ServerWriteConf { conf_text } => PrivCmdModel::ServerWriteConf {
                conf_text: conf_text@,
            },
            PrivCmd::ServerUp => PrivCmdModel::ServerUp,
            PrivCmd::ServerDown => PrivCmdModel::ServerDown,
            PrivCmd::NatEnable { subnet, egress_iface } => PrivCmdModel::NatEnable {
                subnet: subnet@,
                egress_iface: egress_iface@,
            },
            PrivCmd::NatDisable => PrivCmdModel::NatDisable,
        }
    }
}

/// The helper to run: the override where it is there and not empty, else the installed one.
pub open spec fn helper_choice(override_path: Option<Seq<char>>) -> Seq<char> {
    match override_path {
        Some(p) => if p.len() > 0 {
            p
        } else {
            HELPER_PATH@
        },
        None => HELPER_PATH@,
    }
}

/// The helper to run: the override where it is there and not empty, else the installed one.
pub fn helper_path(override_path: Option<String>) -> (r: String)
    ensures
        r@ == helper_choice(crate::config::profile::opt_view(override_path)),
{
    match override_path {
        Some(p) => {
            if p.as_str().is_empty() {
                HELPER_PATH.to_owned()
            } else {
                p
            }
        },
        None => HELPER_PATH.to_owned(),
    }
}

/// The command line that has `pkexec` run `helper` with a payload.
pub fn helper_argv_with(helper: &str, payload: &str) -> (r: Vec<String>)
    ensures
        crate::text::views(r@) == seq!["pkexec"@, helper@, "--json"@, payload@],
{
    let r = owned(vec!["pkexec", helper, "--json", payload]);
    assert(crate::text::views(r@) =~= seq!["pkexec"@, helper@, "--json"@, payload@]);
    r
}

/// The command line that has `pkexec` run the installed helper with a payload.
pub fn helper_argv(payload: &str) -> (r: Vec<String>)
    ensures
        crate::text::views(r@) == seq!["pkexec"@, HELPER_PATH@, "--json"@, payload@],
{
    helper_argv_with(HELPER_PATH, payload)
}

/// What came of running a program.
#[derive(Debug, Clone)]
pub enum RunOutcome {
    /// The program is not there.
    NotFound,
    /// The program could not be started.
    NotStarted(String),
    /// The program has ended; `code` is its exit code, where it was not killed, and `status` the
    /// text that its exit status is shown with.
    Ended { success: bool, code: Option<i32>, status: String, stdout: String, stderr: String },
}

/// Whether an exit code of `pkexec` says that the user was not authorised.
pub open spec fn unauthorised(code: Option<i32>) -> bool {
    code == Some(126i32) || code == Some(127i32)
}

/// The result of having `pkexec` run the helper.
pub fn run_privileged(o: &RunOutcome) -> (r: AppResult<()>)
    ensures
        match *o {
            RunOutcome::NotFound => r matches Err(AppError::WgNotFound),
            RunOutcome::NotStarted(e) => r matches Err(AppError::IpcFailed(t)) && t@
                == "pkexec spawn error: "@ + e@,
            RunOutcome::Ended { success, code, status, stdout, stderr } => if success {
                r is Ok
            } else if unauthorised(code) {
                r matches Err(AppError::PermissionDenied)
            } else {
                r matches Err(AppError::IpcFailed(t)) && t@ == "helper failed ("@ + status@
                    + "): "@ + crate::text::trimmed(stderr@) + " "@ + crate::text::trimmed(stdout@)
            },
        },
{
    match o {
        RunOutcome::NotFound => Err(AppError::WgNotFound),
        RunOutcome::NotStarted(e) => {
            Err(AppError::IpcFailed(text2("pkexec spawn error: ", e.as_str())))
        },
        RunOutcome::Ended { success, code, status, stdout, stderr } => {
            if *success {
                return Ok(());
            }
            let denied = match *code {
                Some(c) => c == 126 || c == 127,
                None => false,
            };
            if denied {
                return Err(AppError::PermissionDenied);
            }
            let mut t = text4("helper failed (", status.as_str(), "): ", trim(stderr.as_str()));
            t.push_str(" ");
            t.push_str(trim(stdout.as_str()));
            Err(AppError::IpcFailed(t))
        },
    }
}

} // verus!
