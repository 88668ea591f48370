//! What the helper does for each command, and what the outcome of each step means.

use crate::error::{AppError, AppResult};
use crate::helper::{
    ip_link_show_argv, netns_del_argv, netns_launch_argv, netns_setup_argv_sequence,
    nft_delete_nat_table_argv, nft_delete_table_argv, nft_killswitch_ruleset, nft_nat_ruleset,
    systemd_run_deadman_argv, sysctl_ipv4_forward_argv, sysctl_ipv6_forward_argv,
    username_for_uid, wgquick_server_down_argv, wgquick_server_up_argv, CLIENT_CONF_PATH,
    SERVER_CONF_PATH,
};
use crate::net::netns::resolv_conf_content;
use crate::net::privilege::PrivCmd;
use crate::text::{decimal_text, has_text, owned, trim};
use vstd::prelude::*;
use vstd::string::*;

verus! {

/// One thing the helper does.
#[derive(Debug, Clone, PartialEq, Eq)]
pub enum Step {
    /// Run a command; its failure ends the operation.
    Run { argv: Vec<String> },
    /// Run a command; its failure ends the operation with the given refusal.
    Check { argv: Vec<String>, refusal: String },
    /// Run a command; its failure ends nothing. The failure is warned of, between two texts.
    TryRun { argv: Vec<String>, head: String, tail: String },
    /// Run a command that deletes a table; a table that is not there is as good as deleted.
    DeleteTable { argv: Vec<String> },
    /// Make a directory and those above it.
    MakeDir { path: String, netns: bool },
    /// Write a file.
    WriteText { path: String, text: String, complaint: String, netns: bool },
    /// Write a file that only its owner can read and write.
    WriteSecret { path: String, text: String },
    /// Remove a file that the step number `since` wrote. Done whenever that step was.
    Cleanup { path: String, since: usize },
    /// Remove a file; one that is not there is as good as removed.
    RemoveFile { path: String },
    /// Remove a directory with all it holds, as far as possible.
    RemoveTree { path: String },
}

/// What came of a step.
#[derive(Debug, Clone, PartialEq, Eq)]
pub enum Outcome {
    /// It was done.
    Done,
    /// The program or the file is not there.
    Missing,
    /// The program ended with a failure.
    Exited { status: String, stderr: String },
    /// The file could not be opened.
    Unopened(String),
    /// It could not be done.
    Broken(String),
}

/// What a step says.
pub enum StepModel {
    Run { argv: Seq<Seq<char>> },
    Check { argv: Seq<Seq<char>>, refusal: Seq<char> },
    TryRun { argv: Seq<Seq<char>>, head: Seq<char>, tail: Seq<char> },
    DeleteTable { argv: Seq<Seq<char>> },
    MakeDir { path: Seq<char>, netns: bool },
    WriteText { path: Seq<char>, text: Seq<char>, complaint: Seq<char>, netns: bool },
    WriteSecret { path: Seq<char>, text: Seq<char> },
    Cleanup { path: Seq<char>, since: nat },
    RemoveFile { path: Seq<char> },
    RemoveTree { path: Seq<char> },
}

impl View for Step {
    type V = StepModel;

    open spec fn view(&self) -> StepModel {
        match *self {
            Step::Run { argv } => StepModel::Run { argv: crate::text::views(argv@) },
            Step::Check { argv, refusal } => StepModel::Check {
                argv: crate::text::views(argv@),
                refusal: refusal@,
            },
            Step::TryRun { argv, head, tail } => StepModel::TryRun {
                argv: crate::text::views(argv@),
                head: head@,
                tail: tail@,
            },
            Step::DeleteTable { argv } => StepModel::DeleteTable {
                argv: crate::text::views(argv@),
            },
            Step::MakeDir { path, netns } => StepModel::MakeDir { path: path@, netns },
            Step::WriteText { path, text, complaint, netns } => StepModel::WriteText {
                path: path@,
                text: text@,
                complaint: complaint@,
                netns,
            },
            Step::WriteSecret { path, text } => StepModel::WriteSecret { path: path@, text: text@ },
            Step::Cleanup { path, since } => StepModel::Cleanup {
                path: path@,
                since: since as nat,
            },
            Step::RemoveFile { path } => StepModel::RemoveFile { path: path@ },
            Step::RemoveTree { path } => StepModel::RemoveTree { path: path@ },
        }
    }
}

/// What a row of steps says.
pub open spec fn step_views(v: Seq<Step>) -> Seq<StepModel> {
    v.map_values(|s: Step| s@)
}

// ── warnings ────────────────────────────────────────────────────────────────

/// What stands before the reason why the timer of the kill switch could not be set.
pub const DEADMAN_HEAD: &'static str = "helper: WARNING — dead-man timer could not be armed (";

/// What stands behind it.
pub const DEADMAN_TAIL: &'static str =
    "). Kill-switch is active but will NOT auto-expire if the GUI is killed.";

/// What stands before the reason why forwarding for IPv6 could not be switched on.
pub const FORWARDING_HEAD: &'static str = "helper: WARNING — IPv6 forwarding sysctl failed (";

/// What stands behind it.
pub const FORWARDING_TAIL: &'static str = "); continuing (IPv4-only NAT will work)";

// ── the plan for a command ──────────────────────────────────────────────────

/// The refusal to arm the kill switch for an interface that is not there.
pub open spec fn arm_refusal(iface: Seq<char>) -> Seq<char> {
    "kill-switch arm refused: interface '"@ + iface
        + "' does not exist. Bring the tunnel up before arming the kill-switch."@
}

/// Where a rule set is kept while it is applied.
pub open spec fn rules_path(kind: Seq<char>, pid: u32) -> Seq<char> {
    "/run/wg-gui-"@ + kind + "-"@ + crate::text::decimal(pid as nat) + ".nft"@
}

/// The steps that apply a rule set: write it, load it, and remove the file whatever came of it.
/// The first of them is number `first` of the plan.
pub open spec fn apply_rules(
    path: Seq<char>,
    text: Seq<char>,
    what: Seq<char>,
    first: nat,
) -> Seq<StepModel> {
    seq![
        StepModel::WriteText {
            path,
            text,
            complaint: "cannot write "@ + what + " to "@ + path + ": "@,
            netns: false,
        },
        StepModel::Run { argv: seq!["nft"@, "-f"@, path] },
        StepModel::Cleanup { path, since: first },
    ]
}

/// The lines that load the address translation rule set afresh: the table is declared, so that it
/// can be deleted even where it is not there yet, then deleted, then built.
pub open spec fn nat_reload_rows(subnet: Seq<char>, egress_iface: Seq<char>) -> Seq<Seq<char>> {
    seq!["add table inet wg_gui_srv_nat"@, "delete table inet wg_gui_srv_nat"@]
        + crate::helper::nat_rows(subnet, egress_iface)
}

/// Where the settings of a namespace are kept.
pub open spec fn netns_dir(ns: Seq<char>) -> Seq<char> {
    "/etc/netns/"@ + ns
}

/// The steps that give a namespace its name servers.
pub open spec fn dns_steps(ns: Seq<char>, dns: Seq<Seq<char>>) -> Seq<StepModel> {
    if dns.len() == 0 {
        Seq::empty()
    } else {
        let path = netns_dir(ns) + "/resolv.conf"@;
        seq![
            StepModel::MakeDir { path: netns_dir(ns), netns: true },
            StepModel::WriteText {
                path,
                text: crate::text::flat(crate::net::netns::resolv_rows(dns)),
                complaint: "cannot write "@ + path + ": "@,
                netns: true,
            },
        ]
    }
}

/// The steps that write a configuration that only its owner can read.
pub open spec fn secret_steps(path: Seq<char>, text: Seq<char>) -> Seq<StepModel> {
    seq![
        StepModel::MakeDir { path: "/etc/wireguard"@, netns: false },
        StepModel::WriteSecret { path, text },
    ]
}

/// One command to run for each of some command lines.
pub open spec fn run_each(rows: Seq<Seq<Seq<char>>>) -> Seq<StepModel> {
    rows.map_values(|argv: Seq<Seq<char>>| StepModel::Run { argv })
}

/// What an owned optional endpoint says.
pub open spec fn owned_endpoint(e: Option<(String, u16)>) -> Option<(Seq<char>, nat)> {
    match e {
        Some(p) => Some((p.0@, p.1 as nat)),
        None => None,
    }
}

/// The steps for starting a program inside a namespace, or the complaint: the superuser is
/// refused, and so is a user that the password file (or the error of reading it) does not know.
pub open spec fn launch_plan(
    ns: Seq<char>,
    uid: u32,
    exe: Seq<char>,
    args: Seq<Seq<char>>,
    env: Seq<Seq<char>>,
    passwd: Result<Seq<char>, Seq<char>>,
) -> Result<Seq<StepModel>, Seq<char>> {
    if uid == 0 {
        Err("netns launch refused: uid 0 (root) is not allowed for application launch"@)
    } else {
        match passwd {
            Err(e) => Err("cannot read /etc/passwd: "@ + e),
            Ok(text) => match crate::helper::passwd_user(crate::text::lines_of(text), uid) {
                Some(user) => Ok(
                    seq![
                        StepModel::Run {
                            argv: crate::helper::netns_launch_row(ns, user, exe, args, env),
                        },
                    ],
                ),
                None => Err(crate::helper::unknown_uid(uid)),
            },
        }
    }
}

/// The steps for a command, or the complaint about it.
pub open spec fn plan(cmd: PrivCmd, pid: u32, passwd: Result<Seq<char>, Seq<char>>) -> Result<
    Seq<StepModel>,
    Seq<char>,
> {
    match cmd {
        PrivCmd::WgQuickUp { iface: _, conf_path } => Ok(
            seq![StepModel::Run { argv: seq!["wg-quick"@, "up"@, conf_path@] }],
        ),
        PrivCmd::WgQuickDown { iface } => Ok(
            seq![StepModel::Run { argv: seq!["wg-quick"@, "down"@, iface@] }],
        ),
        PrivCmd::ClientWriteConf { conf_text } => Ok(
            secret_steps(CLIENT_CONF_PATH@, conf_text@),
        ),
        PrivCmd::ClientRemoveConf => Ok(
            seq![StepModel::RemoveFile { path: CLIENT_CONF_PATH@ }],
        ),
        PrivCmd::KillSwitchArm {
            iface,
            endpoint_ip,
            endpoint_port,
            lan_cidrs,
            lease_secs,
            netns_endpoint_udp,
        } => Ok(
            seq![
                StepModel::Check {
                    argv: crate::helper::link_show_row(iface@),
                    refusal: arm_refusal(iface@),
                },
            ] + apply_rules(
                rules_path("ks"@, pid),
                crate::text::flat(
                    crate::helper::killswitch_rows(
                        crate::helper::accept_rules(
                            iface@,
                            endpoint_ip@,
                            endpoint_port as nat,
                            crate::text::views(lan_cidrs@),
                            owned_endpoint(netns_endpoint_udp),
                        ),
                    ),
                ),
                "nft ruleset"@,
                1,
            ) + seq![
                StepModel::TryRun {
                    argv: crate::helper::deadman_row(lease_secs as nat),
                    head: DEADMAN_HEAD@,
                    tail: DEADMAN_TAIL@,
                },
            ],
        ),
        PrivCmd::KillSwitchDisarm => Ok(
            seq![StepModel::DeleteTable { argv: crate::helper::delete_table_row() }],
        ),
        PrivCmd::NetnsSetup { ns, wgif, conf_path, address, dns } => Ok(
            run_each(
                crate::helper::netns_setup_rows(ns@, wgif@, conf_path@, address@),
            ) + dns_steps(ns@, crate::text::views(dns@)),
        ),
        PrivCmd::NetnsTeardown { ns } => Ok(
            seq![
                StepModel::Run { argv: crate::helper::netns_del_row(ns@) },
                StepModel::RemoveTree { path: netns_dir(ns@) },
            ],
        ),
        PrivCmd::NetnsLaunch { ns, uid, exe, args, env } => launch_plan(
            ns@,
            uid,
            exe@,
            crate::text::views(args@),
            crate::helper::env_rows(env@),
            passwd,
        ),
        PrivCmd::BootEnableSystemd { iface } => Ok(
            seq![
                StepModel::Run { argv: seq!["systemctl"@, "enable"@, "wg-quick@"@ + iface@] },
            ],
        ),
        PrivCmd::BootDisableSystemd { iface } => Ok(
            seq![
                StepModel::Run { argv: seq!["systemctl"@, "disable"@, "wg-quick@"@ + iface@] },
            ],
        ),
        PrivCmd::ServerWriteConf { conf_text } => Ok(
            secret_steps(SERVER_CONF_PATH@, conf_text@),
        ),
        PrivCmd::ServerUp => Ok(
            seq![StepModel::Run { argv: seq!["wg-quick"@, "up"@, SERVER_CONF_PATH@] }],
        ),
        PrivCmd::ServerDown => Ok(
            seq![StepModel::Run { argv: seq!["wg-quick"@, "down"@, SERVER_CONF_PATH@] }],
        ),
        PrivCmd::NatEnable { subnet, egress_iface } => Ok(
            seq![
                StepModel::Run { argv: seq!["sysctl"@, "-w"@, "net.ipv4.ip_forward=1"@] },
                StepModel::TryRun {
                    argv: seq!["sysctl"@, "-w"@, "net.ipv6.conf.all.forwarding=1"@],
                    head: FORWARDING_HEAD@,
                    tail: FORWARDING_TAIL@,
                },
            ] + apply_rules(
                rules_path("nat"@, pid),
                crate::text::flat(nat_reload_rows(subnet@, egress_iface@)),
                "nft nat ruleset"@,
                2,
            ),
        ),
        PrivCmd::NatDisable => Ok(
            seq![StepModel::DeleteTable { argv: crate::helper::delete_nat_row() }],
        ),
    }
}

/// Where a rule set is kept while it is applied.
fn rules_file(kind: &str, pid: u32) -> (r: String)
    ensures
        r@ == rules_path(kind@, pid),
{
    let mut t = "/run/wg-gui-".to_owned();
    t.push_str(kind);
    t.push_str("-");
    t.push_str(decimal_text(pid as u64).as_str());
    t.push_str(".nft");
    t
}

/// Adds one step.
fn add_step(steps: &mut Vec<Step>, step: Step)
    ensures
        step_views(final(steps)@) == step_views(old(steps)@).push(step@),
{
    let ghost before = steps@;
    steps.push(step);
    assert(step_views(steps@) =~= step_views(before).push(step@));
}

/// One step on its own.
fn one_step(step: Step) -> (r: Vec<Step>)
    ensures
        step_views(r@) == seq![step@],
{
    let mut steps: Vec<Step> = Vec::new();
    add_step(&mut steps, step);
    assert(step_views(steps@) =~= seq![step@]);
    steps
}

/// A command to run.
fn run(parts: Vec<&str>) -> (r: Step)
    ensures
        r@ == (StepModel::Run { argv: crate::text::slices(parts@) }),
{
    Step::Run { argv: owned(parts) }
}

/// Adds the steps that apply a rule set.
fn add_rules(steps: &mut Vec<Step>, path: String, text: String, what: &str)
    ensures
        step_views(final(steps)@) == step_views(old(steps)@) + apply_rules(
            path@,
            text@,
            what@,
            old(steps)@.len(),
        ),
{
    let ghost before = step_views(steps@);
    let since: usize = steps.len();
    let mut complaint = "cannot write ".to_owned();
    complaint.push_str(what);
    complaint.push_str(" to ");
    complaint.push_str(path.as_str());
    complaint.push_str(": ");
    add_step(steps, Step::WriteText { path: path.clone(), text, complaint, netns: false });
    let load = run(vec!["nft", "-f", path.as_str()]);
    proof {
        assert(load@->Run_argv =~= seq!["nft"@, "-f"@, path@]);
    }
    add_step(steps, load);
    add_step(steps, Step::Cleanup { path: path.clone(), since });
    assert(step_views(steps@) =~= before + apply_rules(path@, text@, what@, since as nat));
}

/// The steps that write a configuration that only its owner can read.
fn secret_file(path: &str, text: String) -> (r: Vec<Step>)
    ensures
        step_views(r@) == secret_steps(path@, text@),
{
    let mut steps: Vec<Step> = Vec::new();
    add_step(&mut steps, Step::MakeDir { path: "/etc/wireguard".to_owned(), netns: false });
    add_step(&mut steps, Step::WriteSecret { path: path.to_owned(), text });
    assert(step_views(steps@) =~= secret_steps(path@, text@));
    steps
}

/// The text that loads the address translation rule set afresh.
fn nat_reload(subnet: &str, egress_iface: &str) -> (r: String)
    ensures
        r@ == crate::text::flat(nat_reload_rows(subnet@, egress_iface@)),
{
    let reset = vec!["add table inet wg_gui_srv_nat", "delete table inet wg_gui_srv_nat"];
    let mut out = crate::text::text_of_lines(&reset);
    out.push_str(nft_nat_ruleset(subnet, egress_iface).as_str());
    proof {
        let head = seq!["add table inet wg_gui_srv_nat"@, "delete table inet wg_gui_srv_nat"@];
        assert(crate::text::slices(reset@) =~= head);
        crate::text::lemma_flat_add(head, crate::helper::nat_rows(subnet@, egress_iface@));
    }
    out
}

/// The steps that build a namespace.
fn netns_steps(ns: &str, wgif: &str, conf_path: &str, address: &str, dns: &Vec<String>) -> (r: Vec<
    Step,
>)
    ensures
        step_views(r@) == run_each(
            crate::helper::netns_setup_rows(ns@, wgif@, conf_path@, address@),
        ) + dns_steps(ns@, crate::text::views(dns@)),
{
    let ghost rows = crate::helper::netns_setup_rows(ns@, wgif@, conf_path@, address@);
    let mut rest = netns_setup_argv_sequence(ns, wgif, conf_path, address);
    let ghost all = rest@;
    let mut steps: Vec<Step> = Vec::new();
    let n: usize = rest.len();
    let mut i: usize = 0;
    while i < n
        invariant
            i <= n,
            n == all.len(),
            rest@ == all.skip(i as int),
            rows == crate::helper::argv_views(all),
            step_views(steps@) == run_each(rows).take(i as int),
        decreases n - i,
    {
        let ghost was = steps@;
        let argv = rest.remove(0);
        add_step(&mut steps, Step::Run { argv });
        proof {
            assert(all.skip(i as int).remove(0) =~= all.skip(i + 1));
            assert(rows[i as int] == crate::text::views(argv@));
            assert(step_views(steps@) =~= run_each(rows).take(i + 1));
        }
        i += 1;
    }
    assert(run_each(rows).take(i as int) =~= run_each(rows));
    if dns.len() > 0 {
        let mut dir = "/etc/netns/".to_owned();
        dir.push_str(ns);
        let mut path = dir.clone();
        path.push_str("/resolv.conf");
        let mut complaint = "cannot write ".to_owned();
        complaint.push_str(path.as_str());
        complaint.push_str(": ");
        let servers = crate::text::borrowed(dns);
        let text = resolv_conf_content(servers.as_slice());
        add_step(&mut steps, Step::MakeDir { path: dir, netns: true });
        add_step(&mut steps, Step::WriteText { path, text, complaint, netns: true });
    }
    assert(step_views(steps@) =~= run_each(rows) + dns_steps(ns@, crate::text::views(dns@)));
    steps
}

/// The steps for starting a program inside a namespace.
fn launch_steps(
    ns: &str,
    uid: u32,
    exe: &str,
    args: &Vec<String>,
    env: &Vec<(String, String)>,
    passwd: Result<String, String>,
) -> (r: AppResult<Vec<Step>>)
    ensures
        ({
            let p = launch_plan(
                ns@,
                uid,
                exe@,
                crate::text::views(args@),
                crate::helper::env_rows(env@),
                text_or_error(passwd),
            );
            match r {
                Ok(steps) => p is Ok && step_views(steps@) == p->Ok_0,
                Err(AppError::NetnsFailed(t)) => p is Err && t@ == p->Err_0,
                Err(_) => false,
            }
        }),
{
    if uid == 0 {
        return Err(
            AppError::NetnsFailed(
                "netns launch refused: uid 0 (root) is not allowed for application launch"
                    .to_owned(),
            ),
        );
    }
    match passwd {
        Err(e) => {
            let mut t = "cannot read /etc/passwd: ".to_owned();
            t.push_str(e.as_str());
            Err(AppError::NetnsFailed(t))
        },
        Ok(text) => match username_for_uid(text.as_str(), uid) {
            Ok(user) => Ok(
                one_step(
                    Step::Run {
                        argv: netns_launch_argv(
                            ns,
                            user.as_str(),
                            exe,
                            args.as_slice(),
                            env.as_slice(),
                        ),
                    },
                ),
            ),
            Err(e) => Err(e),
        },
    }
}

/// A text, or the text of the error of getting it.
pub open spec fn text_or_error(r: Result<String, String>) -> Result<Seq<char>, Seq<char>> {
    match r {
        Ok(t) => Ok(t@),
        Err(e) => Err(e@),
    }
}

/// Whether the plan for a command depends on the password file.
pub fn needs_passwd(cmd: &PrivCmd) -> (r: bool)
    ensures
        r == (cmd matches PrivCmd::NetnsLaunch { uid, .. } && uid != 0),
{
    match cmd {
        PrivCmd::NetnsLaunch { uid, .. } => *uid != 0,
        _ => false,
    }
}

/// The steps for a command. `pid` is the helper's process number and `passwd` the text of the
/// password file, or the error of reading it.
pub fn dispatch(cmd: PrivCmd, pid: u32, passwd: Result<String, String>) -> (r: AppResult<
    Vec<Step>,
>)
    ensures
        ({
            let p = plan(cmd, pid, text_or_error(passwd));
            match r {
                Ok(steps) => p is Ok && step_views(steps@) == p->Ok_0,
                Err(AppError::NetnsFailed(t)) => p is Err && t@ == p->Err_0,
                Err(_) => false,
            }
        }),
{
    match cmd {
        PrivCmd::WgQuickUp { iface: _, conf_path } => {
            let step = run(vec!["wg-quick", "up", conf_path.as_str()]);
            assert(step@->Run_argv =~= seq!["wg-quick"@, "up"@, conf_path@]);
            Ok(one_step(step))
        },
        PrivCmd::WgQuickDown { iface } => {
            let step = run(vec!["wg-quick", "down", iface.as_str()]);
            assert(step@->Run_argv =~= seq!["wg-quick"@, "down"@, iface@]);
            Ok(one_step(step))
        },
        PrivCmd::ClientWriteConf { conf_text } => Ok(secret_file(CLIENT_CONF_PATH, conf_text)),
        PrivCmd::ClientRemoveConf => Ok(
            one_step(Step::RemoveFile { path: CLIENT_CONF_PATH.to_owned() }),
        ),
        PrivCmd::KillSwitchArm {
            iface,
            endpoint_ip,
            endpoint_port,
            lan_cidrs,
            lease_secs,
            netns_endpoint_udp,
        } => {
            let mut refusal = "kill-switch arm refused: interface '".to_owned();
            refusal.push_str(iface.as_str());
            refusal.push_str(
                "' does not exist. Bring the tunnel up before arming the kill-switch.",
            );
            let mut steps = one_step(
                Step::Check { argv: ip_link_show_argv(iface.as_str()), refusal },
            );
            let text = nft_killswitch_ruleset(
                iface.as_str(),
                endpoint_ip.as_str(),
                endpoint_port,
                lan_cidrs.as_slice(),
                netns_endpoint_udp.as_ref(),
            );
            assert(steps@.len() == step_views(steps@).len());
            add_rules(&mut steps, rules_file("ks", pid), text, "nft ruleset");
            add_step(
                &mut steps,
                Step::TryRun {
                    argv: systemd_run_deadman_argv(lease_secs),
                    head: DEADMAN_HEAD.to_owned(),
                    tail: DEADMAN_TAIL.to_owned(),
                },
            );
            proof {
                let p = plan(cmd, pid, text_or_error(passwd));
                assert(step_views(steps@) =~= p->Ok_0);
            }
            Ok(steps)
        },
        PrivCmd::KillSwitchDisarm => Ok(
            one_step(Step::DeleteTable { argv: nft_delete_table_argv() }),
        ),
        PrivCmd::NetnsSetup { ns, wgif, conf_path, address, dns } => Ok(
            netns_steps(
                ns.as_str(),
                wgif.as_str(),
                conf_path.as_str(),
                address.as_str(),
                &dns,
            ),
        ),
        PrivCmd::NetnsTeardown { ns } => {
            let mut steps = one_step(Step::Run { argv: netns_del_argv(ns.as_str()) });
            let mut dir = "/etc/netns/".to_owned();
            dir.push_str(ns.as_str());
            add_step(&mut steps, Step::RemoveTree { path: dir });
            proof {
                let p = plan(cmd, pid, text_or_error(passwd));
                assert(step_views(steps@) =~= p->Ok_0);
            }
            Ok(steps)
        },
        PrivCmd::NetnsLaunch { ns, uid, exe, args, env } => launch_steps(
            ns.as_str(),
            uid,
            exe.as_str(),
            &args,
            &env,
            passwd,
        ),
        PrivCmd::BootEnableSystemd { iface } => {
            let unit = unit_name(iface.as_str());
            let step = run(vec!["systemctl", "enable", unit.as_str()]);
            assert(step@->Run_argv =~= seq!["systemctl"@, "enable"@, unit@]);
            Ok(one_step(step))
        },
        PrivCmd::BootDisableSystemd { iface } => {
            let unit = unit_name(iface.as_str());
            let step = run(vec!["systemctl", "disable", unit.as_str()]);
            assert(step@->Run_argv =~= seq!["systemctl"@, "disable"@, unit@]);
            Ok(one_step(step))
        },
        PrivCmd::ServerWriteConf { conf_text } => Ok(secret_file(SERVER_CONF_PATH, conf_text)),
        PrivCmd::ServerUp => Ok(one_step(Step::Run { argv: wgquick_server_up_argv() })),
        PrivCmd::ServerDown => Ok(one_step(Step::Run { argv: wgquick_server_down_argv() })),
        PrivCmd::NatEnable { subnet, egress_iface } => {
            let mut steps = one_step(Step::Run { argv: sysctl_ipv4_forward_argv() });
            add_step(
                &mut steps,
                Step::TryRun {
                    argv: sysctl_ipv6_forward_argv(),
                    head: FORWARDING_HEAD.to_owned(),
                    tail: FORWARDING_TAIL.to_owned(),
                },
            );
            let text = nat_reload(subnet.as_str(), egress_iface.as_str());
            assert(steps@.len() == step_views(steps@).len());
            add_rules(&mut steps, rules_file("nat", pid), text, "nft nat ruleset");
            proof {
                let p = plan(cmd, pid, text_or_error(passwd));
                assert(step_views(steps@) =~= p->Ok_0);
            }
            Ok(steps)
        },
        PrivCmd::NatDisable => Ok(
            one_step(Step::DeleteTable { argv: nft_delete_nat_table_argv() }),
        ),
    }
}

/// The unit that connects `iface` on boot.
fn unit_name(iface: &str) -> (r: String)
    ensures
        r@ == "wg-quick@"@ + iface@,
{
    let mut t = "wg-quick@".to_owned();
    t.push_str(iface);
    t
}

// ── what outcomes mean ──────────────────────────────────────────────────────

/// Why a step failed.
pub enum FailureModel {
    /// The program is not there.
    NotFound,
    /// Anything else about running the step.
    Ipc(Seq<char>),
    /// Something about a namespace.
    Netns(Seq<char>),
}

/// Whether an error reports a failure.
pub open spec fn reports(e: AppError, f: FailureModel) -> bool {
    match f {
        FailureModel::NotFound => e is WgNotFound,
        FailureModel::Ipc(t) => e matches AppError::IpcFailed(s) && s@ == t,
        FailureModel::Netns(t) => e matches AppError::NetnsFailed(s) && s@ == t,
    }
}

/// What became of running the program `argv[0]`.
pub open spec fn run_outcome(argv: Seq<Seq<char>>, o: Outcome) -> Result<(), FailureModel> {
    let program = if argv.len() > 0 {
        argv[0]
    } else {
        Seq::empty()
    };
    match o {
        Outcome::Done => Ok(()),
        Outcome::Missing => Err(FailureModel::NotFound),
        Outcome::Exited { status, stderr } => Err(
            FailureModel::Ipc(
                "'"@ + program + "' exited with status "@ + status@ + ": "@
                    + crate::text::trimmed(stderr@),
            ),
        ),
        Outcome::Unopened(e) => Err(FailureModel::Ipc("spawn '"@ + program + "': "@ + e@)),
        Outcome::Broken(e) => Err(FailureModel::Ipc("spawn '"@ + program + "': "@ + e@)),
    }
}

/// Whether a failure says that a table is not there.
pub open spec fn table_absent(t: Seq<char>) -> bool {
    crate::text::occurs(t, "No such file or directory"@) || crate::text::occurs(
        t,
        "table not found"@,
    ) || crate::text::occurs(t, "No such table"@)
}

/// The text of a failure to write or make something.
pub open spec fn failure_text(o: Outcome) -> Seq<char> {
    match o {
        Outcome::Done => Seq::empty(),
        Outcome::Missing => "not found"@,
        Outcome::Exited { status: _, stderr } => stderr@,
        Outcome::Unopened(e) => e@,
        Outcome::Broken(e) => e@,
    }
}

/// What an outcome means for a step.
pub open spec fn verdict(step: StepModel, o: Outcome) -> Result<(), FailureModel> {
    match step {
        StepModel::Run { argv } => run_outcome(argv, o),
        StepModel::Check { argv: _, refusal } => if o is Done {
            Ok(())
        } else {
            Err(FailureModel::Ipc(refusal))
        },
        StepModel::TryRun { .. } => Ok(()),
        StepModel::DeleteTable { argv } => match run_outcome(argv, o) {
            Err(FailureModel::Ipc(t)) => if table_absent(t) {
                Ok(())
            } else {
                Err(FailureModel::Ipc(t))
            },
            r => r,
        },
        StepModel::MakeDir { path, netns } => if o is Done {
            Ok(())
        } else if netns {
            Err(FailureModel::Netns("cannot create "@ + path + ": "@ + failure_text(o)))
        } else {
            Err(FailureModel::Ipc("cannot create dir "@ + path + ": "@ + failure_text(o)))
        },
        StepModel::WriteText { path: _, text: _, complaint, netns } => if o is Done {
            Ok(())
        } else if netns {
            Err(FailureModel::Netns(complaint + failure_text(o)))
        } else {
            Err(FailureModel::Ipc(complaint + failure_text(o)))
        },
        StepModel::WriteSecret { path, text: _ } => match o {
            Outcome::Done => Ok(()),
            Outcome::Unopened(e) => Err(FailureModel::Ipc("cannot open "@ + path + ": "@ + e@)),
            _ => Err(FailureModel::Ipc("cannot write "@ + path + ": "@ + failure_text(o))),
        },
        StepModel::Cleanup { .. } => Ok(()),
        StepModel::RemoveFile { path } => match o {
            Outcome::Done => Ok(()),
            Outcome::Missing => Ok(()),
            _ => Err(FailureModel::Ipc("cannot remove "@ + path + ": "@ + failure_text(o))),
        },
        StepModel::RemoveTree { .. } => Ok(()),
    }
}

/// What became of running a program.
fn run_result(argv: &Vec<String>, o: &Outcome) -> (r: AppResult<()>)
    ensures
        match run_outcome(crate::text::views(argv@), *o) {
            Ok(_) => r is Ok,
            Err(f) => r is Err && reports(r->Err_0, f),
        },
{
    let program = if argv.len() > 0 {
        argv[0].as_str()
    } else {
        ""
    };
    proof {
        reveal_strlit("");
        if argv@.len() == 0 {
            assert(program@ =~= Seq::<char>::empty());
        }
    }
    match o {
        Outcome::Done => Ok(()),
        Outcome::Missing => Err(AppError::WgNotFound),
        Outcome::Exited { status, stderr } => {
            let mut t = "'".to_owned();
            t.push_str(program);
            t.push_str("' exited with status ");
            t.push_str(status.as_str());
            t.push_str(": ");
            t.push_str(trim(stderr.as_str()));
            Err(AppError::IpcFailed(t))
        },
        Outcome::Unopened(e) => Err(AppError::IpcFailed(spawn_text(program, e.as_str()))),
        Outcome::Broken(e) => Err(AppError::IpcFailed(spawn_text(program, e.as_str()))),
    }
}

/// The complaint about a program that could not be started.
fn spawn_text(program: &str, e: &str) -> (r: String)
    ensures
        r@ == "spawn '"@ + program@ + "': "@ + e@,
{
    let mut t = "spawn '".to_owned();
    t.push_str(program);
    t.push_str("': ");
    t.push_str(e);
    t
}

/// The text of a failure to write or make something.
fn failure_of(o: &Outcome) -> (r: String)
    ensures
        r@ == failure_text(*o),
{
    match o {
        Outcome::Done => String::new(),
        Outcome::Missing => "not found".to_owned(),
        Outcome::Exited { status: _, stderr } => stderr.clone(),
        Outcome::Unopened(e) => e.clone(),
        Outcome::Broken(e) => e.clone(),
    }
}

/// A complaint about a path.
fn path_text(head: &str, path: &str, e: &str) -> (r: String)
    ensures
        r@ == head@ + path@ + ": "@ + e@,
{
    let mut t = head.to_owned();
    t.push_str(path);
    t.push_str(": ");
    t.push_str(e);
    t
}

/// The text that a failure is reported with.
pub open spec fn failure_message(f: FailureModel) -> Seq<char> {
    match f {
        FailureModel::NotFound => "[E202] wireguard tooling not found on PATH"@,
        FailureModel::Ipc(t) => "[E502] IPC failed: "@ + t,
        FailureModel::Netns(t) => "[E902] network namespace operation failed: "@ + t,
    }
}

/// What is warned of after a step: a failure that ends nothing.
pub open spec fn warning_text(step: StepModel, o: Outcome) -> Option<Seq<char>> {
    match step {
        StepModel::TryRun { argv, head, tail } => match run_outcome(argv, o) {
            Ok(_) => None,
            Err(f) => Some(head + failure_message(f) + tail),
        },
        StepModel::RemoveTree { path } => if o is Done || o is Missing {
            None
        } else {
            Some("helper: WARNING — could not remove "@ + path + ": "@ + failure_text(o))
        },
        _ => None,
    }
}

/// What is to be warned of after a step.
pub fn warning(step: &Step, o: &Outcome) -> (r: Option<String>)
    ensures
        crate::config::profile::opt_view(r) == warning_text(step@, *o),
{
    match step {
        Step::TryRun { argv, head, tail } => match run_result(argv, o) {
            Ok(_) => None,
            Err(e) => {
                let mut t = head.clone();
                t.push_str(e.to_string().as_str());
                t.push_str(tail.as_str());
                Some(t)
            },
        },
        Step::RemoveTree { path } => match o {
            Outcome::Done => None,
            Outcome::Missing => None,
            _ => Some(
                path_text(
                    "helper: WARNING — could not remove ",
                    path.as_str(),
                    failure_of(o).as_str(),
                ),
            ),
        },
        _ => None,
    }
}

/// What an outcome means for a step.
pub fn conclude(step: &Step, o: &Outcome) -> (r: AppResult<()>)
    ensures
        match verdict(step@, *o) {
            Ok(_) => r is Ok,
            Err(f) => r is Err && reports(r->Err_0, f),
        },
{
    let done = match o {
        Outcome::Done => true,
        _ => false,
    };
    match step {
        Step::Run { argv } => run_result(argv, o),
        Step::Check { argv: _, refusal } => if done {
            Ok(())
        } else {
            Err(AppError::IpcFailed(refusal.clone()))
        },
        Step::TryRun { .. } => Ok(()),
        Step::DeleteTable { argv } => match run_result(argv, o) {
            Ok(_) => Ok(()),
            Err(AppError::IpcFailed(t)) => {
                if has_text(t.as_str(), "No such file or directory") || has_text(
                    t.as_str(),
                    "table not found",
                ) || has_text(t.as_str(), "No such table") {
                    Ok(())
                } else {
                    Err(AppError::IpcFailed(t))
                }
            },
            Err(e) => Err(e),
        },
        Step::MakeDir { path, netns } => if done {
            Ok(())
        } else if *netns {
            Err(
                AppError::NetnsFailed(
                    path_text("cannot create ", path.as_str(), failure_of(o).as_str()),
                ),
            )
        } else {
            Err(
                AppError::IpcFailed(
                    path_text("cannot create dir ", path.as_str(), failure_of(o).as_str()),
                ),
            )
        },
        Step::WriteText { path: _, text: _, complaint, netns } => {
            if done {
                return Ok(());
            }
            let mut t = complaint.clone();
            t.push_str(failure_of(o).as_str());
            if *netns {
                Err(AppError::NetnsFailed(t))
            } else {
                Err(AppError::IpcFailed(t))
            }
        },
        Step::WriteSecret { path, text: _ } => match o {
            Outcome::Done => Ok(()),
            Outcome::Unopened(e) => Err(
                AppError::IpcFailed(path_text("cannot open ", path.as_str(), e.as_str())),
            ),
            _ => Err(
                AppError::IpcFailed(
                    path_text("cannot write ", path.as_str(), failure_of(o).as_str()),
                ),
            ),
        },
        Step::Cleanup { .. } => Ok(()),
        Step::RemoveFile { path } => match o {
            Outcome::Done => Ok(()),
            Outcome::Missing => Ok(()),
            _ => Err(
                AppError::IpcFailed(
                    path_text("cannot remove ", path.as_str(), failure_of(o).as_str()),
                ),
            ),
        },
        Step::RemoveTree { .. } => Ok(()),
    }
}

// ── performing a plan ───────────────────────────────────────────────────────

/// Whether a step is still to be done, given the number of the step that failed, if one did. After
/// a failure only the removal of a file that was written before it is.
pub open spec fn due(step: StepModel, failed_at: Option<nat>) -> bool {
    match failed_at {
        None => true,
        Some(f) => step matches StepModel::Cleanup { path: _, since } && since < f,
    }
}

/// The number of the first step from `at` on that is still to be done.
pub open spec fn next_due(steps: Seq<StepModel>, at: nat, failed_at: Option<nat>) -> Option<nat>
    decreases steps.len() - at,
{
    if at >= steps.len() {
        None
    } else if due(steps[at as int], failed_at) {
        Some(at)
    } else {
        next_due(steps, at + 1, failed_at)
    }
}

/// A plan being performed.
pub struct Operation {
    pub steps: Vec<Step>,
    /// The number of the next step to look at.
    pub at: usize,
    /// The number of the step that failed, and why.
    pub failure: Option<(usize, AppError)>,
}

impl Operation {
    /// The number of the step that failed.
    pub open spec fn failed_at(&self) -> Option<nat> {
        match self.failure {
            Some((i, _)) => Some(i as nat),
            None => None,
        }
    }

    /// The number of the next step to do.
    pub open spec fn upcoming(&self) -> Option<nat> {
        next_due(step_views(self.steps@), self.at as nat, self.failed_at())
    }

    /// Begins a plan.
    pub fn start(steps: Vec<Step>) -> (r: Self)
        ensures
            r.steps == steps,
            r.at == 0,
            r.failure is None,
    {
        Operation { steps, at: 0, failure: None }
    }

    /// The number of the next step to do; `None` at the end.
    pub fn next_step(&self) -> (r: Option<usize>)
        ensures
            match r {
                Some(i) => self.upcoming() == Some(i as nat) && i < self.steps@.len(),
                None => self.upcoming() is None,
            },
    {
        let ghost sv = step_views(self.steps@);
        let mut i: usize = self.at;
        while i < self.steps.len()
            invariant
                sv == step_views(self.steps@),
                next_due(sv, i as nat, self.failed_at()) == self.upcoming(),
            decreases self.steps@.len() - i,
        {
            let step = &self.steps[i];
            assert(sv[i as int] == step@);
            let is_due = match &self.failure {
                None => true,
                Some((f, _)) => match step {
                    Step::Cleanup { path: _, since } => *since < *f,
                    _ => false,
                },
            };
            if is_due {
                return Some(i);
            }
            i += 1;
        }
        None
    }

    /// Takes the outcome of the step number `i`. The first failure stands.
    pub fn report(&mut self, i: usize, o: &Outcome)
        requires
            i < old(self).steps@.len(),
        ensures
            final(self).steps == old(self).steps,
            final(self).at == i + 1,
            match (old(self).failure, verdict(old(self).steps@[i as int]@, *o)) {
                (None, Err(f)) => final(self).failure is Some && final(self).failed_at() == Some(
                    i as nat,
                ) && reports((final(self).failure->0).1, f),
                (before, _) => final(self).failure == before,
            },
    {
        let n: usize = self.steps.len();
        assert(i < n);
        if self.failure.is_none() {
            if let Err(e) = conclude(&self.steps[i], o) {
                self.failure = Some((i, e));
            }
        }
        self.at = i + 1;
    }

    /// The result of the whole: the first failure, if there was one.
    pub fn finish(self) -> (r: AppResult<()>)
        ensures
            match self.failure {
                Some((_, e)) => r == Err::<(), AppError>(e),
                None => r is Ok,
            },
    {
        match self.failure {
            Some((_, e)) => Err(e),
            None => Ok(()),
        }
    }
}

/// Once a rule set was written, its file is removed whatever comes of loading it: with the three
/// steps in place from number `first` on, a failure behind the writing leaves the removal due.
pub proof fn law_rules_file_is_removed(
    steps: Seq<StepModel>,
    path: Seq<char>,
    text: Seq<char>,
    what: Seq<char>,
    first: nat,
    failed_at: Option<nat>,
)
    requires
        first + 3 <= steps.len(),
        steps.subrange(first as int, first as int + 3) == apply_rules(path, text, what, first),
        failed_at matches Some(f) ==> f > first,
    ensures
        due(steps[first as int + 2], failed_at),
        steps[first as int + 2] == (StepModel::Cleanup { path, since: first }),
{
    assert(steps[first as int + 2] == steps.subrange(first as int, first as int + 3)[2]);
}

/// A step whose failure is warned of never ends the operation.
pub proof fn law_warnings_end_nothing(step: StepModel, o: Outcome)
    requires
        warning_text(step, o) is Some,
    ensures
        verdict(step, o) is Ok,
        !(o is Done),
{
}

/// Enabling the address translation again changes nothing: what is loaded deletes the whole table
/// before it builds it, nothing in front of that builds a chain or a rule, and the table holds one
/// rule, for the subnet and the interface that were asked for.
pub proof fn law_nat_is_rebuilt_whole(cmd: PrivCmd, pid: u32, passwd: Result<Seq<char>, Seq<char>>)
    requires
        cmd is NatEnable,
    ensures
        ({
            let subnet = cmd->NatEnable_subnet@;
            let egress = cmd->NatEnable_egress_iface@;
            let rows = nat_reload_rows(subnet, egress);
            let path = rules_path("nat"@, pid);
            &&& plan(cmd, pid, passwd) is Ok
            &&& plan(cmd, pid, passwd)->Ok_0.skip(2) == apply_rules(
                path,
                crate::text::flat(rows),
                "nft nat ruleset"@,
                2,
            )
            &&& rows.len() == 11
            &&& rows[0] == "add table inet wg_gui_srv_nat"@
            &&& rows[1] == "delete table inet wg_gui_srv_nat"@
            &&& rows.skip(2) == crate::helper::nat_rows(subnet, egress)
            &&& rows[8] == "ip saddr "@ + subnet + " oifname \""@ + egress + "\" masquerade;"@
        }),
{
    let rows = nat_reload_rows(cmd->NatEnable_subnet@, cmd->NatEnable_egress_iface@);
    assert(plan(cmd, pid, passwd)->Ok_0.skip(2) =~= apply_rules(
        rules_path("nat"@, pid),
        crate::text::flat(rows),
        "nft nat ruleset"@,
        2,
    ));
    assert(rows.skip(2) =~= crate::helper::nat_rows(
        cmd->NatEnable_subnet@,
        cmd->NatEnable_egress_iface@,
    ));
}

/// Arming the kill switch first asks for the interface; where it is not there, nothing else is
/// done, so that nobody is locked out.
pub proof fn law_arming_needs_the_interface(
    cmd: PrivCmd,
    pid: u32,
    passwd: Result<Seq<char>, Seq<char>>,
)
    requires
        cmd is KillSwitchArm,
    ensures
        plan(cmd, pid, passwd) matches Ok(steps) && steps[0] == (StepModel::Check {
            argv: crate::helper::link_show_row(cmd->KillSwitchArm_iface@),
            refusal: arm_refusal(cmd->KillSwitchArm_iface@),
        }) && next_due(steps, 1, Some(0)) is None,
{
    let steps = plan(cmd, pid, passwd)->Ok_0;
    assert(steps.len() == 5);
    assert(!(steps[4] is Cleanup));
    assert(!due(steps[1], Some(0)) && !due(steps[2], Some(0)) && !due(steps[3], Some(0)));
    reveal_with_fuel(next_due, 6);
}

/// No program is started inside a namespace as the superuser: such a command has no steps, and the
/// user of any other is the one that the password file gives for the number.
pub proof fn law_programs_never_start_as_root(
    cmd: PrivCmd,
    pid: u32,
    passwd: Result<Seq<char>, Seq<char>>,
)
    requires
        cmd is NetnsLaunch,
    ensures
        cmd->uid == 0 ==> plan(cmd, pid, passwd) is Err,
        plan(cmd, pid, passwd) is Ok ==> passwd is Ok && crate::helper::passwd_user(
            crate::text::lines_of(passwd->Ok_0),
            cmd->uid,
        ) is Some,
{
}

} // verus!
