//! What the helper's rule sets, commands and plans are for.

use crate::error::{AppError, AppResult};
use crate::helper::steps::{FailureModel, Outcome, StepModel};
use crate::net::privilege::PrivCmd;
use vstd::prelude::*;

verus! {

// ── the kill switch ─────────────────────────────────────────────────────────

/// Whether a line declares what kind of chain it stands in.
pub open spec fn declares_chain(row: Seq<char>) -> bool {
    "        type "@.is_prefix_of(row) || "type "@.is_prefix_of(row)
}

/// The kill switch filters what goes out: its rule set is one table with one chain, which is a
/// filter on the output hook and drops what no rule lets through.
pub proof fn law_kill_switch_filters_what_goes_out(
    iface: Seq<char>,
    endpoint_ip: Seq<char>,
    endpoint_port: nat,
    lan_cidrs: Seq<Seq<char>>,
    netns: Option<(Seq<char>, nat)>,
)
    ensures
        ({
            let rows = crate::helper::killswitch_rows(
                crate::helper::accept_rules(iface, endpoint_ip, endpoint_port, lan_cidrs, netns),
            );
            let end = rows.len() as int;
            &&& end >= 10
            &&& rows[0] == "table inet wg_gui_killswitch {"@
            &&& rows[1] == "    chain output {"@
            &&& rows[2] == "        type filter hook output priority 0;"@
            &&& rows[end - 3] == "        policy drop;"@
            &&& rows[end - 2] == "    }"@
            &&& rows[end - 1] == "}"@
            &&& forall|i: int|
                0 <= i < end ==> (declares_chain(#[trigger] rows[i]) <==> i == 2)
        }),
{
    let rules = crate::helper::accept_rules(iface, endpoint_ip, endpoint_port, lan_cidrs, netns);
    let rows = crate::helper::killswitch_rows(rules);
    reveal_strlit("        type ");
    reveal_strlit("type ");
    reveal_strlit("table inet wg_gui_killswitch {");
    reveal_strlit("    chain output {");
    reveal_strlit("        type filter hook output priority 0;");
    reveal_strlit("        policy drop;");
    reveal_strlit("    }");
    reveal_strlit("}");
    reveal_strlit("        oifname lo accept");
    reveal_strlit("        oifname ");
    reveal_strlit("        ip daddr ");
    reveal_strlit("        ct state established,related accept");
    assert("        type "@ =~= "        type filter hook output priority 0;"@.take(13));
    assert forall|i: int| 0 <= i < rules.len() implies !declares_chain(#[trigger] rules[i]) by {
        let row = rules[i];
        assert(row.len() > 8 && row[8] != 't' && row[0] == ' ');
        if "        type "@.is_prefix_of(row) {
            assert("        type "@[8] == row[8]);
        }
        if "type "@.is_prefix_of(row) {
            assert("type "@[0] == row[0]);
        }
    }
    assert forall|i: int| 0 <= i < rows.len() implies (declares_chain(#[trigger] rows[i]) <==> i
        == 2) by {
        if 3 <= i < 3 + rules.len() {
            assert(rows[i] == rules[i - 3]);
        } else if i != 2 {
            let row = rows[i];
            if "        type "@.is_prefix_of(row) {
                assert("        type "@[8] == row[8]);
                assert("        type "@[0] == row[0]);
            }
            if "type "@.is_prefix_of(row) {
                assert("type "@[0] == row[0]);
                assert("type "@[1] == row[1]);
            }
        }
    }
}

/// Whether the kill switch is to let a line's traffic through.
pub open spec fn may_pass(
    row: Seq<char>,
    iface: Seq<char>,
    endpoint_ip: Seq<char>,
    endpoint_port: nat,
    lan_cidrs: Seq<Seq<char>>,
    netns: Option<(Seq<char>, nat)>,
) -> bool {
    // The host itself, and the tunnel.
    ||| row == "        oifname lo accept"@
    ||| row == "        oifname "@ + iface + " accept"@
    // The tunnel's endpoint, and no other port of it.
    ||| row == "        ip daddr "@ + endpoint_ip + " udp dport "@ + crate::text::decimal(
        endpoint_port,
    ) + " accept"@
    // The local networks.
    ||| exists|k: int|
        0 <= k < lan_cidrs.len() && row == "        ip daddr "@ + #[trigger] lan_cidrs[k]
            + " accept"@
    // What is under way already.
    ||| row == "        ct state established,related accept"@
    // The endpoint of a namespace.
    ||| netns matches Some((ip, port)) && row == "        ip daddr "@ + ip + " udp dport "@
        + crate::text::decimal(port) + " accept"@
}

/// What the kill switch lets through is the host itself, the tunnel, the tunnel's endpoint, each of
/// the local networks, what is under way, and the endpoint of a namespace where there is one: all of
/// that, in front of the policy that drops the rest, and nothing else.
pub proof fn law_kill_switch_lets_just_this_through(
    iface: Seq<char>,
    endpoint_ip: Seq<char>,
    endpoint_port: nat,
    lan_cidrs: Seq<Seq<char>>,
    netns: Option<(Seq<char>, nat)>,
    row: Seq<char>,
)
    ensures
        ({
            let rows = crate::helper::killswitch_rows(
                crate::helper::accept_rules(iface, endpoint_ip, endpoint_port, lan_cidrs, netns),
            );
            let passing = rows.subrange(3, rows.len() - 3);
            passing.contains(row) <==> may_pass(
                row,
                iface,
                endpoint_ip,
                endpoint_port,
                lan_cidrs,
                netns,
            )
        }),
{
    let rules = crate::helper::accept_rules(iface, endpoint_ip, endpoint_port, lan_cidrs, netns);
    let rows = crate::helper::killswitch_rows(rules);
    let passing = rows.subrange(3, rows.len() - 3);
    assert(passing =~= rules);
    let n = lan_cidrs.len() as int;
    assert(rules[0] == "        oifname lo accept"@);
    assert(rules[1] == "        oifname "@ + iface + " accept"@);
    assert(rules[2] == "        ip daddr "@ + endpoint_ip + " udp dport "@ + crate::text::decimal(
        endpoint_port,
    ) + " accept"@);
    assert(rules[3 + n] == "        ct state established,related accept"@);
    assert forall|k: int| 0 <= k < n implies rules[3 + k] == "        ip daddr "@
        + #[trigger] lan_cidrs[k] + " accept"@ by {}
    if netns is Some {
        assert(rules[4 + n] == "        ip daddr "@ + (netns->0).0 + " udp dport "@
            + crate::text::decimal((netns->0).1) + " accept"@);
    }
    if passing.contains(row) {
        let i = choose|i: int| 0 <= i < rules.len() && rules[i] == row;
        if 3 <= i < 3 + n {
            assert(row == "        ip daddr "@ + lan_cidrs[i - 3] + " accept"@);
        }
    }
    if exists|k: int|
        0 <= k < n && row == "        ip daddr "@ + #[trigger] lan_cidrs[k] + " accept"@ {
        let k = choose|k: int|
            0 <= k < n && row == "        ip daddr "@ + #[trigger] lan_cidrs[k] + " accept"@;
        assert(rules[3 + k] == row);
    }
}

/// Arming checks that the interface is there, loads the rule set of just what was asked for, takes
/// the file away again, and has the table that the rule set builds deleted after the given time.
pub proof fn law_arming_loads_what_was_asked_for(
    cmd: PrivCmd,
    pid: u32,
    passwd: Result<Seq<char>, Seq<char>>,
)
    requires
        cmd is KillSwitchArm,
    ensures
        ({
            let steps = crate::helper::steps::plan(cmd, pid, passwd)->Ok_0;
            let file = steps[1]->WriteText_path;
            let iface = cmd->KillSwitchArm_iface@;
            &&& crate::helper::steps::plan(cmd, pid, passwd) is Ok
            &&& steps.len() == 5
            &&& steps[0] is Check
            &&& steps[0]->Check_argv == seq!["ip"@, "link"@, "show"@, iface]
            &&& steps[0]->Check_refusal == "kill-switch arm refused: interface '"@ + iface
                + "' does not exist. Bring the tunnel up before arming the kill-switch."@
            &&& file == "/run/wg-gui-"@ + "ks"@ + "-"@ + crate::text::decimal(pid as nat) + ".nft"@
            &&& steps[4]->TryRun_head
                == "helper: WARNING — dead-man timer could not be armed ("@
            &&& steps[4]->TryRun_tail
                == "). Kill-switch is active but will NOT auto-expire if the GUI is killed."@
            &&& steps[1] is WriteText
            &&& steps[1]->WriteText_text == crate::text::flat(
                crate::helper::killswitch_rows(
                    crate::helper::accept_rules(
                        iface,
                        cmd->KillSwitchArm_endpoint_ip@,
                        cmd->KillSwitchArm_endpoint_port as nat,
                        crate::text::views(cmd->KillSwitchArm_lan_cidrs@),
                        match cmd->KillSwitchArm_netns_endpoint_udp {
                            Some(e) => Some((e.0@, e.1 as nat)),
                            None => None,
                        },
                    ),
                ),
            )
            &&& steps[2] == (StepModel::Run { argv: seq!["nft"@, "-f"@, file] })
            &&& steps[3] == (StepModel::Cleanup { path: file, since: 1 })
            &&& steps[4] is TryRun
            &&& steps[4]->TryRun_argv == seq![
                "systemd-run"@,
                "--on-active"@,
                crate::text::decimal(cmd->lease_secs as nat) + "s"@,
                "--timer-property=AccuracySec=1s"@,
                "nft"@,
                "delete"@,
                "table"@,
                "inet"@,
                "wg_gui_killswitch"@,
            ]
        }),
{
    let steps = crate::helper::steps::plan(cmd, pid, passwd)->Ok_0;
    assert(steps.len() == 5);
    assert(steps[4]->TryRun_argv =~= seq![
        "systemd-run"@,
        "--on-active"@,
        crate::text::decimal(cmd->lease_secs as nat) + "s"@,
        "--timer-property=AccuracySec=1s"@,
        "nft"@,
        "delete"@,
        "table"@,
        "inet"@,
        "wg_gui_killswitch"@,
    ]);
}

/// Lifting the kill switch deletes the table that arming it builds, and so does the timer that
/// arming it sets.
pub proof fn law_lifting_deletes_what_arming_built(
    arm: PrivCmd,
    pid: u32,
    other_pid: u32,
    passwd: Result<Seq<char>, Seq<char>>,
    rules: Seq<Seq<char>>,
)
    requires
        arm is KillSwitchArm,
    ensures
        ({
            let armed = crate::helper::steps::plan(arm, pid, passwd)->Ok_0;
            let lifted = crate::helper::steps::plan(PrivCmd::KillSwitchDisarm, other_pid, passwd);
            let delete = lifted->Ok_0[0]->DeleteTable_argv;
            &&& lifted is Ok
            &&& lifted->Ok_0.len() == 1
            &&& lifted->Ok_0[0] is DeleteTable
            &&& delete.len() == 5
            &&& delete.take(4) == seq!["nft"@, "delete"@, "table"@, "inet"@]
            &&& crate::helper::killswitch_rows(rules)[0] == "table inet "@ + delete[4] + " {"@
            &&& armed[4]->TryRun_argv.skip(4) == delete
        }),
{
    let armed = crate::helper::steps::plan(arm, pid, passwd)->Ok_0;
    let delete = seq!["nft"@, "delete"@, "table"@, "inet"@, "wg_gui_killswitch"@];
    assert(armed.len() == 5);
    assert(armed[4]->TryRun_argv.skip(4) =~= delete);
    assert(delete.take(4) =~= seq!["nft"@, "delete"@, "table"@, "inet"@]);
    reveal_strlit("table inet wg_gui_killswitch {");
    reveal_strlit("table inet ");
    reveal_strlit("wg_gui_killswitch");
    reveal_strlit(" {");
    assert("table inet wg_gui_killswitch {"@ =~= "table inet "@ + "wg_gui_killswitch"@ + " {"@);
}

// ── address translation ─────────────────────────────────────────────────────

/// Addresses are translated where packets leave: the rule set is one table with one chain, which is
/// a translation on the postrouting hook, and the chain's one rule masks what comes from the subnet
/// and leaves by the given interface.
pub proof fn law_translation_happens_on_the_way_out(subnet: Seq<char>, egress_iface: Seq<char>)
    ensures
        ({
            let rows = crate::helper::nat_rows(subnet, egress_iface);
            &&& rows.len() == 9
            &&& forall|i: int| 0 <= i < 9 ==> (declares_chain(#[trigger] rows[i]) <==> i == 5)
            &&& rows[3] == "table inet wg_gui_srv_nat {"@
            &&& rows[4] == "chain postrouting {"@
            &&& rows[5] == "type nat hook postrouting priority 100;"@
            &&& rows[6] == "ip saddr "@ + subnet + " oifname \""@ + egress_iface
                + "\" masquerade;"@
            &&& rows[7] == "}"@ && rows[8] == "}"@
            &&& rows[0].len() > 0 && rows[0][0] == '#'
            &&& rows[1].len() > 0 && rows[1][0] == '#'
            &&& rows[2].len() == 0
        }),
{
    let rows = crate::helper::nat_rows(subnet, egress_iface);
    reveal_strlit("        type ");
    reveal_strlit("type ");
    reveal_strlit("# wg_gui_srv_nat — generated by wireguard-gui-rust");
    reveal_strlit("# DO NOT EDIT MANUALLY — managed by wireguard-gui-helper");
    reveal_strlit("");
    reveal_strlit("table inet wg_gui_srv_nat {");
    reveal_strlit("chain postrouting {");
    reveal_strlit("type nat hook postrouting priority 100;");
    reveal_strlit("ip saddr ");
    reveal_strlit("}");
    assert("type "@ =~= "type nat hook postrouting priority 100;"@.take(5));
    assert forall|i: int| 0 <= i < 9 implies (declares_chain(#[trigger] rows[i]) <==> i == 5) by {
        let row = rows[i];
        if i != 5 {
            if "        type "@.is_prefix_of(row) {
                assert("        type "@[0] == row[0]);
            }
            if "type "@.is_prefix_of(row) {
                assert("type "@[0] == row[0]);
                assert("type "@[1] == row[1]);
            }
        }
    }
}

/// Turning translation on lets packets of both kinds of addresses be forwarded, of which only the
/// first is indispensable; turning it off deletes the table that turning it on builds.
pub proof fn law_translation_is_turned_on_and_off(
    on: PrivCmd,
    pid: u32,
    passwd: Result<Seq<char>, Seq<char>>,
)
    requires
        on is NatEnable,
    ensures
        ({
            let steps = crate::helper::steps::plan(on, pid, passwd)->Ok_0;
            let off = crate::helper::steps::plan(PrivCmd::NatDisable, pid, passwd);
            let rows = crate::helper::nat_rows(
                on->NatEnable_subnet@,
                on->NatEnable_egress_iface@,
            );
            let delete = off->Ok_0[0]->DeleteTable_argv;
            let file = steps[2]->WriteText_path;
            &&& crate::helper::steps::plan(on, pid, passwd) is Ok
            &&& steps[0] == (StepModel::Run {
                argv: seq!["sysctl"@, "-w"@, "net.ipv4.ip_forward=1"@],
            })
            &&& steps[1] is TryRun
            &&& steps[1]->TryRun_argv == seq!["sysctl"@, "-w"@, "net.ipv6.conf.all.forwarding=1"@]
            &&& steps[1]->TryRun_head == "helper: WARNING — IPv6 forwarding sysctl failed ("@
            &&& steps[1]->TryRun_tail == "); continuing (IPv4-only NAT will work)"@
            &&& steps.len() == 5
            &&& steps[2] is WriteText
            // The table of an earlier time goes before the new one is built.
            &&& steps[2]->WriteText_text == crate::text::flat(
                seq!["add table inet wg_gui_srv_nat"@, "delete table inet wg_gui_srv_nat"@] + rows,
            )
            &&& file == "/run/wg-gui-"@ + "nat"@ + "-"@ + crate::text::decimal(pid as nat)
                + ".nft"@
            &&& steps[3] == (StepModel::Run { argv: seq!["nft"@, "-f"@, file] })
            &&& steps[4] == (StepModel::Cleanup { path: file, since: 2 })
            &&& off is Ok
            &&& off->Ok_0.len() == 1
            &&& off->Ok_0[0] is DeleteTable
            &&& delete.len() == 5
            &&& delete.take(4) == seq!["nft"@, "delete"@, "table"@, "inet"@]
            &&& rows[3] == "table inet "@ + delete[4] + " {"@
        }),
{
    let delete = seq!["nft"@, "delete"@, "table"@, "inet"@, "wg_gui_srv_nat"@];
    assert(delete.take(4) =~= seq!["nft"@, "delete"@, "table"@, "inet"@]);
    reveal_strlit("table inet wg_gui_srv_nat {");
    reveal_strlit("table inet ");
    reveal_strlit("wg_gui_srv_nat");
    reveal_strlit(" {");
    assert("table inet wg_gui_srv_nat {"@ =~= "table inet "@ + "wg_gui_srv_nat"@ + " {"@);
}

// ── tunnels ─────────────────────────────────────────────────────────────────

/// The tunnel brought up is the one whose configuration was named, and the one taken down is the
/// one whose interface was named.
pub proof fn law_tunnels_go_up_and_down(
    iface: String,
    conf_path: String,
    pid: u32,
    passwd: Result<Seq<char>, Seq<char>>,
)
    ensures
        crate::helper::steps::plan(PrivCmd::WgQuickUp { iface, conf_path }, pid, passwd) == Ok::<
            Seq<StepModel>,
            Seq<char>,
        >(seq![StepModel::Run { argv: seq!["wg-quick"@, "up"@, conf_path@] }]),
        crate::helper::steps::plan(PrivCmd::WgQuickDown { iface }, pid, passwd) == Ok::<
            Seq<StepModel>,
            Seq<char>,
        >(seq![StepModel::Run { argv: seq!["wg-quick"@, "down"@, iface@] }]),
{
}

/// A configuration is written, with all of its text, as a file that only its owner can read, in the
/// directory that `wg-quick` may read. What is removed for the client is the file that was written
/// for it, and the server is brought up and taken down by the file that was written for it.
pub proof fn law_configurations_are_kept_secret(
    text: String,
    pid: u32,
    passwd: Result<Seq<char>, Seq<char>>,
)
    ensures
        ({
            let plan = |cmd: PrivCmd| crate::helper::steps::plan(cmd, pid, passwd);
            let client = "/etc/wireguard/wg-gui0.conf"@;
            let server = "/etc/wireguard/wg-gui-srv0.conf"@;
            let dir = StepModel::MakeDir { path: "/etc/wireguard"@, netns: false };
            &&& plan(PrivCmd::ClientWriteConf { conf_text: text }) == Ok::<_, Seq<char>>(
                seq![dir, StepModel::WriteSecret { path: client, text: text@ }],
            )
            &&& plan(PrivCmd::ClientRemoveConf) == Ok::<_, Seq<char>>(
                seq![StepModel::RemoveFile { path: client }],
            )
            &&& plan(PrivCmd::ServerWriteConf { conf_text: text }) == Ok::<_, Seq<char>>(
                seq![dir, StepModel::WriteSecret { path: server, text: text@ }],
            )
            &&& plan(PrivCmd::ServerUp) == Ok::<_, Seq<char>>(
                seq![StepModel::Run { argv: seq!["wg-quick"@, "up"@, server] }],
            )
            &&& plan(PrivCmd::ServerDown) == Ok::<_, Seq<char>>(
                seq![StepModel::Run { argv: seq!["wg-quick"@, "down"@, server] }],
            )
        }),
{
}

/// Connecting on boot is turned on and off for the same unit, that of the named interface.
pub proof fn law_boot_is_switched_for_one_unit(
    iface: String,
    pid: u32,
    passwd: Result<Seq<char>, Seq<char>>,
)
    ensures
        ({
            let on = crate::helper::steps::plan(PrivCmd::BootEnableSystemd { iface }, pid, passwd);
            let off = crate::helper::steps::plan(PrivCmd::BootDisableSystemd { iface }, pid, passwd);
            let a = on->Ok_0[0]->Run_argv;
            let b = off->Ok_0[0]->Run_argv;
            &&& on is Ok && on->Ok_0.len() == 1 && on->Ok_0[0] is Run
            &&& off is Ok && off->Ok_0.len() == 1 && off->Ok_0[0] is Run
            &&& a == seq!["systemctl"@, "enable"@, "wg-quick@"@ + iface@]
            &&& b == a.update(1, "disable"@)
        }),
{
    let a = seq!["systemctl"@, "enable"@, "wg-quick@"@ + iface@];
    assert(a.update(1, "disable"@) =~= seq!["systemctl"@, "disable"@, "wg-quick@"@ + iface@]);
}

// ── namespaces ──────────────────────────────────────────────────────────────

/// Whether a command is done inside the namespace `ns`.
pub open spec fn inside(argv: Seq<Seq<char>>, ns: Seq<char>) -> bool {
    ||| argv.len() > 3 && argv[0] == "ip"@ && argv[1] == "-n"@ && argv[2] == ns
    ||| argv.len() > 4 && argv[0] == "ip"@ && argv[1] == "netns"@ && argv[2] == "exec"@ && argv[3]
        == ns
}

/// A namespace is made first, then its own interface, which is moved into it. Everything behind
/// that is done inside the namespace: the interface gets the given configuration and address, both
/// links go up, and the default route leads through the interface. So no route of the host changes.
pub proof fn law_namespaces_leave_the_host_alone(
    ns: Seq<char>,
    wgif: Seq<char>,
    conf_path: Seq<char>,
    address: Seq<char>,
)
    ensures
        ({
            let rows = crate::helper::netns_setup_rows(ns, wgif, conf_path, address);
            &&& rows.len() == 8
            &&& rows[0] == seq!["ip"@, "netns"@, "add"@, ns]
            &&& rows[1] == seq!["ip"@, "link"@, "add"@, wgif, "type"@, "wireguard"@]
            &&& rows[2] == seq!["ip"@, "link"@, "set"@, wgif, "netns"@, ns]
            &&& forall|i: int| 3 <= i < 8 ==> inside(#[trigger] rows[i], ns)
            &&& rows[3].skip(4) == seq!["wg"@, "setconf"@, wgif, conf_path]
            &&& rows[4].skip(3) == seq!["addr"@, "add"@, address, "dev"@, wgif]
            &&& rows[5].skip(3) == seq!["link"@, "set"@, wgif, "up"@]
            &&& rows[6].skip(3) == seq!["link"@, "set"@, "lo"@, "up"@]
            &&& rows[7].skip(3) == seq!["route"@, "add"@, "default"@, "dev"@, wgif]
        }),
{
    let rows = crate::helper::netns_setup_rows(ns, wgif, conf_path, address);
    assert(rows[3].skip(4) =~= seq!["wg"@, "setconf"@, wgif, conf_path]);
    assert(rows[4].skip(3) =~= seq!["addr"@, "add"@, address, "dev"@, wgif]);
    assert(rows[5].skip(3) =~= seq!["link"@, "set"@, wgif, "up"@]);
    assert(rows[6].skip(3) =~= seq!["link"@, "set"@, "lo"@, "up"@]);
    assert(rows[7].skip(3) =~= seq!["route"@, "add"@, "default"@, "dev"@, wgif]);
}

/// Building a namespace runs all of its commands in order and then, where name servers are given,
/// writes them where programs inside the namespace look for them; taking the namespace down deletes
/// it by its name and removes all that was written for it.
pub proof fn law_namespaces_come_and_go(
    ns: String,
    wgif: String,
    conf_path: String,
    address: String,
    dns: Vec<String>,
    pid: u32,
    passwd: Result<Seq<char>, Seq<char>>,
)
    ensures
        ({
            let up = crate::helper::steps::plan(
                PrivCmd::NetnsSetup { ns, wgif, conf_path, address, dns },
                pid,
                passwd,
            );
            let down = crate::helper::steps::plan(PrivCmd::NetnsTeardown { ns }, pid, passwd);
            let rows = crate::helper::netns_setup_rows(ns@, wgif@, conf_path@, address@);
            let dir = "/etc/netns/"@ + ns@;
            &&& up is Ok
            &&& up->Ok_0.len() == if dns@.len() == 0 {
                8int
            } else {
                10int
            }
            &&& forall|i: int|
                0 <= i < 8 ==> #[trigger] up->Ok_0[i] == (StepModel::Run { argv: rows[i] })
            &&& dns@.len() > 0 ==> up->Ok_0[8] == (StepModel::MakeDir { path: dir, netns: true })
                && up->Ok_0[9] is WriteText && up->Ok_0[9]->WriteText_path == dir
                + "/resolv.conf"@ && up->Ok_0[9]->WriteText_text == crate::text::flat(
                crate::net::netns::resolv_rows(crate::text::views(dns@)),
            )
            &&& down == Ok::<_, Seq<char>>(
                seq![
                    StepModel::Run { argv: seq!["ip"@, "netns"@, "del"@, ns@] },
                    StepModel::RemoveTree { path: dir },
                ],
            )
        }),
{
}

/// Each name server that is not blank has its line, without the white space around it, in their
/// order: a further one adds its line behind the others, and a blank one adds nothing.
pub proof fn law_name_servers_have_a_line_each(dns: Seq<Seq<char>>, next: Seq<char>)
    ensures
        ({
            let before = crate::net::netns::resolv_rows(dns);
            let after = crate::net::netns::resolv_rows(dns.push(next));
            let addr = crate::text::trimmed(next);
            &&& addr.len() == 0 ==> after == before
            &&& addr.len() > 0 ==> after == before.push("nameserver "@ + addr)
            &&& crate::net::netns::resolv_rows(Seq::empty()).len() == 0
        }),
{
    assert(dns.push(next).drop_last() =~= dns);
}

/// A program that is started inside a namespace runs there, as the user that the password file
/// names for the number, with the entries of its environment, and with its arguments in order.
pub proof fn law_programs_run_as_their_user(
    cmd: PrivCmd,
    pid: u32,
    passwd: Seq<char>,
    user: Seq<char>,
)
    requires
        cmd is NetnsLaunch,
        cmd->uid != 0,
        crate::helper::passwd_user(crate::text::lines_of(passwd), cmd->uid) == Some(user),
    ensures
        ({
            let steps = crate::helper::steps::plan(cmd, pid, Ok(passwd));
            let argv = steps->Ok_0[0]->Run_argv;
            let env = cmd->NetnsLaunch_env@;
            let args = cmd->NetnsLaunch_args@;
            let at = 9 + env.len() as int;
            &&& steps is Ok
            &&& steps->Ok_0.len() == 1
            &&& steps->Ok_0[0] is Run
            &&& argv.len() == at + 1 + args.len()
            &&& inside(argv, cmd->NetnsLaunch_ns@)
            &&& argv.subrange(4, 9) == seq!["runuser"@, "-u"@, user, "--"@, "env"@]
            &&& forall|i: int|
                0 <= i < env.len() ==> argv[9 + i] == (#[trigger] env[i]).0@ + "="@ + env[i].1@
            &&& argv[at] == cmd->NetnsLaunch_exe@
            &&& forall|i: int| 0 <= i < args.len() ==> argv[at + 1 + i] == (#[trigger] args[i])@
        }),
{
    let argv = crate::helper::steps::plan(cmd, pid, Ok(passwd))->Ok_0[0]->Run_argv;
    assert(argv.subrange(4, 9) =~= seq!["runuser"@, "-u"@, user, "--"@, "env"@]);
}

/// The user of a number is the one named at the front of the first line of the password file whose
/// third part is that number; lines with fewer than four parts do not count.
pub proof fn law_users_are_found_by_number(rows: Seq<Seq<char>>, uid: u32)
    ensures
        ({
            let matches_uid = |row: Seq<char>|
                {
                    let parts = crate::text::split_at_each(row, ':');
                    parts.len() >= 4 && crate::text::unsigned_value(parts[2], 0xffff_ffff) == Some(
                        uid as nat,
                    )
                };
            match crate::helper::passwd_user(rows, uid) {
                Some(name) => exists|i: int|
                    0 <= i < rows.len() && matches_uid(#[trigger] rows[i])
                        && crate::text::split_at_each(rows[i], ':')[0] == name && forall|j: int|
                        0 <= j < i ==> !matches_uid(#[trigger] rows[j]),
                None => forall|i: int| 0 <= i < rows.len() ==> !matches_uid(#[trigger] rows[i]),
            }
        }),
    decreases rows.len(),
{
    let matches_uid = |row: Seq<char>|
        {
            let parts = crate::text::split_at_each(row, ':');
            parts.len() >= 4 && crate::text::unsigned_value(parts[2], 0xffff_ffff) == Some(
                uid as nat,
            )
        };
    if rows.len() > 0 {
        let rest = rows.skip(1);
        law_users_are_found_by_number(rest, uid);
        assert(matches_uid(rows[0]) <==> crate::helper::passwd_line(rows[0], uid) is Some);
        match crate::helper::passwd_user(rows, uid) {
            Some(name) => {
                if !matches_uid(rows[0]) {
                    let i = choose|i: int|
                        0 <= i < rest.len() && matches_uid(#[trigger] rest[i])
                            && crate::text::split_at_each(rest[i], ':')[0] == name && forall|j: int|
                            0 <= j < i ==> !matches_uid(#[trigger] rest[j]);
                    assert(rows[i + 1] == rest[i]);
                    assert forall|j: int| 0 <= j < i + 1 implies !matches_uid(
                        #[trigger] rows[j],
                    ) by {
                        if j > 0 {
                            assert(rows[j] == rest[j - 1]);
                        }
                    }
                } else {
                    assert(matches_uid(rows[0]) && crate::text::split_at_each(rows[0], ':')[0]
                        == name);
                }
            },
            None => {
                assert forall|i: int| 0 <= i < rows.len() implies !matches_uid(
                    #[trigger] rows[i],
                ) by {
                    if i > 0 {
                        assert(rows[i] == rest[i - 1]);
                    }
                }
            },
        }
    }
}

// ── outcomes ────────────────────────────────────────────────────────────────

/// A step that matters has succeeded exactly when it was done. A file that is not there is as good
/// as removed, and what is only tried never fails.
pub proof fn law_steps_succeed_when_done(step: StepModel, o: Outcome)
    ensures
        ({
            let ok = crate::helper::steps::verdict(step, o) is Ok;
            match step {
                StepModel::TryRun { .. } => ok,
                StepModel::Cleanup { .. } => ok,
                StepModel::RemoveTree { .. } => ok,
                StepModel::RemoveFile { .. } => ok <==> o is Done || o is Missing,
                StepModel::DeleteTable { .. } => o is Done ==> ok,
                _ => ok <==> o is Done,
            }
        }),
{
}

/// A table could not be deleted unless the program ran, and then only a complaint that there is no
/// such table is passed over.
pub proof fn law_a_table_is_deleted_or_absent(argv: Seq<Seq<char>>, o: Outcome)
    ensures
        ({
            let v = crate::helper::steps::verdict(StepModel::DeleteTable { argv }, o);
            &&& o is Missing ==> v == Err::<(), FailureModel>(FailureModel::NotFound)
            &&& v is Ok && !(o is Done) ==> {
                let said = crate::helper::steps::verdict(StepModel::Run { argv }, o);
                said matches Err(FailureModel::Ipc(t)) && (crate::text::occurs(
                    t,
                    "No such file or directory"@,
                ) || crate::text::occurs(t, "table not found"@) || crate::text::occurs(
                    t,
                    "No such table"@,
                ))
            }
        }),
{
}

/// A program that is missing is reported as such, and one that failed by its name, its status and
/// what it complained of.
pub proof fn law_failures_say_what_failed(
    argv: Seq<Seq<char>>,
    status: String,
    stderr: String,
    e: String,
)
    requires
        argv.len() > 0,
    ensures
        ({
            let verdict = |o: Outcome|
                crate::helper::steps::verdict(StepModel::Run { argv }, o);
            &&& verdict(Outcome::Missing) == Err::<(), _>(FailureModel::NotFound)
            &&& verdict(Outcome::Exited { status, stderr }) == Err::<(), _>(
                FailureModel::Ipc(
                    "'"@ + argv[0] + "' exited with status "@ + status@ + ": "@
                        + crate::text::trimmed(stderr@),
                ),
            )
            &&& verdict(Outcome::Broken(e)) == Err::<(), _>(
                FailureModel::Ipc("spawn '"@ + argv[0] + "': "@ + e@),
            )
        }),
{
}

/// While nothing has failed, the steps are done one after the other; once one has, only the removal
/// of files that were written before it is still done.
pub proof fn law_a_failure_ends_the_plan(steps: Seq<StepModel>, at: nat, failed_at: Option<nat>)
    requires
        at <= steps.len(),
    ensures
        match crate::helper::steps::next_due(steps, at, failed_at) {
            Some(i) => at <= i < steps.len() && match failed_at {
                None => i == at,
                Some(f) => steps[i as int] matches StepModel::Cleanup { path: _, since } && since
                    < f,
            },
            None => match failed_at {
                None => at == steps.len(),
                Some(f) => forall|i: int|
                    at <= i < steps.len() ==> !(#[trigger] steps[i] matches StepModel::Cleanup {
                        path: _,
                        since,
                    } && since < f),
            },
        },
    decreases steps.len() - at,
{
    if at < steps.len() && !crate::helper::steps::due(steps[at as int], failed_at) {
        law_a_failure_ends_the_plan(steps, at + 1, failed_at);
    }
}

// ── the texts ───────────────────────────────────────────────────────────────

/// What the kill switch's rule set is as text: one table with one chain on the way out, which
/// begins with the loopback and the tunnel and ends by dropping the rest.
pub proof fn law_the_kill_switch_text_is_an_output_filter(
    iface: &str,
    endpoint_ip: &str,
    endpoint_port: u16,
    lan_cidrs: &[String],
    netns: Option<&(String, u16)>,
    r: String,
)
    requires
        call_ensures(
            crate::helper::nft_killswitch_ruleset,
            (iface, endpoint_ip, endpoint_port, lan_cidrs, netns),
            r,
        ),
    ensures
        ({
            let head = "table inet wg_gui_killswitch {\n    chain output {\n        type filter hook output priority 0;\n        oifname lo accept\n        oifname "@
                + iface@ + " accept\n        ip daddr "@ + endpoint_ip@ + " udp dport "@
                + crate::text::decimal(endpoint_port as nat) + " accept\n"@;
            let tail = "        policy drop;\n    }\n}\n"@;
            &&& head.is_prefix_of(r@)
            &&& tail.is_suffix_of(r@)
            &&& head.len() + tail.len() <= r@.len()
        }),
{
    let rules = crate::helper::accept_rules(
        iface@,
        endpoint_ip@,
        endpoint_port as nat,
        crate::text::views(lan_cidrs@),
        crate::helper::endpoint_view(netns),
    );
    let all = crate::helper::killswitch_rows(rules);
    let first = all.take(6);
    let middle = all.subrange(6, all.len() - 3);
    let last = all.skip(all.len() - 3);
    assert(all =~= first + middle + last);
    crate::text::lemma_flat_add(first + middle, last);
    crate::text::lemma_flat_add(first, middle);
    let head = "table inet wg_gui_killswitch {\n    chain output {\n        type filter hook output priority 0;\n        oifname lo accept\n        oifname "@
        + iface@ + " accept\n        ip daddr "@ + endpoint_ip@ + " udp dport "@
        + crate::text::decimal(endpoint_port as nat) + " accept\n"@;
    let tail = "        policy drop;\n    }\n}\n"@;
    assert(first =~= crate::helper::killswitch_head() + rules.take(3));
    assert(last =~= crate::helper::killswitch_tail());
    crate::text::lemma_flat_add(crate::helper::killswitch_head(), rules.take(3));
    lemma_head_text(iface@, endpoint_ip@, endpoint_port as nat, rules.take(3));
    lemma_tail_text();
    assert(r@ =~= head + crate::text::flat(middle) + tail);
}

/// The text of the lines that a rule set of the kill switch begins with.
proof fn lemma_head_text(
    iface: Seq<char>,
    endpoint_ip: Seq<char>,
    endpoint_port: nat,
    rules: Seq<Seq<char>>,
)
    requires
        rules.len() == 3,
        rules[0] == "        oifname lo accept"@,
        rules[1] == "        oifname "@ + iface + " accept"@,
        rules[2] == crate::helper::udp_rule(endpoint_ip, endpoint_port),
    ensures
        crate::text::flat(crate::helper::killswitch_head()) + crate::text::flat(rules)
            == "table inet wg_gui_killswitch {\n    chain output {\n        type filter hook output priority 0;\n        oifname lo accept\n        oifname "@
            + iface + " accept\n        ip daddr "@ + endpoint_ip + " udp dport "@
            + crate::text::decimal(endpoint_port) + " accept\n"@,
{
    lemma_flat_three(crate::helper::killswitch_head());
    lemma_flat_three(rules);
    reveal_strlit("\n");
    reveal_strlit(
        "table inet wg_gui_killswitch {\n    chain output {\n        type filter hook output priority 0;\n        oifname lo accept\n        oifname ",
    );
    reveal_strlit("table inet wg_gui_killswitch {");
    reveal_strlit("    chain output {");
    reveal_strlit("        type filter hook output priority 0;");
    reveal_strlit("        oifname lo accept");
    reveal_strlit("        oifname ");
    reveal_strlit(" accept");
    reveal_strlit(" accept\n");
    reveal_strlit(" accept\n        ip daddr ");
    reveal_strlit("        ip daddr ");
    let n = "\n"@;
    let one = "table inet wg_gui_killswitch {"@ + n + "    chain output {"@ + n
        + "        type filter hook output priority 0;"@ + n + "        oifname lo accept"@ + n
        + "        oifname "@;
    assert(one
        =~= "table inet wg_gui_killswitch {\n    chain output {\n        type filter hook output priority 0;\n        oifname lo accept\n        oifname "@);
    let two = " accept"@ + n + "        ip daddr "@;
    assert(two =~= " accept\n        ip daddr "@);
    let three = " accept"@ + n;
    assert(three =~= " accept\n"@);
    assert(crate::text::flat(crate::helper::killswitch_head()) + crate::text::flat(rules) =~= one
        + iface + two + endpoint_ip + " udp dport "@ + crate::text::decimal(endpoint_port)
        + three);
}

/// The text of the lines that a rule set of the kill switch ends with.
proof fn lemma_tail_text()
    ensures
        crate::text::flat(crate::helper::killswitch_tail())
            == "        policy drop;\n    }\n}\n"@,
{
    lemma_flat_three(crate::helper::killswitch_tail());
    reveal_strlit("\n");
    reveal_strlit("        policy drop;\n    }\n}\n");
    reveal_strlit("        policy drop;");
    reveal_strlit("    }");
    reveal_strlit("}");
    assert(crate::text::flat(crate::helper::killswitch_tail())
        =~= "        policy drop;\n    }\n}\n"@);
}

/// The text of three lines.
proof fn lemma_flat_three(rows: Seq<Seq<char>>)
    requires
        rows.len() == 3,
    ensures
        crate::text::flat(rows) == rows[0] + "\n"@ + rows[1] + "\n"@ + rows[2] + "\n"@,
{
    reveal_with_fuel(crate::text::flat, 4);
    assert(rows.drop_last().drop_last().drop_last() =~= Seq::empty());
    assert(crate::text::flat(rows) =~= rows[0] + "\n"@ + rows[1] + "\n"@ + rows[2] + "\n"@);
}

/// What the rule set of address translation is as text, behind its two lines of comment: one table
/// with one chain behind the routing decision, which masquerades what comes from the subnet and
/// leaves by the interface.
pub proof fn law_the_translation_text_masquerades(subnet: &str, egress_iface: &str, r: String)
    requires
        call_ensures(crate::helper::nft_nat_ruleset, (subnet, egress_iface), r),
    ensures
        ({
            let table = "\ntable inet wg_gui_srv_nat {\nchain postrouting {\ntype nat hook postrouting priority 100;\nip saddr "@
                + subnet@ + " oifname \""@ + egress_iface@ + "\" masquerade;\n}\n}\n"@;
            &&& table.is_suffix_of(r@)
            &&& r@[0] == '#'
        }),
{
    let all = crate::helper::nat_rows(subnet@, egress_iface@);
    let table = "\ntable inet wg_gui_srv_nat {\nchain postrouting {\ntype nat hook postrouting priority 100;\nip saddr "@
        + subnet@ + " oifname \""@ + egress_iface@ + "\" masquerade;\n}\n}\n"@;
    let notes = all.take(3);
    let a = all.subrange(3, 6);
    let b = all.skip(6);
    assert(all =~= notes + a + b);
    crate::text::lemma_flat_add(notes + a, b);
    crate::text::lemma_flat_add(notes, a);
    lemma_flat_three(notes);
    lemma_flat_three(a);
    lemma_flat_three(b);
    reveal_strlit("\n");
    reveal_strlit("");
    reveal_strlit("}");
    reveal_strlit("# wg_gui_srv_nat — generated by wireguard-gui-rust");
    reveal_strlit("table inet wg_gui_srv_nat {");
    reveal_strlit("chain postrouting {");
    reveal_strlit("type nat hook postrouting priority 100;");
    reveal_strlit("ip saddr ");
    reveal_strlit("\" masquerade;");
    reveal_strlit("\" masquerade;\n}\n}\n");
    reveal_strlit(
        "\ntable inet wg_gui_srv_nat {\nchain postrouting {\ntype nat hook postrouting priority 100;\nip saddr ",
    );
    let front = notes[0] + "\n"@ + notes[1] + "\n"@;
    assert(r@ =~= front + table);
    assert(r@[0] == notes[0][0]);
}

// ── commands and their payload ──────────────────────────────────────────────

/// The server is brought up and down with the same file, by commands that differ in one word; and
/// each kind of forwarding is turned on by a setting of its own.
pub proof fn law_server_commands(
    up: Vec<String>,
    down: Vec<String>,
    four: Vec<String>,
    six: Vec<String>,
)
    requires
        call_ensures(crate::helper::wgquick_server_up_argv, (), up),
        call_ensures(crate::helper::wgquick_server_down_argv, (), down),
        call_ensures(crate::helper::sysctl_ipv4_forward_argv, (), four),
        call_ensures(crate::helper::sysctl_ipv6_forward_argv, (), six),
    ensures
        crate::text::views(up@) == seq![
            "wg-quick"@,
            "up"@,
            "/etc/wireguard/wg-gui-srv0.conf"@,
        ],
        crate::text::views(down@) == crate::text::views(up@).update(1, "down"@),
        crate::text::views(four@) == seq!["sysctl"@, "-w"@, "net.ipv4.ip_forward=1"@],
        crate::text::views(six@) == seq!["sysctl"@, "-w"@, "net.ipv6.conf.all.forwarding=1"@],
{
    assert(crate::text::views(down@) =~= crate::text::views(up@).update(1, "down"@));
}

/// The kill switch lapses by the command that lifts it, run once the lease is over.
pub proof fn law_the_lease_ends_by_lifting(lease: u64, timer: Vec<String>, lift: Vec<String>)
    requires
        call_ensures(crate::helper::systemd_run_deadman_argv, (lease,), timer),
        call_ensures(crate::helper::nft_delete_table_argv, (), lift),
    ensures
        crate::text::views(timer@).take(4) == seq![
            "systemd-run"@,
            "--on-active"@,
            crate::text::decimal(lease as nat) + "s"@,
            "--timer-property=AccuracySec=1s"@,
        ],
        crate::text::views(timer@).skip(4) == crate::text::views(lift@),
        crate::text::views(lift@) == seq![
            "nft"@,
            "delete"@,
            "table"@,
            "inet"@,
            "wg_gui_killswitch"@,
        ],
{
    assert(crate::text::views(timer@).take(4) =~= seq![
        "systemd-run"@,
        "--on-active"@,
        crate::text::decimal(lease as nat) + "s"@,
        "--timer-property=AccuracySec=1s"@,
    ]);
    assert(crate::text::views(timer@).skip(4) =~= crate::text::views(lift@));
}

/// A payload behind `--json` is taken as it is; without arguments, and with `-` or `--stdin`, it
/// is on standard input. What follows does not count, and anything else is refused.
pub proof fn law_payloads_are_found(
    args: Vec<String>,
    r: AppResult<crate::helper::PayloadSource>,
)
    requires
        call_ensures(crate::helper::payload_source, (&args,), r),
    ensures
        ({
            let a = crate::text::views(args@);
            let piped = a.len() == 0 || a[0] == "-"@ || a[0] == "--stdin"@;
            &&& piped <==> r == Ok::<crate::helper::PayloadSource, AppError>(
                crate::helper::PayloadSource::Stdin,
            )
            &&& (r is Ok && r->Ok_0 is Given) <==> (a.len() >= 2 && a[0] == "--json"@)
            &&& a.len() >= 2 && a[0] == "--json"@ ==> r->Ok_0->Given_0@ == a[1]
            &&& r is Err ==> r->Err_0 is IpcFailed
        }),
{
    reveal_strlit("-");
    reveal_strlit("--stdin");
    reveal_strlit("--json");
    assert("--json"@[2] == 'j' && "--stdin"@[2] == 's');
    assert("--json"@.len() == 6 && "-"@.len() == 1);
}

/// What was piped in is the payload, without the white space around it; where there is nothing
/// else, there is no payload.
pub proof fn law_piped_payloads_are_trimmed(text: &str, r: AppResult<String>)
    requires
        call_ensures(crate::helper::stdin_payload, (text,), r),
    ensures
        r is Ok <==> crate::text::trimmed(text@).len() > 0,
        r is Ok ==> r->Ok_0@ == crate::text::trimmed(text@),
        r is Err ==> r->Err_0 is IpcFailed && r->Err_0->IpcFailed_0@
            == "no payload: pass --json <payload> or pipe JSON on stdin"@,
{
}

} // verus!
