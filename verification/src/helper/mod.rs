//! The privileged helper: what it does for each command, as steps that a small executor performs.

pub mod laws;
pub mod steps;

use crate::error::{AppError, AppResult};
use crate::text::{decimal_text, lines, owned, parse_unsigned, push_line, same, split, trim};
use vstd::prelude::*;
use vstd::string::*;

verus! {

/// Where the server's configuration is kept.
pub const SERVER_CONF_PATH: &'static str = "/etc/wireguard/wg-gui-srv0.conf";

/// Where the client's configuration is kept.
pub const CLIENT_CONF_PATH: &'static str = "/etc/wireguard/wg-gui0.conf";

// ── command lines ───────────────────────────────────────────────────────────

/// The command that deletes the kill switch's table.
pub open spec fn delete_table_row() -> Seq<Seq<char>> {
    seq!["nft"@, "delete"@, "table"@, "inet"@, "wg_gui_killswitch"@]
}

/// The command that deletes the kill switch's table.
pub fn nft_delete_table_argv() -> (r: Vec<String>)
    ensures
        crate::text::views(r@) == delete_table_row(),
{
    let r = owned(vec!["nft", "delete", "table", "inet", "wg_gui_killswitch"]);
    assert(crate::text::views(r@) =~= delete_table_row());
    r
}

/// The command that deletes the kill switch's table after `lease_secs` seconds.
pub open spec fn deadman_row(lease_secs: nat) -> Seq<Seq<char>> {
    seq![
        "systemd-run"@,
        "--on-active"@,
        crate::text::decimal(lease_secs) + "s"@,
        "--timer-property=AccuracySec=1s"@,
    ] + delete_table_row()
}

/// The command that deletes the kill switch's table after `lease_secs` seconds.
pub fn systemd_run_deadman_argv(lease_secs: u64) -> (r: Vec<String>)
    ensures
        crate::text::views(r@) == deadman_row(lease_secs as nat),
{
    let mut lease = decimal_text(lease_secs);
    lease.push_str("s");
    let r = owned(
        vec![
            "systemd-run",
            "--on-active",
            lease.as_str(),
            "--timer-property=AccuracySec=1s",
            "nft",
            "delete",
            "table",
            "inet",
            "wg_gui_killswitch",
        ],
    );
    assert(crate::text::views(r@) =~= deadman_row(lease_secs as nat));
    r
}

/// The command that fails where the interface does not exist.
pub open spec fn link_show_row(iface: Seq<char>) -> Seq<Seq<char>> {
    seq!["ip"@, "link"@, "show"@, iface]
}

/// The command that fails where the interface does not exist.
pub fn ip_link_show_argv(iface: &str) -> (r: Vec<String>)
    ensures
        crate::text::views(r@) == link_show_row(iface@),
{
    let r = owned(vec!["ip", "link", "show", iface]);
    assert(crate::text::views(r@) =~= link_show_row(iface@));
    r
}

/// The commands that build a namespace with a tunnel of its own, in their order.
pub open spec fn netns_setup_rows(
    ns: Seq<char>,
    wgif: Seq<char>,
    conf_path: Seq<char>,
    address: Seq<char>,
) -> Seq<Seq<Seq<char>>> {
    seq![
        seq!["ip"@, "netns"@, "add"@, ns],
        seq!["ip"@, "link"@, "add"@, wgif, "type"@, "wireguard"@],
        seq!["ip"@, "link"@, "set"@, wgif, "netns"@, ns],
        seq!["ip"@, "netns"@, "exec"@, ns, "wg"@, "setconf"@, wgif, conf_path],
        seq!["ip"@, "-n"@, ns, "addr"@, "add"@, address, "dev"@, wgif],
        seq!["ip"@, "-n"@, ns, "link"@, "set"@, wgif, "up"@],
        seq!["ip"@, "-n"@, ns, "link"@, "set"@, "lo"@, "up"@],
        seq!["ip"@, "-n"@, ns, "route"@, "add"@, "default"@, "dev"@, wgif],
    ]
}

/// The characters behind a row of command lines.
pub open spec fn argv_views(v: Seq<Vec<String>>) -> Seq<Seq<Seq<char>>> {
    v.map_values(|a: Vec<String>| crate::text::views(a@))
}

/// Adds one command line to a row of them.
fn push_argv(out: &mut Vec<Vec<String>>, parts: Vec<&str>)
    ensures
        argv_views(final(out)@) == argv_views(old(out)@).push(crate::text::slices(parts@)),
{
    let ghost before = out@;
    out.push(owned(parts));
    assert(argv_views(out@) =~= argv_views(before).push(crate::text::slices(parts@)));
}

/// The commands that build a namespace with a tunnel of its own: the namespace, the interface,
/// its move into the namespace, its configuration, its address, both links up, and the default
/// route through the tunnel. No route of the host is touched.
pub fn netns_setup_argv_sequence(ns: &str, wgif: &str, conf_path: &str, address: &str) -> (r: Vec<
    Vec<String>,
>)
    ensures
        argv_views(r@) == netns_setup_rows(ns@, wgif@, conf_path@, address@),
{
    let mut out: Vec<Vec<String>> = Vec::new();
    push_argv(&mut out, vec!["ip", "netns", "add", ns]);
    push_argv(&mut out, vec!["ip", "link", "add", wgif, "type", "wireguard"]);
    push_argv(&mut out, vec!["ip", "link", "set", wgif, "netns", ns]);
    push_argv(&mut out, vec!["ip", "netns", "exec", ns, "wg", "setconf", wgif, conf_path]);
    push_argv(&mut out, vec!["ip", "-n", ns, "addr", "add", address, "dev", wgif]);
    push_argv(&mut out, vec!["ip", "-n", ns, "link", "set", wgif, "up"]);
    push_argv(&mut out, vec!["ip", "-n", ns, "link", "set", "lo", "up"]);
    push_argv(&mut out, vec!["ip", "-n", ns, "route", "add", "default", "dev", wgif]);
    proof {
        let e = netns_setup_rows(ns@, wgif@, conf_path@, address@);
        let v = argv_views(out@);
        assert(v.len() == e.len());
        assert(v[0] =~= e[0] && v[1] =~= e[1] && v[2] =~= e[2] && v[3] =~= e[3] && v[4] =~= e[4]
            && v[5] =~= e[5] && v[6] =~= e[6] && v[7] =~= e[7]);
        assert(v =~= e);
    }
    out
}

/// The command that deletes a namespace.
pub open spec fn netns_del_row(ns: Seq<char>) -> Seq<Seq<char>> {
    seq!["ip"@, "netns"@, "del"@, ns]
}

/// The command that deletes a namespace.
pub fn netns_del_argv(ns: &str) -> (r: Vec<String>)
    ensures
        crate::text::views(r@) == netns_del_row(ns@),
{
    let r = owned(vec!["ip", "netns", "del", ns]);
    assert(crate::text::views(r@) =~= netns_del_row(ns@));
    r
}

/// The `KEY=VALUE` forms of environment entries.
pub open spec fn env_rows(env: Seq<(String, String)>) -> Seq<Seq<char>> {
    env.map_values(|e: (String, String)| e.0@ + "="@ + e.1@)
}

/// The command that starts a program inside a namespace as `username`.
pub open spec fn netns_launch_row(
    ns: Seq<char>,
    username: Seq<char>,
    exe: Seq<char>,
    args: Seq<Seq<char>>,
    env: Seq<Seq<char>>,
) -> Seq<Seq<char>> {
    seq![
        "ip"@,
        "netns"@,
        "exec"@,
        ns,
        "runuser"@,
        "-u"@,
        username,
        "--"@,
        "env"@,
    ] + env + seq![exe] + args
}

/// The command that starts a program inside a namespace as the ordinary user `username`, with the
/// given arguments and environment entries.
pub fn netns_launch_argv(
    ns: &str,
    username: &str,
    exe: &str,
    args: &[String],
    env: &[(String, String)],
) -> (r: Vec<String>)
    ensures
        crate::text::views(r@) == netns_launch_row(
            ns@,
            username@,
            exe@,
            crate::text::views(args@),
            env_rows(env@),
        ),
{
    let mut argv = owned(
        vec!["ip", "netns", "exec", ns, "runuser", "-u", username, "--", "env"],
    );
    let ghost head = crate::text::views(argv@);
    let mut i: usize = 0;
    assert(head + env_rows(env@).take(0) =~= head);
    while i < env.len()
        invariant
            i <= env@.len(),
            crate::text::views(argv@) == head + env_rows(env@).take(i as int),
        decreases env@.len() - i,
    {
        let ghost was = argv@;
        let mut entry = env[i].0.clone();
        entry.push_str("=");
        entry.push_str(env[i].1.as_str());
        argv.push(entry);
        proof {
            assert(env_rows(env@)[i as int] == entry@);
            assert(crate::text::views(argv@) =~= crate::text::views(was).push(entry@));
            assert(crate::text::views(argv@) =~= head + env_rows(env@).take(i + 1));
        }
        i += 1;
    }
    assert(env_rows(env@).take(i as int) =~= env_rows(env@));
    let ghost was = argv@;
    argv.push(exe.to_owned());
    let ghost front = head + env_rows(env@) + seq![exe@];
    assert(crate::text::views(argv@) =~= front);
    let mut j: usize = 0;
    assert(front + crate::text::views(args@).take(0) =~= front);
    while j < args.len()
        invariant
            j <= args@.len(),
            crate::text::views(argv@) == front + crate::text::views(args@).take(j as int),
        decreases args@.len() - j,
    {
        let ghost was2 = argv@;
        argv.push(args[j].clone());
        proof {
            assert(crate::text::views(argv@) =~= crate::text::views(was2).push(args@[j as int]@));
            assert(crate::text::views(argv@) =~= front + crate::text::views(args@).take(j + 1));
        }
        j += 1;
    }
    proof {
        assert(crate::text::views(args@).take(j as int) =~= crate::text::views(args@));
        assert(crate::text::views(argv@) =~= netns_launch_row(
            ns@,
            username@,
            exe@,
            crate::text::views(args@),
            env_rows(env@),
        ));
    }
    argv
}

/// The command that brings the server up.
pub fn wgquick_server_up_argv() -> (r: Vec<String>)
    ensures
        crate::text::views(r@) == seq!["wg-quick"@, "up"@, SERVER_CONF_PATH@],
{
    let r = owned(vec!["wg-quick", "up", SERVER_CONF_PATH]);
    assert(crate::text::views(r@) =~= seq!["wg-quick"@, "up"@, SERVER_CONF_PATH@]);
    r
}

/// The command that takes the server down.
pub fn wgquick_server_down_argv() -> (r: Vec<String>)
    ensures
        crate::text::views(r@) == seq!["wg-quick"@, "down"@, SERVER_CONF_PATH@],
{
    let r = owned(vec!["wg-quick", "down", SERVER_CONF_PATH]);
    assert(crate::text::views(r@) =~= seq!["wg-quick"@, "down"@, SERVER_CONF_PATH@]);
    r
}

/// The command that turns IPv4 forwarding on.
pub fn sysctl_ipv4_forward_argv() -> (r: Vec<String>)
    ensures
        crate::text::views(r@) == seq!["sysctl"@, "-w"@, "net.ipv4.ip_forward=1"@],
{
    let r = owned(vec!["sysctl", "-w", "net.ipv4.ip_forward=1"]);
    assert(crate::text::views(r@) =~= seq!["sysctl"@, "-w"@, "net.ipv4.ip_forward=1"@]);
    r
}

/// The command that turns IPv6 forwarding on.
pub fn sysctl_ipv6_forward_argv() -> (r: Vec<String>)
    ensures
        crate::text::views(r@) == seq!["sysctl"@, "-w"@, "net.ipv6.conf.all.forwarding=1"@],
{
    let r = owned(vec!["sysctl", "-w", "net.ipv6.conf.all.forwarding=1"]);
    assert(crate::text::views(r@) =~= seq!["sysctl"@, "-w"@, "net.ipv6.conf.all.forwarding=1"@]);
    r
}

/// The command that deletes the address translation table.
pub open spec fn delete_nat_row() -> Seq<Seq<char>> {
    seq!["nft"@, "delete"@, "table"@, "inet"@, "wg_gui_srv_nat"@]
}

/// The command that deletes the address translation table.
pub fn nft_delete_nat_table_argv() -> (r: Vec<String>)
    ensures
        crate::text::views(r@) == delete_nat_row(),
{
    let r = owned(vec!["nft", "delete", "table", "inet", "wg_gui_srv_nat"]);
    assert(crate::text::views(r@) =~= delete_nat_row());
    r
}

// ── rule sets ───────────────────────────────────────────────────────────────

/// The rule that lets a destination address through.
pub open spec fn lan_rule(cidr: Seq<char>) -> Seq<char> {
    "        ip daddr "@ + cidr + " accept"@
}

/// The rule that lets UDP to one address and port through.
pub open spec fn udp_rule(ip: Seq<char>, port: nat) -> Seq<char> {
    "        ip daddr "@ + ip + " udp dport "@ + crate::text::decimal(port) + " accept"@
}

/// The rules that let traffic through, in their order: loopback, the tunnel, the tunnel's
/// endpoint, the local networks, what is under way already, and the endpoint of a namespace.
pub open spec fn accept_rules(
    iface: Seq<char>,
    endpoint_ip: Seq<char>,
    endpoint_port: nat,
    lan_cidrs: Seq<Seq<char>>,
    netns: Option<(Seq<char>, nat)>,
) -> Seq<Seq<char>> {
    seq![
        "        oifname lo accept"@,
        "        oifname "@ + iface + " accept"@,
        udp_rule(endpoint_ip, endpoint_port),
    ] + lan_cidrs.map_values(|c: Seq<char>| lan_rule(c)) + seq![
        "        ct state established,related accept"@,
    ] + (match netns {
        Some((ip, port)) => seq![udp_rule(ip, port)],
        None => Seq::empty(),
    })
}

/// The lines before the rules of the kill switch.
pub open spec fn killswitch_head() -> Seq<Seq<char>> {
    seq![
        "table inet wg_gui_killswitch {"@,
        "    chain output {"@,
        "        type filter hook output priority 0;"@,
    ]
}

/// The lines behind the rules of the kill switch.
pub open spec fn killswitch_tail() -> Seq<Seq<char>> {
    seq!["        policy drop;"@, "    }"@, "}"@]
}

/// The lines of the kill switch's rule set: all rules that let traffic through, and then the
/// policy that drops the rest.
pub open spec fn killswitch_rows(rules: Seq<Seq<char>>) -> Seq<Seq<char>> {
    killswitch_head() + rules + killswitch_tail()
}

/// What an optional endpoint says.
pub open spec fn endpoint_view(e: Option<&(String, u16)>) -> Option<(Seq<char>, nat)> {
    match e {
        Some(p) => Some((p.0@, p.1 as nat)),
        None => None,
    }
}

/// A rule that lets UDP to one address and port through.
fn udp_rule_text(ip: &str, port: u16) -> (r: String)
    ensures
        r@ == udp_rule(ip@, port as nat),
{
    let mut t = "        ip daddr ".to_owned();
    t.push_str(ip);
    t.push_str(" udp dport ");
    t.push_str(decimal_text(port as u64).as_str());
    t.push_str(" accept");
    t
}

/// The rule set of the kill switch. What keeps the user from being locked out comes before the
/// policy that drops everything else.
pub fn nft_killswitch_ruleset(
    iface: &str,
    endpoint_ip: &str,
    endpoint_port: u16,
    lan_cidrs: &[String],
    netns_endpoint_udp: Option<&(String, u16)>,
) -> (r: String)
    ensures
        r@ == crate::text::flat(
            killswitch_rows(
                accept_rules(
                    iface@,
                    endpoint_ip@,
                    endpoint_port as nat,
                    crate::text::views(lan_cidrs@),
                    endpoint_view(netns_endpoint_udp),
                ),
            ),
        ),
{
    let mut out = String::new();
    let ghost mut rows = Seq::<Seq<char>>::empty();
    assert(out@ =~= crate::text::flat(rows));
    push_line(&mut out, "table inet wg_gui_killswitch {", Ghost(rows));
    proof {
        rows = rows.push("table inet wg_gui_killswitch {"@);
    }
    push_line(&mut out, "    chain output {", Ghost(rows));
    proof {
        rows = rows.push("    chain output {"@);
    }
    push_line(&mut out, "        type filter hook output priority 0;", Ghost(rows));
    proof {
        rows = rows.push("        type filter hook output priority 0;"@);
        assert(rows =~= killswitch_head());
    }
    push_line(&mut out, "        oifname lo accept", Ghost(rows));
    proof {
        rows = rows.push("        oifname lo accept"@);
    }
    let mut own = "        oifname ".to_owned();
    own.push_str(iface);
    own.push_str(" accept");
    push_line(&mut out, own.as_str(), Ghost(rows));
    proof {
        rows = rows.push(own@);
    }
    let endpoint = udp_rule_text(endpoint_ip, endpoint_port);
    push_line(&mut out, endpoint.as_str(), Ghost(rows));
    proof {
        rows = rows.push(endpoint@);
    }
    let ghost front = rows;
    let ghost lan = crate::text::views(lan_cidrs@).map_values(|c: Seq<char>| lan_rule(c));
    let mut i: usize = 0;
    assert(front + lan.take(0) =~= front);
    while i < lan_cidrs.len()
        invariant
            i <= lan_cidrs@.len(),
            lan == crate::text::views(lan_cidrs@).map_values(|c: Seq<char>| lan_rule(c)),
            out@ == crate::text::flat(front + lan.take(i as int)),
        decreases lan_cidrs@.len() - i,
    {
        let mut rule = "        ip daddr ".to_owned();
        rule.push_str(lan_cidrs[i].as_str());
        rule.push_str(" accept");
        let ghost here = front + lan.take(i as int);
        push_line(&mut out, rule.as_str(), Ghost(here));
        proof {
            assert(lan[i as int] == rule@);
            assert(here.push(rule@) =~= front + lan.take(i + 1));
        }
        i += 1;
    }
    proof {
        assert(lan.take(i as int) =~= lan);
        rows = front + lan;
    }
    push_line(&mut out, "        ct state established,related accept", Ghost(rows));
    proof {
        rows = rows.push("        ct state established,related accept"@);
    }
    if let Some(ns) = netns_endpoint_udp {
        let rule = udp_rule_text(ns.0.as_str(), ns.1);
        push_line(&mut out, rule.as_str(), Ghost(rows));
        proof {
            rows = rows.push(rule@);
        }
    }
    push_line(&mut out, "        policy drop;", Ghost(rows));
    proof {
        rows = rows.push("        policy drop;"@);
    }
    push_line(&mut out, "    }", Ghost(rows));
    proof {
        rows = rows.push("    }"@);
    }
    push_line(&mut out, "}", Ghost(rows));
    proof {
        rows = rows.push("}"@);
        assert(rows =~= killswitch_rows(
            accept_rules(
                iface@,
                endpoint_ip@,
                endpoint_port as nat,
                crate::text::views(lan_cidrs@),
                endpoint_view(netns_endpoint_udp),
            ),
        ));
    }
    out
}

/// The lines of the address translation rule set.
pub open spec fn nat_rows(subnet: Seq<char>, egress_iface: Seq<char>) -> Seq<Seq<char>> {
    seq![
        "# wg_gui_srv_nat — generated by wireguard-gui-rust"@,
        "# DO NOT EDIT MANUALLY — managed by wireguard-gui-helper"@,
        ""@,
        "table inet wg_gui_srv_nat {"@,
        "chain postrouting {"@,
        "type nat hook postrouting priority 100;"@,
        "ip saddr "@ + subnet + " oifname \""@ + egress_iface + "\" masquerade;"@,
        "}"@,
        "}"@,
    ]
}

/// The rule set that translates the addresses of `subnet` on their way out of `egress_iface`.
pub fn nft_nat_ruleset(subnet: &str, egress_iface: &str) -> (r: String)
    ensures
        r@ == crate::text::flat(nat_rows(subnet@, egress_iface@)),
{
    let mut rule = "ip saddr ".to_owned();
    rule.push_str(subnet);
    rule.push_str(" oifname \"");
    rule.push_str(egress_iface);
    rule.push_str("\" masquerade;");
    let rows = vec![
        "# wg_gui_srv_nat — generated by wireguard-gui-rust",
        "# DO NOT EDIT MANUALLY — managed by wireguard-gui-helper",
        "",
        "table inet wg_gui_srv_nat {",
        "chain postrouting {",
        "type nat hook postrouting priority 100;",
        rule.as_str(),
        "}",
        "}",
    ];
    let out = crate::text::text_of_lines(&rows);
    assert(crate::text::slices(rows@) =~= nat_rows(subnet@, egress_iface@));
    out
}

/// Every rule that lets traffic through stands before the policy that drops the rest, and nothing
/// but the end of the rule set stands behind that policy.
pub proof fn law_accept_before_drop(
    iface: Seq<char>,
    endpoint_ip: Seq<char>,
    endpoint_port: nat,
    lan_cidrs: Seq<Seq<char>>,
    netns: Option<(Seq<char>, nat)>,
)
    ensures
        ({
            let rules = accept_rules(iface, endpoint_ip, endpoint_port, lan_cidrs, netns);
            let rows = killswitch_rows(rules);
            let drop = 3 + rules.len() as int;
            &&& rows[drop] == "        policy drop;"@
            &&& rows.len() == drop + 3
            &&& forall|i: int| 0 <= i < rules.len() ==> rows[3 + i] == #[trigger] rules[i]
            &&& rules[0] == "        oifname lo accept"@
            &&& rules[1] == "        oifname "@ + iface + " accept"@
            &&& rules[2] == udp_rule(endpoint_ip, endpoint_port)
            &&& forall|k: int|
                0 <= k < lan_cidrs.len() ==> rules.contains(lan_rule(#[trigger] lan_cidrs[k]))
        }),
{
    let rules = accept_rules(iface, endpoint_ip, endpoint_port, lan_cidrs, netns);
    assert forall|k: int| 0 <= k < lan_cidrs.len() implies rules.contains(
        lan_rule(#[trigger] lan_cidrs[k]),
    ) by {
        assert(rules[3 + k] == lan_rule(lan_cidrs[k]));
    }
}

// ── users ───────────────────────────────────────────────────────────────────

/// The user that a line of the password file gives for `uid`.
pub open spec fn passwd_line(row: Seq<char>, uid: u32) -> Option<Seq<char>> {
    let f = crate::text::split_at_each(row, ':');
    if f.len() >= 4 && crate::text::unsigned_value(f[2], u32::MAX as nat) == Some(uid as nat) {
        Some(f[0])
    } else {
        None
    }
}

/// The user that the first of some lines gives for `uid`.
pub open spec fn passwd_user(rows: Seq<Seq<char>>, uid: u32) -> Option<Seq<char>>
    decreases rows.len(),
{
    if rows.len() == 0 {
        None
    } else {
        match passwd_line(rows[0], uid) {
            Some(name) => Some(name),
            None => passwd_user(rows.skip(1), uid),
        }
    }
}

/// The complaint about a user that is not in the password file.
pub open spec fn unknown_uid(uid: u32) -> Seq<char> {
    "uid "@ + crate::text::decimal(uid as nat)
        + " not found in /etc/passwd — refusing to launch (safety guard: never launch as root uid 0)"@
}

/// The name of the user `uid`, by the text of the password file.
pub fn username_for_uid(passwd: &str, uid: u32) -> (r: AppResult<String>)
    ensures
        match r {
            Ok(name) => passwd_user(crate::text::lines_of(passwd@), uid) == Some(name@),
            Err(AppError::NetnsFailed(t)) => passwd_user(crate::text::lines_of(passwd@), uid) is None
                && t@ == unknown_uid(uid),
            Err(_) => false,
        },
{
    let rows = lines(passwd);
    let ghost rv = crate::text::slices(rows@);
    let mut i: usize = 0;
    assert(rv.skip(0) =~= rv);
    while i < rows.len()
        invariant
            i <= rows@.len(),
            rv == crate::text::slices(rows@),
            rv == crate::text::lines_of(passwd@),
            passwd_user(rv.skip(i as int), uid) == passwd_user(rv, uid),
        decreases rows@.len() - i,
    {
        let f = split(rows[i], ':');
        let ghost fv = crate::text::slices(f@);
        proof {
            assert(rv.skip(i as int)[0] == rows@[i as int]@);
            assert(rv.skip(i as int).skip(1) =~= rv.skip(i + 1));
            assert(fv.len() == f@.len());
        }
        if f.len() >= 4 {
            assert(fv[2] == f@[2]@ && fv[0] == f@[0]@);
            if let Some(n) = parse_unsigned(f[2], u32::MAX as u64) {
                if n == uid as u64 {
                    return Ok(f[0].to_owned());
                }
            }
        }
        i += 1;
    }
    let mut t = "uid ".to_owned();
    t.push_str(decimal_text(uid as u64).as_str());
    t.push_str(
        " not found in /etc/passwd — refusing to launch (safety guard: never launch as root uid 0)",
    );
    Err(AppError::NetnsFailed(t))
}

// ── payload ─────────────────────────────────────────────────────────────────

/// Where the helper finds its command.
#[derive(Debug, Clone, PartialEq, Eq)]
pub enum PayloadSource {
    /// In the argument itself.
    Given(String),
    /// On standard input.
    Stdin,
}

/// Where the command is to be found, by the arguments behind the program's name. Only the first
/// argument selects the place.
pub fn payload_source(args: &Vec<String>) -> (r: AppResult<PayloadSource>)
    ensures
        ({
            let a = crate::text::views(args@);
            if a.len() == 0 || a[0] == "-"@ || a[0] == "--stdin"@ {
                r matches Ok(PayloadSource::Stdin)
            } else if a[0] == "--json"@ {
                if a.len() >= 2 {
                    r matches Ok(PayloadSource::Given(p)) && p@ == a[1]
                } else {
                    r matches Err(AppError::IpcFailed(t)) && t@
                        == "--json requires a payload argument"@
                }
            } else {
                r matches Err(AppError::IpcFailed(t)) && t@ == "unexpected argument: "@ + a[0]
                    + " (expected --json <payload> or --stdin)"@
            }
        }),
{
    proof {
        reveal_strlit("-");
        reveal_strlit("--stdin");
        reveal_strlit("--json");
    }
    if args.len() == 0 {
        return Ok(PayloadSource::Stdin);
    }
    let first = args[0].as_str();
    assert(crate::text::views(args@)[0] == first@);
    if same(first, "--json") {
        assert("--json"@[2] == 'j');
        if args.len() >= 2 {
            return Ok(PayloadSource::Given(args[1].clone()));
        }
        return Err(AppError::IpcFailed("--json requires a payload argument".to_owned()));
    }
    if same(first, "-") || same(first, "--stdin") {
        return Ok(PayloadSource::Stdin);
    }
    let mut t = "unexpected argument: ".to_owned();
    t.push_str(first);
    t.push_str(" (expected --json <payload> or --stdin)");
    Err(AppError::IpcFailed(t))
}

/// The command in what was read from standard input.
pub fn stdin_payload(text: &str) -> (r: AppResult<String>)
    ensures
        ({
            let t = crate::text::trimmed(text@);
            if t.len() == 0 {
                r matches Err(AppError::IpcFailed(m)) && m@
                    == "no payload: pass --json <payload> or pipe JSON on stdin"@
            } else {
                r matches Ok(p) && p@ == t
            }
        }),
{
    let t = trim(text);
    if t.is_empty() {
        return Err(
            AppError::IpcFailed(
                "no payload: pass --json <payload> or pipe JSON on stdin".to_owned(),
            ),
        );
    }
    Ok(t.to_owned())
}

} // verus!
