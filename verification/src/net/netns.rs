//! Network namespaces: the commands that build, enter and remove them, and the configuration they
//! are given.

use std::path::PathBuf;

use crate::error::{AppError, AppResult};
use crate::helper::{netns_launch_argv, netns_setup_argv_sequence};
use crate::net::privilege::{PrivCmd, PrivCmdModel};
use crate::paths::to_path;
use crate::text::{
    lines, owned, push_line, same, split_once, split_whitespace, starts_with, to_lowercase, trim,
    trim_brackets,
};
use vstd::prelude::*;
use vstd::string::*;

verus! {

// ── keys that only wg-quick knows ───────────────────────────────────────────

/// Whether only `wg-quick`, and not `wg`, knows the lower-case key `k`.
pub open spec fn quick_only(k: Seq<char>) -> bool {
    k == "address"@ || k == "dns"@ || k == "mtu"@ || k == "table"@ || k == "preup"@ || k
        == "postup"@ || k == "predown"@ || k == "postdown"@ || k == "saveconfig"@
}

/// Whether only `wg-quick` knows the lower-case key `k`.
fn is_quick_only(k: &str) -> (r: bool)
    ensures
        r == quick_only(k@),
{
    same(k, "address") || same(k, "dns") || same(k, "mtu") || same(k, "table") || same(k, "preup")
        || same(k, "postup") || same(k, "predown") || same(k, "postdown") || same(k, "saveconfig")
}

/// The kind of section that lines belong to.
#[derive(Debug, Clone, Copy, PartialEq, Eq, Structural)]
pub enum SectionKind {
    Other,
    Interface,
    Peer,
}

/// Whether a line is a section header.
pub open spec fn is_header(line: Seq<char>) -> bool {
    let t = crate::text::trimmed(line);
    t.len() > 0 && t[0] == '['
}

/// The kind of section that a header line begins.
pub open spec fn header_kind(line: Seq<char>) -> SectionKind {
    let name = crate::config::profile::header_name(crate::text::trimmed(line));
    if name == "interface"@ {
        SectionKind::Interface
    } else if name == "peer"@ {
        SectionKind::Peer
    } else {
        SectionKind::Other
    }
}

/// The kind of section that the line behind `line` belongs to.
pub open spec fn kind_after(kind: SectionKind, line: Seq<char>) -> SectionKind {
    if is_header(line) {
        header_kind(line)
    } else {
        kind
    }
}

/// Whether a line of a section of this kind gives a key that only `wg-quick` knows to the
/// interface.
pub open spec fn quick_line(kind: SectionKind, line: Seq<char>) -> bool {
    !is_header(line) && kind == SectionKind::Interface && (crate::text::cut(
        crate::text::trimmed(line),
        '=',
    ) matches Some((k, _)) && quick_only(crate::text::lowercase(crate::text::trimmed(k))))
}

/// The lines without those that give a key that only `wg-quick` knows to the interface.
pub open spec fn stripped_rows(kind: SectionKind, rows: Seq<Seq<char>>) -> Seq<Seq<char>>
    decreases rows.len(),
{
    if rows.len() == 0 {
        Seq::empty()
    } else {
        let rest = stripped_rows(kind_after(kind, rows[0]), rows.skip(1));
        if quick_line(kind, rows[0]) {
            rest
        } else {
            seq![rows[0]] + rest
        }
    }
}

/// The text without the keys that only `wg-quick` knows.
pub open spec fn stripped_text(conf: Seq<char>) -> Seq<char> {
    crate::text::flat(stripped_rows(SectionKind::Other, crate::text::lines_of(conf)))
}

/// The kind of section behind a line.
fn next_kind(kind: SectionKind, line: &str) -> (r: SectionKind)
    ensures
        r == kind_after(kind, line@),
{
    let t = trim(line);
    if !t.is_empty() && t.get_char(0) == '[' {
        let name = to_lowercase(trim(trim_brackets(t)));
        if same(name.as_str(), "interface") {
            SectionKind::Interface
        } else if same(name.as_str(), "peer") {
            SectionKind::Peer
        } else {
            SectionKind::Other
        }
    } else {
        kind
    }
}

/// Whether a line gives a key that only `wg-quick` knows to the interface.
fn drops(kind: SectionKind, line: &str) -> (r: bool)
    ensures
        r == quick_line(kind, line@),
{
    let t = trim(line);
    if !t.is_empty() && t.get_char(0) == '[' {
        return false;
    }
    if kind != SectionKind::Interface {
        return false;
    }
    match split_once(t, '=') {
        Some((k, _)) => {
            let k = to_lowercase(trim(k));
            is_quick_only(k.as_str())
        },
        None => false,
    }
}

/// The `.conf` text that `wg setconf` takes: the keys of the `[Interface]` section that only
/// `wg-quick` knows are left out, and everything else stays as it is.
pub fn strip_wg_quick_keys(conf: &str) -> (r: String)
    ensures
        r@ == stripped_text(conf@),
{
    let rows = lines(conf);
    let ghost rv = crate::text::slices(rows@);
    let mut out = String::new();
    let mut kind = SectionKind::Other;
    let ghost mut kept = Seq::<Seq<char>>::empty();
    let mut i: usize = 0;
    proof {
        assert(rv.skip(0) =~= rv);
        assert(out@ =~= crate::text::flat(kept));
        assert(kept + stripped_rows(kind, rv) =~= stripped_rows(kind, rv));
    }
    while i < rows.len()
        invariant
            i <= rows@.len(),
            rv == crate::text::slices(rows@),
            rv == crate::text::lines_of(conf@),
            out@ == crate::text::flat(kept),
            kept + stripped_rows(kind, rv.skip(i as int)) == stripped_rows(SectionKind::Other, rv),
        decreases rows@.len() - i,
    {
        let line = rows[i];
        let ghost rest = rv.skip(i as int);
        proof {
            assert(rest[0] == line@);
            assert(rest.skip(1) =~= rv.skip(i + 1));
        }
        if !drops(kind, line) {
            push_line(&mut out, line, Ghost(kept));
            proof {
                let tail = stripped_rows(kind_after(kind, line@), rv.skip(i + 1));
                assert(kept + (seq![line@] + tail) =~= kept.push(line@) + tail);
                kept = kept.push(line@);
            }
        }
        kind = next_kind(kind, line);
        i += 1;
    }
    assert(kept + stripped_rows(kind, rv.skip(i as int)) =~= kept);
    out
}

/// Whether no line gives a key that only `wg-quick` knows to the interface.
pub open spec fn quick_free(kind: SectionKind, rows: Seq<Seq<char>>) -> bool
    decreases rows.len(),
{
    rows.len() > 0 ==> !quick_line(kind, rows[0]) && quick_free(
        kind_after(kind, rows[0]),
        rows.skip(1),
    )
}

/// What stripping leaves has no key that only `wg-quick` knows in an `[Interface]` section.
pub proof fn law_strip_leaves_no_quick_keys(kind: SectionKind, rows: Seq<Seq<char>>)
    ensures
        quick_free(kind, stripped_rows(kind, rows)),
    decreases rows.len(),
{
    if rows.len() > 0 {
        let next = kind_after(kind, rows[0]);
        law_strip_leaves_no_quick_keys(next, rows.skip(1));
        let rest = stripped_rows(next, rows.skip(1));
        if !quick_line(kind, rows[0]) {
            let all = seq![rows[0]] + rest;
            assert(all.skip(1) =~= rest);
        }
    }
}

/// Lines without such keys pass through unchanged.
pub proof fn law_strip_keeps_the_rest(kind: SectionKind, rows: Seq<Seq<char>>)
    requires
        quick_free(kind, rows),
    ensures
        stripped_rows(kind, rows) == rows,
    decreases rows.len(),
{
    if rows.len() > 0 {
        law_strip_keeps_the_rest(kind_after(kind, rows[0]), rows.skip(1));
        assert(seq![rows[0]] + rows.skip(1) =~= rows);
    } else {
        assert(rows =~= Seq::<Seq<char>>::empty());
    }
}

/// The lines of a `[Peer]` section pass through unchanged, whatever their keys are.
pub proof fn law_strip_keeps_peers(rows: Seq<Seq<char>>)
    requires
        forall|i: int| 0 <= i < rows.len() ==> !is_header(#[trigger] rows[i]),
    ensures
        stripped_rows(SectionKind::Peer, rows) == rows,
    decreases rows.len(),
{
    if rows.len() > 0 {
        assert(!is_header(rows[0]));
        let rest = rows.skip(1);
        assert forall|i: int| 0 <= i < rest.len() implies !is_header(#[trigger] rest[i]) by {
            assert(rest[i] == rows[i + 1]);
        }
        law_strip_keeps_peers(rest);
        assert(seq![rows[0]] + rest =~= rows);
    } else {
        assert(rows =~= Seq::<Seq<char>>::empty());
    }
}

/// What stripping keeps of some lines is drawn from those lines.
proof fn lemma_stripped_drawn(kind: SectionKind, rows: Seq<Seq<char>>)
    ensures
        forall|i: int|
            0 <= i < stripped_rows(kind, rows).len() ==> rows.contains(
                #[trigger] stripped_rows(kind, rows)[i],
            ),
    decreases rows.len(),
{
    if rows.len() > 0 {
        let next = kind_after(kind, rows[0]);
        let rest = stripped_rows(next, rows.skip(1));
        lemma_stripped_drawn(next, rows.skip(1));
        let all = stripped_rows(kind, rows);
        assert forall|i: int| 0 <= i < all.len() implies rows.contains(#[trigger] all[i]) by {
            if quick_line(kind, rows[0]) {
                let j = choose|j: int| 0 <= j < rows.skip(1).len() && rows.skip(1)[j] == rest[i];
                assert(rows[j + 1] == all[i]);
            } else if i == 0 {
                assert(rows[0] == all[0]);
            } else {
                assert(all[i] == rest[i - 1]);
                let j = choose|j: int|
                    0 <= j < rows.skip(1).len() && rows.skip(1)[j] == rest[i - 1];
                assert(rows[j + 1] == all[i]);
            }
        }
    }
}

/// Stripping twice is stripping once. Left out are texts with a line that still ends in a carriage
/// return when its line end is taken off.
pub proof fn law_strip_is_idempotent(conf: Seq<char>)
    requires
        forall|i: int|
            0 <= i < crate::text::lines_of(conf).len() ==> crate::text::without_cr(
                #[trigger] crate::text::lines_of(conf)[i],
            ) == crate::text::lines_of(conf)[i],
    ensures
        stripped_text(stripped_text(conf)) == stripped_text(conf),
{
    let rows = crate::text::lines_of(conf);
    let once = stripped_rows(SectionKind::Other, rows);
    lemma_stripped_drawn(SectionKind::Other, rows);
    crate::text::lemma_lines_lack(conf);
    assert forall|i: int| 0 <= i < once.len() implies !(#[trigger] once[i]).contains('\n')
        && crate::text::without_cr(once[i]) == once[i] by {
        let j = choose|j: int| 0 <= j < rows.len() && rows[j] == once[i];
        assert(!rows[j].contains('\n'));
    }
    crate::text::lemma_lines_flat(once);
    law_strip_leaves_no_quick_keys(SectionKind::Other, rows);
    law_strip_keeps_the_rest(SectionKind::Other, once);
}

// ── name servers ────────────────────────────────────────────────────────────

/// The `nameserver` lines for the addresses that are not blank.
pub open spec fn resolv_rows(dns: Seq<Seq<char>>) -> Seq<Seq<char>>
    decreases dns.len(),
{
    if dns.len() == 0 {
        Seq::empty()
    } else {
        let before = resolv_rows(dns.drop_last());
        let addr = crate::text::trimmed(dns.last());
        if addr.len() > 0 {
            before.push("nameserver "@ + addr)
        } else {
            before
        }
    }
}

/// The name server file of a namespace; blank addresses are passed over.
pub fn resolv_conf_content(dns: &[&str]) -> (r: String)
    ensures
        r@ == crate::text::flat(resolv_rows(crate::text::slices(dns@))),
{
    let mut out = String::new();
    let ghost dv = crate::text::slices(dns@);
    let mut i: usize = 0;
    assert(out@ =~= crate::text::flat(resolv_rows(dv.take(0))));
    while i < dns.len()
        invariant
            i <= dns@.len(),
            dv == crate::text::slices(dns@),
            out@ == crate::text::flat(resolv_rows(dv.take(i as int))),
        decreases dns@.len() - i,
    {
        let addr = trim(dns[i]);
        let ghost rows = resolv_rows(dv.take(i as int));
        proof {
            let t = dv.take(i + 1);
            assert(t.drop_last() =~= dv.take(i as int));
            assert(t.last() == dns@[i as int]@);
        }
        if !addr.is_empty() {
            let mut line = "nameserver ".to_owned();
            line.push_str(addr);
            push_line(&mut out, line.as_str(), Ghost(rows));
        }
        i += 1;
    }
    assert(dv.take(i as int) =~= dv);
    out
}

// ── commands ────────────────────────────────────────────────────────────────

/// The commands that build a namespace with a tunnel of its own.
pub fn setup_cmds(ns: &str, wgif: &str, conf_path: &str, address: &str) -> (r: Vec<Vec<String>>)
    ensures
        crate::helper::argv_views(r@) == crate::helper::netns_setup_rows(
            ns@,
            wgif@,
            conf_path@,
            address@,
        ),
{
    netns_setup_argv_sequence(ns, wgif, conf_path, address)
}

/// The commands that remove a namespace and its name server file.
pub open spec fn teardown_rows(ns: Seq<char>) -> Seq<Seq<Seq<char>>> {
    seq![crate::helper::netns_del_row(ns), seq!["rm"@, "-rf"@, "/etc/netns/"@ + ns]]
}

/// The commands that remove a namespace and its name server file.
pub fn teardown_cmds(ns: &str) -> (r: Vec<Vec<String>>)
    ensures
        crate::helper::argv_views(r@) == teardown_rows(ns@),
{
    let mut dir = "/etc/netns/".to_owned();
    dir.push_str(ns);
    let mut out: Vec<Vec<String>> = Vec::new();
    out.push(owned(vec!["ip", "netns", "del", ns]));
    out.push(owned(vec!["rm", "-rf", dir.as_str()]));
    proof {
        let v = crate::helper::argv_views(out@);
        let e = teardown_rows(ns@);
        assert(v[0] =~= e[0]);
        assert(v[1] =~= e[1]);
        assert(v =~= e);
    }
    out
}

/// Where the name server file of a namespace is.
pub fn resolv_conf_path(ns: &str) -> (r: PathBuf)
    ensures
        r == crate::paths::path_of("/etc/netns/"@ + ns@ + "/resolv.conf"@),
{
    let mut t = "/etc/netns/".to_owned();
    t.push_str(ns);
    t.push_str("/resolv.conf");
    to_path(t.as_str())
}

/// The command that starts `exe` inside a namespace as the user `username`, with the given
/// arguments and environment entries.
pub fn launch_argv(
    ns: &str,
    username: &str,
    exe: &str,
    args: &[String],
    env_vars: &[(String, String)],
) -> (r: Vec<String>)
    ensures
        crate::text::views(r@) == crate::helper::netns_launch_row(
            ns@,
            username@,
            exe@,
            crate::text::views(args@),
            crate::helper::env_rows(env_vars@),
        ),
{
    netns_launch_argv(ns, username, exe, args, env_vars)
}

/// The command that lists the namespaces of this host.
pub fn list_netns_argv() -> (r: Vec<String>)
    ensures
        crate::text::views(r@) == seq!["ip"@, "netns"@, "list"@],
{
    let r = owned(vec!["ip", "netns", "list"]);
    assert(crate::text::views(r@) =~= seq!["ip"@, "netns"@, "list"@]);
    r
}

/// Whether a namespace name is one of this program's.
pub open spec fn our_name(name: Seq<char>) -> bool {
    "wg-gui-"@.is_prefix_of(name)
}

/// The names, among the first words of the lines, that are this program's.
pub open spec fn our_names(rows: Seq<Seq<char>>) -> Seq<Seq<char>>
    decreases rows.len(),
{
    if rows.len() == 0 {
        Seq::empty()
    } else {
        let before = our_names(rows.drop_last());
        let words = crate::text::words_of(rows.last());
        if words.len() > 0 && our_name(words[0]) {
            before.push(words[0])
        } else {
            before
        }
    }
}

/// This program's namespaces in what `ip netns list` printed.
pub fn parse_our_namespaces(ip_netns_list_output: &str) -> (r: Vec<String>)
    ensures
        crate::text::views(r@) == our_names(crate::text::lines_of(ip_netns_list_output@)),
{
    let rows = lines(ip_netns_list_output);
    let ghost rv = crate::text::slices(rows@);
    let mut out: Vec<String> = Vec::new();
    let mut i: usize = 0;
    assert(crate::text::views(out@) =~= our_names(rv.take(0)));
    while i < rows.len()
        invariant
            i <= rows@.len(),
            rv == crate::text::slices(rows@),
            crate::text::views(out@) == our_names(rv.take(i as int)),
        decreases rows@.len() - i,
    {
        let words = split_whitespace(rows[i]);
        let ghost was = out@;
        proof {
            let t = rv.take(i + 1);
            assert(t.drop_last() =~= rv.take(i as int));
            assert(t.last() == rows@[i as int]@);
            assert(crate::text::slices(words@).len() == words@.len());
        }
        if words.len() > 0 {
            let name = words[0];
            assert(crate::text::slices(words@)[0] == name@);
            if starts_with(name, "wg-gui-") {
                out.push(name.to_owned());
                assert(crate::text::views(out@) =~= crate::text::views(was).push(name@));
            }
        }
        i += 1;
    }
    assert(rv.take(i as int) =~= rv);
    out
}

// ── rules ───────────────────────────────────────────────────────────────────

/// Binds one executable to a namespace.
#[derive(Debug, Clone)]
pub struct NetnsRule {
    pub executable_path: PathBuf,
    pub ns_name: String,
}

/// What a rule says.
pub struct RuleModel {
    pub executable_path: PathBuf,
    pub ns_name: Seq<char>,
}

impl View for NetnsRule {
    type V = RuleModel;

    open spec fn view(&self) -> RuleModel {
        RuleModel { executable_path: self.executable_path, ns_name: self.ns_name@ }
    }
}

/// What a row of rules says.
pub open spec fn rule_views(v: Seq<NetnsRule>) -> Seq<RuleModel> {
    v.map_values(|r: NetnsRule| r@)
}

/// Copies of rules.
pub(crate) fn copied_rules(v: &Vec<NetnsRule>) -> (r: Vec<NetnsRule>)
    ensures
        rule_views(r@) == rule_views(v@),
{
    let mut out: Vec<NetnsRule> = Vec::new();
    let mut i: usize = 0;
    while i < v.len()
        invariant
            i <= v@.len(),
            out@.len() == i,
            forall|j: int| 0 <= j < i ==> (#[trigger] out@[j])@ == v@[j]@,
        decreases v@.len() - i,
    {
        out.push(
            NetnsRule {
                executable_path: v[i].executable_path.clone(),
                ns_name: v[i].ns_name.clone(),
            },
        );
        i += 1;
    }
    assert(rule_views(out@) =~= rule_views(v@));
    out
}

/// Builds the commands for namespaces and checks rules. It holds nothing.
pub struct NetnsManager;

impl NetnsManager {
    /// The commands that build a namespace with a tunnel of its own.
    pub fn setup_cmds(&self, ns: &str, wgif: &str, conf_path: &str, address: &str) -> (r: Vec<
        Vec<String>,
    >)
        ensures
            crate::helper::argv_views(r@) == crate::helper::netns_setup_rows(
                ns@,
                wgif@,
                conf_path@,
                address@,
            ),
    {
        setup_cmds(ns, wgif, conf_path, address)
    }

    /// The commands that remove a namespace and its name server file.
    pub fn teardown_cmds(&self, ns: &str) -> (r: Vec<Vec<String>>)
        ensures
            crate::helper::argv_views(r@) == teardown_rows(ns@),
    {
        teardown_cmds(ns)
    }

    /// The command that starts `exe` inside a namespace as the user `username`.
    pub fn launch_argv(
        &self,
        ns: &str,
        username: &str,
        exe: &str,
        args: &[String],
        env_vars: &[(String, String)],
    ) -> (r: Vec<String>)
        ensures
            crate::text::views(r@) == crate::helper::netns_launch_row(
                ns@,
                username@,
                exe@,
                crate::text::views(args@),
                crate::helper::env_rows(env_vars@),
            ),
    {
        launch_argv(ns, username, exe, args, env_vars)
    }

    /// The command that lists the namespaces of this host.
    pub fn list_netns_argv(&self) -> (r: Vec<String>)
        ensures
            crate::text::views(r@) == seq!["ip"@, "netns"@, "list"@],
    {
        list_netns_argv()
    }

    /// This program's namespaces in what `ip netns list` printed.
    pub fn parse_our_namespaces(&self, output: &str) -> (r: Vec<String>)
        ensures
            crate::text::views(r@) == our_names(crate::text::lines_of(output@)),
    {
        parse_our_namespaces(output)
    }

    /// The privileged operation that builds a namespace with a tunnel of its own. The file at
    /// `conf_path` must be without the keys that only `wg-quick` reads.
    pub fn setup(&self, ns: &str, wgif: &str, conf_path: &str, address: &str, dns: Vec<String>) -> (r:
        PrivCmd)
        ensures
            r@ == (PrivCmdModel::NetnsSetup {
                ns: ns@,
                wgif: wgif@,
                conf_path: conf_path@,
                address: address@,
                dns: crate::text::views(dns@),
            }),
    {
        PrivCmd::NetnsSetup {
            ns: ns.to_owned(),
            wgif: wgif.to_owned(),
            conf_path: conf_path.to_owned(),
            address: address.to_owned(),
            dns,
        }
    }

    /// The privileged operation that takes a namespace down.
    pub fn teardown(&self, ns: &str) -> (r: PrivCmd)
        ensures
            r@ == (PrivCmdModel::NetnsTeardown { ns: ns@ }),
    {
        PrivCmd::NetnsTeardown { ns: ns.to_owned() }
    }

    /// The privileged operation that starts `exe` inside a namespace as the user `uid`.
    pub fn launch(
        &self,
        ns: &str,
        uid: u32,
        exe: &str,
        args: Vec<String>,
        env: Vec<(String, String)>,
    ) -> (r: PrivCmd)
        ensures
            r matches PrivCmd::NetnsLaunch { ns: n, uid: u, exe: e, args: a, env: v } && n@ == ns@
                && u == uid && e@ == exe@ && a == args && v == env,
    {
        PrivCmd::NetnsLaunch { ns: ns.to_owned(), uid, exe: exe.to_owned(), args, env }
    }

    /// Checks a rule: its namespace must have a name, and one of this program's.
    pub fn add_rule(&self, rule: &NetnsRule) -> (r: AppResult<()>)
        ensures
            if rule.ns_name@.len() == 0 {
                r matches Err(AppError::NetnsFailed(t)) && t@ == "namespace name must not be empty"@
            } else if !our_name(rule.ns_name@) {
                r matches Err(AppError::NetnsFailed(t)) && t@ == "namespace name '"@
                    + rule.ns_name@ + "' does not start with 'wg-gui-'"@
            } else {
                r is Ok
            },
    {
        let name = rule.ns_name.as_str();
        if name.is_empty() {
            return Err(AppError::NetnsFailed("namespace name must not be empty".to_owned()));
        }
        if !starts_with(name, "wg-gui-") {
            let mut t = "namespace name '".to_owned();
            t.push_str(name);
            t.push_str("' does not start with 'wg-gui-'");
            return Err(AppError::NetnsFailed(t));
        }
        Ok(())
    }

    /// Drops a rule. Rules are kept elsewhere, so this always succeeds.
    pub fn remove_rule(&self, rule: &NetnsRule) -> (r: AppResult<()>)
        ensures
            r is Ok,
    {
        let _ = rule;
        Ok(())
    }
}

} // verus!
