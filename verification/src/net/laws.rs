//! What holds of the commands that arrange the network, and of when they are run.

use crate::error::{AppError, AppResult};
use crate::net::boot::{BootAction, BootCommand};
use crate::net::killswitch::KillSwitch;
use crate::net::netns::{NetnsRule, SectionKind};
use crate::net::privilege::{PrivCmd, RunOutcome};
use vstd::prelude::*;

verus! {

// ── connecting on boot ──────────────────────────────────────────────────────

/// Where NetworkManager runs, connecting on boot is turned on and off by commands that change one
/// connection, that of the profile, and differ in one word.
pub proof fn law_network_manager_is_told(name: &str, on: BootCommand, off: BootCommand)
    requires
        call_ensures(crate::net::boot::boot_command, (name, BootAction::Enable, true), on),
        call_ensures(crate::net::boot::boot_command, (name, BootAction::Disable, true), off),
    ensures
        on is Nmcli && off is Nmcli,
        ({
            let a = crate::text::views(on->Nmcli_0@);
            let b = crate::text::views(off->Nmcli_0@);
            &&& a.take(3) == seq!["nmcli"@, "connection"@, "modify"@]
            &&& a.len() == 6 && a[3] == "wg-gui-"@ + name@ && a[4] == "connection.autoconnect"@
            &&& a.last() == "yes"@ && b.last() == "no"@ && a.drop_last() == b.drop_last()
        }),
{
    let a = crate::text::views(on->Nmcli_0@);
    let b = crate::text::views(off->Nmcli_0@);
    assert(a.take(3) =~= seq!["nmcli"@, "connection"@, "modify"@]);
    assert(a.drop_last() =~= b.drop_last());
}

/// Where NetworkManager does not run, the helper turns the unit of the profile on and off.
pub proof fn law_systemd_is_told(name: &str, on: BootCommand, off: BootCommand)
    requires
        call_ensures(crate::net::boot::boot_command, (name, BootAction::Enable, false), on),
        call_ensures(crate::net::boot::boot_command, (name, BootAction::Disable, false), off),
    ensures
        on is Privileged && off is Privileged,
        on->Privileged_0 is BootEnableSystemd && off->Privileged_0 is BootDisableSystemd,
        on->Privileged_0->BootEnableSystemd_iface@ == "wg-gui-"@ + name@,
        off->Privileged_0->BootDisableSystemd_iface@ == "wg-gui-"@ + name@,
{
}

/// NetworkManager's client has failed exactly when it was not there, not started, or not
/// successful; what it complained of is said.
pub proof fn law_failures_of_network_manager_are_said(o: RunOutcome, r: AppResult<()>)
    requires
        call_ensures(crate::net::boot::nmcli_result, (&o,), r),
    ensures
        r is Ok <==> (o is Ended && o->success),
        o is NotFound <==> r == Err::<(), AppError>(AppError::WgNotFound),
        o is Ended && !o->success ==> r is Err && r->Err_0 is WgQuickFailed
            && r->Err_0->WgQuickFailed_0@ == "nmcli autoconnect failed ("@ + o->status@ + "): "@
            + crate::text::trimmed(o->stderr@),
{
}

// ── the privilege boundary ──────────────────────────────────────────────────

/// The helper is run by `pkexec`, which asks the user, and gets the payload as it is.
pub proof fn law_the_helper_is_run_with_consent(helper: &str, payload: &str, r: Vec<String>)
    requires
        call_ensures(crate::net::privilege::helper_argv_with, (helper, payload), r),
    ensures
        crate::text::views(r@).len() == 4,
        crate::text::views(r@)[0] == "pkexec"@,
        crate::text::views(r@)[1] == helper@,
        crate::text::views(r@)[2] == "--json"@,
        crate::text::views(r@)[3] == payload@,
{
}

/// The installed helper is the one below `/usr/lib`, unless another one is named.
pub proof fn law_the_installed_helper_is_run(payload: &str, r: Vec<String>)
    requires
        call_ensures(crate::net::privilege::helper_argv, (payload,), r),
    ensures
        crate::text::views(r@) == seq![
            "pkexec"@,
            "/usr/lib/wireguard-gui/wireguard-gui-helper"@,
            "--json"@,
            payload@,
        ],
        crate::net::privilege::helper_choice(None)
            == "/usr/lib/wireguard-gui/wireguard-gui-helper"@,
        crate::net::privilege::helper_choice(Some(Seq::empty()))
            == crate::net::privilege::helper_choice(None),
        forall|p: Seq<char>|
            p.len() > 0 ==> #[trigger] crate::net::privilege::helper_choice(Some(p)) == p,
{
}

/// A privileged operation succeeds exactly when the helper does. A user who does not consent is
/// told so, and what the helper complained of is said.
pub proof fn law_refusals_are_told_from_failures(o: RunOutcome, r: AppResult<()>)
    requires
        call_ensures(crate::net::privilege::run_privileged, (&o,), r),
    ensures
        r is Ok <==> (o is Ended && o->success),
        (r is Err && r->Err_0 is PermissionDenied) <==> (o is Ended && !o->success && (o->code
            == Some(126i32) || o->code == Some(127i32))),
        (r is Err && r->Err_0 is WgNotFound) <==> o is NotFound,
        o is NotStarted ==> r is Err && r->Err_0 is IpcFailed && r->Err_0->IpcFailed_0@
            == "pkexec spawn error: "@ + o->NotStarted_0@,
        r is Err && r->Err_0 is IpcFailed && o is Ended ==> r->Err_0->IpcFailed_0@
            == "helper failed ("@ + o->status@ + "): "@ + crate::text::trimmed(o->stderr@) + " "@
            + crate::text::trimmed(o->stdout@),
{
}

/// The kill switch is armed with what was given, each in its place, and lifted by an operation
/// of its own.
pub proof fn law_the_kill_switch_is_armed_as_given(
    k: KillSwitch,
    iface: String,
    ip: String,
    port: u16,
    lan: Vec<String>,
    lease: u64,
    inner: Option<(String, u16)>,
    arm: PrivCmd,
    disarm: PrivCmd,
)
    requires
        call_ensures(KillSwitch::arm, (&k, iface, ip, port, lan, lease, inner), arm),
        call_ensures(KillSwitch::disarm, (&k,), disarm),
    ensures
        arm is KillSwitchArm && disarm is KillSwitchDisarm,
        arm->KillSwitchArm_iface == iface,
        arm->endpoint_ip == ip,
        arm->endpoint_port == port,
        arm->lan_cidrs == lan,
        arm->lease_secs == lease,
        arm->netns_endpoint_udp == inner,
{
}

// ── reconnecting ────────────────────────────────────────────────────────────

/// A tunnel that the user took down stays down. Any other is reconnected as soon as its interface
/// is gone, it had no handshake, or the last one is as old as the threshold; and the older the
/// handshake, the sooner.
pub proof fn law_tunnels_are_reconnected_when_they_drop(
    age: Option<u64>,
    present: bool,
    down: bool,
    threshold: u64,
    r: bool,
)
    requires
        call_ensures(
            crate::net::watchdog::should_reconnect,
            (age, present, down, threshold),
            r,
        ),
    ensures
        down ==> !r,
        !down && !present ==> r,
        !down && age is None ==> r,
        !down && age is Some && age->0 >= threshold ==> r,
        present && age is Some && age->0 < threshold ==> !r,
{
}

/// The wait before an attempt is twice the one before, starting at two seconds, and at most a
/// minute.
pub proof fn law_waits_double(attempt: u32, one: u64, two: u64)
    requires
        attempt < u32::MAX,
        call_ensures(crate::net::watchdog::next_backoff_secs, (attempt,), one),
        call_ensures(crate::net::watchdog::next_backoff_secs, ((attempt + 1) as u32,), two),
    ensures
        attempt == 0 ==> one == 2,
        one <= 60 && two <= 60,
        2 * one <= 60 ==> two == 2 * one,
        2 * one > 60 ==> two == 60,
{
    crate::net::watchdog::law_backoff_grows_to_the_cap(attempt as nat, (attempt + 1) as nat);
}

// ── namespaces ──────────────────────────────────────────────────────────────

/// A rule is taken exactly when the name of its namespace begins as this program's do.
pub proof fn law_rules_are_for_our_namespaces(
    m: crate::net::netns::NetnsManager,
    rule: NetnsRule,
    r: AppResult<()>,
)
    requires
        call_ensures(crate::net::netns::NetnsManager::add_rule, (&m, &rule), r),
    ensures
        r is Ok <==> "wg-gui-"@.is_prefix_of(rule.ns_name@),
        r is Err ==> r->Err_0 is NetnsFailed,
        rule.ns_name@.len() == 0 ==> r->Err_0->NetnsFailed_0@
            == "namespace name must not be empty"@,
        r is Err && rule.ns_name@.len() > 0 ==> r->Err_0->NetnsFailed_0@ == "namespace name '"@
            + rule.ns_name@ + "' does not start with 'wg-gui-'"@,
{
    reveal_strlit("wg-gui-");
}

/// Of the namespaces that are listed, those whose names begin as this program's do are found,
/// in their order, and no others; what stands behind a name in its line does not count.
pub proof fn law_our_namespaces_are_found(rows: Seq<Seq<char>>, name: Seq<char>)
    ensures
        crate::net::netns::our_names(rows).contains(name) <==> exists|i: int|
            0 <= i < rows.len() && crate::text::words_of(#[trigger] rows[i]).len() > 0
                && crate::text::words_of(rows[i])[0] == name && "wg-gui-"@.is_prefix_of(name),
        crate::net::netns::our_names(rows).len() <= rows.len(),
    decreases rows.len(),
{
    let all = crate::net::netns::our_names(rows);
    if rows.len() > 0 {
        let front = rows.drop_last();
        let before = crate::net::netns::our_names(front);
        law_our_namespaces_are_found(front, name);
        let n = rows.len() - 1;
        let words = crate::text::words_of(rows[n]);
        if all.contains(name) {
            let k = choose|k: int| 0 <= k < all.len() && all[k] == name;
            if k < before.len() {
                assert(before[k] == name);
                assert(before.contains(name));
                let i = choose|i: int|
                    0 <= i < front.len() && crate::text::words_of(#[trigger] front[i]).len() > 0
                        && crate::text::words_of(front[i])[0] == name && "wg-gui-"@.is_prefix_of(
                        name,
                    );
                assert(rows[i] == front[i]);
            } else {
                assert(crate::text::words_of(rows[n])[0] == name);
            }
        }
        if exists|i: int|
            0 <= i < rows.len() && crate::text::words_of(#[trigger] rows[i]).len() > 0
                && crate::text::words_of(rows[i])[0] == name && "wg-gui-"@.is_prefix_of(name) {
            let i = choose|i: int|
                0 <= i < rows.len() && crate::text::words_of(#[trigger] rows[i]).len() > 0
                    && crate::text::words_of(rows[i])[0] == name && "wg-gui-"@.is_prefix_of(name);
            if i < n {
                assert(front[i] == rows[i]);
                assert(before.contains(name));
                let k = choose|k: int| 0 <= k < before.len() && before[k] == name;
                assert(all[k] == name);
            } else {
                assert(all[before.len() as int] == name);
            }
        }
    }
}

/// Taking a namespace down deletes the namespace and the directory of its name servers, and
/// nothing else.
pub proof fn law_teardown_removes_what_was_made(ns: &str, r: Vec<Vec<String>>)
    requires
        call_ensures(crate::net::netns::teardown_cmds, (ns,), r),
    ensures
        crate::helper::argv_views(r@) == seq![
            seq!["ip"@, "netns"@, "del"@, ns@],
            seq!["rm"@, "-rf"@, "/etc/netns/"@ + ns@],
        ],
{
}

/// The settings that only `wg-quick` knows are its addresses, name servers, packet size, routing
/// table, hooks and whether it saves; `wg` knows keys, ports and peers.
pub proof fn law_wg_keeps_keys_and_ports()
    ensures
        crate::net::netns::quick_only("address"@),
        crate::net::netns::quick_only("dns"@),
        crate::net::netns::quick_only("mtu"@),
        crate::net::netns::quick_only("table"@),
        crate::net::netns::quick_only("preup"@),
        crate::net::netns::quick_only("postup"@),
        crate::net::netns::quick_only("predown"@),
        crate::net::netns::quick_only("postdown"@),
        crate::net::netns::quick_only("saveconfig"@),
        !crate::net::netns::quick_only("privatekey"@),
        !crate::net::netns::quick_only("listenport"@),
        !crate::net::netns::quick_only("fwmark"@),
{
    reveal_strlit("address");
    reveal_strlit("dns");
    reveal_strlit("mtu");
    reveal_strlit("table");
    reveal_strlit("preup");
    reveal_strlit("postup");
    reveal_strlit("predown");
    reveal_strlit("postdown");
    reveal_strlit("saveconfig");
    reveal_strlit("privatekey");
    reveal_strlit("listenport");
    reveal_strlit("fwmark");
    let f = "fwmark"@;
    let t = "table"@;
    assert(f.len() == 6 && t.len() == 5);
    assert("privatekey"@[0] == 'p' && "saveconfig"@[0] == 's');
    assert("privatekey"@.len() == 10 && "listenport"@.len() == 10 && "saveconfig"@.len() == 10);
    assert("listenport"@[0] == 'l');
    assert(f[0] == 'f' && "postup"@[0] == 'p');
}

/// Whether a line is kept depends on its section: in the interface's section a line is dropped
/// exactly when its key, up to letter case, is one that only `wg-quick` knows. Lines of other
/// sections and headers are always kept.
pub proof fn law_only_the_interface_is_stripped(key: Seq<char>, value: Seq<char>)
    requires
        !key.contains('='),
        crate::text::is_trimmed(key),
        key.len() > 0,
        key[0] != '[',
        crate::text::is_trimmed(value),
        value.len() > 0,
    ensures
        ({
            let line = key + " = "@ + value;
            &&& crate::net::netns::quick_line(SectionKind::Interface, line)
                <==> crate::net::netns::quick_only(crate::text::lowercase(key))
            &&& !crate::net::netns::quick_line(SectionKind::Peer, line)
            &&& !crate::net::netns::quick_line(SectionKind::Other, line)
        }),
{
    reveal_strlit(" = ");
    let line = key + " = "@ + value;
    let n = key.len() as int;
    assert(line[0] == key[0] && line.last() == value.last());
    crate::text::lemma_trim_keeps(line);
    assert forall|j: int| 0 <= j < n + 1 implies line[j] != '=' by {
        if j < n {
            assert(line[j] == key[j]);
            assert(key.contains(key[j]));
        } else {
            assert(line[j] == ' ');
        }
    }
    assert(line[n + 1] == '=');
    crate::text::lemma_find_at(line, '=', n + 1);
    let head = line.take(n + 1);
    assert(head =~= key + seq![' ']);
    assert forall|j: int| n <= j < head.len() implies crate::text::whitespace(head[j]) by {}
    assert(head[0] == key[0]);
    crate::text::lemma_trim_start_at(head, 0);
    assert(head.skip(0) =~= head);
    assert(head[n - 1] == key.last());
    crate::text::lemma_trim_end_at(head, n);
    assert(head.take(n) =~= key);
}

} // verus!
