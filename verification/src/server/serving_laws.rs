//! What holds of a server and of what is handed to its clients.

use crate::error::AppResult;
use crate::net::privilege::{PrivCmd, PrivCmdModel};
use crate::persist::{FileRead, FileWrite};
use crate::server::change::ServerStepModel;
use crate::server::{ServerConfig, ServerModel, ServerPeer, ServerPeerModel};
use crate::wg::status::PeerStatusModel;
use vstd::prelude::*;

verus! {

/// A change is saved before anything else is done, and saved once. A server that is up gets its
/// new configuration, and only then is brought up with it; one that is down is left alone.
pub proof fn law_a_change_is_saved_then_applied(config: ServerModel, running: bool)
    ensures
        ({
            let plan = crate::server::change::change_plan(config, running);
            let write = ServerStepModel::Run(
                PrivCmdModel::ServerWriteConf {
                    conf_text: crate::server::conf::server_text(config),
                },
            );
            let up = ServerStepModel::Run(PrivCmdModel::ServerUp);
            &&& plan.len() > 0 && plan[0] is Save
            &&& forall|i: int| 0 < i < plan.len() ==> !((#[trigger] plan[i]) is Save)
            &&& !running ==> plan.len() == 1
            &&& running ==> plan.len() == 3 && plan.index_of(write) == 1 && plan.last() == up
        }),
{
    let plan = crate::server::change::change_plan(config, running);
    if running {
        let write = plan[1];
        let i = plan.index_of(write);
        assert(plan.contains(write));
        assert(plan[i] == write);
        assert(plan[0] != write && plan[2] != write);
    }
}

/// A new server listens on port 51820, has the address 10.7.0.1 in a tunnel of 254 hosts, hands
/// out two DNS servers, is dialled at the host that was given, and has no clients yet.
pub proof fn law_a_new_server_has_the_usual_values(c: ServerModel, host: Seq<char>)
    requires
        crate::server::is_fresh(c, host),
    ensures
        c.endpoint_host == host,
        c.name == "wg-gui-server"@,
        c.listen_port == 51820,
        c.address == "10.7.0.1/24"@,
        c.subnet == "10.7.0.0/24"@,
        c.dns == seq!["1.1.1.1"@, "1.0.0.1"@],
        c.peers.len() == 0,
        crate::config::keygen::derived_public(c.private_key) == Ok::<_, Seq<char>>(c.public_key),
{
}

/// The text of a small network.
proof fn lemma_usual_texts()
    ensures
        "10.7.0.0/24"@ == crate::ip::ipv4_text(0x0A070000) + "/"@ + crate::text::decimal(24),
        "10.7.0.1/24"@ == crate::ip::ipv4_text(0x0A070001) + "/"@ + crate::text::decimal(24),
{
    reveal_strlit("10.7.0.0/24");
    reveal_strlit("10.7.0.1/24");
    reveal_strlit(".");
    reveal_strlit("/");
    crate::net::split::lemma_small_decimal(10);
    crate::net::split::lemma_small_decimal(7);
    crate::net::split::lemma_small_decimal(0);
    crate::net::split::lemma_small_decimal(1);
    crate::net::split::lemma_small_decimal(24);
    assert("10.7.0.0/24"@ =~= crate::ip::ipv4_text(0x0A070000) + "/"@ + crate::text::decimal(24));
    assert("10.7.0.1/24"@ =~= crate::ip::ipv4_text(0x0A070001) + "/"@ + crate::text::decimal(24));
}

/// The first client of a new server gets the address behind the server's own: 10.7.0.2.
pub proof fn law_the_first_client_comes_next(c: ServerModel, host: Seq<char>)
    requires
        crate::server::is_fresh(c, host),
    ensures
        crate::server::allocation(c) == Ok::<nat, Seq<char>>(0x0A070002),
{
    lemma_usual_texts();
    reveal_with_fuel(crate::server::block, 9);
    assert(crate::server::block(8) == 256);
    crate::net::split::lemma_network(0x0A070000, 24);
    assert(crate::server::cidr_value(c.subnet) == Some((0x0A070000nat, 24nat)));
    lemma_host_with_prefix(0x0A070001, 24);
    assert(crate::server::taken(c, 0x0A070001));
    assert(!crate::server::taken(c, 0x0A070002));
    reveal_with_fuel(crate::server::first_free, 3);
}

/// The address of an entry with a prefix length is the one before the slash.
proof fn lemma_host_with_prefix(n: nat, prefix: nat)
    requires
        n <= u32::MAX,
    ensures
        crate::server::host_value(
            crate::ip::ipv4_text(n) + "/"@ + crate::text::decimal(prefix),
        ) == Some(n),
{
    reveal_strlit("/");
    let host = crate::ip::ipv4_text(n);
    let tail = crate::text::decimal(prefix);
    assert("/"@ =~= seq!['/']);
    crate::text::lemma_split_add(host, tail, '/');
    crate::net::split::lemma_host_text(n);
    crate::net::split::lemma_no_slash(n);
    crate::text::lemma_split_whole(host, '/');
    let s = host + "/"@ + tail;
    assert(crate::text::split_at_each(s, '/')[0] == host);
    assert(crate::text::split_at_each(host, '/')[0] == host);
}

/// A subnet of more than one address gives out all its addresses but the lowest, which names the
/// network, and the highest, which reaches all its hosts.
pub proof fn law_hosts_are_inside_the_subnet(addr: nat, prefix: nat, n: nat)
    requires
        addr <= u32::MAX,
        prefix < 32,
    ensures
        ({
            let size = crate::server::block((32 - prefix) as nat);
            let subnet = crate::ip::ipv4_text(addr) + "/"@ + crate::text::decimal(prefix);
            let (net, bits) = crate::server::cidr_value(subnet)->0;
            let (first, last) = crate::server::host_range(net, bits);
            &&& crate::server::cidr_value(subnet) is Some && bits == prefix
            &&& net <= addr < net + size
            &&& (first <= n <= last) <==> (net < n && n + 1 < net + size)
        }),
{
    crate::net::split::lemma_network(addr, prefix);
    crate::server::lemma_block((32 - prefix) as nat);
    crate::server::lemma_network_fits(addr, (32 - prefix) as nat);
    let size = crate::server::block((32 - prefix) as nat);
    assert(0 <= addr % size < size) by (nonlinear_arith)
        requires
            size > 0,
    ;
}

/// Each bit less of a prefix doubles a network; one of 24 bits has 256 addresses, one of 32 has
/// one, and one of 0 has all.
pub proof fn law_networks_double(bits: nat)
    ensures
        crate::server::block(bits + 1) == 2 * crate::server::block(bits),
        crate::server::block(0) == 1,
        crate::server::block(8) == 256,
        crate::server::block(32) == 0x1_0000_0000,
{
    reveal_with_fuel(crate::server::block, 34);
    crate::server::lemma_block(32);
}

/// No client gets an address that the server or another client has, whatever form its entry has.
pub proof fn law_nobody_shares_an_address(cfg: ServerModel)
    requires
        crate::server::allocation(cfg) is Ok,
    ensures
        ({
            let n = crate::server::allocation(cfg)->Ok_0;
            &&& crate::server::host_value(cfg.address) != Some(n)
            &&& forall|i: int|
                0 <= i < cfg.peers.len() ==> crate::server::host_value(
                    (#[trigger] cfg.peers[i]).assigned_ip,
                ) != Some(n)
        }),
{
    crate::server::laws::law_lowest_free_address(cfg);
    let n = crate::server::allocation(cfg)->Ok_0;
    assert(!crate::server::taken(cfg, n));
}

/// Where no address can be given, it is said why, with the subnet.
pub proof fn law_a_full_subnet_is_said(cfg: ServerModel)
    requires
        crate::server::allocation(cfg) is Err,
    ensures
        crate::server::cidr_value(cfg.subnet) is None ==> crate::server::allocation(cfg)->Err_0
            == "invalid subnet: "@ + cfg.subnet,
        crate::server::cidr_value(cfg.subnet) is Some ==> crate::server::allocation(cfg)->Err_0
            == "subnet "@ + cfg.subnet + " is full — no free host IPs"@,
{
}

// ── configurations ──────────────────────────────────────────────────────────

/// What a client is handed, when it is read: the client's own key, its one address, the server's
/// DNS servers; and as the one peer the server, by the server's public key, at the server's host
/// and port, with the client's routes.
pub proof fn law_clients_are_handed_their_own(name: Seq<char>, cfg: ServerModel, p: ServerPeerModel)
    requires
        crate::server::conf::clean_handout(cfg, p),
    ensures
        ({
            let read = crate::config::profile::parsed_conf(
                name,
                crate::server::conf::handout_text(cfg, p),
            );
            let q = read->Ok_0;
            &&& read is Ok
            &&& q.interface.private_key == (if p.private_key is Some {
                p.private_key->0
            } else {
                Seq::empty()
            })
            &&& q.interface.address == seq![p.assigned_ip + "/32"@]
            &&& q.interface.dns == cfg.dns
            &&& q.interface.listen_port is None && q.interface.mtu is None
            &&& q.peers.len() == 1
            &&& q.peers[0].public_key == cfg.public_key
            &&& q.peers[0].preshared_key == p.preshared_key
            &&& q.peers[0].endpoint == Some(
                cfg.endpoint_host + ":"@ + crate::text::decimal(cfg.listen_port as nat),
            )
            &&& q.peers[0].allowed_ips == crate::config::profile::list_items(p.client_allowed_ips)
        }),
{
    crate::server::conf::law_client_conf_is_a_profile(name, cfg, p);
}

/// What the server runs with, when it is read: its own key, address and port, and for each client,
/// in their order, a peer with the client's keys and a route to the client's address alone.
pub proof fn law_servers_route_to_each_client(name: Seq<char>, cfg: ServerModel, i: int)
    requires
        crate::config::round_trip::clean_profile(crate::server::conf::server_profile(name, cfg)),
        0 <= i < cfg.peers.len(),
    ensures
        ({
            let read = crate::config::profile::parsed_conf(
                name,
                crate::server::conf::server_text(cfg),
            );
            let q = read->Ok_0;
            &&& read is Ok
            &&& q.interface.private_key == cfg.private_key
            &&& q.interface.address == seq![cfg.address]
            &&& q.interface.listen_port == Some(cfg.listen_port)
            &&& q.peers.len() == cfg.peers.len()
            &&& q.peers[i].public_key == cfg.peers[i].public_key
            &&& q.peers[i].preshared_key == cfg.peers[i].preshared_key
            &&& q.peers[i].allowed_ips == seq![cfg.peers[i].assigned_ip + "/32"@]
            &&& q.peers[i].endpoint is None
        }),
{
    crate::server::conf::law_server_conf_is_a_profile(name, cfg);
}

/// A client's private key is not in what the server runs with: it is the same whatever private
/// keys, names and routes the clients have.
pub proof fn law_the_server_does_not_run_with_private_keys(
    cfg: ServerModel,
    other: ServerModel,
)
    requires
        cfg.private_key == other.private_key,
        cfg.address == other.address,
        cfg.listen_port == other.listen_port,
        cfg.peers.len() == other.peers.len(),
        forall|i: int|
            0 <= i < cfg.peers.len() ==> (#[trigger] cfg.peers[i]).public_key
                == other.peers[i].public_key && cfg.peers[i].preshared_key
                == other.peers[i].preshared_key && cfg.peers[i].assigned_ip
                == other.peers[i].assigned_ip,
    ensures
        crate::server::conf::server_text(cfg) == crate::server::conf::server_text(other),
{
    lemma_same_rows(cfg.peers, other.peers);
}

/// The lines of clients are made of their public and shared keys and addresses alone.
proof fn lemma_same_rows(a: Seq<ServerPeerModel>, b: Seq<ServerPeerModel>)
    requires
        a.len() == b.len(),
        forall|i: int|
            0 <= i < a.len() ==> (#[trigger] a[i]).public_key == b[i].public_key
                && a[i].preshared_key == b[i].preshared_key && a[i].assigned_ip == b[i].assigned_ip,
    ensures
        crate::server::conf::clients_rows(a) == crate::server::conf::clients_rows(b),
    decreases a.len(),
{
    if a.len() > 0 {
        let x = a.drop_last();
        let y = b.drop_last();
        assert forall|i: int| 0 <= i < x.len() implies (#[trigger] x[i]).public_key
            == y[i].public_key && x[i].preshared_key == y[i].preshared_key && x[i].assigned_ip
            == y[i].assigned_ip by {
            assert(x[i] == a[i] && y[i] == b[i]);
        }
        lemma_same_rows(x, y);
        let n = a.len() - 1;
        assert(a[n].public_key == b[n].public_key);
    }
}

// ── clients at work ─────────────────────────────────────────────────────────

/// A client's figures are shown under its name; of clients with one key, under the last one's.
/// The figures themselves are those that were read.
pub proof fn law_figures_are_shown_under_the_name(
    peers: Seq<ServerPeerModel>,
    i: int,
    p: PeerStatusModel,
)
    requires
        0 <= i < peers.len(),
        peers[i].public_key == p.public_key,
        forall|j: int| i < j < peers.len() ==> (#[trigger] peers[j]).public_key != p.public_key,
    ensures
        crate::server::manage::with_name(peers, p).name == peers[i].name,
        crate::server::manage::with_name(peers, p).public_key == p.public_key,
        crate::server::manage::with_name(peers, p).last_handshake == p.last_handshake,
        crate::server::manage::with_name(peers, p).rx_bytes == p.rx_bytes,
        crate::server::manage::with_name(peers, p).tx_bytes == p.tx_bytes,
    decreases peers.len(),
{
    if i < peers.len() - 1 {
        let front = peers.drop_last();
        assert(peers[peers.len() - 1].public_key != p.public_key);
        assert forall|j: int| i < j < front.len() implies (#[trigger] front[j]).public_key
            != p.public_key by {
            assert(front[j] == peers[j]);
        }
        law_figures_are_shown_under_the_name(front, i, p);
    }
}

/// A client that is not known is shown by the first 12 characters of its key and an ellipsis.
pub proof fn law_unknown_clients_are_shown_by_their_keys(
    peers: Seq<ServerPeerModel>,
    p: PeerStatusModel,
)
    requires
        forall|j: int| 0 <= j < peers.len() ==> (#[trigger] peers[j]).public_key != p.public_key,
    ensures
        p.public_key.len() >= 12 ==> crate::server::manage::with_name(peers, p).name
            == p.public_key.take(12) + "…"@,
        p.public_key.len() < 12 ==> crate::server::manage::with_name(peers, p).name == p.public_key
            + "…"@,
        crate::server::manage::with_name(peers, p).rx_bytes == p.rx_bytes,
        crate::server::manage::with_name(peers, p).tx_bytes == p.tx_bytes,
    decreases peers.len(),
{
    if peers.len() > 0 {
        let front = peers.drop_last();
        assert forall|j: int| 0 <= j < front.len() implies (#[trigger] front[j]).public_key
            != p.public_key by {
            assert(front[j] == peers[j]);
        }
        assert(peers[peers.len() - 1].public_key != p.public_key);
        law_unknown_clients_are_shown_by_their_keys(front, p);
    }
    if p.public_key.len() == 12 {
        assert(p.public_key.take(12) =~= p.public_key);
    }
}

/// Figures come from what was printed for the server's interface; where nothing could be printed,
/// or nothing was, there are none.
pub proof fn law_no_output_no_figures(now: u64)
    ensures
        crate::server::manage::dump_rows(None, now).len() == 0,
        forall|t: Seq<char>| #[trigger]
            crate::text::trimmed(t).len() == 0 ==> crate::server::manage::dump_rows(
                Some(t),
                now,
            ).len() == 0,
{
}

/// The interface towards the internet is the word behind `dev` in the first line that begins with
/// `default`, whatever stands in the lines before and behind it.
pub proof fn law_the_default_route_names_the_interface(rows: Seq<Seq<char>>, i: int)
    requires
        0 <= i < rows.len(),
        "default"@.is_prefix_of(crate::text::trim_start(rows[i])),
        forall|j: int|
            0 <= j < i ==> !"default"@.is_prefix_of(
                crate::text::trim_start(#[trigger] rows[j]),
            ),
    ensures
        crate::server::manage::default_row(rows) == Some(rows[i]),
    decreases rows.len(),
{
    if i > 0 {
        assert(!"default"@.is_prefix_of(crate::text::trim_start(rows[0])));
        let rest = rows.skip(1);
        assert forall|j: int| 0 <= j < i - 1 implies !"default"@.is_prefix_of(
            crate::text::trim_start(#[trigger] rest[j]),
        ) by {
            assert(rest[j] == rows[j + 1]);
        }
        law_the_default_route_names_the_interface(rest, i - 1);
    }
}

/// The word behind the first `dev` is taken; there is none without `dev`, and none where `dev`
/// stands last.
pub proof fn law_the_interface_stands_behind_dev(
    before: Seq<Seq<char>>,
    name: Seq<char>,
    behind: Seq<Seq<char>>,
)
    requires
        forall|j: int| 0 <= j < before.len() ==> (#[trigger] before[j]) != "dev"@,
    ensures
        crate::server::manage::word_after_dev(before + seq!["dev"@, name] + behind) == Some(name),
        crate::server::manage::word_after_dev(before) is None,
        crate::server::manage::word_after_dev(before + seq!["dev"@]) is None,
    decreases before.len(),
{
    let all = before + seq!["dev"@, name] + behind;
    let short = before + seq!["dev"@];
    if before.len() > 0 {
        let rest = before.skip(1);
        assert(before[0] != "dev"@);
        assert forall|j: int| 0 <= j < rest.len() implies (#[trigger] rest[j]) != "dev"@ by {
            assert(rest[j] == before[j + 1]);
        }
        law_the_interface_stands_behind_dev(rest, name, behind);
        assert(all.skip(1) =~= rest + seq!["dev"@, name] + behind);
        assert(short.skip(1) =~= rest + seq!["dev"@]);
        assert(all[0] == before[0] && short[0] == before[0]);
    } else {
        assert(all[0] == "dev"@ && all[1] == name);
        assert(short[0] == "dev"@);
    }
}

/// Without a default route there is no interface towards the internet; with one it is the word
/// behind `dev` in that line.
pub proof fn law_egress_is_of_the_default_route(output: Seq<char>, i: int)
    requires
        0 <= i < crate::text::lines_of(output).len(),
        "default"@.is_prefix_of(crate::text::trim_start(crate::text::lines_of(output)[i])),
        forall|j: int|
            0 <= j < i ==> !"default"@.is_prefix_of(
                crate::text::trim_start(#[trigger] crate::text::lines_of(output)[j]),
            ),
    ensures
        crate::server::manage::egress(output) == crate::server::manage::word_after_dev(
            crate::text::words_of(crate::text::lines_of(output)[i]),
        ),
{
    law_the_default_route_names_the_interface(crate::text::lines_of(output), i);
}

// ── the server itself ───────────────────────────────────────────────────────

/// A client that was added comes last, has a pair of keys of its own, the address that was free,
/// no shared key, and routes everything through the tunnel. Nobody else changes, and neither does
/// the server; where no address is free, nothing changes at all.
pub proof fn law_a_client_is_added_last(
    server: &mut ServerConfig,
    name: &str,
    r: AppResult<&ServerPeer>,
)
    requires
        call_ensures(ServerConfig::add_peer, (server, name), r),
    ensures
        ({
            let was = old(server)@;
            let now = final(server)@;
            let new = now.peers.last();
            &&& r is Ok <==> crate::server::allocation(was) is Ok
            &&& r is Err ==> now == was
            &&& r is Ok ==> {
                &&& now.peers.len() == was.peers.len() + 1 && now.peers.drop_last() == was.peers
                &&& new == r->Ok_0@
                &&& new.name == name@
                &&& new.assigned_ip == crate::ip::ipv4_text(crate::server::allocation(was)->Ok_0)
                &&& new.preshared_key is None
                &&& new.client_allowed_ips == "0.0.0.0/0"@
                &&& new.private_key is Some
                &&& crate::config::keygen::derived_public(new.private_key->0) == Ok::<
                    _,
                    Seq<char>,
                >(new.public_key)
                &&& now.private_key == was.private_key && now.public_key == was.public_key
                &&& now.address == was.address && now.subnet == was.subnet
                &&& now.listen_port == was.listen_port && now.endpoint_host == was.endpoint_host
                &&& now.dns == was.dns && now.egress_iface == was.egress_iface
                &&& now.name == was.name
            }
        }),
{
    if r is Ok {
        let was = old(server)@;
        let now = final(server)@;
        assert(now.peers.drop_last() =~= was.peers);
    }
}

/// A client that is removed is gone, and the others stay as they stood.
pub proof fn law_a_client_is_removed(server: &mut ServerConfig, idx: usize, i: int)
    requires
        call_ensures(ServerConfig::remove_peer, (server, idx), ()),
        0 <= i < old(server)@.peers.len(),
    ensures
        ({
            let was = old(server)@;
            let now = final(server)@;
            &&& idx >= was.peers.len() ==> now == was
            &&& idx < was.peers.len() ==> now.peers.len() == was.peers.len() - 1
            &&& idx < was.peers.len() && i < idx ==> now.peers[i] == was.peers[i]
            &&& idx < was.peers.len() && i > idx ==> now.peers[i - 1] == was.peers[i]
            &&& now.private_key == was.private_key && now.subnet == was.subnet
            &&& now.address == was.address && now.listen_port == was.listen_port
        }),
{
}

/// The server is started by writing its configuration, the text that it runs with, and bringing it
/// up; it is stopped by taking it down.
pub proof fn law_servers_are_started_and_stopped(
    config: ServerConfig,
    text: String,
    up: (PrivCmd, PrivCmd),
    down: PrivCmd,
)
    requires
        call_ensures(ServerConfig::to_server_conf, (&config,), text),
        call_ensures(crate::server::manage::start, (&config,), up),
        call_ensures(crate::server::manage::stop, (), down),
    ensures
        up.0 is ServerWriteConf && up.0->ServerWriteConf_conf_text@ == text@,
        up.1 is ServerUp,
        down is ServerDown,
{
}

/// A server that was saved is loaded as it was; there is none before any was saved, and a file that
/// cannot be read is an error, not a missing server.
pub proof fn law_servers_are_loaded_and_saved(
    read: FileRead<ServerConfig>,
    loaded: AppResult<Option<ServerConfig>>,
    write: FileWrite,
    saved: AppResult<()>,
)
    requires
        call_ensures(ServerConfig::load, (read,), loaded),
        call_ensures(ServerConfig::save, (write,), saved),
    ensures
        read is Found <==> (loaded is Ok && loaded->Ok_0 is Some),
        read is Found ==> loaded->Ok_0->0 == read->Found_0,
        read is Missing <==> (loaded is Ok && loaded->Ok_0 is None),
        loaded is Err ==> loaded->Err_0 is ProfileIo,
        saved is Ok <==> write is Written,
        saved is Err ==> saved->Err_0 is ProfileIo,
        write is Unwritten ==> saved->Err_0->ProfileIo_0@ == "failed to write "@
            + write->Unwritten_path@ + ": "@ + write->Unwritten_error@,
        read is Malformed ==> loaded->Err_0->ProfileIo_0@ == "failed to parse server.json at "@
            + read->Malformed_path@ + ": "@ + read->Malformed_error@,
        read is Unreadable ==> loaded->Err_0->ProfileIo_0@ == "failed to read "@
            + read->Unreadable_path@ + ": "@ + read->Unreadable_error@,
{
}

/// A new server goes out by the interface of the default route, where one is known.
pub proof fn law_a_new_server_knows_its_way_out(
    host: &str,
    routes: String,
    with: AppResult<ServerConfig>,
    without: AppResult<ServerConfig>,
)
    requires
        call_ensures(crate::server::change::create, (host, Some(routes)), with),
        call_ensures(crate::server::change::create, (host, None::<String>), without),
    ensures
        with is Ok && without is Ok,
        with->Ok_0@.egress_iface == crate::server::manage::egress(routes@),
        without->Ok_0@.egress_iface is None,
        with->Ok_0@.endpoint_host == host@ && with->Ok_0@.peers.len() == 0,
        with->Ok_0@.listen_port == 51820 && with->Ok_0@.subnet == "10.7.0.0/24"@,
{
}

} // verus!
