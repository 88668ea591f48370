//! What holds of the addresses that clients are given.

use crate::server::{ServerModel, ServerPeerModel};
use vstd::prelude::*;

verus! {

/// The lowest free address is free and in range, and all below it are taken; there is none only
/// where all are taken.
proof fn lemma_first_free(cfg: ServerModel, n: int, last: int)
    requires
        n >= 0,
    ensures
        match crate::server::first_free(cfg, n, last) {
            Some(m) => {
                &&& n <= m <= last
                &&& !crate::server::taken(cfg, m)
                &&& forall|k: nat| n <= k < m ==> #[trigger] crate::server::taken(cfg, k)
            },
            None => forall|k: nat| n <= k <= last ==> #[trigger] crate::server::taken(cfg, k),
        },
    decreases last - n + 1,
{
    if n <= last && crate::server::taken(cfg, n as nat) {
        lemma_first_free(cfg, n + 1, last);
    }
}

/// A new client gets the lowest host address of the subnet that neither the server nor another
/// client has; there is none to give only where all of them are taken.
pub proof fn law_lowest_free_address(cfg: ServerModel)
    requires
        crate::server::cidr_value(cfg.subnet) is Some,
    ensures
        ({
            let (net, prefix) = crate::server::cidr_value(cfg.subnet)->0;
            let (first, last) = crate::server::host_range(net, prefix);
            match crate::server::allocation(cfg) {
                Ok(n) => {
                    &&& first <= n <= last
                    &&& !crate::server::taken(cfg, n)
                    &&& forall|k: nat| first <= k < n ==> #[trigger] crate::server::taken(cfg, k)
                },
                Err(_) => forall|k: nat|
                    first <= k <= last ==> #[trigger] crate::server::taken(cfg, k),
            }
        }),
{
    let (net, prefix) = crate::server::cidr_value(cfg.subnet)->0;
    let (first, last) = crate::server::host_range(net, prefix);
    lemma_first_free(cfg, first, last);
}

/// Whether no two clients have one address, and none has the server's.
pub open spec fn distinct_hosts(cfg: ServerModel) -> bool {
    &&& forall|i: int, j: int|
        0 <= i < j < cfg.peers.len() ==> !same_host(
            (#[trigger] cfg.peers[i]).assigned_ip,
            (#[trigger] cfg.peers[j]).assigned_ip,
        )
    &&& forall|i: int|
        0 <= i < cfg.peers.len() ==> !same_host(
            (#[trigger] cfg.peers[i]).assigned_ip,
            cfg.address,
        )
}

/// Whether two entries hold one address.
pub open spec fn same_host(a: Seq<char>, b: Seq<char>) -> bool {
    crate::server::host_value(a) is Some && crate::server::host_value(a)
        == crate::server::host_value(b)
}

/// Adding a client keeps the addresses of all hosts apart.
pub proof fn law_adding_keeps_hosts_apart(cfg: ServerModel, peer: ServerPeerModel)
    requires
        distinct_hosts(cfg),
        crate::server::allocation(cfg) is Ok,
        peer.assigned_ip == crate::ip::ipv4_text(crate::server::allocation(cfg)->Ok_0),
    ensures
        distinct_hosts(ServerModel { peers: cfg.peers.push(peer), ..cfg }),
{
    let n = crate::server::allocation(cfg)->Ok_0;
    law_lowest_free_address(cfg);
    crate::server::lemma_allocation_fits(cfg);
    crate::net::split::lemma_host_text(n);
    let more = ServerModel { peers: cfg.peers.push(peer), ..cfg };
    assert(crate::server::host_value(peer.assigned_ip) == Some(n));
    assert forall|i: int, j: int| 0 <= i < j < more.peers.len() implies !same_host(
        (#[trigger] more.peers[i]).assigned_ip,
        (#[trigger] more.peers[j]).assigned_ip,
    ) by {
        if j == cfg.peers.len() {
            assert(more.peers[i] == cfg.peers[i]);
            assert(!crate::server::taken(cfg, n));
        } else {
            assert(more.peers[i] == cfg.peers[i] && more.peers[j] == cfg.peers[j]);
        }
    }
    assert forall|i: int| 0 <= i < more.peers.len() implies !same_host(
        (#[trigger] more.peers[i]).assigned_ip,
        more.address,
    ) by {
        if i < cfg.peers.len() {
            assert(more.peers[i] == cfg.peers[i]);
        } else {
            assert(!crate::server::taken(cfg, n));
        }
    }
}

/// Removing a client keeps the addresses of all hosts apart, and frees its address.
pub proof fn law_removing_frees_the_address(cfg: ServerModel, idx: int)
    requires
        distinct_hosts(cfg),
        0 <= idx < cfg.peers.len(),
        crate::server::host_value(cfg.peers[idx].assigned_ip) is Some,
    ensures
        ({
            let less = ServerModel { peers: cfg.peers.remove(idx), ..cfg };
            &&& distinct_hosts(less)
            &&& !crate::server::taken(
                less,
                crate::server::host_value(cfg.peers[idx].assigned_ip)->0,
            )
        }),
{
    let less = ServerModel { peers: cfg.peers.remove(idx), ..cfg };
    let from = |i: int| if i < idx { i } else { i + 1 };
    assert forall|i: int| 0 <= i < less.peers.len() implies #[trigger] less.peers[i]
        == cfg.peers[from(i)] by {}
    assert forall|i: int, j: int| 0 <= i < j < less.peers.len() implies !same_host(
        (#[trigger] less.peers[i]).assigned_ip,
        (#[trigger] less.peers[j]).assigned_ip,
    ) by {
        assert(less.peers[i] == cfg.peers[from(i)] && less.peers[j] == cfg.peers[from(j)]);
    }
    let n = crate::server::host_value(cfg.peers[idx].assigned_ip)->0;
    assert forall|i: int| 0 <= i < less.peers.len() implies crate::server::host_value(
        (#[trigger] less.peers[i]).assigned_ip,
    ) != Some(n) by {
        let k = from(i);
        assert(less.peers[i] == cfg.peers[k]);
        if k < idx {
            assert(!same_host(cfg.peers[k].assigned_ip, cfg.peers[idx].assigned_ip));
        } else {
            assert(!same_host(cfg.peers[idx].assigned_ip, cfg.peers[k].assigned_ip));
        }
    }
    assert(!same_host(cfg.peers[idx].assigned_ip, cfg.address));
}

} // verus!
