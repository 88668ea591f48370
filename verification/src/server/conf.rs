//! The `.conf` texts made from a server configuration.

use crate::config::profile::{
    push_entry, push_list, push_text, InterfaceModel, PeerModel, ProfileModel,
};
use crate::server::{ServerConfig, ServerModel, ServerPeer, ServerPeerModel};
use crate::text::{decimal_text, push_line};
use vstd::prelude::*;
use vstd::string::*;

verus! {

/// The lines of a client in the server's `.conf`, with the blank line before them.
pub open spec fn client_rows(p: ServerPeerModel) -> Seq<Seq<char>> {
    seq![
        ""@,
        "[Peer]"@,
        crate::config::profile::conf_row("PublicKey"@, p.public_key),
    ] + crate::config::profile::text_row("PresharedKey"@, p.preshared_key) + seq![
        crate::config::profile::conf_row("AllowedIPs"@, p.assigned_ip + "/32"@),
    ]
}

/// The lines of all clients in the server's `.conf`.
pub open spec fn clients_rows(peers: Seq<ServerPeerModel>) -> Seq<Seq<char>>
    decreases peers.len(),
{
    if peers.len() == 0 {
        Seq::empty()
    } else {
        clients_rows(peers.drop_last()) + client_rows(peers.last())
    }
}

/// The lines of the server's own interface.
pub open spec fn server_head(cfg: ServerModel) -> Seq<Seq<char>> {
    seq![
        "[Interface]"@,
        crate::config::profile::conf_row("PrivateKey"@, cfg.private_key),
        crate::config::profile::conf_row("Address"@, cfg.address),
        crate::config::profile::conf_row(
            "ListenPort"@,
            crate::text::decimal(cfg.listen_port as nat),
        ),
    ]
}

/// The server's `.conf` text.
pub open spec fn server_text(cfg: ServerModel) -> Seq<char> {
    crate::text::flat(server_head(cfg) + clients_rows(cfg.peers))
}

/// The lines of the `.conf` handed to a client.
pub open spec fn handout_rows(cfg: ServerModel, p: ServerPeerModel) -> Seq<Seq<char>> {
    seq!["[Interface]"@] + crate::config::profile::text_row("PrivateKey"@, p.private_key) + seq![
        crate::config::profile::conf_row("Address"@, p.assigned_ip + "/32"@),
    ] + crate::config::profile::list_row("DNS"@, cfg.dns) + seq![
        ""@,
        "[Peer]"@,
        crate::config::profile::conf_row("PublicKey"@, cfg.public_key),
    ] + crate::config::profile::text_row("PresharedKey"@, p.preshared_key) + seq![
        crate::config::profile::conf_row(
            "Endpoint"@,
            cfg.endpoint_host + ":"@ + crate::text::decimal(cfg.listen_port as nat),
        ),
        crate::config::profile::conf_row("AllowedIPs"@, p.client_allowed_ips),
    ]
}

/// The `.conf` text handed to a client.
pub open spec fn handout_text(cfg: ServerModel, p: ServerPeerModel) -> Seq<char> {
    crate::text::flat(handout_rows(cfg, p))
}

/// The address of a client as a network of one host.
fn host_network(ip: &str) -> (r: String)
    ensures
        r@ == ip@ + "/32"@,
{
    let mut t = ip.to_owned();
    t.push_str("/32");
    t
}

/// Appends the lines of a client.
fn push_client(out: &mut String, p: &ServerPeer, Ghost(before): Ghost<Seq<Seq<char>>>)
    requires
        old(out)@ == crate::text::flat(before),
    ensures
        final(out)@ == crate::text::flat(before + client_rows(p@)),
{
    let ghost mut rows = before;
    push_line(out, "", Ghost(rows));
    proof {
        rows = rows.push(""@);
    }
    push_line(out, "[Peer]", Ghost(rows));
    proof {
        rows = rows.push("[Peer]"@);
    }
    push_entry(out, "PublicKey", p.public_key.as_str(), Ghost(rows));
    proof {
        rows = rows + seq![crate::config::profile::conf_row("PublicKey"@, p@.public_key)];
    }
    push_text(out, "PresharedKey", &p.preshared_key, Ghost(rows));
    proof {
        rows = rows + crate::config::profile::text_row("PresharedKey"@, p@.preshared_key);
    }
    push_entry(out, "AllowedIPs", host_network(p.assigned_ip.as_str()).as_str(), Ghost(rows));
    proof {
        rows = rows + seq![
            crate::config::profile::conf_row("AllowedIPs"@, p@.assigned_ip + "/32"@),
        ];
        assert(rows =~= before + client_rows(p@));
    }
}

impl ServerConfig {
    /// The server's `.conf` text: its interface, then each client behind a blank line as a route
    /// to the client's one address.
    pub fn to_server_conf(&self) -> (r: String)
        ensures
            r@ == server_text(self@),
    {
        let mut out = String::new();
        let ghost mut rows = Seq::<Seq<char>>::empty();
        assert(out@ =~= crate::text::flat(rows));
        push_line(&mut out, "[Interface]", Ghost(rows));
        proof {
            rows = rows.push("[Interface]"@);
        }
        push_entry(&mut out, "PrivateKey", self.private_key.as_str(), Ghost(rows));
        proof {
            rows = rows + seq![crate::config::profile::conf_row("PrivateKey"@, self@.private_key)];
        }
        push_entry(&mut out, "Address", self.address.as_str(), Ghost(rows));
        proof {
            rows = rows + seq![crate::config::profile::conf_row("Address"@, self@.address)];
        }
        let port = decimal_text(self.listen_port as u64);
        push_entry(&mut out, "ListenPort", port.as_str(), Ghost(rows));
        proof {
            rows = rows + seq![crate::config::profile::conf_row("ListenPort"@, port@)];
            assert(rows =~= server_head(self@));
        }
        let ghost head = rows;
        let ghost pv = self@.peers;
        let mut i: usize = 0;
        assert(head + clients_rows(pv.take(0)) =~= head);
        while i < self.peers.len()
            invariant
                i <= self.peers@.len(),
                pv == crate::server::server_peer_views(self.peers@),
                out@ == crate::text::flat(head + clients_rows(pv.take(i as int))),
            decreases self.peers@.len() - i,
        {
            let ghost before = head + clients_rows(pv.take(i as int));
            push_client(&mut out, &self.peers[i], Ghost(before));
            proof {
                let t = pv.take(i + 1);
                assert(t.drop_last() =~= pv.take(i as int));
                assert(t.last() == self.peers@[i as int]@);
                assert(before + client_rows(t.last()) =~= head + clients_rows(t));
            }
            i += 1;
        }
        assert(pv.take(i as int) =~= pv);
        out
    }

    /// The `.conf` text handed to the client `peer`: its own interface, and this server as its
    /// only peer.
    pub fn client_conf(&self, peer: &ServerPeer) -> (r: String)
        ensures
            r@ == handout_text(self@, peer@),
    {
        let mut out = String::new();
        let ghost mut rows = Seq::<Seq<char>>::empty();
        assert(out@ =~= crate::text::flat(rows));
        push_line(&mut out, "[Interface]", Ghost(rows));
        proof {
            rows = rows.push("[Interface]"@);
        }
        push_text(&mut out, "PrivateKey", &peer.private_key, Ghost(rows));
        proof {
            rows = rows + crate::config::profile::text_row("PrivateKey"@, peer@.private_key);
        }
        let address = host_network(peer.assigned_ip.as_str());
        push_entry(&mut out, "Address", address.as_str(), Ghost(rows));
        proof {
            rows = rows + seq![crate::config::profile::conf_row("Address"@, address@)];
        }
        push_list(&mut out, "DNS", &self.dns, Ghost(rows));
        proof {
            rows = rows + crate::config::profile::list_row("DNS"@, self@.dns);
        }
        push_line(&mut out, "", Ghost(rows));
        proof {
            rows = rows.push(""@);
        }
        push_line(&mut out, "[Peer]", Ghost(rows));
        proof {
            rows = rows.push("[Peer]"@);
        }
        push_entry(&mut out, "PublicKey", self.public_key.as_str(), Ghost(rows));
        proof {
            rows = rows + seq![crate::config::profile::conf_row("PublicKey"@, self@.public_key)];
        }
        push_text(&mut out, "PresharedKey", &peer.preshared_key, Ghost(rows));
        proof {
            rows = rows + crate::config::profile::text_row("PresharedKey"@, peer@.preshared_key);
        }
        let mut endpoint = self.endpoint_host.clone();
        endpoint.push_str(":");
        endpoint.push_str(decimal_text(self.listen_port as u64).as_str());
        push_entry(&mut out, "Endpoint", endpoint.as_str(), Ghost(rows));
        proof {
            rows = rows + seq![crate::config::profile::conf_row("Endpoint"@, endpoint@)];
        }
        push_entry(&mut out, "AllowedIPs", peer.client_allowed_ips.as_str(), Ghost(rows));
        proof {
            rows = rows + seq![
                crate::config::profile::conf_row("AllowedIPs"@, peer@.client_allowed_ips),
            ];
            assert(rows =~= handout_rows(self@, peer@));
        }
        out
    }
}

// ── what the texts are read as ──────────────────────────────────────────────

/// The profile that the `.conf` handed to a client describes. A private key that is not known is
/// empty.
pub open spec fn client_profile(
    name: Seq<char>,
    cfg: ServerModel,
    p: ServerPeerModel,
) -> ProfileModel {
    ProfileModel {
        name,
        interface: crate::config::round_trip::client_interface(
            p.private_key,
            p.assigned_ip + "/32"@,
            cfg.dns,
        ),
        peers: seq![
            PeerModel {
                public_key: cfg.public_key,
                preshared_key: p.preshared_key,
                endpoint: Some(
                    cfg.endpoint_host + ":"@ + crate::text::decimal(cfg.listen_port as nat),
                ),
                allowed_ips: crate::config::profile::list_items(p.client_allowed_ips),
                persistent_keepalive: None,
            },
        ],
        path: None,
    }
}

/// Whether `.conf` lines can carry all that is handed to a client.
pub open spec fn clean_handout(cfg: ServerModel, p: ServerPeerModel) -> bool {
    &&& crate::config::round_trip::clean_option(p.private_key)
    &&& crate::config::round_trip::clean_value(p.assigned_ip) && !p.assigned_ip.contains(',')
    &&& crate::config::round_trip::clean_list(cfg.dns)
    &&& crate::config::round_trip::clean_value(cfg.public_key)
    &&& crate::config::round_trip::clean_option(p.preshared_key)
    &&& crate::config::round_trip::clean_value(cfg.endpoint_host)
    &&& crate::config::round_trip::clean_value(p.client_allowed_ips)
}

/// The profile that the server's own `.conf` describes.
pub open spec fn server_profile(name: Seq<char>, cfg: ServerModel) -> ProfileModel {
    ProfileModel {
        name,
        interface: InterfaceModel {
            private_key: cfg.private_key,
            address: seq![cfg.address],
            dns: Seq::empty(),
            listen_port: Some(cfg.listen_port),
            mtu: None,
        },
        peers: cfg.peers.map_values(|p: ServerPeerModel| client_as_peer(p)),
        path: None,
    }
}

/// A client as a peer of the server.
pub open spec fn client_as_peer(p: ServerPeerModel) -> PeerModel {
    PeerModel {
        public_key: p.public_key,
        preshared_key: p.preshared_key,
        endpoint: None,
        allowed_ips: seq![p.assigned_ip + "/32"@],
        persistent_keepalive: None,
    }
}

/// The `.conf` handed to a client is a profile of its own: reading it gives the client's address
/// and key, or no key where none is known, the server's DNS servers, and the server as the one
/// peer, with the client's comma-separated routes. This holds when all texts can be carried by
/// `.conf` lines.
pub proof fn law_client_conf_is_a_profile(name: Seq<char>, cfg: ServerModel, p: ServerPeerModel)
    requires
        clean_handout(cfg, p),
    ensures
        crate::config::profile::parsed_conf(name, handout_text(cfg, p)) == Ok::<_, Seq<char>>(
            client_profile(name, cfg, p),
        ),
{
    crate::config::round_trip::lemma_host_values(
        p.assigned_ip,
        cfg.endpoint_host,
        cfg.listen_port,
    );
    let address = p.assigned_ip + "/32"@;
    let peer = PeerModel { allowed_ips: Seq::empty(), ..client_profile(name, cfg, p).peers[0] };
    crate::config::round_trip::lemma_client_text(
        name,
        p.private_key,
        address,
        cfg.dns,
        peer,
        p.client_allowed_ips,
    );
    assert(handout_rows(cfg, p) =~= crate::config::round_trip::client_interface_rows(
        p.private_key,
        address,
        cfg.dns,
    ) + crate::config::profile::peer_rows(peer) + seq![
        crate::config::profile::conf_row("AllowedIPs"@, p.client_allowed_ips),
    ]);
    assert(client_profile(name, cfg, p).peers =~= seq![
        PeerModel {
            allowed_ips: crate::config::profile::list_items(p.client_allowed_ips),
            ..peer
        },
    ]);
}

/// The lines of the clients are the lines of the same clients as peers.
proof fn lemma_clients_rows(peers: Seq<ServerPeerModel>)
    ensures
        clients_rows(peers) == crate::config::profile::peers_rows(
            peers.map_values(|p: ServerPeerModel| client_as_peer(p)),
        ),
    decreases peers.len(),
{
    let q = peers.map_values(|p: ServerPeerModel| client_as_peer(p));
    if peers.len() > 0 {
        lemma_clients_rows(peers.drop_last());
        assert(q.drop_last() =~= peers.drop_last().map_values(
            |p: ServerPeerModel| client_as_peer(p),
        ));
        let p = peers.last();
        let one = seq![p.assigned_ip + "/32"@];
        assert(crate::text::joined(one, ", "@) == p.assigned_ip + "/32"@);
        assert(client_rows(p) =~= crate::config::profile::peer_rows(client_as_peer(p)));
    }
}

/// The server's own `.conf` is a profile: reading it gives the server's key, address and port, and
/// one peer for each client with the client's one address, when all texts can be carried by
/// `.conf` lines.
pub proof fn law_server_conf_is_a_profile(name: Seq<char>, cfg: ServerModel)
    requires
        crate::config::round_trip::clean_profile(server_profile(name, cfg)),
    ensures
        crate::config::profile::parsed_conf(name, server_text(cfg)) == Ok::<_, Seq<char>>(
            server_profile(name, cfg),
        ),
{
    let q = server_profile(name, cfg);
    crate::config::round_trip::law_conf_round_trip(q);
    lemma_clients_rows(cfg.peers);
    let one = seq![cfg.address];
    assert(crate::text::joined(one, ", "@) == cfg.address);
    assert(crate::config::profile::interface_rows(q.interface) =~= server_head(cfg));
}

} // verus!
