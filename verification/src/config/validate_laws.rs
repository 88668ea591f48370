//! What holds of the mistakes found in a profile: which ones there are, and what they are said
//! to be.

use crate::config::profile::{PeerModel, ProfileModel};
use crate::config::validate::Complaint;
use vstd::prelude::*;

verus! {

/// Whether `s` is base64 for 32 bytes, up to white space around it.
pub open spec fn a_key(s: Seq<char>) -> bool {
    crate::config::keygen::base64_decode(crate::text::trimmed(s)) is Ok
        && crate::config::keygen::base64_decode(crate::text::trimmed(s))->Ok_0.len() == 32
}

/// Whether every text of a list is a network.
pub open spec fn all_networks(items: Seq<Seq<char>>) -> bool {
    forall|k: int| 0 <= k < items.len() ==> crate::ip::cidr_valid(#[trigger] items[k])
}

/// Whether a peer can be used: its key is one, the shared key is one where there is one, its
/// networks are networks, and its endpoint is one where there is one.
pub open spec fn sound_peer(q: PeerModel) -> bool {
    &&& q.public_key.len() > 0 && a_key(q.public_key)
    &&& q.preshared_key is Some ==> a_key(q.preshared_key->0)
    &&& all_networks(q.allowed_ips)
    &&& q.endpoint is Some ==> crate::config::validate::endpoint_valid(q.endpoint->0)
}

/// Nothing is wrong with a list of networks exactly when each is one; and whatever is not one is
/// complained of by name, each time in the order of the list.
proof fn lemma_networks(field: Seq<char>, items: Seq<Seq<char>>)
    ensures
        crate::config::validate::cidr_complaints(field, items).len() == 0 <==> all_networks(items),
        forall|k: int|
            0 <= k < items.len() && !crate::ip::cidr_valid(#[trigger] items[k])
                ==> crate::config::validate::cidr_complaints(field, items).contains(
                (field, "'"@ + items[k] + "' is not a valid CIDR"@),
            ),
        forall|c: Complaint| #[trigger]
            crate::config::validate::cidr_complaints(field, items).contains(c) ==> c.0 == field
                && exists|k: int|
                0 <= k < items.len() && !crate::ip::cidr_valid(#[trigger] items[k]) && c.1 == "'"@
                    + items[k] + "' is not a valid CIDR"@,
    decreases items.len(),
{
    let all = crate::config::validate::cidr_complaints(field, items);
    if items.len() > 0 {
        let front = items.drop_last();
        let before = crate::config::validate::cidr_complaints(field, front);
        lemma_networks(field, front);
        let n = items.len() - 1;
        let new = (field, "'"@ + items[n] + "' is not a valid CIDR"@);
        assert forall|k: int| 0 <= k < front.len() implies #[trigger] items[k] == front[k] by {}
        if all_networks(items) {
            assert(crate::ip::cidr_valid(items[n]));
            assert(all_networks(front)) by {
                assert forall|k: int| 0 <= k < front.len() implies crate::ip::cidr_valid(
                    #[trigger] front[k],
                ) by {
                    assert(crate::ip::cidr_valid(items[k]));
                }
            }
        }
        if all.len() == 0 {
            assert(all == before);
            assert forall|k: int| 0 <= k < items.len() implies crate::ip::cidr_valid(
                #[trigger] items[k],
            ) by {
                if k < n {
                    assert(crate::ip::cidr_valid(front[k]));
                }
            }
        }
        assert forall|k: int|
            0 <= k < items.len() && !crate::ip::cidr_valid(#[trigger] items[k]) implies all.contains(
            (field, "'"@ + items[k] + "' is not a valid CIDR"@),
        ) by {
            if k < n {
                let c = (field, "'"@ + front[k] + "' is not a valid CIDR"@);
                assert(!crate::ip::cidr_valid(front[k]));
                assert(before.contains(c));
                let m = choose|m: int| 0 <= m < before.len() && before[m] == c;
                assert(all[m] == c);
            } else {
                assert(all[before.len() as int] == new);
            }
        }
        assert forall|c: Complaint| #[trigger] all.contains(c) implies c.0 == field && exists|k: int|
            0 <= k < items.len() && !crate::ip::cidr_valid(#[trigger] items[k]) && c.1 == "'"@
                + items[k] + "' is not a valid CIDR"@ by {
            let m = choose|m: int| 0 <= m < all.len() && all[m] == c;
            if m < before.len() {
                assert(before[m] == c);
                assert(before.contains(c));
                let k = choose|k: int|
                    0 <= k < front.len() && !crate::ip::cidr_valid(#[trigger] front[k]) && c.1
                        == "'"@ + front[k] + "' is not a valid CIDR"@;
                assert(!crate::ip::cidr_valid(items[k]));
            } else {
                assert(!crate::ip::cidr_valid(items[n]));
            }
        }
    }
}

/// A peer is complained of exactly when it cannot be used.
proof fn lemma_peer(i: nat, q: PeerModel)
    ensures
        crate::config::validate::peer_complaints(i, q).len() == 0 <==> sound_peer(q),
{
    let field = crate::config::validate::peer_field(i, "AllowedIPs"@);
    lemma_networks(field, q.allowed_ips);
}

/// The peers are complained of exactly when one of them cannot be used.
proof fn lemma_peers(peers: Seq<PeerModel>)
    ensures
        crate::config::validate::peers_complaints(peers).len() == 0 <==> forall|i: int|
            0 <= i < peers.len() ==> sound_peer(#[trigger] peers[i]),
    decreases peers.len(),
{
    if peers.len() > 0 {
        let front = peers.drop_last();
        let n = peers.len() - 1;
        lemma_peers(front);
        lemma_peer(n as nat, peers[n]);
        if crate::config::validate::peers_complaints(peers).len() == 0 {
            assert forall|i: int| 0 <= i < peers.len() implies sound_peer(#[trigger] peers[i]) by {
                if i < n {
                    assert(sound_peer(front[i]));
                }
            }
        }
        if forall|i: int| 0 <= i < peers.len() ==> sound_peer(#[trigger] peers[i]) {
            assert forall|i: int| 0 <= i < front.len() implies sound_peer(#[trigger] front[i]) by {
                assert(sound_peer(peers[i]));
            }
            assert(sound_peer(peers[n]));
        }
    }
}

/// Nothing is wrong with a profile exactly when it has a private key of 32 bytes and an address,
/// all its addresses are networks, and each of its peers can be used.
pub proof fn law_a_sound_profile_has_no_mistakes(p: ProfileModel)
    ensures
        crate::config::validate::profile_complaints(p).len() == 0 <==> {
            &&& p.interface.private_key.len() > 0 && a_key(p.interface.private_key)
            &&& p.interface.address.len() > 0
            &&& all_networks(p.interface.address)
            &&& forall|i: int| 0 <= i < p.peers.len() ==> sound_peer(#[trigger] p.peers[i])
        },
{
    lemma_networks("Interface.Address"@, p.interface.address);
    lemma_peers(p.peers);
}

/// Names, MTU, DNS servers, ports and keepalives are not checked: profiles that differ in nothing
/// else have the same mistakes.
pub proof fn law_unchecked_fields_make_no_mistakes(p: ProfileModel, q: ProfileModel)
    requires
        p.interface.private_key == q.interface.private_key,
        p.interface.address == q.interface.address,
        p.peers.len() == q.peers.len(),
        forall|i: int|
            0 <= i < p.peers.len() ==> (#[trigger] p.peers[i]) == (PeerModel {
                persistent_keepalive: p.peers[i].persistent_keepalive,
                ..q.peers[i]
            }),
    ensures
        crate::config::validate::profile_complaints(p)
            == crate::config::validate::profile_complaints(q),
{
    lemma_keepalives(p.peers, q.peers);
}

/// Keepalives are not checked.
proof fn lemma_keepalives(a: Seq<PeerModel>, b: Seq<PeerModel>)
    requires
        a.len() == b.len(),
        forall|i: int|
            0 <= i < a.len() ==> (#[trigger] a[i]) == (PeerModel {
                persistent_keepalive: a[i].persistent_keepalive,
                ..b[i]
            }),
    ensures
        crate::config::validate::peers_complaints(a) == crate::config::validate::peers_complaints(b),
    decreases a.len(),
{
    if a.len() > 0 {
        let x = a.drop_last();
        let y = b.drop_last();
        assert forall|i: int| 0 <= i < x.len() implies (#[trigger] x[i]) == (PeerModel {
            persistent_keepalive: x[i].persistent_keepalive,
            ..y[i]
        }) by {
            assert(x[i] == a[i] && y[i] == b[i]);
        }
        lemma_keepalives(x, y);
        let n = a.len() - 1;
        assert(a[n] == (PeerModel { persistent_keepalive: a[n].persistent_keepalive, ..b[n] }));
    }
}

/// Whether a list of complaints has one about `field` that says `text`.
pub open spec fn says(list: Seq<Complaint>, field: Seq<char>, text: Seq<char>) -> bool {
    list.contains((field, text))
}

/// What a list holds, it holds with another before or behind it.
proof fn lemma_held(a: Seq<Complaint>, b: Seq<Complaint>, c: Complaint)
    ensures
        (a + b).contains(c) <==> a.contains(c) || b.contains(c),
{
    let s = a + b;
    if a.contains(c) {
        let m = choose|m: int| 0 <= m < a.len() && a[m] == c;
        assert(s[m] == c);
    }
    if b.contains(c) {
        let m = choose|m: int| 0 <= m < b.len() && b[m] == c;
        assert(s[a.len() + m] == c);
    }
    if s.contains(c) {
        let m = choose|m: int| 0 <= m < s.len() && s[m] == c;
        if m < a.len() {
            assert(a[m] == c);
        } else {
            assert(b[m - a.len()] == c);
        }
    }
}

/// Each mistake in the interface is said, under the name of its field.
pub proof fn law_mistakes_in_the_interface_are_said(p: ProfileModel)
    ensures
        ({
            let all = crate::config::validate::profile_complaints(p);
            let key = p.interface.private_key;
            let address = p.interface.address;
            &&& key.len() == 0 ==> says(all, "Interface.PrivateKey"@, "must not be empty"@)
            &&& key.len() > 0 && !a_key(key) ==> says(
                all,
                "Interface.PrivateKey"@,
                "must be a valid base64-encoded 32-byte key"@,
            )
            &&& address.len() == 0 ==> says(
                all,
                "Interface.Address"@,
                "at least one address/CIDR is required"@,
            )
            &&& forall|k: int|
                0 <= k < address.len() && !crate::ip::cidr_valid(#[trigger] address[k]) ==> says(
                    all,
                    "Interface.Address"@,
                    "'"@ + address[k] + "' is not a valid CIDR"@,
                )
        }),
{
    let all = crate::config::validate::profile_complaints(p);
    let key = crate::config::validate::key_complaints(
        "Interface.PrivateKey"@,
        p.interface.private_key,
    );
    let none: Seq<Complaint> = if p.interface.address.len() == 0 {
        seq![("Interface.Address"@, "at least one address/CIDR is required"@)]
    } else {
        Seq::empty()
    };
    let nets = crate::config::validate::cidr_complaints(
        "Interface.Address"@,
        p.interface.address,
    );
    let rest = crate::config::validate::peers_complaints(p.peers);
    lemma_networks("Interface.Address"@, p.interface.address);
    assert(all == key + none + nets + rest);
    assert forall|c: Complaint|
        key.contains(c) || none.contains(c) || nets.contains(c) implies all.contains(c) by {
        lemma_held(key, none, c);
        lemma_held(key + none, nets, c);
        lemma_held(key + none + nets, rest, c);
    }
    if key.len() > 0 {
        assert(key.contains(key[0]));
    }
    if none.len() > 0 {
        assert(none.contains(none[0]));
    }
}

/// What is wrong with one peer is wrong with the peers.
proof fn lemma_peer_held(peers: Seq<PeerModel>, i: int, c: Complaint)
    requires
        0 <= i < peers.len(),
        crate::config::validate::peer_complaints(i as nat, peers[i]).contains(c),
    ensures
        crate::config::validate::peers_complaints(peers).contains(c),
    decreases peers.len(),
{
    let n = peers.len() - 1;
    let front = peers.drop_last();
    if i < n {
        assert(front[i] == peers[i]);
        lemma_peer_held(front, i, c);
    }
    lemma_held(
        crate::config::validate::peers_complaints(front),
        crate::config::validate::peer_complaints(n as nat, peers[n]),
        c,
    );
}

/// Each mistake in a peer is said, under the peer's number, counted from 0, and the name of its
/// field.
pub proof fn law_mistakes_in_peers_are_said(p: ProfileModel, i: int)
    requires
        0 <= i < p.peers.len(),
    ensures
        ({
            let all = crate::config::validate::profile_complaints(p);
            let q = p.peers[i];
            let at = "Peer["@ + crate::text::decimal(i as nat) + "]."@;
            &&& q.public_key.len() == 0 ==> says(all, at + "PublicKey"@, "must not be empty"@)
            &&& q.public_key.len() > 0 && !a_key(q.public_key) ==> says(
                all,
                at + "PublicKey"@,
                "must be a valid base64-encoded 32-byte key"@,
            )
            &&& q.preshared_key is Some && !a_key(q.preshared_key->0) ==> says(
                all,
                at + "PresharedKey"@,
                "must be a valid base64-encoded 32-byte key"@,
            )
            &&& forall|k: int|
                0 <= k < q.allowed_ips.len() && !crate::ip::cidr_valid(
                    #[trigger] q.allowed_ips[k],
                ) ==> says(
                    all,
                    at + "AllowedIPs"@,
                    "'"@ + q.allowed_ips[k] + "' is not a valid CIDR"@,
                )
            &&& q.endpoint is Some && !crate::config::validate::endpoint_valid(q.endpoint->0)
                ==> says(
                all,
                at + "Endpoint"@,
                "'"@ + q.endpoint->0 + "' is not a valid host:port"@,
            )
        }),
{
    let all = crate::config::validate::profile_complaints(p);
    let q = p.peers[i];
    let n = i as nat;
    let key = crate::config::validate::key_complaints(
        crate::config::validate::peer_field(n, "PublicKey"@),
        q.public_key,
    );
    let shared: Seq<Complaint> = if q.preshared_key is Some && !crate::config::keygen::valid_key(
        q.preshared_key->0,
    ) {
        seq![
            (
                crate::config::validate::peer_field(n, "PresharedKey"@),
                "must be a valid base64-encoded 32-byte key"@,
            ),
        ]
    } else {
        Seq::empty()
    };
    let nets = crate::config::validate::cidr_complaints(
        crate::config::validate::peer_field(n, "AllowedIPs"@),
        q.allowed_ips,
    );
    let end: Seq<Complaint> = if q.endpoint is Some && !crate::config::validate::endpoint_valid(
        q.endpoint->0,
    ) {
        seq![
            (
                crate::config::validate::peer_field(n, "Endpoint"@),
                "'"@ + q.endpoint->0 + "' is not a valid host:port"@,
            ),
        ]
    } else {
        Seq::empty()
    };
    lemma_networks(crate::config::validate::peer_field(n, "AllowedIPs"@), q.allowed_ips);
    let own = crate::config::validate::peer_complaints(n, q);
    assert(own =~= key + shared + nets + end);
    let rest = crate::config::validate::peers_complaints(p.peers);
    let head = all.take(all.len() - rest.len());
    assert(all =~= head + rest);
    assert forall|c: Complaint|
        key.contains(c) || shared.contains(c) || nets.contains(c) || end.contains(
            c,
        ) implies all.contains(c) by {
        lemma_held(key, shared, c);
        lemma_held(key + shared, nets, c);
        lemma_held(key + shared + nets, end, c);
        lemma_peer_held(p.peers, i, c);
        lemma_held(head, rest, c);
    }
    if key.len() > 0 {
        assert(key.contains(key[0]));
    }
    if shared.len() > 0 {
        assert(shared.contains(shared[0]));
    }
    if end.len() > 0 {
        assert(end.contains(end[0]));
    }
}

/// A host and a port from 0 to 65535 make an endpoint. A host without a port, a port without a
/// host and a port beyond 65535 do not.
pub proof fn law_endpoints_are_hosts_with_ports(host: Seq<char>, port: nat)
    requires
        host.len() > 0 ==> host[0] != '[',
    ensures
        crate::config::validate::endpoint_valid(host + ":"@ + crate::text::decimal(port)) <==> (
        host.len() > 0 && port <= 65535),
        !host.contains(':') ==> !crate::config::validate::endpoint_valid(host),
        !crate::config::validate::endpoint_valid(host + ":"@),
{
    reveal_strlit(":");
    let d = crate::text::decimal(port);
    let s = host + ":"@ + d;
    crate::text::lemma_decimal(port);
    let n = host.len() as int;
    assert forall|j: int| n + 1 <= j < s.len() implies s[j] != ':' by {
        assert(crate::text::is_digit(d[j - n - 1]));
        assert(s[j] == d[j - n - 1]);
    }
    crate::text::lemma_cut_last_at(s, ':', n + 1);
    assert(s.take(n) =~= host);
    assert(s.skip(n + 1) =~= d);
    assert(s[0] != '[') by {
        if n > 0 {
            assert(s[0] == host[0]);
        } else {
            assert(s[0] == ':');
        }
    }
    assert(crate::text::is_digit(d[0]));
    let t = host + ":"@;
    crate::text::lemma_cut_last_at(t, ':', n + 1);
    assert(t.skip(n + 1) =~= Seq::<char>::empty());
    assert(t[0] != '[') by {
        if n > 0 {
            assert(t[0] == host[0]);
        }
    }
    if !host.contains(':') {
        assert forall|j: int| 0 <= j < host.len() implies host[j] != ':' by {
            assert(host.contains(host[j]));
        }
        crate::text::lemma_cut_last_at(host, ':', 0);
    }
}

/// An address in brackets and a port from 0 to 65535 make an endpoint; one in brackets without a
/// port does not.
pub proof fn law_addresses_in_brackets_have_ports(address: Seq<char>, port: nat)
    requires
        !address.contains(']'),
    ensures
        crate::config::validate::endpoint_valid(
            "["@ + address + "]:"@ + crate::text::decimal(port),
        ) <==> port <= 65535,
        !crate::config::validate::endpoint_valid("["@ + address + "]"@),
{
    reveal_strlit("[");
    reveal_strlit("]");
    reveal_strlit("]:");
    let d = crate::text::decimal(port);
    let p = "]:"@;
    let s = "["@ + address + p + d;
    crate::text::lemma_decimal(port);
    assert(crate::text::is_digit(d[0]));
    let n = address.len() as int + 1;
    assert forall|j: int| 0 <= j < n implies s[j] != ']' by {
        if j > 0 {
            assert(s[j] == address[j - 1]);
            assert(address.contains(address[j - 1]));
        }
    }
    assert forall|j: int| 0 <= j < n implies !#[trigger] crate::text::occurs_at(s, p, j) by {
        if crate::text::occurs_at(s, p, j) {
            assert(s.subrange(j, j + 2)[0] == s[j]);
        }
    }
    assert(s.subrange(n, n + 2) =~= p);
    assert(crate::text::occurs_at(s, p, n));
    crate::config::validate::lemma_before_text(s, p, n);
    assert(s.skip(n + 2) =~= d);
    assert forall|j: int| 0 <= j < d.len() implies !#[trigger] crate::text::occurs_at(d, p, j) by {
        if crate::text::occurs_at(d, p, j) {
            assert(d.subrange(j, j + 2)[0] == d[j]);
            assert(crate::text::is_digit(d[j]));
        }
    }
    crate::config::validate::lemma_before_text(d, p, d.len() as int);
    assert(d.take(d.len() as int) =~= d);
    assert(s[0] == '[');
    let t = "["@ + address + "]"@;
    assert(t[0] == '[');
    assert forall|j: int| 0 <= j < t.len() implies !#[trigger] crate::text::occurs_at(t, p, j) by {
        if crate::text::occurs_at(t, p, j) {
            assert(t.subrange(j, j + 2)[0] == t[j]);
            if 0 < j < n {
                assert(t[j] == address[j - 1]);
                assert(address.contains(address[j - 1]));
            }
        }
    }
    crate::config::validate::lemma_before_text(t, p, t.len() as int);
}

/// A network is an address, a slash and a prefix length that its kind of address has: at most 32
/// bits for IPv4, at most 128 for IPv6. An address alone is none.
pub proof fn law_networks_have_prefixes(address: Seq<char>, prefix: nat)
    requires
        !address.contains('/'),
        crate::text::is_trimmed(address),
        address.len() > 0,
    ensures
        ({
            let valid = crate::ip::cidr_valid(address + "/"@ + crate::text::decimal(prefix));
            &&& address.contains(':') ==> (valid <==> crate::ip::ipv6_valid(address) && prefix
                <= 128)
            &&& !address.contains(':') ==> (valid <==> crate::ip::ipv4_value(address) is Some
                && prefix <= 32)
            &&& !crate::ip::cidr_valid(address)
        }),
{
    reveal_strlit("/");
    let d = crate::text::decimal(prefix);
    let s = address + "/"@ + d;
    crate::text::lemma_decimal(prefix);
    let n = address.len() as int;
    assert forall|j: int| 0 <= j < n implies s[j] != '/' && address[j] != '/' by {
        assert(s[j] == address[j]);
        assert(address.contains(address[j]));
    }
    crate::text::lemma_find_at(s, '/', n);
    crate::text::lemma_find_at(address, '/', n);
    assert(s.take(n) =~= address);
    assert(s.skip(n + 1) =~= d);
    assert(crate::text::is_digit(d[0]));
    assert(crate::text::is_digit(d[d.len() - 1]));
    assert(s[0] == address[0] && s.last() == d[d.len() - 1]);
    crate::text::lemma_trim_keeps(s);
    crate::text::lemma_trim_keeps(address);
}

/// Four numbers from 0 to 255 with dots between them are an IPv4 address, the first number the
/// most significant; a number beyond 255 makes it none, and three numbers are none.
pub proof fn law_four_octets_make_an_address(a: nat, b: nat, c: nat, d: nat)
    ensures
        ({
            let dot = "."@;
            let three = crate::text::decimal(a) + dot + crate::text::decimal(b) + dot
                + crate::text::decimal(c);
            let four = three + dot + crate::text::decimal(d);
            &&& crate::ip::ipv4_value(four) == (if a <= 255 && b <= 255 && c <= 255 && d <= 255 {
                Some(((a * 256 + b) * 256 + c) * 256 + d)
            } else {
                None
            })
            &&& crate::ip::ipv4_value(three) is None
        }),
{
    reveal_strlit(".");
    let x = crate::text::decimal(a);
    let y = crate::text::decimal(b);
    let z = crate::text::decimal(c);
    let w = crate::text::decimal(d);
    lemma_octet(a);
    lemma_octet(b);
    lemma_octet(c);
    lemma_octet(d);
    let dot = seq!['.'];
    assert("."@ =~= dot);
    let two = x + dot + y;
    let three = two + dot + z;
    let four = three + dot + w;
    crate::text::lemma_split_add(x, y, '.');
    crate::text::lemma_split_add(two, z, '.');
    crate::text::lemma_split_add(three, w, '.');
    crate::text::lemma_split_whole(x, '.');
    crate::text::lemma_split_whole(y, '.');
    crate::text::lemma_split_whole(z, '.');
    crate::text::lemma_split_whole(w, '.');
    assert(crate::text::split_at_each(four, '.') =~= seq![x, y, z, w]);
    assert(crate::text::split_at_each(three, '.') =~= seq![x, y, z]);
}

/// The decimal form of a number up to 255 is read as that number; that of a greater one is not.
proof fn lemma_octet(n: nat)
    ensures
        crate::ip::octet_value(crate::text::decimal(n)) == (if n <= 255 {
            Some(n)
        } else {
            None
        }),
        !crate::text::decimal(n).contains('.'),
{
    let s = crate::text::decimal(n);
    crate::text::lemma_decimal(n);
    assert forall|i: int| 0 <= i < s.len() implies s[i] != '.' by {
        assert(crate::text::is_digit(s[i]));
    }
    if n <= 255 {
        reveal_with_fuel(crate::text::decimal, 4);
        assert(s.len() <= 3);
        if n >= 10 {
            assert(s.len() > 1);
            assert(s[0] == crate::text::digit(if n >= 100 { n / 100 } else { n / 10 }));
        }
    }
}

/// A name is one exactly when it has from 1 to 15 characters, each an ASCII letter or digit or one
/// of `_`, `.`, `=` and `-`.
pub proof fn law_names_are_short_and_plain(s: Seq<char>)
    ensures
        crate::config::valid_name(s) ==> 1 <= s.len() <= 15,
        crate::config::valid_name(s) ==> !s.contains('/') && !s.contains(' ') && !s.contains('\n')
            && !s.contains('\\') && !s.contains('\0') && !s.contains('\''),
        forall|c: char|
            crate::config::valid_name(seq![c]) <==> ('A' <= c <= 'Z' || 'a' <= c <= 'z' || '0' <= c
                <= '9' || "_.=-"@.contains(c)),
        s.len() == 0 ==> crate::config::name_fault(s) == "name must not be empty"@,
        s.len() > 15 ==> crate::config::name_fault(s) == "name must be at most 15 characters"@,
{
    reveal_strlit("_.=-");
    let t = "_.=-"@;
    assert(t.contains('_') && t.contains('.') && t.contains('=') && t.contains('-')) by {
        assert(t[0] == '_' && t[1] == '.' && t[2] == '=' && t[3] == '-');
    }
    assert forall|c: char|
        crate::config::valid_name(seq![c]) <==> ('A' <= c <= 'Z' || 'a' <= c <= 'z' || '0' <= c
            <= '9' || t.contains(c)) by {
        assert(seq![c][0] == c);
        if t.contains(c) {
            let k = choose|k: int| 0 <= k < t.len() && t[k] == c;
            assert(k == 0 || k == 1 || k == 2 || k == 3);
        }
        if crate::config::valid_name(seq![c]) {
            assert(crate::config::name_char(seq![c][0]));
        }
    }
}

/// Names can be put together and taken apart: a text is a name exactly when it is neither empty
/// nor too long and each of its parts is made of what names are made of.
pub proof fn law_names_are_made_of_their_characters(a: Seq<char>, b: Seq<char>)
    requires
        a.len() > 0,
        b.len() > 0,
    ensures
        crate::config::valid_name(a + b) <==> (crate::config::valid_name(a)
            && crate::config::valid_name(b) && a.len() + b.len() <= 15),
{
    let s = a + b;
    if crate::config::valid_name(s) {
        assert forall|i: int| 0 <= i < a.len() implies crate::config::name_char(
            #[trigger] a[i],
        ) by {
            assert(s[i] == a[i]);
        }
        assert forall|i: int| 0 <= i < b.len() implies crate::config::name_char(
            #[trigger] b[i],
        ) by {
            assert(s[a.len() + i] == b[i]);
        }
    }
    if crate::config::valid_name(a) && crate::config::valid_name(b) {
        assert forall|i: int| 0 <= i < s.len() implies crate::config::name_char(
            #[trigger] s[i],
        ) by {
            if i < a.len() {
                assert(s[i] == a[i]);
            } else {
                assert(s[i] == b[i - a.len()]);
            }
        }
    }
}

/// A public key is had exactly of what is base64 for 32 bytes, and white space around it does not
/// count.
pub proof fn law_public_keys_are_had_of_keys(s: Seq<char>)
    ensures
        crate::config::keygen::derived_public(s) is Ok <==> a_key(s),
        crate::config::keygen::valid_key(s) <==> a_key(s),
        a_key(s) ==> crate::config::keygen::derived_public(s)->Ok_0
            == crate::config::keygen::base64_encode(
            crate::config::keygen::x25519_public(
                crate::config::keygen::base64_decode(crate::text::trimmed(s))->Ok_0,
            ),
        ),
{
}

} // verus!
