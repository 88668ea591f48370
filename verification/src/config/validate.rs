//! Checking a profile for mistakes, and what it routes.

use crate::config::keygen::is_valid_wg_key;
use crate::config::profile::{PeerModel, PeerSection, ProfileModel, WgProfile};
use crate::ip::is_valid_cidr;
use crate::text::{decimal_text, find_text, parse_u16, rsplit_once, same, trim};
use vstd::prelude::*;
use vstd::string::*;

verus! {

/// A field and what is wrong with it.
pub type Complaint = (Seq<char>, Seq<char>);

/// The characters behind a row of complaints.
pub open spec fn complaints(v: Seq<(String, String)>) -> Seq<Complaint> {
    v.map_values(|e: (String, String)| (e.0@, e.1@))
}

/// The part of `s` before the first `p` in it; all of `s` where there is none.
pub open spec fn before_text(s: Seq<char>, p: Seq<char>) -> Seq<char>
    decreases s.len(),
{
    if s.len() == 0 || crate::text::occurs_at(s, p, 0) {
        Seq::empty()
    } else {
        seq![s[0]] + before_text(s.skip(1), p)
    }
}

/// Whether a port number can be read from `s`.
pub open spec fn is_port(s: Seq<char>) -> bool {
    crate::text::unsigned_value(s, u16::MAX as nat) is Some
}

/// Whether `ep` is `host:port`, or `[address]:port` where it begins with a bracket. Of the text
/// behind the first `]:` only what stands before the next one counts.
pub open spec fn endpoint_valid(ep: Seq<char>) -> bool {
    if ep.len() > 0 && ep[0] == '[' {
        let head = before_text(ep, "]:"@);
        head.len() < ep.len() && is_port(before_text(ep.skip(head.len() as int + 2), "]:"@))
    } else {
        match crate::text::cut_last(ep, ':') {
            Some((host, port)) => is_port(port) && host.len() > 0,
            None => false,
        }
    }
}

/// What is wrong with a key that must be there.
pub open spec fn key_complaints(field: Seq<char>, key: Seq<char>) -> Seq<Complaint> {
    if key.len() == 0 {
        seq![(field, "must not be empty"@)]
    } else if !crate::config::keygen::valid_key(key) {
        seq![(field, "must be a valid base64-encoded 32-byte key"@)]
    } else {
        Seq::empty()
    }
}

/// What is wrong with a list of networks.
pub open spec fn cidr_complaints(field: Seq<char>, items: Seq<Seq<char>>) -> Seq<Complaint>
    decreases items.len(),
{
    if items.len() == 0 {
        Seq::empty()
    } else {
        let before = cidr_complaints(field, items.drop_last());
        let item = items.last();
        if crate::ip::cidr_valid(item) {
            before
        } else {
            before.push((field, "'"@ + item + "' is not a valid CIDR"@))
        }
    }
}

/// The name of a field of peer number `i`.
pub open spec fn peer_field(i: nat, field: Seq<char>) -> Seq<char> {
    "Peer["@ + crate::text::decimal(i) + "]."@ + field
}

/// What is wrong with peer number `i`.
pub open spec fn peer_complaints(i: nat, p: PeerModel) -> Seq<Complaint> {
    key_complaints(peer_field(i, "PublicKey"@), p.public_key) + (match p.preshared_key {
        Some(k) => if crate::config::keygen::valid_key(k) {
            Seq::empty()
        } else {
            seq![
                (
                    peer_field(i, "PresharedKey"@),
                    "must be a valid base64-encoded 32-byte key"@,
                ),
            ]
        },
        None => Seq::empty(),
    }) + cidr_complaints(peer_field(i, "AllowedIPs"@), p.allowed_ips) + (match p.endpoint {
        Some(ep) => if endpoint_valid(ep) {
            Seq::empty()
        } else {
            seq![(peer_field(i, "Endpoint"@), "'"@ + ep + "' is not a valid host:port"@)]
        },
        None => Seq::empty(),
    })
}

/// What is wrong with the peers, in their order.
pub open spec fn peers_complaints(peers: Seq<PeerModel>) -> Seq<Complaint>
    decreases peers.len(),
{
    if peers.len() == 0 {
        Seq::empty()
    } else {
        peers_complaints(peers.drop_last()) + peer_complaints(
            (peers.len() - 1) as nat,
            peers.last(),
        )
    }
}

/// What is wrong with a profile.
pub open spec fn profile_complaints(p: ProfileModel) -> Seq<Complaint> {
    key_complaints("Interface.PrivateKey"@, p.interface.private_key) + (
    if p.interface.address.len() == 0 {
        seq![("Interface.Address"@, "at least one address/CIDR is required"@)]
    } else {
        Seq::empty()
    }) + cidr_complaints("Interface.Address"@, p.interface.address) + peers_complaints(p.peers)
}

/// What `before_text` is, by the first position of the text looked for.
pub proof fn lemma_before_text(s: Seq<char>, p: Seq<char>, i: int)
    requires
        p.len() > 0,
        0 <= i <= s.len(),
        forall|j: int| 0 <= j < i ==> !#[trigger] crate::text::occurs_at(s, p, j),
        i < s.len() ==> crate::text::occurs_at(s, p, i),
    ensures
        before_text(s, p) == s.take(i),
    decreases s.len(),
{
    if i == 0 {
        assert(s.take(0) =~= Seq::<char>::empty());
    } else {
        assert(!crate::text::occurs_at(s, p, 0));
        let t = s.skip(1);
        assert forall|j: int| 0 <= j < i - 1 implies !#[trigger] crate::text::occurs_at(t, p, j) by {
            assert(!crate::text::occurs_at(s, p, j + 1));
            if crate::text::occurs_at(t, p, j) {
                assert(t.subrange(j, j + p.len()) =~= s.subrange(j + 1, j + 1 + p.len()));
            }
        }
        if i < s.len() {
            assert(t.subrange(i - 1, i - 1 + p.len()) =~= s.subrange(i, i + p.len()));
        }
        lemma_before_text(t, p, i - 1);
        assert(seq![s[0]] + t.take(i - 1) =~= s.take(i));
    }
}

/// The length of the part of `s` before the first `p`; `None` where there is no `p`.
fn len_before(s: &str, p: &str) -> (r: Option<usize>)
    requires
        p@.len() > 0,
    ensures
        match r {
            Some(i) => before_text(s@, p@) == s@.take(i as int) && i + p@.len() <= s@.len(),
            None => before_text(s@, p@) == s@,
        },
{
    match find_text(s, p) {
        Some(i) => {
            proof {
                lemma_before_text(s@, p@, i as int);
            }
            Some(i)
        },
        None => {
            proof {
                assert forall|j: int| 0 <= j < s@.len() implies !#[trigger] crate::text::occurs_at(
                    s@,
                    p@,
                    j,
                ) by {
                    assert(!crate::text::occurs(s@, p@));
                }
                lemma_before_text(s@, p@, s@.len() as int);
                assert(s@.take(s@.len() as int) =~= s@);
            }
            None
        },
    }
}

/// Whether `ep` is an endpoint.
pub fn is_valid_endpoint(ep: &str) -> (r: bool)
    ensures
        r == endpoint_valid(ep@),
{
    if !ep.is_empty() && ep.get_char(0) == '[' {
        proof {
            reveal_strlit("]:");
        }
        match len_before(ep, "]:") {
            Some(i) => {
                let n: usize = ep.unicode_len();
                let rest = ep.substring_char(i + 2, n);
                assert(rest@ =~= ep@.skip(i + 2));
                let port = match len_before(rest, "]:") {
                    Some(k) => {
                        let port = rest.substring_char(0, k);
                        assert(port@ =~= rest@.take(k as int));
                        port
                    },
                    None => rest,
                };
                parse_u16(port).is_some()
            },
            None => false,
        }
    } else {
        match rsplit_once(ep, ':') {
            Some((host, port)) => parse_u16(port).is_some() && !host.is_empty(),
            None => false,
        }
    }
}

/// Adds one complaint.
fn complain(errors: &mut Vec<(String, String)>, field: String, detail: String)
    ensures
        complaints(final(errors)@) == complaints(old(errors)@).push((field@, detail@)),
{
    let ghost before = errors@;
    errors.push((field, detail));
    assert(complaints(errors@) =~= complaints(before).push((field@, detail@)));
}

/// A text in single quotes with more behind it.
fn quoted_with(item: &str, tail: &str) -> (r: String)
    ensures
        r@ == "'"@ + item@ + tail@,
{
    let mut t = "'".to_owned();
    t.push_str(item);
    t.push_str(tail);
    t
}

/// Adds what is wrong with a key that must be there.
fn check_key(errors: &mut Vec<(String, String)>, field: String, key: &str)
    ensures
        complaints(final(errors)@) == complaints(old(errors)@) + key_complaints(field@, key@),
{
    let ghost before = complaints(errors@);
    if key.is_empty() {
        complain(errors, field, "must not be empty".to_owned());
    } else if !is_valid_wg_key(key) {
        complain(errors, field, "must be a valid base64-encoded 32-byte key".to_owned());
    }
    assert(complaints(errors@) =~= before + key_complaints(field@, key@));
}

/// Adds what is wrong with a list of networks.
fn check_cidrs(errors: &mut Vec<(String, String)>, field: &String, items: &Vec<String>)
    ensures
        complaints(final(errors)@) == complaints(old(errors)@) + cidr_complaints(
            field@,
            crate::text::views(items@),
        ),
{
    let ghost before = complaints(errors@);
    let ghost iv = crate::text::views(items@);
    let mut i: usize = 0;
    assert(before + cidr_complaints(field@, iv.take(0)) =~= before);
    while i < items.len()
        invariant
            i <= items@.len(),
            iv == crate::text::views(items@),
            complaints(errors@) == before + cidr_complaints(field@, iv.take(i as int)),
        decreases items@.len() - i,
    {
        let item = items[i].as_str();
        let ghost t = iv.take(i + 1);
        proof {
            assert(t.drop_last() =~= iv.take(i as int));
            assert(t.last() == item@);
        }
        if !is_valid_cidr(item) {
            let detail = quoted_with(item, "' is not a valid CIDR");
            complain(errors, field.clone(), detail);
        }
        assert(complaints(errors@) =~= before + cidr_complaints(field@, t));
        i += 1;
    }
    assert(iv.take(i as int) =~= iv);
}

/// The name of a field of peer number `i`.
fn field_name(i: usize, field: &str) -> (r: String)
    ensures
        r@ == peer_field(i as nat, field@),
{
    let mut t = "Peer[".to_owned();
    t.push_str(decimal_text(i as u64).as_str());
    t.push_str("].");
    t.push_str(field);
    t
}

/// Adds what is wrong with peer number `i`.
fn check_peer(errors: &mut Vec<(String, String)>, i: usize, peer: &PeerSection)
    ensures
        complaints(final(errors)@) == complaints(old(errors)@) + peer_complaints(i as nat, peer@),
{
    let ghost before = complaints(errors@);
    check_key(errors, field_name(i, "PublicKey"), peer.public_key.as_str());
    if let Some(psk) = &peer.preshared_key {
        if !is_valid_wg_key(psk.as_str()) {
            complain(
                errors,
                field_name(i, "PresharedKey"),
                "must be a valid base64-encoded 32-byte key".to_owned(),
            );
        }
    }
    check_cidrs(errors, &field_name(i, "AllowedIPs"), &peer.allowed_ips);
    if let Some(ep) = &peer.endpoint {
        if !is_valid_endpoint(ep.as_str()) {
            let detail = quoted_with(ep.as_str(), "' is not a valid host:port");
            complain(errors, field_name(i, "Endpoint"), detail);
        }
    }
    assert(complaints(errors@) =~= before + peer_complaints(i as nat, peer@));
}

impl WgProfile {
    /// Checks the profile. Each problem is a pair of the field and what is wrong with it, in the
    /// order of the fields; an empty list means that the profile is valid.
    pub fn validate(&self) -> (r: Vec<(String, String)>)
        ensures
            complaints(r@) == profile_complaints(self@),
    {
        let mut errors: Vec<(String, String)> = Vec::new();
        assert(complaints(errors@) =~= Seq::<Complaint>::empty());
        check_key(
            &mut errors,
            "Interface.PrivateKey".to_owned(),
            self.interface.private_key.as_str(),
        );
        let ghost first = complaints(errors@);
        assert(first =~= key_complaints("Interface.PrivateKey"@, self@.interface.private_key));
        if self.interface.address.len() == 0 {
            complain(
                &mut errors,
                "Interface.Address".to_owned(),
                "at least one address/CIDR is required".to_owned(),
            );
        }
        check_cidrs(&mut errors, &"Interface.Address".to_owned(), &self.interface.address);
        let ghost head = complaints(errors@);
        let ghost pv = crate::config::profile::peer_views(self.peers@);
        assert(head + peers_complaints(Seq::empty()) =~= profile_complaints(
            ProfileModel { peers: Seq::empty(), ..self@ },
        ));
        let mut i: usize = 0;
        assert(pv.take(0) =~= Seq::<PeerModel>::empty());
        assert(head + peers_complaints(pv.take(0)) =~= head);
        while i < self.peers.len()
            invariant
                i <= self.peers@.len(),
                pv == crate::config::profile::peer_views(self.peers@),
                complaints(errors@) == head + peers_complaints(pv.take(i as int)),
            decreases self.peers@.len() - i,
        {
            check_peer(&mut errors, i, &self.peers[i]);
            proof {
                let t = pv.take(i + 1);
                assert(t.drop_last() =~= pv.take(i as int));
                assert(t.last() == self.peers@[i as int]@);
                assert(head + peers_complaints(pv.take(i as int)) + peer_complaints(
                    i as nat,
                    t.last(),
                ) =~= head + peers_complaints(t));
            }
            i += 1;
        }
        assert(pv.take(i as int) =~= pv);
        assert(complaints(errors@) =~= profile_complaints(self@));
        errors
    }
}

// ── routes ──────────────────────────────────────────────────────────────────

/// Adds to `seen` those of `items`, without white space around them, that are not in it yet.
pub open spec fn merged(seen: Seq<Seq<char>>, items: Seq<Seq<char>>) -> Seq<Seq<char>>
    decreases items.len(),
{
    if items.len() == 0 {
        seen
    } else {
        let before = merged(seen, items.drop_last());
        let item = crate::text::trimmed(items.last());
        if before.contains(item) {
            before
        } else {
            before.push(item)
        }
    }
}

/// The networks routed to any of the peers, each once, in the order of first mention.
pub open spec fn routes(peers: Seq<PeerModel>) -> Seq<Seq<char>>
    decreases peers.len(),
{
    if peers.len() == 0 {
        Seq::empty()
    } else {
        merged(routes(peers.drop_last()), peers.last().allowed_ips)
    }
}

/// Whether some peer has `network`, up to white space, among its allowed networks.
pub open spec fn routed(peers: Seq<PeerModel>, network: Seq<char>) -> bool {
    exists|i: int, j: int| #[trigger] route_at(peers, i, j, network)
}

/// Whether entry `j` of peer `i` is `network`, up to white space.
pub open spec fn route_at(peers: Seq<PeerModel>, i: int, j: int, network: Seq<char>) -> bool {
    0 <= i < peers.len() && 0 <= j < peers[i].allowed_ips.len() && crate::text::trimmed(
        peers[i].allowed_ips[j],
    ) == network
}

/// Whether `list` holds the text `item`.
fn holds(list: &Vec<String>, item: &str) -> (r: bool)
    ensures
        r == crate::text::views(list@).contains(item@),
{
    let ghost lv = crate::text::views(list@);
    let mut i: usize = 0;
    while i < list.len()
        invariant
            i <= list@.len(),
            lv == crate::text::views(list@),
            forall|j: int| 0 <= j < i ==> lv[j] != item@,
        decreases list@.len() - i,
    {
        if same(list[i].as_str(), item) {
            assert(lv[i as int] == item@);
            return true;
        }
        assert(lv[i as int] != item@);
        i += 1;
    }
    false
}

/// Adds to `networks` the items that are not in it yet.
fn merge_into(networks: &mut Vec<String>, items: &Vec<String>)
    ensures
        crate::text::views(final(networks)@) == merged(
            crate::text::views(old(networks)@),
            crate::text::views(items@),
        ),
{
    let ghost seen = crate::text::views(networks@);
    let ghost iv = crate::text::views(items@);
    let mut i: usize = 0;
    while i < items.len()
        invariant
            i <= items@.len(),
            iv == crate::text::views(items@),
            crate::text::views(networks@) == merged(seen, iv.take(i as int)),
        decreases items@.len() - i,
    {
        let item = trim(items[i].as_str());
        let ghost was = networks@;
        proof {
            let t = iv.take(i + 1);
            assert(t.drop_last() =~= iv.take(i as int));
            assert(t.last() == items@[i as int]@);
        }
        if !holds(networks, item) {
            networks.push(item.to_owned());
            assert(crate::text::views(networks@) =~= crate::text::views(was).push(item@));
        }
        i += 1;
    }
    assert(iv.take(i as int) =~= iv);
}

impl WgProfile {
    /// The networks routed through the tunnel: the allowed networks of all peers, each once.
    pub fn routed_networks(&self) -> (r: Vec<String>)
        ensures
            crate::text::views(r@) == routes(self@.peers),
    {
        let mut networks: Vec<String> = Vec::new();
        let ghost pv = self@.peers;
        let mut i: usize = 0;
        assert(crate::text::views(networks@) =~= routes(pv.take(0)));
        while i < self.peers.len()
            invariant
                i <= self.peers@.len(),
                pv == crate::config::profile::peer_views(self.peers@),
                crate::text::views(networks@) == routes(pv.take(i as int)),
            decreases self.peers@.len() - i,
        {
            merge_into(&mut networks, &self.peers[i].allowed_ips);
            proof {
                let t = pv.take(i + 1);
                assert(t.drop_last() =~= pv.take(i as int));
                assert(t.last() == self.peers@[i as int]@);
            }
            i += 1;
        }
        assert(pv.take(i as int) =~= pv);
        networks
    }

    /// Whether the profile routes all traffic: some peer has `0.0.0.0/0` or `::/0`.
    pub fn is_full_tunnel(&self) -> (r: bool)
        ensures
            r == (routed(self@.peers, "0.0.0.0/0"@) || routed(self@.peers, "::/0"@)),
    {
        let ghost pv = self@.peers;
        let mut i: usize = 0;
        while i < self.peers.len()
            invariant
                i <= self.peers@.len(),
                pv == crate::config::profile::peer_views(self.peers@),
                pv == self@.peers,
                forall|a: int, b: int| a < i ==> !#[trigger] route_at(pv, a, b, "0.0.0.0/0"@),
                forall|a: int, b: int| a < i ==> !#[trigger] route_at(pv, a, b, "::/0"@),
            decreases self.peers@.len() - i,
        {
            let items = &self.peers[i].allowed_ips;
            assert(pv[i as int].allowed_ips == crate::text::views(items@));
            let mut j: usize = 0;
            while j < items.len()
                invariant
                    i < self.peers@.len(),
                    j <= items@.len(),
                    pv == self@.peers,
                    pv.len() == self.peers@.len(),
                    pv[i as int].allowed_ips == crate::text::views(items@),
                    forall|b: int| b < j ==> !#[trigger] route_at(pv, i as int, b, "0.0.0.0/0"@),
                    forall|b: int| b < j ==> !#[trigger] route_at(pv, i as int, b, "::/0"@),
                decreases items@.len() - j,
            {
                let s = trim(items[j].as_str());
                assert(pv[i as int].allowed_ips[j as int] == items@[j as int]@);
                if same(s, "0.0.0.0/0") {
                    assert(route_at(pv, i as int, j as int, "0.0.0.0/0"@));
                    return true;
                }
                if same(s, "::/0") {
                    assert(route_at(pv, i as int, j as int, "::/0"@));
                    return true;
                }
                j += 1;
            }
            i += 1;
        }
        false
    }
}

/// Whether item `j` is `n`, up to white space.
spec fn item_at(items: Seq<Seq<char>>, j: int, n: Seq<char>) -> bool {
    0 <= j < items.len() && crate::text::trimmed(items[j]) == n
}

/// Merging keeps what was seen, adds exactly the trimmed items, and repeats nothing.
proof fn lemma_merged(seen: Seq<Seq<char>>, items: Seq<Seq<char>>)
    requires
        seen.no_duplicates(),
    ensures
        merged(seen, items).no_duplicates(),
        forall|n: Seq<char>| #[trigger]
            merged(seen, items).contains(n) ==> seen.contains(n) || exists|j: int|
                item_at(items, j, n),
        forall|n: Seq<char>| #[trigger] seen.contains(n) ==> merged(seen, items).contains(n),
        forall|n: Seq<char>, j: int| #[trigger]
            item_at(items, j, n) ==> merged(seen, items).contains(n),
    decreases items.len(),
{
    if items.len() > 0 {
        let init = items.drop_last();
        lemma_merged(seen, init);
        let before = merged(seen, init);
        let item = crate::text::trimmed(items.last());
        let after = merged(seen, items);
        assert forall|n: Seq<char>| before.contains(n) implies #[trigger] after.contains(n) by {
            let k = choose|k: int| 0 <= k < before.len() && before[k] == n;
            assert(after[k] == n);
        }
        assert(after.contains(item)) by {
            if !before.contains(item) {
                assert(after[before.len() as int] == item);
            }
        }
        assert forall|n: Seq<char>| #[trigger] after.contains(n) implies seen.contains(n)
            || exists|j: int| item_at(items, j, n) by {
            if before.contains(n) {
                if !seen.contains(n) {
                    let j = choose|j: int| item_at(init, j, n);
                    assert(item_at(items, j, n));
                }
            } else {
                let k = choose|k: int| 0 <= k < after.len() && after[k] == n;
                if k < before.len() {
                    assert(before[k] == n);
                }
                assert(item_at(items, items.len() - 1, n));
            }
        }
        assert forall|n: Seq<char>, j: int| #[trigger] item_at(items, j, n) implies after.contains(
            n,
        ) by {
            if j < init.len() {
                assert(item_at(init, j, n));
            }
        }
    }
}

/// The routed networks repeat nothing, and are exactly the networks that some peer allows.
pub proof fn law_routes_are_the_union(peers: Seq<PeerModel>)
    ensures
        routes(peers).no_duplicates(),
        forall|n: Seq<char>| #[trigger] routes(peers).contains(n) <==> routed(peers, n),
    decreases peers.len(),
{
    if peers.len() > 0 {
        let init = peers.drop_last();
        law_routes_are_the_union(init);
        let last = peers.last().allowed_ips;
        lemma_merged(routes(init), last);
        assert forall|n: Seq<char>| #[trigger]
            routes(peers).contains(n) implies routed(peers, n) by {
            if routes(init).contains(n) {
                let (i, j) = choose|i: int, j: int| #[trigger] route_at(init, i, j, n);
                assert(route_at(peers, i, j, n));
            } else {
                let j = choose|j: int| item_at(last, j, n);
                assert(route_at(peers, peers.len() - 1, j, n));
            }
        }
        assert forall|n: Seq<char>| routed(peers, n) implies #[trigger] routes(peers).contains(
            n,
        ) by {
            let (i, j) = choose|i: int, j: int| #[trigger] route_at(peers, i, j, n);
            if i < init.len() {
                assert(route_at(init, i, j, n));
                assert(routes(init).contains(n));
            } else {
                assert(item_at(last, j, n));
            }
        }
    } else {
        assert forall|n: Seq<char>| !routed(peers, n) by {
            if routed(peers, n) {
                let (i, j) = choose|i: int, j: int| #[trigger] route_at(peers, i, j, n);
            }
        }
    }
}

/// A profile routes all traffic exactly when one of the two catch-all networks is among the
/// networks it routes.
pub proof fn law_full_tunnel_is_a_route(peers: Seq<PeerModel>)
    ensures
        (routed(peers, "0.0.0.0/0"@) || routed(peers, "::/0"@)) <==> (routes(peers).contains(
            "0.0.0.0/0"@,
        ) || routes(peers).contains("::/0"@)),
{
    law_routes_are_the_union(peers);
}

} // verus!
