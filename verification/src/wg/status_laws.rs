//! What holds of the figures read from what `wg show <interface> dump` prints.

use crate::wg::status::{LiveStatusModel, PeerStatusModel};
use vstd::prelude::*;

verus! {

/// The line that `wg` prints for a peer: its fields with tabs between them.
pub open spec fn peer_line(
    key: Seq<char>,
    shared: Seq<char>,
    endpoint: Seq<char>,
    networks: Seq<char>,
    handshake: u64,
    received: u64,
    sent: u64,
    keepalive: Seq<char>,
) -> Seq<char> {
    key + seq!['\t'] + shared + seq!['\t'] + endpoint + seq!['\t'] + networks + seq!['\t']
        + crate::text::decimal(handshake as nat) + seq!['\t'] + crate::text::decimal(
        received as nat,
    ) + seq!['\t'] + crate::text::decimal(sent as nat) + seq!['\t'] + keepalive
}

/// A number has no tab in it.
proof fn lemma_number(n: u64)
    ensures
        crate::text::split_at_each(crate::text::decimal(n as nat), '\t') == seq![
            crate::text::decimal(n as nat),
        ],
        crate::wg::status::dump_number(crate::text::decimal(n as nat)) == Some(n as nat),
{
    let s = crate::text::decimal(n as nat);
    crate::text::lemma_decimal(n as nat);
    crate::text::lemma_decimal_unsigned(n as nat, u64::MAX as nat);
    assert forall|i: int| 0 <= i < s.len() implies s[i] != '\t' by {
        assert(crate::text::is_digit(s[i]));
    }
    crate::text::lemma_split_whole(s, '\t');
}

/// Each figure is read from its own field of the line. A handshake at 0 is none, and an endpoint
/// `(none)` is none.
pub proof fn law_figures_stand_in_their_fields(
    key: Seq<char>,
    shared: Seq<char>,
    endpoint: Seq<char>,
    networks: Seq<char>,
    handshake: u64,
    received: u64,
    sent: u64,
    keepalive: Seq<char>,
)
    requires
        !key.contains('\t'),
        !shared.contains('\t'),
        !endpoint.contains('\t'),
        !networks.contains('\t'),
        !keepalive.contains('\t'),
    ensures
        ({
            let read = crate::wg::status::dump_peer(
                peer_line(
                    key,
                    shared,
                    endpoint,
                    networks,
                    handshake,
                    received,
                    sent,
                    keepalive,
                ),
            );
            let p = read->0;
            &&& read is Some
            &&& p.public_key == key
            &&& p.rx_bytes == received
            &&& p.tx_bytes == sent
            &&& handshake > 0 ==> p.last_handshake == Some(handshake)
            &&& handshake == 0 ==> p.last_handshake is None
            &&& endpoint != "(none)"@ ==> p.endpoint == Some(endpoint)
            &&& endpoint == "(none)"@ ==> p.endpoint is None
        }),
{
    let t = seq!['\t'];
    let h = crate::text::decimal(handshake as nat);
    let r = crate::text::decimal(received as nat);
    let s = crate::text::decimal(sent as nat);
    lemma_number(handshake);
    lemma_number(received);
    lemma_number(sent);
    crate::text::lemma_split_whole(key, '\t');
    crate::text::lemma_split_whole(shared, '\t');
    crate::text::lemma_split_whole(endpoint, '\t');
    crate::text::lemma_split_whole(networks, '\t');
    crate::text::lemma_split_whole(keepalive, '\t');
    let a = key + t + shared;
    let b = a + t + endpoint;
    let c = b + t + networks;
    let d = c + t + h;
    let e = d + t + r;
    let f = e + t + s;
    let g = f + t + keepalive;
    crate::text::lemma_split_add(key, shared, '\t');
    crate::text::lemma_split_add(a, endpoint, '\t');
    crate::text::lemma_split_add(b, networks, '\t');
    crate::text::lemma_split_add(c, h, '\t');
    crate::text::lemma_split_add(d, r, '\t');
    crate::text::lemma_split_add(e, s, '\t');
    crate::text::lemma_split_add(f, keepalive, '\t');
    assert(crate::text::split_at_each(g, '\t') =~= seq![
        key,
        shared,
        endpoint,
        networks,
        h,
        r,
        s,
        keepalive,
    ]);
}

/// The peers of some lines, one for each.
proof fn lemma_one_for_each(rows: Seq<Seq<char>>)
    requires
        crate::wg::status::dump_peers(rows) is Some,
    ensures
        crate::wg::status::dump_peers(rows)->0.len() == rows.len(),
        forall|i: int|
            0 <= i < rows.len() ==> crate::wg::status::dump_peer(rows[i]) == Some(
                #[trigger] (crate::wg::status::dump_peers(rows)->0)[i],
            ),
    decreases rows.len(),
{
    if rows.len() > 0 {
        lemma_one_for_each(rows.drop_last());
    }
}

/// The lines can be read where each can be.
proof fn lemma_all_read(rows: Seq<Seq<char>>)
    requires
        forall|i: int|
            0 <= i < rows.len() ==> crate::wg::status::dump_peer(#[trigger] rows[i]) is Some,
    ensures
        crate::wg::status::dump_peers(rows) is Some,
    decreases rows.len(),
{
    if rows.len() > 0 {
        let front = rows.drop_last();
        assert forall|i: int| 0 <= i < front.len() implies crate::wg::status::dump_peer(
            #[trigger] front[i],
        ) is Some by {
            assert(front[i] == rows[i]);
        }
        assert(crate::wg::status::dump_peer(rows[rows.len() - 1]) is Some);
        lemma_all_read(front);
    }
}

/// A dump is a line for the interface, with its public key as the second field, and then a line
/// for each peer, in order. It can be read exactly when each of its lines can be.
pub proof fn law_dumps_have_a_line_for_each_peer(iface: Seq<char>, dump: Seq<char>, now: u64)
    ensures
        ({
            let rows = crate::text::lines_of(dump);
            let read = crate::wg::status::dump_status(iface, dump, now);
            let s: LiveStatusModel = read->0;
            &&& read is Some <==> {
                &&& rows.len() > 0
                &&& crate::text::split_at_each(rows[0], '\t').len() >= 2
                &&& forall|i: int|
                    1 <= i < rows.len() ==> crate::wg::status::dump_peer(
                        #[trigger] rows[i],
                    ) is Some
            }
            &&& read is Some ==> {
                &&& s.interface == iface
                &&& s.fetched_at == now
                &&& s.public_key == crate::text::split_at_each(rows[0], '\t')[1]
                &&& s.peers.len() == rows.len() - 1
                &&& forall|i: int|
                    0 <= i < s.peers.len() ==> crate::wg::status::dump_peer(rows[i + 1]) == Some(
                        #[trigger] s.peers[i],
                    )
            }
        }),
{
    let rows = crate::text::lines_of(dump);
    if rows.len() > 0 {
        let rest = rows.skip(1);
        if crate::wg::status::dump_peers(rest) is Some {
            lemma_one_for_each(rest);
            assert forall|i: int| 1 <= i < rows.len() implies crate::wg::status::dump_peer(
                #[trigger] rows[i],
            ) is Some by {
                let p: PeerStatusModel = (crate::wg::status::dump_peers(rest)->0)[i - 1];
                assert(rest[i - 1] == rows[i]);
            }
        }
        if forall|i: int|
            1 <= i < rows.len() ==> crate::wg::status::dump_peer(#[trigger] rows[i]) is Some {
            assert forall|i: int| 0 <= i < rest.len() implies crate::wg::status::dump_peer(
                #[trigger] rest[i],
            ) is Some by {
                assert(rest[i] == rows[i + 1]);
            }
            lemma_all_read(rest);
        }
    }
}

/// The age of a handshake and its time make up the present time; one that lies ahead has no age,
/// and does not make the others older.
pub proof fn law_ages_count_back_from_now(peers: Seq<PeerStatusModel>, i: int, now: u64)
    requires
        0 <= i < peers.len(),
        peers[i].last_handshake is Some,
        peers[i].last_handshake->0 <= now,
        forall|j: int|
            0 <= j < peers.len() && (#[trigger] peers[j]).last_handshake is Some
                ==> peers[j].last_handshake->0 <= peers[i].last_handshake->0
                || peers[j].last_handshake->0 > now,
    ensures
        crate::wg::status::latest_age(peers, now) is Some,
        crate::wg::status::latest_age(peers, now)->0 + peers[i].last_handshake->0 == now,
{
    crate::wg::status::law_latest_age(peers, now);
    assert(crate::wg::status::handshake_age(peers[i], now) is Some);
    let age = crate::wg::status::latest_age(peers, now)->0;
    let k = choose|k: int|
        0 <= k < peers.len() && crate::wg::status::handshake_age(#[trigger] peers[k], now) == Some(
            age,
        );
    assert(peers[k].last_handshake is Some);
}

/// Where no peer had a handshake up to now, there is no age.
pub proof fn law_no_handshake_no_age(peers: Seq<PeerStatusModel>, now: u64)
    requires
        forall|j: int|
            0 <= j < peers.len() && (#[trigger] peers[j]).last_handshake is Some
                ==> peers[j].last_handshake->0 > now,
    ensures
        crate::wg::status::latest_age(peers, now) is None,
{
    crate::wg::status::law_latest_age(peers, now);
    if crate::wg::status::latest_age(peers, now) is Some {
        let age = crate::wg::status::latest_age(peers, now)->0;
        let k = choose|k: int|
            0 <= k < peers.len() && crate::wg::status::handshake_age(#[trigger] peers[k], now)
                == Some(age);
        assert(peers[k].last_handshake is Some);
    }
}

} // verus!
