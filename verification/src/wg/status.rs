//! Live tunnel status, as `wg show <interface> dump` prints it.

use crate::error::{AppError, AppResult};
use crate::text::{decimal_text, lines, parse_unsigned, same, split};
use vstd::prelude::*;
use vstd::string::*;

verus! {

/// Live figures of one peer.
#[derive(Debug, Clone, PartialEq, Eq)]
pub struct PeerStatus {
    pub public_key: String,
    pub endpoint: Option<String>,
    /// When the last handshake was, in seconds since the epoch; `None` where there was none.
    pub last_handshake: Option<u64>,
    pub rx_bytes: u64,
    pub tx_bytes: u64,
}

/// Live figures of an interface and its peers.
#[derive(Debug, Clone, PartialEq, Eq)]
pub struct LiveStatus {
    pub interface: String,
    pub public_key: String,
    pub peers: Vec<PeerStatus>,
    /// When the figures were read, in seconds since the epoch.
    pub fetched_at: u64,
}

/// What a peer's figures say.
pub struct PeerStatusModel {
    pub public_key: Seq<char>,
    pub endpoint: Option<Seq<char>>,
    pub last_handshake: Option<u64>,
    pub rx_bytes: u64,
    pub tx_bytes: u64,
}

/// What an interface's figures say.
pub struct LiveStatusModel {
    pub interface: Seq<char>,
    pub public_key: Seq<char>,
    pub peers: Seq<PeerStatusModel>,
    pub fetched_at: u64,
}

impl View for PeerStatus {
    type V = PeerStatusModel;

    open spec fn view(&self) -> PeerStatusModel {
        PeerStatusModel {
            public_key: self.public_key@,
            endpoint: crate::config::profile::opt_view(self.endpoint),
            last_handshake: self.last_handshake,
            rx_bytes: self.rx_bytes,
            tx_bytes: self.tx_bytes,
        }
    }
}

/// What a row of peers' figures says.
pub open spec fn status_views(v: Seq<PeerStatus>) -> Seq<PeerStatusModel> {
    v.map_values(|p: PeerStatus| p@)
}

impl View for LiveStatus {
    type V = LiveStatusModel;

    open spec fn view(&self) -> LiveStatusModel {
        LiveStatusModel {
            interface: self.interface@,
            public_key: self.public_key@,
            peers: status_views(self.peers@),
            fetched_at: self.fetched_at,
        }
    }
}

/// A field of the dump; `(none)` stands for a missing value.
pub open spec fn dump_field(s: Seq<char>) -> Option<Seq<char>> {
    if s == "(none)"@ {
        None
    } else {
        Some(s)
    }
}

/// A number of the dump.
pub open spec fn dump_number(s: Seq<char>) -> Option<nat> {
    crate::text::unsigned_value(s, u64::MAX as nat)
}

/// The figures in a peer's line: public key, preshared key, endpoint, allowed networks, last
/// handshake (0 for none), bytes received, bytes sent, keepalive.
pub open spec fn dump_peer(row: Seq<char>) -> Option<PeerStatusModel> {
    let f = crate::text::split_at_each(row, '\t');
    if f.len() < 8 {
        None
    } else {
        match (dump_number(f[4]), dump_number(f[5]), dump_number(f[6])) {
            (Some(hs), Some(rx), Some(tx)) => Some(
                PeerStatusModel {
                    public_key: f[0],
                    endpoint: dump_field(f[2]),
                    last_handshake: if hs == 0 {
                        None
                    } else {
                        Some(hs as u64)
                    },
                    rx_bytes: rx as u64,
                    tx_bytes: tx as u64,
                },
            ),
            _ => None,
        }
    }
}

/// The figures in the peer lines; `None` where one of them cannot be read.
pub open spec fn dump_peers(rows: Seq<Seq<char>>) -> Option<Seq<PeerStatusModel>>
    decreases rows.len(),
{
    if rows.len() == 0 {
        Some(Seq::empty())
    } else {
        match (dump_peers(rows.drop_last()), dump_peer(rows.last())) {
            (Some(before), Some(p)) => Some(before.push(p)),
            _ => None,
        }
    }
}

/// The figures in a dump: a line for the interface, with its public key as the second field, and
/// a line for each peer.
pub open spec fn dump_status(iface: Seq<char>, dump: Seq<char>, now: u64) -> Option<
    LiveStatusModel,
> {
    let rows = crate::text::lines_of(dump);
    if rows.len() == 0 {
        None
    } else {
        let head = crate::text::split_at_each(rows[0], '\t');
        match dump_peers(rows.skip(1)) {
            Some(peers) => if head.len() >= 2 {
                Some(LiveStatusModel { interface: iface, public_key: head[1], peers, fetched_at: now })
            } else {
                None
            },
            None => None,
        }
    }
}

/// Reads a field of the dump.
fn read_field(s: &str) -> (r: Option<String>)
    ensures
        crate::config::profile::opt_view(r) == dump_field(s@),
{
    if same(s, "(none)") {
        None
    } else {
        Some(s.to_owned())
    }
}

/// Reads a peer's line.
fn read_peer(row: &str) -> (r: Option<PeerStatus>)
    ensures
        match r {
            Some(p) => dump_peer(row@) == Some(p@),
            None => dump_peer(row@) is None,
        },
{
    let f = split(row, '\t');
    let ghost fv = crate::text::slices(f@);
    assert(fv.len() == f@.len());
    if f.len() < 8 {
        return None;
    }
    proof {
        assert(fv[0] == f@[0]@ && fv[2] == f@[2]@ && fv[4] == f@[4]@ && fv[5] == f@[5]@ && fv[6]
            == f@[6]@);
    }
    match (
        parse_unsigned(f[4], u64::MAX),
        parse_unsigned(f[5], u64::MAX),
        parse_unsigned(f[6], u64::MAX),
    ) {
        (Some(hs), Some(rx), Some(tx)) => Some(
            PeerStatus {
                public_key: f[0].to_owned(),
                endpoint: read_field(f[2]),
                last_handshake: if hs == 0 {
                    None
                } else {
                    Some(hs)
                },
                rx_bytes: rx,
                tx_bytes: tx,
            },
        ),
        _ => None,
    }
}

/// Reads what `wg show <iface> dump` printed at the time `now`.
pub fn parse_wg_show_dump(iface: &str, dump: &str, now: u64) -> (r: AppResult<LiveStatus>)
    ensures
        match r {
            Ok(s) => dump_status(iface@, dump@, now) == Some(s@),
            Err(AppError::WgShowParseFailed(_)) => dump_status(iface@, dump@, now) is None,
            Err(_) => false,
        },
{
    let rows = lines(dump);
    let ghost rv = crate::text::slices(rows@);
    assert(rv.len() == rows@.len());
    if rows.len() == 0 {
        return Err(AppError::WgShowParseFailed("empty output".to_owned()));
    }
    let head = split(rows[0], '\t');
    let ghost hv = crate::text::slices(head@);
    assert(rv[0] == rows@[0]@);
    let mut peers: Vec<PeerStatus> = Vec::new();
    let ghost tail = rv.skip(1);
    let mut i: usize = 1;
    assert(status_views(peers@) =~= Seq::<PeerStatusModel>::empty());
    while i < rows.len()
        invariant
            1 <= i <= rows@.len(),
            rv == crate::text::slices(rows@),
            rv == crate::text::lines_of(dump@),
            tail == rv.skip(1),
            dump_peers(tail.take(i - 1)) == Some(status_views(peers@)),
        decreases rows@.len() - i,
    {
        proof {
            let t = tail.take(i as int);
            assert(t.drop_last() =~= tail.take(i - 1));
            assert(t.last() == rows@[i as int]@);
        }
        match read_peer(rows[i]) {
            Some(p) => {
                let ghost was = peers@;
                peers.push(p);
                assert(status_views(peers@) =~= status_views(was).push(p@));
            },
            None => {
                proof {
                    lemma_bad_peer(tail, i as int);
                }
                let mut t = "malformed peer line ".to_owned();
                t.push_str(decimal_text(i as u64).as_str());
                return Err(AppError::WgShowParseFailed(t));
            },
        }
        i += 1;
    }
    assert(tail.take(i - 1) =~= tail);
    if head.len() < 2 {
        return Err(AppError::WgShowParseFailed("malformed interface line".to_owned()));
    }
    assert(hv[1] == head@[1]@);
    Ok(
        LiveStatus {
            interface: iface.to_owned(),
            public_key: head[1].to_owned(),
            peers,
            fetched_at: now,
        },
    )
}

/// One line that cannot be read spoils the dump.
proof fn lemma_bad_peer(rows: Seq<Seq<char>>, i: int)
    requires
        1 <= i <= rows.len(),
        dump_peers(rows.take(i)) is None,
    ensures
        dump_peers(rows) is None,
    decreases rows.len(),
{
    if i < rows.len() {
        assert(rows.drop_last().take(i) =~= rows.take(i));
        lemma_bad_peer(rows.drop_last(), i);
    } else {
        assert(rows.take(i) =~= rows);
    }
}

/// Seconds from a peer's handshake to `now`; `None` where it had none, or one later than `now`.
pub open spec fn handshake_age(p: PeerStatusModel, now: u64) -> Option<u64> {
    match p.last_handshake {
        Some(hs) => if hs <= now {
            Some((now - hs) as u64)
        } else {
            None
        },
        None => None,
    }
}

/// The lesser of two ages, where there are any.
pub open spec fn lesser_age(a: Option<u64>, b: Option<u64>) -> Option<u64> {
    match (a, b) {
        (Some(x), Some(y)) => if y < x {
            Some(y)
        } else {
            Some(x)
        },
        (Some(x), None) => Some(x),
        (None, b) => b,
    }
}

/// The least age of the handshakes of some peers; `None` where none had one.
pub open spec fn latest_age(peers: Seq<PeerStatusModel>, now: u64) -> Option<u64>
    decreases peers.len(),
{
    if peers.len() == 0 {
        None
    } else {
        lesser_age(latest_age(peers.drop_last(), now), handshake_age(peers.last(), now))
    }
}

/// The least age is the age of some peer's handshake and at most the age of any; there is none
/// exactly where no peer has one.
pub proof fn law_latest_age(peers: Seq<PeerStatusModel>, now: u64)
    ensures
        match latest_age(peers, now) {
            Some(age) => {
                &&& exists|i: int|
                    0 <= i < peers.len() && handshake_age(#[trigger] peers[i], now) == Some(age)
                &&& forall|i: int|
                    0 <= i < peers.len() ==> (handshake_age(#[trigger] peers[i], now) matches Some(
                        a,
                    ) ==> age <= a)
            },
            None => forall|i: int|
                0 <= i < peers.len() ==> handshake_age(#[trigger] peers[i], now) is None,
        },
    decreases peers.len(),
{
    if peers.len() > 0 {
        let front = peers.drop_last();
        law_latest_age(front, now);
        assert forall|i: int| 0 <= i < peers.len() implies (i < front.len() && #[trigger] peers[i]
            == front[i]) || (i == front.len() && peers[i] == peers.last()) by {}
        if latest_age(front, now) is Some {
            let i = choose|i: int|
                0 <= i < front.len() && handshake_age(#[trigger] front[i], now) == latest_age(
                    front,
                    now,
                );
            assert(peers[i] == front[i]);
        }
        assert(peers[peers.len() - 1] == peers.last());
    }
}

/// Seconds since the most recent handshake of any peer; `None` where no peer had one. Handshakes
/// later than `now` do not count.
pub fn latest_handshake_age_secs(status: &LiveStatus, now: u64) -> (r: Option<u64>)
    ensures
        r == latest_age(status@.peers, now),
{
    let ghost pv = status@.peers;
    let mut best: Option<u64> = None;
    let mut i: usize = 0;
    while i < status.peers.len()
        invariant
            i <= status.peers@.len(),
            pv == status_views(status.peers@),
            best == latest_age(pv.take(i as int), now),
        decreases status.peers@.len() - i,
    {
        assert(pv[i as int] == status.peers@[i as int]@);
        assert(pv.take(i as int + 1).drop_last() =~= pv.take(i as int));
        if let Some(hs) = status.peers[i].last_handshake {
            if hs <= now {
                let age: u64 = now - hs;
                best = match best {
                    Some(b) => if age < b {
                        Some(age)
                    } else {
                        Some(b)
                    },
                    None => Some(age),
                };
            }
        }
        i += 1;
    }
    assert(pv.take(i as int) =~= pv);
    best
}

} // verus!
