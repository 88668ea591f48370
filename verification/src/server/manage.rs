//! Running the server: its commands, its clients' figures, and the interface towards the internet.

use crate::net::privilege::PrivCmd;
use crate::server::{ServerConfig, ServerPeerModel};
use crate::text::{lines, same, split_whitespace, starts_with, trim};
use crate::wg::status::{parse_wg_show_dump, PeerStatus, PeerStatusModel};
use vstd::prelude::*;
use vstd::string::*;

verus! {

/// The kernel interface of the server.
pub const SERVER_IFACE: &'static str = "wg-gui-srv0";

/// Live figures of one client, with its display name.
#[derive(Debug, Clone, PartialEq, Eq)]
pub struct ServerPeerStatus {
    /// The client's name, or the beginning of its public key where it has none.
    pub name: String,
    pub public_key: String,
    /// When the last handshake was, in seconds since the epoch; `None` where there was none.
    pub last_handshake: Option<u64>,
    pub rx_bytes: u64,
    pub tx_bytes: u64,
}

/// What a client's figures say.
pub struct ServerPeerStatusModel {
    pub name: Seq<char>,
    pub public_key: Seq<char>,
    pub last_handshake: Option<u64>,
    pub rx_bytes: u64,
    pub tx_bytes: u64,
}

impl View for ServerPeerStatus {
    type V = ServerPeerStatusModel;

    open spec fn view(&self) -> ServerPeerStatusModel {
        ServerPeerStatusModel {
            name: self.name@,
            public_key: self.public_key@,
            last_handshake: self.last_handshake,
            rx_bytes: self.rx_bytes,
            tx_bytes: self.tx_bytes,
        }
    }
}

/// What a row of clients' figures says.
pub open spec fn named_views(v: Seq<ServerPeerStatus>) -> Seq<ServerPeerStatusModel> {
    v.map_values(|p: ServerPeerStatus| p@)
}

/// The name of the client with the public key `key`; of several, the last one's.
pub open spec fn configured_name(peers: Seq<ServerPeerModel>, key: Seq<char>) -> Option<Seq<char>>
    decreases peers.len(),
{
    if peers.len() == 0 {
        None
    } else if peers.last().public_key == key {
        Some(peers.last().name)
    } else {
        configured_name(peers.drop_last(), key)
    }
}

/// The first 12 characters of a public key and an ellipsis.
pub open spec fn short_key(key: Seq<char>) -> Seq<char> {
    (if key.len() > 12 {
        key.take(12)
    } else {
        key
    }) + "…"@
}

/// The name a client is shown with.
pub open spec fn shown_name(peers: Seq<ServerPeerModel>, key: Seq<char>) -> Seq<char> {
    match configured_name(peers, key) {
        Some(name) => name,
        None => short_key(key),
    }
}

/// A client's figures with its name.
pub open spec fn with_name(peers: Seq<ServerPeerModel>, p: PeerStatusModel) -> ServerPeerStatusModel {
    ServerPeerStatusModel {
        name: shown_name(peers, p.public_key),
        public_key: p.public_key,
        last_handshake: p.last_handshake,
        rx_bytes: p.rx_bytes,
        tx_bytes: p.tx_bytes,
    }
}

/// The name a client is shown with.
fn name_of(config: &ServerConfig, key: &str) -> (r: String)
    ensures
        r@ == shown_name(config@.peers, key@),
{
    let ghost pv = config@.peers;
    let mut i: usize = config.peers.len();
    assert(pv.take(i as int) =~= pv);
    while i > 0
        invariant
            i <= config.peers@.len(),
            pv == crate::server::server_peer_views(config.peers@),
            pv == config@.peers,
            configured_name(pv.take(i as int), key@) == configured_name(pv, key@),
        decreases i,
    {
        proof {
            let t = pv.take(i as int);
            assert(t.drop_last() =~= pv.take(i - 1));
            assert(t.last() == config.peers@[i - 1]@);
        }
        if same(config.peers[i - 1].public_key.as_str(), key) {
            return config.peers[i - 1].name.clone();
        }
        i -= 1;
    }
    let n: usize = key.unicode_len();
    let mut t = if n > 12 {
        let head = key.substring_char(0, 12);
        assert(head@ =~= key@.take(12));
        head.to_owned()
    } else {
        key.to_owned()
    };
    t.push_str("…");
    t
}

/// Gives each row of figures the name of the client it belongs to. Rows keep their order; a row of
/// a client that is not configured is named by its public key.
pub fn map_peers(raw: &[PeerStatus], config: &ServerConfig) -> (r: Vec<ServerPeerStatus>)
    ensures
        named_views(r@) == crate::wg::status::status_views(raw@).map_values(
            |p: PeerStatusModel| with_name(config@.peers, p),
        ),
{
    let ghost expected = crate::wg::status::status_views(raw@).map_values(
        |p: PeerStatusModel| with_name(config@.peers, p),
    );
    let mut out: Vec<ServerPeerStatus> = Vec::new();
    let mut i: usize = 0;
    while i < raw.len()
        invariant
            i <= raw@.len(),
            expected == crate::wg::status::status_views(raw@).map_values(
                |p: PeerStatusModel| with_name(config@.peers, p),
            ),
            named_views(out@) == expected.take(i as int),
        decreases raw@.len() - i,
    {
        let ps = &raw[i];
        let row = ServerPeerStatus {
            name: name_of(config, ps.public_key.as_str()),
            public_key: ps.public_key.clone(),
            last_handshake: ps.last_handshake,
            rx_bytes: ps.rx_bytes,
            tx_bytes: ps.tx_bytes,
        };
        let ghost was = out@;
        out.push(row);
        proof {
            assert(expected[i as int] == row@);
            assert(named_views(out@) =~= named_views(was).push(row@));
            assert(named_views(out@) =~= expected.take(i + 1));
        }
        i += 1;
    }
    assert(expected.take(i as int) =~= expected);
    out
}

/// The clients' figures in what `wg show` printed for the server at the time `now`. Nothing
/// printed, or something that cannot be read, counts as no clients.
pub fn status(output: Option<String>, now: u64) -> (r: Vec<PeerStatus>)
    ensures
        crate::wg::status::status_views(r@) == dump_rows(
            crate::config::profile::opt_view(output),
            now,
        ),
{
    match output {
        Some(text) => {
            let t = trim(text.as_str());
            if !t.is_empty() {
                if let Ok(live) = parse_wg_show_dump(SERVER_IFACE, t, now) {
                    return live.peers;
                }
            }
        },
        None => {},
    }
    let none: Vec<PeerStatus> = Vec::new();
    assert(crate::wg::status::status_views(none@) =~= Seq::<PeerStatusModel>::empty());
    none
}

/// The clients' figures in what `wg show` printed for the server at the time `now`, with the
/// clients' names.
pub fn status_named(output: Option<String>, now: u64, config: &ServerConfig) -> (r: Vec<
    ServerPeerStatus,
>)
    ensures
        named_views(r@) == dump_rows(crate::config::profile::opt_view(output), now).map_values(
            |p: PeerStatusModel| with_name(config@.peers, p),
        ),
{
    let raw = status(output, now);
    map_peers(raw.as_slice(), config)
}

/// The rows of figures in what was printed.
pub open spec fn dump_rows(output: Option<Seq<char>>, now: u64) -> Seq<PeerStatusModel> {
    match output {
        Some(text) => {
            let t = crate::text::trimmed(text);
            match crate::wg::status::dump_status(SERVER_IFACE@, t, now) {
                Some(live) => if t.len() > 0 {
                    live.peers
                } else {
                    Seq::empty()
                },
                None => Seq::empty(),
            }
        },
        None => Seq::empty(),
    }
}

// ── commands ────────────────────────────────────────────────────────────────

/// The commands that bring the server up, in their order: write its configuration, then start it.
pub fn start(config: &ServerConfig) -> (r: (PrivCmd, PrivCmd))
    ensures
        r.0 matches PrivCmd::ServerWriteConf { conf_text } && conf_text@
            == crate::server::conf::server_text(config@),
        r.1 is ServerUp,
{
    (PrivCmd::ServerWriteConf { conf_text: config.to_server_conf() }, PrivCmd::ServerUp)
}

/// The command that takes the server down.
pub fn stop() -> (r: PrivCmd)
    ensures
        r is ServerDown,
{
    PrivCmd::ServerDown
}

// ── the interface towards the internet ──────────────────────────────────────

/// The first line that is about the default route.
pub open spec fn default_row(rows: Seq<Seq<char>>) -> Option<Seq<char>>
    decreases rows.len(),
{
    if rows.len() == 0 {
        None
    } else if "default"@.is_prefix_of(crate::text::trim_start(rows[0])) {
        Some(rows[0])
    } else {
        default_row(rows.skip(1))
    }
}

/// The word behind the first `dev`.
pub open spec fn word_after_dev(words: Seq<Seq<char>>) -> Option<Seq<char>>
    decreases words.len(),
{
    if words.len() == 0 {
        None
    } else if words[0] == "dev"@ {
        if words.len() > 1 {
            Some(words[1])
        } else {
            None
        }
    } else {
        word_after_dev(words.skip(1))
    }
}

/// The interface of the default route in what `ip route` printed.
pub open spec fn egress(output: Seq<char>) -> Option<Seq<char>> {
    match default_row(crate::text::lines_of(output)) {
        Some(row) => word_after_dev(crate::text::words_of(row)),
        None => None,
    }
}

/// The interface of the default route in what `ip route show default` printed, where it could be
/// run.
pub fn detect_egress_iface(output: Option<String>) -> (r: Option<String>)
    ensures
        crate::config::profile::opt_view(r) == (match output {
            Some(text) => egress(text@),
            None => None,
        }),
{
    match output {
        Some(text) => detect_egress_iface_from(text.as_str()),
        None => None,
    }
}

/// The word behind the first `dev` in a line.
fn dev_word(row: &str) -> (r: Option<String>)
    ensures
        crate::config::profile::opt_view(r) == word_after_dev(crate::text::words_of(row@)),
{
    let words = split_whitespace(row);
    let ghost wv = crate::text::slices(words@);
    let n: usize = words.len();
    let mut i: usize = 0;
    assert(wv.skip(0) =~= wv);
    while i < n
        invariant
            i <= n == words@.len(),
            wv == crate::text::slices(words@),
            word_after_dev(wv.skip(i as int)) == word_after_dev(wv),
            wv == crate::text::words_of(row@),
        decreases n - i,
    {
        proof {
            assert(wv.skip(i as int)[0] == words@[i as int]@);
            assert(wv.skip(i as int).skip(1) =~= wv.skip(i + 1));
        }
        if same(words[i], "dev") {
            if i + 1 < n {
                assert(wv.skip(i as int)[1] == words@[i + 1]@);
                return Some(words[i + 1].to_owned());
            }
            return None;
        }
        i += 1;
    }
    None
}

/// The interface of the default route in what `ip route show default` printed.
pub fn detect_egress_iface_from(ip_route_output: &str) -> (r: Option<String>)
    ensures
        crate::config::profile::opt_view(r) == egress(ip_route_output@),
{
    let rows = lines(ip_route_output);
    let ghost rv = crate::text::slices(rows@);
    let mut i: usize = 0;
    assert(rv.skip(0) =~= rv);
    while i < rows.len()
        invariant
            i <= rows@.len(),
            rv == crate::text::slices(rows@),
            rv == crate::text::lines_of(ip_route_output@),
            default_row(rv.skip(i as int)) == default_row(rv),
        decreases rows@.len() - i,
    {
        proof {
            assert(rv.skip(i as int)[0] == rows@[i as int]@);
            assert(rv.skip(i as int).skip(1) =~= rv.skip(i + 1));
        }
        if starts_with(crate::text::trim_front(rows[i]), "default") {
            return dev_word(rows[i]);
        }
        i += 1;
    }
    None
}

} // verus!
