//! WireGuard profiles: their parts, and reading and writing them as `.conf` text.

use std::path::PathBuf;

use crate::error::{AppError, AppResult};
use crate::text::{
    find_char, join, lines, parse_u16, quoted, same, split, split_once, to_lowercase, trim,
    trim_brackets,
};
use vstd::prelude::*;
use vstd::string::*;

verus! {

/// A full profile: one `[Interface]` and any number of `[Peer]` sections.
#[derive(Debug, Clone)]
pub struct WgProfile {
    pub name: String,
    pub interface: InterfaceSection,
    pub peers: Vec<PeerSection>,
    /// Where the profile was loaded from or will be saved to.
    pub path: Option<PathBuf>,
}

/// The `[Interface]` section.
#[derive(Debug, Clone)]
pub struct InterfaceSection {
    pub private_key: String,
    pub address: Vec<String>,
    pub dns: Vec<String>,
    pub listen_port: Option<u16>,
    pub mtu: Option<u16>,
}

/// A `[Peer]` section.
#[derive(Debug, Clone)]
pub struct PeerSection {
    pub public_key: String,
    pub preshared_key: Option<String>,
    pub endpoint: Option<String>,
    pub allowed_ips: Vec<String>,
    pub persistent_keepalive: Option<u16>,
}

// ── models ──────────────────────────────────────────────────────────────────

/// What an `[Interface]` section says.
pub struct InterfaceModel {
    pub private_key: Seq<char>,
    pub address: Seq<Seq<char>>,
    pub dns: Seq<Seq<char>>,
    pub listen_port: Option<u16>,
    pub mtu: Option<u16>,
}

/// What a `[Peer]` section says.
pub struct PeerModel {
    pub public_key: Seq<char>,
    pub preshared_key: Option<Seq<char>>,
    pub endpoint: Option<Seq<char>>,
    pub allowed_ips: Seq<Seq<char>>,
    pub persistent_keepalive: Option<u16>,
}

/// What a profile says.
pub struct ProfileModel {
    pub name: Seq<char>,
    pub interface: InterfaceModel,
    pub peers: Seq<PeerModel>,
    pub path: Option<PathBuf>,
}

/// The characters of an optional string.
pub open spec fn opt_view(o: Option<String>) -> Option<Seq<char>> {
    match o {
        Some(s) => Some(s@),
        None => None,
    }
}

impl View for InterfaceSection {
    type V = InterfaceModel;

    open spec fn view(&self) -> InterfaceModel {
        InterfaceModel {
            private_key: self.private_key@,
            address: crate::text::views(self.address@),
            dns: crate::text::views(self.dns@),
            listen_port: self.listen_port,
            mtu: self.mtu,
        }
    }
}

impl View for PeerSection {
    type V = PeerModel;

    open spec fn view(&self) -> PeerModel {
        PeerModel {
            public_key: self.public_key@,
            preshared_key: opt_view(self.preshared_key),
            endpoint: opt_view(self.endpoint),
            allowed_ips: crate::text::views(self.allowed_ips@),
            persistent_keepalive: self.persistent_keepalive,
        }
    }
}

/// What a row of `[Peer]` sections says.
pub open spec fn peer_views(v: Seq<PeerSection>) -> Seq<PeerModel> {
    v.map_values(|p: PeerSection| p@)
}

impl View for WgProfile {
    type V = ProfileModel;

    open spec fn view(&self) -> ProfileModel {
        ProfileModel {
            name: self.name@,
            interface: self.interface@,
            peers: peer_views(self.peers@),
            path: self.path,
        }
    }
}

/// An `[Interface]` section that says nothing.
pub open spec fn empty_interface() -> InterfaceModel {
    InterfaceModel {
        private_key: Seq::empty(),
        address: Seq::empty(),
        dns: Seq::empty(),
        listen_port: None,
        mtu: None,
    }
}

/// A `[Peer]` section that says nothing.
pub open spec fn empty_peer() -> PeerModel {
    PeerModel {
        public_key: Seq::empty(),
        preshared_key: None,
        endpoint: None,
        allowed_ips: Seq::empty(),
        persistent_keepalive: None,
    }
}

impl Default for InterfaceSection {
    fn default() -> (r: Self)
        ensures
            r@ == empty_interface(),
    {
        let r = InterfaceSection {
            private_key: String::new(),
            address: Vec::new(),
            dns: Vec::new(),
            listen_port: None,
            mtu: None,
        };
        proof {
            assert(r@.address =~= empty_interface().address);
            assert(r@.dns =~= empty_interface().dns);
        }
        r
    }
}

impl Default for PeerSection {
    fn default() -> (r: Self)
        ensures
            r@ == empty_peer(),
    {
        let r = PeerSection {
            public_key: String::new(),
            preshared_key: None,
            endpoint: None,
            allowed_ips: Vec::new(),
            persistent_keepalive: None,
        };
        proof {
            assert(r@.allowed_ips =~= empty_peer().allowed_ips);
        }
        r
    }
}

impl Default for WgProfile {
    fn default() -> (r: Self)
        ensures
            r@ == (ProfileModel {
                name: Seq::empty(),
                interface: empty_interface(),
                peers: Seq::empty(),
                path: None,
            }),
    {
        let r = WgProfile {
            name: String::new(),
            interface: InterfaceSection::default(),
            peers: Vec::new(),
            path: None,
        };
        proof {
            assert(r@.peers =~= Seq::empty());
        }
        r
    }
}

// ── copies ──────────────────────────────────────────────────────────────────

/// A copy of an optional string.
pub(crate) fn copied_text(o: &Option<String>) -> (r: Option<String>)
    ensures
        opt_view(r) == opt_view(*o),
{
    match o {
        Some(s) => Some(s.clone()),
        None => None,
    }
}

impl InterfaceSection {
    /// A copy that says the same.
    pub fn duplicate(&self) -> (r: Self)
        ensures
            r@ == self@,
    {
        InterfaceSection {
            private_key: self.private_key.clone(),
            address: crate::text::copied(&self.address),
            dns: crate::text::copied(&self.dns),
            listen_port: self.listen_port,
            mtu: self.mtu,
        }
    }
}

impl PeerSection {
    /// A copy that says the same.
    pub fn duplicate(&self) -> (r: Self)
        ensures
            r@ == self@,
    {
        PeerSection {
            public_key: self.public_key.clone(),
            preshared_key: copied_text(&self.preshared_key),
            endpoint: copied_text(&self.endpoint),
            allowed_ips: crate::text::copied(&self.allowed_ips),
            persistent_keepalive: self.persistent_keepalive,
        }
    }
}

impl WgProfile {
    /// A copy that says the same.
    pub fn duplicate(&self) -> (r: Self)
        ensures
            r@ == self@,
    {
        let mut peers: Vec<PeerSection> = Vec::new();
        let mut i: usize = 0;
        while i < self.peers.len()
            invariant
                i <= self.peers@.len(),
                peer_views(peers@) == peer_views(self.peers@).take(i as int),
            decreases self.peers@.len() - i,
        {
            let ghost was = peers@;
            peers.push(self.peers[i].duplicate());
            proof {
                assert(peer_views(peers@) =~= peer_views(was).push(self.peers@[i as int]@));
                assert(peer_views(peers@) =~= peer_views(self.peers@).take(i + 1));
            }
            i += 1;
        }
        assert(peer_views(self.peers@).take(i as int) =~= peer_views(self.peers@));
        let path = match &self.path {
            Some(p) => Some(p.clone()),
            None => None,
        };
        WgProfile {
            name: self.name.clone(),
            interface: self.interface.duplicate(),
            peers,
            path,
        }
    }
}

// ── reading ─────────────────────────────────────────────────────────────────

/// The section that the lines being read belong to.
pub enum SectionModel {
    Outside,
    Interface,
    Peer(PeerModel),
}

/// How far the reading of a `.conf` text has come.
pub struct ConfState {
    pub interface: InterfaceModel,
    pub peers: Seq<PeerModel>,
    pub section: SectionModel,
}

/// The state before the first line.
pub open spec fn conf_start() -> ConfState {
    ConfState {
        interface: empty_interface(),
        peers: Seq::empty(),
        section: SectionModel::Outside,
    }
}

/// The peers read so far, the one being read included.
pub open spec fn flushed(st: ConfState) -> Seq<PeerModel> {
    match st.section {
        SectionModel::Peer(p) => st.peers.push(p),
        _ => st.peers,
    }
}

/// Where the comment of a line begins: at the first `#` or `;`, whichever comes first, or at the
/// line's end.
pub open spec fn comment_start(line: Seq<char>) -> int {
    let hash = crate::text::find(line, '#');
    let semi = crate::text::find(line, ';');
    if hash < semi {
        hash
    } else {
        semi
    }
}

/// A line without its comment and without white space around it.
pub open spec fn bare_line(raw: Seq<char>) -> Seq<char> {
    let line = crate::text::trimmed(raw);
    crate::text::trimmed(line.take(comment_start(line)))
}

/// The parts that are not blank, without white space around them.
pub open spec fn filled_parts(parts: Seq<Seq<char>>) -> Seq<Seq<char>>
    decreases parts.len(),
{
    if parts.len() == 0 {
        Seq::empty()
    } else {
        let before = filled_parts(parts.drop_last());
        let item = crate::text::trimmed(parts.last());
        if item.len() > 0 {
            before.push(item)
        } else {
            before
        }
    }
}

/// The items of a comma-separated list.
pub open spec fn list_items(value: Seq<char>) -> Seq<Seq<char>> {
    filled_parts(crate::text::split_at_each(value, ','))
}

/// ` at line ` and the line's number.
pub open spec fn at_line(n: nat) -> Seq<char> {
    " at line "@ + crate::text::decimal(n)
}

/// The complaint about a number that cannot be read.
pub open spec fn bad_number(key: Seq<char>, value: Seq<char>, n: nat) -> Seq<char> {
    "invalid "@ + key + " '"@ + value + "'"@ + at_line(n)
}

/// What a key in the `[Interface]` section does. Keys that are not known are passed over.
pub open spec fn interface_entry(
    i: InterfaceModel,
    key: Seq<char>,
    value: Seq<char>,
    n: nat,
) -> Result<InterfaceModel, Seq<char>> {
    let k = crate::text::lowercase(key);
    let number = crate::text::unsigned_value(value, u16::MAX as nat);
    if k == "privatekey"@ {
        Ok(InterfaceModel { private_key: value, ..i })
    } else if k == "address"@ {
        Ok(InterfaceModel { address: i.address + list_items(value), ..i })
    } else if k == "dns"@ {
        Ok(InterfaceModel { dns: i.dns + list_items(value), ..i })
    } else if k == "listenport"@ {
        match number {
            Some(p) => Ok(InterfaceModel { listen_port: Some(p as u16), ..i }),
            None => Err(bad_number("ListenPort"@, value, n)),
        }
    } else if k == "mtu"@ {
        match number {
            Some(p) => Ok(InterfaceModel { mtu: Some(p as u16), ..i }),
            None => Err(bad_number("MTU"@, value, n)),
        }
    } else {
        Ok(i)
    }
}

/// What a key in a `[Peer]` section does. Keys that are not known are passed over.
pub open spec fn peer_entry(
    p: PeerModel,
    key: Seq<char>,
    value: Seq<char>,
    n: nat,
) -> Result<PeerModel, Seq<char>> {
    let k = crate::text::lowercase(key);
    if k == "publickey"@ {
        Ok(PeerModel { public_key: value, ..p })
    } else if k == "presharedkey"@ {
        Ok(PeerModel { preshared_key: Some(value), ..p })
    } else if k == "endpoint"@ {
        Ok(PeerModel { endpoint: Some(value), ..p })
    } else if k == "allowedips"@ {
        Ok(PeerModel { allowed_ips: p.allowed_ips + list_items(value), ..p })
    } else if k == "persistentkeepalive"@ {
        match crate::text::unsigned_value(value, u16::MAX as nat) {
            Some(x) => Ok(PeerModel { persistent_keepalive: Some(x as u16), ..p }),
            None => Err(bad_number("PersistentKeepalive"@, value, n)),
        }
    } else {
        Ok(p)
    }
}

/// The section name in a header line.
pub open spec fn header_name(line: Seq<char>) -> Seq<char> {
    crate::text::lowercase(
        crate::text::trimmed(crate::text::unbracket_end(crate::text::unbracket_start(line))),
    )
}

/// What a section header does.
pub open spec fn header_line(st: ConfState, line: Seq<char>, n: nat) -> Result<
    ConfState,
    Seq<char>,
> {
    let name = header_name(line);
    if name == "interface"@ {
        Ok(ConfState { peers: flushed(st), section: SectionModel::Interface, ..st })
    } else if name == "peer"@ {
        Ok(ConfState { peers: flushed(st), section: SectionModel::Peer(empty_peer()), ..st })
    } else {
        Err("unknown section '["@ + name + "]'"@ + at_line(n))
    }
}

/// What a `key = value` line does.
pub open spec fn entry_line(st: ConfState, key: Seq<char>, value: Seq<char>, n: nat) -> Result<
    ConfState,
    Seq<char>,
> {
    match st.section {
        SectionModel::Outside => Err(
            "key '"@ + key + "'"@ + at_line(n) + " appears before any section header"@,
        ),
        SectionModel::Interface => match interface_entry(st.interface, key, value, n) {
            Ok(i) => Ok(ConfState { interface: i, ..st }),
            Err(e) => Err(e),
        },
        SectionModel::Peer(p) => match peer_entry(p, key, value, n) {
            Ok(q) => Ok(ConfState { section: SectionModel::Peer(q), ..st }),
            Err(e) => Err(e),
        },
    }
}

/// What line number `n` does: the state behind it, or the complaint about it.
pub open spec fn conf_line(st: ConfState, raw: Seq<char>, n: nat) -> Result<ConfState, Seq<char>> {
    let line = bare_line(raw);
    if line.len() == 0 {
        Ok(st)
    } else if line[0] == '[' {
        header_line(st, line, n)
    } else {
        match crate::text::cut(line, '=') {
            Some((k, v)) => entry_line(st, crate::text::trimmed(k), crate::text::trimmed(v), n),
            None => Err(
                "malformed line "@ + crate::text::decimal(n) + " (no '='): "@
                    + crate::text::debug_quoted(raw),
            ),
        }
    }
}

/// What a run of lines does, the first of them numbered `n`; the first complaint ends it.
pub open spec fn conf_lines(st: ConfState, rows: Seq<Seq<char>>, n: nat) -> Result<
    ConfState,
    Seq<char>,
>
    decreases rows.len(),
{
    if rows.len() == 0 {
        Ok(st)
    } else {
        match conf_line(st, rows[0], n) {
            Ok(next) => conf_lines(next, rows.skip(1), n + 1),
            Err(e) => Err(e),
        }
    }
}

/// What a `.conf` text says under the name `name`, or the complaint about it.
pub open spec fn parsed_conf(name: Seq<char>, content: Seq<char>) -> Result<
    ProfileModel,
    Seq<char>,
> {
    match conf_lines(conf_start(), crate::text::lines_of(content), 1) {
        Ok(st) => Ok(
            ProfileModel { name, interface: st.interface, peers: flushed(st), path: None },
        ),
        Err(e) => Err(e),
    }
}

/// The section being read, with what was read of it.
enum Section {
    Outside,
    Interface,
    Peer(PeerSection),
}

impl Section {
    spec fn model(self) -> SectionModel {
        match self {
            Section::Outside => SectionModel::Outside,
            Section::Interface => SectionModel::Interface,
            Section::Peer(p) => SectionModel::Peer(p@),
        }
    }
}

/// ` at line ` and the line's number.
fn push_at_line(out: &mut String, n: usize)
    ensures
        final(out)@ == old(out)@ + at_line(n as nat),
{
    let ghost before = out@;
    out.push_str(" at line ");
    let number = crate::text::decimal_text(n as u64);
    out.push_str(number.as_str());
    assert(out@ =~= before + at_line(n as nat));
}

/// The complaint about a number that cannot be read.
fn number_complaint(key: &str, value: &str, n: usize) -> (r: String)
    ensures
        r@ == bad_number(key@, value@, n as nat),
{
    let mut out = "invalid ".to_owned();
    out.push_str(key);
    out.push_str(" '");
    out.push_str(value);
    out.push_str("'");
    push_at_line(&mut out, n);
    out
}

/// `raw` without its comment and the white space around it.
fn strip_comment<'a>(raw: &'a str) -> (r: &'a str)
    ensures
        r@ == bare_line(raw@),
{
    let line = trim(raw);
    proof {
        crate::text::lemma_find(line@, '#');
        crate::text::lemma_find(line@, ';');
    }
    let end: usize = match (find_char(line, '#'), find_char(line, ';')) {
        (Some(hash), Some(semi)) => if hash < semi {
            hash
        } else {
            semi
        },
        (Some(hash), None) => hash,
        (None, Some(semi)) => semi,
        (None, None) => line.unicode_len(),
    };
    let head = line.substring_char(0, end);
    assert(head@ =~= line@.take(comment_start(line@)));
    trim(head)
}

/// Appends the items of a comma-separated list.
pub(crate) fn push_items(list: &mut Vec<String>, value: &str)
    ensures
        crate::text::views(final(list)@) == crate::text::views(old(list)@) + list_items(value@),
{
    let parts = split(value, ',');
    let ghost before = list@;
    let ghost pv = crate::text::slices(parts@);
    let mut i: usize = 0;
    assert(crate::text::views(list@) =~= crate::text::views(before) + filled_parts(pv.take(0)));
    while i < parts.len()
        invariant
            i <= parts@.len(),
            pv == crate::text::slices(parts@),
            crate::text::views(list@) == crate::text::views(before) + filled_parts(
                pv.take(i as int),
            ),
        decreases parts@.len() - i,
    {
        let item = trim(parts[i]);
        let ghost t = pv.take(i + 1);
        let ghost was = list@;
        proof {
            assert(t.drop_last() =~= pv.take(i as int));
            assert(t.last() == parts@[i as int]@);
        }
        if !item.is_empty() {
            list.push(item.to_owned());
            proof {
                assert(crate::text::views(list@) =~= crate::text::views(was).push(item@));
                assert(crate::text::views(before) + filled_parts(t) =~= (crate::text::views(before)
                    + filled_parts(pv.take(i as int))).push(item@));
            }
        }
        i += 1;
    }
    assert(pv.take(i as int) =~= pv);
}

/// Takes one entry into the `[Interface]` section.
fn set_interface(iface: &mut InterfaceSection, key: &str, value: &str, n: usize) -> (r: Result<
    (),
    String,
>)
    ensures
        match r {
            Ok(_) => interface_entry(old(iface)@, key@, value@, n as nat) == Ok::<_, Seq<char>>(
                final(iface)@,
            ),
            Err(e) => interface_entry(old(iface)@, key@, value@, n as nat) == Err::<
                InterfaceModel,
                _,
            >(e@),
        },
{
    let k = to_lowercase(key);
    let k = k.as_str();
    if same(k, "privatekey") {
        iface.private_key = value.to_owned();
    } else if same(k, "address") {
        push_items(&mut iface.address, value);
    } else if same(k, "dns") {
        push_items(&mut iface.dns, value);
    } else if same(k, "listenport") {
        match parse_u16(value) {
            Some(port) => {
                iface.listen_port = Some(port);
            },
            None => {
                return Err(number_complaint("ListenPort", value, n));
            },
        }
    } else if same(k, "mtu") {
        match parse_u16(value) {
            Some(mtu) => {
                iface.mtu = Some(mtu);
            },
            None => {
                return Err(number_complaint("MTU", value, n));
            },
        }
    }
    Ok(())
}

/// Takes one entry into a `[Peer]` section.
fn set_peer(peer: &mut PeerSection, key: &str, value: &str, n: usize) -> (r: Result<(), String>)
    ensures
        match r {
            Ok(_) => peer_entry(old(peer)@, key@, value@, n as nat) == Ok::<_, Seq<char>>(
                final(peer)@,
            ),
            Err(e) => peer_entry(old(peer)@, key@, value@, n as nat) == Err::<PeerModel, _>(e@),
        },
{
    let k = to_lowercase(key);
    let k = k.as_str();
    if same(k, "publickey") {
        peer.public_key = value.to_owned();
    } else if same(k, "presharedkey") {
        peer.preshared_key = Some(value.to_owned());
    } else if same(k, "endpoint") {
        peer.endpoint = Some(value.to_owned());
    } else if same(k, "allowedips") {
        push_items(&mut peer.allowed_ips, value);
    } else if same(k, "persistentkeepalive") {
        match parse_u16(value) {
            Some(ka) => {
                peer.persistent_keepalive = Some(ka);
            },
            None => {
                return Err(number_complaint("PersistentKeepalive", value, n));
            },
        }
    }
    Ok(())
}

/// Hands the peer being read over to the profile's peers.
fn flush_peer(current: Section, peers: &mut Vec<PeerSection>)
    ensures
        peer_views(final(peers)@) == (match current.model() {
            SectionModel::Peer(p) => peer_views(old(peers)@).push(p),
            _ => peer_views(old(peers)@),
        }),
{
    let ghost before = peers@;
    if let Section::Peer(peer) = current {
        peers.push(peer);
        assert(peer_views(peers@) =~= peer_views(before).push(peer@));
    }
}

/// The reading state that a profile under construction stands for.
spec fn state_of(profile: WgProfile, current: Section) -> ConfState {
    ConfState {
        interface: profile.interface@,
        peers: peer_views(profile.peers@),
        section: current.model(),
    }
}

/// Takes one section header.
fn read_header(profile: &mut WgProfile, current: Section, line: &str, n: usize) -> (r: Result<
    Section,
    String,
>)
    ensures
        match r {
            Ok(next) => header_line(state_of(*old(profile), current), line@, n as nat) == Ok::<
                _,
                Seq<char>,
            >(state_of(*final(profile), next)) && final(profile).name == old(profile).name
                && final(profile).path == old(profile).path,
            Err(e) => header_line(state_of(*old(profile), current), line@, n as nat) == Err::<
                ConfState,
                _,
            >(e@),
        },
{
    let header = to_lowercase(trim(trim_brackets(line)));
    let header = header.as_str();
    assert(header@ == header_name(line@));
    if same(header, "interface") {
        flush_peer(current, &mut profile.peers);
        Ok(Section::Interface)
    } else if same(header, "peer") {
        flush_peer(current, &mut profile.peers);
        Ok(Section::Peer(PeerSection::default()))
    } else {
        let mut detail = "unknown section '[".to_owned();
        detail.push_str(header);
        detail.push_str("]'");
        push_at_line(&mut detail, n);
        Err(detail)
    }
}

/// Takes one `key = value` line.
fn read_entry(
    profile: &mut WgProfile,
    current: Section,
    key: &str,
    value: &str,
    n: usize,
) -> (r: Result<Section, String>)
    ensures
        match r {
            Ok(next) => entry_line(state_of(*old(profile), current), key@, value@, n as nat)
                == Ok::<_, Seq<char>>(state_of(*final(profile), next)) && final(profile).name
                == old(profile).name && final(profile).path == old(profile).path,
            Err(e) => entry_line(state_of(*old(profile), current), key@, value@, n as nat)
                == Err::<ConfState, _>(e@),
        },
{
    match current {
        Section::Outside => {
            let mut detail = "key '".to_owned();
            detail.push_str(key);
            detail.push_str("'");
            push_at_line(&mut detail, n);
            detail.push_str(" appears before any section header");
            Err(detail)
        },
        Section::Interface => match set_interface(&mut profile.interface, key, value, n) {
            Ok(_) => Ok(Section::Interface),
            Err(e) => Err(e),
        },
        Section::Peer(peer) => {
            let mut peer = peer;
            match set_peer(&mut peer, key, value, n) {
                Ok(_) => Ok(Section::Peer(peer)),
                Err(e) => Err(e),
            }
        },
    }
}

/// Takes one line.
fn read_line(profile: &mut WgProfile, current: Section, raw: &str, n: usize) -> (r: Result<
    Section,
    String,
>)
    ensures
        match r {
            Ok(next) => conf_line(state_of(*old(profile), current), raw@, n as nat) == Ok::<
                _,
                Seq<char>,
            >(state_of(*final(profile), next)) && final(profile).name == old(profile).name
                && final(profile).path == old(profile).path,
            Err(e) => conf_line(state_of(*old(profile), current), raw@, n as nat) == Err::<
                ConfState,
                _,
            >(e@),
        },
{
    let line = strip_comment(raw);
    if line.is_empty() {
        return Ok(current);
    }
    if line.get_char(0) == '[' {
        return read_header(profile, current, line, n);
    }
    match split_once(line, '=') {
        Some((k, v)) => read_entry(profile, current, trim(k), trim(v), n),
        None => {
            let mut detail = "malformed line ".to_owned();
            let number = crate::text::decimal_text(n as u64);
            detail.push_str(number.as_str());
            detail.push_str(" (no '='): ");
            let shown = quoted(raw);
            detail.push_str(shown.as_str());
            Err(detail)
        },
    }
}

impl WgProfile {
    /// Reads a profile from `.conf` text. `name` becomes the profile's name.
    ///
    /// The lists `Address`, `DNS` and `AllowedIPs` are split at commas and grow with each
    /// appearance of their key; of a repeated single-valued key the last appearance counts.
    pub fn from_conf_str(name: &str, content: &str) -> (r: AppResult<Self>)
        ensures
            match r {
                Ok(p) => parsed_conf(name@, content@) == Ok::<_, Seq<char>>(p@),
                Err(AppError::ProfileParseError { name: n, detail }) => n@ == name@ && parsed_conf(
                    name@,
                    content@,
                ) == Err::<ProfileModel, _>(detail@),
                Err(_) => false,
            },
    {
        let rows = lines(content);
        let ghost rv = crate::text::lines_of(content@);
        let mut profile = WgProfile::default();
        profile.name = name.to_owned();
        let mut current = Section::Outside;
        let mut i: usize = 0;
        assert(rv.skip(0) =~= rv);
        while i < rows.len()
            invariant
                i <= rows@.len(),
                rv == crate::text::slices(rows@),
                rv == crate::text::lines_of(content@),
                profile.name@ == name@,
                profile.path is None,
                conf_lines(state_of(profile, current), rv.skip(i as int), (i + 1) as nat)
                    == conf_lines(conf_start(), rv, 1),
            decreases rows@.len() - i,
        {
            proof {
                assert(rv.skip(i as int)[0] == rows@[i as int]@);
                assert(rv.skip(i as int).skip(1) =~= rv.skip(i + 1));
            }
            match read_line(&mut profile, current, rows[i], i + 1) {
                Ok(next) => {
                    current = next;
                },
                Err(detail) => {
                    return Err(AppError::ProfileParseError { name: name.to_owned(), detail });
                },
            }
            i += 1;
        }
        flush_peer(current, &mut profile.peers);
        Ok(profile)
    }
}

// ── writing ─────────────────────────────────────────────────────────────────

/// The line that gives `key` the value `value`.
pub open spec fn conf_row(key: Seq<char>, value: Seq<char>) -> Seq<char> {
    key + " = "@ + value
}

/// The line for a list; no line for an empty one.
pub open spec fn list_row(key: Seq<char>, items: Seq<Seq<char>>) -> Seq<Seq<char>> {
    if items.len() > 0 {
        seq![conf_row(key, crate::text::joined(items, ", "@))]
    } else {
        Seq::empty()
    }
}

/// The line for a text that may be missing.
pub open spec fn text_row(key: Seq<char>, value: Option<Seq<char>>) -> Seq<Seq<char>> {
    match value {
        Some(v) => seq![conf_row(key, v)],
        None => Seq::empty(),
    }
}

/// The line for a number that may be missing.
pub open spec fn number_row(key: Seq<char>, value: Option<u16>) -> Seq<Seq<char>> {
    match value {
        Some(v) => seq![conf_row(key, crate::text::decimal(v as nat))],
        None => Seq::empty(),
    }
}

/// The lines of an `[Interface]` section.
pub open spec fn interface_rows(i: InterfaceModel) -> Seq<Seq<char>> {
    seq!["[Interface]"@, conf_row("PrivateKey"@, i.private_key)] + list_row("Address"@, i.address)
        + list_row("DNS"@, i.dns) + number_row("ListenPort"@, i.listen_port) + number_row(
        "MTU"@,
        i.mtu,
    )
}

/// The lines of a `[Peer]` section, with the blank line before it.
pub open spec fn peer_rows(p: PeerModel) -> Seq<Seq<char>> {
    seq![""@, "[Peer]"@, conf_row("PublicKey"@, p.public_key)] + text_row(
        "PresharedKey"@,
        p.preshared_key,
    ) + text_row("Endpoint"@, p.endpoint) + list_row("AllowedIPs"@, p.allowed_ips) + number_row(
        "PersistentKeepalive"@,
        p.persistent_keepalive,
    )
}

/// The lines of a row of `[Peer]` sections.
pub open spec fn peers_rows(peers: Seq<PeerModel>) -> Seq<Seq<char>>
    decreases peers.len(),
{
    if peers.len() == 0 {
        Seq::empty()
    } else {
        peers_rows(peers.drop_last()) + peer_rows(peers.last())
    }
}

/// The `.conf` text of a profile.
pub open spec fn conf_text(p: ProfileModel) -> Seq<char> {
    crate::text::flat(interface_rows(p.interface) + peers_rows(p.peers))
}

/// Appends the line that gives `key` the value `value`.
pub(crate) fn push_entry(out: &mut String, key: &str, value: &str, Ghost(rows): Ghost<Seq<Seq<char>>>)
    requires
        old(out)@ == crate::text::flat(rows),
    ensures
        final(out)@ == crate::text::flat(rows + seq![conf_row(key@, value@)]),
{
    let mut line = key.to_owned();
    line.push_str(" = ");
    line.push_str(value);
    crate::text::push_line(out, line.as_str(), Ghost(rows));
    assert(rows + seq![conf_row(key@, value@)] =~= rows.push(line@));
}

/// Appends the line of a list that is not empty.
pub(crate) fn push_list(out: &mut String, key: &str, items: &Vec<String>, Ghost(rows): Ghost<Seq<Seq<char>>>)
    requires
        old(out)@ == crate::text::flat(rows),
    ensures
        final(out)@ == crate::text::flat(rows + list_row(key@, crate::text::views(items@))),
{
    if items.len() > 0 {
        let value = join(items, ", ");
        push_entry(out, key, value.as_str(), Ghost(rows));
    } else {
        assert(rows + list_row(key@, crate::text::views(items@)) =~= rows);
    }
}

/// Appends the line of a text that is there.
pub(crate) fn push_text(out: &mut String, key: &str, value: &Option<String>, Ghost(rows): Ghost<
    Seq<Seq<char>>,
>)
    requires
        old(out)@ == crate::text::flat(rows),
    ensures
        final(out)@ == crate::text::flat(rows + text_row(key@, opt_view(*value))),
{
    match value {
        Some(v) => push_entry(out, key, v.as_str(), Ghost(rows)),
        None => {
            assert(rows + text_row(key@, opt_view(*value)) =~= rows);
        },
    }
}

/// Appends the line of a number that is there.
pub(crate) fn push_number(out: &mut String, key: &str, value: Option<u16>, Ghost(rows): Ghost<Seq<Seq<char>>>)
    requires
        old(out)@ == crate::text::flat(rows),
    ensures
        final(out)@ == crate::text::flat(rows + number_row(key@, value)),
{
    match value {
        Some(v) => {
            let number = crate::text::decimal_text(v as u64);
            push_entry(out, key, number.as_str(), Ghost(rows));
        },
        None => {
            assert(rows + number_row(key@, value) =~= rows);
        },
    }
}

/// Appends the lines of an `[Interface]` section.
fn push_interface(out: &mut String, i: &InterfaceSection)
    requires
        old(out)@ == Seq::<char>::empty(),
    ensures
        final(out)@ == crate::text::flat(interface_rows(i@)),
{
    let ghost mut rows = Seq::<Seq<char>>::empty();
    assert(out@ =~= crate::text::flat(rows));
    crate::text::push_line(out, "[Interface]", Ghost(rows));
    proof {
        rows = rows.push("[Interface]"@);
    }
    push_entry(out, "PrivateKey", i.private_key.as_str(), Ghost(rows));
    proof {
        rows = rows + seq![conf_row("PrivateKey"@, i@.private_key)];
        assert(rows =~= seq!["[Interface]"@, conf_row("PrivateKey"@, i@.private_key)]);
    }
    push_list(out, "Address", &i.address, Ghost(rows));
    proof {
        rows = rows + list_row("Address"@, i@.address);
    }
    push_list(out, "DNS", &i.dns, Ghost(rows));
    proof {
        rows = rows + list_row("DNS"@, i@.dns);
    }
    push_number(out, "ListenPort", i.listen_port, Ghost(rows));
    proof {
        rows = rows + number_row("ListenPort"@, i@.listen_port);
    }
    push_number(out, "MTU", i.mtu, Ghost(rows));
}

/// Appends the lines of a `[Peer]` section.
fn push_peer(out: &mut String, p: &PeerSection, Ghost(before): Ghost<Seq<Seq<char>>>)
    requires
        old(out)@ == crate::text::flat(before),
    ensures
        final(out)@ == crate::text::flat(before + peer_rows(p@)),
{
    let ghost mut rows = before;
    crate::text::push_line(out, "", Ghost(rows));
    proof {
        rows = rows.push(""@);
    }
    crate::text::push_line(out, "[Peer]", Ghost(rows));
    proof {
        rows = rows.push("[Peer]"@);
    }
    push_entry(out, "PublicKey", p.public_key.as_str(), Ghost(rows));
    proof {
        rows = rows + seq![conf_row("PublicKey"@, p@.public_key)];
    }
    push_text(out, "PresharedKey", &p.preshared_key, Ghost(rows));
    proof {
        rows = rows + text_row("PresharedKey"@, p@.preshared_key);
    }
    push_text(out, "Endpoint", &p.endpoint, Ghost(rows));
    proof {
        rows = rows + text_row("Endpoint"@, p@.endpoint);
    }
    push_list(out, "AllowedIPs", &p.allowed_ips, Ghost(rows));
    proof {
        rows = rows + list_row("AllowedIPs"@, p@.allowed_ips);
    }
    push_number(out, "PersistentKeepalive", p.persistent_keepalive, Ghost(rows));
    proof {
        rows = rows + number_row("PersistentKeepalive"@, p@.persistent_keepalive);
        assert(rows =~= before + peer_rows(p@));
    }
}

impl WgProfile {
    /// Writes the profile as `.conf` text: the `[Interface]` section, then each `[Peer]` section
    /// behind a blank line, one key to a line, lists joined by commas.
    pub fn to_conf_string(&self) -> (r: String)
        ensures
            r@ == conf_text(self@),
    {
        let mut out = String::new();
        push_interface(&mut out, &self.interface);
        let ghost head = interface_rows(self.interface@);
        let ghost pv = peer_views(self.peers@);
        let mut i: usize = 0;
        assert(head + peers_rows(pv.take(0)) =~= head);
        while i < self.peers.len()
            invariant
                i <= self.peers@.len(),
                pv == peer_views(self.peers@),
                out@ == crate::text::flat(head + peers_rows(pv.take(i as int))),
            decreases self.peers@.len() - i,
        {
            let ghost rows = head + peers_rows(pv.take(i as int));
            push_peer(&mut out, &self.peers[i], Ghost(rows));
            proof {
                let t = pv.take(i + 1);
                assert(t.drop_last() =~= pv.take(i as int));
                assert(t.last() == self.peers@[i as int]@);
                assert(rows + peer_rows(t.last()) =~= head + peers_rows(t));
            }
            i += 1;
        }
        assert(pv.take(i as int) =~= pv);
        out
    }
}

} // verus!
