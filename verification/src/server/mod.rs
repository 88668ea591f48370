//! Hosting a tunnel: the server's configuration, the `.conf` texts made from it, the allocation
//! of tunnel addresses, and QR codes for clients.

pub mod change;
pub mod conf;
pub mod file;
pub mod laws;
pub mod manage;
pub mod serving_laws;

use crate::config::keygen::generate_keypair;
use crate::error::{AppError, AppResult};
use crate::ip::{format_ipv4, parse_ipv4};
use crate::qr::{png_from_rendered, render_qr};
use crate::text::{parse_unsigned, split_once, trim};
use vstd::prelude::*;
use vstd::string::*;

verus! {

/// The UDP port a new server listens on.
pub const DEFAULT_LISTEN_PORT: u16 = 51820;

/// The address of a new server inside the tunnel.
pub const DEFAULT_ADDRESS: &'static str = "10.7.0.1/24";

/// The subnet that a new server allocates client addresses from.
pub const DEFAULT_SUBNET: &'static str = "10.7.0.0/24";

/// What a new client routes through the tunnel.
pub const DEFAULT_CLIENT_ALLOWED_IPS: &'static str = "0.0.0.0/0";

/// A server: the interface this host listens on, and one peer for each client.
#[derive(Debug, Clone, PartialEq, Eq)]
pub struct ServerConfig {
    /// Display name.
    pub name: String,
    /// The server's private key, in base64.
    pub private_key: String,
    /// The server's public key, in base64.
    pub public_key: String,
    /// The UDP port the server listens on.
    pub listen_port: u16,
    /// The server's own address in the tunnel, such as `10.7.0.1/24`.
    pub address: String,
    /// The subnet that client addresses come from, such as `10.7.0.0/24`.
    pub subnet: String,
    /// The public host that clients dial.
    pub endpoint_host: String,
    /// The DNS servers handed to clients.
    pub dns: Vec<String>,
    /// The interface towards the internet, once known.
    pub egress_iface: Option<String>,
    /// The clients.
    pub peers: Vec<ServerPeer>,
}

/// One client of a server.
#[derive(Debug, Clone, PartialEq, Eq)]
pub struct ServerPeer {
    /// Display name.
    pub name: String,
    /// The client's public key, in base64.
    pub public_key: String,
    /// The client's private key, kept so that its `.conf` can be shown again.
    pub private_key: Option<String>,
    /// The client's address in the tunnel, without a prefix length.
    pub assigned_ip: String,
    /// An extra symmetric key, in base64.
    pub preshared_key: Option<String>,
    /// What the client routes through the tunnel.
    pub client_allowed_ips: String,
}

// ── models ──────────────────────────────────────────────────────────────────

/// What a client entry says.
pub struct ServerPeerModel {
    pub name: Seq<char>,
    pub public_key: Seq<char>,
    pub private_key: Option<Seq<char>>,
    pub assigned_ip: Seq<char>,
    pub preshared_key: Option<Seq<char>>,
    pub client_allowed_ips: Seq<char>,
}

/// What a server configuration says.
pub struct ServerModel {
    pub name: Seq<char>,
    pub private_key: Seq<char>,
    pub public_key: Seq<char>,
    pub listen_port: u16,
    pub address: Seq<char>,
    pub subnet: Seq<char>,
    pub endpoint_host: Seq<char>,
    pub dns: Seq<Seq<char>>,
    pub egress_iface: Option<Seq<char>>,
    pub peers: Seq<ServerPeerModel>,
}

impl View for ServerPeer {
    type V = ServerPeerModel;

    open spec fn view(&self) -> ServerPeerModel {
        ServerPeerModel {
            name: self.name@,
            public_key: self.public_key@,
            private_key: crate::config::profile::opt_view(self.private_key),
            assigned_ip: self.assigned_ip@,
            preshared_key: crate::config::profile::opt_view(self.preshared_key),
            client_allowed_ips: self.client_allowed_ips@,
        }
    }
}

/// What a row of client entries says.
pub open spec fn server_peer_views(v: Seq<ServerPeer>) -> Seq<ServerPeerModel> {
    v.map_values(|p: ServerPeer| p@)
}

impl View for ServerConfig {
    type V = ServerModel;

    open spec fn view(&self) -> ServerModel {
        ServerModel {
            name: self.name@,
            private_key: self.private_key@,
            public_key: self.public_key@,
            listen_port: self.listen_port,
            address: self.address@,
            subnet: self.subnet@,
            endpoint_host: self.endpoint_host@,
            dns: crate::text::views(self.dns@),
            egress_iface: crate::config::profile::opt_view(self.egress_iface),
            peers: server_peer_views(self.peers@),
        }
    }
}

impl Default for ServerPeer {
    fn default() -> (r: Self)
        ensures
            r@ == (ServerPeerModel {
                name: Seq::empty(),
                public_key: Seq::empty(),
                private_key: None,
                assigned_ip: Seq::empty(),
                preshared_key: None,
                client_allowed_ips: Seq::empty(),
            }),
    {
        ServerPeer {
            name: String::new(),
            public_key: String::new(),
            private_key: None,
            assigned_ip: String::new(),
            preshared_key: None,
            client_allowed_ips: String::new(),
        }
    }
}

impl Default for ServerConfig {
    fn default() -> (r: Self)
        ensures
            r@ == (ServerModel {
                name: Seq::empty(),
                private_key: Seq::empty(),
                public_key: Seq::empty(),
                listen_port: 0,
                address: Seq::empty(),
                subnet: Seq::empty(),
                endpoint_host: Seq::empty(),
                dns: Seq::empty(),
                egress_iface: None,
                peers: Seq::empty(),
            }),
    {
        let r = ServerConfig {
            name: String::new(),
            private_key: String::new(),
            public_key: String::new(),
            listen_port: 0,
            address: String::new(),
            subnet: String::new(),
            endpoint_host: String::new(),
            dns: Vec::new(),
            egress_iface: None,
            peers: Vec::new(),
        };
        proof {
            assert(r@.dns =~= Seq::empty());
            assert(r@.peers =~= Seq::empty());
        }
        r
    }
}

// ── addresses ───────────────────────────────────────────────────────────────

/// How many addresses `bits` bits can tell apart.
pub open spec fn block(bits: nat) -> nat
    decreases bits,
{
    if bits == 0 {
        1
    } else {
        2 * block((bits - 1) as nat)
    }
}

/// The network and the prefix length that a CIDR text stands for. The bits behind the prefix do
/// not count.
pub open spec fn cidr_value(s: Seq<char>) -> Option<(nat, nat)> {
    match crate::text::cut(s, '/') {
        Some((a, p)) => match (
            crate::ip::ipv4_value(crate::text::trimmed(a)),
            crate::text::unsigned_value(crate::text::trimmed(p), 255),
        ) {
            (Some(addr), Some(prefix)) => if prefix <= 32 {
                Some(
                    ((addr - addr % block((32 - prefix) as nat)) as nat, prefix),
                )
            } else {
                None
            },
            _ => None,
        },
        None => None,
    }
}

/// A block is at least 1, and at most 2^32 for 32 bits.
pub proof fn lemma_block(bits: nat)
    requires
        bits <= 32,
    ensures
        1 <= block(bits) <= 0x1_0000_0000,
        bits > 0 ==> block(bits) >= 2,
        block(32) == 0x1_0000_0000,
{
    reveal_with_fuel(block, 34);
}

/// Blocks of blocks.
proof fn lemma_block_product(a: nat, b: nat)
    ensures
        block(a) * block(b) == block(a + b),
    decreases a,
{
    if a > 0 {
        lemma_block_product((a - 1) as nat, b);
        let x = block((a - 1) as nat);
        let y = block(b);
        assert((2 * x) * y == 2 * (x * y)) by (nonlinear_arith);
        assert((a + b - 1) as nat == (a - 1) as nat + b);
    } else {
        assert(1 * block(b) == block(b));
    }
}

/// A network with its block fits 32 bits.
pub proof fn lemma_network_fits(addr: nat, bits: nat)
    requires
        addr <= u32::MAX,
        bits <= 32,
    ensures
        addr % block(bits) <= addr,
        (addr - addr % block(bits)) % (block(bits) as int) == 0,
        addr - addr % block(bits) + block(bits) <= 0x1_0000_0000,
{
    lemma_block(bits);
    lemma_block((32 - bits) as nat);
    lemma_block_product(bits, (32 - bits) as nat);
    let size = block(bits) as int;
    let count = block((32 - bits) as nat) as int;
    let q = addr as int / size;
    vstd::arithmetic::div_mod::lemma_fundamental_div_mod(addr as int, size);
    assert(addr % block(bits) == addr as int % size);
    assert(0 <= q) by (nonlinear_arith)
        requires
            q == addr as int / size,
            size > 0,
            addr as int >= 0,
    ;
    assert(size * q >= 0) by (nonlinear_arith)
        requires
            q >= 0,
            size > 0,
    ;
    assert(q < count) by (nonlinear_arith)
        requires
            size * q < size * count,
            size > 0,
    ;
    assert(size * q + size <= size * count) by (nonlinear_arith)
        requires
            q + 1 <= count,
            size > 0,
    ;
    vstd::arithmetic::div_mod::lemma_mod_multiples_basic(q, size);
    assert(q * size == size * q) by (nonlinear_arith);
}

/// How many addresses `bits` bits can tell apart.
fn block_size(bits: u64) -> (r: u64)
    requires
        bits <= 32,
    ensures
        r == block(bits as nat),
    decreases bits,
{
    if bits == 0 {
        1
    } else {
        proof {
            lemma_block((bits - 1) as nat);
        }
        2 * block_size(bits - 1)
    }
}

/// Reads an IPv4 network such as `10.7.0.0/24`: its address, with the bits behind the prefix
/// cleared, and the length of its prefix.
pub fn parse_cidr(cidr: &str) -> (r: Option<(u32, u8)>)
    ensures
        match r {
            Some((net, prefix)) => cidr_value(cidr@) == Some((net as nat, prefix as nat)),
            None => cidr_value(cidr@) is None,
        },
{
    match split_once(cidr, '/') {
        Some((a, p)) => match (parse_ipv4(trim(a)), parse_unsigned(trim(p), 255)) {
            (Some(addr), Some(prefix)) => {
                if prefix > 32 {
                    return None;
                }
                proof {
                    lemma_block((32 - prefix) as nat);
                    lemma_network_fits(addr as nat, (32 - prefix) as nat);
                }
                let size: u64 = block_size(32 - prefix);
                let net: u64 = addr as u64 - addr as u64 % size;
                Some((net as u32, prefix as u8))
            },
            _ => None,
        },
        None => None,
    }
}

/// The address that an entry such as `10.7.0.1/24` or `10.7.0.2` holds.
pub open spec fn host_value(s: Seq<char>) -> Option<nat> {
    crate::ip::ipv4_value(crate::text::trimmed(crate::text::split_at_each(s, '/')[0]))
}

/// The address that an entry such as `10.7.0.1/24` or `10.7.0.2` holds.
fn parse_host(s: &str) -> (r: Option<u32>)
    ensures
        match r {
            Some(n) => host_value(s@) == Some(n as nat),
            None => host_value(s@) is None,
        },
{
    match split_once(s, '/') {
        Some((a, _)) => parse_ipv4(trim(a)),
        None => parse_ipv4(trim(s)),
    }
}

/// Whether the server itself or one of its clients has the address `n`.
pub open spec fn taken(cfg: ServerModel, n: nat) -> bool {
    host_value(cfg.address) == Some(n) || exists|i: int|
        0 <= i < cfg.peers.len() && host_value((#[trigger] cfg.peers[i]).assigned_ip) == Some(n)
}

/// The first and the last host address of a network. A network of one address has that one;
/// otherwise the first and the last address of the block are not for hosts.
pub open spec fn host_range(net: nat, prefix: nat) -> (int, int) {
    if prefix >= 32 {
        (net as int, net as int)
    } else {
        (net as int + 1, net + block((32 - prefix) as nat) - 2)
    }
}

/// The lowest address from `n` to `last` that is not taken.
pub open spec fn first_free(cfg: ServerModel, n: int, last: int) -> Option<nat>
    decreases last - n + 1,
{
    if n > last || n < 0 {
        None
    } else if taken(cfg, n as nat) {
        first_free(cfg, n + 1, last)
    } else {
        Some(n as nat)
    }
}

/// The address that the next client gets, or the complaint when there is none to give.
pub open spec fn allocation(cfg: ServerModel) -> Result<nat, Seq<char>> {
    match cidr_value(cfg.subnet) {
        Some((net, prefix)) => {
            let (first, last) = host_range(net, prefix);
            match first_free(cfg, first, last) {
                Some(n) => Ok(n),
                None => Err("subnet "@ + cfg.subnet + " is full — no free host IPs"@),
            }
        },
        None => Err("invalid subnet: "@ + cfg.subnet),
    }
}

/// The address that the next client gets fits 32 bits.
pub proof fn lemma_allocation_fits(cfg: ServerModel)
    requires
        allocation(cfg) is Ok,
    ensures
        allocation(cfg)->Ok_0 <= u32::MAX,
{
    let (net, prefix) = cidr_value(cfg.subnet)->0;
    let (first, last) = host_range(net, prefix);
    lemma_cidr_fits(cfg.subnet);
    lemma_block((32 - prefix) as nat);
    lemma_free_in_range(cfg, first, last);
}

/// The lowest free address is in the range that is looked through.
proof fn lemma_free_in_range(cfg: ServerModel, n: int, last: int)
    ensures
        first_free(cfg, n, last) matches Some(m) ==> n <= m <= last,
    decreases last - n + 1,
{
    if 0 <= n <= last && taken(cfg, n as nat) {
        lemma_free_in_range(cfg, n + 1, last);
    }
}

/// Whether `n` is noted exactly when the server or one of its first `upto` clients has it.
spec fn noted_one(cfg: ServerModel, used: Seq<u32>, upto: int, n: u32) -> bool {
    (exists|k: int| 0 <= k < used.len() && #[trigger] used[k] == n) <==> (host_value(cfg.address)
        == Some(n as nat) || exists|i: int|
        0 <= i < upto && host_value((#[trigger] cfg.peers[i]).assigned_ip) == Some(n as nat))
}

/// Whether the notes hold the addresses of the server and of its first `upto` clients.
spec fn noted(cfg: ServerModel, used: Seq<u32>, upto: int) -> bool {
    forall|n: u32| noted_one(cfg, used, upto, n)
}

/// Noting one more client.
proof fn lemma_noted_step(cfg: ServerModel, was: Seq<u32>, used: Seq<u32>, i: int)
    requires
        0 <= i < cfg.peers.len(),
        noted(cfg, was, i),
        match host_value(cfg.peers[i].assigned_ip) {
            Some(n) => n <= u32::MAX && used == was.push(n as u32),
            None => used == was,
        },
    ensures
        noted(cfg, used, i + 1),
{
    let next = i + 1;
    assert forall|n: u32| noted_one(cfg, used, next, n) by {
        assert(noted_one(cfg, was, i, n));
        let here = host_value(cfg.peers[i].assigned_ip) == Some(n as nat);
        if exists|k: int| 0 <= k < used.len() && #[trigger] used[k] == n {
            let k = choose|k: int| 0 <= k < used.len() && #[trigger] used[k] == n;
            if k < was.len() {
                assert(was[k] == n);
            }
        }
        if exists|k: int| 0 <= k < was.len() && #[trigger] was[k] == n {
            let k = choose|k: int| 0 <= k < was.len() && #[trigger] was[k] == n;
            assert(used[k] == n);
        }
        if here {
            assert(used[was.len() as int] == n);
        }
        if exists|j: int|
            0 <= j < i + 1 && host_value((#[trigger] cfg.peers[j]).assigned_ip) == Some(n as nat) {
            let j = choose|j: int|
                0 <= j < i + 1 && host_value((#[trigger] cfg.peers[j]).assigned_ip) == Some(
                    n as nat,
                );
            assert(j == i || j < i);
        }
        if exists|j: int|
            0 <= j < i && host_value((#[trigger] cfg.peers[j]).assigned_ip) == Some(n as nat) {
            let j = choose|j: int|
                0 <= j < i && host_value((#[trigger] cfg.peers[j]).assigned_ip) == Some(n as nat);
            assert(0 <= j < i + 1 && host_value(cfg.peers[j].assigned_ip) == Some(n as nat));
        }
    }
}

/// Whether `n` is among `used`.
fn is_used(used: &Vec<u32>, n: u32) -> (r: bool)
    ensures
        r == exists|k: int| 0 <= k < used@.len() && #[trigger] used@[k] == n,
{
    let mut k: usize = 0;
    while k < used.len()
        invariant
            k <= used@.len(),
            forall|j: int| 0 <= j < k ==> used@[j] != n,
        decreases used@.len() - k,
    {
        if used[k] == n {
            return true;
        }
        k += 1;
    }
    false
}

/// Notes the address that an entry holds, where it holds one.
fn note_host(used: &mut Vec<u32>, s: &str)
    ensures
        match host_value(s@) {
            Some(n) => n <= u32::MAX && final(used)@ == old(used)@.push(n as u32),
            None => final(used)@ == old(used)@,
        },
{
    if let Some(n) = parse_host(s) {
        used.push(n);
    }
}

/// The addresses that the server and its clients hold.
fn used_addresses(cfg: &ServerConfig) -> (used: Vec<u32>)
    ensures
        forall|n: u32|
            (exists|k: int| 0 <= k < used@.len() && #[trigger] used@[k] == n) <==> #[trigger] taken(
                cfg@,
                n as nat,
            ),
{
    let mut used: Vec<u32> = Vec::new();
    note_host(&mut used, cfg.address.as_str());
    let ghost pv = cfg@.peers;
    let mut i: usize = 0;
    proof {
        assert forall|n: u32| noted_one(cfg@, used@, 0, n) by {
            if host_value(cfg@.address) == Some(n as nat) {
                assert(used@[0] == n);
            }
        }
    }
    while i < cfg.peers.len()
        invariant
            i <= cfg.peers@.len(),
            pv == server_peer_views(cfg.peers@),
            pv == cfg@.peers,
            noted(cfg@, used@, i as int),
        decreases cfg.peers@.len() - i,
    {
        let ghost was = used@;
        note_host(&mut used, cfg.peers[i].assigned_ip.as_str());
        proof {
            assert(pv[i as int].assigned_ip == cfg.peers@[i as int].assigned_ip@);
            lemma_noted_step(cfg@, was, used@, i as int);
        }
        i += 1;
    }
    proof {
        assert forall|n: u32|
            (exists|k: int| 0 <= k < used@.len() && #[trigger] used@[k] == n)
                <==> #[trigger] taken(cfg@, n as nat) by {
            assert(noted_one(cfg@, used@, i as int, n));
        }
    }
    used
}

/// Whether a server is as a new one for `endpoint_host` is: keys that belong together, the default
/// port, address, subnet and DNS servers, and no clients. The interface towards the internet is
/// left open.
pub open spec fn is_fresh(c: ServerModel, endpoint_host: Seq<char>) -> bool {
    &&& c == (ServerModel {
        name: "wg-gui-server"@,
        private_key: c.private_key,
        public_key: c.public_key,
        listen_port: DEFAULT_LISTEN_PORT,
        address: DEFAULT_ADDRESS@,
        subnet: DEFAULT_SUBNET@,
        endpoint_host,
        dns: seq!["1.1.1.1"@, "1.0.0.1"@],
        egress_iface: c.egress_iface,
        peers: Seq::empty(),
    })
    &&& crate::config::keygen::valid_key(c.private_key)
    &&& crate::config::keygen::valid_key(c.public_key)
    &&& crate::config::keygen::derived_public(c.private_key) == Ok::<_, Seq<char>>(c.public_key)
}

impl ServerConfig {
    /// The next free address for a client, or the error that there is none: the subnet cannot be
    /// read, or all its host addresses are taken.
    pub fn next_ip_inner(&self) -> (r: AppResult<String>)
        ensures
            match r {
                Ok(ip) => allocation(self@) is Ok && ip@ == crate::ip::ipv4_text(
                    allocation(self@)->Ok_0,
                ),
                Err(AppError::AllowedIpsError(t)) => allocation(self@) is Err && t@ == allocation(
                    self@,
                )->Err_0,
                Err(_) => false,
            },
    {
        match parse_cidr(self.subnet.as_str()) {
            None => {
                let mut t = "invalid subnet: ".to_owned();
                t.push_str(self.subnet.as_str());
                Err(AppError::AllowedIpsError(t))
            },
            Some((net, prefix)) => {
                proof {
                    lemma_block((32 - prefix) as nat);
                    lemma_cidr_fits(self.subnet@);
                }
                let used = used_addresses(self);
                let bits: u64 = 32 - prefix as u64;
                let (first, last): (u64, u64) = if bits == 0 {
                    (net as u64, net as u64)
                } else {
                    (net as u64 + 1, net as u64 + block_size(bits) - 2)
                };
                let mut n: u64 = first;
                while n <= last
                    invariant
                        first <= n <= last + 1 || n == first,
                        last <= u32::MAX,
                        first <= u32::MAX,
                        cidr_value(self@.subnet) == Some((net as nat, prefix as nat)),
                        host_range(net as nat, prefix as nat) == (first as int, last as int),
                        forall|m: u32|
                            (exists|k: int| 0 <= k < used@.len() && #[trigger] used@[k] == m)
                                <==> #[trigger] taken(self@, m as nat),
                        first_free(self@, n as int, last as int) == first_free(
                            self@,
                            first as int,
                            last as int,
                        ),
                    decreases last + 1 - n,
                {
                    let m: u32 = n as u32;
                    let u = is_used(&used, m);
                    assert(u == taken(self@, m as nat));
                    if !u {
                        return Ok(format_ipv4(m));
                    }
                    n += 1;
                }
                let mut t = "subnet ".to_owned();
                t.push_str(self.subnet.as_str());
                t.push_str(" is full — no free host IPs");
                Err(AppError::AllowedIpsError(t))
            },
        }
    }

    /// The next free address for a client, without a prefix length; `subnet-full` where there is
    /// none.
    pub fn next_ip(&self) -> (r: String)
        ensures
            r@ == (match allocation(self@) {
                Ok(n) => crate::ip::ipv4_text(n),
                Err(_) => "subnet-full"@,
            }),
    {
        match self.next_ip_inner() {
            Ok(ip) => ip,
            Err(_) => "subnet-full".to_owned(),
        }
    }

    /// Adds a client named `name` with fresh keys and the next free address, routing everything
    /// through the tunnel, and gives it back. Nothing changes where no address is free.
    pub fn add_peer(&mut self, name: &str) -> (r: AppResult<&ServerPeer>)
        ensures
            match r {
                Ok(p) => allocation(old(self)@) is Ok && final(self)@ == (ServerModel {
                    peers: old(self)@.peers.push(p@),
                    ..old(self)@
                }) && p@ == (ServerPeerModel {
                    name: name@,
                    public_key: p@.public_key,
                    private_key: p@.private_key,
                    assigned_ip: crate::ip::ipv4_text(allocation(old(self)@)->Ok_0),
                    preshared_key: None,
                    client_allowed_ips: DEFAULT_CLIENT_ALLOWED_IPS@,
                }) && p@.private_key is Some && crate::config::keygen::valid_key(
                    p@.private_key->0,
                ) && crate::config::keygen::valid_key(p@.public_key)
                    && crate::config::keygen::derived_public(p@.private_key->0) == Ok::<
                    _,
                    Seq<char>,
                >(p@.public_key),
                Err(AppError::AllowedIpsError(t)) => allocation(old(self)@) is Err && t@
                    == allocation(old(self)@)->Err_0 && final(self)@ == old(self)@,
                Err(_) => false,
            },
    {
        let ghost before = self.peers@;
        let assigned_ip = match self.next_ip_inner() {
            Ok(ip) => ip,
            Err(e) => {
                return Err(e);
            },
        };
        let (private_key, public_key) = match generate_keypair_sync() {
            Ok(pair) => pair,
            Err(e) => {
                return Err(e);
            },
        };
        let peer = ServerPeer {
            name: name.to_owned(),
            public_key,
            private_key: Some(private_key),
            assigned_ip,
            preshared_key: None,
            client_allowed_ips: DEFAULT_CLIENT_ALLOWED_IPS.to_owned(),
        };
        self.peers.push(peer);
        assert(server_peer_views(self.peers@) =~= server_peer_views(before).push(peer@));
        let n: usize = self.peers.len();
        Ok(&self.peers[n - 1])
    }

    /// Removes the client at `idx`; nothing changes where there is none.
    pub fn remove_peer(&mut self, idx: usize)
        ensures
            final(self)@ == (if idx < old(self)@.peers.len() {
                ServerModel { peers: old(self)@.peers.remove(idx as int), ..old(self)@ }
            } else {
                old(self)@
            }),
    {
        let ghost before = self.peers@;
        if idx < self.peers.len() {
            self.peers.remove(idx);
            assert(server_peer_views(self.peers@) =~= server_peer_views(before).remove(idx as int));
        }
    }

    /// A new server for `endpoint_host`: fresh keys, the default port, address, subnet and DNS
    /// servers, and no clients.
    pub fn generate_new(endpoint_host: &str) -> (r: AppResult<Self>)
        ensures
            r matches Ok(c) && is_fresh(c@, endpoint_host@) && c@.egress_iface is None,
    {
        let (private_key, public_key) = match generate_keypair_sync() {
            Ok(pair) => pair,
            Err(e) => {
                return Err(e);
            },
        };
        let mut dns: Vec<String> = Vec::new();
        dns.push("1.1.1.1".to_owned());
        dns.push("1.0.0.1".to_owned());
        let c = ServerConfig {
            name: "wg-gui-server".to_owned(),
            private_key,
            public_key,
            listen_port: DEFAULT_LISTEN_PORT,
            address: DEFAULT_ADDRESS.to_owned(),
            subnet: DEFAULT_SUBNET.to_owned(),
            endpoint_host: endpoint_host.to_owned(),
            dns,
            egress_iface: None,
            peers: Vec::new(),
        };
        proof {
            assert(c@.dns =~= seq!["1.1.1.1"@, "1.0.0.1"@]);
            assert(c@.peers =~= Seq::empty());
        }
        Ok(c)
    }
}

/// Generates a fresh pair of private and public key, both in base64.
fn generate_keypair_sync() -> (r: AppResult<(String, String)>)
    ensures
        r is Ok,
        crate::config::keygen::derived_public(r->Ok_0.0@) == Ok::<_, Seq<char>>(r->Ok_0.1@),
        crate::config::keygen::valid_key(r->Ok_0.0@),
        crate::config::keygen::valid_key(r->Ok_0.1@),
{
    generate_keypair()
}

/// The least width and height of a QR code's picture, in pixels.
pub const QR_MIN_SIZE: u32 = 256;

/// A PNG file that shows `text` as a QR code, at least 256 pixels wide and high and with a quiet
/// zone around it. The file decodes to the picture of the code again.
pub fn qr_png(text: &str) -> (r: AppResult<Vec<u8>>)
    ensures
        ({
            let p = crate::qr::qr_picture(text@, QR_MIN_SIZE, true);
            let o = crate::qr::png_outcome(p);
            match r {
                Ok(b) => o == Ok::<_, Seq<char>>(b@) && crate::qr::shows_rendered(b@, p),
                Err(AppError::ExportFailed(t)) => o == Err::<Seq<u8>, _>(t@),
                Err(_) => false,
            }
        }),
{
    png_from_rendered(render_qr(text, QR_MIN_SIZE, true))
}

/// A network that can be read lies, with its whole block, within 32 bits.
pub proof fn lemma_cidr_fits(s: Seq<char>)
    requires
        cidr_value(s) is Some,
    ensures
        cidr_value(s) matches Some((net, prefix)) && prefix <= 32 && net + block(
            (32 - prefix) as nat,
        ) <= 0x1_0000_0000,
{
    let (a, p) = crate::text::cut(s, '/')->0;
    let addr = crate::ip::ipv4_value(crate::text::trimmed(a))->0;
    let prefix = crate::text::unsigned_value(crate::text::trimmed(p), 255)->0;
    crate::ip::lemma_ipv4_fits(crate::text::trimmed(a));
    lemma_network_fits(addr, (32 - prefix) as nat);
}

} // verus!
