//! What reading a `.conf` text keeps of it.

use crate::config::profile::{ConfState, InterfaceModel, PeerModel, SectionModel, WgProfile};
use crate::error::AppResult;
use vstd::prelude::*;

verus! {

// ── lists ───────────────────────────────────────────────────────────────────

/// What filled parts come to is the same piece by piece.
proof fn lemma_filled_add(a: Seq<Seq<char>>, b: Seq<Seq<char>>)
    ensures
        crate::config::profile::filled_parts(a + b) == crate::config::profile::filled_parts(a)
            + crate::config::profile::filled_parts(b),
    decreases b.len(),
{
    if b.len() == 0 {
        assert(a + b =~= a);
        assert(crate::config::profile::filled_parts(a) + crate::config::profile::filled_parts(b)
            =~= crate::config::profile::filled_parts(a));
    } else {
        lemma_filled_add(a, b.drop_last());
        assert((a + b).drop_last() =~= a + b.drop_last());
        assert(crate::config::profile::filled_parts(a + b) =~= crate::config::profile::filled_parts(
            a,
        ) + crate::config::profile::filled_parts(b));
    }
}

/// A comma parts a list in two, whose items come one behind the other; without a comma there is one
/// item, without the white space around it, or none where it is blank.
pub proof fn law_commas_part_lists(a: Seq<char>, b: Seq<char>)
    requires
        !a.contains(','),
    ensures
        crate::config::profile::list_items(a) == if crate::text::trimmed(a).len() > 0 {
            seq![crate::text::trimmed(a)]
        } else {
            Seq::empty()
        },
        crate::config::profile::list_items(a + seq![','] + b) == crate::config::profile::list_items(
            a,
        ) + crate::config::profile::list_items(b),
{
    let whole = a + seq![','] + b;
    let i = a.len() as int;
    assert forall|j: int| 0 <= j < i implies whole[j] != ',' by {
        assert(whole[j] == a[j]);
        assert(a.contains(a[j]));
    }
    crate::text::lemma_find_at(whole, ',', i);
    assert forall|j: int| 0 <= j < i implies a[j] != ',' by {
        assert(a.contains(a[j]));
    }
    crate::text::lemma_find_at(a, ',', i);
    assert(whole.take(i) =~= a);
    assert(whole.skip(i + 1) =~= b);
    assert(crate::text::split_at_each(a, ',') =~= seq![a]);
    assert(seq![a].drop_last() =~= Seq::<Seq<char>>::empty());
    assert(seq![a].last() == a);
    reveal_with_fuel(crate::config::profile::filled_parts, 2);
    assert(crate::config::profile::filled_parts(Seq::<Seq<char>>::empty()).len() == 0);
    assert(crate::config::profile::list_items(a) =~= if crate::text::trimmed(a).len() > 0 {
        seq![crate::text::trimmed(a)]
    } else {
        Seq::empty()
    });
    lemma_filled_add(seq![a], crate::text::split_at_each(b, ','));
}

// ── entries ─────────────────────────────────────────────────────────────────

/// Whether a number that may be missing is the one in a text.
pub open spec fn is_number_in(n: Option<u16>, value: Seq<char>) -> bool {
    n is Some && crate::text::unsigned_value(value, 65535) == Some(n->0 as nat)
}

/// Whether `q` is a peer after an entry of the lower-case key `k`, and was `p` before it: lists grow
/// by the items of their entries, any other field takes the value of its entry, and each field has
/// its own key.
pub open spec fn peer_takes(p: PeerModel, q: PeerModel, k: Seq<char>, value: Seq<char>) -> bool {
    &&& q.public_key == if k == "publickey"@ {
        value
    } else {
        p.public_key
    }
    &&& q.preshared_key == if k == "presharedkey"@ {
        Some(value)
    } else {
        p.preshared_key
    }
    &&& q.endpoint == if k == "endpoint"@ {
        Some(value)
    } else {
        p.endpoint
    }
    &&& q.allowed_ips == if k == "allowedips"@ {
        p.allowed_ips + crate::config::profile::list_items(value)
    } else {
        p.allowed_ips
    }
    &&& if k == "persistentkeepalive"@ {
        is_number_in(q.persistent_keepalive, value)
    } else {
        q.persistent_keepalive == p.persistent_keepalive
    }
}

/// Whether `j` is an interface after an entry of the lower-case key `k`, and was `i` before it.
pub open spec fn interface_takes(
    i: InterfaceModel,
    j: InterfaceModel,
    k: Seq<char>,
    value: Seq<char>,
) -> bool {
    &&& j.private_key == if k == "privatekey"@ {
        value
    } else {
        i.private_key
    }
    &&& j.address == if k == "address"@ {
        i.address + crate::config::profile::list_items(value)
    } else {
        i.address
    }
    &&& j.dns == if k == "dns"@ {
        i.dns + crate::config::profile::list_items(value)
    } else {
        i.dns
    }
    &&& if k == "listenport"@ {
        is_number_in(j.listen_port, value)
    } else {
        j.listen_port == i.listen_port
    }
    &&& if k == "mtu"@ {
        is_number_in(j.mtu, value)
    } else {
        j.mtu == i.mtu
    }
}

/// An entry of a peer fills the field of its key, whatever the case of the key, and leaves all else
/// as it was: the interface, the peers before, and what was read of this one. A key that is not
/// known does nothing. Only a number that cannot be read is refused.
pub proof fn law_peer_entries_fill_their_field(
    st: ConfState,
    p: PeerModel,
    key: Seq<char>,
    value: Seq<char>,
    n: nat,
)
    requires
        st.section == SectionModel::Peer(p),
    ensures
        ({
            let k = crate::text::lowercase(key);
            match crate::config::profile::entry_line(st, key, value, n) {
                Ok(next) => next.interface == st.interface && next.peers == st.peers
                    && next.section is Peer && peer_takes(p, next.section->Peer_0, k, value),
                Err(e) => k == "persistentkeepalive"@ && crate::text::unsigned_value(value, 65535)
                    is None && e == "invalid PersistentKeepalive '"@ + value + "' at line "@
                    + crate::text::decimal(n),
            }
        }),
{
    crate::config::round_trip::lemma_peer_keys();
    reveal_strlit("invalid ");
    reveal_strlit("PersistentKeepalive");
    reveal_strlit(" '");
    reveal_strlit("'");
    reveal_strlit(" at line ");
    reveal_strlit("invalid PersistentKeepalive '");
    reveal_strlit("' at line ");
    assert(crate::config::profile::bad_number("PersistentKeepalive"@, value, n)
        =~= "invalid PersistentKeepalive '"@ + value + "' at line "@ + crate::text::decimal(n));
}

/// An entry of the interface fills the field of its key, whatever the case of the key, and leaves
/// all else as it was. A key that is not known does nothing. Only a number that cannot be read is
/// refused.
pub proof fn law_interface_entries_fill_their_field(
    st: ConfState,
    key: Seq<char>,
    value: Seq<char>,
    n: nat,
)
    requires
        st.section is Interface,
    ensures
        ({
            let k = crate::text::lowercase(key);
            match crate::config::profile::entry_line(st, key, value, n) {
                Ok(next) => next.peers == st.peers && next.section is Interface && interface_takes(
                    st.interface,
                    next.interface,
                    k,
                    value,
                ),
                Err(e) => crate::text::unsigned_value(value, 65535) is None && (k == "listenport"@
                    && e == "invalid ListenPort '"@ + value + "' at line "@ + crate::text::decimal(n)
                    || k == "mtu"@ && e == "invalid MTU '"@ + value + "' at line "@
                    + crate::text::decimal(n)),
            }
        }),
{
    crate::config::round_trip::lemma_interface_keys();
    reveal_strlit("invalid ");
    reveal_strlit("ListenPort");
    reveal_strlit("MTU");
    reveal_strlit(" '");
    reveal_strlit("'");
    reveal_strlit(" at line ");
    reveal_strlit("invalid ListenPort '");
    reveal_strlit("invalid MTU '");
    reveal_strlit("' at line ");
    assert(crate::config::profile::bad_number("ListenPort"@, value, n) =~= "invalid ListenPort '"@
        + value + "' at line "@ + crate::text::decimal(n));
    assert(crate::config::profile::bad_number("MTU"@, value, n) =~= "invalid MTU '"@ + value
        + "' at line "@ + crate::text::decimal(n));
}

/// An entry before any section is refused, with its key and its line.
pub proof fn law_entries_need_a_section(
    st: ConfState,
    key: Seq<char>,
    value: Seq<char>,
    n: nat,
)
    requires
        st.section is Outside,
    ensures
        crate::config::profile::entry_line(st, key, value, n) == Err::<ConfState, Seq<char>>(
            "key '"@ + key + "' at line "@ + crate::text::decimal(n)
                + " appears before any section header"@,
        ),
{
    reveal_strlit("'");
    reveal_strlit(" at line ");
    reveal_strlit("' at line ");
    assert("key '"@ + key + "'"@ + crate::config::profile::at_line(n)
        + " appears before any section header"@ =~= "key '"@ + key + "' at line "@
        + crate::text::decimal(n) + " appears before any section header"@);
}

// ── lines ───────────────────────────────────────────────────────────────────

/// Two lines that give routes to a peer give it the routes of both, in order, behind those it had:
/// no route that was read is lost.
pub proof fn law_routes_of_all_lines_count(
    st: ConfState,
    p: PeerModel,
    one: Seq<char>,
    two: Seq<char>,
    n: nat,
)
    requires
        st.section == SectionModel::Peer(p),
        crate::config::round_trip::clean_value(one),
        crate::config::round_trip::clean_value(two),
    ensures
        ({
            let rows = seq!["AllowedIPs = "@ + one, "AllowedIPs = "@ + two];
            let after = crate::config::profile::conf_lines(st, rows, n);
            &&& after is Ok
            &&& after->Ok_0.section is Peer
            &&& after->Ok_0.section->Peer_0.allowed_ips == p.allowed_ips
                + crate::config::profile::list_items(one) + crate::config::profile::list_items(two)
            &&& after->Ok_0.peers == st.peers && after->Ok_0.interface == st.interface
        }),
{
    let rows = seq!["AllowedIPs = "@ + one, "AllowedIPs = "@ + two];
    crate::config::round_trip::lemma_peer_keys();
    reveal_strlit("AllowedIPs = ");
    reveal_strlit("AllowedIPs");
    reveal_strlit(" = ");
    assert("AllowedIPs = "@ + one =~= crate::config::profile::conf_row("AllowedIPs"@, one));
    assert("AllowedIPs = "@ + two =~= crate::config::profile::conf_row("AllowedIPs"@, two));
    crate::config::round_trip::lemma_row(st, "AllowedIPs"@, one, n);
    law_peer_entries_fill_their_field(st, p, "AllowedIPs"@, one, n);
    let mid = crate::config::profile::entry_line(st, "AllowedIPs"@, one, n)->Ok_0;
    crate::config::round_trip::lemma_row(mid, "AllowedIPs"@, two, n + 1);
    law_peer_entries_fill_their_field(mid, mid.section->Peer_0, "AllowedIPs"@, two, n + 1);
    assert(rows.skip(1) =~= seq!["AllowedIPs = "@ + two]);
    assert(rows.skip(1).skip(1) =~= Seq::<Seq<char>>::empty());
    reveal_with_fuel(crate::config::profile::conf_lines, 4);
}

/// Two lines that give addresses, or name servers, to the interface give it those of both, in order.
pub proof fn law_addresses_of_all_lines_count(
    st: ConfState,
    address: Seq<char>,
    dns: Seq<char>,
    n: nat,
)
    requires
        st.section is Interface,
        crate::config::round_trip::clean_value(address),
        crate::config::round_trip::clean_value(dns),
    ensures
        ({
            let a = crate::config::profile::conf_line(st, "Address = "@ + address, n);
            let d = crate::config::profile::conf_line(st, "DNS = "@ + dns, n);
            &&& a is Ok && d is Ok
            &&& a->Ok_0.interface.address == st.interface.address
                + crate::config::profile::list_items(address)
            &&& a->Ok_0.interface.dns == st.interface.dns
            &&& d->Ok_0.interface.dns == st.interface.dns + crate::config::profile::list_items(dns)
            &&& d->Ok_0.interface.address == st.interface.address
        }),
{
    crate::config::round_trip::lemma_interface_keys();
    reveal_strlit("Address = ");
    reveal_strlit("Address");
    reveal_strlit("DNS = ");
    reveal_strlit("DNS");
    reveal_strlit(" = ");
    assert("Address = "@ + address =~= crate::config::profile::conf_row("Address"@, address));
    assert("DNS = "@ + dns =~= crate::config::profile::conf_row("DNS"@, dns));
    crate::config::round_trip::lemma_row(st, "Address"@, address, n);
    crate::config::round_trip::lemma_row(st, "DNS"@, dns, n);
    law_interface_entries_fill_their_field(st, "Address"@, address, n);
    law_interface_entries_fill_their_field(st, "DNS"@, dns, n);
}

/// A header begins its section and keeps all that was read: the peer being read joins those before
/// it, and a new peer says nothing yet.
pub proof fn law_headers_begin_sections(st: ConfState, n: nat)
    ensures
        ({
            let interface = crate::config::profile::conf_line(st, "[Interface]"@, n);
            let peer = crate::config::profile::conf_line(st, "[Peer]"@, n);
            let peers = match st.section {
                SectionModel::Peer(p) => st.peers.push(p),
                _ => st.peers,
            };
            &&& interface is Ok && interface->Ok_0.section is Interface
            &&& interface->Ok_0.peers == peers && interface->Ok_0.interface == st.interface
            &&& peer is Ok && peer->Ok_0.section is Peer
            &&& peer->Ok_0.peers == peers && peer->Ok_0.interface == st.interface
            &&& peer->Ok_0.section->Peer_0.public_key.len() == 0
            &&& peer->Ok_0.section->Peer_0.preshared_key is None
            &&& peer->Ok_0.section->Peer_0.endpoint is None
            &&& peer->Ok_0.section->Peer_0.allowed_ips.len() == 0
            &&& peer->Ok_0.section->Peer_0.persistent_keepalive is None
        }),
{
    crate::config::round_trip::lemma_headers(st, n);
}

/// A line that is blank but for a comment does nothing; one that is neither a header nor an entry is
/// refused with its number.
pub proof fn law_other_lines(st: ConfState, raw: Seq<char>, n: nat)
    ensures
        ({
            let line = crate::config::profile::bare_line(raw);
            let r = crate::config::profile::conf_line(st, raw, n);
            &&& line.len() == 0 ==> r == Ok::<_, Seq<char>>(st)
            &&& line.len() > 0 && line[0] != '[' && !line.contains('=') ==> r == Err::<
                ConfState,
                _,
            >(
                "malformed line "@ + crate::text::decimal(n) + " (no '='): "@
                    + crate::text::debug_quoted(raw),
            )
        }),
{
    let line = crate::config::profile::bare_line(raw);
    crate::text::lemma_find(line, '=');
}

/// What a line says behind the first `#` or `;` does not count.
pub proof fn law_comments_do_not_count(line: Seq<char>, sign: char, comment: Seq<char>)
    requires
        sign == '#' || sign == ';',
        !line.contains('#'),
        !line.contains(';'),
    ensures
        crate::config::profile::bare_line(line + seq![sign] + comment) == crate::text::trimmed(line),
        crate::config::profile::bare_line(line) == crate::text::trimmed(line),
{
    let raw = line + seq![sign] + comment;
    let i = first_black(line, 0);
    lemma_first_black(line, 0);
    let at = line.len() - i;
    assert forall|j: int| 0 <= j < i implies crate::text::whitespace(raw[j]) by {
        assert(raw[j] == line[j]);
    }
    assert(i < line.len() ==> raw[i] == line[i]);
    assert(i == line.len() ==> raw[i] == sign);
    crate::text::lemma_trim_start_at(raw, i);
    crate::text::lemma_trim_start_at(line, i);
    let front = raw.skip(i);
    let b = last_black(front, front.len() as int, at);
    lemma_last_black(front, front.len() as int, at);
    crate::text::lemma_trim_end_at(front, b);
    let kept = front.take(b);
    assert forall|j: int| 0 <= j < at implies kept[j] != '#' && kept[j] != ';' by {
        assert(kept[j] == line[i + j]);
        assert(line.contains(line[i + j]));
    }
    assert(kept[at] == sign);
    crate::text::lemma_find(kept, '#');
    crate::text::lemma_find(kept, ';');
    crate::text::lemma_find_at(kept, sign, at);
    let start = crate::config::profile::comment_start(kept);
    assert(start == at);
    let rest = line.skip(i);
    assert(kept.take(at) =~= rest);
    assert(crate::text::trim_start(rest) == rest);
    // The line without a comment.
    let own = crate::text::trimmed(line);
    crate::text::lemma_trimmed(line);
    assert forall|j: int| 0 <= j < own.len() implies own[j] != '#' && own[j] != ';' by {
        assert(line.contains(own[j]));
    }
    crate::text::lemma_find_at(own, '#', own.len() as int);
    crate::text::lemma_find_at(own, ';', own.len() as int);
    assert(own.take(own.len() as int) =~= own);
    crate::text::lemma_trim_keeps(own);
}

/// The first position from `i` on that holds no white space, or the end.
spec fn first_black(s: Seq<char>, i: int) -> int
    decreases s.len() - i,
{
    if 0 <= i < s.len() && crate::text::whitespace(s[i]) {
        first_black(s, i + 1)
    } else {
        i
    }
}

proof fn lemma_first_black(s: Seq<char>, i: int)
    requires
        0 <= i <= s.len(),
    ensures
        i <= first_black(s, i) <= s.len(),
        forall|j: int| i <= j < first_black(s, i) ==> crate::text::whitespace(s[j]),
        first_black(s, i) < s.len() ==> !crate::text::whitespace(s[first_black(s, i)]),
    decreases s.len() - i,
{
    if i < s.len() && crate::text::whitespace(s[i]) {
        lemma_first_black(s, i + 1);
    }
}

/// The position behind the last character before `i` that is no white space, at `low` or later.
spec fn last_black(s: Seq<char>, i: int, low: int) -> int
    decreases i - low,
{
    if low < i <= s.len() && crate::text::whitespace(s[i - 1]) {
        last_black(s, i - 1, low)
    } else {
        i
    }
}

proof fn lemma_last_black(s: Seq<char>, i: int, low: int)
    requires
        0 <= low < i <= s.len(),
        !crate::text::whitespace(s[low]),
    ensures
        low < last_black(s, i, low) <= i,
        forall|j: int| last_black(s, i, low) <= j < i ==> crate::text::whitespace(s[j]),
        !crate::text::whitespace(s[last_black(s, i, low) - 1]),
    decreases i - low,
{
    if crate::text::whitespace(s[i - 1]) {
        lemma_last_black(s, i - 1, low);
    }
}

// ── texts ───────────────────────────────────────────────────────────────────

/// A text is read line by line: what its first lines come to is what the others go on from, and the
/// first line that is refused ends the reading with its number.
pub proof fn law_lines_are_read_in_order(
    st: ConfState,
    a: Seq<Seq<char>>,
    b: Seq<Seq<char>>,
    n: nat,
)
    ensures
        match crate::config::profile::conf_lines(st, a, n) {
            Ok(mid) => crate::config::profile::conf_lines(st, a + b, n)
                == crate::config::profile::conf_lines(mid, b, n + a.len()),
            Err(e) => crate::config::profile::conf_lines(st, a + b, n) == Err::<ConfState, _>(e),
        },
    decreases a.len(),
{
    if a.len() == 0 {
        assert(a + b =~= b);
    } else {
        assert((a + b)[0] == a[0]);
        assert((a + b).skip(1) =~= a.skip(1) + b);
        if let Ok(next) = crate::config::profile::conf_line(st, a[0], n) {
            law_lines_are_read_in_order(next, a.skip(1), b, n + 1);
        }
    }
}

/// All that was read ends up in the profile: the interface, and every peer in order with the one at
/// the text's end, under the given name and without a path. Lines count from one.
pub proof fn law_all_that_was_read_is_kept(name: Seq<char>, content: Seq<char>, st: ConfState)
    requires
        crate::config::profile::conf_lines(
            crate::config::profile::conf_start(),
            crate::text::lines_of(content),
            1,
        ) == Ok::<_, Seq<char>>(st),
    ensures
        ({
            let r = crate::config::profile::parsed_conf(name, content);
            let start = crate::config::profile::conf_start();
            &&& r is Ok
            &&& r->Ok_0.name == name && r->Ok_0.path is None
            &&& r->Ok_0.interface == st.interface
            &&& st.section matches SectionModel::Peer(p) ==> r->Ok_0.peers == st.peers.push(p)
            &&& !(st.section is Peer) ==> r->Ok_0.peers == st.peers
            &&& start.peers.len() == 0 && start.section is Outside
            &&& start.interface.address.len() == 0 && start.interface.dns.len() == 0
            &&& start.interface.private_key.len() == 0
            &&& start.interface.listen_port is None && start.interface.mtu is None
        }),
{
}

/// The lines of a text behind another that ends with a line feed.
proof fn lemma_lines_behind(a: Seq<char>, b: Seq<char>)
    requires
        a.len() > 0 ==> a.last() == '\n',
    ensures
        crate::text::lines_of(a + b) == crate::text::lines_of(a) + crate::text::lines_of(b),
    decreases a.len(),
{
    let s = a + b;
    if a.len() == 0 {
        assert(s =~= b);
        assert(crate::text::lines_of(a) + crate::text::lines_of(b) =~= crate::text::lines_of(b));
    } else {
        let i = crate::text::find(a, '\n');
        crate::text::lemma_find(a, '\n');
        assert(a.contains('\n')) by {
            assert(a[a.len() - 1] == '\n');
        }
        assert forall|j: int| 0 <= j < i implies s[j] != '\n' by {
            assert(s[j] == a[j]);
        }
        assert(s[i] == '\n');
        crate::text::lemma_find_at(s, '\n', i);
        let rest = a.skip(i + 1);
        assert(s.take(i) =~= a.take(i));
        assert(s.skip(i + 1) =~= rest + b);
        if rest.len() > 0 {
            assert(rest.last() == a.last());
        }
        lemma_lines_behind(rest, b);
        assert(crate::text::lines_of(s) =~= crate::text::lines_of(a) + crate::text::lines_of(b));
    }
}

/// Whether reading a text ends in the section of a peer.
pub open spec fn ends_in_a_peer(text: Seq<char>) -> bool {
    let st = crate::config::profile::conf_lines(
        crate::config::profile::conf_start(),
        crate::text::lines_of(text),
        1,
    );
    &&& text.len() > 0 && text.last() == '\n'
    &&& st is Ok && st->Ok_0.section is Peer
}

/// Another line of routes at the end of a text gives the last peer more routes, behind those that
/// the text gave it; all else that was read stays.
pub proof fn law_another_line_adds_routes(
    name: &str,
    text: &str,
    longer: &str,
    value: Seq<char>,
    one: AppResult<WgProfile>,
    two: AppResult<WgProfile>,
)
    requires
        call_ensures(WgProfile::from_conf_str, (name, text), one),
        call_ensures(WgProfile::from_conf_str, (name, longer), two),
        ends_in_a_peer(text@),
        crate::config::round_trip::clean_value(value),
        longer@ == text@ + "AllowedIPs = "@ + value + "\n"@,
    ensures
        one is Ok && two is Ok,
        ({
            let was = one->Ok_0@;
            let now = two->Ok_0@;
            let k = was.peers.len() - 1;
            &&& k >= 0 && now.peers.len() == was.peers.len()
            &&& now.peers[k].allowed_ips == was.peers[k].allowed_ips
                + crate::config::profile::list_items(value)
            &&& now.peers[k].public_key == was.peers[k].public_key
            &&& now.peers[k].preshared_key == was.peers[k].preshared_key
            &&& now.peers[k].endpoint == was.peers[k].endpoint
            &&& now.peers[k].persistent_keepalive == was.peers[k].persistent_keepalive
            &&& now.peers.drop_last() == was.peers.drop_last()
            &&& now.interface == was.interface && now.name == name@
        }),
{
    let rows = crate::text::lines_of(text@);
    let start = crate::config::profile::conf_start();
    let st = crate::config::profile::conf_lines(start, rows, 1)->Ok_0;
    let row = crate::config::profile::conf_row("AllowedIPs"@, value);
    crate::config::round_trip::lemma_peer_keys();
    reveal_strlit("AllowedIPs = ");
    reveal_strlit("AllowedIPs");
    reveal_strlit(" = ");
    reveal_strlit("\n");
    let n = rows.len() + 1;
    crate::config::round_trip::lemma_row(st, "AllowedIPs"@, value, n);
    assert("AllowedIPs = "@ + value =~= row);
    let end = row + "\n"@;
    assert(longer@ =~= text@ + end);
    lemma_lines_behind(text@, end);
    assert(end =~= row + "\n"@ + Seq::<char>::empty());
    crate::text::lemma_lines_front(row, Seq::empty());
    assert(crate::text::lines_of(end) =~= seq![row]);
    crate::config::round_trip::lemma_lines_add(start, rows, seq![row], 1, st);
    law_peer_entries_fill_their_field(st, st.section->Peer_0, "AllowedIPs"@, value, n);
    assert(seq![row].skip(1) =~= Seq::<Seq<char>>::empty());
    reveal_with_fuel(crate::config::profile::conf_lines, 3);
    let was = one->Ok_0@;
    let now = two->Ok_0@;
    assert(was.peers.drop_last() =~= st.peers);
    assert(now.peers.drop_last() =~= st.peers);
}

} // verus!
