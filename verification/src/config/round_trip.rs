//! Writing a profile and reading it back.

use crate::config::profile::{ConfState, InterfaceModel, PeerModel, ProfileModel, SectionModel};
use vstd::prelude::*;

verus! {

/// A value that a `.conf` line can carry: no line feed, nothing that starts a comment, and no
/// white space at its ends.
pub open spec fn clean_value(v: Seq<char>) -> bool {
    &&& crate::text::is_trimmed(v)
    &&& !v.contains('\n')
    &&& !v.contains('#')
    &&& !v.contains(';')
}

/// An item that a comma-separated list can carry.
pub open spec fn clean_item(v: Seq<char>) -> bool {
    clean_value(v) && v.len() > 0 && !v.contains(',')
}

/// A list whose items can all be carried.
pub open spec fn clean_list(items: Seq<Seq<char>>) -> bool {
    forall|i: int| 0 <= i < items.len() ==> clean_item(#[trigger] items[i])
}

/// A missing value, or one that a line can carry.
pub open spec fn clean_option(v: Option<Seq<char>>) -> bool {
    v matches Some(s) ==> clean_value(s)
}

/// A section whose values can all be carried.
pub open spec fn clean_interface(i: InterfaceModel) -> bool {
    clean_value(i.private_key) && clean_list(i.address) && clean_list(i.dns)
}

/// A section whose values can all be carried.
pub open spec fn clean_peer(p: PeerModel) -> bool {
    clean_value(p.public_key) && clean_option(p.preshared_key) && clean_option(p.endpoint)
        && clean_list(p.allowed_ips)
}

/// A profile whose values can all be carried by `.conf` text.
pub open spec fn clean_profile(p: ProfileModel) -> bool {
    clean_interface(p.interface) && forall|i: int|
        0 <= i < p.peers.len() ==> clean_peer(#[trigger] p.peers[i])
}

/// Whether `key` is made of ASCII letters.
pub open spec fn letters(key: Seq<char>) -> bool {
    key.len() > 0 && forall|i: int|
        0 <= i < key.len() ==> ('a' <= #[trigger] key[i] <= 'z' || 'A' <= key[i] <= 'Z')
}

/// A line made of a key and a value reads as that key with that value.
pub proof fn lemma_row(
    st: ConfState,
    key: Seq<char>,
    value: Seq<char>,
    n: nat,
)
    requires
        letters(key),
        clean_value(value),
    ensures
        ({
            let row = crate::config::profile::conf_row(key, value);
            &&& crate::config::profile::conf_line(st, row, n)
                == crate::config::profile::entry_line(st, key, value, n)
            &&& !row.contains('\n')
            &&& crate::text::without_cr(row) == row
        }),
{
    reveal_strlit(" = ");
    let row = crate::config::profile::conf_row(key, value);
    let k = key.len() as int;
    assert(forall|i: int| 0 <= i < k ==> row[i] == key[i]);
    assert(row[k] == ' ' && row[k + 1] == '=' && row[k + 2] == ' ');
    assert(forall|i: int| k + 3 <= i < row.len() ==> row[i] == value[i - k - 3]);
    let line = if value.len() > 0 {
        row
    } else {
        row.take(k + 2)
    };
    if value.len() > 0 {
        assert(row.last() == value.last());
        crate::text::lemma_trim_keeps(row);
    } else {
        crate::text::lemma_trim_start_at(row, 0);
        assert(row.skip(0) =~= row);
        crate::text::lemma_trim_end_at(row, k + 2);
    }
    assert(crate::text::trimmed(row) == line);
    assert(forall|i: int| 0 <= i < line.len() ==> line[i] == row[i]);
    assert forall|i: int| 0 <= i < line.len() implies line[i] != '#' && line[i] != ';' by {
        if i >= k + 3 {
            assert(value.contains(value[i - k - 3]));
        }
    }
    crate::text::lemma_find_at(line, '#', line.len() as int);
    crate::text::lemma_find_at(line, ';', line.len() as int);
    assert(line.take(line.len() as int) =~= line);
    crate::text::lemma_trim_keeps(line);
    assert(crate::config::profile::bare_line(row) == line);
    crate::text::lemma_find_at(line, '=', k + 1);
    let a = line.take(k + 1);
    let b = line.skip(k + 2);
    crate::text::lemma_trim_start_at(a, 0);
    assert(a.skip(0) =~= a);
    crate::text::lemma_trim_end_at(a, k);
    assert(a.take(k) =~= key);
    if value.len() > 0 {
        crate::text::lemma_trim_start_at(b, 1);
        assert(b.skip(1) =~= value);
    } else {
        assert(b =~= value);
    }
    crate::text::lemma_trim_keeps(value);
    assert forall|i: int| 0 <= i < row.len() implies row[i] != '\n' by {
        if i >= k + 3 {
            assert(value.contains(value[i - k - 3]));
        }
    }
}

/// Reading one run of lines behind another.
pub proof fn lemma_lines_add(
    st: ConfState,
    a: Seq<Seq<char>>,
    b: Seq<Seq<char>>,
    n: nat,
    mid: ConfState,
)
    requires
        crate::config::profile::conf_lines(st, a, n) == Ok::<_, Seq<char>>(mid),
    ensures
        crate::config::profile::conf_lines(st, a + b, n) == crate::config::profile::conf_lines(
            mid,
            b,
            n + a.len(),
        ),
    decreases a.len(),
{
    if a.len() == 0 {
        assert(a + b =~= b);
    } else {
        let next = crate::config::profile::conf_line(st, a[0], n)->Ok_0;
        lemma_lines_add(next, a.skip(1), b, n + 1, mid);
        assert((a + b)[0] == a[0]);
        assert((a + b).skip(1) =~= a.skip(1) + b);
    }
}

/// A joined list of clean items is a clean value, and splits into the same items.
proof fn lemma_list(items: Seq<Seq<char>>)
    requires
        clean_list(items),
        items.len() > 0,
    ensures
        clean_value(crate::text::joined(items, ", "@)),
        crate::text::joined(items, ", "@).len() > 0,
        crate::config::profile::list_items(crate::text::joined(items, ", "@)) == items,
    decreases items.len(),
{
    reveal_strlit(", ");
    let s = crate::text::joined(items, ", "@);
    if items.len() == 1 {
        let v = items[0];
        assert(clean_item(v));
        crate::text::lemma_split_whole(v, ',');
        let parts = seq![v];
        assert(parts.drop_last() =~= Seq::<Seq<char>>::empty());
        crate::text::lemma_trim_keeps(v);
        assert(crate::config::profile::filled_parts(parts.drop_last()) =~= Seq::<
            Seq<char>,
        >::empty());
        assert(crate::config::profile::filled_parts(parts) =~= items);
    } else {
        let init = items.drop_last();
        let last = items.last();
        assert(clean_item(items[items.len() - 1]));
        assert forall|i: int| 0 <= i < init.len() implies clean_item(#[trigger] init[i]) by {
            assert(init[i] == items[i]);
        }
        lemma_list(init);
        let t = crate::text::joined(init, ", "@);
        let tail = seq![' '] + last;
        assert(s =~= t + seq![','] + tail);
        crate::text::lemma_split_add(t, tail, ',');
        assert(!tail.contains(',')) by {
            assert forall|i: int| 0 <= i < tail.len() implies tail[i] != ',' by {
                if i > 0 {
                    assert(last.contains(tail[i]));
                }
            }
        }
        crate::text::lemma_split_whole(tail, ',');
        let parts = crate::text::split_at_each(s, ',');
        assert(parts.drop_last() =~= crate::text::split_at_each(t, ','));
        assert(parts.last() == tail);
        crate::text::lemma_trim_start_at(tail, 1);
        assert(tail.skip(1) =~= last);
        crate::text::lemma_trim_keeps(last);
        assert(crate::config::profile::filled_parts(parts) =~= items);
        assert(s[0] == t[0]);
        assert(s.last() == last.last());
        assert forall|i: int|
            0 <= i < s.len() implies s[i] != '\n' && s[i] != '#' && s[i] != ';' by {
            if i < t.len() {
                assert(t.contains(s[i]));
            } else if i >= t.len() + 2 {
                assert(last.contains(s[i]));
            }
        }
    }
}

/// The keys of the `[Interface]` section are letters, known by their lower-case forms.
pub proof fn lemma_interface_keys()
    ensures
        letters("PrivateKey"@) && crate::text::lowercase("PrivateKey"@) == "privatekey"@,
        letters("Address"@) && crate::text::lowercase("Address"@) == "address"@,
        letters("DNS"@) && crate::text::lowercase("DNS"@) == "dns"@,
        letters("ListenPort"@) && crate::text::lowercase("ListenPort"@) == "listenport"@,
        letters("MTU"@) && crate::text::lowercase("MTU"@) == "mtu"@,
        "address"@ != "privatekey"@,
        "dns"@ != "privatekey"@ && "dns"@ != "address"@,
        "listenport"@ != "privatekey"@ && "listenport"@ != "address"@ && "listenport"@ != "dns"@,
        "mtu"@ != "privatekey"@ && "mtu"@ != "address"@ && "mtu"@ != "dns"@ && "mtu"@
            != "listenport"@,
{
    reveal_strlit("PrivateKey");
    reveal_strlit("privatekey");
    reveal_strlit("Address");
    reveal_strlit("address");
    reveal_strlit("DNS");
    reveal_strlit("dns");
    reveal_strlit("ListenPort");
    reveal_strlit("listenport");
    reveal_strlit("MTU");
    reveal_strlit("mtu");
    assert(crate::text::lowercase("PrivateKey"@) =~= "privatekey"@);
    assert(crate::text::lowercase("Address"@) =~= "address"@);
    assert(crate::text::lowercase("DNS"@) =~= "dns"@);
    assert(crate::text::lowercase("ListenPort"@) =~= "listenport"@);
    assert(crate::text::lowercase("MTU"@) =~= "mtu"@);
    assert("privatekey"@[1] == 'r' && "listenport"@[1] == 'i');
    assert("mtu"@[0] == 'm' && "dns"@[0] == 'd');
}

/// The keys of the `[Peer]` section are letters, known by their lower-case forms.
pub proof fn lemma_peer_keys()
    ensures
        letters("PublicKey"@) && crate::text::lowercase("PublicKey"@) == "publickey"@,
        letters("PresharedKey"@) && crate::text::lowercase("PresharedKey"@) == "presharedkey"@,
        letters("Endpoint"@) && crate::text::lowercase("Endpoint"@) == "endpoint"@,
        letters("AllowedIPs"@) && crate::text::lowercase("AllowedIPs"@) == "allowedips"@,
        letters("PersistentKeepalive"@) && crate::text::lowercase("PersistentKeepalive"@)
            == "persistentkeepalive"@,
        "presharedkey"@ != "publickey"@,
        "endpoint"@ != "publickey"@ && "endpoint"@ != "presharedkey"@,
        "allowedips"@ != "publickey"@ && "allowedips"@ != "presharedkey"@ && "allowedips"@
            != "endpoint"@,
        "persistentkeepalive"@ != "publickey"@ && "persistentkeepalive"@ != "presharedkey"@
            && "persistentkeepalive"@ != "endpoint"@ && "persistentkeepalive"@ != "allowedips"@,
{
    reveal_strlit("PublicKey");
    reveal_strlit("publickey");
    reveal_strlit("PresharedKey");
    reveal_strlit("presharedkey");
    reveal_strlit("Endpoint");
    reveal_strlit("endpoint");
    reveal_strlit("AllowedIPs");
    reveal_strlit("allowedips");
    reveal_strlit("PersistentKeepalive");
    reveal_strlit("persistentkeepalive");
    assert(crate::text::lowercase("PublicKey"@) =~= "publickey"@);
    assert(crate::text::lowercase("PresharedKey"@) =~= "presharedkey"@);
    assert(crate::text::lowercase("Endpoint"@) =~= "endpoint"@);
    assert(crate::text::lowercase("AllowedIPs"@) =~= "allowedips"@);
    assert(crate::text::lowercase("PersistentKeepalive"@) =~= "persistentkeepalive"@);
}

/// The lines that head the sections.
pub proof fn lemma_headers(st: ConfState, n: nat)
    ensures
        crate::config::profile::conf_line(st, "[Interface]"@, n) == Ok::<_, Seq<char>>(
            ConfState {
                peers: crate::config::profile::flushed(st),
                section: SectionModel::Interface,
                ..st
            },
        ),
        crate::config::profile::conf_line(st, "[Peer]"@, n) == Ok::<_, Seq<char>>(
            ConfState {
                peers: crate::config::profile::flushed(st),
                section: SectionModel::Peer(crate::config::profile::empty_peer()),
                ..st
            },
        ),
        crate::config::profile::conf_line(st, ""@, n) == Ok::<_, Seq<char>>(st),
        row_like("[Interface]"@),
        row_like("[Peer]"@),
        row_like(""@),
{
    reveal_strlit("[Interface]");
    reveal_strlit("interface");
    reveal_strlit("[Peer]");
    reveal_strlit("peer");
    reveal_strlit("");
    let a = "[Interface]"@;
    crate::text::lemma_trim_keeps(a);
    crate::text::lemma_find_at(a, '#', a.len() as int);
    crate::text::lemma_find_at(a, ';', a.len() as int);
    assert(a.take(a.len() as int) =~= a);
    lemma_unbracketed(a);
    let x = a.subrange(1, a.len() - 1);
    crate::text::lemma_trim_keeps(x);
    assert(crate::text::lowercase(x) =~= "interface"@);
    let b = "[Peer]"@;
    crate::text::lemma_trim_keeps(b);
    crate::text::lemma_find_at(b, '#', b.len() as int);
    crate::text::lemma_find_at(b, ';', b.len() as int);
    assert(b.take(b.len() as int) =~= b);
    lemma_unbracketed(b);
    let y = b.subrange(1, b.len() - 1);
    crate::text::lemma_trim_keeps(y);
    assert(crate::text::lowercase(y) =~= "peer"@);
    assert("peer"@.len() != "interface"@.len());
    let c = ""@;
    crate::text::lemma_trim_keeps(c);
    assert(c.take(0) =~= c);
}

/// A text in exactly one pair of square brackets, without them.
proof fn lemma_unbracketed(s: Seq<char>)
    requires
        s.len() >= 3,
        s[0] == '[',
        s.last() == ']',
        !crate::text::bracket(s[1]),
        !crate::text::bracket(s[s.len() - 2]),
    ensures
        crate::text::unbracket_end(crate::text::unbracket_start(s)) == s.subrange(1, s.len() - 1),
{
    let t = s.skip(1);
    assert(crate::text::unbracket_start(t) == t);
    assert(crate::text::unbracket_start(s) == t);
    let u = t.drop_last();
    assert(u.last() == s[s.len() - 2]);
    assert(crate::text::unbracket_end(u) == u);
    assert(crate::text::unbracket_end(t) == u);
    assert(u =~= s.subrange(1, s.len() - 1));
}

/// A line that survives being written and split off again.
pub open spec fn row_like(row: Seq<char>) -> bool {
    !row.contains('\n') && crate::text::without_cr(row) == row
}

/// Lines that all survive being written and split off again.
spec fn rows_like(rows: Seq<Seq<char>>) -> bool {
    forall|i: int| 0 <= i < rows.len() ==> row_like(#[trigger] rows[i])
}

/// What one `key = value` line does to a state.
spec fn after_row(st: ConfState, row: Seq<char>, n: nat, next: ConfState) -> bool {
    crate::config::profile::conf_line(st, row, n) == Ok::<_, Seq<char>>(next)
}

/// A run of one line.
proof fn lemma_one_line(st: ConfState, row: Seq<char>, n: nat, next: ConfState)
    requires
        after_row(st, row, n, next),
    ensures
        crate::config::profile::conf_lines(st, seq![row], n) == Ok::<_, Seq<char>>(next),
{
    assert(seq![row].skip(1) =~= Seq::<Seq<char>>::empty());
    assert(crate::config::profile::conf_lines(next, Seq::empty(), n + 1) == Ok::<_, Seq<char>>(
        next,
    ));
}

/// A number's decimal form is a clean value that reads back as the number.
proof fn lemma_number(x: u16)
    ensures
        clean_value(crate::text::decimal(x as nat)),
        crate::text::unsigned_value(crate::text::decimal(x as nat), u16::MAX as nat) == Some(
            x as nat,
        ),
{
    let d = crate::text::decimal(x as nat);
    crate::text::lemma_decimal(x as nat);
    crate::text::lemma_decimal_unsigned(x as nat, u16::MAX as nat);
    assert(crate::text::is_digit(d[0]) && crate::text::is_digit(d[d.len() - 1]));
}

/// Reading the written `[Interface]` section.
#[verifier::spinoff_prover]
#[verifier::rlimit(60)]
proof fn lemma_interface(i: InterfaceModel)
    requires
        clean_interface(i),
    ensures
        crate::config::profile::conf_lines(
            crate::config::profile::conf_start(),
            crate::config::profile::interface_rows(i),
            1,
        ) == Ok::<_, Seq<char>>(
            ConfState { interface: i, peers: Seq::empty(), section: SectionModel::Interface },
        ),
        rows_like(crate::config::profile::interface_rows(i)),
{
    lemma_interface_keys();
    let st0 = crate::config::profile::conf_start();
    lemma_headers(st0, 1);
    let st1 = ConfState { section: SectionModel::Interface, ..st0 };
    let r1 = seq!["[Interface]"@];
    lemma_one_line(st0, "[Interface]"@, 1, st1);
    // PrivateKey
    let e0 = crate::config::profile::empty_interface();
    let i2 = InterfaceModel { private_key: i.private_key, ..e0 };
    let st2 = ConfState { interface: i2, ..st1 };
    let row2 = crate::config::profile::conf_row("PrivateKey"@, i.private_key);
    lemma_row(st1, "PrivateKey"@, i.private_key, 2);
    lemma_one_line(st1, row2, 2, st2);
    lemma_lines_add(st0, r1, seq![row2], 1, st1);
    let r2 = r1 + seq![row2];
    // Address
    let i3 = InterfaceModel { address: i.address, ..i2 };
    let st3 = ConfState { interface: i3, ..st2 };
    let rows3 = crate::config::profile::list_row("Address"@, i.address);
    if i.address.len() > 0 {
        let v = crate::text::joined(i.address, ", "@);
        lemma_list(i.address);
        lemma_row(st2, "Address"@, v, r2.len() + 1);
        assert(i2.address + i.address =~= i.address);
        lemma_one_line(st2, rows3[0], r2.len() + 1, st3);
        assert(rows3 =~= seq![rows3[0]]);
    } else {
        assert(i.address =~= e0.address);
    }
    lemma_lines_add(st0, r2, rows3, 1, st2);
    let r3 = r2 + rows3;
    // DNS
    let i4 = InterfaceModel { dns: i.dns, ..i3 };
    let st4 = ConfState { interface: i4, ..st3 };
    let rows4 = crate::config::profile::list_row("DNS"@, i.dns);
    if i.dns.len() > 0 {
        let v = crate::text::joined(i.dns, ", "@);
        lemma_list(i.dns);
        lemma_row(st3, "DNS"@, v, r3.len() + 1);
        assert(i3.dns + i.dns =~= i.dns);
        lemma_one_line(st3, rows4[0], r3.len() + 1, st4);
        assert(rows4 =~= seq![rows4[0]]);
    } else {
        assert(i.dns =~= e0.dns);
    }
    lemma_lines_add(st0, r3, rows4, 1, st3);
    let r4 = r3 + rows4;
    // ListenPort
    let i5 = InterfaceModel { listen_port: i.listen_port, ..i4 };
    let st5 = ConfState { interface: i5, ..st4 };
    let rows5 = crate::config::profile::number_row("ListenPort"@, i.listen_port);
    if i.listen_port is Some {
        let x = i.listen_port->0;
        lemma_number(x);
        lemma_row(st4, "ListenPort"@, crate::text::decimal(x as nat), r4.len() + 1);
        lemma_one_line(st4, rows5[0], r4.len() + 1, st5);
        assert(rows5 =~= seq![rows5[0]]);
    }
    lemma_lines_add(st0, r4, rows5, 1, st4);
    let r5 = r4 + rows5;
    // MTU
    let i6 = InterfaceModel { mtu: i.mtu, ..i5 };
    let st6 = ConfState { interface: i6, ..st5 };
    let rows6 = crate::config::profile::number_row("MTU"@, i.mtu);
    if i.mtu is Some {
        let x = i.mtu->0;
        lemma_number(x);
        lemma_row(st5, "MTU"@, crate::text::decimal(x as nat), r5.len() + 1);
        lemma_one_line(st5, rows6[0], r5.len() + 1, st6);
        assert(rows6 =~= seq![rows6[0]]);
    }
    lemma_lines_add(st0, r5, rows6, 1, st5);
    assert(r5 + rows6 =~= crate::config::profile::interface_rows(i));
}

/// Reading a written `[Peer]` section.
#[verifier::spinoff_prover]
#[verifier::rlimit(60)]
proof fn lemma_peer(st: ConfState, p: PeerModel, n: nat)
    requires
        clean_peer(p),
    ensures
        crate::config::profile::conf_lines(st, crate::config::profile::peer_rows(p), n) == Ok::<
            _,
            Seq<char>,
        >(
            ConfState {
                peers: crate::config::profile::flushed(st),
                section: SectionModel::Peer(p),
                ..st
            },
        ),
        rows_like(crate::config::profile::peer_rows(p)),
{
    lemma_peer_keys();
    let e0 = crate::config::profile::empty_peer();
    lemma_headers(st, n);
    lemma_headers(st, n + 1);
    lemma_one_line(st, ""@, n, st);
    let st1 = ConfState {
        peers: crate::config::profile::flushed(st),
        section: SectionModel::Peer(e0),
        ..st
    };
    lemma_one_line(st, "[Peer]"@, n + 1, st1);
    lemma_lines_add(st, seq![""@], seq!["[Peer]"@], n, st);
    let r1 = seq![""@] + seq!["[Peer]"@];
    // PublicKey
    let p2 = PeerModel { public_key: p.public_key, ..e0 };
    let st2 = ConfState { section: SectionModel::Peer(p2), ..st1 };
    let row2 = crate::config::profile::conf_row("PublicKey"@, p.public_key);
    lemma_row(st1, "PublicKey"@, p.public_key, n + 2);
    lemma_one_line(st1, row2, n + 2, st2);
    lemma_lines_add(st, r1, seq![row2], n, st1);
    let r2 = r1 + seq![row2];
    // PresharedKey
    let p3 = PeerModel { preshared_key: p.preshared_key, ..p2 };
    let st3 = ConfState { section: SectionModel::Peer(p3), ..st2 };
    let rows3 = crate::config::profile::text_row("PresharedKey"@, p.preshared_key);
    if p.preshared_key is Some {
        lemma_row(st2, "PresharedKey"@, p.preshared_key->0, n + r2.len());
        lemma_one_line(st2, rows3[0], n + r2.len(), st3);
        assert(rows3 =~= seq![rows3[0]]);
    }
    lemma_lines_add(st, r2, rows3, n, st2);
    let r3 = r2 + rows3;
    // Endpoint
    let p4 = PeerModel { endpoint: p.endpoint, ..p3 };
    let st4 = ConfState { section: SectionModel::Peer(p4), ..st3 };
    let rows4 = crate::config::profile::text_row("Endpoint"@, p.endpoint);
    if p.endpoint is Some {
        lemma_row(st3, "Endpoint"@, p.endpoint->0, n + r3.len());
        lemma_one_line(st3, rows4[0], n + r3.len(), st4);
        assert(rows4 =~= seq![rows4[0]]);
    }
    lemma_lines_add(st, r3, rows4, n, st3);
    let r4 = r3 + rows4;
    // AllowedIPs
    let p5 = PeerModel { allowed_ips: p.allowed_ips, ..p4 };
    let st5 = ConfState { section: SectionModel::Peer(p5), ..st4 };
    let rows5 = crate::config::profile::list_row("AllowedIPs"@, p.allowed_ips);
    if p.allowed_ips.len() > 0 {
        let v = crate::text::joined(p.allowed_ips, ", "@);
        lemma_list(p.allowed_ips);
        lemma_row(st4, "AllowedIPs"@, v, n + r4.len());
        assert(p4.allowed_ips + p.allowed_ips =~= p.allowed_ips);
        lemma_one_line(st4, rows5[0], n + r4.len(), st5);
        assert(rows5 =~= seq![rows5[0]]);
    } else {
        assert(p.allowed_ips =~= e0.allowed_ips);
    }
    lemma_lines_add(st, r4, rows5, n, st4);
    let r5 = r4 + rows5;
    // PersistentKeepalive
    let p6 = PeerModel { persistent_keepalive: p.persistent_keepalive, ..p5 };
    let st6 = ConfState { section: SectionModel::Peer(p6), ..st5 };
    let rows6 = crate::config::profile::number_row(
        "PersistentKeepalive"@,
        p.persistent_keepalive,
    );
    if p.persistent_keepalive is Some {
        let x = p.persistent_keepalive->0;
        lemma_number(x);
        lemma_row(st5, "PersistentKeepalive"@, crate::text::decimal(x as nat), n + r5.len());
        lemma_one_line(st5, rows6[0], n + r5.len(), st6);
        assert(rows6 =~= seq![rows6[0]]);
    }
    lemma_lines_add(st, r5, rows6, n, st5);
    assert(r5 + rows6 =~= crate::config::profile::peer_rows(p));
}

/// The state behind the written sections: the last peer is still being read.
spec fn after_peers(i: InterfaceModel, peers: Seq<PeerModel>) -> ConfState {
    if peers.len() == 0 {
        ConfState { interface: i, peers: Seq::empty(), section: SectionModel::Interface }
    } else {
        ConfState {
            interface: i,
            peers: peers.drop_last(),
            section: SectionModel::Peer(peers.last()),
        }
    }
}

/// Reading the written `[Peer]` sections.
proof fn lemma_peers(i: InterfaceModel, peers: Seq<PeerModel>, n: nat)
    requires
        forall|k: int| 0 <= k < peers.len() ==> clean_peer(#[trigger] peers[k]),
    ensures
        crate::config::profile::conf_lines(
            after_peers(i, Seq::empty()),
            crate::config::profile::peers_rows(peers),
            n,
        ) == Ok::<_, Seq<char>>(after_peers(i, peers)),
        rows_like(crate::config::profile::peers_rows(peers)),
    decreases peers.len(),
{
    if peers.len() > 0 {
        let init = peers.drop_last();
        assert forall|k: int| 0 <= k < init.len() implies clean_peer(#[trigger] init[k]) by {
            assert(init[k] == peers[k]);
        }
        lemma_peers(i, init, n);
        let rows = crate::config::profile::peers_rows(init);
        let mid = after_peers(i, init);
        assert(clean_peer(peers[peers.len() - 1]));
        lemma_peer(mid, peers.last(), n + rows.len());
        lemma_lines_add(
            after_peers(i, Seq::empty()),
            rows,
            crate::config::profile::peer_rows(peers.last()),
            n,
            mid,
        );
        assert(crate::config::profile::flushed(mid) =~= init);
    }
}

/// A profile whose values `.conf` text can carry comes back unchanged from the text it is written
/// as: reading the text under the same name gives the same sections, with no path.
pub proof fn law_conf_round_trip(p: ProfileModel)
    requires
        clean_profile(p),
    ensures
        crate::config::profile::parsed_conf(p.name, crate::config::profile::conf_text(p)) == Ok::<
            _,
            Seq<char>,
        >(ProfileModel { path: None, ..p }),
{
    let head = crate::config::profile::interface_rows(p.interface);
    let tail = crate::config::profile::peers_rows(p.peers);
    lemma_interface(p.interface);
    lemma_peers(p.interface, p.peers, 1 + head.len());
    let rows = head + tail;
    assert forall|k: int| 0 <= k < rows.len() implies !(#[trigger] rows[k]).contains('\n')
        && crate::text::without_cr(rows[k]) == rows[k] by {
        if k < head.len() {
            assert(row_like(head[k]));
        } else {
            assert(row_like(tail[k - head.len()]));
        }
    }
    crate::text::lemma_lines_flat(rows);
    lemma_lines_add(
        crate::config::profile::conf_start(),
        head,
        tail,
        1,
        after_peers(p.interface, Seq::empty()),
    );
    let st = after_peers(p.interface, p.peers);
    assert(crate::config::profile::flushed(st) =~= p.peers);
}

/// Values one behind the other make a value that a line can carry.
proof fn lemma_clean_add(a: Seq<char>, b: Seq<char>)
    requires
        clean_value(a),
        clean_value(b),
    ensures
        clean_value(a + b),
{
    let s = a + b;
    if a.len() > 0 && b.len() > 0 {
        assert(s[0] == a[0] && s.last() == b.last());
    } else if a.len() > 0 {
        assert(s =~= a);
    } else {
        assert(s =~= b);
    }
    assert forall|i: int| 0 <= i < s.len() implies s[i] != '\n' && s[i] != '#' && s[i] != ';' by {
        if i < a.len() {
            assert(a.contains(s[i]));
        } else {
            assert(b.contains(s[i]));
        }
    }
}

/// The address of one host, and the endpoint made of a host and a port, can be carried where the
/// hosts can.
pub proof fn lemma_host_values(ip: Seq<char>, host: Seq<char>, port: u16)
    requires
        clean_value(ip),
        !ip.contains(','),
        clean_value(host),
    ensures
        clean_item(ip + "/32"@),
        clean_value(host + ":"@ + crate::text::decimal(port as nat)),
{
    reveal_strlit("/32");
    reveal_strlit(":");
    lemma_clean_add(ip, "/32"@);
    let s = ip + "/32"@;
    assert forall|i: int| 0 <= i < s.len() implies s[i] != ',' by {
        if i < ip.len() {
            assert(ip.contains(s[i]));
        }
    }
    lemma_clean_add(host, ":"@);
    lemma_number(port);
    lemma_clean_add(host + ":"@, crate::text::decimal(port as nat));
}

/// The lines of an `[Interface]` section with one address, in which the private key may be missing.
pub open spec fn client_interface_rows(
    private_key: Option<Seq<char>>,
    address: Seq<char>,
    dns: Seq<Seq<char>>,
) -> Seq<Seq<char>> {
    seq!["[Interface]"@] + crate::config::profile::text_row("PrivateKey"@, private_key) + seq![
        crate::config::profile::conf_row("Address"@, address),
    ] + crate::config::profile::list_row("DNS"@, dns)
}

/// What an `[Interface]` section with one address says; a private key that is missing is empty.
pub open spec fn client_interface(
    private_key: Option<Seq<char>>,
    address: Seq<char>,
    dns: Seq<Seq<char>>,
) -> InterfaceModel {
    InterfaceModel {
        private_key: match private_key {
            Some(k) => k,
            None => Seq::empty(),
        },
        address: seq![address],
        dns,
        listen_port: None,
        mtu: None,
    }
}

/// Reading an `[Interface]` section with one address.
#[verifier::spinoff_prover]
#[verifier::rlimit(60)]
proof fn lemma_client_interface(
    private_key: Option<Seq<char>>,
    address: Seq<char>,
    dns: Seq<Seq<char>>,
)
    requires
        clean_option(private_key),
        clean_item(address),
        clean_list(dns),
    ensures
        crate::config::profile::conf_lines(
            crate::config::profile::conf_start(),
            client_interface_rows(private_key, address, dns),
            1,
        ) == Ok::<_, Seq<char>>(
            ConfState {
                interface: client_interface(private_key, address, dns),
                peers: Seq::empty(),
                section: SectionModel::Interface,
            },
        ),
        rows_like(client_interface_rows(private_key, address, dns)),
{
    lemma_interface_keys();
    let i = client_interface(private_key, address, dns);
    let e0 = crate::config::profile::empty_interface();
    let st0 = crate::config::profile::conf_start();
    lemma_headers(st0, 1);
    let st1 = ConfState { section: SectionModel::Interface, ..st0 };
    let r1 = seq!["[Interface]"@];
    lemma_one_line(st0, "[Interface]"@, 1, st1);
    // PrivateKey
    let i2 = InterfaceModel { private_key: i.private_key, ..e0 };
    let st2 = ConfState { interface: i2, ..st1 };
    let rows2 = crate::config::profile::text_row("PrivateKey"@, private_key);
    if private_key is Some {
        lemma_row(st1, "PrivateKey"@, i.private_key, 2);
        lemma_one_line(st1, rows2[0], 2, st2);
        assert(rows2 =~= seq![rows2[0]]);
    } else {
        assert(i.private_key =~= e0.private_key);
    }
    lemma_lines_add(st0, r1, rows2, 1, st1);
    let r2 = r1 + rows2;
    // Address
    let i3 = InterfaceModel { address: i.address, ..i2 };
    let st3 = ConfState { interface: i3, ..st2 };
    let row3 = crate::config::profile::conf_row("Address"@, address);
    lemma_list(i.address);
    assert(crate::text::joined(i.address, ", "@) == address);
    lemma_row(st2, "Address"@, address, r2.len() + 1);
    assert(i2.address + i.address =~= i.address);
    lemma_one_line(st2, row3, r2.len() + 1, st3);
    lemma_lines_add(st0, r2, seq![row3], 1, st2);
    let r3 = r2 + seq![row3];
    // DNS
    let st4 = ConfState { interface: InterfaceModel { dns, ..i3 }, ..st3 };
    let rows4 = crate::config::profile::list_row("DNS"@, dns);
    if dns.len() > 0 {
        let v = crate::text::joined(dns, ", "@);
        lemma_list(dns);
        lemma_row(st3, "DNS"@, v, r3.len() + 1);
        assert(i3.dns + dns =~= dns);
        lemma_one_line(st3, rows4[0], r3.len() + 1, st4);
        assert(rows4 =~= seq![rows4[0]]);
    } else {
        assert(dns =~= e0.dns);
    }
    lemma_lines_add(st0, r3, rows4, 1, st3);
}

/// A text with an `[Interface]` section of one address and one `[Peer]` section, behind which the
/// routes stand as any comma-separated list, reads as those sections.
pub proof fn lemma_client_text(
    name: Seq<char>,
    private_key: Option<Seq<char>>,
    address: Seq<char>,
    dns: Seq<Seq<char>>,
    peer: PeerModel,
    routes: Seq<char>,
)
    requires
        clean_option(private_key),
        clean_item(address),
        clean_list(dns),
        clean_peer(peer),
        peer.allowed_ips.len() == 0,
        clean_value(routes),
    ensures
        crate::config::profile::parsed_conf(
            name,
            crate::text::flat(
                client_interface_rows(private_key, address, dns)
                    + crate::config::profile::peer_rows(peer) + seq![
                    crate::config::profile::conf_row("AllowedIPs"@, routes),
                ],
            ),
        ) == Ok::<_, Seq<char>>(
            ProfileModel {
                name,
                interface: client_interface(private_key, address, dns),
                peers: seq![
                    PeerModel {
                        allowed_ips: crate::config::profile::list_items(routes),
                        ..peer
                    },
                ],
                path: None,
            },
        ),
{
    lemma_peer_keys();
    let head = client_interface_rows(private_key, address, dns);
    let body = crate::config::profile::peer_rows(peer);
    let last = crate::config::profile::conf_row("AllowedIPs"@, routes);
    let st0 = crate::config::profile::conf_start();
    let i = client_interface(private_key, address, dns);
    let st1 = ConfState { interface: i, peers: Seq::empty(), section: SectionModel::Interface };
    lemma_client_interface(private_key, address, dns);
    lemma_peer(st1, peer, 1 + head.len());
    let st2 = ConfState { section: SectionModel::Peer(peer), ..st1 };
    lemma_lines_add(st0, head, body, 1, st1);
    let items = crate::config::profile::list_items(routes);
    let q = PeerModel { allowed_ips: items, ..peer };
    let st3 = ConfState { section: SectionModel::Peer(q), ..st1 };
    let n = 1 + (head + body).len();
    lemma_row(st2, "AllowedIPs"@, routes, n);
    assert(peer.allowed_ips + items =~= items);
    lemma_one_line(st2, last, n, st3);
    lemma_lines_add(st0, head + body, seq![last], 1, st2);
    let rows = head + body + seq![last];
    assert forall|k: int| 0 <= k < rows.len() implies !(#[trigger] rows[k]).contains('\n')
        && crate::text::without_cr(rows[k]) == rows[k] by {
        if k < head.len() {
            assert(row_like(head[k]));
        } else if k < head.len() + body.len() {
            assert(row_like(body[k - head.len()]));
        }
    }
    crate::text::lemma_lines_flat(rows);
    assert(crate::config::profile::flushed(st3) =~= seq![q]);
}

/// Whether every character of `v` occurs in `s`.
spec fn drawn(v: Seq<char>, s: Seq<char>) -> bool {
    forall|i: int| 0 <= i < v.len() ==> s.contains(#[trigger] v[i])
}

proof fn lemma_drawn_lacks(v: Seq<char>, s: Seq<char>, c: char)
    requires
        drawn(v, s),
        !s.contains(c),
    ensures
        !v.contains(c),
{
    if v.contains(c) {
        let i = choose|i: int| 0 <= i < v.len() && v[i] == c;
        assert(s.contains(v[i]));
    }
}

proof fn lemma_drawn_trans(a: Seq<char>, b: Seq<char>, c: Seq<char>)
    requires
        drawn(a, b),
        drawn(b, c),
    ensures
        drawn(a, c),
{
    assert forall|i: int| 0 <= i < a.len() implies c.contains(#[trigger] a[i]) by {
        let j = choose|j: int| 0 <= j < b.len() && b[j] == a[i];
        assert(c.contains(b[j]));
    }
}

proof fn lemma_drawn_range(s: Seq<char>, a: int, b: int)
    requires
        0 <= a <= b <= s.len(),
    ensures
        drawn(s.subrange(a, b), s),
{
    let t = s.subrange(a, b);
    assert forall|i: int| 0 <= i < t.len() implies s.contains(#[trigger] t[i]) by {
        assert(s[a + i] == t[i]);
    }
}

proof fn lemma_drawn_trimmed(s: Seq<char>)
    ensures
        drawn(crate::text::trimmed(s), s),
        crate::text::is_trimmed(crate::text::trimmed(s)),
{
    crate::text::lemma_trimmed(s);
}

/// The parts of a split text lack the separator and are drawn from the text.
proof fn lemma_split_parts(s: Seq<char>, c: char)
    ensures
        forall|i: int|
            0 <= i < crate::text::split_at_each(s, c).len() ==> !(
            #[trigger] crate::text::split_at_each(s, c)[i]).contains(c) && drawn(
                crate::text::split_at_each(s, c)[i],
                s,
            ),
    decreases s.len(),
{
    crate::text::lemma_find(s, c);
    let k = crate::text::find(s, c);
    let parts = crate::text::split_at_each(s, c);
    if k < s.len() {
        let rest = s.skip(k + 1);
        lemma_split_parts(rest, c);
        lemma_drawn_range(s, k + 1, s.len() as int);
        lemma_drawn_range(s, 0, k);
        assert(rest =~= s.subrange(k + 1, s.len() as int));
        assert(s.take(k) =~= s.subrange(0, k));
        assert forall|i: int| 0 <= i < parts.len() implies !(#[trigger] parts[i]).contains(c)
            && drawn(parts[i], s) by {
            if i > 0 {
                let t = crate::text::split_at_each(rest, c);
                assert(parts[i] == t[i - 1]);
                lemma_drawn_trans(t[i - 1], rest, s);
            }
        }
    } else {
        lemma_drawn_range(s, 0, s.len() as int);
        assert(s =~= s.subrange(0, s.len() as int));
    }
}

/// Whether the values of all peers can be carried.
spec fn clean_peers(peers: Seq<PeerModel>) -> bool {
    forall|i: int| 0 <= i < peers.len() ==> clean_peer(#[trigger] peers[i])
}

/// Whether all values read so far can be carried.
spec fn clean_state(st: ConfState) -> bool {
    clean_interface(st.interface) && clean_peers(st.peers) && (st.section matches SectionModel::Peer(
        p,
    ) ==> clean_peer(p))
}

/// The items of a value that can be carried can be carried too.
proof fn lemma_read_items(value: Seq<char>)
    requires
        clean_value(value),
    ensures
        clean_list(crate::config::profile::list_items(value)),
{
    let parts = crate::text::split_at_each(value, ',');
    lemma_split_parts(value, ',');
    assert forall|i: int| 0 <= i < parts.len() implies !(#[trigger] parts[i]).contains(',')
        && !parts[i].contains('\n') && !parts[i].contains('#') && !parts[i].contains(';') by {
        lemma_drawn_lacks(parts[i], value, '\n');
        lemma_drawn_lacks(parts[i], value, '#');
        lemma_drawn_lacks(parts[i], value, ';');
    }
    lemma_read_parts(parts);
}

proof fn lemma_read_parts(parts: Seq<Seq<char>>)
    requires
        forall|i: int|
            0 <= i < parts.len() ==> !(#[trigger] parts[i]).contains(',') && !parts[i].contains(
                '\n',
            ) && !parts[i].contains('#') && !parts[i].contains(';'),
    ensures
        clean_list(crate::config::profile::filled_parts(parts)),
    decreases parts.len(),
{
    if parts.len() > 0 {
        let init = parts.drop_last();
        assert forall|i: int| 0 <= i < init.len() implies !(#[trigger] init[i]).contains(',')
            && !init[i].contains('\n') && !init[i].contains('#') && !init[i].contains(';') by {
            assert(init[i] == parts[i]);
        }
        lemma_read_parts(init);
        let last = parts[parts.len() - 1];
        let item = crate::text::trimmed(last);
        lemma_drawn_trimmed(last);
        lemma_drawn_lacks(item, last, ',');
        lemma_drawn_lacks(item, last, '\n');
        lemma_drawn_lacks(item, last, '#');
        lemma_drawn_lacks(item, last, ';');
    }
}

/// A line on its own keeps the state clean.
proof fn lemma_read_line(st: ConfState, raw: Seq<char>, n: nat)
    requires
        clean_state(st),
        !raw.contains('\n'),
        crate::config::profile::conf_line(st, raw, n) is Ok,
    ensures
        clean_state(crate::config::profile::conf_line(st, raw, n)->Ok_0),
{
    let line = crate::config::profile::bare_line(raw);
    let t = crate::text::trimmed(raw);
    lemma_drawn_trimmed(raw);
    crate::text::lemma_find(t, '#');
    crate::text::lemma_find(t, ';');
    lemma_drawn_lacks(t, raw, '\n');
    let end = crate::config::profile::comment_start(t);
    let u = t.take(end);
    assert(u =~= t.subrange(0, end));
    lemma_drawn_range(t, 0, end);
    lemma_drawn_lacks(u, t, '\n');
    assert(!u.contains('#') && !u.contains(';'));
    lemma_drawn_trimmed(u);
    lemma_drawn_lacks(line, u, '\n');
    lemma_drawn_lacks(line, u, '#');
    lemma_drawn_lacks(line, u, ';');
    if line.len() > 0 && line[0] != '[' {
        let k = crate::text::find(line, '=');
        crate::text::lemma_find(line, '=');
        let v = line.skip(k + 1);
        assert(v =~= line.subrange(k + 1, line.len() as int));
        lemma_drawn_range(line, k + 1, line.len() as int);
        lemma_drawn_lacks(v, line, '\n');
        lemma_drawn_lacks(v, line, '#');
        lemma_drawn_lacks(v, line, ';');
        let value = crate::text::trimmed(v);
        lemma_drawn_trimmed(v);
        lemma_drawn_lacks(value, v, '\n');
        lemma_drawn_lacks(value, v, '#');
        lemma_drawn_lacks(value, v, ';');
        lemma_read_items(value);
    }
}

/// Lines without line feeds keep the state clean.
proof fn lemma_read_lines(st: ConfState, rows: Seq<Seq<char>>, n: nat)
    requires
        clean_state(st),
        forall|i: int| 0 <= i < rows.len() ==> !(#[trigger] rows[i]).contains('\n'),
        crate::config::profile::conf_lines(st, rows, n) is Ok,
    ensures
        clean_state(crate::config::profile::conf_lines(st, rows, n)->Ok_0),
    decreases rows.len(),
{
    if rows.len() > 0 {
        assert(!rows[0].contains('\n'));
        lemma_read_line(st, rows[0], n);
        let rest = rows.skip(1);
        assert forall|i: int| 0 <= i < rest.len() implies !(#[trigger] rest[i]).contains('\n') by {
            assert(rest[i] == rows[i + 1]);
        }
        lemma_read_lines(crate::config::profile::conf_line(st, rows[0], n)->Ok_0, rest, n + 1);
    }
}

/// Whatever text a profile was read from, writing the profile and reading it again gives the same
/// profile.
pub proof fn law_reread_is_stable(name: Seq<char>, content: Seq<char>, p: ProfileModel)
    requires
        crate::config::profile::parsed_conf(name, content) == Ok::<_, Seq<char>>(p),
    ensures
        crate::config::profile::parsed_conf(name, crate::config::profile::conf_text(p)) == Ok::<
            _,
            Seq<char>,
        >(p),
{
    let rows = crate::text::lines_of(content);
    crate::text::lemma_lines_lack(content);
    let st0 = crate::config::profile::conf_start();
    lemma_read_lines(st0, rows, 1);
    let st = crate::config::profile::conf_lines(st0, rows, 1)->Ok_0;
    assert(p.interface == st.interface);
    assert(p.peers == crate::config::profile::flushed(st));
    assert(clean_peers(p.peers));
    law_conf_round_trip(p);
}

} // verus!
