//! What the split preset routes.

use vstd::prelude::*;

verus! {

/// Whether the network that a text stands for holds an IPv4 address.
#[verifier::opaque]
pub open spec fn covers(network: Seq<char>, addr: nat) -> bool {
    match crate::server::cidr_value(network) {
        Some((net, prefix)) => net <= addr < net + crate::server::block((32 - prefix) as nat),
        None => false,
    }
}

/// Whether one of some networks holds an IPv4 address.
pub open spec fn covered(networks: Seq<Seq<char>>, addr: nat) -> bool {
    exists|i: int| 0 <= i < networks.len() && covers(#[trigger] networks[i], addr)
}

/// Whether an IPv4 address is private by RFC 1918: in `10.0.0.0/8`, `172.16.0.0/12` or
/// `192.168.0.0/16`.
pub open spec fn is_private(addr: nat) -> bool {
    0x0a000000 <= addr < 0x0b000000 || 0xac100000 <= addr < 0xac200000 || 0xc0a80000 <= addr
        < 0xc0a90000
}

/// The text of a network.
spec fn network_text(a: nat, b: nat, c: nat, d: nat, prefix: nat) -> Seq<char> {
    crate::text::decimal(a) + "."@ + crate::text::decimal(b) + "."@ + crate::text::decimal(c)
        + "."@ + crate::text::decimal(d) + "/"@ + crate::text::decimal(prefix)
}

/// Whether a text is made of digits and dots.
spec fn dotted(s: Seq<char>) -> bool {
    forall|i: int| 0 <= i < s.len() ==> crate::text::is_digit(#[trigger] s[i]) || s[i] == '.'
}

/// Such texts one behind the other make another.
proof fn lemma_dotted_add(x: Seq<char>, y: Seq<char>)
    requires
        dotted(x),
        dotted(y),
    ensures
        dotted(x + y),
{
}

/// The dotted decimal form of an address is made of digits and dots, with a digit at both ends.
proof fn lemma_dotted(n: nat)
    ensures
        dotted(crate::ip::ipv4_text(n)),
        crate::ip::ipv4_text(n).len() > 0,
        crate::text::is_digit(crate::ip::ipv4_text(n)[0]),
        crate::text::is_digit(crate::ip::ipv4_text(n).last()),
{
    let a = crate::text::decimal(n / 0x1000000 % 256);
    let b = crate::text::decimal(n / 0x10000 % 256);
    let c = crate::text::decimal(n / 0x100 % 256);
    let d = crate::text::decimal(n % 256);
    reveal_strlit(".");
    crate::text::lemma_decimal(n / 0x1000000 % 256);
    crate::text::lemma_decimal(n / 0x10000 % 256);
    crate::text::lemma_decimal(n / 0x100 % 256);
    crate::text::lemma_decimal(n % 256);
    assert(dotted("."@));
    lemma_dotted_add(a, "."@);
    lemma_dotted_add(a + "."@, b);
    lemma_dotted_add(a + "."@ + b, "."@);
    lemma_dotted_add(a + "."@ + b + "."@, c);
    lemma_dotted_add(a + "."@ + b + "."@ + c, "."@);
    lemma_dotted_add(a + "."@ + b + "."@ + c + "."@, d);
    assert(crate::text::is_digit(a[0]) && crate::text::is_digit(d.last()));
    assert(crate::ip::ipv4_text(n)[0] == a[0]);
    assert(crate::ip::ipv4_text(n).last() == d.last());
}

/// The dotted decimal form of an address holds no slash.
pub proof fn lemma_no_slash(n: nat)
    ensures
        !crate::ip::ipv4_text(n).contains('/'),
{
    let host = crate::ip::ipv4_text(n);
    lemma_dotted(n);
    assert forall|i: int| 0 <= i < host.len() implies host[i] != '/' by {
        assert(crate::text::is_digit(host[i]) || host[i] == '.');
    }
}

/// The dotted decimal form of an address holds that address.
pub proof fn lemma_host_text(n: nat)
    requires
        n <= u32::MAX,
    ensures
        crate::server::host_value(crate::ip::ipv4_text(n)) == Some(n),
{
    let host = crate::ip::ipv4_text(n);
    lemma_dotted(n);
    assert forall|i: int| 0 <= i < host.len() implies host[i] != '/' by {
        assert(crate::text::is_digit(host[i]) || host[i] == '.');
    }
    crate::text::lemma_split_whole(host, '/');
    crate::text::lemma_trim_keeps(host);
    crate::ip::lemma_ipv4_text(n);
}

/// What an address, a slash and a prefix length stand for.
pub proof fn lemma_network(addr: nat, prefix: nat)
    requires
        addr <= u32::MAX,
        prefix <= 32,
    ensures
        crate::server::cidr_value(
            crate::ip::ipv4_text(addr) + "/"@ + crate::text::decimal(prefix),
        ) == Some(((addr - addr % crate::server::block((32 - prefix) as nat)) as nat, prefix)),
{
    let host = crate::ip::ipv4_text(addr);
    let tail = crate::text::decimal(prefix);
    let s = host + "/"@ + tail;
    reveal_strlit("/");
    lemma_dotted(addr);
    crate::text::lemma_decimal(prefix);
    crate::ip::lemma_ipv4_text(addr);
    let n = host.len() as int;
    assert forall|j: int| 0 <= j < n implies s[j] != '/' by {
        assert(s[j] == host[j]);
    }
    crate::text::lemma_find_at(s, '/', n);
    assert(s.take(n) =~= host);
    assert(s.skip(n + 1) =~= tail);
    crate::text::lemma_trim_keeps(host);
    crate::text::lemma_trim_keeps(tail);
    crate::text::lemma_decimal_unsigned(prefix, 255);
}

/// What the text of a network covers, where its address is the first of a block.
proof fn lemma_covers(a: nat, b: nat, prefix: nat, size: nat, addr: nat)
    requires
        a <= 255,
        b <= 255,
        prefix <= 32,
        size == crate::server::block((32 - prefix) as nat),
        (a * 0x1000000 + b * 0x10000) % size == 0,
    ensures
        covers(network_text(a, b, 0, 0, prefix), addr) <==> a * 0x1000000 + b * 0x10000 <= addr < a
            * 0x1000000 + b * 0x10000 + size,
{
    reveal(covers);
    let n = a * 0x1000000 + b * 0x10000;
    assert(n / 0x1000000 % 256 == a && n / 0x10000 % 256 == b && n / 0x100 % 256 == 0 && n % 256
        == 0);
    lemma_network(n, prefix);
}

/// The decimal form of a number of up to three digits.
pub proof fn lemma_small_decimal(n: nat)
    requires
        n < 1000,
    ensures
        n < 10 ==> crate::text::decimal(n) == seq![crate::text::digit(n)],
        10 <= n < 100 ==> crate::text::decimal(n) == seq![
            crate::text::digit(n / 10),
            crate::text::digit(n % 10),
        ],
        100 <= n ==> crate::text::decimal(n) == seq![
            crate::text::digit(n / 100),
            crate::text::digit(n / 10 % 10),
            crate::text::digit(n % 10),
        ],
{
    reveal_with_fuel(crate::text::decimal, 3);
    if n >= 100 {
        assert(n / 10 / 10 == n / 100);
        assert(crate::text::decimal(n) =~= seq![
            crate::text::digit(n / 100),
            crate::text::digit(n / 10 % 10),
            crate::text::digit(n % 10),
        ]);
    } else if n >= 10 {
        assert(crate::text::decimal(n) =~= seq![
            crate::text::digit(n / 10),
            crate::text::digit(n % 10),
        ]);
    }
}

/// What some networks of the preset cover.
proof fn lemma_part_a(addr: nat)
    ensures
        covers("0.0.0.0/5"@, addr) <==> 0x0 <= addr < 0x8000000,
        covers("8.0.0.0/7"@, addr) <==> 0x8000000 <= addr < 0xa000000,
        covers("11.0.0.0/8"@, addr) <==> 0xb000000 <= addr < 0xc000000,
        covers("12.0.0.0/6"@, addr) <==> 0xc000000 <= addr < 0x10000000,
        covers("16.0.0.0/4"@, addr) <==> 0x10000000 <= addr < 0x20000000,
        covers("32.0.0.0/3"@, addr) <==> 0x20000000 <= addr < 0x40000000,
{
    lemma_blocks();
    reveal_strlit(".");
    reveal_strlit("/");
    lemma_small_decimal(0);
    lemma_small_decimal(5);
    lemma_small_decimal(8);
    lemma_small_decimal(7);
    lemma_small_decimal(11);
    lemma_small_decimal(12);
    lemma_small_decimal(6);
    lemma_small_decimal(16);
    lemma_small_decimal(4);
    lemma_small_decimal(32);
    lemma_small_decimal(3);
    assert("0.0.0.0/5"@ =~= network_text(0, 0, 0, 0, 5)) by {
        reveal_strlit("0.0.0.0/5");
    }
    lemma_covers(0, 0, 5, 0x8000000, addr);
    assert("8.0.0.0/7"@ =~= network_text(8, 0, 0, 0, 7)) by {
        reveal_strlit("8.0.0.0/7");
    }
    lemma_covers(8, 0, 7, 0x2000000, addr);
    assert("11.0.0.0/8"@ =~= network_text(11, 0, 0, 0, 8)) by {
        reveal_strlit("11.0.0.0/8");
    }
    lemma_covers(11, 0, 8, 0x1000000, addr);
    assert("12.0.0.0/6"@ =~= network_text(12, 0, 0, 0, 6)) by {
        reveal_strlit("12.0.0.0/6");
    }
    lemma_covers(12, 0, 6, 0x4000000, addr);
    assert("16.0.0.0/4"@ =~= network_text(16, 0, 0, 0, 4)) by {
        reveal_strlit("16.0.0.0/4");
    }
    lemma_covers(16, 0, 4, 0x10000000, addr);
    assert("32.0.0.0/3"@ =~= network_text(32, 0, 0, 0, 3)) by {
        reveal_strlit("32.0.0.0/3");
    }
    lemma_covers(32, 0, 3, 0x20000000, addr);
}

/// What some networks of the preset cover.
proof fn lemma_part_b(addr: nat)
    ensures
        covers("64.0.0.0/2"@, addr) <==> 0x40000000 <= addr < 0x80000000,
        covers("128.0.0.0/3"@, addr) <==> 0x80000000 <= addr < 0xa0000000,
        covers("160.0.0.0/5"@, addr) <==> 0xa0000000 <= addr < 0xa8000000,
        covers("168.0.0.0/6"@, addr) <==> 0xa8000000 <= addr < 0xac000000,
        covers("172.0.0.0/12"@, addr) <==> 0xac000000 <= addr < 0xac100000,
        covers("172.32.0.0/11"@, addr) <==> 0xac200000 <= addr < 0xac400000,
{
    lemma_blocks();
    reveal_strlit(".");
    reveal_strlit("/");
    lemma_small_decimal(0);
    lemma_small_decimal(64);
    lemma_small_decimal(2);
    lemma_small_decimal(128);
    lemma_small_decimal(3);
    lemma_small_decimal(160);
    lemma_small_decimal(5);
    lemma_small_decimal(168);
    lemma_small_decimal(6);
    lemma_small_decimal(172);
    lemma_small_decimal(12);
    lemma_small_decimal(32);
    lemma_small_decimal(11);
    assert("64.0.0.0/2"@ =~= network_text(64, 0, 0, 0, 2)) by {
        reveal_strlit("64.0.0.0/2");
    }
    lemma_covers(64, 0, 2, 0x40000000, addr);
    assert("128.0.0.0/3"@ =~= network_text(128, 0, 0, 0, 3)) by {
        reveal_strlit("128.0.0.0/3");
    }
    lemma_covers(128, 0, 3, 0x20000000, addr);
    assert("160.0.0.0/5"@ =~= network_text(160, 0, 0, 0, 5)) by {
        reveal_strlit("160.0.0.0/5");
    }
    lemma_covers(160, 0, 5, 0x8000000, addr);
    assert("168.0.0.0/6"@ =~= network_text(168, 0, 0, 0, 6)) by {
        reveal_strlit("168.0.0.0/6");
    }
    lemma_covers(168, 0, 6, 0x4000000, addr);
    assert("172.0.0.0/12"@ =~= network_text(172, 0, 0, 0, 12)) by {
        reveal_strlit("172.0.0.0/12");
    }
    lemma_covers(172, 0, 12, 0x100000, addr);
    assert("172.32.0.0/11"@ =~= network_text(172, 32, 0, 0, 11)) by {
        reveal_strlit("172.32.0.0/11");
    }
    lemma_covers(172, 32, 11, 0x200000, addr);
}

/// What some networks of the preset cover.
proof fn lemma_part_c(addr: nat)
    ensures
        covers("172.64.0.0/10"@, addr) <==> 0xac400000 <= addr < 0xac800000,
        covers("172.128.0.0/9"@, addr) <==> 0xac800000 <= addr < 0xad000000,
        covers("173.0.0.0/8"@, addr) <==> 0xad000000 <= addr < 0xae000000,
        covers("174.0.0.0/7"@, addr) <==> 0xae000000 <= addr < 0xb0000000,
        covers("176.0.0.0/4"@, addr) <==> 0xb0000000 <= addr < 0xc0000000,
        covers("192.0.0.0/9"@, addr) <==> 0xc0000000 <= addr < 0xc0800000,
{
    lemma_blocks();
    reveal_strlit(".");
    reveal_strlit("/");
    lemma_small_decimal(0);
    lemma_small_decimal(172);
    lemma_small_decimal(64);
    lemma_small_decimal(10);
    lemma_small_decimal(128);
    lemma_small_decimal(9);
    lemma_small_decimal(173);
    lemma_small_decimal(8);
    lemma_small_decimal(174);
    lemma_small_decimal(7);
    lemma_small_decimal(176);
    lemma_small_decimal(4);
    lemma_small_decimal(192);
    assert("172.64.0.0/10"@ =~= network_text(172, 64, 0, 0, 10)) by {
        reveal_strlit("172.64.0.0/10");
    }
    lemma_covers(172, 64, 10, 0x400000, addr);
    assert("172.128.0.0/9"@ =~= network_text(172, 128, 0, 0, 9)) by {
        reveal_strlit("172.128.0.0/9");
    }
    lemma_covers(172, 128, 9, 0x800000, addr);
    assert("173.0.0.0/8"@ =~= network_text(173, 0, 0, 0, 8)) by {
        reveal_strlit("173.0.0.0/8");
    }
    lemma_covers(173, 0, 8, 0x1000000, addr);
    assert("174.0.0.0/7"@ =~= network_text(174, 0, 0, 0, 7)) by {
        reveal_strlit("174.0.0.0/7");
    }
    lemma_covers(174, 0, 7, 0x2000000, addr);
    assert("176.0.0.0/4"@ =~= network_text(176, 0, 0, 0, 4)) by {
        reveal_strlit("176.0.0.0/4");
    }
    lemma_covers(176, 0, 4, 0x10000000, addr);
    assert("192.0.0.0/9"@ =~= network_text(192, 0, 0, 0, 9)) by {
        reveal_strlit("192.0.0.0/9");
    }
    lemma_covers(192, 0, 9, 0x800000, addr);
}

/// What some networks of the preset cover.
proof fn lemma_part_d(addr: nat)
    ensures
        covers("192.128.0.0/11"@, addr) <==> 0xc0800000 <= addr < 0xc0a00000,
        covers("192.160.0.0/13"@, addr) <==> 0xc0a00000 <= addr < 0xc0a80000,
        covers("192.169.0.0/16"@, addr) <==> 0xc0a90000 <= addr < 0xc0aa0000,
        covers("192.170.0.0/15"@, addr) <==> 0xc0aa0000 <= addr < 0xc0ac0000,
        covers("192.172.0.0/14"@, addr) <==> 0xc0ac0000 <= addr < 0xc0b00000,
        covers("192.176.0.0/12"@, addr) <==> 0xc0b00000 <= addr < 0xc0c00000,
{
    lemma_blocks();
    reveal_strlit(".");
    reveal_strlit("/");
    lemma_small_decimal(0);
    lemma_small_decimal(192);
    lemma_small_decimal(128);
    lemma_small_decimal(11);
    lemma_small_decimal(160);
    lemma_small_decimal(13);
    lemma_small_decimal(169);
    lemma_small_decimal(16);
    lemma_small_decimal(170);
    lemma_small_decimal(15);
    lemma_small_decimal(172);
    lemma_small_decimal(14);
    lemma_small_decimal(176);
    lemma_small_decimal(12);
    assert("192.128.0.0/11"@ =~= network_text(192, 128, 0, 0, 11)) by {
        reveal_strlit("192.128.0.0/11");
    }
    lemma_covers(192, 128, 11, 0x200000, addr);
    assert("192.160.0.0/13"@ =~= network_text(192, 160, 0, 0, 13)) by {
        reveal_strlit("192.160.0.0/13");
    }
    lemma_covers(192, 160, 13, 0x80000, addr);
    assert("192.169.0.0/16"@ =~= network_text(192, 169, 0, 0, 16)) by {
        reveal_strlit("192.169.0.0/16");
    }
    lemma_covers(192, 169, 16, 0x10000, addr);
    assert("192.170.0.0/15"@ =~= network_text(192, 170, 0, 0, 15)) by {
        reveal_strlit("192.170.0.0/15");
    }
    lemma_covers(192, 170, 15, 0x20000, addr);
    assert("192.172.0.0/14"@ =~= network_text(192, 172, 0, 0, 14)) by {
        reveal_strlit("192.172.0.0/14");
    }
    lemma_covers(192, 172, 14, 0x40000, addr);
    assert("192.176.0.0/12"@ =~= network_text(192, 176, 0, 0, 12)) by {
        reveal_strlit("192.176.0.0/12");
    }
    lemma_covers(192, 176, 12, 0x100000, addr);
}

/// What some networks of the preset cover.
proof fn lemma_part_e(addr: nat)
    ensures
        covers("192.192.0.0/10"@, addr) <==> 0xc0c00000 <= addr < 0xc1000000,
        covers("193.0.0.0/8"@, addr) <==> 0xc1000000 <= addr < 0xc2000000,
        covers("194.0.0.0/7"@, addr) <==> 0xc2000000 <= addr < 0xc4000000,
        covers("196.0.0.0/6"@, addr) <==> 0xc4000000 <= addr < 0xc8000000,
        covers("200.0.0.0/5"@, addr) <==> 0xc8000000 <= addr < 0xd0000000,
        covers("208.0.0.0/4"@, addr) <==> 0xd0000000 <= addr < 0xe0000000,
        covers("224.0.0.0/3"@, addr) <==> 0xe0000000 <= addr < 0x100000000,
{
    lemma_blocks();
    reveal_strlit(".");
    reveal_strlit("/");
    lemma_small_decimal(0);
    lemma_small_decimal(192);
    lemma_small_decimal(10);
    lemma_small_decimal(193);
    lemma_small_decimal(8);
    lemma_small_decimal(194);
    lemma_small_decimal(7);
    lemma_small_decimal(196);
    lemma_small_decimal(6);
    lemma_small_decimal(200);
    lemma_small_decimal(5);
    lemma_small_decimal(208);
    lemma_small_decimal(4);
    lemma_small_decimal(224);
    lemma_small_decimal(3);
    assert("192.192.0.0/10"@ =~= network_text(192, 192, 0, 0, 10)) by {
        reveal_strlit("192.192.0.0/10");
    }
    lemma_covers(192, 192, 10, 0x400000, addr);
    assert("193.0.0.0/8"@ =~= network_text(193, 0, 0, 0, 8)) by {
        reveal_strlit("193.0.0.0/8");
    }
    lemma_covers(193, 0, 8, 0x1000000, addr);
    assert("194.0.0.0/7"@ =~= network_text(194, 0, 0, 0, 7)) by {
        reveal_strlit("194.0.0.0/7");
    }
    lemma_covers(194, 0, 7, 0x2000000, addr);
    assert("196.0.0.0/6"@ =~= network_text(196, 0, 0, 0, 6)) by {
        reveal_strlit("196.0.0.0/6");
    }
    lemma_covers(196, 0, 6, 0x4000000, addr);
    assert("200.0.0.0/5"@ =~= network_text(200, 0, 0, 0, 5)) by {
        reveal_strlit("200.0.0.0/5");
    }
    lemma_covers(200, 0, 5, 0x8000000, addr);
    assert("208.0.0.0/4"@ =~= network_text(208, 0, 0, 0, 4)) by {
        reveal_strlit("208.0.0.0/4");
    }
    lemma_covers(208, 0, 4, 0x10000000, addr);
    assert("224.0.0.0/3"@ =~= network_text(224, 0, 0, 0, 3)) by {
        reveal_strlit("224.0.0.0/3");
    }
    lemma_covers(224, 0, 3, 0x20000000, addr);
}

/// The sizes of blocks.
proof fn lemma_blocks()
    ensures
        crate::server::block(16) == 0x10000,
        crate::server::block(17) == 0x20000,
        crate::server::block(18) == 0x40000,
        crate::server::block(19) == 0x80000,
        crate::server::block(20) == 0x100000,
        crate::server::block(21) == 0x200000,
        crate::server::block(22) == 0x400000,
        crate::server::block(23) == 0x800000,
        crate::server::block(24) == 0x1000000,
        crate::server::block(25) == 0x2000000,
        crate::server::block(26) == 0x4000000,
        crate::server::block(27) == 0x8000000,
        crate::server::block(28) == 0x10000000,
        crate::server::block(29) == 0x20000000,
        crate::server::block(30) == 0x40000000,
{
    assert(crate::server::block(0) == 0x1);
    assert(crate::server::block(1) == 0x2);
    assert(crate::server::block(2) == 0x4);
    assert(crate::server::block(3) == 0x8);
    assert(crate::server::block(4) == 0x10);
    assert(crate::server::block(5) == 0x20);
    assert(crate::server::block(6) == 0x40);
    assert(crate::server::block(7) == 0x80);
    assert(crate::server::block(8) == 0x100);
    assert(crate::server::block(9) == 0x200);
    assert(crate::server::block(10) == 0x400);
    assert(crate::server::block(11) == 0x800);
    assert(crate::server::block(12) == 0x1000);
    assert(crate::server::block(13) == 0x2000);
    assert(crate::server::block(14) == 0x4000);
    assert(crate::server::block(15) == 0x8000);
    assert(crate::server::block(16) == 0x10000);
    assert(crate::server::block(17) == 0x20000);
    assert(crate::server::block(18) == 0x40000);
    assert(crate::server::block(19) == 0x80000);
    assert(crate::server::block(20) == 0x100000);
    assert(crate::server::block(21) == 0x200000);
    assert(crate::server::block(22) == 0x400000);
    assert(crate::server::block(23) == 0x800000);
    assert(crate::server::block(24) == 0x1000000);
    assert(crate::server::block(25) == 0x2000000);
    assert(crate::server::block(26) == 0x4000000);
    assert(crate::server::block(27) == 0x8000000);
    assert(crate::server::block(28) == 0x10000000);
    assert(crate::server::block(29) == 0x20000000);
    assert(crate::server::block(30) == 0x40000000);
}

/// The text of all IPv6 addresses holds no IPv4 address.
proof fn lemma_ipv6_covers_nothing(addr: nat)
    ensures
        !covers("::/0"@, addr),
{
    reveal(covers);
    reveal_strlit("::/0");
    let s = "::/0"@;
    crate::text::lemma_find_at(s, '/', 2);
    assert(s.take(2) =~= seq![':', ':']);
    crate::text::lemma_trim_keeps(s.take(2));
    assert(crate::text::split_at_each(seq![':', ':'], '.').len() == 1) by {
        crate::text::lemma_split_whole(seq![':', ':'], '.');
    }
}

/// The split preset routes every IPv4 address that is not private, and no private one.
pub proof fn law_split_leaves_out_private_addresses(addr: nat)
    requires
        addr <= u32::MAX,
    ensures
        covered(crate::net::allowed_ips::split_networks(), addr) <==> !is_private(addr),
{
    lemma_split_networks(addr);
    let all = crate::net::allowed_ips::split_networks();
    if !is_private(addr) {
        assert(exists|i: int| 0 <= i < all.len() && covers(#[trigger] all[i], addr));
    }
}

/// The IPv4 networks of the split preset stand in ascending order and do not overlap: what one of
/// them holds lies below what a later one holds.
pub proof fn law_split_networks_ascend(i: int, j: int, low: nat, high: nat)
    requires
        0 <= i < j < crate::net::allowed_ips::split_networks().len(),
        covers(crate::net::allowed_ips::split_networks()[i], low),
        covers(crate::net::allowed_ips::split_networks()[j], high),
    ensures
        low < high,
{
    lemma_split_networks(low);
    lemma_split_networks(high);
}

/// What each network of the split preset holds.
proof fn lemma_split_networks(addr: nat)
    ensures
        crate::net::allowed_ips::split_networks().len() == 32,
        covers(crate::net::allowed_ips::split_networks()[0], addr) <==> 0x0 <= addr < 0x8000000,
        covers(crate::net::allowed_ips::split_networks()[1], addr) <==> 0x8000000 <= addr < 0xa000000,
        covers(crate::net::allowed_ips::split_networks()[2], addr) <==> 0xb000000 <= addr < 0xc000000,
        covers(crate::net::allowed_ips::split_networks()[3], addr) <==> 0xc000000 <= addr < 0x10000000,
        covers(crate::net::allowed_ips::split_networks()[4], addr) <==> 0x10000000 <= addr < 0x20000000,
        covers(crate::net::allowed_ips::split_networks()[5], addr) <==> 0x20000000 <= addr < 0x40000000,
        covers(crate::net::allowed_ips::split_networks()[6], addr) <==> 0x40000000 <= addr < 0x80000000,
        covers(crate::net::allowed_ips::split_networks()[7], addr) <==> 0x80000000 <= addr < 0xa0000000,
        covers(crate::net::allowed_ips::split_networks()[8], addr) <==> 0xa0000000 <= addr < 0xa8000000,
        covers(crate::net::allowed_ips::split_networks()[9], addr) <==> 0xa8000000 <= addr < 0xac000000,
        covers(crate::net::allowed_ips::split_networks()[10], addr) <==> 0xac000000 <= addr < 0xac100000,
        covers(crate::net::allowed_ips::split_networks()[11], addr) <==> 0xac200000 <= addr < 0xac400000,
        covers(crate::net::allowed_ips::split_networks()[12], addr) <==> 0xac400000 <= addr < 0xac800000,
        covers(crate::net::allowed_ips::split_networks()[13], addr) <==> 0xac800000 <= addr < 0xad000000,
        covers(crate::net::allowed_ips::split_networks()[14], addr) <==> 0xad000000 <= addr < 0xae000000,
        covers(crate::net::allowed_ips::split_networks()[15], addr) <==> 0xae000000 <= addr < 0xb0000000,
        covers(crate::net::allowed_ips::split_networks()[16], addr) <==> 0xb0000000 <= addr < 0xc0000000,
        covers(crate::net::allowed_ips::split_networks()[17], addr) <==> 0xc0000000 <= addr < 0xc0800000,
        covers(crate::net::allowed_ips::split_networks()[18], addr) <==> 0xc0800000 <= addr < 0xc0a00000,
        covers(crate::net::allowed_ips::split_networks()[19], addr) <==> 0xc0a00000 <= addr < 0xc0a80000,
        covers(crate::net::allowed_ips::split_networks()[20], addr) <==> 0xc0a90000 <= addr < 0xc0aa0000,
        covers(crate::net::allowed_ips::split_networks()[21], addr) <==> 0xc0aa0000 <= addr < 0xc0ac0000,
        covers(crate::net::allowed_ips::split_networks()[22], addr) <==> 0xc0ac0000 <= addr < 0xc0b00000,
        covers(crate::net::allowed_ips::split_networks()[23], addr) <==> 0xc0b00000 <= addr < 0xc0c00000,
        covers(crate::net::allowed_ips::split_networks()[24], addr) <==> 0xc0c00000 <= addr < 0xc1000000,
        covers(crate::net::allowed_ips::split_networks()[25], addr) <==> 0xc1000000 <= addr < 0xc2000000,
        covers(crate::net::allowed_ips::split_networks()[26], addr) <==> 0xc2000000 <= addr < 0xc4000000,
        covers(crate::net::allowed_ips::split_networks()[27], addr) <==> 0xc4000000 <= addr < 0xc8000000,
        covers(crate::net::allowed_ips::split_networks()[28], addr) <==> 0xc8000000 <= addr < 0xd0000000,
        covers(crate::net::allowed_ips::split_networks()[29], addr) <==> 0xd0000000 <= addr < 0xe0000000,
        covers(crate::net::allowed_ips::split_networks()[30], addr) <==> 0xe0000000 <= addr < 0x100000000,
        !covers(crate::net::allowed_ips::split_networks()[31], addr),
{
    lemma_part_a(addr);
    lemma_part_b(addr);
    lemma_part_c(addr);
    lemma_part_d(addr);
    lemma_part_e(addr);
    lemma_ipv6_covers_nothing(addr);
    let all = crate::net::allowed_ips::split_networks();
    assert(all[0] == "0.0.0.0/5"@);
    assert(all[1] == "8.0.0.0/7"@);
    assert(all[2] == "11.0.0.0/8"@);
    assert(all[3] == "12.0.0.0/6"@);
    assert(all[4] == "16.0.0.0/4"@);
    assert(all[5] == "32.0.0.0/3"@);
    assert(all[6] == "64.0.0.0/2"@);
    assert(all[7] == "128.0.0.0/3"@);
    assert(all[8] == "160.0.0.0/5"@);
    assert(all[9] == "168.0.0.0/6"@);
    assert(all[10] == "172.0.0.0/12"@);
    assert(all[11] == "172.32.0.0/11"@);
    assert(all[12] == "172.64.0.0/10"@);
    assert(all[13] == "172.128.0.0/9"@);
    assert(all[14] == "173.0.0.0/8"@);
    assert(all[15] == "174.0.0.0/7"@);
    assert(all[16] == "176.0.0.0/4"@);
    assert(all[17] == "192.0.0.0/9"@);
    assert(all[18] == "192.128.0.0/11"@);
    assert(all[19] == "192.160.0.0/13"@);
    assert(all[20] == "192.169.0.0/16"@);
    assert(all[21] == "192.170.0.0/15"@);
    assert(all[22] == "192.172.0.0/14"@);
    assert(all[23] == "192.176.0.0/12"@);
    assert(all[24] == "192.192.0.0/10"@);
    assert(all[25] == "193.0.0.0/8"@);
    assert(all[26] == "194.0.0.0/7"@);
    assert(all[27] == "196.0.0.0/6"@);
    assert(all[28] == "200.0.0.0/5"@);
    assert(all[29] == "208.0.0.0/4"@);
    assert(all[30] == "224.0.0.0/3"@);
    assert(all[31] == "::/0"@);
}

} // verus!
