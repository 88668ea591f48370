//! IP addresses and networks in text form.

use crate::text::{
    chars_of, decimal_text, find_text, has_char, parse_unsigned, split, split_once, trim,
};
use vstd::prelude::*;
use vstd::string::*;

verus! {

// ── IPv4 ────────────────────────────────────────────────────────────────────

/// The value of one part of an IPv4 address: one to three digits, at most 255, and no leading
/// zero.
pub open spec fn octet_value(s: Seq<char>) -> Option<nat> {
    if 1 <= s.len() <= 3 && !(s.len() > 1 && s[0] == '0') {
        match crate::text::digits_value(s) {
            Some(n) => if n <= 255 {
                Some(n)
            } else {
                None
            },
            None => None,
        }
    } else {
        None
    }
}

/// The number that four octets make, the first the most significant.
pub open spec fn octets_number(a: nat, b: nat, c: nat, d: nat) -> nat {
    a * 0x1000000 + b * 0x10000 + c * 0x100 + d
}

/// The number that an IPv4 address in dotted decimal form stands for.
pub open spec fn ipv4_value(s: Seq<char>) -> Option<nat> {
    let p = crate::text::split_at_each(s, '.');
    if p.len() == 4 {
        match (octet_value(p[0]), octet_value(p[1]), octet_value(p[2]), octet_value(p[3])) {
            (Some(a), Some(b), Some(c), Some(d)) => Some(octets_number(a, b, c, d)),
            _ => None,
        }
    } else {
        None
    }
}

/// Reads one part of an IPv4 address.
fn parse_octet(s: &str) -> (r: Option<u8>)
    ensures
        match r {
            Some(n) => octet_value(s@) == Some(n as nat),
            None => octet_value(s@) is None,
        },
{
    let n: usize = s.unicode_len();
    if n == 0 || n > 3 {
        return None;
    }
    let c: char = s.get_char(0);
    if n > 1 && c == '0' {
        return None;
    }
    if c == '+' {
        proof {
            lemma_no_digit(s@, 0);
        }
        return None;
    }
    match parse_unsigned(s, 255) {
        Some(x) => Some(x as u8),
        None => None,
    }
}

/// A text with another character than a digit in it has no digit value.
proof fn lemma_no_digit(s: Seq<char>, i: int)
    requires
        0 <= i < s.len(),
        !crate::text::is_digit(s[i]),
    ensures
        crate::text::digits_value(s) is None,
    decreases s.len(),
{
    if i < s.len() - 1 {
        lemma_no_digit(s.drop_last(), i);
    }
}

/// Reads an IPv4 address.
pub fn parse_ipv4(s: &str) -> (r: Option<u32>)
    ensures
        match r {
            Some(n) => ipv4_value(s@) == Some(n as nat),
            None => ipv4_value(s@) is None,
        },
{
    let p = split(s, '.');
    let ghost pv = crate::text::slices(p@);
    assert(pv.len() == p@.len());
    if p.len() != 4 {
        return None;
    }
    proof {
        assert(pv[0] == p@[0]@ && pv[1] == p@[1]@ && pv[2] == p@[2]@ && pv[3] == p@[3]@);
    }
    match (parse_octet(p[0]), parse_octet(p[1]), parse_octet(p[2]), parse_octet(p[3])) {
        (Some(a), Some(b), Some(c), Some(d)) => {
            Some(a as u32 * 0x1000000 + b as u32 * 0x10000 + c as u32 * 0x100 + d as u32)
        },
        _ => None,
    }
}

/// An IPv4 address fits 32 bits.
pub proof fn lemma_ipv4_fits(s: Seq<char>)
    requires
        ipv4_value(s) is Some,
    ensures
        ipv4_value(s)->0 <= u32::MAX,
{
}

/// The dotted decimal form of an IPv4 address.
pub open spec fn ipv4_text(n: nat) -> Seq<char> {
    crate::text::decimal(n / 0x1000000 % 256) + "."@ + crate::text::decimal(n / 0x10000 % 256)
        + "."@ + crate::text::decimal(n / 0x100 % 256) + "."@ + crate::text::decimal(n % 256)
}

/// Writes an IPv4 address in dotted decimal form.
pub fn format_ipv4(n: u32) -> (r: String)
    ensures
        r@ == ipv4_text(n as nat),
{
    let mut out = decimal_text((n / 0x1000000 % 256) as u64);
    out.push_str(".");
    out.push_str(decimal_text((n / 0x10000 % 256) as u64).as_str());
    out.push_str(".");
    out.push_str(decimal_text((n / 0x100 % 256) as u64).as_str());
    out.push_str(".");
    out.push_str(decimal_text((n % 256) as u64).as_str());
    out
}

/// The dotted decimal form splits at its dots into the forms of the four octets.
proof fn lemma_ipv4_parts(a: nat, b: nat, c: nat, d: nat)
    requires
        a <= 255,
        b <= 255,
        c <= 255,
        d <= 255,
    ensures
        crate::text::split_at_each(
            crate::text::decimal(a) + "."@ + crate::text::decimal(b) + "."@ + crate::text::decimal(
                c,
            ) + "."@ + crate::text::decimal(d),
            '.',
        ) == seq![
            crate::text::decimal(a),
            crate::text::decimal(b),
            crate::text::decimal(c),
            crate::text::decimal(d),
        ],
{
    reveal_strlit(".");
    let da = crate::text::decimal(a);
    let db = crate::text::decimal(b);
    let dc = crate::text::decimal(c);
    let dd = crate::text::decimal(d);
    lemma_octet_text(a);
    lemma_octet_text(b);
    lemma_octet_text(c);
    lemma_octet_text(d);
    let ab = da + seq!['.'] + db;
    let abc = ab + seq!['.'] + dc;
    crate::text::lemma_split_add(da, db, '.');
    crate::text::lemma_split_add(ab, dc, '.');
    crate::text::lemma_split_add(abc, dd, '.');
    crate::text::lemma_split_whole(da, '.');
    crate::text::lemma_split_whole(db, '.');
    crate::text::lemma_split_whole(dc, '.');
    crate::text::lemma_split_whole(dd, '.');
    assert("."@ =~= seq!['.']);
    assert(crate::text::split_at_each(abc + seq!['.'] + dd, '.') =~= seq![da, db, dc, dd]);
}

/// A number of 32 bits is made of its four octets.
proof fn lemma_octets(n: nat)
    requires
        n <= u32::MAX,
    ensures
        octets_number(n / 0x1000000 % 256, n / 0x10000 % 256, n / 0x100 % 256, n % 256) == n,
{
}

/// The decimal forms of four octets, with dots between them, are read as the number they make.
proof fn lemma_octets_text(a: nat, b: nat, c: nat, d: nat)
    requires
        a <= 255,
        b <= 255,
        c <= 255,
        d <= 255,
    ensures
        ipv4_value(
            crate::text::decimal(a) + "."@ + crate::text::decimal(b) + "."@ + crate::text::decimal(
                c,
            ) + "."@ + crate::text::decimal(d),
        ) == Some(octets_number(a, b, c, d)),
{
    lemma_ipv4_parts(a, b, c, d);
    lemma_octet_text(a);
    lemma_octet_text(b);
    lemma_octet_text(c);
    lemma_octet_text(d);
}

/// The dotted decimal form is read back as the address it was made from.
pub proof fn lemma_ipv4_text(n: nat)
    requires
        n <= u32::MAX,
    ensures
        ipv4_value(ipv4_text(n)) == Some(n),
{
    lemma_octets(n);
    lemma_octets_text(n / 0x1000000 % 256, n / 0x10000 % 256, n / 0x100 % 256, n % 256);
}

/// The decimal form of a number below 256 is an octet.
proof fn lemma_octet_text(n: nat)
    requires
        n <= 255,
    ensures
        octet_value(crate::text::decimal(n)) == Some(n),
        !crate::text::decimal(n).contains('.'),
{
    let s = crate::text::decimal(n);
    crate::text::lemma_decimal(n);
    reveal_with_fuel(crate::text::decimal, 3);
    assert forall|i: int| 0 <= i < s.len() implies s[i] != '.' by {
        assert(crate::text::is_digit(s[i]));
    }
}

// ── IPv6 ────────────────────────────────────────────────────────────────────

/// Whether `c` is a hexadecimal digit.
pub open spec fn hex_digit(c: char) -> bool {
    '0' <= c <= '9' || 'a' <= c <= 'f' || 'A' <= c <= 'F'
}

/// Whether `s` is a group of an IPv6 address: one to four hexadecimal digits.
pub open spec fn hex_group(s: Seq<char>) -> bool {
    1 <= s.len() <= 4 && forall|i: int| 0 <= i < s.len() ==> hex_digit(#[trigger] s[i])
}

/// How many 16-bit units a run of groups makes up. The last of them may be an IPv4 address, which
/// makes up two.
pub open spec fn units(groups: Seq<Seq<char>>, v4: bool) -> Option<nat>
    decreases groups.len(),
{
    if groups.len() == 0 {
        Some(0)
    } else if hex_group(groups[0]) {
        match units(groups.skip(1), v4) {
            Some(n) => Some(n + 1),
            None => None,
        }
    } else if v4 && groups.len() == 1 && ipv4_value(groups[0]) is Some {
        Some(2)
    } else {
        None
    }
}

/// How many 16-bit units the groups between colons in `s` make up; an empty text has none.
pub open spec fn text_units(s: Seq<char>, v4: bool) -> Option<nat> {
    if s.len() == 0 {
        Some(0)
    } else {
        units(crate::text::split_at_each(s, ':'), v4)
    }
}

/// Whether `i` is where the first `::` of `s` stands.
pub open spec fn first_gap(s: Seq<char>, i: int) -> bool {
    crate::text::occurs_at(s, "::"@, i) && forall|j: int|
        0 <= j < i ==> !#[trigger] crate::text::occurs_at(s, "::"@, j)
}

/// Whether `s` is an IPv6 address: eight units, or fewer than eight with one `::` among them. An
/// IPv4 address may stand for the last two units.
pub open spec fn ipv6_valid(s: Seq<char>) -> bool {
    if crate::text::occurs(s, "::"@) {
        exists|i: int| #[trigger]
            first_gap(s, i) && match (
                text_units(s.take(i), false),
                text_units(s.skip(i + 2), true),
            ) {
                (Some(h), Some(t)) => h + t <= 7,
                _ => false,
            }
    } else {
        text_units(s, true) == Some(8nat)
    }
}

/// Whether `s` is one to four hexadecimal digits.
fn is_hex_group(s: &str) -> (r: bool)
    ensures
        r == hex_group(s@),
{
    let v = chars_of(s);
    if v.len() == 0 || v.len() > 4 {
        return false;
    }
    let mut i: usize = 0;
    while i < v.len()
        invariant
            i <= v@.len(),
            v@ == s@,
            1 <= v@.len() <= 4,
            forall|j: int| 0 <= j < i ==> hex_digit(#[trigger] v@[j]),
        decreases v@.len() - i,
    {
        let c: char = v[i];
        if !((c >= '0' && c <= '9') || (c >= 'a' && c <= 'f') || (c >= 'A' && c <= 'F')) {
            assert(!hex_digit(s@[i as int]));
            return false;
        }
        i += 1;
    }
    true
}

/// How many 16-bit units the groups in `s` make up.
fn count_units(s: &str, v4: bool) -> (r: Option<u128>)
    ensures
        match r {
            Some(n) => text_units(s@, v4) == Some(n as nat),
            None => text_units(s@, v4) is None,
        },
{
    if s.is_empty() {
        return Some(0);
    }
    let groups = split(s, ':');
    let ghost gv = crate::text::slices(groups@);
    let mut n: u128 = 0;
    let mut i: usize = 0;
    assert(gv.skip(0) =~= gv);
    while i < groups.len()
        invariant
            i <= groups@.len(),
            n == i,
            s@.len() > 0,
            gv == crate::text::slices(groups@),
            gv == crate::text::split_at_each(s@, ':'),
            match units(gv.skip(i as int), v4) {
                Some(k) => text_units(s@, v4) == Some((n + k) as nat),
                None => text_units(s@, v4) is None,
            },
        decreases groups@.len() - i,
    {
        let g = groups[i];
        proof {
            assert(gv.skip(i as int)[0] == g@);
            assert(gv.skip(i as int).skip(1) =~= gv.skip(i + 1));
        }
        if is_hex_group(g) {
            n += 1;
        } else if v4 && i == groups.len() - 1 && parse_ipv4(g).is_some() {
            return Some(n + 2);
        } else {
            return None;
        }
        i += 1;
    }
    Some(n)
}

/// Whether `s` is an IPv6 address.
pub fn is_ipv6(s: &str) -> (r: bool)
    ensures
        r == ipv6_valid(s@),
{
    match find_text(s, "::") {
        Some(i) => {
            proof {
                reveal_strlit("::");
                assert(first_gap(s@, i as int));
                assert forall|k: int| #[trigger] first_gap(s@, k) implies k == i by {
                    if k < i {
                        assert(!crate::text::occurs_at(s@, "::"@, k));
                    } else if i < k {
                        assert(!crate::text::occurs_at(s@, "::"@, i as int));
                    }
                }
            }
            let n: usize = s.unicode_len();
            let head = s.substring_char(0, i);
            let tail = s.substring_char(i + 2, n);
            assert(head@ =~= s@.take(i as int));
            assert(tail@ =~= s@.skip(i + 2));
            match (count_units(head, false), count_units(tail, true)) {
                (Some(h), Some(t)) => h <= 7 && t <= 7 && h + t <= 7,
                _ => false,
            }
        },
        None => match count_units(s, true) {
            Some(n) => n == 8,
            None => false,
        },
    }
}

// ── networks ────────────────────────────────────────────────────────────────

/// Whether `s` is a network in CIDR form: an IPv4 address, a slash and a prefix length of at most
/// 32, or an IPv6 address, a slash and a prefix length of at most 128. White space around it does
/// not count.
pub open spec fn cidr_valid(s: Seq<char>) -> bool {
    match crate::text::cut(crate::text::trimmed(s), '/') {
        Some((addr, prefix)) => match crate::text::unsigned_value(prefix, 255) {
            Some(n) => if addr.contains(':') {
                ipv6_valid(addr) && n <= 128
            } else {
                ipv4_value(addr) is Some && n <= 32
            },
            None => false,
        },
        None => false,
    }
}

/// Whether `s` is a network in CIDR form.
pub fn is_valid_cidr(s: &str) -> (r: bool)
    ensures
        r == cidr_valid(s@),
{
    match split_once(trim(s), '/') {
        Some((addr, prefix)) => match parse_unsigned(prefix, 255) {
            Some(n) => if has_char(addr, ':') {
                is_ipv6(addr) && n <= 128
            } else {
                parse_ipv4(addr).is_some() && n <= 32
            },
            None => false,
        },
        None => false,
    }
}

} // verus!
