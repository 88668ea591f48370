//! What holds of texts taken apart and put together.

use vstd::prelude::*;

verus! {

/// Of the ASCII characters, space and the control characters from tab to carriage return are white
/// space; of the others, those that Unicode lists.
pub proof fn law_white_space(c: char)
    ensures
        (c as int) < 128 ==> (crate::text::whitespace(c) <==> (c == ' ' || c == '\t' || c == '\n'
            || c == '\x0B' || c == '\x0C' || c == '\r')),
        crate::text::whitespace('\u{85}') && crate::text::whitespace('\u{A0}'),
        crate::text::whitespace('\u{1680}') && crate::text::whitespace('\u{3000}'),
        crate::text::whitespace('\u{2028}') && crate::text::whitespace('\u{2029}'),
        crate::text::whitespace('\u{202F}') && crate::text::whitespace('\u{205F}'),
        0x2000 <= (c as int) <= 0x200A ==> crate::text::whitespace(c),
        !crate::text::whitespace('\u{200B}') && !crate::text::whitespace('\u{FEFF}'),
{
}

/// White space in front of a text does not count.
proof fn lemma_front(a: Seq<char>, s: Seq<char>)
    requires
        forall|i: int| 0 <= i < a.len() ==> crate::text::whitespace(#[trigger] a[i]),
    ensures
        crate::text::trim_start(a + s) == crate::text::trim_start(s),
    decreases a.len(),
{
    if a.len() == 0 {
        assert(a + s =~= s);
    } else {
        let t = a.skip(1);
        assert(crate::text::whitespace(a[0]));
        assert((a + s)[0] == a[0]);
        assert((a + s).skip(1) =~= t + s);
        assert forall|i: int| 0 <= i < t.len() implies crate::text::whitespace(#[trigger] t[i]) by {
            assert(t[i] == a[i + 1]);
        }
        lemma_front(t, s);
    }
}

/// White space around a text does not count when it is trimmed, and all of it goes; what stands
/// between is kept.
pub proof fn law_trimming_takes_the_white_space_around(a: Seq<char>, s: Seq<char>, b: Seq<char>)
    requires
        forall|i: int| 0 <= i < a.len() ==> crate::text::whitespace(#[trigger] a[i]),
        forall|i: int| 0 <= i < b.len() ==> crate::text::whitespace(#[trigger] b[i]),
        crate::text::is_trimmed(s),
    ensures
        crate::text::trimmed(a + s + b) == s,
{
    let all = a + s + b;
    assert(all =~= a + (s + b));
    lemma_front(a, s + b);
    if s.len() > 0 {
        let t = s + b;
        assert(t[0] == s[0]);
        crate::text::lemma_trim_start_at(t, 0);
        assert(t.skip(0) =~= t);
        let n = s.len() as int;
        assert forall|j: int| n <= j < t.len() implies crate::text::whitespace(t[j]) by {
            assert(t[j] == b[j - n]);
        }
        assert(t[n - 1] == s[n - 1]);
        crate::text::lemma_trim_end_at(t, n);
        assert(t.take(n) =~= s);
    } else {
        assert(s + b =~= b);
        crate::text::lemma_trim_start_at(b, b.len() as int);
        assert(b.skip(b.len() as int) =~= Seq::<char>::empty());
        assert(s =~= Seq::<char>::empty());
    }
}

/// The parts of a text with the separator between them again make up the text, and no part holds
/// the separator.
pub proof fn law_parts_make_up_the_text(s: Seq<char>, c: char)
    ensures
        ({
            let parts = crate::text::split_at_each(s, c);
            &&& parts.len() > 0
            &&& rejoined(parts, c) == s
            &&& forall|i: int| 0 <= i < parts.len() ==> !(#[trigger] parts[i]).contains(c)
        }),
    decreases s.len(),
{
    let parts = crate::text::split_at_each(s, c);
    let k = crate::text::find(s, c);
    crate::text::lemma_find(s, c);
    if k < s.len() {
        let rest = s.skip(k + 1);
        let others = crate::text::split_at_each(rest, c);
        law_parts_make_up_the_text(rest, c);
        assert(parts.skip(1) =~= others);
        assert(s =~= s.take(k) + seq![c] + rest);
        assert forall|i: int| 0 <= i < parts.len() implies !(#[trigger] parts[i]).contains(c) by {
            if i > 0 {
                assert(parts[i] == others[i - 1]);
            }
        }
    }
}

/// Some texts with a character between each two of them.
pub open spec fn rejoined(parts: Seq<Seq<char>>, c: char) -> Seq<char>
    decreases parts.len(),
{
    if parts.len() == 0 {
        Seq::empty()
    } else if parts.len() == 1 {
        parts[0]
    } else {
        parts[0] + seq![c] + rejoined(parts.skip(1), c)
    }
}

/// A text is cut at the first separator, or at the last one; without one it is not cut.
pub proof fn law_cuts(a: Seq<char>, b: Seq<char>, c: char)
    ensures
        !a.contains(c) ==> crate::text::cut(a + seq![c] + b, c) == Some((a, b)),
        !b.contains(c) ==> crate::text::cut_last(a + seq![c] + b, c) == Some((a, b)),
        !a.contains(c) ==> crate::text::cut(a, c) is None && crate::text::cut_last(a, c) is None,
{
    let s = a + seq![c] + b;
    let n = a.len() as int;
    assert(s[n] == c);
    assert(s.take(n) =~= a);
    assert(s.skip(n + 1) =~= b);
    if !a.contains(c) {
        assert forall|j: int| 0 <= j < n implies s[j] != c && a[j] != c by {
            assert(s[j] == a[j]);
            assert(a.contains(a[j]));
        }
        crate::text::lemma_find_at(s, c, n);
        crate::text::lemma_find_at(a, c, n);
        crate::text::lemma_cut_last_at(a, c, 0);
    }
    if !b.contains(c) {
        assert forall|j: int| n + 1 <= j < s.len() implies s[j] != c by {
            assert(s[j] == b[j - n - 1]);
            assert(b.contains(b[j - n - 1]));
        }
        crate::text::lemma_cut_last_at(s, c, n + 1);
    }
}

/// A number is written without leading zeros and read back as itself, with or without a plus sign;
/// what is too great is not read, and neither is nothing.
pub proof fn law_numbers_are_read_back(n: nat, max: nat)
    ensures
        n <= max ==> crate::text::unsigned_value(crate::text::decimal(n), max) == Some(n),
        n > max ==> crate::text::unsigned_value(crate::text::decimal(n), max) is None,
        n <= max ==> crate::text::unsigned_value(seq!['+'] + crate::text::decimal(n), max) == Some(
            n,
        ),
        crate::text::unsigned_value(Seq::empty(), max) is None,
        crate::text::unsigned_value(seq!['-'] + crate::text::decimal(n), max) is None,
        n > 0 ==> crate::text::decimal(n)[0] != '0',
{
    let d = crate::text::decimal(n);
    crate::text::lemma_decimal(n);
    assert(crate::text::is_digit(d[0]));
    let p = seq!['+'] + d;
    assert(p.skip(1) =~= d);
    if n > 0 {
        lemma_first_digit(n);
    }
    lemma_sign(d);
}

/// The first digit of a number is not zero.
proof fn lemma_first_digit(n: nat)
    requires
        n > 0,
    ensures
        crate::text::decimal(n).len() > 0,
        crate::text::decimal(n)[0] != '0',
    decreases n,
{
    if n >= 10 {
        lemma_first_digit(n / 10);
    } else {
        assert(crate::text::decimal(n)[0] == crate::text::digit(n));
    }
}

/// A text with a minus sign in front is no row of digits.
proof fn lemma_sign(d: Seq<char>)
    ensures
        crate::text::digits_value(seq!['-'] + d) is None,
    decreases d.len(),
{
    let s = seq!['-'] + d;
    if d.len() > 0 {
        assert(s.drop_last() =~= seq!['-'] + d.drop_last());
        lemma_sign(d.drop_last());
    } else {
        assert(s.last() == '-');
    }
}

/// Lines that were put together come apart again, whether they end with a line feed or with a
/// carriage return and a line feed, and whether or not the last one ends with any.
pub proof fn law_lines_come_apart(one: Seq<char>, two: Seq<char>)
    requires
        !one.contains('\n') && !two.contains('\n'),
        one.len() > 0 ==> one.last() != '\r',
        two.len() > 0,
    ensures
        crate::text::lines_of(one + seq!['\n'] + two) == seq![one, two],
        crate::text::lines_of(one + seq!['\r', '\n'] + two) == seq![one, two],
        two.last() != '\r' ==> crate::text::lines_of(one + seq!['\n'] + two + seq!['\n']) == seq![
            one,
            two,
        ],
{
    reveal_strlit("\n");
    let feed = "\n"@;
    assert(feed =~= seq!['\n']);
    let none = Seq::<char>::empty();
    crate::text::lemma_find(two, '\n');
    assert(crate::text::lines_of(two) =~= seq![two]);
    crate::text::lemma_lines_front(one, two);
    assert(crate::text::lines_of(one + seq!['\n'] + two) =~= seq![one, two]);
    let returned = one + seq!['\r'];
    assert forall|i: int| 0 <= i < returned.len() implies returned[i] != '\n' by {
        if i < one.len() {
            assert(one.contains(one[i]));
        }
    }
    crate::text::lemma_lines_front(returned, two);
    assert(returned.drop_last() =~= one);
    assert(returned + feed + two =~= one + seq!['\r', '\n'] + two);
    assert(crate::text::lines_of(one + seq!['\r', '\n'] + two) =~= seq![one, two]);
    if two.last() != '\r' {
        crate::text::lemma_lines_front(two, none);
        let tail = two + feed + none;
        assert(tail =~= two + seq!['\n']);
        crate::text::lemma_lines_front(one, tail);
        assert(one + feed + tail =~= one + seq!['\n'] + two + seq!['\n']);
        assert(crate::text::lines_of(one + seq!['\n'] + two + seq!['\n']) =~= seq![one, two]);
    }
}

/// Words are what stands between white space: two of them with white space between, and any amount
/// of it around, are those two.
pub proof fn law_words_stand_between_white_space(one: Seq<char>, gap: char, rest: Seq<char>)
    requires
        one.len() > 0,
        forall|i: int| 0 <= i < one.len() ==> !crate::text::whitespace(#[trigger] one[i]),
        crate::text::whitespace(gap),
    ensures
        crate::text::words_of(one + seq![gap] + rest) == seq![one] + crate::text::words_of(rest),
        crate::text::words_of(one) == seq![one],
        crate::text::words_of(seq![gap] + rest) == crate::text::words_of(rest),
{
    reveal_with_fuel(crate::text::words_of, 3);
    let s = one + seq![gap] + rest;
    let n = one.len() as int;
    assert forall|j: int| 0 <= j < n implies !crate::text::whitespace(s[j]) by {
        assert(s[j] == one[j]);
        assert(!crate::text::whitespace(one[j]));
    }
    assert(s[n] == gap);
    crate::text::lemma_word_len_at(s, n);
    assert(!crate::text::whitespace(s[0]));
    assert(s.take(n) =~= one);
    assert(s.skip(n)[0] == gap);
    assert(s.skip(n).skip(1) =~= rest);
    crate::text::lemma_word_len_at(one, n);
    assert(!crate::text::whitespace(one[0]));
    assert(one.take(n) =~= one);
    assert(one.skip(n) =~= Seq::<char>::empty());
    assert(crate::text::words_of(one) =~= seq![one]);
    let t = seq![gap] + rest;
    assert(t[0] == gap);
    assert(t.skip(1) =~= rest);
}

/// In an ASCII text capitals become small letters and all else stays.
pub proof fn law_capitals_become_small(s: Seq<char>, i: int)
    requires
        vstd::utf8::is_ascii_chars(s),
        0 <= i < s.len(),
    ensures
        crate::text::lowercase(s).len() == s.len(),
        'A' <= s[i] <= 'Z' ==> crate::text::lowercase(s)[i] as int == s[i] as int + 32,
        !('A' <= s[i] <= 'Z') ==> crate::text::lowercase(s)[i] == s[i],
{
}

} // verus!
