//! Text: the string operations the rest of the library is written with, each
//! stated over sequences of characters.

use vstd::prelude::*;
use vstd::string::*;

verus! {

/// `String::push` appends one character.
pub assume_specification[ String::push ](s: &mut String, c: char)
    ensures
        final(s)@ == old(s)@.push(c),
;

/// `String::push_str` appends the characters of its argument.
pub assume_specification[ String::push_str ](s: &mut String, other: &str)
    ensures
        final(s)@ == old(s)@ + other@,
;

// ── characters ──────────────────────────────────────────────────────────────

/// The characters with the Unicode property `White_Space`.
pub open spec fn whitespace(c: char) -> bool {
    let n = c as int;
    ||| 9 <= n <= 13
    ||| n == 32
    ||| n == 0x85
    ||| n == 0xA0
    ||| n == 0x1680
    ||| 0x2000 <= n <= 0x200A
    ||| n == 0x2028
    ||| n == 0x2029
    ||| n == 0x202F
    ||| n == 0x205F
    ||| n == 0x3000
}

/// Whether `c` is white space.
pub fn is_whitespace(c: char) -> (b: bool)
    ensures
        b == whitespace(c),
{
    let n: u32 = c as u32;
    (9 <= n && n <= 13) || n == 32 || n == 0x85 || n == 0xA0 || n == 0x1680 || (0x2000 <= n && n
        <= 0x200A) || n == 0x2028 || n == 0x2029 || n == 0x202F || n == 0x205F || n == 0x3000
}

/// The characters of `s`, in order.
pub fn chars_of(s: &str) -> (v: Vec<char>)
    ensures
        v@ == s@,
{
    let mut v: Vec<char> = Vec::new();
    for c in it: s.chars()
        invariant
            v@ == it.seq().take(it.index() as int),
            it.seq() == s@,
    {
        v.push(c);
    }
    v
}

/// Whether two texts hold the same characters.
pub fn same(a: &str, b: &str) -> (r: bool)
    ensures
        r == (a@ == b@),
{
    let x = chars_of(a);
    let y = chars_of(b);
    if x.len() != y.len() {
        return false;
    }
    let mut i: usize = 0;
    while i < x.len()
        invariant
            i <= x@.len(),
            x@.len() == y@.len(),
            x@ == a@,
            y@ == b@,
            forall|j: int| 0 <= j < i ==> x@[j] == y@[j],
        decreases x@.len() - i,
    {
        if x[i] != y[i] {
            return false;
        }
        i += 1;
    }
    assert(x@ =~= y@);
    true
}

// ── searching ───────────────────────────────────────────────────────────────

/// The position of the first `c` in `s`, or the length of `s` when there is none.
pub open spec fn find(s: Seq<char>, c: char) -> int
    decreases s.len(),
{
    if s.len() == 0 || s[0] == c {
        0
    } else {
        1 + find(s.skip(1), c)
    }
}

/// `find` is the one position that has no `c` before it and `c` (or the end) at it.
pub proof fn lemma_find_at(s: Seq<char>, c: char, i: int)
    requires
        0 <= i <= s.len(),
        forall|j: int| 0 <= j < i ==> s[j] != c,
        i < s.len() ==> s[i] == c,
    ensures
        find(s, c) == i,
    decreases s.len(),
{
    if i > 0 {
        assert(s[0] != c);
        let t = s.skip(1);
        assert forall|j: int| 0 <= j < i - 1 implies t[j] != c by {
            assert(t[j] == s[j + 1]);
        }
        lemma_find_at(t, c, i - 1);
    }
}

/// What `find` returns, read off its definition.
pub proof fn lemma_find(s: Seq<char>, c: char)
    ensures
        0 <= find(s, c) <= s.len(),
        forall|j: int| 0 <= j < find(s, c) ==> s[j] != c,
        find(s, c) < s.len() ==> s[find(s, c)] == c,
        find(s, c) < s.len() <==> s.contains(c),
    decreases s.len(),
{
    if s.len() > 0 && s[0] != c {
        let t = s.skip(1);
        lemma_find(t, c);
        assert forall|j: int| 0 <= j < find(s, c) implies s[j] != c by {
            if j > 0 {
                assert(s[j] == t[j - 1]);
            }
        }
    }
    if s.contains(c) {
        let k = choose|k: int| 0 <= k < s.len() && s[k] == c;
        assert(find(s, c) <= k);
    }
}

/// The position of the first `c` in `s`.
pub fn find_char(s: &str, c: char) -> (r: Option<usize>)
    ensures
        match r {
            Some(i) => i < s@.len() && i == find(s@, c),
            None => find(s@, c) == s@.len(),
        },
{
    let v = chars_of(s);
    let mut i: usize = 0;
    while i < v.len()
        invariant
            i <= v@.len(),
            v@ == s@,
            forall|j: int| 0 <= j < i ==> v@[j] != c,
        decreases v@.len() - i,
    {
        if v[i] == c {
            proof {
                lemma_find_at(s@, c, i as int);
            }
            return Some(i);
        }
        i += 1;
    }
    proof {
        lemma_find_at(s@, c, i as int);
    }
    None
}

/// Whether `c` occurs in `s`.
pub fn has_char(s: &str, c: char) -> (r: bool)
    ensures
        r == s@.contains(c),
{
    proof {
        lemma_find(s@, c);
    }
    find_char(s, c).is_some()
}

/// Whether `s` begins with `prefix`.
pub fn starts_with(s: &str, prefix: &str) -> (r: bool)
    ensures
        r == prefix@.is_prefix_of(s@),
{
    let x = chars_of(s);
    let y = chars_of(prefix);
    if x.len() < y.len() {
        return false;
    }
    let mut i: usize = 0;
    while i < y.len()
        invariant
            i <= y@.len() <= x@.len(),
            x@ == s@,
            y@ == prefix@,
            forall|j: int| 0 <= j < i ==> x@[j] == y@[j],
        decreases y@.len() - i,
    {
        if x[i] != y[i] {
            assert(y@ != x@.subrange(0, y@.len() as int)) by {
                assert(x@.subrange(0, y@.len() as int)[i as int] == x@[i as int]);
            }
            return false;
        }
        i += 1;
    }
    assert(y@ =~= x@.subrange(0, y@.len() as int));
    true
}

/// The part of `s` behind `prefix`, where `s` begins with it.
pub fn strip_prefix<'a>(s: &'a str, prefix: &str) -> (r: Option<&'a str>)
    ensures
        match r {
            Some(t) => prefix@.is_prefix_of(s@) && t@ == s@.skip(prefix@.len() as int),
            None => !prefix@.is_prefix_of(s@),
        },
{
    if starts_with(s, prefix) {
        Some(s.substring_char(prefix.unicode_len(), s.unicode_len()))
    } else {
        None
    }
}

/// Whether `p` occurs in `s` at position `i`.
pub open spec fn occurs_at(s: Seq<char>, p: Seq<char>, i: int) -> bool {
    0 <= i <= s.len() - p.len() && s.subrange(i, i + p.len()) == p
}

/// Whether `p` occurs anywhere in `s`.
pub open spec fn occurs(s: Seq<char>, p: Seq<char>) -> bool {
    exists|i: int| occurs_at(s, p, i)
}

/// Whether the text `p` occurs in `v` at position `i`.
fn matches_at(v: &Vec<char>, p: &Vec<char>, i: usize) -> (r: bool)
    requires
        i <= v@.len(),
    ensures
        r == occurs_at(v@, p@, i as int),
{
    let n: usize = v.len();
    if n - i < p.len() {
        return false;
    }
    let mut j: usize = 0;
    while j < p.len()
        invariant
            i <= n == v@.len(),
            j <= p@.len() <= v@.len() - i,
            forall|k: int| 0 <= k < j ==> v@[i + k] == p@[k],
        decreases p@.len() - j,
    {
        if v[i + j] != p[j] {
            assert(v@.subrange(i as int, i + p@.len())[j as int] == v@[i + j]);
            return false;
        }
        j += 1;
    }
    assert(v@.subrange(i as int, i + p@.len()) =~= p@);
    true
}

/// The first position at which `p` occurs in `s`.
pub fn find_text(s: &str, p: &str) -> (r: Option<usize>)
    ensures
        match r {
            Some(i) => occurs_at(s@, p@, i as int) && forall|j: int|
                0 <= j < i ==> !#[trigger] occurs_at(s@, p@, j),
            None => !occurs(s@, p@),
        },
{
    let v = chars_of(s);
    let q = chars_of(p);
    let mut i: usize = 0;
    while i < v.len()
        invariant
            i <= v@.len(),
            v@ == s@,
            q@ == p@,
            forall|j: int| 0 <= j < i ==> !#[trigger] occurs_at(s@, p@, j),
        decreases v@.len() - i,
    {
        if matches_at(&v, &q, i) {
            return Some(i);
        }
        i += 1;
    }
    if matches_at(&v, &q, i) {
        return Some(i);
    }
    None
}

/// Whether `p` occurs in `s`.
pub fn has_text(s: &str, p: &str) -> (r: bool)
    ensures
        r == occurs(s@, p@),
{
    find_text(s, p).is_some()
}

// ── trimming ────────────────────────────────────────────────────────────────

/// `s` without the white space it begins with.
pub open spec fn trim_start(s: Seq<char>) -> Seq<char>
    decreases s.len(),
{
    if s.len() > 0 && whitespace(s[0]) {
        trim_start(s.skip(1))
    } else {
        s
    }
}

/// `s` without the white space it ends with.
pub open spec fn trim_end(s: Seq<char>) -> Seq<char>
    decreases s.len(),
{
    if s.len() > 0 && whitespace(s.last()) {
        trim_end(s.drop_last())
    } else {
        s
    }
}

/// `s` without the white space around it.
pub open spec fn trimmed(s: Seq<char>) -> Seq<char> {
    trim_end(trim_start(s))
}

/// Cutting white space off the front skips exactly the characters before the first other one.
pub proof fn lemma_trim_start_at(s: Seq<char>, i: int)
    requires
        0 <= i <= s.len(),
        forall|j: int| 0 <= j < i ==> whitespace(s[j]),
        i < s.len() ==> !whitespace(s[i]),
    ensures
        trim_start(s) == s.skip(i),
    decreases i,
{
    if i > 0 {
        assert(whitespace(s[0]));
        let t = s.skip(1);
        assert forall|j: int| 0 <= j < i - 1 implies whitespace(t[j]) by {
            assert(t[j] == s[j + 1]);
        }
        lemma_trim_start_at(t, i - 1);
        assert(t.skip(i - 1) =~= s.skip(i));
    } else {
        assert(s.skip(0) =~= s);
    }
}

/// Cutting white space off the back keeps exactly the characters up to the last other one.
pub proof fn lemma_trim_end_at(s: Seq<char>, i: int)
    requires
        0 <= i <= s.len(),
        forall|j: int| i <= j < s.len() ==> whitespace(s[j]),
        i > 0 ==> !whitespace(s[i - 1]),
    ensures
        trim_end(s) == s.take(i),
    decreases s.len() - i,
{
    if i < s.len() {
        assert(whitespace(s.last()));
        let t = s.drop_last();
        lemma_trim_end_at(t, i);
        assert(t.take(i) =~= s.take(i));
    } else {
        assert(s.take(i) =~= s);
    }
}

/// `s` without the white space around it.
pub fn trim<'a>(s: &'a str) -> (r: &'a str)
    ensures
        r@ == trimmed(s@),
{
    let v = chars_of(s);
    let mut a: usize = 0;
    while a < v.len() && is_whitespace(v[a])
        invariant
            a <= v@.len(),
            v@ == s@,
            forall|j: int| 0 <= j < a ==> whitespace(v@[j]),
        decreases v@.len() - a,
    {
        a += 1;
    }
    let mut b: usize = v.len();
    while b > a && is_whitespace(v[b - 1])
        invariant
            a <= b <= v@.len(),
            v@ == s@,
            forall|j: int| b <= j < v@.len() ==> whitespace(v@[j]),
        decreases b,
    {
        b -= 1;
    }
    proof {
        lemma_trim_start_at(s@, a as int);
        let t = s@.skip(a as int);
        assert forall|j: int| b - a <= j < t.len() implies whitespace(t[j]) by {
            assert(t[j] == s@[j + a]);
        }
        lemma_trim_end_at(t, b - a);
        assert(t.take(b - a) =~= s@.subrange(a as int, b as int));
    }
    s.substring_char(a, b)
}

/// `s` without the white space it begins with.
pub fn trim_front<'a>(s: &'a str) -> (r: &'a str)
    ensures
        r@ == trim_start(s@),
{
    let v = chars_of(s);
    let mut a: usize = 0;
    while a < v.len() && is_whitespace(v[a])
        invariant
            a <= v@.len(),
            v@ == s@,
            forall|j: int| 0 <= j < a ==> whitespace(v@[j]),
        decreases v@.len() - a,
    {
        a += 1;
    }
    proof {
        lemma_trim_start_at(s@, a as int);
        assert(s@.skip(a as int) =~= s@.subrange(a as int, s@.len() as int));
    }
    s.substring_char(a, v.len())
}

/// A text with no white space at either end.
pub open spec fn is_trimmed(s: Seq<char>) -> bool {
    s.len() > 0 ==> !whitespace(s[0]) && !whitespace(s.last())
}

/// Trimming leaves a text with no white space at either end, drawn from the original.
pub proof fn lemma_trimmed(s: Seq<char>)
    ensures
        is_trimmed(trimmed(s)),
        exists|a: int, b: int| 0 <= a <= b <= s.len() && trimmed(s) == #[trigger] s.subrange(a, b),
        forall|i: int| 0 <= i < trimmed(s).len() ==> s.contains(#[trigger] trimmed(s)[i]),
{
    let t = trim_start(s);
    lemma_trim_start_range(s);
    lemma_trim_end_range(t);
    let a = choose|a: int| 0 <= a <= s.len() && t == #[trigger] s.skip(a);
    let b = choose|b: int| 0 <= b <= t.len() && trim_end(t) == #[trigger] t.take(b);
    assert(trimmed(s) =~= s.subrange(a, a + b));
    assert forall|i: int| 0 <= i < trimmed(s).len() implies s.contains(#[trigger] trimmed(s)[i]) by {
        assert(trimmed(s)[i] == s[a + i]);
    }
}

proof fn lemma_trim_start_range(s: Seq<char>)
    ensures
        exists|a: int| 0 <= a <= s.len() && trim_start(s) == #[trigger] s.skip(a),
        trim_start(s).len() > 0 ==> !whitespace(trim_start(s)[0]),
    decreases s.len(),
{
    if s.len() > 0 && whitespace(s[0]) {
        let t = s.skip(1);
        lemma_trim_start_range(t);
        let a = choose|a: int| 0 <= a <= t.len() && trim_start(t) == #[trigger] t.skip(a);
        assert(t.skip(a) =~= s.skip(a + 1));
    } else {
        assert(s.skip(0) =~= s);
    }
}

proof fn lemma_trim_end_range(s: Seq<char>)
    ensures
        exists|b: int| 0 <= b <= s.len() && trim_end(s) == #[trigger] s.take(b),
        trim_end(s).len() > 0 ==> !whitespace(trim_end(s).last()) && trim_end(s)[0] == s[0],
    decreases s.len(),
{
    if s.len() > 0 && whitespace(s.last()) {
        let t = s.drop_last();
        lemma_trim_end_range(t);
        let b = choose|b: int| 0 <= b <= t.len() && trim_end(t) == #[trigger] t.take(b);
        assert(t.take(b) =~= s.take(b));
    } else {
        assert(s.take(s.len() as int) =~= s);
    }
}

/// A text that has no white space at its ends is left alone by trimming.
pub proof fn lemma_trim_keeps(s: Seq<char>)
    requires
        is_trimmed(s),
    ensures
        trimmed(s) == s,
{
}

// ── splitting and joining ───────────────────────────────────────────────────

/// The characters behind each of a row of strings.
pub open spec fn views(v: Seq<String>) -> Seq<Seq<char>> {
    v.map_values(|s: String| s@)
}

/// The characters behind each of a row of string slices.
pub open spec fn slices(v: Seq<&str>) -> Seq<Seq<char>> {
    v.map_values(|s: &str| s@)
}

/// The given strings as slices.
pub fn borrowed<'a>(parts: &'a Vec<String>) -> (r: Vec<&'a str>)
    ensures
        slices(r@) == views(parts@),
{
    let mut out: Vec<&str> = Vec::new();
    let mut i: usize = 0;
    while i < parts.len()
        invariant
            i <= parts@.len(),
            slices(out@) == views(parts@).take(i as int),
        decreases parts@.len() - i,
    {
        let ghost before = out@;
        let part = parts[i].as_str();
        out.push(part);
        proof {
            assert(slices(out@) =~= slices(before).push(part@));
            assert(views(parts@).take(i + 1) =~= views(parts@).take(i as int).push(part@));
        }
        i += 1;
    }
    assert(views(parts@).take(i as int) =~= views(parts@));
    out
}

/// The given texts as strings of their own.
pub fn owned(parts: Vec<&str>) -> (r: Vec<String>)
    ensures
        views(r@) == slices(parts@),
{
    let mut out: Vec<String> = Vec::new();
    let mut i: usize = 0;
    while i < parts.len()
        invariant
            i <= parts@.len(),
            views(out@) == slices(parts@).take(i as int),
        decreases parts@.len() - i,
    {
        let ghost was = out@;
        out.push(parts[i].to_owned());
        proof {
            assert(views(out@) =~= views(was).push(parts@[i as int]@));
            assert(views(out@) =~= slices(parts@).take(i + 1));
        }
        i += 1;
    }
    assert(slices(parts@).take(i as int) =~= slices(parts@));
    out
}

/// A copy of a row of strings.
pub fn copied(v: &Vec<String>) -> (r: Vec<String>)
    ensures
        views(r@) == views(v@),
{
    let mut out: Vec<String> = Vec::new();
    let mut i: usize = 0;
    while i < v.len()
        invariant
            i <= v@.len(),
            views(out@) == views(v@).take(i as int),
        decreases v@.len() - i,
    {
        let ghost was = out@;
        out.push(v[i].clone());
        proof {
            assert(views(out@) =~= views(was).push(v@[i as int]@));
            assert(views(out@) =~= views(v@).take(i + 1));
        }
        i += 1;
    }
    assert(views(v@).take(i as int) =~= views(v@));
    out
}

/// The parts of `s` between the occurrences of `c`.
pub open spec fn split_at_each(s: Seq<char>, c: char) -> Seq<Seq<char>>
    decreases s.len(),
{
    let i = find(s, c);
    if 0 <= i < s.len() {
        seq![s.take(i)] + split_at_each(s.skip(i + 1), c)
    } else {
        seq![s]
    }
}

/// The parts of `s` between the occurrences of `c`.
pub fn split<'a>(s: &'a str, c: char) -> (r: Vec<&'a str>)
    ensures
        slices(r@) == split_at_each(s@, c),
{
    let mut out: Vec<&'a str> = Vec::new();
    let mut rest: &'a str = s;
    loop
        invariant
            slices(out@) + split_at_each(rest@, c) == split_at_each(s@, c),
        decreases rest@.len(),
    {
        let n: usize = rest.unicode_len();
        match find_char(rest, c) {
            Some(i) => {
                let head = rest.substring_char(0, i);
                let tail = rest.substring_char(i + 1, n);
                let ghost before = out@;
                out.push(head);
                proof {
                    assert(head@ =~= rest@.take(i as int));
                    assert(tail@ =~= rest@.skip(i + 1));
                    assert(slices(out@) =~= slices(before).push(head@));
                    assert(slices(out@) + split_at_each(tail@, c) =~= slices(before)
                        + split_at_each(rest@, c));
                }
                rest = tail;
            },
            None => {
                let ghost before = out@;
                out.push(rest);
                proof {
                    assert(slices(out@) =~= slices(before) + split_at_each(rest@, c));
                }
                return out;
            },
        }
    }
}

/// The text before and behind the first `c` in `s`.
pub open spec fn cut(s: Seq<char>, c: char) -> Option<(Seq<char>, Seq<char>)> {
    let i = find(s, c);
    if 0 <= i < s.len() {
        Some((s.take(i), s.skip(i + 1)))
    } else {
        None
    }
}

/// The text before and behind the first `c` in `s`.
pub fn split_once<'a>(s: &'a str, c: char) -> (r: Option<(&'a str, &'a str)>)
    ensures
        match r {
            Some((a, b)) => cut(s@, c) == Some((a@, b@)),
            None => cut(s@, c) is None,
        },
{
    let n: usize = s.unicode_len();
    match find_char(s, c) {
        Some(i) => {
            let a = s.substring_char(0, i);
            let b = s.substring_char(i + 1, n);
            proof {
                assert(a@ =~= s@.take(i as int));
                assert(b@ =~= s@.skip(i + 1));
            }
            Some((a, b))
        },
        None => None,
    }
}

/// The text before and behind the last `c` in `s`.
pub open spec fn cut_last(s: Seq<char>, c: char) -> Option<(Seq<char>, Seq<char>)>
    decreases s.len(),
{
    if s.len() == 0 {
        None
    } else if s.last() == c {
        Some((s.drop_last(), Seq::empty()))
    } else {
        match cut_last(s.drop_last(), c) {
            Some((a, b)) => Some((a, b.push(s.last()))),
            None => None,
        }
    }
}

/// What `cut_last` is, by the last place of the character.
pub proof fn lemma_cut_last_at(s: Seq<char>, c: char, i: int)
    requires
        0 <= i <= s.len(),
        forall|j: int| i <= j < s.len() ==> s[j] != c,
        i > 0 ==> s[i - 1] == c,
    ensures
        cut_last(s, c) == (if i > 0 {
            Some((s.take(i - 1), s.skip(i)))
        } else {
            None
        }),
    decreases s.len(),
{
    if s.len() > 0 {
        if i == s.len() {
            assert(s.take(i - 1) =~= s.drop_last());
            assert(s.skip(i) =~= Seq::empty());
        } else {
            assert(s[s.len() - 1] != c);
            let t = s.drop_last();
            lemma_cut_last_at(t, c, i);
            if i > 0 {
                assert(t.take(i - 1) =~= s.take(i - 1));
                assert(t.skip(i).push(s.last()) =~= s.skip(i));
            }
        }
    }
}

/// The text before and behind the last `c` in `s`.
pub fn rsplit_once<'a>(s: &'a str, c: char) -> (r: Option<(&'a str, &'a str)>)
    ensures
        match r {
            Some((a, b)) => cut_last(s@, c) == Some((a@, b@)),
            None => cut_last(s@, c) is None,
        },
{
    let v = chars_of(s);
    let mut i: usize = v.len();
    while i > 0 && v[i - 1] != c
        invariant
            i <= v@.len(),
            v@ == s@,
            forall|j: int| i <= j < v@.len() ==> v@[j] != c,
        decreases i,
    {
        i -= 1;
    }
    proof {
        lemma_cut_last_at(s@, c, i as int);
    }
    if i > 0 {
        let a = s.substring_char(0, i - 1);
        let b = s.substring_char(i, v.len());
        proof {
            assert(a@ =~= s@.take(i - 1));
            assert(b@ =~= s@.skip(i as int));
        }
        Some((a, b))
    } else {
        None
    }
}

/// `s` without the one carriage return it may end with.
pub open spec fn without_cr(s: Seq<char>) -> Seq<char> {
    if s.len() > 0 && s.last() == '\r' {
        s.drop_last()
    } else {
        s
    }
}

/// The lines of `s`: a line ends at a line feed, or at a carriage return and a line feed. Text
/// behind the last line feed is a line of its own where there is any.
pub open spec fn lines_of(s: Seq<char>) -> Seq<Seq<char>>
    decreases s.len(),
{
    if s.len() == 0 {
        Seq::empty()
    } else {
        let i = find(s, '\n');
        if 0 <= i < s.len() {
            seq![without_cr(s.take(i))] + lines_of(s.skip(i + 1))
        } else {
            seq![s]
        }
    }
}

/// The lines of `s`.
pub fn lines<'a>(s: &'a str) -> (r: Vec<&'a str>)
    ensures
        slices(r@) == lines_of(s@),
{
    let mut out: Vec<&'a str> = Vec::new();
    let mut rest: &'a str = s;
    loop
        invariant
            slices(out@) + lines_of(rest@) == lines_of(s@),
        decreases rest@.len(),
    {
        let n: usize = rest.unicode_len();
        if n == 0 {
            assert(slices(out@) + lines_of(rest@) =~= slices(out@));
            return out;
        }
        match find_char(rest, '\n') {
            Some(i) => {
                let end: usize = if i > 0 && rest.get_char(i - 1) == '\r' {
                    i - 1
                } else {
                    i
                };
                let head = rest.substring_char(0, end);
                let tail = rest.substring_char(i + 1, n);
                let ghost before = out@;
                out.push(head);
                proof {
                    assert(head@ =~= without_cr(rest@.take(i as int)));
                    assert(tail@ =~= rest@.skip(i + 1));
                    assert(slices(out@) =~= slices(before).push(head@));
                    assert(slices(out@) + lines_of(tail@) =~= slices(before) + lines_of(rest@));
                }
                rest = tail;
            },
            None => {
                let ghost before = out@;
                out.push(rest);
                proof {
                    assert(slices(out@) =~= slices(before) + lines_of(rest@));
                }
                return out;
            },
        }
    }
}

/// The texts `parts` with `sep` between each two of them.
pub open spec fn joined(parts: Seq<Seq<char>>, sep: Seq<char>) -> Seq<char>
    decreases parts.len(),
{
    if parts.len() == 0 {
        Seq::empty()
    } else if parts.len() == 1 {
        parts[0]
    } else {
        joined(parts.drop_last(), sep) + sep + parts.last()
    }
}

/// The texts `parts` with `sep` between each two of them.
pub fn join(parts: &Vec<String>, sep: &str) -> (r: String)
    ensures
        r@ == joined(views(parts@), sep@),
{
    let mut out = String::new();
    let mut i: usize = 0;
    while i < parts.len()
        invariant
            i <= parts@.len(),
            out@ == joined(views(parts@).take(i as int), sep@),
        decreases parts@.len() - i,
    {
        if i > 0 {
            out.push_str(sep);
        }
        out.push_str(parts[i].as_str());
        proof {
            let t = views(parts@).take(i + 1);
            assert(t.drop_last() =~= views(parts@).take(i as int));
            assert(t.last() == parts@[i as int]@);
        }
        i += 1;
    }
    assert(views(parts@).take(i as int) =~= views(parts@));
    out
}

/// How many characters `s` has before its first white space.
pub open spec fn word_len(s: Seq<char>) -> int
    decreases s.len(),
{
    if s.len() == 0 || whitespace(s[0]) {
        0
    } else {
        1 + word_len(s.skip(1))
    }
}

/// What `word_len` is, by the first white space.
pub proof fn lemma_word_len_at(s: Seq<char>, i: int)
    requires
        0 <= i <= s.len(),
        forall|j: int| 0 <= j < i ==> !whitespace(s[j]),
        i < s.len() ==> whitespace(s[i]),
    ensures
        word_len(s) == i,
    decreases s.len(),
{
    if i > 0 {
        assert(!whitespace(s[0]));
        let t = s.skip(1);
        assert forall|j: int| 0 <= j < i - 1 implies !whitespace(t[j]) by {
            assert(t[j] == s[j + 1]);
        }
        lemma_word_len_at(t, i - 1);
    }
}

/// The words of `s`: its longest runs of characters that are not white space.
pub open spec fn words_of(s: Seq<char>) -> Seq<Seq<char>>
    decreases s.len(),
{
    if s.len() == 0 {
        Seq::empty()
    } else if whitespace(s[0]) {
        words_of(s.skip(1))
    } else {
        let i = word_len(s);
        if 0 < i <= s.len() {
            seq![s.take(i)] + words_of(s.skip(i))
        } else {
            Seq::empty()
        }
    }
}

/// The words of `s`.
pub fn split_whitespace<'a>(s: &'a str) -> (r: Vec<&'a str>)
    ensures
        slices(r@) == words_of(s@),
{
    let v = chars_of(s);
    let n: usize = v.len();
    let mut out: Vec<&'a str> = Vec::new();
    let mut a: usize = 0;
    proof {
        assert(s@.skip(0) =~= s@);
        assert(slices(out@) + words_of(s@) =~= words_of(s@));
    }
    while a < n
        invariant
            a <= n == v@.len(),
            v@ == s@,
            slices(out@) + words_of(s@.skip(a as int)) == words_of(s@),
        decreases n - a,
    {
        let ghost rest = s@.skip(a as int);
        if is_whitespace(v[a]) {
            proof {
                assert(rest.skip(1) =~= s@.skip(a + 1));
            }
            a += 1;
        } else {
            let mut b: usize = a;
            while b < n && !is_whitespace(v[b])
                invariant
                    a <= b <= n == v@.len(),
                    forall|j: int| a <= j < b ==> !whitespace(v@[j]),
                decreases n - b,
            {
                b += 1;
            }
            let word = s.substring_char(a, b);
            let ghost before = out@;
            out.push(word);
            proof {
                lemma_word_len_at(rest, b - a);
                assert(word@ =~= rest.take(b - a));
                assert(rest.skip(b - a) =~= s@.skip(b as int));
                assert(slices(out@) =~= slices(before).push(word@));
                assert(slices(out@) + words_of(s@.skip(b as int)) =~= slices(before) + words_of(
                    rest,
                ));
            }
            a = b;
        }
    }
    assert(slices(out@) + words_of(s@.skip(a as int)) =~= slices(out@));
    out
}

// ── square brackets ─────────────────────────────────────────────────────────

/// Whether `c` is a square bracket.
pub open spec fn bracket(c: char) -> bool {
    c == '[' || c == ']'
}

/// `s` without the square brackets it begins with.
pub open spec fn unbracket_start(s: Seq<char>) -> Seq<char>
    decreases s.len(),
{
    if s.len() > 0 && bracket(s[0]) {
        unbracket_start(s.skip(1))
    } else {
        s
    }
}

/// `s` without the square brackets it ends with.
pub open spec fn unbracket_end(s: Seq<char>) -> Seq<char>
    decreases s.len(),
{
    if s.len() > 0 && bracket(s.last()) {
        unbracket_end(s.drop_last())
    } else {
        s
    }
}

proof fn lemma_unbracket_start_at(s: Seq<char>, i: int)
    requires
        0 <= i <= s.len(),
        forall|j: int| 0 <= j < i ==> bracket(s[j]),
        i < s.len() ==> !bracket(s[i]),
    ensures
        unbracket_start(s) == s.skip(i),
    decreases i,
{
    if i > 0 {
        assert(bracket(s[0]));
        let t = s.skip(1);
        assert forall|j: int| 0 <= j < i - 1 implies bracket(t[j]) by {
            assert(t[j] == s[j + 1]);
        }
        lemma_unbracket_start_at(t, i - 1);
        assert(t.skip(i - 1) =~= s.skip(i));
    } else {
        assert(s.skip(0) =~= s);
    }
}

proof fn lemma_unbracket_end_at(s: Seq<char>, i: int)
    requires
        0 <= i <= s.len(),
        forall|j: int| i <= j < s.len() ==> bracket(s[j]),
        i > 0 ==> !bracket(s[i - 1]),
    ensures
        unbracket_end(s) == s.take(i),
    decreases s.len() - i,
{
    if i < s.len() {
        assert(bracket(s.last()));
        let t = s.drop_last();
        lemma_unbracket_end_at(t, i);
        assert(t.take(i) =~= s.take(i));
    } else {
        assert(s.take(i) =~= s);
    }
}

/// `s` without the square brackets around it.
pub fn trim_brackets<'a>(s: &'a str) -> (r: &'a str)
    ensures
        r@ == unbracket_end(unbracket_start(s@)),
{
    let v = chars_of(s);
    let mut a: usize = 0;
    while a < v.len() && (v[a] == '[' || v[a] == ']')
        invariant
            a <= v@.len(),
            v@ == s@,
            forall|j: int| 0 <= j < a ==> bracket(v@[j]),
        decreases v@.len() - a,
    {
        a += 1;
    }
    let mut b: usize = v.len();
    while b > a && (v[b - 1] == '[' || v[b - 1] == ']')
        invariant
            a <= b <= v@.len(),
            v@ == s@,
            forall|j: int| b <= j < v@.len() ==> bracket(v@[j]),
        decreases b,
    {
        b -= 1;
    }
    proof {
        lemma_unbracket_start_at(s@, a as int);
        let t = s@.skip(a as int);
        assert forall|j: int| b - a <= j < t.len() implies bracket(t[j]) by {
            assert(t[j] == s@[j + a]);
        }
        lemma_unbracket_end_at(t, b - a);
        assert(t.take(b - a) =~= s@.subrange(a as int, b as int));
    }
    s.substring_char(a, b)
}

// ── letters ─────────────────────────────────────────────────────────────────

/// The lower-case form of an ASCII letter; any other character unchanged.
pub open spec fn ascii_lower(c: char) -> char {
    if 'A' <= c <= 'Z' {
        ((c as int) + 32) as char
    } else {
        c
    }
}

/// What `str::to_lowercase` gives for a text that is not all ASCII.
pub uninterp spec fn unicode_lowercase(s: Seq<char>) -> Seq<char>;

/// The lower-case form of a text.
pub open spec fn lowercase(s: Seq<char>) -> Seq<char> {
    if vstd::utf8::is_ascii_chars(s) {
        s.map_values(|c: char| ascii_lower(c))
    } else {
        unicode_lowercase(s)
    }
}

/// Calls `str::to_lowercase`. An ASCII text is lowered letter by letter; for any other the result
/// is named, because it follows the Unicode case tables.
#[verifier::external_body]
pub(crate) fn to_lowercase(s: &str) -> (r: String)
    ensures
        vstd::utf8::is_ascii_chars(s@) ==> r@ == s@.map_values(|c: char| ascii_lower(c)),
        !vstd::utf8::is_ascii_chars(s@) ==> r@ == unicode_lowercase(s@),
{
    s.to_lowercase()
}

/// What the `Debug` form of a string is: its text in double quotes, with escapes.
pub uninterp spec fn debug_quoted(s: Seq<char>) -> Seq<char>;

/// Formats a string with `{:?}`. Which characters are escaped follows the Unicode tables, so the
/// result is named.
#[verifier::external_body]
pub(crate) fn quoted(s: &str) -> (r: String)
    ensures
        r@ == debug_quoted(s@),
{
    format!("{:?}", s)
}

// ── numbers ─────────────────────────────────────────────────────────────────

/// The decimal digit for `d`.
pub open spec fn digit(d: nat) -> char {
    (('0' as nat) + d) as char
}

/// The decimal form of `n`, without leading zeros.
pub open spec fn decimal(n: nat) -> Seq<char>
    decreases n,
{
    if n < 10 {
        seq![digit(n)]
    } else {
        decimal(n / 10).push(digit(n % 10))
    }
}

/// Whether `c` is a decimal digit.
pub open spec fn is_digit(c: char) -> bool {
    '0' <= c <= '9'
}

/// The number that a row of decimal digits stands for; `None` where another character occurs.
pub open spec fn digits_value(s: Seq<char>) -> Option<nat>
    decreases s.len(),
{
    if s.len() == 0 {
        Some(0)
    } else if !is_digit(s.last()) {
        None
    } else {
        match digits_value(s.drop_last()) {
            Some(n) => Some(10 * n + ((s.last() as nat) - ('0' as nat)) as nat),
            None => None,
        }
    }
}

/// The number that `s` stands for: an optional plus sign and at least one decimal digit, and a
/// value of at most `max`.
pub open spec fn unsigned_value(s: Seq<char>, max: nat) -> Option<nat> {
    let d = if s.len() > 0 && s[0] == '+' {
        s.skip(1)
    } else {
        s
    };
    if d.len() == 0 {
        None
    } else {
        match digits_value(d) {
            Some(n) => if n <= max {
                Some(n)
            } else {
                None
            },
            None => None,
        }
    }
}

/// More digits never make a number smaller.
proof fn lemma_digits_grow(s: Seq<char>, i: int)
    requires
        0 <= i <= s.len(),
    ensures
        digits_value(s.take(i)) is None ==> digits_value(s) is None,
        (digits_value(s.take(i)) is Some && digits_value(s) is Some) ==> digits_value(s.take(i))->0
            <= digits_value(s)->0,
    decreases s.len() - i,
{
    if i < s.len() {
        let t = s.drop_last();
        assert(t.take(i) =~= s.take(i));
        lemma_digits_grow(t, i);
    } else {
        assert(s.take(i) =~= s);
    }
}

/// Reads an unsigned number of at most `max`.
pub fn parse_unsigned(s: &str, max: u64) -> (r: Option<u64>)
    ensures
        match r {
            Some(n) => unsigned_value(s@, max as nat) == Some(n as nat),
            None => unsigned_value(s@, max as nat) is None,
        },
{
    let v = chars_of(s);
    let n: usize = v.len();
    let start: usize = if n > 0 && v[0] == '+' {
        1
    } else {
        0
    };
    let ghost d = s@.skip(start as int);
    assert(start == 0 ==> d =~= s@);
    if start == n {
        return None;
    }
    let mut acc: u64 = 0;
    let mut i: usize = start;
    while i < n
        invariant
            start <= i <= n == v@.len(),
            start <= 1,
            v@ == s@,
            d == s@.skip(start as int),
            d.len() > 0,
            d == (if s@.len() > 0 && s@[0] == '+' {
                s@.skip(1)
            } else {
                s@
            }),
            acc <= max,
            digits_value(d.take(i - start)) == Some(acc as nat),
        decreases n - i,
    {
        let c: char = v[i];
        let ghost t = d.take(i + 1 - start);
        proof {
            assert(t.drop_last() =~= d.take(i - start));
            assert(t.last() == c);
            lemma_digits_grow(d, i + 1 - start);
        }
        if c < '0' || c > '9' {
            return None;
        }
        let x: u64 = (c as u32 - '0' as u32) as u64;
        if acc > max / 10 || x > max - 10 * acc {
            return None;
        }
        acc = 10 * acc + x;
        i += 1;
    }
    assert(d.take(i - start) =~= d);
    Some(acc)
}

/// Reads a number that fits 16 bits.
pub fn parse_u16(s: &str) -> (r: Option<u16>)
    ensures
        match r {
            Some(n) => unsigned_value(s@, u16::MAX as nat) == Some(n as nat),
            None => unsigned_value(s@, u16::MAX as nat) is None,
        },
{
    match parse_unsigned(s, 65535) {
        Some(n) => Some(n as u16),
        None => None,
    }
}

/// The decimal form of `n`.
pub fn decimal_text(n: u64) -> (r: String)
    ensures
        r@ == decimal(n as nat),
    decreases n,
{
    let low: u8 = (n % 10) as u8;
    let c: char = (48u8 + low) as char;
    assert(c == digit((n % 10) as nat));
    let mut out = if n < 10 {
        String::new()
    } else {
        decimal_text(n / 10)
    };
    out.push(c);
    proof {
        if n < 10 {
            assert(out@ =~= decimal(n as nat));
        }
    }
    out
}

/// A decimal form has at least one character, all of them digits, and is read back as the number
/// it was made from.
pub proof fn lemma_decimal(n: nat)
    ensures
        decimal(n).len() > 0,
        forall|i: int| 0 <= i < decimal(n).len() ==> is_digit(#[trigger] decimal(n)[i]),
        digits_value(decimal(n)) == Some(n),
    decreases n,
{
    if n < 10 {
        let s = seq![digit(n)];
        assert(s.drop_last() =~= Seq::empty());
        assert(digits_value(s.drop_last()) == Some(0nat));
        assert(s.last() == digit(n));
    } else {
        lemma_decimal(n / 10);
        let s = decimal(n);
        assert(s.drop_last() =~= decimal(n / 10));
        assert(s.last() == digit(n % 10));
    }
}

/// A number within the bound is read back from its decimal form.
pub proof fn lemma_decimal_unsigned(n: nat, max: nat)
    requires
        n <= max,
    ensures
        unsigned_value(decimal(n), max) == Some(n),
{
    lemma_decimal(n);
    assert(is_digit(decimal(n)[0]));
}

// ── rows ────────────────────────────────────────────────────────────────────

/// The text of a row of lines, each with a line feed behind it.
pub open spec fn flat(rows: Seq<Seq<char>>) -> Seq<char>
    decreases rows.len(),
{
    if rows.len() == 0 {
        Seq::empty()
    } else {
        flat(rows.drop_last()) + rows.last() + "\n"@
    }
}

/// The text of two rows of lines is the one text behind the other.
pub proof fn lemma_flat_add(a: Seq<Seq<char>>, b: Seq<Seq<char>>)
    ensures
        flat(a + b) == flat(a) + flat(b),
    decreases b.len(),
{
    if b.len() == 0 {
        assert(a + b =~= a);
        assert(flat(a) + flat(b) =~= flat(a));
    } else {
        lemma_flat_add(a, b.drop_last());
        assert((a + b).drop_last() =~= a + b.drop_last());
        assert(flat(a + b) =~= flat(a) + flat(b));
    }
}

/// One line at the front of a text.
pub proof fn lemma_lines_front(line: Seq<char>, rest: Seq<char>)
    requires
        !line.contains('\n'),
    ensures
        lines_of(line + "\n"@ + rest) == seq![without_cr(line)] + lines_of(rest),
{
    reveal_strlit("\n");
    let s = line + "\n"@ + rest;
    let n = line.len() as int;
    assert(s[n] == '\n');
    assert forall|j: int| 0 <= j < n implies s[j] != '\n' by {
        assert(s[j] == line[j]);
    }
    lemma_find_at(s, '\n', n);
    assert(s.take(n) =~= line);
    assert(s.skip(n + 1) =~= rest);
}

/// Lines without line feeds, and not ended by a carriage return, come back from their text.
pub proof fn lemma_lines_flat(rows: Seq<Seq<char>>)
    requires
        forall|i: int|
            0 <= i < rows.len() ==> !(#[trigger] rows[i]).contains('\n') && without_cr(rows[i])
                == rows[i],
    ensures
        lines_of(flat(rows)) == rows,
    decreases rows.len(),
{
    if rows.len() > 0 {
        let first = seq![rows[0]];
        let rest = rows.skip(1);
        assert(rows =~= first + rest);
        lemma_flat_add(first, rest);
        assert(first.drop_last() =~= Seq::<Seq<char>>::empty());
        assert(flat(first.drop_last()) =~= Seq::<char>::empty());
        assert(flat(first) =~= rows[0] + "\n"@);
        assert forall|i: int| 0 <= i < rest.len() implies !(#[trigger] rest[i]).contains('\n')
            && without_cr(rest[i]) == rest[i] by {
            assert(rest[i] == rows[i + 1]);
        }
        lemma_lines_flat(rest);
        lemma_lines_front(rows[0], flat(rest));
    } else {
        assert(flat(rows) =~= Seq::<char>::empty());
        assert(rows =~= Seq::<Seq<char>>::empty());
    }
}

/// The lines of a text hold no line feed.
pub proof fn lemma_lines_lack(s: Seq<char>)
    ensures
        forall|i: int|
            0 <= i < lines_of(s).len() ==> !(#[trigger] lines_of(
                s,
            )[i]).contains('\n'),
    decreases s.len(),
{
    if s.len() > 0 {
        let k = find(s, '\n');
        lemma_find(s, '\n');
        let rows = lines_of(s);
        if k < s.len() {
            let rest = lines_of(s.skip(k + 1));
            lemma_lines_lack(s.skip(k + 1));
            assert forall|i: int| 0 <= i < rows.len() implies !(#[trigger] rows[i]).contains(
                '\n',
            ) by {
                if i > 0 {
                    assert(rows[i] == rest[i - 1]);
                }
            }
        }
    }
}

/// Appends one line and its line feed.
pub(crate) fn push_line(out: &mut String, line: &str, Ghost(rows): Ghost<Seq<Seq<char>>>)
    requires
        old(out)@ == flat(rows),
    ensures
        final(out)@ == flat(rows.push(line@)),
{
    out.push_str(line);
    out.push_str("\n");
    assert(rows.push(line@).drop_last() =~= rows);
}

/// The text of a row of lines, each with a line feed behind it.
pub fn text_of_lines(rows: &Vec<&str>) -> (r: String)
    ensures
        r@ == flat(slices(rows@)),
{
    let mut out = String::new();
    let ghost rv = slices(rows@);
    let mut i: usize = 0;
    assert(out@ =~= flat(rv.take(0)));
    while i < rows.len()
        invariant
            i <= rows@.len(),
            rv == slices(rows@),
            out@ == flat(rv.take(i as int)),
        decreases rows@.len() - i,
    {
        push_line(&mut out, rows[i], Ghost(rv.take(i as int)));
        assert(rv.take(i as int).push(rows@[i as int]@) =~= rv.take(i + 1));
        i += 1;
    }
    assert(rv.take(i as int) =~= rv);
    out
}

/// What splitting does to a text behind a separator.
pub proof fn lemma_split_add(a: Seq<char>, b: Seq<char>, c: char)
    ensures
        split_at_each(a + seq![c] + b, c) == split_at_each(a, c) + split_at_each(b, c),
    decreases a.len(),
{
    let s = a + seq![c] + b;
    lemma_find(a, c);
    let i = find(a, c);
    if i < a.len() {
        assert(s[i] == c);
        assert forall|j: int| 0 <= j < i implies s[j] != c by {
            assert(s[j] == a[j]);
        }
        lemma_find_at(s, c, i);
        let rest = a.skip(i + 1);
        lemma_split_add(rest, b, c);
        assert(s.take(i) =~= a.take(i));
        assert(s.skip(i + 1) =~= rest + seq![c] + b);
        assert(split_at_each(s, c) =~= split_at_each(a, c) + split_at_each(b, c));
    } else {
        let n = a.len() as int;
        assert(s[n] == c);
        assert forall|j: int| 0 <= j < n implies s[j] != c by {
            assert(s[j] == a[j]);
        }
        lemma_find_at(s, c, n);
        assert(s.take(n) =~= a);
        assert(s.skip(n + 1) =~= b);
    }
}

/// A text without the separator is its own only part.
pub proof fn lemma_split_whole(s: Seq<char>, c: char)
    requires
        !s.contains(c),
    ensures
        split_at_each(s, c) == seq![s],
{
    lemma_find(s, c);
}

/// Two texts one behind the other.
pub fn text2(a: &str, b: &str) -> (r: String)
    ensures
        r@ == a@ + b@,
{
    let mut out = a.to_owned();
    out.push_str(b);
    out
}

/// Three texts one behind the other.
pub fn text3(a: &str, b: &str, c: &str) -> (r: String)
    ensures
        r@ == a@ + b@ + c@,
{
    let mut out = text2(a, b);
    out.push_str(c);
    out
}

/// Four texts one behind the other.
pub fn text4(a: &str, b: &str, c: &str, d: &str) -> (r: String)
    ensures
        r@ == a@ + b@ + c@ + d@,
{
    let mut out = text3(a, b, c);
    out.push_str(d);
    out
}

} // verus!
