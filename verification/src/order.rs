//! The order of texts, and sorting by it.

use crate::text::chars_of;
use vstd::prelude::*;

verus! {

/// Whether `a` stands before `b` in dictionary order by character codes.
pub open spec fn precedes(a: Seq<char>, b: Seq<char>) -> bool
    decreases a.len(),
{
    if b.len() == 0 {
        false
    } else if a.len() == 0 {
        true
    } else {
        a[0] < b[0] || (a[0] == b[0] && precedes(a.skip(1), b.skip(1)))
    }
}

/// Whether `a` stands before `b` in dictionary order by character codes.
pub fn text_before(a: &str, b: &str) -> (r: bool)
    ensures
        r == precedes(a@, b@),
{
    let x = chars_of(a);
    let y = chars_of(b);
    let mut i: usize = 0;
    assert(a@.skip(0) =~= a@ && b@.skip(0) =~= b@);
    while i < x.len() && i < y.len()
        invariant
            x@ == a@,
            y@ == b@,
            i <= x@.len(),
            i <= y@.len(),
            precedes(a@, b@) == precedes(a@.skip(i as int), b@.skip(i as int)),
        decreases x@.len() - i,
    {
        assert(a@.skip(i as int).skip(1) =~= a@.skip(i as int + 1));
        assert(b@.skip(i as int).skip(1) =~= b@.skip(i as int + 1));
        if x[i] < y[i] {
            return true;
        }
        if y[i] < x[i] {
            return false;
        }
        i += 1;
    }
    i < y.len()
}

/// No text stands before itself.
pub proof fn lemma_precedes_irreflexive(a: Seq<char>)
    ensures
        !precedes(a, a),
    decreases a.len(),
{
    if a.len() > 0 {
        lemma_precedes_irreflexive(a.skip(1));
    }
}

/// The order is transitive.
pub proof fn lemma_precedes_transitive(a: Seq<char>, b: Seq<char>, c: Seq<char>)
    requires
        precedes(a, b),
        precedes(b, c),
    ensures
        precedes(a, c),
    decreases a.len(),
{
    if a.len() > 0 && a[0] == b[0] && b[0] == c[0] {
        lemma_precedes_transitive(a.skip(1), b.skip(1), c.skip(1));
    }
}

/// Of two different texts one stands before the other.
pub proof fn lemma_precedes_total(a: Seq<char>, b: Seq<char>)
    ensures
        precedes(a, b) || precedes(b, a) || a == b,
    decreases a.len(),
{
    if a.len() > 0 && b.len() > 0 && a[0] == b[0] {
        lemma_precedes_total(a.skip(1), b.skip(1));
        if a.skip(1) == b.skip(1) {
            assert(a.len() == a.skip(1).len() + 1 && b.len() == b.skip(1).len() + 1);
            assert forall|i: int| 0 <= i < a.len() implies a[i] == b[i] by {
                if i > 0 {
                    assert(a[i] == a.skip(1)[i - 1]);
                    assert(b[i] == b.skip(1)[i - 1]);
                }
            }
            assert(a =~= b);
        }
    } else if a.len() == 0 && b.len() == 0 {
        assert(a =~= b);
    }
}

// ── stable sorting ──────────────────────────────────────────────────────────

/// Whether a relation says of any two items which one stands before the other, as far as it
/// tells them apart: it is irreflexive, transitive, and so is the relation of standing nowhere
/// before.
pub open spec fn is_order<T>(before: spec_fn(T, T) -> bool) -> bool {
    &&& forall|x: T| !#[trigger] before(x, x)
    &&& forall|x: T, y: T, z: T| #[trigger]
        before(x, y) && #[trigger] before(y, z) ==> before(x, z)
    &&& forall|x: T, y: T, z: T|
        !#[trigger] before(x, y) && !#[trigger] before(y, z) ==> !before(x, z)
}

/// Whether no item stands before one to its left.
pub open spec fn is_sorted<T>(s: Seq<T>, before: spec_fn(T, T) -> bool) -> bool {
    forall|i: int, j: int| 0 <= i < j < s.len() ==> !before(#[trigger] s[j], #[trigger] s[i])
}

/// The number of items at the front of `s` that `x` does not stand before.
pub open spec fn place<T>(s: Seq<T>, x: T, before: spec_fn(T, T) -> bool) -> nat
    decreases s.len(),
{
    if s.len() == 0 || before(x, s[0]) {
        0
    } else {
        1 + place(s.skip(1), x, before)
    }
}

/// `s` with `x` put in front of the first item that it stands before.
pub open spec fn put<T>(s: Seq<T>, x: T, before: spec_fn(T, T) -> bool) -> Seq<T> {
    s.insert(place(s, x, before) as int, x)
}

/// The items of `s` in order, each put in behind the items that stood to its left and that it
/// does not stand before.
pub open spec fn arranged<T>(s: Seq<T>, before: spec_fn(T, T) -> bool) -> Seq<T>
    decreases s.len(),
{
    if s.len() == 0 {
        s
    } else {
        put(arranged(s.drop_last(), before), s.last(), before)
    }
}

/// `place` is the first index of an item that `x` stands before, or the length.
pub proof fn lemma_place<T>(s: Seq<T>, x: T, before: spec_fn(T, T) -> bool)
    ensures
        place(s, x, before) <= s.len(),
        forall|i: int| 0 <= i < place(s, x, before) ==> !before(x, #[trigger] s[i]),
        place(s, x, before) < s.len() ==> before(x, s[place(s, x, before) as int]),
    decreases s.len(),
{
    if s.len() > 0 && !before(x, s[0]) {
        let t = s.skip(1);
        lemma_place(t, x, before);
        let n = place(s, x, before);
        assert forall|i: int| 0 <= i < n implies !before(x, #[trigger] s[i]) by {
            if i > 0 {
                assert(s[i] == t[i - 1]);
            }
        }
        if n < s.len() {
            assert(s[n as int] == t[n - 1]);
        }
    }
}

/// An index with those properties is `place`.
pub proof fn lemma_place_is<T>(s: Seq<T>, x: T, before: spec_fn(T, T) -> bool, n: nat)
    requires
        n <= s.len(),
        forall|i: int| 0 <= i < n ==> !before(x, #[trigger] s[i]),
        n < s.len() ==> before(x, s[n as int]),
    ensures
        place(s, x, before) == n,
{
    lemma_place(s, x, before);
    let p = place(s, x, before);
    if p < n {
        assert(before(x, s[p as int]));
    } else if n < p {
        assert(!before(x, s[n as int]));
    }
}

/// Sorting leaves the items in order.
pub proof fn law_arranged_is_sorted<T>(s: Seq<T>, before: spec_fn(T, T) -> bool)
    requires
        is_order(before),
    ensures
        is_sorted(arranged(s, before), before),
        arranged(s, before).len() == s.len(),
    decreases s.len(),
{
    if s.len() > 0 {
        let a = arranged(s.drop_last(), before);
        let x = s.last();
        law_arranged_is_sorted(s.drop_last(), before);
        lemma_place(a, x, before);
        let p = place(a, x, before) as int;
        let r = put(a, x, before);
        assert forall|i: int, j: int| 0 <= i < j < r.len() implies !before(
            #[trigger] r[j],
            #[trigger] r[i],
        ) by {
            if i == p {
                // The item was put in front of one that it stands before.
                assert(r[j] == a[j - 1]);
                assert(before(x, a[p]));
                if before(a[j - 1], x) {
                    assert(before(a[j - 1], a[p]));
                    if j - 1 > p {
                        assert(!before(a[j - 1], a[p]));
                    }
                }
            } else if j == p {
                assert(r[i] == a[i]);
            } else {
                let i0 = if i < p { i } else { i - 1 };
                let j0 = if j < p { j } else { j - 1 };
                assert(r[i] == a[i0] && r[j] == a[j0]);
            }
        }
    }
}

/// Sorting keeps every item, as often as it occurred.
pub proof fn law_arranged_keeps_items<T>(s: Seq<T>, before: spec_fn(T, T) -> bool)
    ensures
        arranged(s, before).to_multiset() =~= s.to_multiset(),
    decreases s.len(),
{
    broadcast use vstd::seq_lib::group_to_multiset_ensures;

    if s.len() > 0 {
        let a = arranged(s.drop_last(), before);
        let x = s.last();
        law_arranged_keeps_items(s.drop_last(), before);
        lemma_place(a, x, before);
        vstd::seq_lib::to_multiset_insert(a, place(a, x, before) as int, x);
        assert(s =~= s.drop_last().push(x));
    }
}

/// Whether an item has its place in common with `x`: neither stands before the other.
pub open spec fn level<T>(x: T, before: spec_fn(T, T) -> bool) -> spec_fn(T) -> bool {
    |y: T| !before(x, y) && !before(y, x)
}

/// Sorting leaves items that the order does not tell apart as they stood to each other.
pub proof fn law_arranged_is_stable<T>(s: Seq<T>, before: spec_fn(T, T) -> bool, x: T)
    requires
        is_order(before),
    ensures
        arranged(s, before).filter(level(x, before)) == s.filter(level(x, before)),
    decreases s.len(),
{
    if s.len() > 0 {
        let a = arranged(s.drop_last(), before);
        let y = s.last();
        law_arranged_is_stable(s.drop_last(), before, x);
        law_arranged_is_sorted(s.drop_last(), before);
        lemma_place(a, y, before);
        let p = place(a, y, before) as int;
        let f = level(x, before);
        let front = a.subrange(0, p);
        let back = a.subrange(p, a.len() as int);
        assert(a =~= front + back);
        assert(put(a, y, before) =~= front.push(y) + back);
        Seq::filter_distributes_over_add(front.push(y), back, f);
        Seq::filter_distributes_over_add(front, back, f);
        assert(front.push(y) =~= front + seq![y]);
        Seq::filter_distributes_over_add(front, seq![y], f);
        assert(s =~= s.drop_last() + seq![y]);
        Seq::filter_distributes_over_add(s.drop_last(), seq![y], f);
        reveal(Seq::filter);
        if f(y) {
            // Nothing behind the place of `y` is level with it.
            assert forall|i: int| 0 <= i < back.len() implies !f(#[trigger] back[i]) by {
                assert(back[i] == a[p + i]);
                assert(before(y, a[p]));
                if i > 0 {
                    assert(!before(a[p + i], a[p]));
                }
                if !before(y, a[p + i]) {
                    assert(!before(y, a[p]));
                }
            }
            lemma_filter_none(back, f);
        } else {
            assert(seq![y].filter(f) =~= Seq::empty()) by {
                lemma_filter_none(seq![y], f);
            }
        }
        assert(arranged(s, before).filter(f) =~= s.filter(f));
    }
}

/// Filtering by what holds of no item leaves nothing.
proof fn lemma_filter_none<T>(s: Seq<T>, f: spec_fn(T) -> bool)
    requires
        forall|i: int| 0 <= i < s.len() ==> !f(#[trigger] s[i]),
    ensures
        s.filter(f) == Seq::<T>::empty(),
    decreases s.len(),
{
    reveal(Seq::filter);
    if s.len() > 0 {
        let t = s.drop_last();
        assert forall|i: int| 0 <= i < t.len() implies !f(#[trigger] t[i]) by {
            assert(t[i] == s[i]);
        }
        lemma_filter_none(t, f);
    }
}

/// The order of texts is one.
pub proof fn lemma_text_order()
    ensures
        is_order(|a: Seq<char>, b: Seq<char>| precedes(a, b)),
        is_order(|a: Seq<char>, b: Seq<char>| precedes(b, a)),
{
    assert forall|x: Seq<char>| !#[trigger] precedes(x, x) by {
        lemma_precedes_irreflexive(x);
    }
    assert forall|x: Seq<char>, y: Seq<char>, z: Seq<char>| #[trigger]
        precedes(x, y) && #[trigger] precedes(y, z) implies precedes(x, z) by {
        lemma_precedes_transitive(x, y, z);
    }
    assert forall|x: Seq<char>, y: Seq<char>, z: Seq<char>|
        !#[trigger] precedes(x, y) && !#[trigger] precedes(y, z) implies !precedes(x, z) by {
        lemma_precedes_total(x, y);
        lemma_precedes_total(y, z);
        if precedes(x, z) {
            if precedes(y, x) && precedes(z, y) {
                lemma_precedes_transitive(z, y, x);
                lemma_precedes_transitive(x, z, x);
                lemma_precedes_irreflexive(x);
            }
        }
    }
}

/// The texts in dictionary order.
pub open spec fn sorted_texts(s: Seq<Seq<char>>) -> Seq<Seq<char>> {
    arranged(s, |a: Seq<char>, b: Seq<char>| precedes(a, b))
}

/// Which texts there are decides how they are sorted, not the order that they came in.
pub proof fn law_sorting_forgets_the_order(a: Seq<Seq<char>>, b: Seq<Seq<char>>)
    requires
        a.to_multiset() == b.to_multiset(),
    ensures
        sorted_texts(a) == sorted_texts(b),
{
    let before = |x: Seq<char>, y: Seq<char>| precedes(x, y);
    let upto = |x: Seq<char>, y: Seq<char>| !precedes(y, x);
    lemma_text_order();
    law_arranged_is_sorted(a, before);
    law_arranged_is_sorted(b, before);
    law_arranged_keeps_items(a, before);
    law_arranged_keeps_items(b, before);
    assert(vstd::relations::total_ordering(upto)) by {
        assert forall|x: Seq<char>, y: Seq<char>| !precedes(y, x) && !precedes(x, y) implies x
            == y by {
            lemma_precedes_total(x, y);
        }
        assert forall|x: Seq<char>, y: Seq<char>, z: Seq<char>|
            !precedes(y, x) && !precedes(z, y) implies !precedes(z, x) by {
            assert(!before(z, y) && !before(y, x));
            assert(!before(z, x));
        }
        assert forall|x: Seq<char>, y: Seq<char>| !precedes(y, x) || !precedes(x, y) by {
            if precedes(y, x) && precedes(x, y) {
                lemma_precedes_transitive(x, y, x);
                lemma_precedes_irreflexive(x);
            }
        }
        assert forall|x: Seq<char>| !precedes(x, x) by {
            lemma_precedes_irreflexive(x);
        }
    }
    assert(vstd::relations::sorted_by(sorted_texts(a), upto)) by {
        let s = sorted_texts(a);
        assert forall|i: int, j: int| 0 <= i < j < s.len() implies #[trigger] upto(s[i], s[j]) by {
            assert(!before(s[j], s[i]));
        }
    }
    assert(vstd::relations::sorted_by(sorted_texts(b), upto)) by {
        let s = sorted_texts(b);
        assert forall|i: int, j: int| 0 <= i < j < s.len() implies #[trigger] upto(s[i], s[j]) by {
            assert(!before(s[j], s[i]));
        }
    }
    vstd::seq_lib::lemma_sorted_unique(sorted_texts(a), sorted_texts(b), upto);
}

/// Sorts texts in dictionary order.
pub fn sort_texts(texts: Vec<String>) -> (r: Vec<String>)
    ensures
        crate::text::views(r@) == sorted_texts(crate::text::views(texts@)),
{
    let ghost before = |a: Seq<char>, b: Seq<char>| precedes(a, b);
    let ghost tv = crate::text::views(texts@);
    let mut out: Vec<String> = Vec::new();
    let mut i: usize = 0;
    assert(crate::text::views(out@) =~= tv.take(0));
    while i < texts.len()
        invariant
            i <= texts@.len(),
            tv == crate::text::views(texts@),
            before == (|a: Seq<char>, b: Seq<char>| precedes(a, b)),
            crate::text::views(out@) == arranged(tv.take(i as int), before),
        decreases texts@.len() - i,
    {
        let ghost ov = crate::text::views(out@);
        let text = texts[i].clone();
        let mut p: usize = 0;
        while p < out.len() && !text_before(text.as_str(), out[p].as_str())
            invariant
                p <= out@.len(),
                ov == crate::text::views(out@),
                before == (|a: Seq<char>, b: Seq<char>| precedes(a, b)),
                forall|j: int| 0 <= j < p ==> !before(text@, #[trigger] ov[j]),
            decreases out@.len() - p,
        {
            assert(ov[p as int] == out@[p as int]@);
            p += 1;
        }
        proof {
            if p < out@.len() {
                assert(ov[p as int] == out@[p as int]@);
            }
            lemma_place_is(ov, text@, before, p as nat);
            assert(tv.take(i as int + 1).drop_last() =~= tv.take(i as int));
        }
        out.insert(p, text);
        assert(crate::text::views(out@) =~= ov.insert(p as int, text@));
        i += 1;
    }
    assert(tv.take(i as int) =~= tv);
    out
}

} // verus!
