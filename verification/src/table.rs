//! A table of values by name.

use crate::text::same;
use vstd::prelude::*;

verus! {

/// Values by name, each name at most once.
#[derive(Debug)]
pub struct Table<V> {
    entries: Vec<(String, V)>,
}

/// Whether no name occurs twice.
spec fn distinct<V>(e: Seq<(String, V)>) -> bool {
    forall|i: int, j: int| 0 <= i < j < e.len() ==> #[trigger] e[i].0@ != #[trigger] e[j].0@
}

/// Whether entry `i` has the name `k`.
spec fn named_at<V>(e: Seq<(String, V)>, k: Seq<char>, i: int) -> bool {
    0 <= i < e.len() && e[i].0@ == k
}

/// The values of some entries by their names.
spec fn as_map<V>(e: Seq<(String, V)>) -> Map<Seq<char>, V> {
    Map::new(
        |k: Seq<char>| exists|i: int| named_at(e, k, i),
        |k: Seq<char>| e[choose|i: int| named_at(e, k, i)].1,
    )
}

/// An entry's value is the value of its name.
proof fn lemma_entry<V>(e: Seq<(String, V)>, i: int)
    requires
        distinct(e),
        0 <= i < e.len(),
    ensures
        as_map(e).dom().contains(e[i].0@),
        as_map(e)[e[i].0@] == e[i].1,
{
    let k = e[i].0@;
    assert(named_at(e, k, i));
    let j = choose|j: int| named_at(e, k, j);
    assert(j == i) by {
        if j < i {
            assert(e[j].0@ != e[i].0@);
        } else if i < j {
            assert(e[i].0@ != e[j].0@);
        }
    }
}

/// A name that no entry has is not in the map.
proof fn lemma_absent<V>(e: Seq<(String, V)>, k: Seq<char>)
    requires
        forall|i: int| 0 <= i < e.len() ==> (#[trigger] e[i]).0@ != k,
    ensures
        !as_map(e).dom().contains(k),
{
    if exists|i: int| named_at(e, k, i) {
        let i = choose|i: int| named_at(e, k, i);
        assert(e[i].0@ == k);
    }
}

impl<V> View for Table<V> {
    type V = Map<Seq<char>, V>;

    closed spec fn view(&self) -> Map<Seq<char>, V> {
        as_map(self.entries@)
    }
}

impl<V> Table<V> {
    #[verifier::type_invariant]
    spec fn well_formed(self) -> bool {
        distinct(self.entries@)
    }

    /// A table with nothing in it.
    pub fn new() -> (r: Self)
        ensures
            r@ == Map::<Seq<char>, V>::empty(),
    {
        let r = Table { entries: Vec::new() };
        assert(r@ =~= Map::<Seq<char>, V>::empty());
        r
    }

    /// How many names there are.
    pub fn len(&self) -> (n: usize)
        ensures
            n == self@.dom().len(),
            self@.dom().finite(),
    {
        proof {
            use_type_invariant(self);
            lemma_size(self.entries@);
        }
        self.entries.len()
    }

    /// Whether there is nothing in the table.
    pub fn is_empty(&self) -> (r: bool)
        ensures
            r == (self@ == Map::<Seq<char>, V>::empty()),
    {
        proof {
            use_type_invariant(self);
            if self.entries@.len() > 0 {
                lemma_entry(self.entries@, 0);
            } else {
                assert(self@ =~= Map::<Seq<char>, V>::empty());
            }
        }
        self.entries.len() == 0
    }

    /// The place of a name among the entries.
    fn place(&self, k: &str) -> (r: Option<usize>)
        ensures
            match r {
                Some(i) => i < self.entries@.len() && self.entries@[i as int].0@ == k@,
                None => forall|i: int|
                    0 <= i < self.entries@.len() ==> (#[trigger] self.entries@[i]).0@ != k@,
            },
    {
        let mut i: usize = 0;
        while i < self.entries.len()
            invariant
                i <= self.entries@.len(),
                forall|j: int| 0 <= j < i ==> (#[trigger] self.entries@[j]).0@ != k@,
            decreases self.entries@.len() - i,
        {
            if same(self.entries[i].0.as_str(), k) {
                return Some(i);
            }
            i += 1;
        }
        None
    }

    /// The value of a name.
    pub fn get(&self, k: &str) -> (r: Option<&V>)
        ensures
            match r {
                Some(v) => self@.dom().contains(k@) && self@[k@] == *v,
                None => !self@.dom().contains(k@),
            },
    {
        proof {
            use_type_invariant(self);
        }
        match self.place(k) {
            Some(i) => {
                proof {
                    lemma_entry(self.entries@, i as int);
                }
                Some(&self.entries[i].1)
            },
            None => {
                proof {
                    lemma_absent(self.entries@, k@);
                }
                None
            },
        }
    }

    /// Whether a name is in the table.
    pub fn contains_key(&self, k: &str) -> (r: bool)
        ensures
            r == self@.dom().contains(k@),
    {
        self.get(k).is_some()
    }

    /// Gives a name a value, in place of the one it may have had.
    pub fn insert(&mut self, k: String, v: V)
        ensures
            final(self)@ == old(self)@.insert(k@, v),
    {
        proof {
            use_type_invariant(&*self);
        }
        let ghost before = self.entries@;
        let at = self.place(k.as_str());
        let mut e: Vec<(String, V)> = Vec::new();
        std::mem::swap(&mut e, &mut self.entries);
        match at {
            Some(i) => {
                e.set(i, (k, v));
                proof {
                    lemma_update(before, i as int, (k, v));
                }
            },
            None => {
                e.push((k, v));
                proof {
                    lemma_push(before, (k, v));
                }
            },
        }
        self.entries = e;
    }

    /// Takes a name out, with its value.
    pub fn remove(&mut self, k: &str)
        ensures
            final(self)@ == old(self)@.remove(k@),
    {
        proof {
            use_type_invariant(&*self);
        }
        let ghost before = self.entries@;
        let at = self.place(k);
        match at {
            Some(i) => {
                let mut e: Vec<(String, V)> = Vec::new();
                std::mem::swap(&mut e, &mut self.entries);
                e.remove(i);
                proof {
                    lemma_remove(before, i as int);
                }
                self.entries = e;
            },
            None => {
                proof {
                    lemma_absent(before, k@);
                    assert(self@ =~= self@.remove(k@));
                }
            },
        }
    }

    /// The names with their values, in the order in which the names came.
    pub fn entries(&self) -> (r: &Vec<(String, V)>)
        ensures
            forall|i: int|
                0 <= i < r@.len() ==> self@.dom().contains((#[trigger] r@[i]).0@)
                    && self@[r@[i].0@] == r@[i].1,
            forall|k: Seq<char>| #[trigger]
                self@.dom().contains(k) ==> exists|i: int|
                    0 <= i < r@.len() && (#[trigger] r@[i]).0@ == k,
    {
        proof {
            use_type_invariant(self);
            let e = self.entries@;
            assert forall|i: int| 0 <= i < e.len() implies self@.dom().contains(
                (#[trigger] e[i]).0@,
            ) && self@[e[i].0@] == e[i].1 by {
                lemma_entry(e, i);
            }
            assert forall|k: Seq<char>| #[trigger] self@.dom().contains(k) implies exists|i: int|
                0 <= i < e.len() && (#[trigger] e[i]).0@ == k by {
                let i = choose|i: int| named_at(e, k, i);
                assert(e[i].0@ == k);
            }
        }
        &self.entries
    }
}

/// Replacing the value of an entry.
proof fn lemma_update<V>(e: Seq<(String, V)>, i: int, x: (String, V))
    requires
        distinct(e),
        0 <= i < e.len(),
        e[i].0@ == x.0@,
    ensures
        distinct(e.update(i, x)),
        as_map(e.update(i, x)) == as_map(e).insert(x.0@, x.1),
{
    let f = e.update(i, x);
    assert forall|a: int, b: int| 0 <= a < b < f.len() implies #[trigger] f[a].0@
        != #[trigger] f[b].0@ by {
        assert(e[a].0@ != e[b].0@);
        assert(f[a].0@ == e[a].0@ && f[b].0@ == e[b].0@);
    }
    assert forall|k: Seq<char>| as_map(f).dom().contains(k) == as_map(e).insert(
        x.0@,
        x.1,
    ).dom().contains(k) by {
        if exists|a: int| named_at(f, k, a) {
            let a = choose|a: int| named_at(f, k, a);
            assert(named_at(e, k, a));
        }
        if exists|a: int| named_at(e, k, a) {
            let a = choose|a: int| named_at(e, k, a);
            assert(named_at(f, k, a));
        }
        if k == x.0@ {
            assert(named_at(f, k, i));
        }
    }
    assert forall|k: Seq<char>| as_map(f).dom().contains(k) implies as_map(f)[k] == as_map(
        e,
    ).insert(x.0@, x.1)[k] by {
        let a = choose|a: int| named_at(f, k, a);
        lemma_entry(f, a);
        lemma_entry(e, a);
        if a == i {
        } else if a < i {
            assert(e[a].0@ != e[i].0@);
        } else {
            assert(e[i].0@ != e[a].0@);
        }
    }
    assert(as_map(f) =~= as_map(e).insert(x.0@, x.1));
}

/// Adding an entry with a new name.
proof fn lemma_push<V>(e: Seq<(String, V)>, x: (String, V))
    requires
        distinct(e),
        forall|i: int| 0 <= i < e.len() ==> (#[trigger] e[i]).0@ != x.0@,
    ensures
        distinct(e.push(x)),
        as_map(e.push(x)) == as_map(e).insert(x.0@, x.1),
{
    let f = e.push(x);
    assert forall|a: int, b: int| 0 <= a < b < f.len() implies #[trigger] f[a].0@
        != #[trigger] f[b].0@ by {
        assert(f[a] == e[a]);
        if b < e.len() {
            assert(e[a].0@ != e[b].0@);
        }
    }
    assert forall|k: Seq<char>| as_map(f).dom().contains(k) == as_map(e).insert(
        x.0@,
        x.1,
    ).dom().contains(k) by {
        if exists|a: int| named_at(f, k, a) {
            let a = choose|a: int| named_at(f, k, a);
            if a < e.len() {
                assert(named_at(e, k, a));
            }
        }
        if exists|a: int| named_at(e, k, a) {
            let a = choose|a: int| named_at(e, k, a);
            assert(named_at(f, k, a));
        }
        if k == x.0@ {
            assert(named_at(f, k, e.len() as int));
        }
    }
    assert forall|k: Seq<char>| as_map(f).dom().contains(k) implies as_map(f)[k] == as_map(
        e,
    ).insert(x.0@, x.1)[k] by {
        let a = choose|a: int| named_at(f, k, a);
        lemma_entry(f, a);
        if a < e.len() {
            lemma_entry(e, a);
            assert(e[a].0@ != x.0@);
        }
    }
    assert(as_map(f) =~= as_map(e).insert(x.0@, x.1));
}

/// Taking an entry out.
proof fn lemma_remove<V>(e: Seq<(String, V)>, i: int)
    requires
        distinct(e),
        0 <= i < e.len(),
    ensures
        distinct(e.remove(i)),
        as_map(e.remove(i)) == as_map(e).remove(e[i].0@),
{
    let f = e.remove(i);
    assert forall|a: int, b: int| 0 <= a < b < f.len() implies #[trigger] f[a].0@
        != #[trigger] f[b].0@ by {
        let a2 = if a < i {
            a
        } else {
            a + 1
        };
        let b2 = if b < i {
            b
        } else {
            b + 1
        };
        assert(f[a] == e[a2] && f[b] == e[b2]);
        assert(e[a2].0@ != e[b2].0@);
    }
    assert forall|k: Seq<char>| as_map(f).dom().contains(k) == as_map(e).remove(
        e[i].0@,
    ).dom().contains(k) by {
        if exists|a: int| named_at(f, k, a) {
            let a = choose|a: int| named_at(f, k, a);
            let a2 = if a < i {
                a
            } else {
                a + 1
            };
            assert(f[a] == e[a2]);
            assert(named_at(e, k, a2));
            if a2 < i {
                assert(e[a2].0@ != e[i].0@);
            } else {
                assert(e[i].0@ != e[a2].0@);
            }
        }
        if k != e[i].0@ && exists|a: int| named_at(e, k, a) {
            let a = choose|a: int| named_at(e, k, a);
            let b = if a < i {
                a
            } else {
                a - 1
            };
            assert(f[b] == e[a]);
            assert(named_at(f, k, b));
        }
    }
    assert forall|k: Seq<char>| as_map(f).dom().contains(k) implies as_map(f)[k] == as_map(
        e,
    ).remove(e[i].0@)[k] by {
        let a = choose|a: int| named_at(f, k, a);
        let a2 = if a < i {
            a
        } else {
            a + 1
        };
        lemma_entry(f, a);
        lemma_entry(e, a2);
    }
    assert(as_map(f) =~= as_map(e).remove(e[i].0@));
}

/// There are as many names as entries.
proof fn lemma_size<V>(e: Seq<(String, V)>)
    requires
        distinct(e),
    ensures
        as_map(e).dom().finite(),
        as_map(e).dom().len() == e.len(),
    decreases e.len(),
{
    if e.len() == 0 {
        assert(as_map(e).dom() =~= Set::<Seq<char>>::empty());
    } else {
        let init = e.drop_last();
        let x = e.last();
        assert(distinct(init)) by {
            assert forall|a: int, b: int| 0 <= a < b < init.len() implies #[trigger] init[a].0@
                != #[trigger] init[b].0@ by {
                assert(e[a].0@ != e[b].0@);
            }
        }
        assert forall|i: int| 0 <= i < init.len() implies (#[trigger] init[i]).0@ != x.0@ by {
            assert(e[i].0@ != e[e.len() - 1].0@);
        }
        lemma_size(init);
        lemma_push(init, x);
        lemma_absent(init, x.0@);
        assert(init.push(x) =~= e);
        assert(as_map(e).dom() =~= as_map(init).dom().insert(x.0@));
    }
}

} // verus!
