//! Maps from strings to strings, such as labels and annotations, in the order of their keys.

use vstd::prelude::*;

use crate::assoc::{
    has_key, key_index, keys_ascend, lemma_insert, lemma_key_index, lemma_remove, lemma_update,
    locate, map_by,
};
use crate::text::{str_eq, text_lt, the_order_of_texts};

verus! {

/// A map from strings to strings, held as pairs in the order of their keys.
#[derive(Debug)]
pub struct StringMap {
    entries: Vec<(String, String)>,
}

/// The pairs of a map, in the order of their keys.
pub open spec fn ascending(pairs: Seq<(Seq<char>, Seq<char>)>) -> bool {
    forall|i: int, j: int| 0 <= i < j < pairs.len() ==> text_lt(pairs[i].0, pairs[j].0)
}

/// Whether the pairs, in the order of their keys, are exactly the entries of the map.
pub open spec fn lists(
    pairs: Seq<(Seq<char>, Seq<char>)>,
    entries: Map<Seq<char>, Seq<char>>,
) -> bool {
    &&& ascending(pairs)
    &&& forall|i: int|
        0 <= i < pairs.len() ==> entries.contains_key((#[trigger] pairs[i]).0)
            && entries[pairs[i].0] == pairs[i].1
    &&& forall|k: Seq<char>| #[trigger]
        entries.contains_key(k) ==> exists|i: int|
            0 <= i < pairs.len() && #[trigger] pairs[i] == (k, entries[k])
}

/// The entries of a map have one order.
pub proof fn lemma_one_listing(
    a: Seq<(Seq<char>, Seq<char>)>,
    b: Seq<(Seq<char>, Seq<char>)>,
    entries: Map<Seq<char>, Seq<char>>,
)
    requires
        lists(a, entries),
        lists(b, entries),
    ensures
        a == b,
{
    let x = Seq::new(a.len(), |i: int| a[i].0);
    let y = Seq::new(b.len(), |i: int| b[i].0);
    assert forall|t: Seq<char>| #[trigger] x.contains(t) <==> y.contains(t) by {
        lemma_listed(a, entries, t);
        lemma_listed(b, entries, t);
    }
    assert forall|i: int, j: int| 0 <= i < j < x.len() implies #[trigger] text_lt(x[i], x[j]) by {
        assert(text_lt(a[i].0, a[j].0));
    }
    assert forall|i: int, j: int| 0 <= i < j < y.len() implies #[trigger] text_lt(y[i], y[j]) by {
        assert(text_lt(b[i].0, b[j].0));
    }
    the_order_of_texts(y, x);
    the_order_of_texts(y, y);
    assert(a.len() == b.len());
    assert forall|i: int| 0 <= i < a.len() implies a[i] == b[i] by {
        assert(x[i] == y[i]);
    }
    assert(a =~= b);
}

proof fn lemma_listed(
    pairs: Seq<(Seq<char>, Seq<char>)>,
    entries: Map<Seq<char>, Seq<char>>,
    key: Seq<char>,
)
    requires
        lists(pairs, entries),
    ensures
        Seq::new(pairs.len(), |i: int| pairs[i].0).contains(key) <==> entries.contains_key(key),
{
    let keys = Seq::new(pairs.len(), |i: int| pairs[i].0);
    if keys.contains(key) {
        let i = choose|i: int| 0 <= i < keys.len() && keys[i] == key;
        assert(entries.contains_key(pairs[i].0));
    }
    if entries.contains_key(key) {
        let i = choose|i: int| 0 <= i < pairs.len() && #[trigger] pairs[i] == (key, entries[key]);
        assert(keys[i] == key);
    }
}

impl StringMap {
    #[verifier::type_invariant]
    closed spec fn ordered(self) -> bool {
        keys_ascend(self.entries@)
    }

    /// The map itself.
    pub closed spec fn view(&self) -> Map<Seq<char>, Seq<char>> {
        map_by(self.entries@, |v: String| v@)
    }

    /// The pairs of the map in the order of their keys.
    pub closed spec fn pairs(&self) -> Seq<(Seq<char>, Seq<char>)> {
        Seq::new(self.entries@.len(), |i: int| (self.entries@[i].0@, self.entries@[i].1@))
    }

    /// A map without entries.
    pub fn new() -> (r: StringMap)
        ensures
            r@ == Map::<Seq<char>, Seq<char>>::empty(),
    {
        let r = StringMap { entries: Vec::new() };
        proof {
            assert(r@ =~= Map::<Seq<char>, Seq<char>>::empty());
        }
        r
    }

    /// How many entries there are.
    pub fn len(&self) -> (r: usize)
        ensures
            r == self.pairs().len(),
            lists(self.pairs(), self@),
            (r == 0) == (self@ == Map::<Seq<char>, Seq<char>>::empty()),
    {
        proof {
            use_type_invariant(self);
            self.lemma_pairs();
            if self.entries@.len() == 0 {
                assert(self@ =~= Map::<Seq<char>, Seq<char>>::empty());
            } else {
                assert(has_key(self.entries@, self.entries@[0].0@));
                assert(self@.dom().contains(self.entries@[0].0@));
            }
        }
        self.entries.len()
    }

    /// Whether there is no entry.
    pub fn is_empty(&self) -> (r: bool)
        ensures
            r == (self@ == Map::<Seq<char>, Seq<char>>::empty()),
    {
        self.len() == 0
    }

    /// The entry at a place in the order of the keys.
    pub fn entry(&self, i: usize) -> (r: (&String, &String))
        requires
            i < self.pairs().len(),
        ensures
            (r.0@, r.1@) == self.pairs()[i as int],
            lists(self.pairs(), self@),
            self@.contains_key(r.0@),
            self@[r.0@] == r.1@,
    {
        proof {
            use_type_invariant(self);
            lemma_key_index(self.entries@, i as int);
            self.lemma_pairs();
        }
        let e = &self.entries[i];
        (&e.0, &e.1)
    }

    proof fn lemma_pairs(&self)
        requires
            keys_ascend(self.entries@),
        ensures
            lists(self.pairs(), self@),
    {
        assert forall|i: int, j: int| 0 <= i < j < self.pairs().len() implies text_lt(
            self.pairs()[i].0,
            self.pairs()[j].0,
        ) by {
            assert(text_lt(self.entries@[i].0@, self.entries@[j].0@));
        }
        assert forall|i: int| 0 <= i < self.pairs().len() implies self@.contains_key(
            (#[trigger] self.pairs()[i]).0,
        ) && self@[self.pairs()[i].0] == self.pairs()[i].1 by {
            lemma_key_index(self.entries@, i);
        }
        assert forall|k: Seq<char>| #[trigger] self@.contains_key(k) implies exists|i: int|
            0 <= i < self.pairs().len() && #[trigger] self.pairs()[i] == (k, self@[k]) by {
            let i = key_index(self.entries@, k);
            assert(self.pairs()[i] == (k, self@[k]));
        }
    }

    /// The pairs of the map in the order of their keys.
    pub fn to_pairs(&self) -> (r: Vec<(String, String)>)
        ensures
            lists(self.pairs(), self@),
            r@.len() == self.pairs().len(),
            forall|i: int|
                0 <= i < r@.len() ==> ((#[trigger] r@[i]).0@, r@[i].1@) == self.pairs()[i],
    {
        let n: usize = self.len();
        let mut out: Vec<(String, String)> = Vec::new();
        let mut i: usize = 0;
        while i < n
            invariant
                i <= n,
                n == self.pairs().len(),
                out@.len() == i,
                forall|j: int|
                    0 <= j < i ==> ((#[trigger] out@[j]).0@, out@[j].1@) == self.pairs()[j],
            decreases n - i,
        {
            let (k, v) = self.entry(i);
            out.push((k.clone(), v.clone()));
            i = i + 1;
        }
        out
    }

    /// The value under a key.
    pub fn get(&self, key: &str) -> (r: Option<&String>)
        ensures
            r is Some == self@.contains_key(key@),
            r is Some ==> r->0@ == self@[key@],
    {
        proof {
            use_type_invariant(self);
        }
        let (found, at) = locate(&self.entries, key);
        if found {
            Some(&self.entries[at].1)
        } else {
            None
        }
    }

    /// Whether there is an entry under a key.
    pub fn contains_key(&self, key: &str) -> (r: bool)
        ensures
            r == self@.contains_key(key@),
    {
        self.get(key).is_some()
    }

    /// Takes all entries out.
    fn take(&mut self) -> (r: StringMap)
        ensures
            r == *old(self),
            final(self)@ == Map::<Seq<char>, Seq<char>>::empty(),
    {
        let mut taken = StringMap::new();
        core::mem::swap(self, &mut taken);
        taken
    }

    /// Puts a value under a key, in place of the one that was there.
    pub fn insert(&mut self, key: String, value: String)
        ensures
            final(self)@ == old(self)@.insert(key@, value@),
    {
        let taken = self.take();
        proof {
            use_type_invariant(&taken);
        }
        let mut entries: Vec<(String, String)> = taken.entries;
        let (found, at) = locate(&entries, key.as_str());
        if found {
            proof {
                lemma_update(entries@, key, value, at as int, |v: String| v@);
            }
            entries.set(at, (key, value));
        } else {
            proof {
                lemma_insert(entries@, key, value, at as int, |v: String| v@);
            }
            entries.insert(at, (key, value));
        }
        *self = StringMap { entries };
    }

    /// Takes the entry under a key out.
    pub fn remove(&mut self, key: &str)
        ensures
            final(self)@ == old(self)@.remove(key@),
    {
        let taken = self.take();
        proof {
            use_type_invariant(&taken);
        }
        let mut entries: Vec<(String, String)> = taken.entries;
        let (found, at) = locate(&entries, key);
        if found {
            proof {
                lemma_remove(entries@, key@, at as int, |v: String| v@);
            }
            entries.remove(at);
        } else {
            proof {
                assert(taken@ =~= taken@.remove(key@));
            }
        }
        *self = StringMap { entries };
    }

    /// Puts the entries of another map in, which win over those that were there.
    pub fn extend(&mut self, other: &StringMap)
        ensures
            final(self)@ == old(self)@.union_prefer_right(other@),
    {
        let ghost before = self@;
        let n: usize = other.len();
        let mut i: usize = 0;
        while i < n
            invariant
                i <= n,
                n == other.pairs().len(),
                forall|j: int|
                    0 <= j < n ==> other@.contains_key((#[trigger] other.pairs()[j]).0)
                        && other@[other.pairs()[j].0] == other.pairs()[j].1,
                forall|k: Seq<char>| #[trigger]
                    self@.contains_key(k) <==> before.contains_key(k) || exists|j: int|
                        0 <= j < i && #[trigger] other.pairs()[j].0 == k,
                forall|k: Seq<char>|
                    self@.contains_key(k) ==> #[trigger] self@[k] == if exists|j: int|
                        0 <= j < i && #[trigger] other.pairs()[j].0 == k {
                        other@[k]
                    } else {
                        before[k]
                    },
            decreases n - i,
        {
            let (k, v) = other.entry(i);
            self.insert(k.clone(), v.clone());
            i = i + 1;
        }
        proof {
            assert forall|k: Seq<char>| other@.contains_key(k) implies exists|j: int|
                0 <= j < n && #[trigger] other.pairs()[j].0 == k by {
                let j = choose|j: int|
                    0 <= j < other.pairs().len() && #[trigger] other.pairs()[j] == (k, other@[k]);
                assert(other.pairs()[j].0 == k);
            }
            assert(self@ =~= before.union_prefer_right(other@));
        }
    }

    /// A map with the same entries.
    pub fn duplicate(&self) -> (r: StringMap)
        ensures
            r@ == self@,
    {
        let mut r = StringMap::new();
        r.extend(self);
        proof {
            assert(r@ =~= self@);
        }
        r
    }

    /// Whether two maps have the same entries.
    pub fn same(&self, other: &StringMap) -> (r: bool)
        ensures
            r == (self@ == other@),
    {
        let n: usize = self.len();
        let m: usize = other.len();
        let mut i: usize = 0;
        while i < n
            invariant
                i <= n,
                n == self.pairs().len(),
                forall|j: int|
                    0 <= j < i ==> other@.contains_key((#[trigger] self.pairs()[j]).0)
                        && other@[self.pairs()[j].0] == self.pairs()[j].1,
            decreases n - i,
        {
            let (k, v) = self.entry(i);
            match other.get(k.as_str()) {
                None => {
                    return false;
                },
                Some(w) => {
                    if !str_eq(v.as_str(), w.as_str()) {
                        return false;
                    }
                },
            }
            i = i + 1;
        }
        i = 0;
        while i < m
            invariant
                i <= m,
                m == other.pairs().len(),
                forall|j: int|
                    0 <= j < i ==> self@.contains_key((#[trigger] other.pairs()[j]).0),
            decreases m - i,
        {
            let (k, v) = other.entry(i);
            if !self.contains_key(k.as_str()) {
                return false;
            }
            i = i + 1;
        }
        proof {
            assert forall|k: Seq<char>| #[trigger] self@.contains_key(k) implies other@.contains_key(
                k,
            ) && other@[k] == self@[k] by {
                let j = choose|j: int|
                    0 <= j < self.pairs().len() && #[trigger] self.pairs()[j] == (k, self@[k]);
                assert(self.pairs()[j].0 == k);
            }
            assert forall|k: Seq<char>| #[trigger] other@.contains_key(k) implies self@.contains_key(
                k,
            ) by {
                let j = choose|j: int|
                    0 <= j < other.pairs().len() && #[trigger] other.pairs()[j] == (k, other@[k]);
                assert(other.pairs()[j].0 == k);
            }
            assert(self@ =~= other@);
        }
        true
    }
}

} // verus!
