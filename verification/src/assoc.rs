//! Vectors of key and value pairs in the order of their keys, each key once.

use vstd::prelude::*;

use crate::text::{
    str_eq, str_lt, text_lt, text_lt_irreflexive, text_lt_total, text_lt_transitive,
};

verus! {

/// Whether the keys stand in strictly ascending order, so that no key occurs twice.
pub open spec fn keys_ascend<T>(s: Seq<(String, T)>) -> bool {
    forall|i: int, j: int|
        0 <= i < j < s.len() ==> text_lt(#[trigger] s[i].0@, #[trigger] s[j].0@)
}

/// Whether some pair has this key.
pub open spec fn has_key<T>(s: Seq<(String, T)>, key: Seq<char>) -> bool {
    exists|i: int| 0 <= i < s.len() && #[trigger] s[i].0@ == key
}

/// Where a pair with this key stands.
pub open spec fn key_index<T>(s: Seq<(String, T)>, key: Seq<char>) -> int {
    choose|i: int| 0 <= i < s.len() && #[trigger] s[i].0@ == key
}

/// The map that the pairs stand for, each value seen through `f`.
pub open spec fn map_by<T, U>(s: Seq<(String, T)>, f: spec_fn(T) -> U) -> Map<Seq<char>, U> {
    Map::new(|k: Seq<char>| has_key(s, k), |k: Seq<char>| f(s[key_index(s, k)].1))
}

/// In ascending pairs a key stands at one place only.
pub proof fn lemma_key_index<T>(s: Seq<(String, T)>, i: int)
    requires
        keys_ascend(s),
        0 <= i < s.len(),
    ensures
        has_key(s, s[i].0@),
        key_index(s, s[i].0@) == i,
{
    let j = key_index(s, s[i].0@);
    assert(s[i].0@ == s[i].0@);
    assert(0 <= j < s.len() && s[j].0@ == s[i].0@);
    text_lt_irreflexive(s[i].0@);
    if i < j {
        assert(text_lt(s[i].0@, s[j].0@));
    }
    if j < i {
        assert(text_lt(s[j].0@, s[i].0@));
    }
}

/// The place of a key: where it stands, or where it would have to stand.
pub open spec fn place_of<T>(s: Seq<(String, T)>, key: Seq<char>, found: bool, at: int) -> bool {
    &&& 0 <= at <= s.len()
    &&& forall|i: int| 0 <= i < at ==> text_lt(#[trigger] s[i].0@, key)
    &&& found ==> at < s.len() && s[at].0@ == key
    &&& !found ==> forall|i: int| at <= i < s.len() ==> text_lt(key, #[trigger] s[i].0@)
}

/// Finds a key, or where it would have to stand.
pub fn locate<T>(entries: &Vec<(String, T)>, key: &str) -> (r: (bool, usize))
    requires
        keys_ascend(entries@),
    ensures
        place_of(entries@, key@, r.0, r.1 as int),
        r.0 == has_key(entries@, key@),
        r.0 ==> key_index(entries@, key@) == r.1,
{
    let mut i: usize = 0;
    while i < entries.len()
        invariant
            keys_ascend(entries@),
            i <= entries.len(),
            forall|j: int| 0 <= j < i ==> text_lt(#[trigger] entries@[j].0@, key@),
        decreases entries.len() - i,
    {
        if str_eq(entries[i].0.as_str(), key) {
            proof {
                lemma_key_index(entries@, i as int);
            }
            return (true, i);
        }
        if !str_lt(entries[i].0.as_str(), key) {
            proof {
                text_lt_total(entries@[i as int].0@, key@);
                assert forall|j: int| i <= j < entries@.len() implies text_lt(
                    key@,
                    #[trigger] entries@[j].0@,
                ) by {
                    if j > i {
                        assert(text_lt(entries@[i as int].0@, entries@[j].0@));
                        text_lt_transitive(key@, entries@[i as int].0@, entries@[j].0@);
                    }
                }
                lemma_absent(entries@, key@, i as int);
            }
            return (false, i);
        }
        i = i + 1;
    }
    proof {
        lemma_absent(entries@, key@, i as int);
    }
    (false, i)
}

proof fn lemma_absent<T>(s: Seq<(String, T)>, key: Seq<char>, at: int)
    requires
        place_of(s, key, false, at),
    ensures
        !has_key(s, key),
{
    text_lt_irreflexive(key);
}

/// A new pair in its place keeps the order and enters the map.
pub proof fn lemma_insert<T, U>(
    s: Seq<(String, T)>,
    key: String,
    value: T,
    at: int,
    f: spec_fn(T) -> U,
)
    requires
        keys_ascend(s),
        place_of(s, key@, false, at),
    ensures
        keys_ascend(s.insert(at, (key, value))),
        map_by(s.insert(at, (key, value)), f) == map_by(s, f).insert(key@, f(value)),
{
    let t = s.insert(at, (key, value));
    assert forall|i: int, j: int| 0 <= i < j < t.len() implies text_lt(
        #[trigger] t[i].0@,
        #[trigger] t[j].0@,
    ) by {
        let si = if i < at { i } else { i - 1 };
        let sj = if j < at { j } else { j - 1 };
        if i != at && j != at {
            assert(t[i] == s[si] && t[j] == s[sj]);
        } else if i == at {
            assert(t[j] == s[sj]);
        } else {
            assert(t[i] == s[si]);
        }
    }
    lemma_absent(s, key@, at);
    let before = map_by(s, f).insert(key@, f(value));
    let after = map_by(t, f);
    assert(t[at] == (key, value));
    lemma_key_index(t, at);
    assert forall|k: Seq<char>|
        #![trigger after.dom().contains(k)]
        #![trigger before.dom().contains(k)]
        #![trigger after[k]]
        after.dom().contains(k) == before.dom().contains(k) && (after.dom().contains(k) ==> after[k]
            == before[k]) by {
        if has_key(s, k) {
            let i = key_index(s, k);
            let ti = if i < at { i } else { i + 1 };
            assert(t[ti] == s[i]);
            lemma_key_index(t, ti);
        }
        if has_key(t, k) && k != key@ {
            let i = key_index(t, k);
            let si = if i < at { i } else { i - 1 };
            assert(s[si] == t[i]);
        }
    }
    assert(after =~= before);
}

/// A new value under a key keeps the order and takes the place of the old one in the map.
pub proof fn lemma_update<T, U>(
    s: Seq<(String, T)>,
    key: String,
    value: T,
    at: int,
    f: spec_fn(T) -> U,
)
    requires
        keys_ascend(s),
        place_of(s, key@, true, at),
    ensures
        keys_ascend(s.update(at, (key, value))),
        map_by(s.update(at, (key, value)), f) == map_by(s, f).insert(key@, f(value)),
{
    let t = s.update(at, (key, value));
    assert forall|i: int| 0 <= i < t.len() implies (#[trigger] t[i]).0@ == s[i].0@ by {}
    assert(keys_ascend(t));
    lemma_key_index(t, at);
    let before = map_by(s, f).insert(key@, f(value));
    let after = map_by(t, f);
    assert forall|k: Seq<char>|
        #![trigger after.dom().contains(k)]
        #![trigger before.dom().contains(k)]
        #![trigger after[k]]
        after.dom().contains(k) == before.dom().contains(k) && (after.dom().contains(k) ==> after[k]
            == before[k]) by {
        if has_key(s, k) {
            let i = key_index(s, k);
            assert(t[i].0@ == s[i].0@);
            lemma_key_index(t, i);
        }
        if has_key(t, k) {
            let i = key_index(t, k);
            assert(s[i].0@ == t[i].0@);
        }
    }
    assert(after =~= before);
}

/// Taking a pair out keeps the order and takes its key out of the map.
pub proof fn lemma_remove<T, U>(s: Seq<(String, T)>, key: Seq<char>, at: int, f: spec_fn(T) -> U)
    requires
        keys_ascend(s),
        place_of(s, key, true, at),
    ensures
        keys_ascend(s.remove(at)),
        map_by(s.remove(at), f) == map_by(s, f).remove(key),
{
    let t = s.remove(at);
    assert forall|i: int, j: int| 0 <= i < j < t.len() implies text_lt(
        #[trigger] t[i].0@,
        #[trigger] t[j].0@,
    ) by {
        let si = if i < at { i } else { i + 1 };
        let sj = if j < at { j } else { j + 1 };
        assert(t[i] == s[si] && t[j] == s[sj]);
    }
    lemma_key_index(s, at);
    let before = map_by(s, f).remove(key);
    let after = map_by(t, f);
    assert forall|k: Seq<char>|
        #![trigger after.dom().contains(k)]
        #![trigger before.dom().contains(k)]
        #![trigger after[k]]
        after.dom().contains(k) == before.dom().contains(k) && (after.dom().contains(k) ==> after[k]
            == before[k]) by {
        if has_key(s, k) && k != key {
            let i = key_index(s, k);
            let ti = if i < at { i } else { i - 1 };
            assert(t[ti] == s[i]);
            lemma_key_index(t, ti);
        }
        if has_key(t, k) {
            let i = key_index(t, k);
            let si = if i < at { i } else { i + 1 };
            assert(s[si] == t[i]);
            lemma_key_index(s, si);
        }
    }
    assert(after =~= before);
}

} // verus!
