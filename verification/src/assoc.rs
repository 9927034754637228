//! Association lists: sequences of key/value pairs with distinct keys, read
//! as maps. Several stores of the game keep their entries this way.

use vstd::prelude::*;

verus! {

/// Whether no two pairs of `s` share a key.
pub open spec fn distinct_keys<K, V>(s: Seq<(K, V)>) -> bool {
    forall|i: int, j: int| 0 <= i < s.len() && 0 <= j < s.len() && i != j ==> (#[trigger] s[i]).0 != (#[trigger] s[j]).0
}

/// Whether some pair of `s` has key `k`.
pub open spec fn has_key<K, V>(s: Seq<(K, V)>, k: K) -> bool {
    exists|i: int| 0 <= i < s.len() && (#[trigger] s[i]).0 == k
}

/// The index of a pair of `s` with key `k` (meaningful when there is one).
pub open spec fn key_index<K, V>(s: Seq<(K, V)>, k: K) -> int {
    choose|i: int| 0 <= i < s.len() && (#[trigger] s[i]).0 == k
}

/// `s` read as a map from each key to its pair's value.
pub open spec fn key_map<K, V>(s: Seq<(K, V)>) -> Map<K, V> {
    Map::new(|k: K| has_key(s, k), |k: K| s[key_index(s, k)].1)
}

/// With distinct keys, each pair is found under its key.
pub proof fn lemma_key_map_index<K, V>(s: Seq<(K, V)>, i: int)
    requires
        distinct_keys(s),
        0 <= i < s.len(),
    ensures
        key_map(s).contains_key(s[i].0),
        key_map(s)[s[i].0] == s[i].1,
        key_index(s, s[i].0) == i,
{
    assert(has_key(s, s[i].0));
    let j = key_index(s, s[i].0);
    assert(s[j].0 == s[i].0);
}

/// Adding a pair under a new key adds it to the map and keeps keys distinct.
pub proof fn lemma_key_map_push<K, V>(s: Seq<(K, V)>, k: K, v: V)
    requires
        distinct_keys(s),
        !has_key(s, k),
    ensures
        distinct_keys(s.push((k, v))),
        key_map(s.push((k, v))) == key_map(s).insert(k, v),
{
    let t = s.push((k, v));
    assert(distinct_keys(t)) by {
        assert forall|i: int, j: int|
            0 <= i < t.len() && 0 <= j < t.len() && i != j implies (#[trigger] t[i]).0 != (#[trigger] t[j]).0 by {
            if i < s.len() && j < s.len() {
                assert(t[i] == s[i] && t[j] == s[j]);
            } else if i < s.len() {
                assert(t[i] == s[i]);
            } else {
                assert(t[j] == s[j]);
            }
        }
    }
    assert forall|q: K| #[trigger] key_map(t).contains_key(q) == key_map(s).insert(k, v).contains_key(q) by {
        if q == k {
            assert(t[s.len() as int].0 == k);
        }
        if has_key(s, q) {
            let i = key_index(s, q);
            assert(t[i] == s[i]);
        }
        if has_key(t, q) && q != k {
            let i = key_index(t, q);
            if i < s.len() {
                assert(t[i] == s[i]);
            }
        }
    }
    assert forall|q: K| #[trigger] key_map(t).contains_key(q) implies key_map(t)[q] == key_map(s).insert(k, v)[q] by {
        if q == k {
            lemma_key_map_index(t, s.len() as int);
        } else {
            let i = key_index(t, q);
            assert(t[i] == s[i]);
            lemma_key_map_index(s, i);
            lemma_key_map_index(t, i);
        }
    }
    assert(key_map(t) =~= key_map(s).insert(k, v));
}

/// Replacing the value of the pair at `i` updates its key in the map.
pub proof fn lemma_key_map_update<K, V>(s: Seq<(K, V)>, i: int, v: V)
    requires
        distinct_keys(s),
        0 <= i < s.len(),
    ensures
        distinct_keys(s.update(i, (s[i].0, v))),
        key_map(s.update(i, (s[i].0, v))) == key_map(s).insert(s[i].0, v),
{
    let t = s.update(i, (s[i].0, v));
    assert(distinct_keys(t)) by {
        assert forall|a: int, b: int|
            0 <= a < t.len() && 0 <= b < t.len() && a != b implies (#[trigger] t[a]).0 != (#[trigger] t[b]).0 by {
            assert(t[a].0 == s[a].0 && t[b].0 == s[b].0);
        }
    }
    assert forall|q: K| #[trigger] key_map(t).contains_key(q) == key_map(s).insert(s[i].0, v).contains_key(q) by {
        if has_key(s, q) {
            let j = key_index(s, q);
            assert(t[j].0 == s[j].0);
        }
        if has_key(t, q) {
            let j = key_index(t, q);
            assert(t[j].0 == s[j].0);
        }
    }
    assert forall|q: K| #[trigger] key_map(t).contains_key(q) implies key_map(t)[q] == key_map(s).insert(s[i].0, v)[q] by {
        let j = key_index(t, q);
        assert(t[j].0 == s[j].0);
        lemma_key_map_index(t, j);
        if j != i {
            lemma_key_map_index(s, j);
        }
    }
    assert(key_map(t) =~= key_map(s).insert(s[i].0, v));
}

/// Removing the pair at `i` removes its key from the map.
pub proof fn lemma_key_map_remove<K, V>(s: Seq<(K, V)>, i: int)
    requires
        distinct_keys(s),
        0 <= i < s.len(),
    ensures
        distinct_keys(s.remove(i)),
        key_map(s.remove(i)) == key_map(s).remove(s[i].0),
{
    let t = s.remove(i);
    // t[a] is s[a] below i and s[a + 1] from i on
    assert(distinct_keys(t)) by {
        assert forall|a: int, b: int|
            0 <= a < t.len() && 0 <= b < t.len() && a != b implies (#[trigger] t[a]).0 != (#[trigger] t[b]).0 by {
            let sa = if a < i { a } else { a + 1 };
            let sb = if b < i { b } else { b + 1 };
            assert(t[a] == s[sa] && t[b] == s[sb]);
        }
    }
    assert forall|q: K| #[trigger] key_map(t).contains_key(q) == key_map(s).remove(s[i].0).contains_key(q) by {
        if has_key(t, q) {
            let a = key_index(t, q);
            let sa = if a < i { a } else { a + 1 };
            assert(t[a] == s[sa]);
        }
        if has_key(s, q) && q != s[i].0 {
            let a = key_index(s, q);
            let ta = if a < i { a } else { a - 1 };
            assert(t[ta] == s[a]);
        }
    }
    assert forall|q: K| #[trigger] key_map(t).contains_key(q) implies key_map(t)[q] == key_map(s).remove(s[i].0)[q] by {
        let a = key_index(t, q);
        let sa = if a < i { a } else { a + 1 };
        assert(t[a] == s[sa]);
        lemma_key_map_index(t, a);
        lemma_key_map_index(s, sa);
    }
    assert(key_map(t) =~= key_map(s).remove(s[i].0));
}

} // verus!
