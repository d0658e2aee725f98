//! Association lists read as maps.
//!
//! The graph keeps its tables as vectors in order of first discovery.
//! Their meaning is the finite map that the entries spell out; the lemmas
//! here relate edits of the list to edits of the map.

use vstd::prelude::*;

verus! {

/// The map spelled out by a list of key-value pairs. Where a key occurs
/// more than once the last occurrence counts.
pub open spec fn assoc<K, V>(s: Seq<(K, V)>) -> Map<K, V>
    decreases s.len(),
{
    if s.len() == 0 {
        Map::empty()
    } else {
        assoc(s.drop_last()).insert(s.last().0, s.last().1)
    }
}

/// No key occurs twice.
pub open spec fn distinct_keys<K, V>(s: Seq<(K, V)>) -> bool {
    forall|i: int, j: int| 0 <= i < j < s.len() ==> s[i].0 != s[j].0
}

/// A key is in the map exactly when some entry carries it.
pub proof fn lemma_assoc_dom<K, V>(s: Seq<(K, V)>, k: K)
    ensures
        assoc(s).dom().contains(k) <==> exists|i: int| 0 <= i < s.len() && s[i].0 == k,
        assoc(s).dom().finite(),
    decreases s.len(),
{
    if s.len() > 0 {
        let t = s.drop_last();
        lemma_assoc_dom(t, k);
        if assoc(s).dom().contains(k) {
            if s.last().0 == k {
                assert(s[s.len() - 1].0 == k);
            } else {
                let i = choose|i: int| 0 <= i < t.len() && t[i].0 == k;
                assert(s[i].0 == k);
            }
        }
        if exists|i: int| 0 <= i < s.len() && s[i].0 == k {
            let i = choose|i: int| 0 <= i < s.len() && s[i].0 == k;
            if i < t.len() {
                assert(t[i].0 == k);
            }
        }
    }
}

/// With distinct keys, every entry is what the map holds under its key.
pub proof fn lemma_assoc_lookup<K, V>(s: Seq<(K, V)>, i: int)
    requires
        distinct_keys(s),
        0 <= i < s.len(),
    ensures
        assoc(s).dom().contains(s[i].0),
        assoc(s)[s[i].0] == s[i].1,
    decreases s.len(),
{
    let t = s.drop_last();
    if i < s.len() - 1 {
        assert(distinct_keys(t)) by {
            assert forall|a: int, b: int| 0 <= a < b < t.len() implies t[a].0 != t[b].0 by {
                assert(s[a].0 != s[b].0);
            }
        }
        lemma_assoc_lookup(t, i);
        assert(t[i] == s[i]);
        assert(s[i].0 != s[s.len() - 1].0);
    }
}

/// Appending an entry inserts it.
pub proof fn lemma_assoc_push<K, V>(s: Seq<(K, V)>, k: K, v: V)
    ensures
        assoc(s.push((k, v))) == assoc(s).insert(k, v),
{
    assert(s.push((k, v)).drop_last() =~= s);
}

/// With distinct keys, replacing the value of entry `i` replaces the
/// value under its key and nothing else.
pub proof fn lemma_assoc_update<K, V>(s: Seq<(K, V)>, i: int, v: V)
    requires
        distinct_keys(s),
        0 <= i < s.len(),
    ensures
        assoc(s.update(i, (s[i].0, v))) == assoc(s).insert(s[i].0, v),
        distinct_keys(s.update(i, (s[i].0, v))),
    decreases s.len(),
{
    let u = s.update(i, (s[i].0, v));
    let t = s.drop_last();
    if i == s.len() - 1 {
        assert(u.drop_last() =~= t);
        assert(assoc(u) =~= assoc(s).insert(s[i].0, v));
    } else {
        assert(distinct_keys(t)) by {
            assert forall|a: int, b: int| 0 <= a < b < t.len() implies t[a].0 != t[b].0 by {
                assert(s[a].0 != s[b].0);
            }
        }
        lemma_assoc_update(t, i, v);
        assert(t[i] == s[i]);
        assert(u.drop_last() =~= t.update(i, (s[i].0, v)));
        assert(u.last() == s.last());
        assert(s[i].0 != s[s.len() - 1].0);
        assert(assoc(u) =~= assoc(s).insert(s[i].0, v));
    }
    assert forall|a: int, b: int| 0 <= a < b < u.len() implies u[a].0 != u[b].0 by {
        assert(s[a].0 != s[b].0);
    }
}

/// Where the entry for `k` stands: the first place, if there is one.
pub open spec fn position<K, V>(s: Seq<(K, V)>, k: K) -> Option<int> {
    if exists|i: int| 0 <= i < s.len() && s[i].0 == k {
        Some(first_at(s, k, 0))
    } else {
        None
    }
}

/// The first place from `from` on at which an entry for `k` stands, or
/// the length of the list.
pub open spec fn first_at<K, V>(s: Seq<(K, V)>, k: K, from: int) -> int
    decreases s.len() - from,
{
    if from < 0 || from >= s.len() {
        s.len() as int
    } else if s[from].0 == k {
        from
    } else {
        first_at(s, k, from + 1)
    }
}

/// The list with `v` under `k`: in the place of the entry for `k`, or at
/// the end where there is none.
pub open spec fn put<K, V>(s: Seq<(K, V)>, k: K, v: V) -> Seq<(K, V)> {
    match position(s, k) {
        Some(i) => s.update(i, (k, v)),
        None => s.push((k, v)),
    }
}

/// From `from` on, the first entry for `k` stands where `first_at` says,
/// and none stands before it.
pub proof fn lemma_first_at<K, V>(s: Seq<(K, V)>, k: K, from: int)
    requires
        0 <= from <= s.len(),
    ensures
        from <= first_at(s, k, from) <= s.len(),
        first_at(s, k, from) < s.len() ==> s[first_at(s, k, from)].0 == k,
        forall|j: int| from <= j < first_at(s, k, from) ==> s[j].0 != k,
    decreases s.len() - from,
{
    if from < s.len() && s[from].0 != k {
        lemma_first_at(s, k, from + 1);
    }
}

/// What `position` finds: an entry for `k`, the first one, or that there
/// is none.
pub proof fn lemma_position<K, V>(s: Seq<(K, V)>, k: K)
    ensures
        match position(s, k) {
            Some(i) => 0 <= i < s.len() && s[i].0 == k && forall|j: int| 0 <= j < i ==> s[j].0 != k,
            None => forall|j: int| 0 <= j < s.len() ==> s[j].0 != k,
        },
        position(s, k) is Some <==> assoc(s).dom().contains(k),
{
    lemma_first_at(s, k, 0);
    lemma_assoc_dom(s, k);
    if exists|i: int| 0 <= i < s.len() && s[i].0 == k {
        let i = choose|i: int| 0 <= i < s.len() && s[i].0 == k;
        assert(first_at(s, k, 0) <= i);
    }
}

/// With distinct keys, an entry for `k` at `i` is what `position` finds.
pub proof fn lemma_position_unique<K, V>(s: Seq<(K, V)>, k: K, i: int)
    requires
        distinct_keys(s),
        0 <= i < s.len(),
        s[i].0 == k,
    ensures
        position(s, k) == Some(i),
{
    lemma_position(s, k);
}

/// Putting a value under a key inserts it in the map, and keeps the keys
/// distinct.
pub proof fn lemma_put<K, V>(s: Seq<(K, V)>, k: K, v: V)
    requires
        distinct_keys(s),
    ensures
        distinct_keys(put(s, k, v)),
        assoc(put(s, k, v)) == assoc(s).insert(k, v),
{
    lemma_position(s, k);
    match position(s, k) {
        Some(i) => {
            lemma_assoc_update(s, i, v);
        },
        None => {
            lemma_assoc_push(s, k, v);
        },
    }
}

} // verus!
