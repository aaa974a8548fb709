//! Association sequences: the mathematical model of a keyed table that
//! remembers the order in which its keys first arrived.
//!
//! A table is a `Seq<(K, V)>`. A key sits at one position at most
//! (`distinct_keys`); writing under a key that is present replaces the value
//! where it stands, writing under a new key appends.

use vstd::prelude::*;

verus! {

/// Some entry of `t` is stored under `k`.
pub open spec fn has_key<K, V>(t: Seq<(K, V)>, k: K) -> bool {
    exists|i: int| 0 <= i < t.len() && (#[trigger] t[i]).0 == k
}

/// A position of `k` in `t`; the only one where the keys are distinct.
pub open spec fn position<K, V>(t: Seq<(K, V)>, k: K) -> int {
    choose|i: int| 0 <= i < t.len() && (#[trigger] t[i]).0 == k
}

/// The value stored under `k`, if there is one.
pub open spec fn lookup<K, V>(t: Seq<(K, V)>, k: K) -> Option<V> {
    if has_key(t, k) {
        Some(t[position(t, k)].1)
    } else {
        None
    }
}

/// `t` after a write of `v` under `k`.
pub open spec fn upsert<K, V>(t: Seq<(K, V)>, k: K, v: V) -> Seq<(K, V)> {
    if has_key(t, k) {
        t.update(position(t, k), (k, v))
    } else {
        t.push((k, v))
    }
}

/// No key occurs at two positions.
pub open spec fn distinct_keys<K, V>(t: Seq<(K, V)>) -> bool {
    forall|i: int, j: int| 0 <= i < j < t.len() ==> (#[trigger] t[i]).0 != (#[trigger] t[j]).0
}

/// Where the keys are distinct, the entry at `i` is the one found under its key.
pub proof fn lemma_position_unique<K, V>(t: Seq<(K, V)>, i: int)
    requires
        distinct_keys(t),
        0 <= i < t.len(),
    ensures
        has_key(t, t[i].0),
        position(t, t[i].0) == i,
        lookup(t, t[i].0) == Some(t[i].1),
{
    let k = t[i].0;
    let p = position(t, k);
    assert(0 <= p < t.len() && t[p].0 == k);
    if p < i {
        assert(t[p].0 != t[i].0);
    } else if i < p {
        assert(t[i].0 != t[p].0);
    }
}

/// A write adds one entry where the key is new and none where it is not.
pub proof fn lemma_upsert_len<K, V>(t: Seq<(K, V)>, k: K, v: V)
    ensures
        upsert(t, k, v).len() == t.len() + (if has_key(t, k) { 0int } else { 1int }),
{
    if has_key(t, k) {
        let p = position(t, k);
        assert(0 <= p < t.len());
    }
}

/// A write keeps the keys distinct.
pub proof fn lemma_upsert_distinct<K, V>(t: Seq<(K, V)>, k: K, v: V)
    requires
        distinct_keys(t),
    ensures
        distinct_keys(upsert(t, k, v)),
{
    let u = upsert(t, k, v);
    if has_key(t, k) {
        let p = position(t, k);
        assert(0 <= p < t.len() && t[p].0 == k);
        assert forall|i: int, j: int| 0 <= i < j < u.len() implies (#[trigger] u[i]).0 != (
        #[trigger] u[j]).0 by {
            assert(u[i].0 == t[i].0);
            assert(u[j].0 == t[j].0);
        }
    } else {
        assert forall|i: int, j: int| 0 <= i < j < u.len() implies (#[trigger] u[i]).0 != (
        #[trigger] u[j]).0 by {
            if j < t.len() {
                assert(u[i] == t[i] && u[j] == t[j]);
            } else {
                assert(u[i] == t[i]);
                assert(u[j].0 == k);
            }
        }
    }
}

/// After a write the written key is present, and no other key came or went.
pub proof fn lemma_upsert_has_key<K, V>(t: Seq<(K, V)>, k: K, v: V, other: K)
    ensures
        has_key(upsert(t, k, v), other) <==> (other == k || has_key(t, other)),
{
    let u = upsert(t, k, v);
    if has_key(t, k) {
        let p = position(t, k);
        assert(0 <= p < t.len() && t[p].0 == k);
        assert(u[p].0 == k);
        if has_key(t, other) {
            let q = position(t, other);
            assert(u[q].0 == other);
        }
        if has_key(u, other) {
            let q = position(u, other);
            assert(t[q].0 == other);
        }
    } else {
        assert(u[t.len() as int].0 == k);
        if has_key(t, other) {
            let q = position(t, other);
            assert(u[q].0 == other);
        }
        if has_key(u, other) && other != k {
            let q = position(u, other);
            assert(q < t.len());
            assert(t[q].0 == other);
        }
    }
}

/// After a write the written key holds the new value and every other key
/// holds what it held.
pub proof fn lemma_upsert_lookup<K, V>(t: Seq<(K, V)>, k: K, v: V, other: K)
    requires
        distinct_keys(t),
    ensures
        lookup(upsert(t, k, v), other) == (if other == k {
            Some(v)
        } else {
            lookup(t, other)
        }),
{
    let u = upsert(t, k, v);
    lemma_upsert_distinct(t, k, v);
    lemma_upsert_has_key(t, k, v, other);
    if has_key(u, other) {
        let q = position(u, other);
        assert(0 <= q < u.len() && u[q].0 == other);
        if has_key(t, k) {
            let p = position(t, k);
            assert(0 <= p < t.len() && t[p].0 == k);
            if other == k {
                lemma_position_unique(u, p);
            } else {
                assert(t[q].0 == other);
                lemma_position_unique(t, q);
            }
        } else {
            if other == k {
                lemma_position_unique(u, t.len() as int);
            } else {
                assert(q < t.len());
                assert(t[q].0 == other);
                lemma_position_unique(t, q);
            }
        }
    }
}

/// `t` after a write of `v` under each key of `keys`, first to last.
pub open spec fn upsert_all<K, V>(t: Seq<(K, V)>, keys: Seq<K>, v: V) -> Seq<(K, V)>
    decreases keys.len(),
{
    if keys.len() == 0 {
        t
    } else {
        upsert(upsert_all(t, keys.drop_last(), v), keys.last(), v)
    }
}

/// Writing under the first `n + 1` keys is writing under the first `n` and
/// then under the next.
pub proof fn lemma_upsert_all_step<K, V>(t: Seq<(K, V)>, keys: Seq<K>, v: V, n: int)
    requires
        0 <= n < keys.len(),
    ensures
        upsert_all(t, keys.take(n + 1), v) == upsert(upsert_all(t, keys.take(n), v), keys[n], v),
{
    assert(keys.take(n + 1).drop_last() =~= keys.take(n));
}

/// Writing under a list of keys keeps the keys distinct and adds no more
/// entries than the list is long.
pub proof fn lemma_upsert_all_shape<K, V>(t: Seq<(K, V)>, keys: Seq<K>, v: V)
    requires
        distinct_keys(t),
    ensures
        distinct_keys(upsert_all(t, keys, v)),
        t.len() <= upsert_all(t, keys, v).len() <= t.len() + keys.len(),
    decreases keys.len(),
{
    if keys.len() > 0 {
        let before = upsert_all(t, keys.drop_last(), v);
        lemma_upsert_all_shape(t, keys.drop_last(), v);
        lemma_upsert_distinct(before, keys.last(), v);
        lemma_upsert_len(before, keys.last(), v);
    }
}

/// After writing `v` under a list of keys, a key of the list holds `v`, and
/// any other key holds what it held, or is absent as it was.
pub proof fn lemma_upsert_all_lookup<K, V>(t: Seq<(K, V)>, keys: Seq<K>, v: V, k: K)
    requires
        distinct_keys(t),
    ensures
        has_key(upsert_all(t, keys, v), k) <==> (keys.contains(k) || has_key(t, k)),
        lookup(upsert_all(t, keys, v), k) == (if keys.contains(k) {
            Some(v)
        } else {
            lookup(t, k)
        }),
    decreases keys.len(),
{
    if keys.len() > 0 {
        let front = keys.drop_last();
        let before = upsert_all(t, front, v);
        lemma_upsert_all_lookup(t, front, v, k);
        lemma_upsert_all_shape(t, front, v);
        lemma_upsert_has_key(before, keys.last(), v, k);
        lemma_upsert_lookup(before, keys.last(), v, k);
        if front.contains(k) {
            let i = choose|i: int| 0 <= i < front.len() && front[i] == k;
            assert(keys[i] == k);
        }
        if keys.contains(k) && k != keys.last() {
            let i = choose|i: int| 0 <= i < keys.len() && keys[i] == k;
            assert(front[i] == k);
        }
        assert(keys[keys.len() - 1] == keys.last());
    }
}

/// In a table that started empty and was written with one value only, every
/// entry holds that value.
pub proof fn lemma_upsert_all_values<K, V>(keys: Seq<K>, v: V)
    ensures
        forall|i: int|
            0 <= i < upsert_all(Seq::<(K, V)>::empty(), keys, v).len() ==> (
            #[trigger] upsert_all(Seq::<(K, V)>::empty(), keys, v)[i]).1 == v,
    decreases keys.len(),
{
    if keys.len() > 0 {
        let before = upsert_all(Seq::<(K, V)>::empty(), keys.drop_last(), v);
        let after = upsert_all(Seq::<(K, V)>::empty(), keys, v);
        lemma_upsert_all_values(keys.drop_last(), v);
        if has_key(before, keys.last()) {
            let p = position(before, keys.last());
            assert(0 <= p < before.len());
        }
        assert forall|i: int| 0 <= i < after.len() implies (#[trigger] after[i]).1 == v by {
            if i < before.len() && after[i] != (keys.last(), v) {
                assert(after[i] == before[i]);
            }
        }
    }
}

} // verus!
