//! Properties of the store's read and write rules, stated over the table's
//! model (`Table::insert`, `Table::get` and `Table::remove` are specified
//! by `Map::insert`, `after_read`, `visible` and `stored`).

use crate::clock::expiry_after;
use crate::table::{after_read, is_expired, stored, visible, Entry};
use vstd::prelude::*;

verus! {

/// A key that was never inserted reads as absent, and the read changes
/// nothing.
pub proof fn law_never_inserted_reads_absent<K, V>(m: Map<K, Entry<V>>, k: K, now: u128)
    requires
        !m.contains_key(k),
    ensures
        visible(m, k, now) == None::<V>,
        after_read(m, k, now) == m,
{
}

/// Inserting `v1` and then `v2` under one key without expiration: the second
/// insertion hands back `v1`, and a read afterwards sees `v2`.
pub proof fn law_overwrite_returns_previous<K, V>(
    m: Map<K, Entry<V>>,
    k: K,
    v1: V,
    v2: V,
    now: u128,
)
    ensures
        ({
            let m1 = m.insert(k, Entry { value: v1, expires_at: None });
            let m2 = m1.insert(k, Entry { value: v2, expires_at: None });
            stored(m1, k) == Some(v1) && visible(m2, k, now) == Some(v2)
        }),
{
}

/// An entry inserted without expiration is seen by a read at any instant,
/// and that read evicts nothing.
pub proof fn law_no_false_expiration<K, V>(m: Map<K, Entry<V>>, k: K, v: V, now: u128)
    ensures
        ({
            let m1 = m.insert(k, Entry { value: v, expires_at: None });
            visible(m1, k, now) == Some(v) && after_read(m1, k, now) == m1
        }),
{
}

/// An entry inserted at `t0` with time-to-live `d` is seen by a read at any
/// instant up to `t0 + d`; a read strictly after that sees nothing, evicts
/// it, and no later read at any instant sees it again.
pub proof fn law_time_to_live<K, V>(m: Map<K, Entry<V>>, k: K, v: V, t0: u128, d: u128, t: u128)
    ensures
        ({
            let m1 = m.insert(k, Entry { value: v, expires_at: expiry_after(t0, Some(d)) });
            &&& t <= t0 + d ==> visible(m1, k, t) == Some(v) && after_read(m1, k, t) == m1
            &&& t > t0 + d ==> {
                &&& visible(m1, k, t) == None::<V>
                &&& forall|t2: u128| visible(after_read(m1, k, t), k, t2) == None::<V>
            }
        }),
{
    let m1 = m.insert(k, Entry { value: v, expires_at: expiry_after(t0, Some(d)) });
    if t > t0 + d {
        assert(!after_read(m1, k, t).contains_key(k));
    }
}

/// Once a read at `t` has found the entry of `k` expired, a removal right
/// after finds nothing, and no read at any later instant sees a value.
pub proof fn law_no_resurrection<K, V>(m: Map<K, Entry<V>>, k: K, t: u128, t2: u128)
    requires
        m.contains_key(k),
        is_expired(m[k], t),
    ensures
        visible(m, k, t) == None::<V>,
        stored(after_read(m, k, t), k) == None::<V>,
        visible(after_read(m, k, t), k, t2) == None::<V>,
{
}

/// The mapping after inserting `vals[i]` under `keys[i]`, without
/// expiration, in order.
pub open spec fn insert_all<K, V>(m: Map<K, Entry<V>>, keys: Seq<K>, vals: Seq<V>) -> Map<
    K,
    Entry<V>,
>
    decreases keys.len(),
{
    if keys.len() == 0 || vals.len() == 0 {
        m
    } else {
        insert_all(m, keys.drop_last(), vals.drop_last()).insert(
            keys.last(),
            Entry { value: vals.last(), expires_at: None },
        )
    }
}

/// Insertions under distinct keys do not disturb one another: after
/// inserting each `vals[i]` under `keys[i]`, in whatever order the keys are
/// listed, a read of every `keys[i]` sees `vals[i]`.
pub proof fn law_distinct_keys_all_visible<K, V>(
    m: Map<K, Entry<V>>,
    keys: Seq<K>,
    vals: Seq<V>,
    now: u128,
)
    requires
        keys.no_duplicates(),
        keys.len() == vals.len(),
    ensures
        forall|i: int|
            0 <= i < keys.len() ==> visible(#[trigger] insert_all(m, keys, vals), keys[i], now)
                == Some(vals[i]),
    decreases keys.len(),
{
    if keys.len() > 0 {
        let ks = keys.drop_last();
        let vs = vals.drop_last();
        assert(ks.no_duplicates());
        law_distinct_keys_all_visible(m, ks, vs, now);
        assert forall|i: int| 0 <= i < keys.len() implies visible(
            insert_all(m, keys, vals),
            keys[i],
            now,
        ) == Some(vals[i]) by {
            if i < keys.len() - 1 {
                assert(ks[i] == keys[i]);
                assert(vs[i] == vals[i]);
                assert(keys[i] != keys.last());
            }
        }
    }
}

} // verus!
