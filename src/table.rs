//! The mapping that the store guards: each key holds one entry, a value with
//! an optional expiration instant. Expiration is lazy: an expired entry stays
//! in the mapping until a read of its key evicts it, but reads never see it.
//!
//! The operations ask that the key type's equality and hashing agree with
//! each other and with spec equality (`obeys_key_model`), as any hash map
//! needs of its keys.

use std::collections::HashMap;
use std::hash::Hash;
use vstd::prelude::*;
use vstd::std_specs::hash::obeys_key_model;

verus! {

broadcast use vstd::std_specs::hash::group_hash_axioms;

/// What is kept for a key: the value and, when the entry can expire, the
/// instant (nanoseconds since the Unix epoch) after which it is invalid.
pub struct Entry<V> {
    pub value: V,
    pub expires_at: Option<u128>,
}

/// Whether `e` has expired at `now`: its expiration instant lies strictly
/// before `now`. An entry without one never expires.
pub open spec fn is_expired<V>(e: Entry<V>, now: u128) -> bool {
    match e.expires_at {
        Some(t) => t < now,
        None => false,
    }
}

/// The value that a read of `k` at `now` sees: the entry's value when it is
/// present and has not expired.
pub open spec fn visible<K, V>(m: Map<K, Entry<V>>, k: K, now: u128) -> Option<V> {
    if m.contains_key(k) && !is_expired(m[k], now) {
        Some(m[k].value)
    } else {
        None
    }
}

/// The value physically held for `k`, expired or not.
pub open spec fn stored<K, V>(m: Map<K, Entry<V>>, k: K) -> Option<V> {
    if m.contains_key(k) {
        Some(m[k].value)
    } else {
        None
    }
}

/// The mapping after a read of `k` at `now`: an expired entry for `k` is
/// evicted, everything else stays.
pub open spec fn after_read<K, V>(m: Map<K, Entry<V>>, k: K, now: u128) -> Map<K, Entry<V>> {
    if m.contains_key(k) && is_expired(m[k], now) {
        m.remove(k)
    } else {
        m
    }
}

/// `r` is a copy of `v`: both absent, or both present with `r`'s value a
/// clone of `v`'s.
pub open spec fn copy_of<V: Clone>(r: Option<V>, v: Option<V>) -> bool {
    match (r, v) {
        (Some(a), Some(b)) => cloned(b, a),
        (None, None) => true,
        _ => false,
    }
}

/// What a look-up of a key finds at a given instant.
pub enum Lookup<V> {
    /// No entry for the key.
    Missing,
    /// A valid entry; a copy of its value.
    Live(V),
    /// An entry whose expiration instant has passed.
    Expired,
}

/// `r` is what a look-up of `k` at `now` in `m` reports.
pub open spec fn lookup_result<K, V: Clone>(r: Lookup<V>, m: Map<K, Entry<V>>, k: K, now: u128) -> bool {
    match r {
        Lookup::Missing => !m.contains_key(k),
        Lookup::Expired => m.contains_key(k) && is_expired(m[k], now),
        Lookup::Live(v) => copy_of(Some(v), visible(m, k, now)),
    }
}

/// A mapping from keys to entries, at most one entry per key.
pub struct Table<K, V> {
    entries: HashMap<K, Entry<V>>,
}

impl<K, V> View for Table<K, V> {
    type V = Map<K, Entry<V>>;

    closed spec fn view(&self) -> Map<K, Entry<V>> {
        self.entries@
    }
}

impl<K: Eq + Hash, V: Clone> Table<K, V> {
    /// An empty table.
    pub fn new() -> (t: Self)
        ensures
            t@ == Map::<K, Entry<V>>::empty(),
    {
        Table { entries: HashMap::new() }
    }

    /// Puts `value` under `key` with the given expiration instant, replacing
    /// any entry there, and hands back the replaced entry's value (expired or
    /// not).
    pub fn insert(&mut self, key: K, value: V, expires_at: Option<u128>) -> (r: Option<V>)
        requires
            obeys_key_model::<K>(),
        ensures
            final(self)@ == old(self)@.insert(key, (Entry { value, expires_at })),
            r == stored(old(self)@, key),
    {
        match self.entries.insert(key, Entry { value, expires_at }) {
            Some(e) => Some(e.value),
            None => None,
        }
    }

    /// Deletes the entry for `key`, expired or not, and hands back its value.
    pub fn remove(&mut self, key: &K) -> (r: Option<V>)
        requires
            obeys_key_model::<K>(),
        ensures
            final(self)@ == old(self)@.remove(*key),
            r == stored(old(self)@, *key),
    {
        match self.entries.remove(key) {
            Some(e) => Some(e.value),
            None => None,
        }
    }

    /// Reports, without changing anything, whether `key` has no entry, a
    /// valid one (with a copy of its value) or one that expired before `now`.
    pub fn lookup(&self, key: &K, now: u128) -> (r: Lookup<V>)
        requires
            obeys_key_model::<K>(),
        ensures
            lookup_result(r, self@, *key, now),
    {
        match self.entries.get(key) {
            None => Lookup::Missing,
            Some(e) => {
                let expired = match e.expires_at {
                    Some(t) => t < now,
                    None => false,
                };
                if expired {
                    Lookup::Expired
                } else {
                    Lookup::Live(e.value.clone())
                }
            },
        }
    }

    /// Reads `key` at `now` without changing anything: a copy of the value
    /// of a valid entry, or `None`; and whether the entry found has expired
    /// (the caller then evicts it).
    pub fn read(&self, key: &K, now: u128) -> (r: (Option<V>, bool))
        requires
            obeys_key_model::<K>(),
        ensures
            copy_of(r.0, visible(self@, *key, now)),
            r.1 == (self@.contains_key(*key) && is_expired(self@[*key], now)),
    {
        match self.lookup(key, now) {
            Lookup::Live(v) => (Some(v), false),
            Lookup::Missing => (None, false),
            Lookup::Expired => (None, true),
        }
    }

    /// Reads `key` at `now` with exclusive access: a copy of the value of a
    /// valid entry, or `None`; an expired entry is evicted on the way.
    pub fn get(&mut self, key: &K, now: u128) -> (r: Option<V>)
        requires
            obeys_key_model::<K>(),
        ensures
            final(self)@ == after_read(old(self)@, *key, now),
            copy_of(r, visible(old(self)@, *key, now)),
    {
        let (value, expired) = self.read(key, now);
        if expired {
            let _ = self.remove(key);
        }
        value
    }
}

} // verus!
