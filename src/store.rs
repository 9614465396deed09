//! The shared handle. All clones of a store reach one table behind one
//! reader/writer lock; every operation takes the lock, does a bounded amount
//! of work and releases it before returning.
//!
//! The lock is vstd's verified reader/writer lock, which cannot be poisoned:
//! the two error kinds below are never returned. A thread that panics while
//! holding the lock (a panicking `Clone` or `Hash` of a key or value) leaves
//! it held, and the store's behaviour afterwards is not covered by any
//! guarantee here.

use crate::clock::{current_time, expires_at};
use crate::table::Table;
use std::hash::Hash;
use std::sync::Arc;
use vstd::prelude::*;
use vstd::rwlock::{RwLock, RwLockPredicate};
use vstd::std_specs::hash::obeys_key_model;

verus! {

/// Error kinds of the store's operations: a lock that a panicking holder
/// left poisoned. The lock used here has no poisoning, so neither is ever
/// returned.
#[derive(Debug, Clone, Copy, PartialEq, Eq)]
pub enum KeyValueStoreError {
    /// Acquiring the shared (read) lock found it poisoned.
    PoisonedReadLock,
    /// Acquiring the exclusive (write) lock found it poisoned.
    PoisonedWriteLock,
}

/// What every operation of [`KeyValueStore`] returns.
pub type KeyValueStoreResult<V> = Result<Option<V>, KeyValueStoreError>;

/// The lock's invariant: any table may stand behind it. The lock serves for
/// mutual exclusion only.
pub struct AnyTable;

impl<K, V> RwLockPredicate<Table<K, V>> for AnyTable {
    open spec fn inv(self, t: Table<K, V>) -> bool {
        true
    }
}

/// A thread-safe key/value store whose entries may expire. Cloning the handle
/// shares the table: all clones see the same entries.
#[derive(Clone)]
pub struct KeyValueStore<K, V> {
    inner: Arc<RwLock<Table<K, V>, AnyTable>>,
}

impl<K: Eq + Hash + Clone, V: Clone> KeyValueStore<K, V> {
    /// A store with an empty table of its own.
    pub fn new() -> (s: Self) {
        KeyValueStore { inner: Arc::new(RwLock::new(Table::new(), Ghost(AnyTable))) }
    }

    /// Puts `value` under `key`, valid for `ttl` nanoseconds from now when
    /// `ttl` is given and for ever otherwise, and hands back the value it
    /// replaced, if any (expired or not). Holds the exclusive lock for the
    /// one insertion; what the table does is `Table::insert` with the
    /// instant `expires_at(now, ttl)`.
    pub fn insert(&mut self, key: K, value: V, ttl: Option<u128>) -> (r: KeyValueStoreResult<V>)
        requires
            obeys_key_model::<K>(),
        ensures
            r is Ok,
    {
        let expiration = expires_at(current_time(), ttl);
        let (mut table, handle) = self.inner.acquire_write();
        let previous = table.insert(key, value, expiration);
        handle.release_write(table);
        Ok(previous)
    }

    /// A copy of the value under `key` when its entry is present and not
    /// expired, else `None`. Reads under the shared lock (`Table::read`,
    /// whose contract fixes the value returned here and when eviction runs);
    /// on finding the entry expired it releases that lock and only then
    /// removes the key under the exclusive one, returning `None` whatever
    /// that removal finds.
    pub fn get(&mut self, key: &K) -> (r: KeyValueStoreResult<V>)
        requires
            obeys_key_model::<K>(),
        ensures
            r is Ok,
    {
        let now = current_time();
        let read = self.inner.acquire_read();
        let (value, expired) = read.borrow().read(key, now);
        read.release_read();
        if expired {
            let _ = self.remove(key);
        }
        Ok(value)
    }

    /// Deletes the entry under `key` and hands back its value (expired or
    /// not), under the exclusive lock (`Table::remove`).
    pub fn remove(&mut self, key: &K) -> (r: KeyValueStoreResult<V>)
        requires
            obeys_key_model::<K>(),
        ensures
            r is Ok,
    {
        let (mut table, handle) = self.inner.acquire_write();
        let removed = table.remove(key);
        handle.release_write(table);
        Ok(removed)
    }
}

} // verus!
