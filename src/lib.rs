//! A thread-safe in-memory key/value store whose entries may carry an
//! expiration instant. Expired entries are evicted lazily, when `get`
//! observes them.

pub mod clock;
pub mod laws;
pub mod store;
pub mod table;

pub use store::{KeyValueStore, KeyValueStoreError, KeyValueStoreResult};
pub use table::{Entry, Lookup, Table};
