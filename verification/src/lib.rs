//! Write-behind caching layer for a keyed resource API.
//!
//! A logical resource key maps to three physical cache slots: a live slot
//! holding the last cache-visible representation, a dirty slot holding an
//! accepted write not yet persisted to the origin store, and a tombstone
//! marking an accepted delete not yet applied. The request interceptor
//! answers reads and writes from these slots; a periodic flusher persists
//! dirty slots to the origin store; a reconciler applies expired tombstones
//! as origin deletions.

use vstd::prelude::*;

pub mod auth;
pub mod digits;
pub mod entry;
pub mod flusher;
pub mod interceptor;
pub mod keyspace;
pub mod laws;
pub mod merge;
pub mod models;
pub mod origin;
pub mod posts;
pub mod reconciler;
pub mod retry;
pub mod store;

verus! {

/// Seconds a freshly seeded live slot stays cached before plain eviction.
pub const LIVE_TTL_SECS: u64 = 60;

/// Seconds a tombstone lives before its expiration triggers the deferred
/// origin deletion.
pub const TOMBSTONE_TTL_SECS: u64 = 10;

/// Seconds between two sweeps of the write-behind flusher.
pub const FLUSH_INTERVAL_SECS: u64 = 10;

} // verus!
