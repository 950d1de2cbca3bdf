//! The expiration reconciler: a tombstone's expiry becomes the deferred
//! origin deletion.
//!
//! The embedding program subscribes to the cache backend's key-expiration
//! notifications and hands every expired key here. Only tombstone keys are
//! protocol-significant; the plain TTL expiry of a live slot is
//! cache-eviction noise and is ignored. Delivery of the notifications is
//! not exactly-once: a repeated event deletes a row that is already gone,
//! which is a no-op below.

use vstd::prelude::*;

use crate::digits::{is_signed_dec, signed_dec_value};
use crate::entry::spec_expire_tombstone_state;
use crate::keyspace::{
    classify_key, parse_post_path, posts_prefix, spec_has_prefix, spec_post_id_key,
    spec_tombstone_key, KeyClass,
};
use crate::origin::OriginTable;
use crate::store::KeySpace;

verus! {

/// Applies one tombstone's deferred deletion: the key text is the decimal
/// id of the row to drop — an optional leading sign, then digits, exactly
/// what the store's own id parse accepts. A key of any other shape is
/// ignored: there is nothing durable it could refer to.
pub fn delete_callback(origin: &mut OriginTable, key: &str) -> (r: bool)
    requires
        old(origin).wf(),
    ensures
        final(origin).wf(),
        (is_signed_dec(key@) && i64::MIN as int <= signed_dec_value(key@) && signed_dec_value(key@)
            <= i64::MAX as int) ==> {
            &&& r == (old(origin).spec_row(signed_dec_value(key@)) is Some)
            &&& final(origin).spec_row(signed_dec_value(key@)) is None
            &&& forall|k: int|
                k != signed_dec_value(key@) ==> final(origin).spec_row(k) == old(origin).spec_row(
                    k,
                )
        },
        !(is_signed_dec(key@) && i64::MIN as int <= signed_dec_value(key@) && signed_dec_value(
            key@,
        ) <= i64::MAX as int) ==> !r && final(origin).rows@ == old(origin).rows@,
{
    match crate::digits::parse_signed_dec_i64(key) {
        Some(id) => origin.delete(id),
        None => false,
    }
}

/// What handling one expiration event came to.
pub enum ReconcileOutcome {
    /// A tombstone expired for a post key: its row's deletion was applied.
    /// `removed` tells whether a row still existed — a duplicate or late
    /// event finds none, and that is fine.
    Reconciled { id: i64, removed: bool },
    /// A tombstone expired for a key that names no post: the marker is
    /// gone, and there is no row it could refer to.
    UnknownResource,
    /// The expired key was no tombstone: plain cache eviction, ignored.
    Ignored,
}

/// Handles one key-expiration event from the cache backend.
///
/// A tombstone key ends that key's tombstone and deletes the origin row its
/// id names; every other expiry is ignored. The caller must not let one
/// slow origin deletion stall later events; this function only decides and
/// applies, it never waits.
pub fn delete_event_listener(
    cache: &mut KeySpace,
    origin: &mut OriginTable,
    expired_key: &str,
) -> (r: ReconcileOutcome)
    requires
        old(cache).wf(),
        old(origin).wf(),
    ensures
        final(cache).wf(),
        final(origin).wf(),
        match r {
            ReconcileOutcome::Reconciled { id, removed } => {
                &&& exists|k: Seq<char>|
                    #![trigger spec_tombstone_key(k)]
                    expired_key@ == spec_tombstone_key(k) && spec_post_id_key(k) && id as int
                        == signed_dec_value(k.skip(posts_prefix().len() as int))
                &&& removed == (old(origin).spec_row(id as int) is Some)
                &&& final(origin).spec_row(id as int) is None
                &&& forall|k: int|
                    k != id as int ==> final(origin).spec_row(k) == old(origin).spec_row(k)
            },
            ReconcileOutcome::UnknownResource => {
                &&& exists|k: Seq<char>|
                    #![trigger spec_tombstone_key(k)]
                    expired_key@ == spec_tombstone_key(k) && !spec_post_id_key(k)
                &&& final(origin).rows@ == old(origin).rows@
            },
            ReconcileOutcome::Ignored => !spec_has_prefix(
                expired_key@,
                crate::keyspace::tombstone_prefix(),
            ) && final(origin).rows@ == old(origin).rows@ && final(cache).entries@ == old(
                cache,
            ).entries@,
        },
        forall|k: Seq<char>|
            expired_key@ == spec_tombstone_key(k) ==> final(cache).spec_entry(k)
                == spec_expire_tombstone_state(old(cache).spec_entry(k)) && (forall|k2: Seq<char>|
                k2 != k ==> final(cache).spec_entry(k2) == old(cache).spec_entry(k2)),
{
    match classify_key(expired_key) {
        KeyClass::Tombstone { key } => {
            cache.expire_tombstone(key.as_str());
            proof {
                assert forall|k: Seq<char>| expired_key@ == spec_tombstone_key(k) implies k
                    == key@ by {
                    crate::keyspace::lemma_namespaces_disjoint(k, key@);
                }
            }
            match parse_post_path(key.as_str()) {
                Some(id) => {
                    let removed = origin.delete(id);
                    ReconcileOutcome::Reconciled { id, removed }
                },
                None => ReconcileOutcome::UnknownResource,
            }
        },
        KeyClass::Dirty { key: _ } => {
            proof {
                assert forall|k: Seq<char>| expired_key@ != spec_tombstone_key(k) by {
                    crate::keyspace::lemma_scheme_round_trip(k);
                }
            }
            ReconcileOutcome::Ignored
        },
        KeyClass::Live { key: _ } => {
            proof {
                assert forall|k: Seq<char>| expired_key@ != spec_tombstone_key(k) by {
                    crate::keyspace::lemma_scheme_round_trip(k);
                }
            }
            ReconcileOutcome::Ignored
        },
    }
}

} // verus!
