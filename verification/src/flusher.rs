//! The write-behind flusher: one sweep persists every pending write.
//!
//! Each cycle walks the key space, and for every dirty slot applies exactly
//! one merge-update to the origin store — however many writes were accepted
//! on that key since the last sweep, only their latest merged value is
//! persisted. On success the payload moves from the dirty slot back to the
//! live slot; a slot that is no longer dirty is skipped as a no-op. The
//! embedding program runs one sweep per flush interval; when its origin call
//! fails it simply does not commit that key, so the payload survives for the
//! next sweep.

use vstd::prelude::*;

use crate::entry::{spec_flush_commit_state, EntryView, ResourceEntry};
use crate::models::{PostResponse, PostResponseView, UpdatePost, UpdatePostView};
use crate::origin::{spec_row_merge, OriginTable};
use crate::store::KeySpace;

verus! {

/// The merge-update a flushed payload turns into: the payload's title and
/// content, both present, keyed by the id the payload carries.
pub open spec fn spec_flush_update(p: PostResponseView) -> UpdatePostView {
    UpdatePostView { title: Some(p.title), content: Some(p.content) }
}

/// Turns a flushed cache payload into the origin store's merge-update.
pub fn flush_update_of(payload: &PostResponse) -> (u: UpdatePost)
    ensures
        u@ == spec_flush_update(payload@),
{
    UpdatePost { title: Some(payload.title.clone()), content: Some(payload.content.clone()) }
}

/// Persists one flushed payload: the origin row carrying the payload's id
/// takes the payload's title and content. With no such row nothing changes,
/// which a sweep tolerates as success.
pub fn callback(origin: &mut OriginTable, payload: &PostResponse) -> (r: bool)
    requires
        old(origin).wf(),
    ensures
        final(origin).wf(),
        r == (old(origin).spec_row(payload@.id) is Some),
        final(origin).spec_row(payload@.id) == match old(origin).spec_row(payload@.id) {
            Some(row) => Some(spec_row_merge(row, spec_flush_update(payload@))),
            None => None::<crate::models::PostView>,
        },
        forall|k: int|
            k != payload@.id ==> final(origin).spec_row(k) == old(origin).spec_row(k),
{
    let update = flush_update_of(payload);
    origin.merge_update(payload.id, &update)
}

/// The ids of the pending writes a sweep will persist, in table order.
pub open spec fn spec_dirty_ids(entries: Seq<(String, ResourceEntry)>) -> Seq<int>
    decreases entries.len(),
{
    if entries.len() == 0 {
        Seq::empty()
    } else {
        spec_dirty_ids(entries.drop_last()) + (if entries.last().1@.dirty is Some {
            seq![entries.last().1@.dirty->0.id]
        } else {
            Seq::empty()
        })
    }
}

/// Some pending write in the table carries the id.
pub open spec fn spec_has_dirty_id(entries: Seq<(String, ResourceEntry)>, id: int) -> bool {
    exists|j: int|
        0 <= j < entries.len() && (#[trigger] entries[j].1)@.dirty is Some
            && entries[j].1@.dirty->0.id == id
}

/// One sweep of the write-behind flusher over the whole key space.
///
/// Afterwards no slot is dirty: every entry stands as its flush commit
/// leaves it. Each pending write was applied to the origin store exactly
/// once — the returned ids list one origin call per dirty slot, in table
/// order — and a row whose id no pending write carried is untouched. The
/// sweep assumes what the key scheme provides: distinct keys hold distinct
/// resources, so no two pending writes carry one id.
pub fn write_behind(cache: &mut KeySpace, origin: &mut OriginTable) -> (flushed: Vec<i64>)
    requires
        old(cache).wf(),
        old(origin).wf(),
        forall|i: int, j: int|
            0 <= i < j < old(cache).entries@.len() && (#[trigger] old(
                cache,
            ).entries@[i].1)@.dirty is Some && (#[trigger] old(cache).entries@[j].1)@.dirty
                is Some ==> old(cache).entries@[i].1@.dirty->0.id
                != old(cache).entries@[j].1@.dirty->0.id,
    ensures
        final(cache).wf(),
        final(origin).wf(),
        final(cache).entries@.len() == old(cache).entries@.len(),
        forall|i: int|
            0 <= i < old(cache).entries@.len() ==> (#[trigger] final(cache).entries@[i]).0@ == old(
                cache,
            ).entries@[i].0@,
        forall|i: int|
            0 <= i < old(cache).entries@.len() ==> (#[trigger] final(cache).entries@[i]).1@
                == spec_flush_commit_state(old(cache).entries@[i].1@),
        flushed@.map_values(|x: i64| x as int) == spec_dirty_ids(old(cache).entries@),
        forall|i: int|
            0 <= i < old(cache).entries@.len() && (#[trigger] old(cache).entries@[i].1)@.dirty
                is Some ==> final(origin).spec_row(old(cache).entries@[i].1@.dirty->0.id) == match
                old(origin).spec_row(old(cache).entries@[i].1@.dirty->0.id) {
                Some(row) => Some(
                    spec_row_merge(row, spec_flush_update(old(cache).entries@[i].1@.dirty->0)),
                ),
                None => None::<crate::models::PostView>,
            },
        forall|id: int|
            !spec_has_dirty_id(old(cache).entries@, id) ==> final(origin).spec_row(id) == old(
                origin,
            ).spec_row(id),
{
    let ghost entries0 = cache.entries@;
    let ghost origin0 = *origin;
    let mut flushed: Vec<i64> = Vec::new();
    let mut i: usize = 0;
    proof {
        assert(spec_dirty_ids(entries0.take(0)) =~= Seq::<int>::empty());
        assert(flushed@.map_values(|x: i64| x as int) =~= Seq::<int>::empty());
    }
    while i < cache.entries.len()
        invariant
            origin.wf(),
            i <= cache.entries.len(),
            cache.entries@.len() == entries0.len(),
            crate::store::spec_ks_keys_unique(entries0),
            forall|a: int, b: int|
                0 <= a < b < entries0.len() && (#[trigger] entries0[a].1)@.dirty is Some && (
                #[trigger] entries0[b].1)@.dirty is Some ==> entries0[a].1@.dirty->0.id
                    != entries0[b].1@.dirty->0.id,
            forall|j: int|
                0 <= j < entries0.len() ==> (#[trigger] cache.entries@[j]).0@ == entries0[j].0@,
            forall|j: int| 0 <= j < entries0.len() ==> (#[trigger] entries0[j].1)@.wf(),
            forall|j: int|
                0 <= j < i ==> (#[trigger] cache.entries@[j]).1@ == spec_flush_commit_state(
                    entries0[j].1@,
                ),
            forall|j: int|
                i <= j < entries0.len() ==> (#[trigger] cache.entries@[j]).1 == entries0[j].1,
            flushed@.map_values(|x: i64| x as int) == spec_dirty_ids(entries0.take(i as int)),
            forall|j: int|
                0 <= j < i && (#[trigger] entries0[j].1)@.dirty is Some ==> origin.spec_row(
                    entries0[j].1@.dirty->0.id,
                ) == match origin0.spec_row(entries0[j].1@.dirty->0.id) {
                    Some(row) => Some(
                        spec_row_merge(row, spec_flush_update(entries0[j].1@.dirty->0)),
                    ),
                    None => None::<crate::models::PostView>,
                },
            forall|id: int|
                !spec_has_dirty_id(entries0.take(i as int), id) ==> origin.spec_row(id)
                    == origin0.spec_row(id),
        decreases cache.entries.len() - i,
    {
        let ghost prev_flushed = flushed@;
        let payload_opt = cache.entries[i].1.flush_payload();
        proof {
            assert(entries0.take(i as int + 1).drop_last() =~= entries0.take(i as int));
            assert(entries0.take(i as int + 1).last() == entries0[i as int]);
        }
        match payload_opt {
            None => {
                proof {
                    assert(spec_dirty_ids(entries0.take(i as int + 1)) =~= spec_dirty_ids(
                        entries0.take(i as int),
                    ));
                    assert forall|id: int|
                        !spec_has_dirty_id(entries0.take(i as int + 1), id) implies origin
                        .spec_row(id) == origin0.spec_row(id) by {
                        assert forall|j: int|
                            0 <= j < i as int && (#[trigger] entries0.take(i as int)[j].1)@.dirty
                                is Some && entries0.take(i as int)[j].1@.dirty->0.id
                                == id implies false by {
                            assert(entries0.take(i as int + 1)[j] == entries0[j]);
                        }
                        assert(!spec_has_dirty_id(entries0.take(i as int), id));
                    }
                }
            },
            Some(payload) => {
                let ghost id = payload@.id;
                proof {
                    assert(cache.entries@[i as int].1 == entries0[i as int].1);
                    assert(entries0[i as int].1@.dirty == Some(payload@));
                    assert(spec_has_dirty_id(entries0.take(i as int + 1), id)) by {
                        assert(entries0.take(i as int + 1)[i as int] == entries0[i as int]);
                    }
                    assert(!spec_has_dirty_id(entries0.take(i as int), id)) by {
                        if spec_has_dirty_id(entries0.take(i as int), id) {
                            let j = choose|j: int|
                                0 <= j < i as int && (#[trigger] entries0.take(
                                    i as int,
                                )[j].1)@.dirty is Some && entries0.take(i as int)[j].1@.dirty->0.id
                                    == id;
                            assert(entries0.take(i as int)[j] == entries0[j]);
                            assert(entries0[j].1@.dirty->0.id != entries0[i as int].1@.dirty->0.id);
                        }
                    }
                    assert(origin.spec_row(id) == origin0.spec_row(id));
                }
                let _ = callback(origin, &payload);
                let key_i = cache.entries[i].0.clone();
                let mut committed = cache.entries[i].1.clone();
                committed.flush_commit();
                cache.entries[i] = (key_i, committed);
                flushed.push(payload.id);
                proof {
                    assert(spec_dirty_ids(entries0.take(i as int + 1)) =~= spec_dirty_ids(
                        entries0.take(i as int),
                    ) + seq![id]);
                    assert(flushed@.map_values(|x: i64| x as int) =~= prev_flushed.map_values(
                        |x: i64| x as int,
                    ) + seq![id]);
                    assert forall|j: int|
                        0 <= j < i + 1 && (#[trigger] entries0[j].1)@.dirty is Some implies origin
                        .spec_row(entries0[j].1@.dirty->0.id) == match origin0.spec_row(
                        entries0[j].1@.dirty->0.id,
                    ) {
                        Some(row) => Some(
                            spec_row_merge(row, spec_flush_update(entries0[j].1@.dirty->0)),
                        ),
                        None => None::<crate::models::PostView>,
                    } by {
                        if j < i as int {
                            assert(entries0[j].1@.dirty->0.id != id);
                        }
                    }
                    assert forall|idq: int|
                        !spec_has_dirty_id(entries0.take(i as int + 1), idq) implies origin
                        .spec_row(idq) == origin0.spec_row(idq) by {
                        assert(entries0.take(i as int + 1)[i as int] == entries0[i as int]);
                        assert(idq != id);
                        assert forall|j: int|
                            0 <= j < i as int && (#[trigger] entries0.take(i as int)[j].1)@.dirty
                                is Some && entries0.take(i as int)[j].1@.dirty->0.id
                                == idq implies false by {
                            assert(entries0.take(i as int + 1)[j] == entries0[j]);
                        }
                        assert(!spec_has_dirty_id(entries0.take(i as int), idq));
                    }
                }
            },
        }
        i = i + 1;
    }
    proof {
        assert(entries0.take(entries0.len() as int) =~= entries0);
        assert forall|a: int, b: int|
            0 <= a < b < cache.entries@.len() implies (#[trigger] cache.entries@[a]).0@ != (
        #[trigger] cache.entries@[b]).0@ by {
            assert(entries0[a].0@ != entries0[b].0@);
        }
        assert forall|j: int| 0 <= j < cache.entries@.len() implies (
        #[trigger] cache.entries@[j].1)@.wf() by {
            assert(entries0[j].1@.wf());
        }
    }
    flushed
}

} // verus!
