//! The protocol's laws, proved over the same spec functions the executable
//! contracts use.

use vstd::prelude::*;

use crate::entry::{
    spec_delete_state, spec_flush_commit_state, spec_put_state, spec_read, spec_seed_dirty_state,
    spec_seed_live_state, EntryView,
};
use crate::interceptor::{spec_step_response, spec_step_state, InterceptView, MethodView};
use crate::merge::spec_merge;
use crate::models::{PostResponseView, UpdatePostView};

verus! {

/// After an accepted write, an immediate read on the same key serves
/// exactly the merged representation: a field the update named carries the
/// update's value, a field it left out carries the pre-write value, and
/// everything else of the base representation is untouched.
pub proof fn lemma_put_then_get(e: EntryView, u: UpdatePostView)
    requires
        !e.tombstone,
        spec_read(e) is Some,
    ensures
        ({
            let base = spec_read(e)->0;
            let merged = spec_merge(base, u);
            &&& spec_step_response(spec_step_state(e, MethodView::Put { update: u }), MethodView::Get)
                == InterceptView::Respond { status: 200, body: Some(merged) }
            &&& (u.title is Some ==> merged.title == u.title->0)
            &&& (u.title is None ==> merged.title == base.title)
            &&& (u.content is Some ==> merged.content == u.content->0)
            &&& (u.content is None ==> merged.content == base.content)
            &&& merged.id == base.id && merged.user_id == base.user_id
            &&& merged.created_at == base.created_at && merged.updated_at == base.updated_at
            &&& merged.related_posts == base.related_posts
        }),
{
}

/// A delete shields the key: while the tombstone stands, every read answers
/// not-found — also after a write attempt, after either slot would have
/// been reseeded by a racing cold read or forwarded write, and after a
/// flush sweep passes the key. Only the tombstone's own expiry ends this.
pub proof fn lemma_delete_shields_reads(e: EntryView, p: PostResponseView, u: UpdatePostView)
    ensures
        ({
            let d = spec_delete_state(e);
            let shielded = InterceptView::Respond { status: 404, body: None };
            &&& spec_step_response(d, MethodView::Get) == shielded
            &&& spec_step_response(spec_put_state(d, u), MethodView::Get) == shielded
            &&& spec_step_response(spec_seed_live_state(d, p), MethodView::Get) == shielded
            &&& spec_step_response(spec_seed_dirty_state(d, p), MethodView::Get) == shielded
            &&& spec_step_response(spec_flush_commit_state(d), MethodView::Get) == shielded
        }),
{
}

/// Iterated writes: the entry after each accepted write in turn.
pub open spec fn spec_put_seq(e: EntryView, us: Seq<UpdatePostView>) -> EntryView
    decreases us.len(),
{
    if us.len() == 0 {
        e
    } else {
        spec_put_seq(spec_put_state(e, us[0]), us.skip(1))
    }
}

/// Iterated merges: the representation after each update in turn.
pub open spec fn spec_merge_seq(base: PostResponseView, us: Seq<UpdatePostView>) -> PostResponseView
    decreases us.len(),
{
    if us.len() == 0 {
        base
    } else {
        spec_merge_seq(spec_merge(base, us[0]), us.skip(1))
    }
}

/// Writes coalesce: however many writes land on a key between two flush
/// sweeps, the key ends with a single pending payload — the latest merged
/// representation — and nothing else. One sweep then makes exactly one
/// origin call for the key, carrying that payload ([`crate::flusher::write_behind`]
/// persists each dirty slot exactly once).
pub proof fn lemma_puts_coalesce(e: EntryView, us: Seq<UpdatePostView>)
    requires
        !e.tombstone,
        spec_read(e) is Some,
        us.len() > 0,
    ensures
        spec_put_seq(e, us) == (EntryView {
            live: None,
            dirty: Some(spec_merge_seq(spec_read(e)->0, us)),
            tombstone: false,
        }),
    decreases us.len(),
{
    let e1 = spec_put_state(e, us[0]);
    let base1 = spec_merge(spec_read(e)->0, us[0]);
    assert(e1 == EntryView { live: None, dirty: Some(base1), tombstone: false });
    if us.len() == 1 {
        assert(us.skip(1).len() == 0);
        assert(spec_put_seq(e1, us.skip(1)) == e1);
        assert(spec_merge_seq(base1, us.skip(1)) == base1);
    } else {
        lemma_puts_coalesce(e1, us.skip(1));
    }
}

/// A flush that finds its key no longer dirty — deleted or already flushed
/// by a concurrent sweep — changes nothing: it does not fail, and it does
/// not resurrect the live slot.
pub proof fn lemma_flush_idempotent(e: EntryView)
    requires
        e.dirty is None,
    ensures
        spec_flush_commit_state(e) == e,
        spec_flush_commit_state(spec_delete_state(e)) == spec_delete_state(e),
        spec_read(spec_flush_commit_state(spec_delete_state(e))) is None,
{
}

} // verus!
