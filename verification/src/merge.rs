//! The merge function: combines a base representation with a partial update.
//!
//! The write path never stores the raw update payload; it always stores the
//! result of merging the payload into the freshest base representation, so a
//! reader of the dirty slot sees a complete resource, never a half-applied
//! update.

use vstd::prelude::*;

use crate::models::{PostResponse, PostResponseView, UpdatePost, UpdatePostView};

verus! {

/// What merging means: a field present in the update overwrites the base's
/// field; an absent field keeps the base's value; every other part of the
/// representation is carried over unchanged.
pub open spec fn spec_merge(base: PostResponseView, upd: UpdatePostView) -> PostResponseView {
    PostResponseView {
        id: base.id,
        title: match upd.title {
            Some(t) => t,
            None => base.title,
        },
        content: match upd.content {
            Some(c) => c,
            None => base.content,
        },
        created_at: base.created_at,
        updated_at: base.updated_at,
        user_id: base.user_id,
        related_posts: base.related_posts,
    }
}

/// Merges a partial update into a base representation. The result is the
/// value the write path stores in the dirty slot and returns to the caller.
pub fn write_to_cache(base: PostResponse, update: &UpdatePost) -> (r: PostResponse)
    ensures
        r@ == spec_merge(base@, update@),
{
    let mut merged = base;
    match &update.title {
        Some(t) => {
            merged.title = t.clone();
        },
        None => {},
    }
    match &update.content {
        Some(c) => {
            merged.content = c.clone();
        },
        None => {},
    }
    merged
}

/// Two updates folded into one: a field the later update names wins, a
/// field only the earlier one names survives.
pub open spec fn spec_combine(u1: UpdatePostView, u2: UpdatePostView) -> UpdatePostView {
    UpdatePostView {
        title: if u2.title is Some {
            u2.title
        } else {
            u1.title
        },
        content: if u2.content is Some {
            u2.content
        } else {
            u1.content
        },
    }
}

/// Two successive merges collapse into one: applying `u1` and then `u2` to a
/// base gives the same representation as applying their combination once.
/// This is why coalescing updates between flushes loses nothing.
pub proof fn lemma_merge_composes(base: PostResponseView, u1: UpdatePostView, u2: UpdatePostView)
    ensures
        spec_merge(spec_merge(base, u1), u2) == spec_merge(base, spec_combine(u1, u2)),
{
}

} // verus!
