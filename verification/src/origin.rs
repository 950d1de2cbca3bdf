//! A model of the origin store's resource table.
//!
//! The flusher and the reconciler change durable state only through the
//! merge-update and delete operations below. This table gives those
//! operations exact meaning — rows keyed by resource id, looked up by first
//! match — so the background tasks' effect on durable state can be stated
//! and proved. The embedding program mirrors each operation onto the real
//! relational store.

use vstd::prelude::*;

use crate::models::{Post, PostView, UpdatePost, UpdatePostView};

verus! {

/// First-match lookup of a row by id.
pub open spec fn spec_lookup(rows: Seq<Post>, id: int) -> Option<PostView>
    decreases rows.len(),
{
    if rows.len() == 0 {
        None
    } else if rows[0]@.id == id {
        Some(rows[0]@)
    } else {
        spec_lookup(rows.skip(1), id)
    }
}

/// No row carries the id.
pub open spec fn spec_no_id(rows: Seq<Post>, id: int) -> bool {
    forall|j: int| 0 <= j < rows.len() ==> rows[j]@.id != id
}

/// Every row carries its own id: the table is a map.
pub open spec fn spec_ids_unique(rows: Seq<Post>) -> bool {
    forall|i: int, j: int| 0 <= i < j < rows.len() ==> rows[i]@.id != rows[j]@.id
}

/// What a merge-update leaves of a row: the update's present fields
/// overwrite, absent fields keep the row's values, everything else stays.
pub open spec fn spec_row_merge(row: PostView, u: UpdatePostView) -> PostView {
    PostView {
        id: row.id,
        title: match u.title {
            Some(t) => t,
            None => row.title,
        },
        content: match u.content {
            Some(c) => c,
            None => row.content,
        },
        created_at: row.created_at,
        updated_at: row.updated_at,
        user_id: row.user_id,
    }
}

proof fn lemma_lookup_absent(rows: Seq<Post>, id: int)
    requires
        spec_no_id(rows, id),
    ensures
        spec_lookup(rows, id) is None,
    decreases rows.len(),
{
    if rows.len() > 0 {
        assert(forall|j: int| 0 <= j < rows.skip(1).len() ==> rows.skip(1)[j] == rows[j + 1]);
        lemma_lookup_absent(rows.skip(1), id);
    }
}

proof fn lemma_lookup_found(rows: Seq<Post>, i: int)
    requires
        0 <= i < rows.len(),
        forall|j: int| 0 <= j < i ==> rows[j]@.id != rows[i]@.id,
    ensures
        spec_lookup(rows, rows[i]@.id) == Some(rows[i]@),
    decreases i,
{
    if i > 0 {
        assert(forall|j: int| 0 <= j < rows.skip(1).len() ==> rows.skip(1)[j] == rows[j + 1]);
        lemma_lookup_found(rows.skip(1), i - 1);
    }
}

proof fn lemma_lookup_remove(rows: Seq<Post>, i: int, k: int)
    requires
        spec_ids_unique(rows),
        0 <= i < rows.len(),
    ensures
        spec_lookup(rows.remove(i), k) == if k == rows[i]@.id {
            Option::<PostView>::None
        } else {
            spec_lookup(rows, k)
        },
    decreases i,
{
    let id = rows[i]@.id;
    if i == 0 {
        assert(rows.remove(0) =~= rows.skip(1));
        if k == id {
            assert(spec_no_id(rows.skip(1), id));
            lemma_lookup_absent(rows.skip(1), id);
        }
    } else {
        assert(rows.remove(i).skip(1) =~= rows.skip(1).remove(i - 1));
        assert(rows.remove(i)[0] == rows[0]);
        assert(forall|a: int, b: int|
            0 <= a < b < rows.skip(1).len() ==> rows.skip(1)[a]@.id != rows.skip(1)[b]@.id);
        lemma_lookup_remove(rows.skip(1), i - 1, k);
    }
}

proof fn lemma_lookup_update(rows: Seq<Post>, i: int, p: Post, k: int)
    requires
        spec_ids_unique(rows),
        0 <= i < rows.len(),
        p@.id == rows[i]@.id,
    ensures
        spec_lookup(rows.update(i, p), k) == if k == p@.id {
            Some(p@)
        } else {
            spec_lookup(rows, k)
        },
    decreases i,
{
    let id = rows[i]@.id;
    if i == 0 {
        assert(rows.update(0, p)[0] == p);
        assert(rows.update(0, p).skip(1) =~= rows.skip(1));
        if k == id {
        } else {
        }
    } else {
        assert(rows.update(i, p)[0] == rows[0]);
        assert(rows.update(i, p).skip(1) =~= rows.skip(1).update(i - 1, p));
        assert(forall|a: int, b: int|
            0 <= a < b < rows.skip(1).len() ==> rows.skip(1)[a]@.id != rows.skip(1)[b]@.id);
        lemma_lookup_update(rows.skip(1), i - 1, p, k);
    }
}

proof fn lemma_lookup_push(rows: Seq<Post>, p: Post, k: int)
    ensures
        spec_lookup(rows.push(p), k) == match spec_lookup(rows, k) {
            Some(v) => Some(v),
            None => if p@.id == k {
                Some(p@)
            } else {
                None
            },
        },
    decreases rows.len(),
{
    if rows.len() == 0 {
        assert(rows.push(p)[0] == p);
        assert(rows.push(p).skip(1) =~= Seq::<Post>::empty());
        assert(spec_lookup(Seq::<Post>::empty(), k) is None);
    } else {
        assert(rows.push(p)[0] == rows[0]);
        assert(rows.push(p).skip(1) =~= rows.skip(1).push(p));
        lemma_lookup_push(rows.skip(1), p, k);
    }
}

/// The origin store's resource table: one row per id.
pub struct OriginTable {
    pub rows: Vec<Post>,
}

impl OriginTable {
    /// The table is a map: ids are unique.
    pub open spec fn wf(&self) -> bool {
        spec_ids_unique(self.rows@)
    }

    /// The row stored under an id.
    pub open spec fn spec_row(&self, id: int) -> Option<PostView> {
        spec_lookup(self.rows@, id)
    }

    /// An empty table.
    pub fn new() -> (t: OriginTable)
        ensures
            t.wf(),
            forall|id: int| t.spec_row(id) is None,
    {
        let t = OriginTable { rows: Vec::new() };
        proof {
            assert forall|id: int| t.spec_row(id) is None by {
                lemma_lookup_absent(t.rows@, id);
            }
        }
        t
    }

    /// The index of the row carrying the id, if one exists.
    fn find_index(&self, id: i64) -> (r: Option<usize>)
        ensures
            match r {
                Some(i) => i < self.rows.len() && self.rows@[i as int]@.id == id as int && forall|
                    j: int,
                |
                    0 <= j < i ==> self.rows@[j]@.id != id as int,
                None => spec_no_id(self.rows@, id as int),
            },
    {
        let mut i: usize = 0;
        while i < self.rows.len()
            invariant
                i <= self.rows.len(),
                forall|j: int| 0 <= j < i ==> self.rows@[j]@.id != id as int,
            decreases self.rows.len() - i,
        {
            if self.rows[i].id == id {
                return Some(i);
            }
            i = i + 1;
        }
        None
    }

    /// Reads a row by id.
    pub fn get(&self, id: i64) -> (r: Option<&Post>)
        ensures
            match r {
                Some(p) => self.spec_row(id as int) == Some(p@),
                None => self.spec_row(id as int) is None,
            },
    {
        match self.find_index(id) {
            Some(i) => {
                proof {
                    lemma_lookup_found(self.rows@, i as int);
                }
                Some(&self.rows[i])
            },
            None => {
                proof {
                    lemma_lookup_absent(self.rows@, id as int);
                }
                None
            },
        }
    }

    /// Inserts a new row. Refused when the id is already taken, as the
    /// store's key constraint would refuse it.
    pub fn insert(&mut self, post: Post) -> (r: bool)
        requires
            old(self).wf(),
        ensures
            final(self).wf(),
            r == (old(self).spec_row(post@.id) is None),
            r ==> final(self).spec_row(post@.id) == Some(post@),
            !r ==> final(self).rows@ == old(self).rows@,
            forall|k: int| k != post@.id ==> final(self).spec_row(k) == old(self).spec_row(k),
    {
        match self.find_index(post.id) {
            Some(i) => {
                proof {
                    lemma_lookup_found(self.rows@, i as int);
                }
                false
            },
            None => {
                proof {
                    lemma_lookup_absent(self.rows@, post@.id);
                    assert forall|k: int| true implies spec_lookup(self.rows@.push(post), k)
                        == match spec_lookup(self.rows@, k) {
                        Some(v) => Some(v),
                        None => if post@.id == k {
                            Some(post@)
                        } else {
                            None
                        },
                    } by {
                        lemma_lookup_push(self.rows@, post, k);
                    }
                }
                self.rows.push(post);
                true
            },
        }
    }

    /// Applies a merge-update to the row under the id: present fields of the
    /// update overwrite, absent fields stay. Returns whether a row was
    /// touched; with no such row the table is unchanged, which the flusher
    /// treats as success.
    pub fn merge_update(&mut self, id: i64, update: &UpdatePost) -> (r: bool)
        requires
            old(self).wf(),
        ensures
            final(self).wf(),
            r == (old(self).spec_row(id as int) is Some),
            final(self).spec_row(id as int) == match old(self).spec_row(id as int) {
                Some(row) => Some(spec_row_merge(row, update@)),
                None => None::<PostView>,
            },
            forall|k: int| k != id as int ==> final(self).spec_row(k) == old(self).spec_row(k),
    {
        match self.find_index(id) {
            None => {
                proof {
                    lemma_lookup_absent(self.rows@, id as int);
                }
                false
            },
            Some(i) => {
                proof {
                    lemma_lookup_found(self.rows@, i as int);
                }
                let old_row = &self.rows[i];
                let new_row = Post {
                    id: old_row.id,
                    title: match &update.title {
                        Some(t) => t.clone(),
                        None => old_row.title.clone(),
                    },
                    content: match &update.content {
                        Some(c) => c.clone(),
                        None => old_row.content.clone(),
                    },
                    created_at: old_row.created_at,
                    updated_at: old_row.updated_at,
                    user_id: old_row.user_id,
                };
                proof {
                    assert(new_row@ == spec_row_merge(self.rows@[i as int]@, update@));
                    assert forall|k: int| true implies spec_lookup(
                        self.rows@.update(i as int, new_row),
                        k,
                    ) == if k == new_row@.id {
                        Some(new_row@)
                    } else {
                        spec_lookup(self.rows@, k)
                    } by {
                        lemma_lookup_update(self.rows@, i as int, new_row, k);
                    }
                    assert forall|a: int, b: int|
                        0 <= a < b < self.rows@.update(i as int, new_row).len() implies self.rows@
                        .update(i as int, new_row)[a]@.id != self.rows@.update(
                        i as int,
                        new_row,
                    )[b]@.id by {
                        assert(self.rows@[a]@.id != self.rows@[b]@.id);
                    }
                }
                self.rows[i] = new_row;
                true
            },
        }
    }

    /// Deletes the row under the id. With no such row this is a no-op, as a
    /// repeated or late reconciliation must be.
    pub fn delete(&mut self, id: i64) -> (r: bool)
        requires
            old(self).wf(),
        ensures
            final(self).wf(),
            r == (old(self).spec_row(id as int) is Some),
            final(self).spec_row(id as int) is None,
            forall|k: int| k != id as int ==> final(self).spec_row(k) == old(self).spec_row(k),
    {
        match self.find_index(id) {
            None => {
                proof {
                    lemma_lookup_absent(self.rows@, id as int);
                }
                false
            },
            Some(i) => {
                proof {
                    lemma_lookup_found(self.rows@, i as int);
                    assert forall|k: int| true implies spec_lookup(
                        self.rows@.remove(i as int),
                        k,
                    ) == if k == self.rows@[i as int]@.id {
                        Option::<PostView>::None
                    } else {
                        spec_lookup(self.rows@, k)
                    } by {
                        lemma_lookup_remove(self.rows@, i as int, k);
                    }
                    assert forall|a: int, b: int|
                        0 <= a < b < self.rows@.remove(i as int).len() implies self.rows@.remove(
                        i as int,
                    )[a]@.id != self.rows@.remove(i as int)[b]@.id by {
                        let a0 = if a < i as int {
                            a
                        } else {
                            a + 1
                        };
                        let b0 = if b < i as int {
                            b
                        } else {
                            b + 1
                        };
                        assert(self.rows@.remove(i as int)[a] == self.rows@[a0]);
                        assert(self.rows@.remove(i as int)[b] == self.rows@[b0]);
                        assert(self.rows@[a0]@.id != self.rows@[b0]@.id);
                    }
                }
                let _ = self.rows.remove(i);
                true
            },
        }
    }
}

} // verus!
