//! The cache backend's keyed state, as the protocol sees it.
//!
//! A [`KeySpace`] maps each resource key to its [`ResourceEntry`]. A key the
//! cache has never seen maps to the empty entry, so the table and the
//! per-key state machine together give every request a defined meaning. The
//! embedding program keeps the real backend in step with these transitions;
//! the backend's per-key atomicity is what lets each transition be read as
//! one step.

use vstd::prelude::*;

use crate::entry::{
    spec_delete_state, spec_expire_tombstone_state, spec_flush_commit_state, spec_put_state,
    spec_read, spec_seed_dirty_state, spec_seed_live_state, EntryView, PutOutcome, ReadOutcome,
    ResourceEntry,
};
use crate::models::{PostResponse, UpdatePost};

verus! {

/// First-match lookup of an entry by resource key.
pub open spec fn spec_ks_lookup(entries: Seq<(String, ResourceEntry)>, k: Seq<char>) -> Option<
    EntryView,
>
    decreases entries.len(),
{
    if entries.len() == 0 {
        None
    } else if entries[0].0@ == k {
        Some(entries[0].1@)
    } else {
        spec_ks_lookup(entries.skip(1), k)
    }
}

/// No row serves the key.
pub open spec fn spec_ks_no_key(entries: Seq<(String, ResourceEntry)>, k: Seq<char>) -> bool {
    forall|j: int| 0 <= j < entries.len() ==> entries[j].0@ != k
}

/// Every key appears at most once: the table is a map.
pub open spec fn spec_ks_keys_unique(entries: Seq<(String, ResourceEntry)>) -> bool {
    forall|i: int, j: int| 0 <= i < j < entries.len() ==> entries[i].0@ != entries[j].0@
}

/// Every stored entry satisfies the protocol invariant.
pub open spec fn spec_ks_all_wf(entries: Seq<(String, ResourceEntry)>) -> bool {
    forall|i: int| 0 <= i < entries.len() ==> (#[trigger] entries[i].1)@.wf()
}

proof fn lemma_ks_absent(entries: Seq<(String, ResourceEntry)>, k: Seq<char>)
    requires
        spec_ks_no_key(entries, k),
    ensures
        spec_ks_lookup(entries, k) is None,
    decreases entries.len(),
{
    if entries.len() > 0 {
        assert(forall|j: int|
            0 <= j < entries.skip(1).len() ==> entries.skip(1)[j] == entries[j + 1]);
        lemma_ks_absent(entries.skip(1), k);
    }
}

proof fn lemma_ks_found(entries: Seq<(String, ResourceEntry)>, i: int)
    requires
        0 <= i < entries.len(),
        forall|j: int| 0 <= j < i ==> entries[j].0@ != entries[i].0@,
    ensures
        spec_ks_lookup(entries, entries[i].0@) == Some(entries[i].1@),
    decreases i,
{
    if i > 0 {
        assert(forall|j: int|
            0 <= j < entries.skip(1).len() ==> entries.skip(1)[j] == entries[j + 1]);
        lemma_ks_found(entries.skip(1), i - 1);
    }
}

proof fn lemma_ks_remove(entries: Seq<(String, ResourceEntry)>, i: int, k: Seq<char>)
    requires
        spec_ks_keys_unique(entries),
        0 <= i < entries.len(),
    ensures
        spec_ks_lookup(entries.remove(i), k) == if k == entries[i].0@ {
            Option::<EntryView>::None
        } else {
            spec_ks_lookup(entries, k)
        },
        spec_ks_no_key(entries.remove(i), entries[i].0@),
    decreases i,
{
    let key = entries[i].0@;
    if k == key {
        assert forall|j: int| 0 <= j < entries.remove(i).len() implies entries.remove(i)[j].0@
            != key by {
            let j0 = if j < i {
                j
            } else {
                j + 1
            };
            assert(entries.remove(i)[j] == entries[j0]);
        }
        lemma_ks_absent(entries.remove(i), key);
    } else {
        if i == 0 {
            assert(entries.remove(0) =~= entries.skip(1));
        } else {
            assert(entries.remove(i)[0] == entries[0]);
            assert(entries.remove(i).skip(1) =~= entries.skip(1).remove(i - 1));
            assert(forall|a: int, b: int|
                0 <= a < b < entries.skip(1).len() ==> entries.skip(1)[a].0@ != entries.skip(
                    1,
                )[b].0@);
            lemma_ks_remove(entries.skip(1), i - 1, k);
        }
    }
}

/// The table the protocol works on.
pub struct KeySpace {
    pub entries: Vec<(String, ResourceEntry)>,
}

impl KeySpace {
    /// Keys are unique and every entry satisfies the protocol invariant.
    pub open spec fn wf(&self) -> bool {
        spec_ks_keys_unique(self.entries@) && spec_ks_all_wf(self.entries@)
    }

    /// The entry a resource key maps to; a key never seen maps to the empty
    /// entry.
    pub open spec fn spec_entry(&self, k: Seq<char>) -> EntryView {
        match spec_ks_lookup(self.entries@, k) {
            Some(e) => e,
            None => EntryView::empty(),
        }
    }

    /// An empty key space: every key maps to the empty entry.
    pub fn new() -> (ks: KeySpace)
        ensures
            ks.wf(),
            forall|k: Seq<char>| ks.spec_entry(k) == EntryView::empty(),
    {
        let ks = KeySpace { entries: Vec::new() };
        proof {
            assert forall|k: Seq<char>| ks.spec_entry(k) == EntryView::empty() by {
                lemma_ks_absent(ks.entries@, k);
            }
        }
        ks
    }

    /// The index of the row serving the key, if one exists.
    fn find_index(&self, key: &str) -> (r: Option<usize>)
        ensures
            match r {
                Some(i) => i < self.entries.len() && self.entries@[i as int].0@ == key@ && forall|
                    j: int,
                |
                    0 <= j < i ==> self.entries@[j].0@ != key@,
                None => spec_ks_no_key(self.entries@, key@),
            },
    {
        let needle = String::from_str(key);
        let mut i: usize = 0;
        while i < self.entries.len()
            invariant
                i <= self.entries.len(),
                needle@ == key@,
                forall|j: int| 0 <= j < i ==> self.entries@[j].0@ != key@,
            decreases self.entries.len() - i,
        {
            if self.entries[i].0 == needle {
                return Some(i);
            }
            i = i + 1;
        }
        None
    }

    /// Removes and returns the key's entry (the empty entry for a key never
    /// seen), leaving the key unmapped.
    fn take_entry(&mut self, key: &str) -> (e: ResourceEntry)
        requires
            old(self).wf(),
        ensures
            final(self).wf(),
            spec_ks_no_key(final(self).entries@, key@),
            e@ == old(self).spec_entry(key@),
            e@.wf(),
            forall|k: Seq<char>|
                k != key@ ==> spec_ks_lookup(final(self).entries@, k) == spec_ks_lookup(
                    old(self).entries@,
                    k,
                ),
    {
        match self.find_index(key) {
            None => {
                proof {
                    lemma_ks_absent(self.entries@, key@);
                }
                ResourceEntry::empty()
            },
            Some(i) => {
                proof {
                    lemma_ks_found(self.entries@, i as int);
                    assert(self.entries@[i as int].1@.wf());
                    assert forall|k: Seq<char>| true implies spec_ks_lookup(
                        self.entries@.remove(i as int),
                        k,
                    ) == if k == self.entries@[i as int].0@ {
                        Option::<EntryView>::None
                    } else {
                        spec_ks_lookup(self.entries@, k)
                    } by {
                        lemma_ks_remove(self.entries@, i as int, k);
                    }
                    lemma_ks_remove(self.entries@, i as int, key@);
                    assert forall|a: int, b: int|
                        0 <= a < b < self.entries@.remove(i as int).len() implies self.entries@
                        .remove(i as int)[a].0@ != self.entries@.remove(i as int)[b].0@ by {
                        let a0 = if a < i as int {
                            a
                        } else {
                            a + 1
                        };
                        let b0 = if b < i as int {
                            b
                        } else {
                            b + 1
                        };
                        assert(self.entries@.remove(i as int)[a] == self.entries@[a0]);
                        assert(self.entries@.remove(i as int)[b] == self.entries@[b0]);
                    }
                    assert forall|j: int| 0 <= j < self.entries@.remove(i as int).len() implies (
                    #[trigger] self.entries@.remove(i as int)[j].1)@.wf() by {
                        let j0 = if j < i as int {
                            j
                        } else {
                            j + 1
                        };
                        assert(self.entries@.remove(i as int)[j] == self.entries@[j0]);
                        assert(self.entries@[j0].1@.wf());
                    }
                }
                let (_k, e) = self.entries.remove(i);
                e
            },
        }
    }

    /// Maps the key to the entry. The key must be unmapped, as it is after
    /// [`Self::take_entry`].
    fn put_entry(&mut self, key: &str, e: ResourceEntry)
        requires
            old(self).wf(),
            spec_ks_no_key(old(self).entries@, key@),
            e@.wf(),
        ensures
            final(self).wf(),
            final(self).spec_entry(key@) == e@,
            forall|k: Seq<char>|
                k != key@ ==> spec_ks_lookup(final(self).entries@, k) == spec_ks_lookup(
                    old(self).entries@,
                    k,
                ),
    {
        let ghost pre = self.entries@;
        self.entries.insert(0, (String::from_str(key), e));
        proof {
            assert(self.entries@[0].0@ == key@);
            assert(self.entries@[0].1 == e);
            assert(self.entries@.skip(1) =~= pre);
            assert(spec_ks_lookup(self.entries@, key@) == Some(e@));
            assert forall|k: Seq<char>| k != key@ implies spec_ks_lookup(self.entries@, k)
                == spec_ks_lookup(pre, k) by {
                assert(self.entries@[0].0@ != k);
            }
            assert forall|a: int, b: int|
                0 <= a < b < self.entries@.len() implies self.entries@[a].0@
                != self.entries@[b].0@ by {
                if a == 0 {
                    assert(pre[b - 1].0@ != key@);
                    assert(self.entries@[b] == pre[b - 1]);
                } else {
                    assert(self.entries@[a] == pre[a - 1]);
                    assert(self.entries@[b] == pre[b - 1]);
                }
            }
            assert forall|j: int| 0 <= j < self.entries@.len() implies (
            #[trigger] self.entries@[j].1)@.wf() by {
                if j > 0 {
                    assert(self.entries@[j] == pre[j - 1]);
                    assert(pre[j - 1].1@.wf());
                }
            }
        }
    }

    /// Serves a read on the key.
    pub fn read(&self, key: &str) -> (r: ReadOutcome)
        ensures
            match r {
                ReadOutcome::NotFound => self.spec_entry(key@).tombstone && spec_read(
                    self.spec_entry(key@),
                ) is None,
                ReadOutcome::Hit { payload } => spec_read(self.spec_entry(key@)) == Some(payload@),
                ReadOutcome::Miss => !self.spec_entry(key@).tombstone && spec_read(
                    self.spec_entry(key@),
                ) is None,
            },
    {
        match self.find_index(key) {
            None => {
                proof {
                    lemma_ks_absent(self.entries@, key@);
                }
                ReadOutcome::Miss
            },
            Some(i) => {
                proof {
                    lemma_ks_found(self.entries@, i as int);
                }
                self.entries[i].1.read()
            },
        }
    }

    /// Accepts a write on the key: the update is merged into the freshest
    /// base and parked in the dirty slot, and the live slot is invalidated.
    pub fn put(&mut self, key: &str, update: &UpdatePost) -> (r: PutOutcome)
        requires
            old(self).wf(),
        ensures
            final(self).wf(),
            final(self).spec_entry(key@) == spec_put_state(old(self).spec_entry(key@), update@),
            forall|k: Seq<char>|
                k != key@ ==> final(self).spec_entry(k) == old(self).spec_entry(k),
            match r {
                PutOutcome::NotFound => old(self).spec_entry(key@).tombstone,
                PutOutcome::Merged { payload } => !old(self).spec_entry(key@).tombstone
                    && spec_read(old(self).spec_entry(key@)) is Some && payload@
                    == crate::merge::spec_merge(
                    spec_read(old(self).spec_entry(key@))->0,
                    update@,
                ),
                PutOutcome::Forward => !old(self).spec_entry(key@).tombstone && spec_read(
                    old(self).spec_entry(key@),
                ) is None,
            },
    {
        let mut e = self.take_entry(key);
        let r = e.put(update);
        self.put_entry(key, e);
        r
    }

    /// Accepts a delete on the key: both payload slots are dropped and the
    /// tombstone is planted.
    pub fn delete(&mut self, key: &str)
        requires
            old(self).wf(),
        ensures
            final(self).wf(),
            final(self).spec_entry(key@) == spec_delete_state(old(self).spec_entry(key@)),
            forall|k: Seq<char>|
                k != key@ ==> final(self).spec_entry(k) == old(self).spec_entry(k),
    {
        let mut e = self.take_entry(key);
        e.delete();
        self.put_entry(key, e);
    }

    /// Seeds the key's live slot with what the origin's read path returned.
    pub fn seed_live(&mut self, key: &str, payload: PostResponse)
        requires
            old(self).wf(),
        ensures
            final(self).wf(),
            final(self).spec_entry(key@) == spec_seed_live_state(
                old(self).spec_entry(key@),
                payload@,
            ),
            forall|k: Seq<char>|
                k != key@ ==> final(self).spec_entry(k) == old(self).spec_entry(k),
    {
        let mut e = self.take_entry(key);
        e.seed_live(payload);
        self.put_entry(key, e);
    }

    /// Seeds the key's dirty slot with the representation a forwarded write
    /// produced at the origin.
    pub fn seed_dirty(&mut self, key: &str, payload: PostResponse)
        requires
            old(self).wf(),
        ensures
            final(self).wf(),
            final(self).spec_entry(key@) == spec_seed_dirty_state(
                old(self).spec_entry(key@),
                payload@,
            ),
            forall|k: Seq<char>|
                k != key@ ==> final(self).spec_entry(k) == old(self).spec_entry(k),
    {
        let mut e = self.take_entry(key);
        e.seed_dirty(payload);
        self.put_entry(key, e);
    }

    /// The payload the flusher must persist for the key, if any write is
    /// pending.
    pub fn flush_payload(&self, key: &str) -> (r: Option<PostResponse>)
        ensures
            match r {
                Some(p) => self.spec_entry(key@).dirty == Some(p@),
                None => self.spec_entry(key@).dirty is None,
            },
    {
        match self.find_index(key) {
            None => {
                proof {
                    lemma_ks_absent(self.entries@, key@);
                }
                None
            },
            Some(i) => {
                proof {
                    lemma_ks_found(self.entries@, i as int);
                }
                self.entries[i].1.flush_payload()
            },
        }
    }

    /// Commits a successful flush of the key: the persisted payload moves
    /// from the dirty slot to the live slot.
    pub fn flush_commit(&mut self, key: &str)
        requires
            old(self).wf(),
        ensures
            final(self).wf(),
            final(self).spec_entry(key@) == spec_flush_commit_state(old(self).spec_entry(key@)),
            forall|k: Seq<char>|
                k != key@ ==> final(self).spec_entry(k) == old(self).spec_entry(k),
    {
        let mut e = self.take_entry(key);
        e.flush_commit();
        self.put_entry(key, e);
    }

    /// Clears the key's tombstone once its expiration has been reconciled.
    pub fn expire_tombstone(&mut self, key: &str)
        requires
            old(self).wf(),
        ensures
            final(self).wf(),
            final(self).spec_entry(key@) == spec_expire_tombstone_state(
                old(self).spec_entry(key@),
            ),
            forall|k: Seq<char>|
                k != key@ ==> final(self).spec_entry(k) == old(self).spec_entry(k),
    {
        let mut e = self.take_entry(key);
        e.expire_tombstone();
        self.put_entry(key, e);
    }
}

} // verus!
