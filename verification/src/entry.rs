//! The per-resource state machine of the cache interceptor.
//!
//! One logical resource key owns three cache slots. A [`ResourceEntry`] is
//! the interceptor's picture of those slots; every request-path decision is
//! a transition on it. The embedding program reads the three physical keys
//! from the cache backend, builds the entry, runs one transition, and writes
//! the slots back as the entry then stands (a payload that fails to decode
//! is presented as an absent slot, so a corrupt slot falls through to the
//! cold path and is overwritten on repopulation).

use vstd::prelude::*;

use crate::merge::{spec_merge, write_to_cache};
use crate::models::{PostResponse, PostResponseView, UpdatePost, UpdatePostView};

verus! {

/// Spot image of an optional slot payload.
pub open spec fn opt_view(o: Option<PostResponse>) -> Option<PostResponseView> {
    match o {
        Some(p) => Some(p@),
        None => None,
    }
}

/// The three cache slots of one resource key, as the interceptor sees them.
pub struct ResourceEntry {
    /// Last cache-visible representation; kept only for read speed.
    pub live: Option<PostResponse>,
    /// An accepted write not yet persisted to the origin store.
    pub dirty: Option<PostResponse>,
    /// Whether an accepted delete awaits its deferred origin deletion.
    pub tombstone: bool,
}

/// Mathematical image of a [`ResourceEntry`].
pub struct EntryView {
    pub live: Option<PostResponseView>,
    pub dirty: Option<PostResponseView>,
    pub tombstone: bool,
}

impl EntryView {
    /// The protocol invariant: a tombstone clears both payload slots, so a
    /// deleted resource can be neither read back nor flushed back.
    pub open spec fn wf(self) -> bool {
        self.tombstone ==> self.live is None && self.dirty is None
    }

    /// The representation a read must serve: a tombstone hides everything,
    /// the dirty slot supersedes the live slot, and the live slot is the
    /// fallback. A read never returns the live payload while a dirty
    /// payload exists, or pending writes would silently vanish.
    pub open spec fn authoritative(self) -> Option<PostResponseView> {
        if self.tombstone {
            None
        } else if self.dirty is Some {
            self.dirty
        } else {
            self.live
        }
    }

    /// An entry with all three slots empty: what a never-seen key maps to.
    pub open spec fn empty() -> EntryView {
        EntryView { live: None, dirty: None, tombstone: false }
    }
}

impl View for ResourceEntry {
    type V = EntryView;

    open spec fn view(&self) -> EntryView {
        EntryView {
            live: opt_view(self.live),
            dirty: opt_view(self.dirty),
            tombstone: self.tombstone,
        }
    }
}

impl Clone for ResourceEntry {
    fn clone(&self) -> (r: Self)
        ensures
            r@ == self@,
    {
        ResourceEntry {
            live: match &self.live {
                Some(p) => Some(p.clone()),
                None => None,
            },
            dirty: match &self.dirty {
                Some(p) => Some(p.clone()),
                None => None,
            },
            tombstone: self.tombstone,
        }
    }
}

/// What a read serves.
pub enum ReadOutcome {
    /// A tombstone is active: the resource is logically absent.
    NotFound,
    /// Answered from the cache, dirty slot first.
    Hit { payload: PostResponse },
    /// No slot holds the resource: forward to the origin's read path and
    /// seed the live slot with what it returns.
    Miss,
}

/// What a read must serve, as a function of the entry alone.
pub open spec fn spec_read(e: EntryView) -> Option<PostResponseView> {
    e.authoritative()
}

/// What a write does to the entry.
pub open spec fn spec_put_state(e: EntryView, u: UpdatePostView) -> EntryView {
    if e.tombstone {
        e
    } else if e.dirty is Some {
        EntryView { live: None, dirty: Some(spec_merge(e.dirty->0, u)), tombstone: false }
    } else if e.live is Some {
        EntryView { live: None, dirty: Some(spec_merge(e.live->0, u)), tombstone: false }
    } else {
        e
    }
}

/// What a delete does to the entry: both payload slots are cleared and the
/// tombstone is set, in one protocol step.
pub open spec fn spec_delete_state(e: EntryView) -> EntryView {
    EntryView { live: None, dirty: None, tombstone: true }
}

/// What seeding the live slot after a cold read does: a tombstone refuses
/// the seed, so a deleted resource cannot be resurrected by a racing read.
pub open spec fn spec_seed_live_state(e: EntryView, p: PostResponseView) -> EntryView {
    if e.tombstone {
        e
    } else {
        EntryView { live: Some(p), dirty: e.dirty, tombstone: false }
    }
}

/// What seeding the dirty slot after a forwarded write does: the write
/// becomes the authoritative representation and the live slot is
/// invalidated; a tombstone refuses the seed.
pub open spec fn spec_seed_dirty_state(e: EntryView, p: PostResponseView) -> EntryView {
    if e.tombstone {
        e
    } else {
        EntryView { live: None, dirty: Some(p), tombstone: false }
    }
}

/// What committing a successful flush does: the persisted payload moves
/// from the dirty slot to the live slot. With no dirty payload there is
/// nothing to commit and the entry is untouched — in particular the live
/// slot is not resurrected.
pub open spec fn spec_flush_commit_state(e: EntryView) -> EntryView {
    if e.dirty is Some {
        EntryView { live: e.dirty, dirty: None, tombstone: e.tombstone }
    } else {
        e
    }
}

/// What a tombstone's expiration does to the entry: the marker goes away
/// and the key starts over empty.
pub open spec fn spec_expire_tombstone_state(e: EntryView) -> EntryView {
    EntryView { live: e.live, dirty: e.dirty, tombstone: false }
}

impl ResourceEntry {
    /// The entry of a key the cache has never seen.
    pub fn empty() -> (e: ResourceEntry)
        ensures
            e@ == EntryView::empty(),
    {
        ResourceEntry { live: None, dirty: None, tombstone: false }
    }

    /// Rebuilds an entry from raw slot reads. A tombstone wins over any
    /// leftover payload (a crash can leave one behind), so the entry always
    /// satisfies the protocol invariant.
    pub fn from_slots(
        live: Option<PostResponse>,
        dirty: Option<PostResponse>,
        tombstone: bool,
    ) -> (e: ResourceEntry)
        ensures
            e@.wf(),
            e@.tombstone == tombstone,
            !tombstone ==> e@.live == opt_view(live) && e@.dirty == opt_view(dirty),
    {
        if tombstone {
            ResourceEntry { live: None, dirty: None, tombstone: true }
        } else {
            ResourceEntry { live, dirty, tombstone: false }
        }
    }

    /// Serves a read from the slots: tombstone first, then the dirty slot,
    /// then the live slot, else a miss to be forwarded to the origin.
    pub fn read(&self) -> (r: ReadOutcome)
        ensures
            match r {
                ReadOutcome::NotFound => self@.tombstone && spec_read(self@) is None,
                ReadOutcome::Hit { payload } => spec_read(self@) == Some(payload@),
                ReadOutcome::Miss => !self@.tombstone && spec_read(self@) is None,
            },
    {
        if self.tombstone {
            ReadOutcome::NotFound
        } else {
            match &self.dirty {
                Some(d) => ReadOutcome::Hit { payload: d.clone() },
                None => match &self.live {
                    Some(l) => ReadOutcome::Hit { payload: l.clone() },
                    None => ReadOutcome::Miss,
                },
            }
        }
    }

    /// Accepts a write: the update is merged into the freshest base
    /// representation, the merged value takes the dirty slot, and the live
    /// slot is invalidated. Nothing is persisted here — that is the
    /// flusher's job.
    pub fn put(&mut self, update: &UpdatePost) -> (r: PutOutcome)
        ensures
            final(self)@ == spec_put_state(old(self)@, update@),
            match r {
                PutOutcome::NotFound => old(self)@.tombstone,
                PutOutcome::Merged { payload } => !old(self)@.tombstone && spec_read(old(self)@)
                    is Some && payload@ == spec_merge(spec_read(old(self)@)->0, update@),
                PutOutcome::Forward => !old(self)@.tombstone && spec_read(old(self)@) is None,
            },
            old(self)@.wf() ==> final(self)@.wf(),
    {
        if self.tombstone {
            return PutOutcome::NotFound;
        }
        let base = match self.dirty.take() {
            Some(b) => Some(b),
            None => self.live.take(),
        };
        match base {
            None => PutOutcome::Forward,
            Some(b) => {
                let merged = write_to_cache(b, update);
                let out = merged.clone();
                self.dirty = Some(merged);
                self.live = None;
                PutOutcome::Merged { payload: out }
            },
        }
    }

    /// Accepts a delete: both payload slots are dropped and the tombstone
    /// is planted. The origin row is not touched here; the reconciler
    /// deletes it when the tombstone expires.
    pub fn delete(&mut self)
        ensures
            final(self)@ == spec_delete_state(old(self)@),
            final(self)@.wf(),
    {
        self.live = None;
        self.dirty = None;
        self.tombstone = true;
    }

    /// Seeds the live slot with what the origin's read path returned on a
    /// miss. Refused while a tombstone stands: a deleted resource must stay
    /// absent for the tombstone's whole lifetime.
    pub fn seed_live(&mut self, payload: PostResponse)
        ensures
            final(self)@ == spec_seed_live_state(old(self)@, payload@),
            old(self)@.wf() ==> final(self)@.wf(),
    {
        if !self.tombstone {
            self.live = Some(payload);
        }
    }

    /// Seeds the dirty slot with the representation a forwarded write
    /// produced at the origin, making it authoritative for later reads.
    /// Refused while a tombstone stands.
    pub fn seed_dirty(&mut self, payload: PostResponse)
        ensures
            final(self)@ == spec_seed_dirty_state(old(self)@, payload@),
            old(self)@.wf() ==> final(self)@.wf(),
    {
        if !self.tombstone {
            self.dirty = Some(payload);
            self.live = None;
        }
    }

    /// Hands the flusher the payload it must persist: the dirty slot's
    /// content, or nothing when no write is pending (a slot already flushed
    /// by a concurrent cycle is tolerated as a no-op).
    pub fn flush_payload(&self) -> (r: Option<PostResponse>)
        ensures
            match r {
                Some(p) => self@.dirty == Some(p@),
                None => self@.dirty is None,
            },
    {
        match &self.dirty {
            Some(d) => Some(d.clone()),
            None => None,
        }
    }

    /// Commits a successful flush: the persisted payload leaves the dirty
    /// slot and re-seeds the live slot (a read hit without re-querying the
    /// origin). With nothing dirty this is a no-op and cannot resurrect the
    /// live slot. On a failed flush the caller simply does not commit, so
    /// the dirty payload survives for the next cycle.
    pub fn flush_commit(&mut self)
        ensures
            final(self)@ == spec_flush_commit_state(old(self)@),
            old(self)@.wf() ==> final(self)@.wf(),
    {
        match self.dirty.take() {
            Some(d) => {
                self.live = Some(d);
            },
            None => {},
        }
    }

    /// Clears the tombstone once its expiration has been reconciled, letting
    /// the key start over.
    pub fn expire_tombstone(&mut self)
        ensures
            final(self)@ == spec_expire_tombstone_state(old(self)@),
            old(self)@.wf() ==> final(self)@.wf(),
    {
        self.tombstone = false;
    }
}

/// What a write hands back.
pub enum PutOutcome {
    /// A tombstone is active: the write is refused rather than silently
    /// resurrecting a deleted resource.
    NotFound,
    /// The merged representation, stored in the dirty slot and returned to
    /// the caller immediately.
    Merged { payload: PostResponse },
    /// No base representation exists: forward to the origin for a direct
    /// write, then seed the dirty slot with its result.
    Forward,
}

} // verus!
