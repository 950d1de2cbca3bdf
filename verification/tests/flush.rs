use write_behind_cache::entry::ReadOutcome;
use write_behind_cache::flusher::{callback, flush_update_of, write_behind};
use write_behind_cache::models::{Post, PostResponse, UpdatePost};
use write_behind_cache::origin::OriginTable;
use write_behind_cache::reconciler::{delete_callback, delete_event_listener, ReconcileOutcome};
use write_behind_cache::store::KeySpace;

fn row(id: i64, title: &str, content: &str) -> Post {
    Post {
        id,
        title: title.to_string(),
        content: content.to_string(),
        created_at: 100,
        updated_at: 200,
        user_id: 7,
    }
}

fn repr(id: i64, title: &str, content: &str) -> PostResponse {
    PostResponse {
        id,
        title: title.to_string(),
        content: content.to_string(),
        created_at: 100,
        updated_at: 200,
        user_id: 7,
        related_posts: Vec::new(),
    }
}

fn upd(title: Option<&str>, content: Option<&str>) -> UpdatePost {
    UpdatePost {
        title: title.map(|s| s.to_string()),
        content: content.map(|s| s.to_string()),
    }
}

#[test]
fn scenario_two_puts_one_flush() {
    let mut origin = OriginTable::new();
    assert!(origin.insert(row(1, "orig", "orig")));
    let mut ks = KeySpace::new();
    ks.seed_live("/posts/1", repr(1, "orig", "orig"));

    match ks.put("/posts/1", &upd(Some("A"), Some("x"))) {
        write_behind_cache::entry::PutOutcome::Merged { payload } => {
            assert_eq!(payload.title, "A");
            assert_eq!(payload.content, "x");
        }
        _ => panic!("first write must merge"),
    }
    match ks.put("/posts/1", &upd(Some("B"), None)) {
        write_behind_cache::entry::PutOutcome::Merged { payload } => {
            assert_eq!(payload.title, "B");
            assert_eq!(payload.content, "x");
        }
        _ => panic!("second write must merge onto the first"),
    }
    // Nothing was persisted while the writes were accepted.
    assert_eq!(origin.get(1).unwrap().title, "orig");

    let flushed = write_behind(&mut ks, &mut origin);
    // Exactly one origin call, carrying the latest merged value.
    assert_eq!(flushed, vec![1]);
    let persisted = origin.get(1).unwrap();
    assert_eq!(persisted.title, "B");
    assert_eq!(persisted.content, "x");

    // The flushed payload re-seeds the live slot; a second sweep is a no-op.
    match ks.read("/posts/1") {
        ReadOutcome::Hit { payload } => assert_eq!(payload.title, "B"),
        _ => panic!("a flushed key must still read back"),
    }
    let again = write_behind(&mut ks, &mut origin);
    assert!(again.is_empty());
}

#[test]
fn flush_persists_every_dirty_key() {
    let mut origin = OriginTable::new();
    assert!(origin.insert(row(1, "a", "a")));
    assert!(origin.insert(row(2, "b", "b")));
    assert!(origin.insert(row(3, "c", "c")));
    let mut ks = KeySpace::new();
    ks.seed_dirty("/posts/1", repr(1, "a2", "a2"));
    ks.seed_dirty("/posts/3", repr(3, "c2", "c2"));

    let mut flushed = write_behind(&mut ks, &mut origin);
    flushed.sort();
    assert_eq!(flushed, vec![1, 3]);
    assert_eq!(origin.get(1).unwrap().title, "a2");
    assert_eq!(origin.get(2).unwrap().title, "b");
    assert_eq!(origin.get(3).unwrap().content, "c2");
}

#[test]
fn flush_of_clean_keys_is_noop() {
    let mut origin = OriginTable::new();
    assert!(origin.insert(row(4, "t", "c")));
    let mut ks = KeySpace::new();
    ks.seed_live("/posts/4", repr(4, "t", "c"));
    let flushed = write_behind(&mut ks, &mut origin);
    assert!(flushed.is_empty());
    assert_eq!(origin.get(4).unwrap().title, "t");
}

#[test]
fn flush_commit_without_dirty_does_not_resurrect() {
    let mut ks = KeySpace::new();
    ks.seed_dirty("/posts/5", repr(5, "t", "c"));
    // The key is deleted between the scan and the commit.
    ks.delete("/posts/5");
    assert!(ks.flush_payload("/posts/5").is_none());
    ks.flush_commit("/posts/5");
    match ks.read("/posts/5") {
        ReadOutcome::NotFound => {}
        _ => panic!("a late commit must not resurrect a deleted key"),
    }
}

#[test]
fn flush_failure_leaves_dirty_for_next_cycle() {
    // The per-key flow the embedding program follows: read the payload, try
    // the origin, and commit only on success. Here the origin call "fails",
    // so no commit happens and the payload survives.
    let mut ks = KeySpace::new();
    ks.seed_dirty("/posts/6", repr(6, "keep", "me"));
    let pending = ks.flush_payload("/posts/6");
    assert_eq!(pending.unwrap().title, "keep");
    // No commit. The payload is still there for the next sweep.
    assert_eq!(ks.flush_payload("/posts/6").unwrap().title, "keep");
}

#[test]
fn callback_merges_into_origin_row() {
    let mut origin = OriginTable::new();
    assert!(origin.insert(row(7, "old", "old")));
    let payload = repr(7, "new title", "new content");
    assert!(callback(&mut origin, &payload));
    let after = origin.get(7).unwrap();
    assert_eq!(after.title, "new title");
    assert_eq!(after.content, "new content");
    assert_eq!(after.user_id, 7);
    // A payload whose row is gone is tolerated.
    assert!(!callback(&mut origin, &repr(99, "x", "y")));
}

#[test]
fn flush_update_carries_both_fields() {
    let u = flush_update_of(&repr(8, "t", "c"));
    assert_eq!(u.title.as_deref(), Some("t"));
    assert_eq!(u.content.as_deref(), Some("c"));
}

#[test]
fn scenario_delete_then_expiry_removes_row() {
    let mut origin = OriginTable::new();
    assert!(origin.insert(row(42, "t", "c")));
    let mut ks = KeySpace::new();
    ks.seed_live("/posts/42", repr(42, "t", "c"));

    ks.delete("/posts/42");
    match ks.read("/posts/42") {
        ReadOutcome::NotFound => {}
        _ => panic!("an accepted delete must read as not found"),
    }
    assert_eq!(origin.get(42).unwrap().title, "t");

    // The tombstone's TTL elapses: the backend reports the expired key.
    match delete_event_listener(&mut ks, &mut origin, "delete:/posts/42") {
        ReconcileOutcome::Reconciled { id, removed } => {
            assert_eq!(id, 42);
            assert!(removed);
        }
        _ => panic!("a tombstone expiry must reconcile"),
    }
    assert!(origin.get(42).is_none());

    // The key starts over: a cold read may repopulate it now.
    match ks.read("/posts/42") {
        ReadOutcome::Miss => {}
        _ => panic!("an expired tombstone must leave the key empty"),
    }
}

#[test]
fn duplicate_expiry_event_is_tolerated() {
    let mut origin = OriginTable::new();
    assert!(origin.insert(row(9, "t", "c")));
    let mut ks = KeySpace::new();
    ks.delete("/posts/9");
    match delete_event_listener(&mut ks, &mut origin, "delete:/posts/9") {
        ReconcileOutcome::Reconciled { removed, .. } => assert!(removed),
        _ => panic!("the first event must reconcile"),
    }
    match delete_event_listener(&mut ks, &mut origin, "delete:/posts/9") {
        ReconcileOutcome::Reconciled { removed, .. } => assert!(!removed),
        _ => panic!("a duplicate event must still be handled"),
    }
}

#[test]
fn plain_expiry_events_are_ignored() {
    let mut origin = OriginTable::new();
    assert!(origin.insert(row(10, "t", "c")));
    let mut ks = KeySpace::new();
    match delete_event_listener(&mut ks, &mut origin, "/posts/10") {
        ReconcileOutcome::Ignored => {}
        _ => panic!("a live slot's expiry is eviction noise"),
    }
    match delete_event_listener(&mut ks, &mut origin, "dirty:/posts/10") {
        ReconcileOutcome::Ignored => {}
        _ => panic!("a dirty key's expiry is not a tombstone"),
    }
    assert_eq!(origin.get(10).unwrap().title, "t");
}

#[test]
fn tombstone_for_unknown_resource_is_harmless() {
    let mut origin = OriginTable::new();
    assert!(origin.insert(row(11, "t", "c")));
    let mut ks = KeySpace::new();
    match delete_event_listener(&mut ks, &mut origin, "delete:/users/abc") {
        ReconcileOutcome::UnknownResource => {}
        _ => panic!("a tombstone naming no post has nothing durable to do"),
    }
    assert_eq!(origin.get(11).unwrap().title, "t");
}

#[test]
fn delete_callback_drops_named_row() {
    let mut origin = OriginTable::new();
    assert!(origin.insert(row(12, "t", "c")));
    assert!(delete_callback(&mut origin, "12"));
    assert!(origin.get(12).is_none());
    assert!(!delete_callback(&mut origin, "12"));
    assert!(!delete_callback(&mut origin, "not-a-number"));
}

#[test]
fn signed_id_keys_are_reconciled() {
    // The store's id parse takes a leading sign, so a tombstone whose key
    // carries one still reaches its row.
    let mut origin = OriginTable::new();
    assert!(origin.insert(row(13, "t", "c")));
    assert!(delete_callback(&mut origin, "+13"));
    assert!(origin.get(13).is_none());

    assert!(origin.insert(row(9, "t", "c")));
    let mut ks = KeySpace::new();
    match delete_event_listener(&mut ks, &mut origin, "delete:/posts/+9") {
        ReconcileOutcome::Reconciled { id, removed } => {
            assert_eq!(id, 9);
            assert!(removed);
        }
        _ => panic!("a signed post id still names the row"),
    }
    assert!(origin.get(9).is_none());
}
