use write_behind_cache::entry::{PutOutcome, ReadOutcome, ResourceEntry};
use write_behind_cache::interceptor::{middleware_cache, Intercept, Method};
use write_behind_cache::models::{PostResponse, UpdatePost};
use write_behind_cache::store::KeySpace;

fn sample(id: i64, title: &str, content: &str) -> PostResponse {
    PostResponse {
        id,
        title: title.to_string(),
        content: content.to_string(),
        created_at: 100,
        updated_at: 200,
        user_id: 7,
        related_posts: Vec::new(),
    }
}

fn upd(title: Option<&str>, content: Option<&str>) -> UpdatePost {
    UpdatePost {
        title: title.map(|s| s.to_string()),
        content: content.map(|s| s.to_string()),
    }
}

#[test]
fn put_then_get_returns_merged() {
    let mut ks = KeySpace::new();
    ks.seed_live("/posts/1", sample(1, "old", "x"));
    let r = ks.put("/posts/1", &upd(Some("A"), None));
    match r {
        PutOutcome::Merged { payload } => {
            assert_eq!(payload.title, "A");
            assert_eq!(payload.content, "x");
            assert_eq!(payload.id, 1);
            assert_eq!(payload.user_id, 7);
        }
        _ => panic!("write on an existing base must merge"),
    }
    match ks.read("/posts/1") {
        ReadOutcome::Hit { payload } => {
            assert_eq!(payload.title, "A");
            assert_eq!(payload.content, "x");
        }
        _ => panic!("read after a write must hit"),
    }
}

#[test]
fn get_prefers_dirty_over_live() {
    let e = ResourceEntry::from_slots(
        Some(sample(1, "stale", "stale")),
        Some(sample(1, "fresh", "fresh")),
        false,
    );
    match e.read() {
        ReadOutcome::Hit { payload } => assert_eq!(payload.title, "fresh"),
        _ => panic!("a populated entry must hit"),
    }
}

#[test]
fn delete_makes_reads_not_found() {
    let mut ks = KeySpace::new();
    ks.seed_live("/posts/2", sample(2, "t", "c"));
    ks.delete("/posts/2");
    match ks.read("/posts/2") {
        ReadOutcome::NotFound => {}
        _ => panic!("a deleted key must read as not found"),
    }
    // A racing cold read must not repopulate a tombstoned key.
    ks.seed_live("/posts/2", sample(2, "t", "c"));
    match ks.read("/posts/2") {
        ReadOutcome::NotFound => {}
        _ => panic!("a seed must not resurrect a deleted key"),
    }
    // Nor may a forwarded write.
    ks.seed_dirty("/posts/2", sample(2, "t", "c"));
    match ks.read("/posts/2") {
        ReadOutcome::NotFound => {}
        _ => panic!("a dirty seed must not resurrect a deleted key"),
    }
}

#[test]
fn put_on_tombstone_rejected() {
    let mut ks = KeySpace::new();
    ks.seed_live("/posts/3", sample(3, "t", "c"));
    ks.delete("/posts/3");
    match ks.put("/posts/3", &upd(Some("new"), None)) {
        PutOutcome::NotFound => {}
        _ => panic!("a write on a tombstoned key must be refused"),
    }
    match ks.read("/posts/3") {
        ReadOutcome::NotFound => {}
        _ => panic!("the refused write must leave the tombstone standing"),
    }
}

#[test]
fn cold_get_forwards_then_seeds() {
    let mut ks = KeySpace::new();
    match ks.read("/posts/4") {
        ReadOutcome::Miss => {}
        _ => panic!("a never-seen key must miss"),
    }
    ks.seed_live("/posts/4", sample(4, "cold", "body"));
    match ks.read("/posts/4") {
        ReadOutcome::Hit { payload } => assert_eq!(payload.title, "cold"),
        _ => panic!("a seeded key must hit"),
    }
}

#[test]
fn put_without_base_forwards_then_seeds_dirty() {
    let mut ks = KeySpace::new();
    match ks.put("/posts/5", &upd(Some("A"), Some("x"))) {
        PutOutcome::Forward => {}
        _ => panic!("a write without a base must forward"),
    }
    ks.seed_dirty("/posts/5", sample(5, "A", "x"));
    match ks.read("/posts/5") {
        ReadOutcome::Hit { payload } => assert_eq!(payload.content, "x"),
        _ => panic!("the forwarded write's result must be readable"),
    }
}

#[test]
fn middleware_statuses() {
    let mut ks = KeySpace::new();
    ks.seed_live("/posts/6", sample(6, "t", "c"));
    match middleware_cache(&mut ks, "/posts/6", &Method::Get) {
        Intercept::Respond { status, body } => {
            assert_eq!(status, 200);
            assert_eq!(body.unwrap().title, "t");
        }
        _ => panic!("a cached read must respond"),
    }
    match middleware_cache(&mut ks, "/posts/6", &Method::Delete) {
        Intercept::Respond { status, body } => {
            assert_eq!(status, 204);
            assert!(body.is_none());
        }
        _ => panic!("a delete must respond"),
    }
    match middleware_cache(&mut ks, "/posts/6", &Method::Get) {
        Intercept::Respond { status, body } => {
            assert_eq!(status, 404);
            assert!(body.is_none());
        }
        _ => panic!("a tombstoned read must respond"),
    }
    match middleware_cache(
        &mut ks,
        "/posts/6",
        &Method::Put { update: upd(Some("z"), None) },
    ) {
        Intercept::Respond { status, .. } => assert_eq!(status, 404),
        _ => panic!("a tombstoned write must respond"),
    }
    match middleware_cache(&mut ks, "/posts/6", &Method::Other) {
        Intercept::Forward => {}
        _ => panic!("an uncached method must pass through"),
    }
}

#[test]
fn tombstone_normalizes_leftover_slots() {
    // A crash can leave a payload beside a tombstone; rebuilding the entry
    // clears it.
    let e = ResourceEntry::from_slots(Some(sample(8, "left", "over")), None, true);
    match e.read() {
        ReadOutcome::NotFound => {}
        _ => panic!("a tombstone must win over leftover slots"),
    }
}

#[test]
fn empty_update_keeps_base() {
    let mut ks = KeySpace::new();
    ks.seed_live("/posts/9", sample(9, "keep", "this"));
    match ks.put("/posts/9", &upd(None, None)) {
        PutOutcome::Merged { payload } => {
            assert_eq!(payload.title, "keep");
            assert_eq!(payload.content, "this");
        }
        _ => panic!("an empty update still merges"),
    }
}
