use write_behind_cache::digits::{
    i64_to_dec_string, parse_dec_i64, parse_signed_dec_i64, u64_to_dec_string,
};
use write_behind_cache::keyspace::{
    classify_key, dirty_key_of, parse_post_path, post_path_of, tombstone_key_of, KeyClass,
};
use write_behind_cache::merge::write_to_cache;
use write_behind_cache::models::{internal_error, GraphNode, Post, PostResponse, UpdatePost};
use write_behind_cache::posts::{graph_nodes, related_of};
use write_behind_cache::retry::{retry_step, AttemptOutcome, RetryDecision};

fn row(id: i64, title: &str) -> Post {
    Post {
        id,
        title: title.to_string(),
        content: String::new(),
        created_at: 0,
        updated_at: 0,
        user_id: 1,
    }
}

#[test]
fn physical_keys_carry_their_prefixes() {
    assert_eq!(dirty_key_of("/posts/1"), "dirty:/posts/1");
    assert_eq!(tombstone_key_of("/posts/1"), "delete:/posts/1");
}

#[test]
fn classification_reads_keys_back() {
    match classify_key("delete:/posts/3") {
        KeyClass::Tombstone { key } => assert_eq!(key, "/posts/3"),
        _ => panic!("a delete-prefixed key is a tombstone"),
    }
    match classify_key("dirty:/posts/3") {
        KeyClass::Dirty { key } => assert_eq!(key, "/posts/3"),
        _ => panic!("a dirty-prefixed key is a dirty slot"),
    }
    match classify_key("/posts/3") {
        KeyClass::Live { key } => assert_eq!(key, "/posts/3"),
        _ => panic!("an unprefixed key is a live slot"),
    }
}

#[test]
fn post_paths_round_trip() {
    assert_eq!(post_path_of(42), "/posts/42");
    assert_eq!(parse_post_path("/posts/42"), Some(42));
    assert_eq!(parse_post_path(&post_path_of(0)), Some(0));
    assert_eq!(parse_post_path("/posts/"), None);
    assert_eq!(parse_post_path("/posts/9x"), None);
    assert_eq!(parse_post_path("/users/9"), None);
    assert_eq!(parse_post_path("/posts/99999999999999999999"), None);
    // The id parse takes an optional leading sign, as the store's own
    // parse does.
    assert_eq!(parse_post_path("/posts/+42"), Some(42));
    assert_eq!(parse_post_path("/posts/-42"), Some(-42));
    assert_eq!(parse_post_path("/posts/+"), None);
    assert_eq!(parse_post_path("/posts/-"), None);
    assert_eq!(parse_post_path("/posts/--1"), None);
}

#[test]
fn signed_decimal_parsing_is_exact() {
    assert_eq!(parse_signed_dec_i64("+7"), Some(7));
    assert_eq!(parse_signed_dec_i64("-7"), Some(-7));
    assert_eq!(parse_signed_dec_i64("7"), Some(7));
    assert_eq!(parse_signed_dec_i64("-0"), Some(0));
    assert_eq!(parse_signed_dec_i64("9223372036854775807"), Some(i64::MAX));
    assert_eq!(parse_signed_dec_i64("-9223372036854775808"), Some(i64::MIN));
    assert_eq!(parse_signed_dec_i64("9223372036854775808"), None);
    assert_eq!(parse_signed_dec_i64("-9223372036854775809"), None);
    assert_eq!(parse_signed_dec_i64("+"), None);
    assert_eq!(parse_signed_dec_i64("-"), None);
    assert_eq!(parse_signed_dec_i64("+-1"), None);
    assert_eq!(parse_signed_dec_i64(""), None);
}

#[test]
fn decimal_parsing_is_exact() {
    assert_eq!(parse_dec_i64("0"), Some(0));
    assert_eq!(parse_dec_i64("007"), Some(7));
    assert_eq!(parse_dec_i64("9223372036854775807"), Some(i64::MAX));
    assert_eq!(parse_dec_i64("9223372036854775808"), None);
    assert_eq!(parse_dec_i64(""), None);
    assert_eq!(parse_dec_i64("-1"), None);
}

#[test]
fn decimal_writing_is_exact() {
    assert_eq!(u64_to_dec_string(0), "0");
    assert_eq!(u64_to_dec_string(1234), "1234");
    assert_eq!(u64_to_dec_string(u64::MAX), "18446744073709551615");
    assert_eq!(i64_to_dec_string(-5), "-5");
    assert_eq!(i64_to_dec_string(i64::MIN), "-9223372036854775808");
}

#[test]
fn merge_overwrites_named_fields_only() {
    let base = PostResponse {
        id: 1,
        title: "t".to_string(),
        content: "c".to_string(),
        created_at: 3,
        updated_at: 4,
        user_id: 5,
        related_posts: vec![row(2, "r")],
    };
    let merged = write_to_cache(
        base.clone(),
        &UpdatePost { title: Some("new".to_string()), content: None },
    );
    assert_eq!(merged.title, "new");
    assert_eq!(merged.content, "c");
    assert_eq!(merged.id, 1);
    assert_eq!(merged.related_posts.len(), 1);

    let both = write_to_cache(
        base.clone(),
        &UpdatePost { title: Some("a".to_string()), content: Some("b".to_string()) },
    );
    assert_eq!(both.title, "a");
    assert_eq!(both.content, "b");

    let neither = write_to_cache(base, &UpdatePost { title: None, content: None });
    assert_eq!(neither.title, "t");
    assert_eq!(neither.content, "c");
}

#[test]
fn related_posts_are_capped_at_three() {
    let many = vec![row(1, "a"), row(2, "b"), row(3, "c"), row(4, "d"), row(5, "e")];
    let r = related_of(many);
    assert_eq!(r.len(), 3);
    assert_eq!(r[0].id, 1);
    assert_eq!(r[2].id, 3);
    let few = related_of(vec![row(1, "a")]);
    assert_eq!(few.len(), 1);
}

#[test]
fn graph_nodes_carry_id_text_and_title() {
    let nodes: Vec<GraphNode> = graph_nodes(&vec![row(3, "first"), row(40, "second")]);
    assert_eq!(nodes.len(), 2);
    assert_eq!(nodes[0].id, "3");
    assert_eq!(nodes[0].name, "first");
    assert_eq!(nodes[1].id, "40");
    assert_eq!(nodes[1].name, "second");
}

#[test]
fn retry_schedule_is_exponential() {
    match retry_step(6, 0, &AttemptOutcome::Failure) {
        RetryDecision::Retry { delay_secs } => assert_eq!(delay_secs, 2),
        _ => panic!("the first failure must retry"),
    }
    match retry_step(6, 1, &AttemptOutcome::Failure) {
        RetryDecision::Retry { delay_secs } => assert_eq!(delay_secs, 4),
        _ => panic!("the second failure must retry"),
    }
    match retry_step(6, 4, &AttemptOutcome::Failure) {
        RetryDecision::Retry { delay_secs } => assert_eq!(delay_secs, 32),
        _ => panic!("the fifth failure must retry"),
    }
    match retry_step(6, 5, &AttemptOutcome::Failure) {
        RetryDecision::GiveUp => {}
        _ => panic!("the budget's last failure must give up"),
    }
    match retry_step(2, 1, &AttemptOutcome::Success) {
        RetryDecision::Done => {}
        _ => panic!("a success must stop the loop"),
    }
}

#[test]
fn internal_error_is_a_server_error() {
    let (status, message) = internal_error("boom".to_string());
    assert_eq!(status, 500);
    assert_eq!(message, "boom");
}

#[test]
fn protocol_timing_constants() {
    assert_eq!(write_behind_cache::LIVE_TTL_SECS, 60);
    assert_eq!(write_behind_cache::TOMBSTONE_TTL_SECS, 10);
    assert_eq!(write_behind_cache::FLUSH_INTERVAL_SECS, 10);
}
