//! The key-space protocol: one logical resource key maps to three physical
//! cache keys.
//!
//! The live slot lives under the resource key itself, the dirty slot under a
//! `dirty:` prefix, the tombstone under a `delete:` prefix. This module is
//! the one place that knows the scheme; it builds physical keys and reads
//! them back, so the backing namespaces can be told apart without consulting
//! anything but the key text.

use vstd::prelude::*;

use crate::digits::{
    all_dec_digits, dec_value, is_signed_dec, parse_signed_dec_i64, signed_dec_value,
    u64_to_dec_string,
};

verus! {

broadcast use vstd::string::group_string_axioms;

/// The dirty-slot namespace prefix.
pub open spec fn dirty_prefix() -> Seq<char> {
    "dirty:"@
}

/// The tombstone namespace prefix.
pub open spec fn tombstone_prefix() -> Seq<char> {
    "delete:"@
}

/// The physical key of the dirty slot for a resource key.
pub open spec fn spec_dirty_key(key: Seq<char>) -> Seq<char> {
    dirty_prefix() + key
}

/// The physical key of the tombstone slot for a resource key.
pub open spec fn spec_tombstone_key(key: Seq<char>) -> Seq<char> {
    tombstone_prefix() + key
}

/// Builds the dirty-slot key for a resource key.
pub fn dirty_key_of(key: &str) -> (r: String)
    ensures
        r@ == spec_dirty_key(key@),
{
    let s = String::from_str("dirty:");
    s.concat(key)
}

/// Builds the tombstone key for a resource key.
pub fn tombstone_key_of(key: &str) -> (r: String)
    ensures
        r@ == spec_tombstone_key(key@),
{
    let s = String::from_str("delete:");
    s.concat(key)
}

/// True when `prefix` opens `s`.
pub open spec fn spec_has_prefix(s: Seq<char>, prefix: Seq<char>) -> bool {
    s.len() >= prefix.len() && s.subrange(0, prefix.len() as int) == prefix
}

/// Tests whether a physical key opens with the given namespace prefix.
fn has_prefix(s: &str, prefix: &str) -> (r: bool)
    ensures
        r == spec_has_prefix(s@, prefix@),
{
    let n = prefix.unicode_len();
    if s.unicode_len() < n {
        proof {
            assert(!spec_has_prefix(s@, prefix@));
        }
        return false;
    }
    let head = s.substring_char(0, n);
    let eq = String::from_str(head) == String::from_str(prefix);
    proof {
        if eq {
            assert(s@.subrange(0, prefix@.len() as int) == prefix@);
        }
    }
    eq
}

/// Takes the namespace prefix off a physical key, returning the resource key
/// that remains; `None` when the key is not in that namespace.
fn strip_key_prefix(s: &str, prefix: &str) -> (r: Option<String>)
    ensures
        match r {
            Some(rest) => spec_has_prefix(s@, prefix@) && s@ == prefix@ + rest@,
            None => !spec_has_prefix(s@, prefix@),
        },
{
    if !has_prefix(s, prefix) {
        return None;
    }
    let n = prefix.unicode_len();
    let len = s.unicode_len();
    let rest = s.substring_char(n, len);
    proof {
        assert(s@ =~= prefix@ + rest@);
    }
    Some(String::from_str(rest))
}

/// What a physical key stands for: the slot it belongs to, and the resource
/// key it serves.
pub enum KeyClass {
    /// A tombstone key: `delete:` followed by the resource key.
    Tombstone { key: String },
    /// A dirty-slot key: `dirty:` followed by the resource key.
    Dirty { key: String },
    /// Anything else is a live slot under the resource key itself.
    Live { key: String },
}

/// Reads a physical key back: which slot it belongs to and for which
/// resource key. Tombstone keys are recognised first, then dirty keys;
/// every other key is a live key.
pub fn classify_key(s: &str) -> (r: KeyClass)
    ensures
        match r {
            KeyClass::Tombstone { key } => s@ == spec_tombstone_key(key@),
            KeyClass::Dirty { key } => !spec_has_prefix(s@, tombstone_prefix()) && s@
                == spec_dirty_key(key@),
            KeyClass::Live { key } => !spec_has_prefix(s@, tombstone_prefix())
                && !spec_has_prefix(s@, dirty_prefix()) && key@ == s@,
        },
{
    match strip_key_prefix(s, "delete:") {
        Some(key) => KeyClass::Tombstone { key },
        None => match strip_key_prefix(s, "dirty:") {
            Some(key) => KeyClass::Dirty { key },
            None => KeyClass::Live { key: String::from_str(s) },
        },
    }
}

/// The resource-key prefix under which posts live.
pub open spec fn posts_prefix() -> Seq<char> {
    "/posts/"@
}

/// Builds the resource key of the post with the given id.
pub fn post_path_of(id: u64) -> (r: String)
    ensures
        spec_has_prefix(r@, posts_prefix()),
        all_dec_digits(r@.skip(posts_prefix().len() as int)),
        dec_value(r@.skip(posts_prefix().len() as int)) == id as int,
        r@.skip(posts_prefix().len() as int).len() > 0,
        r@.skip(posts_prefix().len() as int).len() > 1 ==> r@.skip(posts_prefix().len() as int)[0]
            != '0',
{
    proof {
        reveal_strlit("/posts/");
    }
    let mut s = String::from_str("/posts/");
    let digits = u64_to_dec_string(id);
    s.append(digits.as_str());
    proof {
        assert(posts_prefix().len() == 7);
        assert(s@.subrange(0, 7) =~= posts_prefix());
        assert(s@.skip(7) =~= digits@);
    }
    s
}

/// The resource key names a post: the posts prefix followed by a signed
/// decimal id (an optional leading sign, then digits) whose value fits the
/// id type — exactly what the store's own id parse accepts.
pub open spec fn spec_post_id_key(k: Seq<char>) -> bool {
    &&& spec_has_prefix(k, posts_prefix())
    &&& is_signed_dec(k.skip(posts_prefix().len() as int))
    &&& i64::MIN as int <= signed_dec_value(k.skip(posts_prefix().len() as int))
    &&& signed_dec_value(k.skip(posts_prefix().len() as int)) <= i64::MAX as int
}

/// Reads the post id out of a resource key: `Some` exactly when the key
/// names a post.
pub fn parse_post_path(key: &str) -> (r: Option<i64>)
    ensures
        match r {
            Some(id) => spec_post_id_key(key@) && id as int == signed_dec_value(
                key@.skip(posts_prefix().len() as int),
            ),
            None => !spec_post_id_key(key@),
        },
{
    match strip_key_prefix(key, "/posts/") {
        None => None,
        Some(rest) => {
            proof {
                reveal_strlit("/posts/");
                assert(posts_prefix().len() == 7);
                assert(key@.skip(7) =~= rest@);
            }
            parse_signed_dec_i64(rest.as_str())
        },
    }
}

/// The three namespaces never collide: the dirty key and the tombstone key
/// of any resource keys differ, and neither ever equals a live key that
/// carries no namespace prefix.
pub proof fn lemma_namespaces_disjoint(k1: Seq<char>, k2: Seq<char>)
    ensures
        spec_dirty_key(k1) != spec_tombstone_key(k2),
        spec_dirty_key(k1) == spec_dirty_key(k2) ==> k1 == k2,
        spec_tombstone_key(k1) == spec_tombstone_key(k2) ==> k1 == k2,
{
    reveal_strlit("dirty:");
    reveal_strlit("delete:");
    assert(dirty_prefix().len() == 6);
    assert(tombstone_prefix().len() == 7);
    assert(dirty_prefix()[1] == 'i');
    assert(tombstone_prefix()[1] == 'e');
    if spec_dirty_key(k1) == spec_tombstone_key(k2) {
        assert(spec_dirty_key(k1)[1] == 'i');
        assert(spec_tombstone_key(k2)[1] == 'e');
    }
    if spec_dirty_key(k1) == spec_dirty_key(k2) {
        assert(spec_dirty_key(k1).len() == 6 + k1.len());
        assert(spec_dirty_key(k2).len() == 6 + k2.len());
        assert(k1.len() == k2.len());
        assert(k1 =~= k2) by {
            assert forall|i: int| 0 <= i < k1.len() implies k1[i] == k2[i] by {
                assert(spec_dirty_key(k1)[i + 6] == k1[i]);
                assert(spec_dirty_key(k2)[i + 6] == k2[i]);
            }
        }
    }
    if spec_tombstone_key(k1) == spec_tombstone_key(k2) {
        assert(spec_tombstone_key(k1).len() == 7 + k1.len());
        assert(spec_tombstone_key(k2).len() == 7 + k2.len());
        assert(k1.len() == k2.len());
        assert(k1 =~= k2) by {
            assert forall|i: int| 0 <= i < k1.len() implies k1[i] == k2[i] by {
                assert(spec_tombstone_key(k1)[i + 7] == k1[i]);
                assert(spec_tombstone_key(k2)[i + 7] == k2[i]);
            }
        }
    }
}

/// Building a physical key and reading it back gives the slot and resource
/// key the builder started from: classification is the scheme's inverse.
pub proof fn lemma_scheme_round_trip(key: Seq<char>)
    ensures
        spec_has_prefix(spec_dirty_key(key), dirty_prefix()),
        spec_has_prefix(spec_tombstone_key(key), tombstone_prefix()),
        spec_dirty_key(key).skip(dirty_prefix().len() as int) == key,
        spec_tombstone_key(key).skip(tombstone_prefix().len() as int) == key,
{
    reveal_strlit("dirty:");
    reveal_strlit("delete:");
    assert(spec_dirty_key(key).subrange(0, 6) =~= dirty_prefix());
    assert(spec_tombstone_key(key).subrange(0, 7) =~= tombstone_prefix());
    assert(spec_dirty_key(key).skip(6) =~= key);
    assert(spec_tombstone_key(key).skip(7) =~= key);
}

} // verus!
