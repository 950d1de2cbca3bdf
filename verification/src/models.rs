//! Resource representations held in the cache slots and the origin store.
//!
//! Timestamps are carried as Unix seconds; turning them into calendar dates
//! is the embedding program's concern, as is the wire encoding of each type.

use vstd::prelude::*;

verus! {

/// A durable resource row as the origin store returns it.
pub struct Post {
    pub id: i64,
    pub title: String,
    pub content: String,
    pub created_at: i64,
    pub updated_at: i64,
    pub user_id: i64,
}

/// Mathematical image of a [`Post`].
pub struct PostView {
    pub id: int,
    pub title: Seq<char>,
    pub content: Seq<char>,
    pub created_at: int,
    pub updated_at: int,
    pub user_id: int,
}

impl View for Post {
    type V = PostView;

    open spec fn view(&self) -> PostView {
        PostView {
            id: self.id as int,
            title: self.title@,
            content: self.content@,
            created_at: self.created_at as int,
            updated_at: self.updated_at as int,
            user_id: self.user_id as int,
        }
    }
}

impl Clone for Post {
    fn clone(&self) -> (r: Self)
        ensures
            r@ == self@,
    {
        Post {
            id: self.id,
            title: self.title.clone(),
            content: self.content.clone(),
            created_at: self.created_at,
            updated_at: self.updated_at,
            user_id: self.user_id,
        }
    }
}

/// Payload of a request that creates a resource.
pub struct CreatePost {
    pub title: String,
    pub content: String,
    pub user_id: i64,
}

/// Partial update accepted by the write path: a field left `None` keeps the
/// base representation's value.
pub struct UpdatePost {
    pub title: Option<String>,
    pub content: Option<String>,
}

/// Mathematical image of an [`UpdatePost`].
pub struct UpdatePostView {
    pub title: Option<Seq<char>>,
    pub content: Option<Seq<char>>,
}

impl View for UpdatePost {
    type V = UpdatePostView;

    open spec fn view(&self) -> UpdatePostView {
        UpdatePostView {
            title: match self.title {
                Some(t) => Some(t@),
                None => None,
            },
            content: match self.content {
                Some(c) => Some(c@),
                None => None,
            },
        }
    }
}

impl Clone for UpdatePost {
    fn clone(&self) -> (r: Self)
        ensures
            r@ == self@,
    {
        UpdatePost {
            title: match &self.title {
                Some(t) => Some(t.clone()),
                None => None,
            },
            content: match &self.content {
                Some(c) => Some(c.clone()),
                None => None,
            },
        }
    }
}

/// The cache-visible representation of one resource: the row plus the
/// related rows shown beside it. This is the value the cache slots hold.
pub struct PostResponse {
    pub id: i64,
    pub title: String,
    pub content: String,
    pub created_at: i64,
    pub updated_at: i64,
    pub user_id: i64,
    pub related_posts: Vec<Post>,
}

/// Mathematical image of a [`PostResponse`].
pub struct PostResponseView {
    pub id: int,
    pub title: Seq<char>,
    pub content: Seq<char>,
    pub created_at: int,
    pub updated_at: int,
    pub user_id: int,
    pub related_posts: Seq<PostView>,
}

impl View for PostResponse {
    type V = PostResponseView;

    open spec fn view(&self) -> PostResponseView {
        PostResponseView {
            id: self.id as int,
            title: self.title@,
            content: self.content@,
            created_at: self.created_at as int,
            updated_at: self.updated_at as int,
            user_id: self.user_id as int,
            related_posts: self.related_posts@.map_values(|p: Post| p@),
        }
    }
}

impl Clone for PostResponse {
    fn clone(&self) -> (r: Self)
        ensures
            r@ == self@,
    {
        let mut related: Vec<Post> = Vec::new();
        let mut i: usize = 0;
        while i < self.related_posts.len()
            invariant
                i <= self.related_posts.len(),
                related@.len() == i as int,
                forall|j: int| 0 <= j < i ==> related@[j]@ == self.related_posts@[j]@,
            decreases self.related_posts.len() - i,
        {
            related.push(self.related_posts[i].clone());
            i = i + 1;
        }
        let r = PostResponse {
            id: self.id,
            title: self.title.clone(),
            content: self.content.clone(),
            created_at: self.created_at,
            updated_at: self.updated_at,
            user_id: self.user_id,
            related_posts: related,
        };
        proof {
            assert(r@.related_posts =~= self@.related_posts);
        }
        r
    }
}

/// Assembles the cache-visible representation from a row and its related
/// rows, exactly as the read and write paths hand it to the caller.
pub fn post_response_of(post: Post, related: Vec<Post>) -> (r: PostResponse)
    ensures
        r.id == post.id,
        r.title@ == post.title@,
        r.content@ == post.content@,
        r.created_at == post.created_at,
        r.updated_at == post.updated_at,
        r.user_id == post.user_id,
        r.related_posts@ == related@,
{
    PostResponse {
        id: post.id,
        title: post.title,
        content: post.content,
        created_at: post.created_at,
        updated_at: post.updated_at,
        user_id: post.user_id,
        related_posts: related,
    }
}

/// An account row.
pub struct User {
    pub id: i64,
    pub username: String,
    pub password: String,
    pub created_at: i64,
    pub updated_at: i64,
}

/// Payload of a request that creates an account.
pub struct CreateUser {
    pub username: String,
    pub password: String,
}

/// A comment row.
pub struct Comment {
    pub id: i64,
    pub content: String,
    pub created_at: i64,
    pub updated_at: i64,
    pub post_id: i64,
    pub user_id: i64,
}

/// Payload of a request that creates a comment.
pub struct CreateComment {
    pub content: String,
    pub post_id: i64,
    pub user_id: i64,
}

/// One node of the similarity graph drawn over a user's posts.
pub struct GraphNode {
    pub id: String,
    pub name: String,
}

/// A text search request.
pub struct SearchQuery {
    pub q: String,
}

/// The claims carried by an accepted bearer token.
pub struct UserClaims {
    pub sub: i64,
    pub username: String,
}

/// Credentials presented to the login path.
pub struct UserLogin {
    pub username: String,
    pub password: String,
}

/// The token handed back by a successful login.
pub struct AccessToken {
    pub access_token: String,
}

/// Pairs a failure with the conventional server-error status code.
pub fn internal_error(detail: String) -> (r: (u16, String))
    ensures
        r.0 == 500,
        r.1@ == detail@,
{
    (500, detail)
}

} // verus!
