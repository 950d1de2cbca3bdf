//! The compute halves of the post handlers: what they assemble and select,
//! apart from the queries the embedding program runs.

use vstd::prelude::*;

use crate::digits::i64_to_dec_string;
use crate::models::{GraphNode, Post};

verus! {

/// How many related posts a read shows beside the resource.
pub const RELATED_LIMIT: usize = 3;

/// Keeps the first few related rows a query returned, up to the limit.
pub fn related_of(posts: Vec<Post>) -> (r: Vec<Post>)
    ensures
        r@ == if posts@.len() <= RELATED_LIMIT {
            posts@
        } else {
            posts@.take(RELATED_LIMIT as int)
        },
{
    let mut posts = posts;
    let ghost before = posts@;
    posts.truncate(RELATED_LIMIT);
    proof {
        if before.len() <= RELATED_LIMIT {
            assert(posts@ =~= before);
        }
    }
    posts
}

/// One graph node per post: the id as decimal text, the title as the label.
pub fn graph_nodes(posts: &Vec<Post>) -> (nodes: Vec<GraphNode>)
    ensures
        nodes@.len() == posts@.len(),
        forall|i: int|
            0 <= i < posts@.len() ==> (#[trigger] nodes@[i]).name@ == posts@[i].title@,
        forall|i: int|
            0 <= i < posts@.len() && posts@[i].id >= 0 ==> crate::digits::all_dec_digits(
                (#[trigger] nodes@[i]).id@,
            ) && crate::digits::dec_value(nodes@[i].id@) == posts@[i]@.id,
        forall|i: int|
            0 <= i < posts@.len() && posts@[i].id < 0 ==> (#[trigger] nodes@[i]).id@.len() >= 2
                && nodes@[i].id@[0] == '-' && crate::digits::all_dec_digits(nodes@[i].id@.skip(1))
                && crate::digits::dec_value(nodes@[i].id@.skip(1)) == -posts@[i]@.id,
{
    let mut nodes: Vec<GraphNode> = Vec::new();
    let mut i: usize = 0;
    while i < posts.len()
        invariant
            i <= posts.len(),
            nodes@.len() == i as int,
            forall|j: int| 0 <= j < i ==> (#[trigger] nodes@[j]).name@ == posts@[j].title@,
            forall|j: int|
                0 <= j < i && posts@[j].id >= 0 ==> crate::digits::all_dec_digits(
                    (#[trigger] nodes@[j]).id@,
                ) && crate::digits::dec_value(nodes@[j].id@) == posts@[j]@.id,
            forall|j: int|
                0 <= j < i && posts@[j].id < 0 ==> (#[trigger] nodes@[j]).id@.len() >= 2
                    && nodes@[j].id@[0] == '-' && crate::digits::all_dec_digits(
                    nodes@[j].id@.skip(1),
                ) && crate::digits::dec_value(nodes@[j].id@.skip(1)) == -posts@[j]@.id,
        decreases posts.len() - i,
    {
        let p = &posts[i];
        nodes.push(GraphNode { id: i64_to_dec_string(p.id), name: p.title.clone() });
        i = i + 1;
    }
    nodes
}

} // verus!
