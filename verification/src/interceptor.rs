//! The request-path interceptor: one inbound request, one protocol step.
//!
//! Reads are answered from the slots; writes are merged and parked in the
//! dirty slot; deletes plant a tombstone. Whatever cannot be answered here
//! is forwarded to the origin handler, and its answer is seeded back through
//! [`KeySpace::seed_live`] or [`KeySpace::seed_dirty`]. The origin store is
//! never written on these paths once a cache entry exists — persistence is
//! deferred to the flusher and the reconciler.

use vstd::prelude::*;

use crate::entry::{spec_delete_state, spec_put_state, spec_read, EntryView, PutOutcome, ReadOutcome};
use crate::merge::spec_merge;
use crate::models::{PostResponse, PostResponseView, UpdatePost, UpdatePostView};
use crate::store::KeySpace;

verus! {

/// The request methods the cache distinguishes.
pub enum Method {
    Get,
    Put { update: UpdatePost },
    Delete,
    Other,
}

/// Mathematical image of a [`Method`].
pub enum MethodView {
    Get,
    Put { update: UpdatePostView },
    Delete,
    Other,
}

impl View for Method {
    type V = MethodView;

    open spec fn view(&self) -> MethodView {
        match self {
            Method::Get => MethodView::Get,
            Method::Put { update } => MethodView::Put { update: update@ },
            Method::Delete => MethodView::Delete,
            Method::Other => MethodView::Other,
        }
    }
}

/// What the interceptor tells the surrounding handler to do.
pub enum Intercept {
    /// Answer immediately with this status and body.
    Respond { status: u16, body: Option<PostResponse> },
    /// Hand the request to the origin handler's own path.
    Forward,
}

/// Mathematical image of an [`Intercept`].
pub enum InterceptView {
    Respond { status: u16, body: Option<PostResponseView> },
    Forward,
}

impl View for Intercept {
    type V = InterceptView;

    open spec fn view(&self) -> InterceptView {
        match self {
            Intercept::Respond { status, body } => InterceptView::Respond {
                status: *status,
                body: match body {
                    Some(p) => Some(p@),
                    None => None,
                },
            },
            Intercept::Forward => InterceptView::Forward,
        }
    }
}

/// How one request changes the key's entry.
pub open spec fn spec_step_state(e: EntryView, m: MethodView) -> EntryView {
    match m {
        MethodView::Get => e,
        MethodView::Put { update } => spec_put_state(e, update),
        MethodView::Delete => spec_delete_state(e),
        MethodView::Other => e,
    }
}

/// What one request is answered with. A tombstone makes the resource absent
/// for reads and writes alike; a read is served dirty-first; a write
/// returns the merged representation at once; a delete is acknowledged with
/// no content; any other method passes through uncached.
pub open spec fn spec_step_response(e: EntryView, m: MethodView) -> InterceptView {
    match m {
        MethodView::Get => if e.tombstone {
            InterceptView::Respond { status: 404, body: None }
        } else {
            match spec_read(e) {
                Some(p) => InterceptView::Respond { status: 200, body: Some(p) },
                None => InterceptView::Forward,
            }
        },
        MethodView::Put { update } => if e.tombstone {
            InterceptView::Respond { status: 404, body: None }
        } else {
            match spec_read(e) {
                Some(p) => InterceptView::Respond {
                    status: 200,
                    body: Some(spec_merge(p, update)),
                },
                None => InterceptView::Forward,
            }
        },
        MethodView::Delete => InterceptView::Respond { status: 204, body: None },
        MethodView::Other => InterceptView::Forward,
    }
}

/// Runs one request against the key space: the slot transition and the
/// immediate answer, both exactly as the protocol prescribes. `Forward`
/// asks the caller to run the origin handler and seed the result back.
pub fn middleware_cache(cache: &mut KeySpace, key: &str, method: &Method) -> (r: Intercept)
    requires
        old(cache).wf(),
    ensures
        final(cache).wf(),
        final(cache).spec_entry(key@) == spec_step_state(old(cache).spec_entry(key@), method@),
        forall|k: Seq<char>|
            k != key@ ==> final(cache).spec_entry(k) == old(cache).spec_entry(k),
        r@ == spec_step_response(old(cache).spec_entry(key@), method@),
{
    match method {
        Method::Get => match cache.read(key) {
            ReadOutcome::NotFound => Intercept::Respond { status: 404, body: None },
            ReadOutcome::Hit { payload } => Intercept::Respond {
                status: 200,
                body: Some(payload),
            },
            ReadOutcome::Miss => Intercept::Forward,
        },
        Method::Put { update } => match cache.put(key, update) {
            PutOutcome::NotFound => Intercept::Respond { status: 404, body: None },
            PutOutcome::Merged { payload } => Intercept::Respond {
                status: 200,
                body: Some(payload),
            },
            PutOutcome::Forward => Intercept::Forward,
        },
        Method::Delete => {
            cache.delete(key);
            Intercept::Respond { status: 204, body: None }
        },
        Method::Other => Intercept::Forward,
    }
}

} // verus!
