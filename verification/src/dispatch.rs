//! Server-side request dispatch: routing a parsed request to a resource
//! under the served root, and the per-connection accept loop's state
//! machine, which isolates per-stream failures from the connection.

use vstd::prelude::*;

use crate::wire::{
    spec_frame_request, spec_frame_response, spec_parse_request, spec_parse_response,
    lemma_request_round_trip, lemma_response_round_trip, parse_request, RequestParse,
    RequestParseView, ResponseParseView,
};

verus! {

/// What the server does with one received request.
#[derive(Debug)]
pub enum RouteOutcome {
    /// Serve the resource at this path relative to the served root.
    Fetch(Vec<u8>),
    /// Answer with the not-found status: the path escapes the root.
    NotFoundReply,
    /// Answer with an empty reply: the method is not served.
    EmptyReply,
    /// A malformed request: a protocol error on this stream only.
    BadRequest,
}

/// The mathematical value of a routing outcome.
pub enum RouteOutcomeView {
    Fetch(Seq<u8>),
    NotFoundReply,
    EmptyReply,
    BadRequest,
}

impl View for RouteOutcome {
    type V = RouteOutcomeView;

    open spec fn view(&self) -> RouteOutcomeView {
        match self {
            RouteOutcome::Fetch(p) => RouteOutcomeView::Fetch(p@),
            RouteOutcome::NotFoundReply => RouteOutcomeView::NotFoundReply,
            RouteOutcome::EmptyReply => RouteOutcomeView::EmptyReply,
            RouteOutcome::BadRequest => RouteOutcomeView::BadRequest,
        }
    }
}

/// Whether a parent-directory segment ("..") starts at index `i` of the
/// path: two dots bounded by slashes or the path's ends.
pub open spec fn dotdot_at(p: Seq<u8>, i: int) -> bool {
    &&& 0 <= i
    &&& i + 2 <= p.len()
    &&& p[i] == 46u8
    &&& p[i + 1] == 46u8
    &&& (i == 0 || p[i - 1] == 47u8)
    &&& (i + 2 == p.len() || p[i + 2] == 47u8)
}

/// Whether the path holds a parent-directory segment anywhere.
pub open spec fn spec_has_dotdot(p: Seq<u8>) -> bool {
    exists|i: int| dotdot_at(p, i)
}

/// The root-relative form of a request path: the path with its leading
/// slash removed.
pub open spec fn spec_rel_path(path: Seq<u8>) -> Seq<u8> {
    if path.len() > 0 && path[0] == 47u8 {
        path.skip(1)
    } else {
        path
    }
}

/// A root-relative path is safe to serve when it names something (is
/// non-empty) and cannot escape the served root (no ".." segment).
pub open spec fn spec_path_safe(rel: Seq<u8>) -> bool {
    rel.len() > 0 && !spec_has_dotdot(rel)
}

/// The root-relative path a request path resolves to, or nothing when the
/// path is empty or could escape the root.
pub open spec fn spec_resolve_under_root(path: Seq<u8>) -> Option<Seq<u8>> {
    let rel = spec_rel_path(path);
    if spec_path_safe(rel) {
        Some(rel)
    } else {
        None
    }
}

/// Resolves a request path under the served root.  A path that escapes the
/// root yields `None`, which the caller answers with the not-found status —
/// never with a filesystem error.
pub fn resolve_under_root(path: &Vec<u8>) -> (r: Option<Vec<u8>>)
    ensures
        (match r {
            Some(rel) => spec_resolve_under_root(path@) == Some(rel@),
            None => spec_resolve_under_root(path@) is None,
        }),
{
    let mut rel: Vec<u8> = Vec::new();
    let start: usize = if path.len() > 0 && path[0] == 47u8 {
        1
    } else {
        0
    };
    let mut i: usize = start;
    while i < path.len()
        invariant
            start <= i <= path@.len(),
            rel@ == path@.subrange(start as int, i as int),
        decreases path.len() - i,
    {
        rel.push(path[i]);
        proof {
            assert(rel@ =~= path@.subrange(start as int, i + 1));
        }
        i = i + 1;
    }
    proof {
        assert(rel@ =~= spec_rel_path(path@));
    }
    if rel.len() == 0 {
        return None;
    }
    let mut k: usize = 0;
    while k < rel.len()
        invariant
            k <= rel@.len(),
            rel@ == spec_rel_path(path@),
            rel@.len() > 0,
            forall|j: int| 0 <= j < k ==> !dotdot_at(rel@, j),
        decreases rel.len() - k,
    {
        let two_more = rel.len() - k >= 2;
        if rel[k] == 46u8 && two_more && rel[k + 1] == 46u8 && (k == 0 || rel[k - 1] == 47u8) && (
        k + 2 == rel.len() || rel[k + 2] == 47u8) {
            proof {
                assert(dotdot_at(rel@, k as int));
            }
            return None;
        }
        k = k + 1;
    }
    proof {
        assert(forall|j: int| !dotdot_at(rel@, j));
    }
    Some(rel)
}

/// What the server answers to one received request: a well-formed GET is
/// resolved under the served root, an unserved method gets an empty reply,
/// and a malformed request is a protocol error on its stream alone.
pub open spec fn spec_route_request(req: Seq<u8>) -> RouteOutcomeView {
    match spec_parse_request(req) {
        RequestParseView::GetPath(p) => match spec_resolve_under_root(p) {
            Some(rel) => RouteOutcomeView::Fetch(rel),
            None => RouteOutcomeView::NotFoundReply,
        },
        RequestParseView::OtherMethod => RouteOutcomeView::EmptyReply,
        RequestParseView::Malformed => RouteOutcomeView::BadRequest,
    }
}

/// Routes one received request.
pub fn route_request(req: &Vec<u8>) -> (r: RouteOutcome)
    ensures
        r@ == spec_route_request(req@),
{
    match parse_request(req) {
        RequestParse::GetPath(p) => match resolve_under_root(&p) {
            Some(rel) => RouteOutcome::Fetch(rel),
            None => RouteOutcome::NotFoundReply,
        },
        RequestParse::OtherMethod => RouteOutcome::EmptyReply,
        RequestParse::Malformed => RouteOutcome::BadRequest,
    }
}

/// The accept loop's state for one server connection.
#[derive(Clone, Copy, Debug, PartialEq, Eq)]
pub enum DispatchState {
    /// The connection is established and accepting streams.
    AcceptingStreams,
    /// The peer closed the connection; the loop finished cleanly.
    ConnClosed,
    /// A connection-level failure ended the loop.
    ConnFailed,
}

/// One observation of the accept loop.
#[derive(Clone, Copy, Debug, PartialEq, Eq)]
pub enum DispatchEvent {
    /// A new stream arrived with a request.
    StreamArrived,
    /// A stream's handler finished with a failure.
    StreamTaskFailed,
    /// The peer closed the connection.
    PeerClosed,
    /// The transport reported a connection-level error.
    TransportError,
}

/// What the accept loop does next.
#[derive(Clone, Copy, Debug, PartialEq, Eq)]
pub enum DispatchAction {
    /// Hand the stream to a handler of its own.
    SpawnHandler,
    /// Stop accepting and release the connection cleanly.
    FinishConnection,
    /// Stop accepting and release the connection with an error.
    AbortConnection,
    /// Nothing to do.
    Ignore,
}

/// The accept loop's transition function.  A failed stream handler leaves
/// the loop accepting: per-stream failures are isolated to their stream.
/// Connection-level events end this loop and this loop only; other
/// connections run their own machine.
pub open spec fn spec_dispatch_step(s: DispatchState, e: DispatchEvent) -> (DispatchState,
    DispatchAction) {
    match s {
        DispatchState::AcceptingStreams => match e {
            DispatchEvent::StreamArrived => (
                DispatchState::AcceptingStreams,
                DispatchAction::SpawnHandler,
            ),
            DispatchEvent::StreamTaskFailed => (
                DispatchState::AcceptingStreams,
                DispatchAction::Ignore,
            ),
            DispatchEvent::PeerClosed => (
                DispatchState::ConnClosed,
                DispatchAction::FinishConnection,
            ),
            DispatchEvent::TransportError => (
                DispatchState::ConnFailed,
                DispatchAction::AbortConnection,
            ),
        },
        DispatchState::ConnClosed => (DispatchState::ConnClosed, DispatchAction::Ignore),
        DispatchState::ConnFailed => (DispatchState::ConnFailed, DispatchAction::Ignore),
    }
}

/// Advances the accept loop's state by one observation.
pub fn dispatch_step(s: DispatchState, e: DispatchEvent) -> (r: (DispatchState, DispatchAction))
    ensures
        r == spec_dispatch_step(s, e),
{
    match s {
        DispatchState::AcceptingStreams => match e {
            DispatchEvent::StreamArrived => (
                DispatchState::AcceptingStreams,
                DispatchAction::SpawnHandler,
            ),
            DispatchEvent::StreamTaskFailed => (
                DispatchState::AcceptingStreams,
                DispatchAction::Ignore,
            ),
            DispatchEvent::PeerClosed => (
                DispatchState::ConnClosed,
                DispatchAction::FinishConnection,
            ),
            DispatchEvent::TransportError => (
                DispatchState::ConnFailed,
                DispatchAction::AbortConnection,
            ),
        },
        DispatchState::ConnClosed => (DispatchState::ConnClosed, DispatchAction::Ignore),
        DispatchState::ConnFailed => (DispatchState::ConnFailed, DispatchAction::Ignore),
    }
}

/// Law: a per-stream failure never closes its connection — the accept loop
/// stays in the accepting state and takes no connection-level action.
pub proof fn lemma_stream_failure_isolated(s: DispatchState)
    requires
        s == DispatchState::AcceptingStreams,
    ensures
        spec_dispatch_step(s, DispatchEvent::StreamTaskFailed) == (
            DispatchState::AcceptingStreams,
            DispatchAction::Ignore,
        ),
{
}

/// Law: a complete exchange is lossless.  Framing a request for a safe
/// absolute path routes, on the server, to exactly that path relative to
/// the served root; and a served response parses, on the client, to
/// exactly the served body — same length, same bytes.
pub proof fn lemma_exchange_round_trip(path: Seq<u8>, contents: Seq<u8>)
    requires
        path.len() > 0,
        path[0] == 47u8,
        spec_path_safe(path.skip(1)),
    ensures
        spec_route_request(spec_frame_request(path)) == RouteOutcomeView::Fetch(path.skip(1)),
        spec_parse_response(spec_frame_response(true, contents)) == ResponseParseView::Body(
            contents,
        ),
{
    lemma_request_round_trip(path);
    lemma_response_round_trip(contents);
}

} // verus!
