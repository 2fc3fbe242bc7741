use vstd::prelude::*;
use crate::request::ChatRequest;
use crate::response::{settle, settles, Outcome};

verus! {

/// One request for generated markup, from framing to result. The host takes
/// the request out, performs the POST, and delivers how it ended; nothing is
/// kept from one exchange to the next.
#[derive(Debug)]
pub enum Exchange {
    /// Framed, not yet sent.
    Prepared { request: ChatRequest },
    /// Handed out for sending; its outcome is awaited.
    Awaiting,
    /// Done, with the result for the caller.
    Finished { result: Result<String, String> },
}

/// The request that an exchange hands out when asked: only a prepared one has
/// one to give.
pub open spec fn handed_out(e: Exchange) -> Option<ChatRequest> {
    match e {
        Exchange::Prepared { request } => Some(request),
        _ => None,
    }
}

/// The exchange after the request was asked for.
pub open spec fn after_take(e: Exchange) -> Exchange {
    match e {
        Exchange::Prepared { .. } => Exchange::Awaiting,
        _ => e,
    }
}

/// Whether `next` is the exchange after `outcome` was delivered to `e`: an
/// awaiting exchange finishes with the result owed for the outcome, any other
/// stays as it was.
pub open spec fn delivers(e: Exchange, outcome: Outcome, next: Exchange) -> bool {
    match e {
        Exchange::Awaiting => next matches Exchange::Finished { result } && settles(outcome, result),
        _ => next == e,
    }
}

/// Whether `e` is a fresh exchange for `credential` and `image_data`.
pub open spec fn starts(e: Exchange, credential: Seq<char>, image_data: Seq<char>) -> bool {
    e matches Exchange::Prepared { request } && request.describes(credential, image_data)
}

impl Exchange {
    /// A fresh exchange for `credential` and `image_data`.
    pub fn start(credential: &str, image_data: &str) -> (r: Exchange)
        ensures
            starts(r, credential@, image_data@),
    {
        Exchange::Prepared { request: ChatRequest::new(credential, image_data) }
    }

    /// Hands out the request to send, once: a prepared exchange gives it and
    /// starts awaiting; any other gives nothing and stays as it is.
    pub fn take_request(&mut self) -> (r: Option<ChatRequest>)
        ensures
            r == handed_out(*old(self)),
            *final(self) == after_take(*old(self)),
    {
        let mut current = Exchange::Awaiting;
        std::mem::swap(self, &mut current);
        match current {
            Exchange::Prepared { request } => Some(request),
            other => {
                *self = other;
                None
            },
        }
    }

    /// Delivers how the network call ended. Only an awaiting exchange takes
    /// it, and finishes with the result owed for it.
    pub fn deliver(&mut self, outcome: Outcome)
        ensures
            delivers(*old(self), outcome, *final(self)),
    {
        match self {
            Exchange::Awaiting => {
                *self = Exchange::Finished { result: settle(outcome) };
            },
            _ => {},
        }
    }

    /// The result, once the exchange has finished.
    pub fn into_result(self) -> (r: Option<Result<String, String>>)
        ensures
            r == match self {
                Exchange::Finished { result } => Some(result),
                _ => None,
            },
    {
        match self {
            Exchange::Finished { result } => Some(result),
            _ => None,
        }
    }
}

/// At most one network call per exchange, and no retry: once the request has
/// been handed out, neither asking again nor delivering any outcome yields
/// another request.
pub proof fn lemma_at_most_one_call(e: Exchange, outcome: Outcome, next: Exchange)
    requires
        delivers(after_take(e), outcome, next),
    ensures
        handed_out(after_take(e)) is None,
        handed_out(next) is None,
        handed_out(after_take(next)) is None,
{
}

/// A transport failure ends the exchange at once: the result is an error
/// that carries the transport's own (non-empty) description, and no further
/// request is handed out.
pub proof fn lemma_transport_failure_is_final(description: String, next: Exchange)
    requires
        description@.len() > 0,
        delivers(Exchange::Awaiting, Outcome::TransportFailed { description }, next),
    ensures
        next matches Exchange::Finished { result } && result matches Err(e) && e@ == description@
            && e@.len() > 0,
        handed_out(next) is None,
{
}

/// No caching: two exchanges started with the same arguments each hand out a
/// request of their own, both describing the same POST, and each result is
/// the one owed for its own outcome, whatever the other's was.
pub proof fn lemma_exchanges_independent(
    credential: Seq<char>,
    image_data: Seq<char>,
    first: Exchange,
    second: Exchange,
    first_outcome: Outcome,
    second_outcome: Outcome,
    first_next: Exchange,
    second_next: Exchange,
)
    requires
        starts(first, credential, image_data),
        starts(second, credential, image_data),
        delivers(after_take(first), first_outcome, first_next),
        delivers(after_take(second), second_outcome, second_next),
    ensures
        handed_out(first) matches Some(q) && q.describes(credential, image_data),
        handed_out(second) matches Some(q) && q.describes(credential, image_data),
        first_next matches Exchange::Finished { result } && settles(first_outcome, result),
        second_next matches Exchange::Finished { result } && settles(second_outcome, result),
{
}

} // verus!
