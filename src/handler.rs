//! Per-request correlation and the reply a client gets when forwarding fails.

use vstd::prelude::*;
use crate::forward::ForwardError;

verus! {

/// Relies on `uuid::Uuid::new_v4` for a fresh random identifier and on its
/// `Display`, which writes the 36-character hyphenated form.
#[verifier::external_body]
fn random_uuid_text() -> (r: String)
    ensures
        r@.len() == 36,
        r@[8] == '-' && r@[13] == '-' && r@[18] == '-' && r@[23] == '-',
{
    uuid::Uuid::new_v4().to_string()
}

/// An identifier that ties a request's log lines to the reply its client saw.
pub struct CorrelationId {
    text: String,
}

impl View for CorrelationId {
    type V = Seq<char>;

    closed spec fn view(&self) -> Seq<char> {
        self.text@
    }
}

impl CorrelationId {
    /// A fresh random identifier in hyphenated UUID form.
    pub fn generate() -> (r: CorrelationId)
        ensures
            r@.len() == 36,
            r@[8] == '-' && r@[13] == '-' && r@[18] == '-' && r@[23] == '-',
    {
        CorrelationId { text: random_uuid_text() }
    }

    /// The identifier's text.
    pub fn as_str(&self) -> (r: &str)
        ensures
            r@ == self@,
    {
        self.text.as_str()
    }
}

/// Status code of every reply to a request that could not be forwarded.
pub const INTERNAL_SERVER_ERROR: u16 = 500;

/// The fixed text in front of the identifier in a failure reply.
pub open spec fn failure_prefix() -> Seq<char> {
    "An unhandled error occurred, error identifier "@
}

/// The body of the failure reply for the request with identifier `id`.
pub open spec fn failure_body(id: Seq<char>) -> Seq<char> {
    failure_prefix() + id
}

/// The reply sent in place of an upstream response; it reveals nothing of
/// the failure but the request's identifier.
pub struct ErrorReply {
    pub status: u16,
    pub body: String,
}

/// What the client receives for one request.
pub enum Reply<R> {
    /// The upstream's response, relayed unchanged.
    Relay(R),
    /// A failure reply.
    Failure(ErrorReply),
}

/// The failure reply for the request with identifier `id`.
pub fn error_reply(id: &CorrelationId) -> (r: ErrorReply)
    ensures
        r.status == 500,
        r.body@ == failure_body(id@),
{
    let mut body = String::from_str("An unhandled error occurred, error identifier ");
    body.append(id.as_str());
    ErrorReply { status: INTERNAL_SERVER_ERROR, body }
}

/// The reply owed for `outcome` to the request with identifier `id`.
pub open spec fn reply_result<R>(id: Seq<char>, outcome: Result<R, ForwardError>, r: Reply<R>) -> bool {
    match outcome {
        Ok(resp) => r == Reply::Relay(resp),
        Err(_) => match r {
            Reply::Failure(e) => e.status == 500 && e.body@ == failure_body(id),
            Reply::Relay(_) => false,
        },
    }
}

/// Decides the reply to a request from the outcome of forwarding it: the
/// upstream response as it came, or a failure reply keyed by `id` whatever
/// the error was. Hop-by-hop headers are stripped on the way in only: a
/// relayed response keeps all of its headers.
pub fn reply_for<R>(id: &CorrelationId, outcome: Result<R, ForwardError>) -> (r: Reply<R>)
    ensures
        reply_result(id@, outcome, r),
{
    match outcome {
        Ok(resp) => Reply::Relay(resp),
        Err(_) => Reply::Failure(error_reply(id)),
    }
}

} // verus!
