//! What a client of a bootstrap agent sends when it asks for a share of the
//! trust quorum's key, and which replies it accepts.
//!
//! Sending the request and reading the reply happen where the connection
//! is; the functions here decide what goes out and what a reply's status
//! lets the client do next.
use vstd::prelude::*;

verus! {

/// The path of the bootstrap agent's endpoint that hands out key shares.
pub open spec fn request_share_path_spec() -> Seq<char> {
    "/request_share"@
}

/// The HTTP methods a client request can be sent with.
#[derive(PartialEq, Eq, Structural, Clone, Copy, Debug)]
pub enum HttpMethod {
    Get,
    Post,
    Put,
    Delete,
}

/// A share request, ready to be sent.
pub struct ShareRequestPlan {
    /// The method the request is sent with.
    pub method: HttpMethod,
    /// The path of the endpoint.
    pub path: &'static str,
    /// The request body: the JSON of the share request, which carries the
    /// identity offered to the other agent.
    pub body: Vec<u8>,
}

/// What the client does with a reply to a share request.
#[derive(PartialEq, Eq, Structural, Clone, Copy, Debug)]
pub enum ShareReplyAction {
    /// The agent answered with success: read the share from the body.
    ReadShare,
    /// The agent answered with another status: the exchange has failed.
    UnexpectedStatus(u16),
}

/// A status code of the 2xx class, which reports success.
pub open spec fn is_success_status(status: u16) -> bool {
    200 <= status && status < 300
}

/// Exactly the statuses from 200 through 299 report success: no
/// informational (1xx), redirection (3xx), client error (4xx) or server
/// error (5xx) status does.
pub proof fn lemma_success_is_exactly_2xx(status: u16)
    ensures
        is_success_status(status) <==> (200 <= status && status <= 299),
        400 <= status && status <= 499 ==> !is_success_status(status),
        500 <= status ==> !is_success_status(status),
        status < 200 ==> !is_success_status(status),
        300 <= status && status <= 399 ==> !is_success_status(status),
{
}

/// Whether a status code reports success (lies within 200-299).
pub fn status_is_success(status: u16) -> (b: bool)
    ensures
        b == is_success_status(status),
        b == (200 <= status && status <= 299),
{
    300 > status && status >= 200
}

/// The request that offers an identity to another bootstrap agent: a `GET`
/// of its share-request endpoint, with the share request's JSON as the body.
pub fn request_share_request(share_request_json: Vec<u8>) -> (plan: ShareRequestPlan)
    ensures
        plan.method == HttpMethod::Get,
        plan.path@ == request_share_path_spec(),
        plan.path@ == "/request_share"@,
        plan.body@ == share_request_json@,
{
    ShareRequestPlan { method: HttpMethod::Get, path: "/request_share", body: share_request_json }
}

/// What the reply's status lets the client do: read the share on success,
/// give up on any other status.
pub fn request_share_reply(status: u16) -> (action: ShareReplyAction)
    ensures
        action == (if is_success_status(status) {
            ShareReplyAction::ReadShare
        } else {
            ShareReplyAction::UnexpectedStatus(status)
        }),
        (200 <= status && status <= 299) ==> action == ShareReplyAction::ReadShare,
        !(200 <= status && status <= 299) ==> action == ShareReplyAction::UnexpectedStatus(status),
{
    if status_is_success(status) {
        ShareReplyAction::ReadShare
    } else {
        ShareReplyAction::UnexpectedStatus(status)
    }
}

} // verus!
