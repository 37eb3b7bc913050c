//! Requests, responses and the classes of outcome that a caller can tell
//! apart.

use crate::json::{response_body, response_body_text};
use vstd::prelude::*;
use vstd::string::StringExecFns;

verus! {

/// The class of a service's outcome.
#[derive(Clone, Copy, Debug, PartialEq, Eq, Structural)]
pub enum Outcome {
    /// The request was carried out, or had been carried out before.
    Success,
    /// The request is malformed; the caller can correct it.
    InvalidInput,
    /// No subscriber matches.
    NotFound,
    /// The presented token is not the one outstanding.
    InvalidToken,
    /// The presented token matches but its time has run out.
    ExpiredToken,
    /// The store could not be read or written.
    StorageFailure,
}

/// The body of a request to subscribe.
#[derive(Debug)]
pub struct SubscribeRequest {
    pub email: String,
}

/// The body of a request to unsubscribe.
#[derive(Debug)]
pub struct UnsubscribeRequest {
    pub email: String,
}

/// The body of every response.
#[derive(Debug)]
pub struct ApiResponse {
    pub success: bool,
    pub message: String,
}

/// A response as handed to the HTTP layer.
#[derive(Debug)]
pub struct HttpResponse {
    pub status_code: u16,
    pub content_type: String,
    pub body: String,
}

/// Whether a status code conveys a class of outcome: 200 to 299 for
/// success, 404 where nothing matches, 400 for what the caller can correct,
/// 500 for a failure of the store.
pub open spec fn conveys(status: u16, outcome: Outcome) -> bool {
    match outcome {
        Outcome::Success => 200 <= status <= 299,
        Outcome::InvalidInput => status == 400,
        Outcome::NotFound => status == 404,
        Outcome::InvalidToken => status == 400,
        Outcome::ExpiredToken => status == 400,
        Outcome::StorageFailure => status == 500,
    }
}

/// The response with the given status and body, as JSON.
pub fn create_response(status_code: u16, body: ApiResponse) -> (r: HttpResponse)
    requires
        100 <= status_code <= 999,
    ensures
        r.status_code == status_code,
        r.content_type@ == "application/json"@,
        r.body@ == response_body_text(body.success, body.message@),
{
    HttpResponse {
        status_code,
        content_type: String::from_str("application/json"),
        body: response_body(body.success, body.message.as_str()),
    }
}

/// The response that carries `message` under `status_code`; it reports
/// success exactly for the class `Success`.
pub fn respond(outcome: Outcome, status_code: u16, message: String) -> (r: HttpResponse)
    requires
        100 <= status_code <= 999,
    ensures
        r.status_code == status_code,
        r.content_type@ == "application/json"@,
        r.body@ == response_body_text(outcome == Outcome::Success, message@),
{
    create_response(status_code, ApiResponse { success: outcome == Outcome::Success, message })
}

} // verus!
