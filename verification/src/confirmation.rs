//! The confirmation service: checks a presented identifier and token
//! against the stored token and its expiry, and marks the subscriber
//! validated.

use crate::api::{conveys, respond, HttpResponse, Outcome};
use crate::json::response_body_text;
use crate::query::{param, query_param};
use crate::store::{lookup, updated, MemoryStore, StoreFailure};
use crate::subscriber::{Subscriber, SubscriberView, Update, UpdateView};
use crate::time::{utc_now, Timestamp};
use vstd::prelude::*;
use vstd::string::StringExecFns;

verus! {

/// How a request to confirm ended.
#[derive(Clone, Copy, Debug, PartialEq, Eq, Structural)]
pub enum ConfirmResult {
    /// The request lacks the identifier or the token.
    MissingParameters,
    /// The subscriber is validated and the token consumed.
    Validated,
    /// The token matches but was presented too late.
    Expired,
    /// The record carries no token, or another one.
    Invalid,
    /// No record has the identifier.
    NotFound,
    /// The record could not be read.
    FetchFailed,
    /// The record could not be written.
    UpdateFailed,
}

impl ConfirmResult {
    pub open spec fn outcome(self) -> Outcome {
        match self {
            ConfirmResult::MissingParameters => Outcome::InvalidInput,
            ConfirmResult::Validated => Outcome::Success,
            ConfirmResult::Expired => Outcome::ExpiredToken,
            ConfirmResult::Invalid => Outcome::InvalidToken,
            ConfirmResult::NotFound => Outcome::NotFound,
            ConfirmResult::FetchFailed => Outcome::StorageFailure,
            ConfirmResult::UpdateFailed => Outcome::StorageFailure,
        }
    }

    pub open spec fn status(self) -> u16 {
        match self {
            ConfirmResult::MissingParameters => 400,
            ConfirmResult::Validated => 200,
            ConfirmResult::Expired => 400,
            ConfirmResult::Invalid => 400,
            ConfirmResult::NotFound => 404,
            ConfirmResult::FetchFailed => 500,
            ConfirmResult::UpdateFailed => 500,
        }
    }

    pub open spec fn text(self) -> Seq<char> {
        match self {
            ConfirmResult::MissingParameters => "Missing id or token"@,
            ConfirmResult::Validated => "Email successfully validated"@,
            ConfirmResult::Expired => "Validation token has expired"@,
            ConfirmResult::Invalid => "Invalid validation token"@,
            ConfirmResult::NotFound => "Subscriber not found"@,
            ConfirmResult::FetchFailed => "Failed to retrieve subscriber information"@,
            ConfirmResult::UpdateFailed => "Failed to validate email"@,
        }
    }

    /// The class of the outcome.
    pub fn to_outcome(&self) -> (r: Outcome)
        ensures
            r == self.outcome(),
    {
        match self {
            ConfirmResult::MissingParameters => Outcome::InvalidInput,
            ConfirmResult::Validated => Outcome::Success,
            ConfirmResult::Expired => Outcome::ExpiredToken,
            ConfirmResult::Invalid => Outcome::InvalidToken,
            ConfirmResult::NotFound => Outcome::NotFound,
            ConfirmResult::FetchFailed => Outcome::StorageFailure,
            ConfirmResult::UpdateFailed => Outcome::StorageFailure,
        }
    }

    /// The HTTP status code.
    pub fn status_code(&self) -> (r: u16)
        ensures
            r == self.status(),
            conveys(r, self.outcome()),
            100 <= r <= 999,
    {
        match self {
            ConfirmResult::MissingParameters => 400,
            ConfirmResult::Validated => 200,
            ConfirmResult::Expired => 400,
            ConfirmResult::Invalid => 400,
            ConfirmResult::NotFound => 404,
            ConfirmResult::FetchFailed => 500,
            ConfirmResult::UpdateFailed => 500,
        }
    }

    /// The message for the caller.
    pub fn message(&self) -> (r: String)
        ensures
            r@ == self.text(),
    {
        match self {
            ConfirmResult::MissingParameters => String::from_str("Missing id or token"),
            ConfirmResult::Validated => String::from_str("Email successfully validated"),
            ConfirmResult::Expired => String::from_str("Validation token has expired"),
            ConfirmResult::Invalid => String::from_str("Invalid validation token"),
            ConfirmResult::NotFound => String::from_str("Subscriber not found"),
            ConfirmResult::FetchFailed => String::from_str(
                "Failed to retrieve subscriber information",
            ),
            ConfirmResult::UpdateFailed => String::from_str("Failed to validate email"),
        }
    }

    /// The response for the caller.
    pub fn response(&self) -> (r: HttpResponse)
        ensures
            r.status_code == self.status(),
            r.content_type@ == "application/json"@,
            r.body@ == response_body_text(self.outcome() == Outcome::Success, self.text()),
    {
        respond(self.to_outcome(), self.status_code(), self.message())
    }
}

/// Where a confirmation stands.
#[derive(Debug)]
pub enum Confirming {
    /// Ask the store for the record `id`.
    Fetch { id: String, token: String },
    /// Ask the store to make `update` to the record `id`.
    Update { id: String, update: Update },
    /// Answer the caller.
    Done(ConfirmResult),
}

/// What a `Confirming` holds.
pub enum ConfirmingView {
    Fetch { id: Seq<char>, token: Seq<char> },
    Update { id: Seq<char>, update: UpdateView },
    Done(ConfirmResult),
}

impl View for Confirming {
    type V = ConfirmingView;

    open spec fn view(&self) -> ConfirmingView {
        match self {
            Confirming::Fetch { id, token } => ConfirmingView::Fetch { id: id@, token: token@ },
            Confirming::Update { id, update } => ConfirmingView::Update {
                id: id@,
                update: update@,
            },
            Confirming::Done(result) => ConfirmingView::Done(*result),
        }
    }
}

/// The reason to refuse `token`, presented at the time `now`, against what the
/// store holds under the identifier: `None` where the token is the
/// outstanding one and in time.
pub open spec fn refusal(record: Option<SubscriberView>, token: Seq<char>, now: Timestamp) -> Option<
    ConfirmResult,
> {
    match record {
        None => Some(ConfirmResult::NotFound),
        Some(record) => if record.validation_token != Some(token) {
            Some(ConfirmResult::Invalid)
        } else {
            match record.token_expiration {
                Some(expiration) => if now.is_before(expiration) {
                    None
                } else {
                    Some(ConfirmResult::Expired)
                },
                None => Some(ConfirmResult::Invalid),
            }
        },
    }
}

/// The step after the store answered the fetch.
pub open spec fn after_fetched(
    id: Seq<char>,
    token: Seq<char>,
    reply: Result<Option<SubscriberView>, StoreFailure>,
    now: Timestamp,
) -> ConfirmingView {
    match reply {
        Ok(record) => match refusal(record, token, now) {
            Some(result) => ConfirmingView::Done(result),
            None => ConfirmingView::Update { id, update: UpdateView::Confirm { token, at: now } },
        },
        Err(_) => ConfirmingView::Done(ConfirmResult::FetchFailed),
    }
}

/// The step after the store answered the update. An update that the store
/// did not make means that the token is no longer the outstanding one.
pub open spec fn after_updated(reply: Result<bool, StoreFailure>) -> ConfirmingView {
    match reply {
        Ok(made) => if made {
            ConfirmingView::Done(ConfirmResult::Validated)
        } else {
            ConfirmingView::Done(ConfirmResult::Invalid)
        },
        Err(_) => ConfirmingView::Done(ConfirmResult::UpdateFailed),
    }
}

/// The first step: both parameters are needed.
pub fn begin(id: Option<String>, token: Option<String>) -> (r: Confirming)
    ensures
        match (id, token) {
            (Some(id), Some(token)) => r@ == (ConfirmingView::Fetch { id: id@, token: token@ }),
            _ => r@ == ConfirmingView::Done(ConfirmResult::MissingParameters),
        },
{
    match (id, token) {
        (Some(id), Some(token)) => Confirming::Fetch { id, token },
        _ => Confirming::Done(ConfirmResult::MissingParameters),
    }
}

/// The first step for a request with the query string `query`: the
/// identifier is the value of its first pair named `id`, the token that of
/// its first pair named `token`.
pub fn begin_with_query(query: &str) -> (r: Confirming)
    ensures
        match (param(query@, "id"@), param(query@, "token"@)) {
            (Some(id), Some(token)) => r@ == (ConfirmingView::Fetch { id, token }),
            _ => r@ == ConfirmingView::Done(ConfirmResult::MissingParameters),
        },
{
    let id = query_param(query, "id");
    let token = query_param(query, "token");
    begin(id, token)
}

/// The view of what a fetch returned.
pub open spec fn fetched_view(reply: Result<Option<Subscriber>, StoreFailure>) -> Result<
    Option<SubscriberView>,
    StoreFailure,
> {
    match reply {
        Ok(Some(record)) => Ok(Some(record@)),
        Ok(None) => Ok(None),
        Err(e) => Err(e),
    }
}

/// The step after the store answered the fetch with `reply`, at the time
/// `now`.
pub fn after_fetch_at(
    id: String,
    token: String,
    reply: Result<Option<Subscriber>, StoreFailure>,
    now: Timestamp,
) -> (r: Confirming)
    ensures
        r@ == after_fetched(id@, token@, fetched_view(reply), now),
        now.valid() ==> (r matches Confirming::Update { update, .. } ==> update.wf()),
{
    match reply {
        Err(_) => Confirming::Done(ConfirmResult::FetchFailed),
        Ok(None) => Confirming::Done(ConfirmResult::NotFound),
        Ok(Some(record)) => {
            let matches = match &record.validation_token {
                Some(held) => *held == token,
                None => false,
            };
            if !matches {
                Confirming::Done(ConfirmResult::Invalid)
            } else {
                match record.token_expiration {
                    Some(expiration) => if now.before(&expiration) {
                        Confirming::Update { id, update: Update::Confirm { token, at: now } }
                    } else {
                        Confirming::Done(ConfirmResult::Expired)
                    },
                    None => Confirming::Done(ConfirmResult::Invalid),
                }
            }
        },
    }
}

/// The step after the store answered the fetch with `reply`, at the
/// current time. Whatever the clock says, the step is the one that
/// `after_fetch_at` takes at that time.
pub fn after_fetch(id: String, token: String, reply: Result<Option<Subscriber>, StoreFailure>) -> (r:
    Confirming)
    ensures
        exists|now: Timestamp|
            now.valid() && #[trigger] after_fetched(id@, token@, fetched_view(reply), now) == r@,
        r matches Confirming::Update { update, .. } ==> update.wf(),
{
    let now = utc_now();
    let r = after_fetch_at(id, token, reply, now);
    assert(after_fetched(id@, token@, fetched_view(reply), now) == r@);
    r
}

/// The step after the store answered the update with `reply`: whether it
/// made the update, or a failure.
pub fn after_update(reply: Result<bool, StoreFailure>) -> (r: Confirming)
    ensures
        r@ == after_updated(reply),
{
    match reply {
        Ok(made) => if made {
            Confirming::Done(ConfirmResult::Validated)
        } else {
            Confirming::Done(ConfirmResult::Invalid)
        },
        Err(_) => Confirming::Done(ConfirmResult::UpdateFailed),
    }
}

/// A confirmation against a store that answers every request: the result,
/// and the store after it.
pub open spec fn confirmed(
    records: Seq<SubscriberView>,
    id: Seq<char>,
    token: Seq<char>,
    now: Timestamp,
) -> (Seq<SubscriberView>, ConfirmResult) {
    match refusal(lookup(records, id), token, now) {
        Some(result) => (records, result),
        None => (
            updated(records, id, UpdateView::Confirm { token, at: now }),
            ConfirmResult::Validated,
        ),
    }
}

/// Confirms `id` with `token` against an in-memory store at the time
/// `now`.
pub fn confirm_at(store: &mut MemoryStore, id: &str, token: &str, now: Timestamp) -> (r:
    ConfirmResult)
    requires
        old(store).wf(),
        now.valid(),
    ensures
        final(store).wf(),
        (final(store)@, r) == confirmed(old(store)@, id@, token@, now),
{
    let mut state = begin(Some(id.to_owned()), Some(token.to_owned()));
    if let Confirming::Fetch { id, token } = state {
        let record = store.get(id.as_str());
        state = after_fetch_at(id, token, Ok(record), now);
    }
    if let Confirming::Update { id, update } = state {
        let made = store.update(id.as_str(), &update);
        state = after_update(Ok(made));
    }
    match state {
        Confirming::Done(result) => result,
        _ => ConfirmResult::FetchFailed,
    }
}

/// Confirms `id` with `token` against an in-memory store at the current
/// time.
pub fn confirm(store: &mut MemoryStore, id: &str, token: &str) -> (r: ConfirmResult)
    requires
        old(store).wf(),
    ensures
        final(store).wf(),
        exists|now: Timestamp|
            now.valid() && (final(store)@, r) == #[trigger] confirmed(
                old(store)@,
                id@,
                token@,
                now,
            ),
{
    let now = utc_now();
    let r = confirm_at(store, id, token, now);
    assert((store@, r) == confirmed(old(store)@, id@, token@, now));
    r
}

} // verus!
