//! The deactivation service: finds a subscriber by address and marks the
//! first match inactive.

use crate::api::{conveys, respond, HttpResponse, Outcome};
use crate::json::response_body_text;
use crate::store::{lemma_matching, lemma_position};
use crate::store::{matching, updated, MemoryStore, StoreFailure};
use crate::subscriber::{Subscriber, SubscriberView, Update, UpdateView};
use crate::time::{utc_now, Timestamp};
use vstd::prelude::*;
use vstd::string::StringExecFns;

verus! {

/// How a request to unsubscribe ended.
#[derive(Clone, Copy, Debug, PartialEq, Eq, Structural)]
pub enum UnsubscribeResult {
    /// The request carried no text body.
    InvalidBody,
    /// The body is not the JSON of a request.
    InvalidJson,
    /// No record has the address.
    EmailNotFound,
    /// The first record with the address is inactive now.
    Unsubscribed,
    /// The record could not be written.
    UpdateFailed,
    /// The record found by address was gone when it was to be written.
    SubscriberNotFound,
    /// The records could not be searched.
    LookupFailed,
}

impl UnsubscribeResult {
    pub open spec fn outcome(self) -> Outcome {
        match self {
            UnsubscribeResult::InvalidBody => Outcome::InvalidInput,
            UnsubscribeResult::InvalidJson => Outcome::InvalidInput,
            UnsubscribeResult::EmailNotFound => Outcome::NotFound,
            UnsubscribeResult::Unsubscribed => Outcome::Success,
            UnsubscribeResult::UpdateFailed => Outcome::StorageFailure,
            UnsubscribeResult::SubscriberNotFound => Outcome::NotFound,
            UnsubscribeResult::LookupFailed => Outcome::StorageFailure,
        }
    }

    pub open spec fn status(self) -> u16 {
        match self {
            UnsubscribeResult::InvalidBody => 400,
            UnsubscribeResult::InvalidJson => 400,
            UnsubscribeResult::EmailNotFound => 404,
            UnsubscribeResult::Unsubscribed => 200,
            UnsubscribeResult::UpdateFailed => 500,
            UnsubscribeResult::SubscriberNotFound => 404,
            UnsubscribeResult::LookupFailed => 500,
        }
    }

    pub open spec fn text(self) -> Seq<char> {
        match self {
            UnsubscribeResult::InvalidBody => "Invalid request body"@,
            UnsubscribeResult::InvalidJson => "Invalid JSON format"@,
            UnsubscribeResult::EmailNotFound => "Email not found in subscribers"@,
            UnsubscribeResult::Unsubscribed => "Successfully unsubscribed"@,
            UnsubscribeResult::UpdateFailed => "Failed to unsubscribe"@,
            UnsubscribeResult::SubscriberNotFound => "Subscriber not found"@,
            UnsubscribeResult::LookupFailed => "Error processing unsubscribe request"@,
        }
    }

    /// The class of the outcome.
    pub fn to_outcome(&self) -> (r: Outcome)
        ensures
            r == self.outcome(),
    {
        match self {
            UnsubscribeResult::InvalidBody => Outcome::InvalidInput,
            UnsubscribeResult::InvalidJson => Outcome::InvalidInput,
            UnsubscribeResult::EmailNotFound => Outcome::NotFound,
            UnsubscribeResult::Unsubscribed => Outcome::Success,
            UnsubscribeResult::UpdateFailed => Outcome::StorageFailure,
            UnsubscribeResult::SubscriberNotFound => Outcome::NotFound,
            UnsubscribeResult::LookupFailed => Outcome::StorageFailure,
        }
    }

    /// The HTTP status code.
    pub fn status_code(&self) -> (r: u16)
        ensures
            r == self.status(),
            conveys(r, self.outcome()),
            100 <= r <= 999,
    {
        match self {
            UnsubscribeResult::InvalidBody => 400,
            UnsubscribeResult::InvalidJson => 400,
            UnsubscribeResult::EmailNotFound => 404,
            UnsubscribeResult::Unsubscribed => 200,
            UnsubscribeResult::UpdateFailed => 500,
            UnsubscribeResult::SubscriberNotFound => 404,
            UnsubscribeResult::LookupFailed => 500,
        }
    }

    /// The message for the caller.
    pub fn message(&self) -> (r: String)
        ensures
            r@ == self.text(),
    {
        match self {
            UnsubscribeResult::InvalidBody => String::from_str("Invalid request body"),
            UnsubscribeResult::InvalidJson => String::from_str("Invalid JSON format"),
            UnsubscribeResult::EmailNotFound => String::from_str("Email not found in subscribers"),
            UnsubscribeResult::Unsubscribed => String::from_str("Successfully unsubscribed"),
            UnsubscribeResult::UpdateFailed => String::from_str("Failed to unsubscribe"),
            UnsubscribeResult::SubscriberNotFound => String::from_str("Subscriber not found"),
            UnsubscribeResult::LookupFailed => String::from_str(
                "Error processing unsubscribe request",
            ),
        }
    }

    /// The response for the caller.
    pub fn response(&self) -> (r: HttpResponse)
        ensures
            r.status_code == self.status(),
            r.content_type@ == "application/json"@,
            r.body@ == response_body_text(self.outcome() == Outcome::Success, self.text()),
    {
        respond(self.to_outcome(), self.status_code(), self.message())
    }
}

/// Where a deactivation stands.
#[derive(Debug)]
pub enum Deactivating {
    /// Ask the address index for the records with the address.
    QueryIndex(String),
    /// Ask for the same by a scan of all records.
    Scan(String),
    /// Ask the store to make `update` to the record `id`.
    Update { id: String, update: Update },
    /// Answer the caller.
    Done(UnsubscribeResult),
}

/// What a `Deactivating` holds.
pub enum DeactivatingView {
    QueryIndex(Seq<char>),
    Scan(Seq<char>),
    Update { id: Seq<char>, update: UpdateView },
    Done(UnsubscribeResult),
}

impl View for Deactivating {
    type V = DeactivatingView;

    open spec fn view(&self) -> DeactivatingView {
        match self {
            Deactivating::QueryIndex(email) => DeactivatingView::QueryIndex(email@),
            Deactivating::Scan(email) => DeactivatingView::Scan(email@),
            Deactivating::Update { id, update } => DeactivatingView::Update {
                id: id@,
                update: update@,
            },
            Deactivating::Done(result) => DeactivatingView::Done(*result),
        }
    }
}

/// The step for the records found with the address: the first one is
/// deactivated, any others are left as they are.
pub open spec fn for_matches(found: Seq<SubscriberView>, now: Timestamp) -> DeactivatingView {
    if found.len() == 0 {
        DeactivatingView::Done(UnsubscribeResult::EmailNotFound)
    } else {
        DeactivatingView::Update { id: found[0].id, update: UpdateView::Deactivate { at: now } }
    }
}

/// The step after the index answered. Where the index failed, the
/// records are scanned.
pub open spec fn after_index_query(
    email: Seq<char>,
    reply: Result<Seq<SubscriberView>, StoreFailure>,
    now: Timestamp,
) -> DeactivatingView {
    match reply {
        Ok(found) => for_matches(found, now),
        Err(_) => DeactivatingView::Scan(email),
    }
}

/// The step after the scan answered.
pub open spec fn after_scan_query(
    reply: Result<Seq<SubscriberView>, StoreFailure>,
    now: Timestamp,
) -> DeactivatingView {
    match reply {
        Ok(found) => for_matches(found, now),
        Err(_) => DeactivatingView::Done(UnsubscribeResult::LookupFailed),
    }
}

/// The step after the store answered the update.
pub open spec fn after_updated(reply: Result<bool, StoreFailure>) -> DeactivatingView {
    match reply {
        Ok(made) => if made {
            DeactivatingView::Done(UnsubscribeResult::Unsubscribed)
        } else {
            DeactivatingView::Done(UnsubscribeResult::SubscriberNotFound)
        },
        Err(_) => DeactivatingView::Done(UnsubscribeResult::UpdateFailed),
    }
}

/// The view of what a search by address returned.
pub open spec fn found_view(reply: Result<Vec<Subscriber>, StoreFailure>) -> Result<
    Seq<SubscriberView>,
    StoreFailure,
> {
    match reply {
        Ok(found) => Ok(found@.map_values(|s: Subscriber| s@)),
        Err(e) => Err(e),
    }
}

/// The step for the records found with the address.
fn decide(found: &Vec<Subscriber>, now: Timestamp) -> (r: Deactivating)
    ensures
        r@ == for_matches(found@.map_values(|s: Subscriber| s@), now),
        now.valid() ==> (r matches Deactivating::Update { update, .. } ==> update.wf()),
{
    if found.len() == 0 {
        Deactivating::Done(UnsubscribeResult::EmailNotFound)
    } else {
        Deactivating::Update { id: found[0].id.clone(), update: Update::Deactivate { at: now } }
    }
}

/// The first step for `email`.
pub fn begin(email: String) -> (r: Deactivating)
    ensures
        r@ == DeactivatingView::QueryIndex(email@),
{
    Deactivating::QueryIndex(email)
}

/// The step after the index answered with `reply`, at the time `now`.
pub fn after_index_at(email: String, reply: Result<Vec<Subscriber>, StoreFailure>, now: Timestamp) -> (r:
    Deactivating)
    ensures
        r@ == after_index_query(email@, found_view(reply), now),
        now.valid() ==> (r matches Deactivating::Update { update, .. } ==> update.wf()),
{
    match reply {
        Ok(found) => decide(&found, now),
        Err(_) => Deactivating::Scan(email),
    }
}

/// The step after the index answered with `reply`, at the current time.
pub fn after_index(email: String, reply: Result<Vec<Subscriber>, StoreFailure>) -> (r: Deactivating)
    ensures
        exists|now: Timestamp|
            now.valid() && #[trigger] after_index_query(email@, found_view(reply), now) == r@,
        r matches Deactivating::Update { update, .. } ==> update.wf(),
{
    let now = utc_now();
    let r = after_index_at(email, reply, now);
    assert(after_index_query(email@, found_view(reply), now) == r@);
    r
}

/// The step after the scan answered with `reply`, at the time `now`.
pub fn after_scan_at(reply: Result<Vec<Subscriber>, StoreFailure>, now: Timestamp) -> (r:
    Deactivating)
    ensures
        r@ == after_scan_query(found_view(reply), now),
        now.valid() ==> (r matches Deactivating::Update { update, .. } ==> update.wf()),
{
    match reply {
        Ok(found) => decide(&found, now),
        Err(_) => Deactivating::Done(UnsubscribeResult::LookupFailed),
    }
}

/// The step after the scan answered with `reply`, at the current time.
pub fn after_scan(reply: Result<Vec<Subscriber>, StoreFailure>) -> (r: Deactivating)
    ensures
        exists|now: Timestamp|
            now.valid() && #[trigger] after_scan_query(found_view(reply), now) == r@,
        r matches Deactivating::Update { update, .. } ==> update.wf(),
{
    let now = utc_now();
    let r = after_scan_at(reply, now);
    assert(after_scan_query(found_view(reply), now) == r@);
    r
}

/// The step after the store answered the update with `reply`: whether it
/// made the update, or a failure.
pub fn after_update(reply: Result<bool, StoreFailure>) -> (r: Deactivating)
    ensures
        r@ == after_updated(reply),
{
    match reply {
        Ok(made) => if made {
            Deactivating::Done(UnsubscribeResult::Unsubscribed)
        } else {
            Deactivating::Done(UnsubscribeResult::SubscriberNotFound)
        },
        Err(_) => Deactivating::Done(UnsubscribeResult::UpdateFailed),
    }
}

/// A deactivation against a store that answers every request: the result,
/// and the store after it.
pub open spec fn deactivated(records: Seq<SubscriberView>, email: Seq<char>, now: Timestamp) -> (
    Seq<SubscriberView>,
    UnsubscribeResult,
) {
    let found = matching(records, email);
    if found.len() == 0 {
        (records, UnsubscribeResult::EmailNotFound)
    } else {
        (
            updated(records, found[0].id, UpdateView::Deactivate { at: now }),
            UnsubscribeResult::Unsubscribed,
        )
    }
}

/// Deactivates the subscriber with address `email` in an in-memory store
/// at the time `now`.
pub fn unsubscribe_at(store: &mut MemoryStore, email: &str, now: Timestamp) -> (r:
    UnsubscribeResult)
    requires
        old(store).wf(),
        now.valid(),
    ensures
        final(store).wf(),
        (final(store)@, r) == deactivated(old(store)@, email@, now),
{
    let mut state = begin(email.to_owned());
    if let Deactivating::QueryIndex(email) = state {
        let found = store.find_by_email(email.as_str());
        state = after_index_at(email, Ok(found), now);
    }
    if let Deactivating::Update { id, update } = state {
        proof {
            lemma_matching(store@, email@);
            lemma_position(store@, id@);
        }
        let made = store.update(id.as_str(), &update);
        state = after_update(Ok(made));
    }
    match state {
        Deactivating::Done(result) => result,
        _ => UnsubscribeResult::LookupFailed,
    }
}

/// Deactivates the subscriber with address `email` in an in-memory store
/// at the current time.
pub fn unsubscribe(store: &mut MemoryStore, email: &str) -> (r: UnsubscribeResult)
    requires
        old(store).wf(),
    ensures
        final(store).wf(),
        exists|now: Timestamp|
            now.valid() && (final(store)@, r) == #[trigger] deactivated(old(store)@, email@, now),
{
    let now = utc_now();
    let r = unsubscribe_at(store, email, now);
    assert((store@, r) == deactivated(old(store)@, email@, now));
    r
}

} // verus!
