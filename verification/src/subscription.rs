//! The subscription service: accepts an address, refuses a second record
//! for an address already known, stores the new record and asks for a
//! token for it.

use crate::api::{conveys, respond, HttpResponse, Outcome};
use crate::email::{email_is_valid, email_syntax_valid};
use crate::ident::IDENTIFIER_LEN;
use crate::json::{response_body_text, validation_message, validation_message_text};
use crate::store::{matching, upsert, MemoryStore, StoreFailure};
use crate::subscriber::{Subscriber, SubscriberView};
use vstd::prelude::*;
use vstd::string::StringExecFns;

verus! {

/// How a request to subscribe ended.
#[derive(Clone, Copy, Debug, PartialEq, Eq, Structural)]
pub enum SubscribeResult {
    /// The request carried no text body.
    InvalidBody,
    /// The body is not the JSON of a request.
    InvalidJson,
    /// The address is not an e-mail address.
    InvalidEmail,
    /// A record with the address exists; none was added.
    AlreadySubscribed,
    /// A record was added.
    Created,
    /// The record could not be written.
    StoreFailed,
}

impl SubscribeResult {
    pub open spec fn outcome(self) -> Outcome {
        match self {
            SubscribeResult::InvalidBody => Outcome::InvalidInput,
            SubscribeResult::InvalidJson => Outcome::InvalidInput,
            SubscribeResult::InvalidEmail => Outcome::InvalidInput,
            SubscribeResult::AlreadySubscribed => Outcome::Success,
            SubscribeResult::Created => Outcome::Success,
            SubscribeResult::StoreFailed => Outcome::StorageFailure,
        }
    }

    pub open spec fn status(self) -> u16 {
        match self {
            SubscribeResult::InvalidBody => 400,
            SubscribeResult::InvalidJson => 400,
            SubscribeResult::InvalidEmail => 400,
            SubscribeResult::AlreadySubscribed => 200,
            SubscribeResult::Created => 201,
            SubscribeResult::StoreFailed => 500,
        }
    }

    pub open spec fn text(self) -> Seq<char> {
        match self {
            SubscribeResult::InvalidBody => "Invalid request body"@,
            SubscribeResult::InvalidJson => "Invalid JSON format"@,
            SubscribeResult::InvalidEmail => "Invalid email format"@,
            SubscribeResult::AlreadySubscribed => "Email is already subscribed"@,
            SubscribeResult::Created =>
                "Successfully subscribed. Validation email will be sent shortly."@,
            SubscribeResult::StoreFailed => "Failed to subscribe"@,
        }
    }

    /// The class of the outcome.
    pub fn to_outcome(&self) -> (r: Outcome)
        ensures
            r == self.outcome(),
    {
        match self {
            SubscribeResult::InvalidBody => Outcome::InvalidInput,
            SubscribeResult::InvalidJson => Outcome::InvalidInput,
            SubscribeResult::InvalidEmail => Outcome::InvalidInput,
            SubscribeResult::AlreadySubscribed => Outcome::Success,
            SubscribeResult::Created => Outcome::Success,
            SubscribeResult::StoreFailed => Outcome::StorageFailure,
        }
    }

    /// The HTTP status code.
    pub fn status_code(&self) -> (r: u16)
        ensures
            r == self.status(),
            conveys(r, self.outcome()),
            100 <= r <= 999,
    {
        match self {
            SubscribeResult::InvalidBody => 400,
            SubscribeResult::InvalidJson => 400,
            SubscribeResult::InvalidEmail => 400,
            SubscribeResult::AlreadySubscribed => 200,
            SubscribeResult::Created => 201,
            SubscribeResult::StoreFailed => 500,
        }
    }

    /// The message for the caller.
    pub fn message(&self) -> (r: String)
        ensures
            r@ == self.text(),
    {
        match self {
            SubscribeResult::InvalidBody => String::from_str("Invalid request body"),
            SubscribeResult::InvalidJson => String::from_str("Invalid JSON format"),
            SubscribeResult::InvalidEmail => String::from_str("Invalid email format"),
            SubscribeResult::AlreadySubscribed => String::from_str("Email is already subscribed"),
            SubscribeResult::Created => String::from_str(
                "Successfully subscribed. Validation email will be sent shortly.",
            ),
            SubscribeResult::StoreFailed => String::from_str("Failed to subscribe"),
        }
    }

    /// The response for the caller.
    pub fn response(&self) -> (r: HttpResponse)
        ensures
            r.status_code == self.status(),
            r.content_type@ == "application/json"@,
            r.body@ == response_body_text(self.outcome() == Outcome::Success, self.text()),
    {
        respond(self.to_outcome(), self.status_code(), self.message())
    }
}

/// Where a subscription stands: what is to be asked of the store or the
/// queue next, or how the request ended.
#[derive(Debug)]
pub enum Subscribing {
    /// Ask the address index for the records with the candidate's address.
    QueryIndex(Subscriber),
    /// Ask for the same by a scan of all records.
    Scan(Subscriber),
    /// Write the candidate.
    Put(Subscriber),
    /// Publish the message that asks for a token.
    Publish(String),
    /// Answer the caller.
    Done(SubscribeResult),
}

/// What a `Subscribing` holds.
pub enum SubscribingView {
    QueryIndex(SubscriberView),
    Scan(SubscriberView),
    Put(SubscriberView),
    Publish(Seq<char>),
    Done(SubscribeResult),
}

impl View for Subscribing {
    type V = SubscribingView;

    open spec fn view(&self) -> SubscribingView {
        match self {
            Subscribing::QueryIndex(candidate) => SubscribingView::QueryIndex(candidate@),
            Subscribing::Scan(candidate) => SubscribingView::Scan(candidate@),
            Subscribing::Put(candidate) => SubscribingView::Put(candidate@),
            Subscribing::Publish(message) => SubscribingView::Publish(message@),
            Subscribing::Done(result) => SubscribingView::Done(*result),
        }
    }
}

/// The first step for an address: refuse it, or look for it with a
/// candidate record in hand.
pub open spec fn begun(syntax_ok: bool, candidate: SubscriberView) -> SubscribingView {
    if syntax_ok {
        SubscribingView::QueryIndex(candidate)
    } else {
        SubscribingView::Done(SubscribeResult::InvalidEmail)
    }
}

/// The step after the index answered. Where the index failed, the
/// records are scanned.
pub open spec fn after_index_query(
    candidate: SubscriberView,
    reply: Result<nat, StoreFailure>,
) -> SubscribingView {
    match reply {
        Ok(found) => if found > 0 {
            SubscribingView::Done(SubscribeResult::AlreadySubscribed)
        } else {
            SubscribingView::Put(candidate)
        },
        Err(_) => SubscribingView::Scan(candidate),
    }
}

/// The step after the scan answered. A failed scan does not hold the
/// subscription up.
pub open spec fn after_scan_query(
    candidate: SubscriberView,
    reply: Result<nat, StoreFailure>,
) -> SubscribingView {
    match reply {
        Ok(found) => if found > 0 {
            SubscribingView::Done(SubscribeResult::AlreadySubscribed)
        } else {
            SubscribingView::Put(candidate)
        },
        Err(_) => SubscribingView::Put(candidate),
    }
}

/// The step after the write.
pub open spec fn after_write(
    candidate: SubscriberView,
    reply: Result<(), StoreFailure>,
) -> SubscribingView {
    match reply {
        Ok(_) => SubscribingView::Publish(validation_message_text(candidate.email, candidate.id)),
        Err(_) => SubscribingView::Done(SubscribeResult::StoreFailed),
    }
}

/// The first step, given whether the address is one and the candidate.
pub fn begin_from(syntax_ok: bool, candidate: Subscriber) -> (r: Subscribing)
    ensures
        r@ == begun(syntax_ok, candidate@),
{
    if syntax_ok {
        Subscribing::QueryIndex(candidate)
    } else {
        Subscribing::Done(SubscribeResult::InvalidEmail)
    }
}

/// The first step for `email`. The candidate gets a fresh identifier and
/// the current time; whatever they are, it is a new registrant's record
/// for `email`.
pub fn begin(email: String) -> (r: Subscribing)
    ensures
        match r@ {
            SubscribingView::QueryIndex(candidate) => {
                &&& email_syntax_valid(email@)
                &&& candidate == SubscriberView::created(
                    candidate.id,
                    email@,
                    candidate.created_at,
                )
                &&& candidate.id.len() == IDENTIFIER_LEN
                &&& candidate.wf()
            },
            SubscribingView::Done(result) => {
                &&& !email_syntax_valid(email@)
                &&& result == SubscribeResult::InvalidEmail
            },
            _ => false,
        },
{
    let syntax_ok = email_is_valid(email.as_str());
    let candidate = Subscriber::new(email);
    begin_from(syntax_ok, candidate)
}

/// The step after the index answered with `reply`: the number of records
/// with the candidate's address, or a failure.
pub fn after_index(candidate: Subscriber, reply: Result<usize, StoreFailure>) -> (r: Subscribing)
    ensures
        r@ == after_index_query(
            candidate@,
            match reply {
                Ok(found) => Ok(found as nat),
                Err(e) => Err(e),
            },
        ),
{
    match reply {
        Ok(found) => if found > 0 {
            Subscribing::Done(SubscribeResult::AlreadySubscribed)
        } else {
            Subscribing::Put(candidate)
        },
        Err(_) => Subscribing::Scan(candidate),
    }
}

/// The step after the scan answered with `reply`.
pub fn after_scan(candidate: Subscriber, reply: Result<usize, StoreFailure>) -> (r: Subscribing)
    ensures
        r@ == after_scan_query(
            candidate@,
            match reply {
                Ok(found) => Ok(found as nat),
                Err(e) => Err(e),
            },
        ),
{
    match reply {
        Ok(found) => if found > 0 {
            Subscribing::Done(SubscribeResult::AlreadySubscribed)
        } else {
            Subscribing::Put(candidate)
        },
        Err(_) => Subscribing::Put(candidate),
    }
}

/// The step after the write of the candidate answered with `reply`.
pub fn after_put(candidate: &Subscriber, reply: Result<(), StoreFailure>) -> (r: Subscribing)
    ensures
        r@ == after_write(candidate@, reply),
{
    match reply {
        Ok(_) => Subscribing::Publish(
            validation_message(candidate.email.as_str(), candidate.id.as_str()),
        ),
        Err(_) => Subscribing::Done(SubscribeResult::StoreFailed),
    }
}

/// The step after the queue answered: the record stands whether or not the
/// message went out.
pub fn after_publish(published: bool) -> (r: Subscribing)
    ensures
        r@ == SubscribingView::Done(SubscribeResult::Created),
{
    Subscribing::Done(SubscribeResult::Created)
}

/// What a subscription leaves behind: the store, the result, and the
/// message for the queue if a record was added.
pub struct Subscribed {
    pub records: Seq<SubscriberView>,
    pub result: SubscribeResult,
    pub message: Option<Seq<char>>,
}

/// A subscription against a store that answers every request.
pub open spec fn subscribed(
    records: Seq<SubscriberView>,
    syntax_ok: bool,
    candidate: SubscriberView,
) -> Subscribed {
    if !syntax_ok {
        Subscribed { records, result: SubscribeResult::InvalidEmail, message: None }
    } else if matching(records, candidate.email).len() > 0 {
        Subscribed { records, result: SubscribeResult::AlreadySubscribed, message: None }
    } else {
        Subscribed {
            records: upsert(records, candidate),
            result: SubscribeResult::Created,
            message: Some(validation_message_text(candidate.email, candidate.id)),
        }
    }
}

/// Runs a subscription for `candidate` against an in-memory store, given
/// whether the candidate's address is one. Returns the result and the
/// message for the queue.
pub fn subscribe_from(store: &mut MemoryStore, syntax_ok: bool, candidate: Subscriber) -> (r: (
    SubscribeResult,
    Option<String>,
))
    requires
        old(store).wf(),
        candidate.wf(),
    ensures
        final(store).wf(),
        final(store)@ == subscribed(old(store)@, syntax_ok, candidate@).records,
        r.0 == subscribed(old(store)@, syntax_ok, candidate@).result,
        match subscribed(old(store)@, syntax_ok, candidate@).message {
            Some(text) => r.1 matches Some(message) && message@ == text,
            None => r.1 is None,
        },
{
    let mut state = begin_from(syntax_ok, candidate);
    if let Subscribing::QueryIndex(candidate) = state {
        let found = store.find_by_email(candidate.email.as_str());
        assert(found@.len() == found@.map_values(|s: Subscriber| s@).len());
        state = after_index(candidate, Ok(found.len()));
    }
    if let Subscribing::Put(candidate) = state {
        store.put(candidate.clone());
        state = after_put(&candidate, Ok(()));
    }
    let mut message: Option<String> = None;
    if let Subscribing::Publish(text) = state {
        message = Some(text);
        state = after_publish(true);
    }
    match state {
        Subscribing::Done(result) => (result, message),
        _ => (SubscribeResult::StoreFailed, message),
    }
}

/// Runs a subscription for `email` against an in-memory store, with a
/// fresh identifier and the current time for the candidate.
pub fn subscribe(store: &mut MemoryStore, email: String) -> (r: (SubscribeResult, Option<String>))
    requires
        old(store).wf(),
    ensures
        final(store).wf(),
        exists|candidate: SubscriberView|
            {
                &&& candidate == SubscriberView::created(
                    candidate.id,
                    email@,
                    candidate.created_at,
                )
                &&& candidate.id.len() == IDENTIFIER_LEN
                &&& candidate.wf()
                &&& final(store)@ == (#[trigger] subscribed(
                    old(store)@,
                    email_syntax_valid(email@),
                    candidate,
                )).records
                &&& r.0 == subscribed(old(store)@, email_syntax_valid(email@), candidate).result
                &&& match subscribed(old(store)@, email_syntax_valid(email@), candidate).message {
                    Some(text) => r.1 matches Some(message) && message@ == text,
                    None => r.1 is None,
                }
            },
{
    let syntax_ok = email_is_valid(email.as_str());
    let candidate = Subscriber::new(email);
    let ghost chosen = candidate@;
    let r = subscribe_from(store, syntax_ok, candidate);
    assert(r.0 == subscribed(old(store)@, email_syntax_valid(email@), chosen).result);
    r
}

} // verus!
