//! The token issuer: for each request from the queue, attaches a fresh
//! token with a lifetime of 24 hours to the subscriber's record and hands
//! the confirmation link to the mailer.

use crate::ident::{random_identifier, IDENTIFIER_LEN};
use crate::store::{accepts, updated, MemoryStore, StoreFailure};
use crate::subscriber::{SubscriberView, Update, UpdateView};
use crate::time::{checked_plus_hours, lemma_plus_hours_valid, utc_now, Timestamp, NANOS_PER_SEC};
use vstd::prelude::*;
use vstd::string::StringExecFns;

verus! {

/// The hours for which a token can be presented.
pub const TOKEN_LIFETIME_HOURS: u32 = 24;

/// A request from the queue for a token.
#[derive(Debug)]
pub struct ValidationMessage {
    pub action: String,
    pub email: String,
    pub subscriber_id: String,
}

/// How the handling of one request from the queue ended.
#[derive(Clone, Copy, Debug, PartialEq, Eq, Structural)]
pub enum IssueResult {
    /// The payload is not a request for a token; it was dropped.
    Malformed,
    /// The clock stands so late that no expiry can be written.
    NoExpiry,
    /// The token is stored and the link handed to the mailer.
    Issued,
    /// No record awaits a token under the identifier: there is none, or it
    /// is validated. Nothing was stored.
    NotPending,
    /// The token could not be stored.
    StoreFailed,
}

/// Where the handling of a request stands.
#[derive(Debug)]
pub enum Issuing {
    /// Ask the store to make `update` to the record `subscriber_id`.
    Store { subscriber_id: String, email: String, update: Update },
    /// Hand `link` to the mailer for `email`.
    Deliver { email: String, link: String },
    /// Nothing more to do.
    Done(IssueResult),
}

/// What an `Issuing` holds.
pub enum IssuingView {
    Store { subscriber_id: Seq<char>, email: Seq<char>, update: UpdateView },
    Deliver { email: Seq<char>, link: Seq<char> },
    Done(IssueResult),
}

impl View for Issuing {
    type V = IssuingView;

    open spec fn view(&self) -> IssuingView {
        match self {
            Issuing::Store { subscriber_id, email, update } => IssuingView::Store {
                subscriber_id: subscriber_id@,
                email: email@,
                update: update@,
            },
            Issuing::Deliver { email, link } => IssuingView::Deliver {
                email: email@,
                link: link@,
            },
            Issuing::Done(result) => IssuingView::Done(*result),
        }
    }
}

/// The link that confirms subscriber `id` with `token` at the site
/// `frontend`.
pub open spec fn confirmation_link_text(frontend: Seq<char>, id: Seq<char>, token: Seq<char>) -> Seq<
    char,
> {
    "https://"@ + frontend + "/validate?id="@ + id + "&token="@ + token
}

/// The update that attaches `token` at the time `at`, to expire 24 hours
/// later, if that instant can be written.
pub open spec fn token_update(token: Seq<char>, at: Timestamp) -> Option<UpdateView> {
    match at.plus_hours(TOKEN_LIFETIME_HOURS) {
        Some(expiration) => Some(UpdateView::IssueToken { token, expiration, at }),
        None => None,
    }
}

/// The first step for a request read at the time `at`, with `token` drawn
/// for it.
pub open spec fn begun(
    subscriber_id: Seq<char>,
    email: Seq<char>,
    token: Seq<char>,
    at: Timestamp,
) -> IssuingView {
    match token_update(token, at) {
        Some(update) => IssuingView::Store { subscriber_id, email, update },
        None => IssuingView::Done(IssueResult::NoExpiry),
    }
}

/// The step after the store answered the update: where it attached the
/// token, the link with that token goes to the mailer.
pub open spec fn after_stored(
    frontend: Seq<char>,
    subscriber_id: Seq<char>,
    email: Seq<char>,
    update: UpdateView,
    reply: Result<bool, StoreFailure>,
) -> IssuingView {
    match reply {
        Ok(made) => match update.token() {
            Some(token) => if made {
                IssuingView::Deliver {
                    email,
                    link: confirmation_link_text(frontend, subscriber_id, token),
                }
            } else {
                IssuingView::Done(IssueResult::NotPending)
            },
            None => IssuingView::Done(IssueResult::NotPending),
        },
        Err(_) => IssuingView::Done(IssueResult::StoreFailed),
    }
}

/// The confirmation link.
pub fn confirmation_link(frontend: &str, id: &str, token: &str) -> (r: String)
    ensures
        r@ == confirmation_link_text(frontend@, id@, token@),
{
    let mut link = String::from_str("https://");
    link.append(frontend);
    link.append("/validate?id=");
    link.append(id);
    link.append("&token=");
    link.append(token);
    link
}

/// The first step for `message`, read at the time `at`, with `token` drawn
/// for it.
pub fn begin_at(message: &ValidationMessage, token: String, at: Timestamp) -> (r: Issuing)
    ensures
        r@ == begun(message.subscriber_id@, message.email@, token@, at),
        r matches Issuing::Store { update, .. } ==> update.wf(),
{
    proof {
        lemma_plus_hours_valid(at, TOKEN_LIFETIME_HOURS);
    }
    match checked_plus_hours(at, TOKEN_LIFETIME_HOURS) {
        Some(expiration) => Issuing::Store {
            subscriber_id: message.subscriber_id.clone(),
            email: message.email.clone(),
            update: Update::IssueToken { token, expiration, at },
        },
        None => Issuing::Done(IssueResult::NoExpiry),
    }
}

/// The first step for `message`, with a fresh random token and the current
/// time. Whatever token and time were drawn, the step is the one that
/// `begin_at` takes with them.
pub fn begin(message: &ValidationMessage) -> (r: Issuing)
    ensures
        exists|token: Seq<char>, at: Timestamp|
            {
                &&& token.len() == IDENTIFIER_LEN
                &&& at.valid()
                &&& at.nanos < NANOS_PER_SEC
                &&& #[trigger] begun(message.subscriber_id@, message.email@, token, at) == r@
            },
        r matches Issuing::Store { update, .. } ==> update.wf(),
{
    let token = random_identifier();
    let at = utc_now();
    let r = begin_at(message, token, at);
    assert(begun(message.subscriber_id@, message.email@, token@, at) == r@);
    r
}

/// The step after the store answered `update` of `subscriber_id` with
/// `reply`: whether it made the update, or a failure.
pub fn after_update(
    frontend: &str,
    subscriber_id: &str,
    email: String,
    update: &Update,
    reply: Result<bool, StoreFailure>,
) -> (r: Issuing)
    ensures
        r@ == after_stored(frontend@, subscriber_id@, email@, update@, reply),
{
    match reply {
        Ok(made) => match update.token() {
            Some(token) => if made {
                Issuing::Deliver {
                    email,
                    link: confirmation_link(frontend, subscriber_id, token.as_str()),
                }
            } else {
                Issuing::Done(IssueResult::NotPending)
            },
            None => Issuing::Done(IssueResult::NotPending),
        },
        Err(_) => Issuing::Done(IssueResult::StoreFailed),
    }
}

/// The step after the mailer answered: a link that could not be delivered
/// is not sent again.
pub fn after_delivery(delivered: bool) -> (r: Issuing)
    ensures
        r@ == IssuingView::Done(IssueResult::Issued),
{
    Issuing::Done(IssueResult::Issued)
}

/// What the handling of a request leaves behind: the store, the result,
/// and the link for the mailer if a token was stored.
pub struct Issued {
    pub records: Seq<SubscriberView>,
    pub result: IssueResult,
    pub link: Option<Seq<char>>,
}

/// The handling of a request against a store that answers every request.
pub open spec fn issued(
    records: Seq<SubscriberView>,
    frontend: Seq<char>,
    subscriber_id: Seq<char>,
    token: Seq<char>,
    at: Timestamp,
) -> Issued {
    match token_update(token, at) {
        Some(update) => if accepts(records, subscriber_id, update) {
            Issued {
                records: updated(records, subscriber_id, update),
                result: IssueResult::Issued,
                link: Some(confirmation_link_text(frontend, subscriber_id, token)),
            }
        } else {
            Issued { records, result: IssueResult::NotPending, link: None }
        },
        None => Issued { records, result: IssueResult::NoExpiry, link: None },
    }
}

/// Handles `message` against an in-memory store at the time `at`, with
/// `token` drawn for it. Returns the result and the link for the mailer.
pub fn issue_at(
    store: &mut MemoryStore,
    frontend: &str,
    message: &ValidationMessage,
    token: String,
    at: Timestamp,
) -> (r: (IssueResult, Option<String>))
    requires
        old(store).wf(),
    ensures
        final(store).wf(),
        final(store)@ == issued(old(store)@, frontend@, message.subscriber_id@, token@, at).records,
        r.0 == issued(old(store)@, frontend@, message.subscriber_id@, token@, at).result,
        match issued(old(store)@, frontend@, message.subscriber_id@, token@, at).link {
            Some(text) => r.1 matches Some(link) && link@ == text,
            None => r.1 is None,
        },
{
    let mut state = begin_at(message, token, at);
    if let Issuing::Store { subscriber_id, email, update } = state {
        let made = store.update(subscriber_id.as_str(), &update);
        state = after_update(frontend, subscriber_id.as_str(), email, &update, Ok(made));
    }
    let mut link: Option<String> = None;
    if let Issuing::Deliver { email, link: text } = state {
        link = Some(text);
        state = after_delivery(true);
    }
    match state {
        Issuing::Done(result) => (result, link),
        _ => (IssueResult::StoreFailed, link),
    }
}

/// Handles `message` against an in-memory store, with a fresh random token
/// and the current time.
pub fn issue(store: &mut MemoryStore, frontend: &str, message: &ValidationMessage) -> (r: (
    IssueResult,
    Option<String>,
))
    requires
        old(store).wf(),
    ensures
        final(store).wf(),
        exists|token: Seq<char>, at: Timestamp|
            {
                &&& token.len() == IDENTIFIER_LEN
                &&& at.valid()
                &&& at.nanos < NANOS_PER_SEC
                &&& final(store)@ == (#[trigger] issued(
                    old(store)@,
                    frontend@,
                    message.subscriber_id@,
                    token,
                    at,
                )).records
                &&& r.0 == issued(old(store)@, frontend@, message.subscriber_id@, token, at).result
                &&& match issued(old(store)@, frontend@, message.subscriber_id@, token, at).link {
                    Some(text) => r.1 matches Some(link) && link@ == text,
                    None => r.1 is None,
                }
            },
{
    let token = random_identifier();
    let at = utc_now();
    let ghost drawn = token@;
    let r = issue_at(store, frontend, message, token, at);
    assert(r.0 == issued(old(store)@, frontend@, message.subscriber_id@, drawn, at).result);
    r
}

} // verus!
