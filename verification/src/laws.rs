//! What holds of the services whatever the store holds: repeated requests
//! change nothing more, and a token is accepted once, in time, and only as
//! issued.

use crate::api::Outcome;
use crate::confirmation::{confirmed, ConfirmResult};
use crate::deactivation::{deactivated, UnsubscribeResult};
use crate::email::email_syntax_valid;
use crate::issuer::{issued, IssueResult, TOKEN_LIFETIME_HOURS};
use crate::store::{lemma_matching, lemma_position, lemma_updated, lookup, matching, position};
use crate::store::{store_wf, upsert};
use crate::subscriber::{SubscriberView, UpdateView};
use crate::subscription::{subscribed, SubscribeResult};
use crate::time::{lemma_plus_hours_valid, Timestamp};
use vstd::prelude::*;

verus! {

/// Two stores that agree record by record on identifier and address give
/// the same matches for an address, up to the other fields.
pub proof fn lemma_matching_congruent(
    a: Seq<SubscriberView>,
    b: Seq<SubscriberView>,
    email: Seq<char>,
)
    requires
        a.len() == b.len(),
        forall|i: int|
            0 <= i < a.len() ==> (#[trigger] a[i]).id == b[i].id && a[i].email == b[i].email,
    ensures
        matching(a, email).len() == matching(b, email).len(),
        forall|k: int|
            0 <= k < matching(a, email).len() ==> (#[trigger] matching(a, email)[k]).id
                == matching(b, email)[k].id,
    decreases a.len(),
{
    if a.len() > 0 {
        assert(a.last().id == b.last().id && a.last().email == b.last().email) by {
            assert(a[a.len() - 1].id == b[a.len() - 1].id);
        }
        assert forall|i: int| 0 <= i < a.drop_last().len() implies (#[trigger] a.drop_last()[i]).id
            == b.drop_last()[i].id && a.drop_last()[i].email == b.drop_last()[i].email by {
            assert(a[i].id == b[i].id);
        }
        lemma_matching_congruent(a.drop_last(), b.drop_last(), email);
    }
}

/// Subscribing twice in a row with a valid address succeeds both times,
/// the second time without touching the store; the first time adds at most
/// one record, and that one is unvalidated and without a token.
pub proof fn law_subscribe_twice(
    records: Seq<SubscriberView>,
    email: Seq<char>,
    first: SubscriberView,
    second: SubscriberView,
)
    requires
        store_wf(records),
        email_syntax_valid(email),
        first == SubscriberView::created(first.id, email, first.created_at),
        second == SubscriberView::created(second.id, email, second.created_at),
    ensures
        ({
            let one = subscribed(records, email_syntax_valid(email), first);
            let two = subscribed(one.records, email_syntax_valid(email), second);
            &&& one.result.outcome() == Outcome::Success
            &&& two.result.outcome() == Outcome::Success
            &&& two.result == SubscribeResult::AlreadySubscribed
            &&& two.records == one.records
            &&& one.records.len() <= records.len() + 1
            &&& one.records == records || one.records == upsert(records, first)
            &&& !first.validated && first.validation_token is None
        }),
{
    let one = subscribed(records, true, first);
    if matching(records, email).len() == 0 {
        lemma_position(records, first.id);
        let after = upsert(records, first);
        let at = match position(records, first.id) {
            Some(i) => i,
            None => records.len() as int,
        };
        assert(after[at] == first);
        lemma_matching(after, email);
    }
}

/// Once a token is issued for a record, the record carries exactly that
/// token, to expire 24 hours after the time of issue, and is not
/// validated.
pub proof fn law_issue_attaches(
    records: Seq<SubscriberView>,
    frontend: Seq<char>,
    id: Seq<char>,
    token: Seq<char>,
    at: Timestamp,
)
    requires
        store_wf(records),
        issued(records, frontend, id, token, at).result == IssueResult::Issued,
    ensures
        ({
            let after = issued(records, frontend, id, token, at).records;
            &&& lookup(after, id) matches Some(record)
            &&& record.validation_token == Some(token)
            &&& record.token_expiration matches Some(expiration)
            &&& expiration.secs == at.secs + 3600 * TOKEN_LIFETIME_HOURS
            &&& expiration.nanos == at.nanos % 1_000_000_000
            &&& !record.validated
            &&& store_wf(after)
            &&& after.len() == records.len()
        }),
{
    lemma_plus_hours_valid(at, TOKEN_LIFETIME_HOURS);
    let expiration = at.plus_hours(TOKEN_LIFETIME_HOURS)->0;
    lemma_updated(records, id, UpdateView::IssueToken { token, expiration, at });
}

/// Issuing again for the same record replaces the outstanding token: the
/// older token is no longer accepted.
pub proof fn law_reissue_invalidates(
    records: Seq<SubscriberView>,
    frontend: Seq<char>,
    id: Seq<char>,
    older: Seq<char>,
    newer: Seq<char>,
    at: Timestamp,
    now: Timestamp,
)
    requires
        store_wf(records),
        issued(records, frontend, id, newer, at).result == IssueResult::Issued,
        older != newer,
    ensures
        ({
            let after = issued(records, frontend, id, newer, at).records;
            confirmed(after, id, older, now) == (after, ConfirmResult::Invalid)
        }),
{
    law_issue_attaches(records, frontend, id, newer, at);
}

/// Presenting the outstanding token before it expires validates the
/// record and removes the token, leaving every other field but the time of
/// the last change; presenting the same token again afterwards is refused
/// as invalid and changes nothing.
pub proof fn law_confirm_once(
    records: Seq<SubscriberView>,
    id: Seq<char>,
    token: Seq<char>,
    expiration: Timestamp,
    now: Timestamp,
    later: Timestamp,
)
    requires
        store_wf(records),
        lookup(records, id) matches Some(record) && record.validation_token == Some(token)
            && record.token_expiration == Some(expiration),
        now.is_before(expiration),
    ensures
        ({
            let (after, result) = confirmed(records, id, token, now);
            let before = lookup(records, id)->0;
            &&& result == ConfirmResult::Validated
            &&& result.outcome() == Outcome::Success
            &&& !before.validated
            &&& lookup(after, id) == Some(
                SubscriberView {
                    validated: true,
                    validation_token: None,
                    token_expiration: None,
                    updated_at: now,
                    ..before
                },
            )
            &&& after.len() == records.len()
            &&& confirmed(after, id, token, later) == (after, ConfirmResult::Invalid)
            &&& ConfirmResult::Invalid.outcome() == Outcome::InvalidToken
        }),
{
    lemma_position(records, id);
    let update = UpdateView::Confirm { token, at: now };
    let i = position(records, id)->0;
    let after = records.update(i, update.apply(records[i]));
    assert(confirmed(records, id, token, now) == (after, ConfirmResult::Validated));
    lemma_position(after, id);
    assert(after[i].id == id);
    assert forall|j: int| 0 <= j < i implies (#[trigger] after[j]).id != id by {
        assert(after[j] == records[j]);
    }
}

/// Presenting the outstanding token at or after its expiry is refused as
/// expired and changes nothing: the record stays unvalidated.
pub proof fn law_confirm_expired(
    records: Seq<SubscriberView>,
    id: Seq<char>,
    token: Seq<char>,
    expiration: Timestamp,
    now: Timestamp,
)
    requires
        store_wf(records),
        lookup(records, id) matches Some(record) && record.validation_token == Some(token)
            && record.token_expiration == Some(expiration),
        !now.is_before(expiration),
    ensures
        confirmed(records, id, token, now) == (records, ConfirmResult::Expired),
        ConfirmResult::Expired.outcome() == Outcome::ExpiredToken,
        !(lookup(records, id)->0).validated,
{
    lemma_position(records, id);
}

/// Presenting another token than the outstanding one for an existing,
/// pending subscriber is refused as invalid and changes nothing.
pub proof fn law_confirm_wrong_token(
    records: Seq<SubscriberView>,
    id: Seq<char>,
    token: Seq<char>,
    now: Timestamp,
)
    requires
        lookup(records, id) matches Some(record) && record.pending() && record.validation_token
            != Some(token),
    ensures
        confirmed(records, id, token, now) == (records, ConfirmResult::Invalid),
        ConfirmResult::Invalid.outcome() == Outcome::InvalidToken,
{
}

/// Presenting a token for an identifier that the store does not hold is
/// answered as not found and changes nothing.
pub proof fn law_confirm_unknown(
    records: Seq<SubscriberView>,
    id: Seq<char>,
    token: Seq<char>,
    now: Timestamp,
)
    requires
        lookup(records, id) is None,
    ensures
        confirmed(records, id, token, now) == (records, ConfirmResult::NotFound),
        ConfirmResult::NotFound.outcome() == Outcome::NotFound,
{
}

/// Deactivating by an address that the store holds succeeds and marks the
/// first record with the address inactive; deactivating again succeeds
/// too, reaches the same record, and changes nothing in the store but that
/// record's time of the last change.
pub proof fn law_deactivate_twice(
    records: Seq<SubscriberView>,
    email: Seq<char>,
    first: Timestamp,
    second: Timestamp,
)
    requires
        store_wf(records),
        matching(records, email).len() > 0,
    ensures
        ({
            let id = matching(records, email)[0].id;
            let (one, result_one) = deactivated(records, email, first);
            let (two, result_two) = deactivated(one, email, second);
            &&& result_one == UnsubscribeResult::Unsubscribed
            &&& result_two == UnsubscribeResult::Unsubscribed
            &&& result_one.outcome() == Outcome::Success
            &&& position(records, id) matches Some(i)
            &&& one == records.update(i, SubscriberView { active: false, updated_at: first, ..records[i] })
            &&& two == one.update(i, SubscriberView { updated_at: second, ..one[i] })
        }),
{
    let id = matching(records, email)[0].id;
    lemma_matching(records, email);
    lemma_position(records, id);
    let (one, result_one) = deactivated(records, email, first);
    let i = position(records, id)->0;
    assert(one == records.update(i, UpdateView::Deactivate { at: first }.apply(records[i])));
    lemma_matching_congruent(one, records, email);
    lemma_position(one, id);
}

} // verus!
