//! The subscriber record, its well-formedness, the three updates that its
//! lifecycle allows, and its stored form.

use crate::ident::{random_identifier, IDENTIFIER_LEN};
use crate::time::{utc_now, Timestamp};
use vstd::prelude::*;

verus! {

/// A mailing-list registrant.
#[derive(Debug)]
pub struct Subscriber {
    pub id: String,
    pub email: String,
    pub active: bool,
    pub validated: bool,
    pub validation_token: Option<String>,
    pub token_expiration: Option<Timestamp>,
    pub created_at: Timestamp,
    pub updated_at: Timestamp,
}

/// What a subscriber record holds.
pub struct SubscriberView {
    pub id: Seq<char>,
    pub email: Seq<char>,
    pub active: bool,
    pub validated: bool,
    pub validation_token: Option<Seq<char>>,
    pub token_expiration: Option<Timestamp>,
    pub created_at: Timestamp,
    pub updated_at: Timestamp,
}

impl SubscriberView {
    /// The token and its expiry are present together or absent together, a
    /// validated record carries neither, and every instant is valid.
    pub open spec fn wf(self) -> bool {
        &&& self.validation_token is Some <==> self.token_expiration is Some
        &&& self.validated ==> self.validation_token is None
        &&& self.token_expiration matches Some(t) ==> t.valid()
        &&& self.created_at.valid()
        &&& self.updated_at.valid()
    }

    /// The record of a subscriber who has just registered: active, not
    /// validated, without a token.
    pub open spec fn created(id: Seq<char>, email: Seq<char>, at: Timestamp) -> SubscriberView {
        SubscriberView {
            id,
            email,
            active: true,
            validated: false,
            validation_token: None,
            token_expiration: None,
            created_at: at,
            updated_at: at,
        }
    }

    /// A confirmation is outstanding: a token is present and the record is
    /// not validated.
    pub open spec fn pending(self) -> bool {
        !self.validated && self.validation_token is Some
    }
}

impl View for Subscriber {
    type V = SubscriberView;

    open spec fn view(&self) -> SubscriberView {
        SubscriberView {
            id: self.id@,
            email: self.email@,
            active: self.active,
            validated: self.validated,
            validation_token: match self.validation_token {
                Some(token) => Some(token@),
                None => None,
            },
            token_expiration: self.token_expiration,
            created_at: self.created_at,
            updated_at: self.updated_at,
        }
    }
}

impl Clone for Subscriber {
    fn clone(&self) -> (r: Subscriber)
        ensures
            r@ == self@,
    {
        Subscriber {
            id: self.id.clone(),
            email: self.email.clone(),
            active: self.active,
            validated: self.validated,
            validation_token: match &self.validation_token {
                Some(token) => Some(token.clone()),
                None => None,
            },
            token_expiration: self.token_expiration,
            created_at: self.created_at,
            updated_at: self.updated_at,
        }
    }
}

/// A change to one stored record together with the condition under which
/// the store may make it.
#[derive(Debug)]
pub enum Update {
    /// Attach a fresh token, replacing any outstanding one. Admitted while
    /// the record is not validated.
    IssueToken { token: String, expiration: Timestamp, at: Timestamp },
    /// Mark the record validated and remove its token. Admitted while the
    /// record carries exactly this token.
    Confirm { token: String, at: Timestamp },
    /// Mark the record inactive. Always admitted.
    Deactivate { at: Timestamp },
}

/// What an update holds.
pub enum UpdateView {
    IssueToken { token: Seq<char>, expiration: Timestamp, at: Timestamp },
    Confirm { token: Seq<char>, at: Timestamp },
    Deactivate { at: Timestamp },
}

impl View for Update {
    type V = UpdateView;

    open spec fn view(&self) -> UpdateView {
        match self {
            Update::IssueToken { token, expiration, at } => UpdateView::IssueToken {
                token: token@,
                expiration: *expiration,
                at: *at,
            },
            Update::Confirm { token, at } => UpdateView::Confirm { token: token@, at: *at },
            Update::Deactivate { at } => UpdateView::Deactivate { at: *at },
        }
    }
}

impl UpdateView {
    /// Every instant in the update is valid.
    pub open spec fn wf(self) -> bool {
        match self {
            UpdateView::IssueToken { token, expiration, at } => expiration.valid() && at.valid(),
            UpdateView::Confirm { token, at } => at.valid(),
            UpdateView::Deactivate { at } => at.valid(),
        }
    }

    /// The token that the update attaches or consumes.
    pub open spec fn token(self) -> Option<Seq<char>> {
        match self {
            UpdateView::IssueToken { token, .. } => Some(token),
            UpdateView::Confirm { token, .. } => Some(token),
            UpdateView::Deactivate { .. } => None,
        }
    }

    /// The condition under which the update may be made to `record`.
    pub open spec fn admits(self, record: SubscriberView) -> bool {
        match self {
            UpdateView::IssueToken { token, expiration, at } => !record.validated,
            UpdateView::Confirm { token, at } => record.validation_token == Some(token),
            UpdateView::Deactivate { at } => true,
        }
    }

    /// The record after the update.
    pub open spec fn apply(self, record: SubscriberView) -> SubscriberView {
        match self {
            UpdateView::IssueToken { token, expiration, at } => SubscriberView {
                validation_token: Some(token),
                token_expiration: Some(expiration),
                updated_at: at,
                ..record
            },
            UpdateView::Confirm { token, at } => SubscriberView {
                validated: true,
                validation_token: None,
                token_expiration: None,
                updated_at: at,
                ..record
            },
            UpdateView::Deactivate { at } => SubscriberView {
                active: false,
                updated_at: at,
                ..record
            },
        }
    }
}

impl Update {
    pub open spec fn wf(&self) -> bool {
        self@.wf()
    }

    /// Whether every instant in the update is valid.
    pub fn is_wf(&self) -> (r: bool)
        ensures
            r == self.wf(),
    {
        match self {
            Update::IssueToken { expiration, at, .. } => expiration.is_valid() && at.is_valid(),
            Update::Confirm { at, .. } => at.is_valid(),
            Update::Deactivate { at } => at.is_valid(),
        }
    }

    /// The token that the update attaches or consumes; a deactivation has
    /// none.
    pub fn token(&self) -> (r: Option<&String>)
        ensures
            match self@.token() {
                Some(token) => r matches Some(t) && t@ == token,
                None => r is None,
            },
    {
        match self {
            Update::IssueToken { token, .. } => Some(token),
            Update::Confirm { token, .. } => Some(token),
            Update::Deactivate { .. } => None,
        }
    }
}

/// An admitted update keeps a record well formed, never changes its
/// identifier, its address or its creation time, never takes a validation
/// back and never makes an inactive record active.
pub proof fn lemma_update_preserves(update: UpdateView, record: SubscriberView)
    requires
        update.wf(),
        record.wf(),
        update.admits(record),
    ensures
        update.apply(record).wf(),
        update.apply(record).id == record.id,
        update.apply(record).email == record.email,
        update.apply(record).created_at == record.created_at,
        record.validated ==> update.apply(record).validated,
        !record.active ==> !update.apply(record).active,
{
}

impl Subscriber {
    pub open spec fn wf(&self) -> bool {
        self@.wf()
    }

    /// Whether the record is well formed.
    pub fn is_wf(&self) -> (r: bool)
        ensures
            r == self.wf(),
    {
        let paired = self.validation_token.is_some() == self.token_expiration.is_some();
        let consumed = !self.validated || self.validation_token.is_none();
        let expiry_valid = match &self.token_expiration {
            Some(expiration) => expiration.is_valid(),
            None => true,
        };
        paired && consumed && expiry_valid && self.created_at.is_valid()
            && self.updated_at.is_valid()
    }

    /// The record of a new registrant with the given identifier, created at
    /// the given time.
    pub fn create(id: String, email: String, at: Timestamp) -> (r: Subscriber)
        requires
            at.valid(),
        ensures
            r@ == SubscriberView::created(id@, email@, at),
            r.wf(),
    {
        Subscriber {
            id,
            email,
            active: true,
            validated: false,
            validation_token: None,
            token_expiration: None,
            created_at: at,
            updated_at: at,
        }
    }

    /// The record of a new registrant, with a fresh random identifier and
    /// the current time. Whatever identifier and time were drawn, the
    /// record is the one that `create` builds from them.
    pub fn new(email: String) -> (r: Subscriber)
        ensures
            r@ == SubscriberView::created(r@.id, email@, r@.created_at),
            r@.id.len() == IDENTIFIER_LEN,
            r.wf(),
    {
        let id = random_identifier();
        let at = utc_now();
        Subscriber::create(id, email, at)
    }

    /// Whether `update` may be made to this record.
    pub fn admits(&self, update: &Update) -> (r: bool)
        ensures
            r == update@.admits(self@),
    {
        match update {
            Update::IssueToken { .. } => !self.validated,
            Update::Confirm { token, .. } => match &self.validation_token {
                Some(held) => *held == *token,
                None => false,
            },
            Update::Deactivate { .. } => true,
        }
    }

    /// Makes `update` to this record.
    pub fn apply(&mut self, update: &Update)
        ensures
            final(self)@ == update@.apply(old(self)@),
    {
        match update {
            Update::IssueToken { token, expiration, at } => {
                self.validation_token = Some(token.clone());
                self.token_expiration = Some(*expiration);
                self.updated_at = *at;
            },
            Update::Confirm { at, .. } => {
                self.validated = true;
                self.validation_token = None;
                self.token_expiration = None;
                self.updated_at = *at;
            },
            Update::Deactivate { at } => {
                self.active = false;
                self.updated_at = *at;
            },
        }
    }
}

} // verus!
