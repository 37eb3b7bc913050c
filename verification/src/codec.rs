//! The stored form of a subscriber record: a flat map with one attribute
//! per field, instants written as RFC 3339 text.

use crate::record::{Attribute, AttributeView, Item};
use crate::subscriber::{Subscriber, SubscriberView, Update, UpdateView};
use crate::time::{parse_rfc3339, rfc3339_instant, rfc3339_text, Timestamp};
use vstd::prelude::*;

verus! {

/// The text of the attribute `name`, where the record has it as text.
pub open spec fn text_attribute(item: Map<Seq<char>, AttributeView>, name: Seq<char>) -> Option<
    Seq<char>,
> {
    if item.contains_key(name) {
        match item[name] {
            AttributeView::S(text) => Some(text),
            _ => None,
        }
    } else {
        None
    }
}

/// The value of the attribute `name`, where the record has it as a boolean.
pub open spec fn flag_attribute(item: Map<Seq<char>, AttributeView>, name: Seq<char>) -> Option<
    bool,
> {
    if item.contains_key(name) {
        match item[name] {
            AttributeView::Bool(flag) => Some(flag),
            _ => None,
        }
    } else {
        None
    }
}

/// The instant that the attribute `name` spells, where the record has it
/// as text in RFC 3339 form.
pub open spec fn instant_attribute(
    item: Map<Seq<char>, AttributeView>,
    name: Seq<char>,
) -> Option<Timestamp> {
    match text_attribute(item, name) {
        Some(text) => rfc3339_instant(text),
        None => None,
    }
}

/// The RFC 3339 text of an instant.
pub open spec fn instant_text(at: Timestamp) -> Seq<char> {
    rfc3339_text(at.secs as int, at.nanos as int)
}

/// The stored form of a record around the texts of its instants. The two
/// token attributes are written only when both are present.
pub open spec fn item_around(
    record: SubscriberView,
    created_at: Seq<char>,
    updated_at: Seq<char>,
    token_expiration: Option<Seq<char>>,
) -> Map<Seq<char>, AttributeView> {
    let base = Map::<Seq<char>, AttributeView>::empty().insert(
        "id"@,
        AttributeView::S(record.id),
    ).insert("email"@, AttributeView::S(record.email)).insert(
        "active"@,
        AttributeView::Bool(record.active),
    ).insert("validated"@, AttributeView::Bool(record.validated)).insert(
        "created_at"@,
        AttributeView::S(created_at),
    ).insert("updated_at"@, AttributeView::S(updated_at));
    match (record.validation_token, token_expiration) {
        (Some(token), Some(expiration)) => base.insert(
            "validation_token"@,
            AttributeView::S(token),
        ).insert("token_expiration"@, AttributeView::S(expiration)),
        _ => base,
    }
}

/// The stored form of a record.
pub open spec fn item_of(record: SubscriberView) -> Map<Seq<char>, AttributeView> {
    item_around(
        record,
        instant_text(record.created_at),
        instant_text(record.updated_at),
        match record.token_expiration {
            Some(expiration) => Some(instant_text(expiration)),
            None => None,
        },
    )
}

/// What has been read of a stored record, attribute by attribute: `None`
/// where the attribute is missing, of the wrong kind, or unreadable.
pub struct Parts {
    pub id: Option<Seq<char>>,
    pub email: Option<Seq<char>>,
    pub active: Option<bool>,
    pub validated: Option<bool>,
    pub created_at: Option<Timestamp>,
    pub updated_at: Option<Timestamp>,
    pub validation_token: Option<Seq<char>>,
    pub token_expiration: Option<Timestamp>,
}

/// The record that the parts make up, if the six base parts are there.
/// The token and its expiry are kept only as a pair, and only on a record
/// that is not validated.
pub open spec fn assembled(parts: Parts) -> Option<SubscriberView> {
    match (
        parts.id,
        parts.email,
        parts.active,
        parts.validated,
        parts.created_at,
        parts.updated_at,
    ) {
        (
            Some(id),
            Some(email),
            Some(active),
            Some(validated),
            Some(created_at),
            Some(updated_at),
        ) => {
            let keep = !validated && parts.validation_token is Some && parts.token_expiration
                is Some;
            Some(
                SubscriberView {
                    id,
                    email,
                    active,
                    validated,
                    validation_token: if keep {
                        parts.validation_token
                    } else {
                        None
                    },
                    token_expiration: if keep {
                        parts.token_expiration
                    } else {
                        None
                    },
                    created_at,
                    updated_at,
                },
            )
        },
        _ => None,
    }
}

/// The parts of a stored record.
pub open spec fn parts_of(item: Map<Seq<char>, AttributeView>) -> Parts {
    Parts {
        id: text_attribute(item, "id"@),
        email: text_attribute(item, "email"@),
        active: flag_attribute(item, "active"@),
        validated: flag_attribute(item, "validated"@),
        created_at: instant_attribute(item, "created_at"@),
        updated_at: instant_attribute(item, "updated_at"@),
        validation_token: text_attribute(item, "validation_token"@),
        token_expiration: instant_attribute(item, "token_expiration"@),
    }
}

/// The record that a stored item spells.
pub open spec fn record_of(item: Map<Seq<char>, AttributeView>) -> Option<SubscriberView> {
    assembled(parts_of(item))
}

/// The view of a text that may be absent.
pub open spec fn text_view(text: Option<String>) -> Option<Seq<char>> {
    match text {
        Some(text) => Some(text@),
        None => None,
    }
}

/// The table that holds the subscriber records.
pub const TABLE_NAME: &'static str = "newsletter_subscribers";

/// The secondary index of the table by address.
pub const EMAIL_INDEX: &'static str = "email-index";

/// The condition that selects the records with the address `:email`, for a
/// query of the index and as the filter of a scan.
pub const EMAIL_CONDITION: &'static str = "email = :email";

/// A conditional update as the table takes it: what to set and remove,
/// under which condition, and the values that the two expressions name.
#[derive(Debug)]
pub struct UpdateRequest {
    pub update_expression: String,
    pub condition_expression: String,
    pub values: Item,
}

/// What an update sets and removes.
pub open spec fn update_expression_text(update: UpdateView) -> Seq<char> {
    match update {
        UpdateView::IssueToken { .. } =>
            "SET validation_token = :token, token_expiration = :expiration, updated_at = :updated_at"@,
        UpdateView::Confirm { .. } =>
            "SET validated = :validated, updated_at = :updated_at REMOVE validation_token, token_expiration"@,
        UpdateView::Deactivate { .. } => "SET active = :active, updated_at = :updated_at"@,
    }
}

/// The condition under which the table makes an update: the record exists
/// and is not validated, carries the token, or exists.
pub open spec fn condition_expression_text(update: UpdateView) -> Seq<char> {
    match update {
        UpdateView::IssueToken { .. } => "attribute_exists(id) AND validated = :unvalidated"@,
        UpdateView::Confirm { .. } => "validation_token = :token"@,
        UpdateView::Deactivate { .. } => "attribute_exists(id)"@,
    }
}

/// The values that the expressions of an update name, around the texts of
/// its instants.
pub open spec fn update_values_around(
    update: UpdateView,
    at: Seq<char>,
    expiration: Seq<char>,
) -> Map<Seq<char>, AttributeView> {
    let base = Map::<Seq<char>, AttributeView>::empty().insert(
        ":updated_at"@,
        AttributeView::S(at),
    );
    match update {
        UpdateView::IssueToken { token, .. } => base.insert(
            ":token"@,
            AttributeView::S(token),
        ).insert(":expiration"@, AttributeView::S(expiration)).insert(
            ":unvalidated"@,
            AttributeView::Bool(false),
        ),
        UpdateView::Confirm { token, .. } => base.insert(
            ":validated"@,
            AttributeView::Bool(true),
        ).insert(":token"@, AttributeView::S(token)),
        UpdateView::Deactivate { .. } => base.insert(":active"@, AttributeView::Bool(false)),
    }
}

/// The time at which an update is made.
pub open spec fn update_time(update: UpdateView) -> Timestamp {
    match update {
        UpdateView::IssueToken { at, .. } => at,
        UpdateView::Confirm { at, .. } => at,
        UpdateView::Deactivate { at } => at,
    }
}

/// The values that the expressions of an update name. Only the issue of a
/// token has an expiry to write.
pub open spec fn update_values(update: UpdateView) -> Map<Seq<char>, AttributeView> {
    update_values_around(
        update,
        instant_text(update_time(update)),
        match update {
            UpdateView::IssueToken { expiration, .. } => instant_text(expiration),
            _ => Seq::empty(),
        },
    )
}

impl Update {
    /// The update as the table takes it, around the texts of its instants.
    pub fn request_with(&self, at: String, expiration: String) -> (r: UpdateRequest)
        ensures
            r.update_expression@ == update_expression_text(self@),
            r.condition_expression@ == condition_expression_text(self@),
            r.values@ == update_values_around(self@, at@, expiration@),
    {
        let mut values = Item::new();
        values.insert(":updated_at".to_owned(), Attribute::S(at));
        match self {
            Update::IssueToken { token, .. } => {
                values.insert(":token".to_owned(), Attribute::S(token.clone()));
                values.insert(":expiration".to_owned(), Attribute::S(expiration));
                values.insert(":unvalidated".to_owned(), Attribute::Bool(false));
                UpdateRequest {
                    update_expression: "SET validation_token = :token, token_expiration = :expiration, updated_at = :updated_at".to_owned(),
                    condition_expression: "attribute_exists(id) AND validated = :unvalidated".to_owned(),
                    values,
                }
            },
            Update::Confirm { token, .. } => {
                values.insert(":validated".to_owned(), Attribute::Bool(true));
                values.insert(":token".to_owned(), Attribute::S(token.clone()));
                UpdateRequest {
                    update_expression: "SET validated = :validated, updated_at = :updated_at REMOVE validation_token, token_expiration".to_owned(),
                    condition_expression: "validation_token = :token".to_owned(),
                    values,
                }
            },
            Update::Deactivate { .. } => {
                values.insert(":active".to_owned(), Attribute::Bool(false));
                UpdateRequest {
                    update_expression: "SET active = :active, updated_at = :updated_at".to_owned(),
                    condition_expression: "attribute_exists(id)".to_owned(),
                    values,
                }
            },
        }
    }

    /// The update as the table takes it.
    pub fn to_request(&self) -> (r: UpdateRequest)
        requires
            self.wf(),
        ensures
            r.update_expression@ == update_expression_text(self@),
            r.condition_expression@ == condition_expression_text(self@),
            r.values@ == update_values(self@),
    {
        match self {
            Update::IssueToken { expiration, at, .. } => self.request_with(
                at.to_rfc3339(),
                expiration.to_rfc3339(),
            ),
            Update::Confirm { at, .. } => self.request_with(at.to_rfc3339(), String::new()),
            Update::Deactivate { at } => self.request_with(at.to_rfc3339(), String::new()),
        }
    }
}

/// Reads a text attribute.
fn text_of(item: &Item, name: &str) -> (r: Option<String>)
    ensures
        text_view(r) == text_attribute(item@, name@),
{
    match item.get(name) {
        Some(value) => match value.as_s() {
            Some(text) => Some(text.clone()),
            None => None,
        },
        None => None,
    }
}

/// Reads a boolean attribute.
fn flag_of(item: &Item, name: &str) -> (r: Option<bool>)
    ensures
        r == flag_attribute(item@, name@),
{
    match item.get(name) {
        Some(value) => value.as_bool(),
        None => None,
    }
}

/// Reads an attribute that holds an instant as RFC 3339 text.
fn instant_of(item: &Item, name: &str) -> (r: Option<Timestamp>)
    ensures
        r == instant_attribute(item@, name@),
        r matches Some(t) ==> t.valid(),
{
    match item.get(name) {
        Some(value) => match value.as_s() {
            Some(text) => parse_rfc3339(text.as_str()),
            None => None,
        },
        None => None,
    }
}

impl Subscriber {
    /// The stored form of this record around the texts of its instants.
    pub fn item_with(
        &self,
        created_at: String,
        updated_at: String,
        token_expiration: Option<String>,
    ) -> (r: Item)
        ensures
            r@ == item_around(self@, created_at@, updated_at@, text_view(token_expiration)),
    {
        let mut item = Item::new();
        item.insert("id".to_owned(), Attribute::S(self.id.clone()));
        item.insert("email".to_owned(), Attribute::S(self.email.clone()));
        item.insert("active".to_owned(), Attribute::Bool(self.active));
        item.insert("validated".to_owned(), Attribute::Bool(self.validated));
        item.insert("created_at".to_owned(), Attribute::S(created_at));
        item.insert("updated_at".to_owned(), Attribute::S(updated_at));
        match (&self.validation_token, token_expiration) {
            (Some(token), Some(expiration)) => {
                item.insert("validation_token".to_owned(), Attribute::S(token.clone()));
                item.insert("token_expiration".to_owned(), Attribute::S(expiration));
            },
            _ => {},
        }
        item
    }

    /// The stored form of this record.
    pub fn to_dynamodb_item(&self) -> (r: Item)
        requires
            self.wf(),
        ensures
            r@ == item_of(self@),
    {
        let token_expiration = match &self.token_expiration {
            Some(expiration) => Some(expiration.to_rfc3339()),
            None => None,
        };
        self.item_with(self.created_at.to_rfc3339(), self.updated_at.to_rfc3339(), token_expiration)
    }

    /// The record that the parts read of a stored item make up: `None`
    /// where one of the six base parts is missing.
    pub fn assemble(
        id: Option<String>,
        email: Option<String>,
        active: Option<bool>,
        validated: Option<bool>,
        created_at: Option<Timestamp>,
        updated_at: Option<Timestamp>,
        validation_token: Option<String>,
        token_expiration: Option<Timestamp>,
    ) -> (r: Option<Subscriber>)
        ensures
            match assembled(
                Parts {
                    id: text_view(id),
                    email: text_view(email),
                    active,
                    validated,
                    created_at,
                    updated_at,
                    validation_token: text_view(validation_token),
                    token_expiration,
                },
            ) {
                Some(record) => r matches Some(s) && s@ == record,
                None => r is None,
            },
    {
        match (id, email, active, validated, created_at, updated_at) {
            (
                Some(id),
                Some(email),
                Some(active),
                Some(validated),
                Some(created_at),
                Some(updated_at),
            ) => {
                let (validation_token, token_expiration) = match (
                    validation_token,
                    token_expiration,
                ) {
                    (Some(token), Some(expiration)) => if validated {
                        (None, None)
                    } else {
                        (Some(token), Some(expiration))
                    },
                    _ => (None, None),
                };
                Some(
                    Subscriber {
                        id,
                        email,
                        active,
                        validated,
                        validation_token,
                        token_expiration,
                        created_at,
                        updated_at,
                    },
                )
            },
            _ => None,
        }
    }

    /// The record that a stored item spells: `None` where a base attribute
    /// is missing, of the wrong kind, or an unreadable instant. What is
    /// read is well formed.
    pub fn from_dynamodb_item(item: &Item) -> (r: Option<Subscriber>)
        ensures
            match record_of(item@) {
                Some(record) => r matches Some(s) && s@ == record,
                None => r is None,
            },
            r matches Some(s) ==> s.wf(),
    {
        Subscriber::assemble(
            text_of(item, "id"),
            text_of(item, "email"),
            flag_of(item, "active"),
            flag_of(item, "validated"),
            instant_of(item, "created_at"),
            instant_of(item, "updated_at"),
            text_of(item, "validation_token"),
            instant_of(item, "token_expiration"),
        )
    }
}

} // verus!
