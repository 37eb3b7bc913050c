use newsletter_backend::codec::{EMAIL_CONDITION, EMAIL_INDEX, TABLE_NAME};
use newsletter_backend::confirmation::{self, ConfirmResult, Confirming};
use newsletter_backend::deactivation::{self, Deactivating, UnsubscribeResult};
use newsletter_backend::issuer::{self, IssueResult, Issuing, ValidationMessage};
use newsletter_backend::record::Attribute;
use newsletter_backend::store::StoreFailure;
use newsletter_backend::subscriber::{Subscriber, Update};
use newsletter_backend::subscription::{self, SubscribeResult, Subscribing};
use newsletter_backend::time::{Timestamp, MAX_SECS, MIN_SECS};

const T: i64 = 1_700_000_000;

fn at(secs: i64) -> Timestamp {
    Timestamp { secs, nanos: 0 }
}

fn candidate() -> Subscriber {
    Subscriber::create("id-1".to_string(), "a@x.com".to_string(), at(T))
}

fn request() -> ValidationMessage {
    ValidationMessage {
        action: "validate_email".to_string(),
        email: "a@x.com".to_string(),
        subscriber_id: "id-1".to_string(),
    }
}

#[test]
fn subscription_begins_with_the_index() {
    match subscription::begin("a@x.com".to_string()) {
        Subscribing::QueryIndex(c) => {
            assert_eq!(c.email, "a@x.com");
            assert!(c.active && !c.validated);
            assert_eq!(c.id.chars().count(), 36);
        }
        other => panic!("unexpected step {:?}", other),
    }
    assert!(matches!(
        subscription::begin("a.x.com".to_string()),
        Subscribing::Done(SubscribeResult::InvalidEmail)
    ));
    assert!(matches!(
        subscription::begin_from(false, candidate()),
        Subscribing::Done(SubscribeResult::InvalidEmail)
    ));
    assert!(matches!(subscription::begin_from(true, candidate()), Subscribing::QueryIndex(_)));
}

#[test]
fn subscription_falls_back_to_a_scan() {
    assert!(matches!(
        subscription::after_index(candidate(), Err(StoreFailure)),
        Subscribing::Scan(_)
    ));
    assert!(matches!(
        subscription::after_index(candidate(), Ok(2)),
        Subscribing::Done(SubscribeResult::AlreadySubscribed)
    ));
    assert!(matches!(subscription::after_index(candidate(), Ok(0)), Subscribing::Put(_)));
    assert!(matches!(
        subscription::after_scan(candidate(), Ok(1)),
        Subscribing::Done(SubscribeResult::AlreadySubscribed)
    ));
    assert!(matches!(subscription::after_scan(candidate(), Ok(0)), Subscribing::Put(_)));
    assert!(matches!(
        subscription::after_scan(candidate(), Err(StoreFailure)),
        Subscribing::Put(_)
    ));
}

#[test]
fn subscription_fails_only_on_the_write() {
    assert!(matches!(
        subscription::after_put(&candidate(), Err(StoreFailure)),
        Subscribing::Done(SubscribeResult::StoreFailed)
    ));
    match subscription::after_put(&candidate(), Ok(())) {
        Subscribing::Publish(message) => assert_eq!(
            message,
            "{\"action\":\"validate_email\",\"email\":\"a@x.com\",\"subscriber_id\":\"id-1\"}"
        ),
        other => panic!("unexpected step {:?}", other),
    }
    assert!(matches!(
        subscription::after_publish(false),
        Subscribing::Done(SubscribeResult::Created)
    ));
    assert!(matches!(
        subscription::after_publish(true),
        Subscribing::Done(SubscribeResult::Created)
    ));
}

#[test]
fn issuer_asks_for_the_update_with_the_expiry() {
    match issuer::begin_at(&request(), "T".to_string(), Timestamp { secs: T, nanos: 7 }) {
        Issuing::Store { subscriber_id, email, update } => {
            assert_eq!(subscriber_id, "id-1");
            assert_eq!(email, "a@x.com");
            match update {
                Update::IssueToken { token, expiration, at } => {
                    assert_eq!(token, "T");
                    assert_eq!(expiration, Timestamp { secs: T + 86_400, nanos: 7 });
                    assert_eq!(at, Timestamp { secs: T, nanos: 7 });
                }
                other => panic!("unexpected update {:?}", other),
            }
        }
        other => panic!("unexpected step {:?}", other),
    }
}

#[test]
fn issuer_steps_out_of_a_leap_second() {
    let leap = Timestamp { secs: 1_483_228_799, nanos: 1_500_000_000 };
    match issuer::begin_at(&request(), "T".to_string(), leap) {
        Issuing::Store { update: Update::IssueToken { expiration, .. }, .. } => {
            assert_eq!(expiration, Timestamp { secs: 1_483_228_799 + 86_400, nanos: 500_000_000 });
        }
        other => panic!("unexpected step {:?}", other),
    }
}

#[test]
fn issuer_writes_no_expiry_beyond_the_calendar() {
    match issuer::begin_at(&request(), "T".to_string(), at(MAX_SECS - 86_400)) {
        Issuing::Store { update: Update::IssueToken { expiration, .. }, .. } => {
            assert_eq!(expiration, at(MAX_SECS));
        }
        other => panic!("unexpected step {:?}", other),
    }
    assert!(matches!(
        issuer::begin_at(&request(), "T".to_string(), at(MAX_SECS - 86_399)),
        Issuing::Done(IssueResult::NoExpiry)
    ));
    match issuer::begin_at(&request(), "T".to_string(), at(MIN_SECS)) {
        Issuing::Store { update: Update::IssueToken { expiration, .. }, .. } => {
            assert_eq!(expiration, at(MIN_SECS + 86_400));
        }
        other => panic!("unexpected step {:?}", other),
    }
    assert!(matches!(
        issuer::begin_at(&request(), "T".to_string(), at(MIN_SECS - 1)),
        Issuing::Done(IssueResult::NoExpiry)
    ));
}

#[test]
fn issuer_takes_no_instant_that_is_none() {
    let two_seconds = Timestamp { secs: T, nanos: 2_000_000_000 };
    assert!(matches!(
        issuer::begin_at(&request(), "T".to_string(), two_seconds),
        Issuing::Done(IssueResult::NoExpiry)
    ));
    let misplaced_leap = Timestamp { secs: T, nanos: 1_000_000_000 };
    assert!(matches!(
        issuer::begin_at(&request(), "T".to_string(), misplaced_leap),
        Issuing::Done(IssueResult::NoExpiry)
    ));
    let negative_leap = Timestamp { secs: -1, nanos: 1_000_000_000 };
    assert!(matches!(
        issuer::begin_at(&request(), "T".to_string(), negative_leap),
        Issuing::Store { .. }
    ));
}

#[test]
fn issuer_begins_with_a_fresh_token() {
    match issuer::begin(&request()) {
        Issuing::Store { update: Update::IssueToken { token, expiration, at }, .. } => {
            assert_eq!(token.chars().count(), 36);
            assert_eq!(expiration.secs, at.secs + 86_400);
            assert!(at.secs > T);
        }
        other => panic!("unexpected step {:?}", other),
    }
}

#[test]
fn issuer_delivers_after_the_update() {
    let update = Update::IssueToken { token: "T".to_string(), expiration: at(T + 9), at: at(T) };
    match issuer::after_update("example.org", "id-1", "a@x.com".to_string(), &update, Ok(true)) {
        Issuing::Deliver { email, link } => {
            assert_eq!(email, "a@x.com");
            assert_eq!(link, "https://example.org/validate?id=id-1&token=T");
        }
        other => panic!("unexpected step {:?}", other),
    }
    assert!(matches!(
        issuer::after_update("example.org", "id-1", "a@x.com".to_string(), &update, Ok(false)),
        Issuing::Done(IssueResult::NotPending)
    ));
    assert!(matches!(
        issuer::after_update(
            "example.org",
            "id-1",
            "a@x.com".to_string(),
            &update,
            Err(StoreFailure)
        ),
        Issuing::Done(IssueResult::StoreFailed)
    ));
    let other = Update::Deactivate { at: at(T) };
    assert!(matches!(
        issuer::after_update("example.org", "id-1", "a@x.com".to_string(), &other, Ok(true)),
        Issuing::Done(IssueResult::NotPending)
    ));
    assert!(matches!(issuer::after_delivery(false), Issuing::Done(IssueResult::Issued)));
    assert!(matches!(issuer::after_delivery(true), Issuing::Done(IssueResult::Issued)));
}

#[test]
fn confirmation_needs_both_parameters() {
    assert!(matches!(
        confirmation::begin(None, Some("T".to_string())),
        Confirming::Done(ConfirmResult::MissingParameters)
    ));
    assert!(matches!(
        confirmation::begin(Some("id-1".to_string()), None),
        Confirming::Done(ConfirmResult::MissingParameters)
    ));
    assert!(matches!(
        confirmation::begin_with_query("token=T"),
        Confirming::Done(ConfirmResult::MissingParameters)
    ));
    assert!(matches!(
        confirmation::begin_with_query(""),
        Confirming::Done(ConfirmResult::MissingParameters)
    ));
    match confirmation::begin_with_query("token=T&id=id-1") {
        Confirming::Fetch { id, token } => {
            assert_eq!(id, "id-1");
            assert_eq!(token, "T");
        }
        other => panic!("unexpected step {:?}", other),
    }
}

#[test]
fn confirmation_decides_on_the_fetched_record() {
    let mut pending = candidate();
    pending.validation_token = Some("T".to_string());
    pending.token_expiration = Some(at(T + 10));
    let step = confirmation::after_fetch_at(
        "id-1".to_string(),
        "T".to_string(),
        Ok(Some(pending.clone())),
        at(T + 9),
    );
    match step {
        Confirming::Update { id, update: Update::Confirm { token, at: when } } => {
            assert_eq!(id, "id-1");
            assert_eq!(token, "T");
            assert_eq!(when, at(T + 9));
        }
        other => panic!("unexpected step {:?}", other),
    }
    assert!(matches!(
        confirmation::after_fetch_at(
            "id-1".to_string(),
            "T".to_string(),
            Ok(Some(pending.clone())),
            at(T + 10)
        ),
        Confirming::Done(ConfirmResult::Expired)
    ));
    assert!(matches!(
        confirmation::after_fetch_at(
            "id-1".to_string(),
            "t".to_string(),
            Ok(Some(pending.clone())),
            at(T + 9)
        ),
        Confirming::Done(ConfirmResult::Invalid)
    ));
    assert!(matches!(
        confirmation::after_fetch_at("id-1".to_string(), "T".to_string(), Ok(None), at(T)),
        Confirming::Done(ConfirmResult::NotFound)
    ));
    assert!(matches!(
        confirmation::after_fetch_at(
            "id-1".to_string(),
            "T".to_string(),
            Err(StoreFailure),
            at(T)
        ),
        Confirming::Done(ConfirmResult::FetchFailed)
    ));
    assert!(matches!(
        confirmation::after_fetch("id-1".to_string(), "T".to_string(), Ok(Some(pending))),
        Confirming::Done(ConfirmResult::Expired)
    ));
}

#[test]
fn confirmation_compares_nanoseconds_within_a_second() {
    let mut pending = candidate();
    pending.validation_token = Some("T".to_string());
    pending.token_expiration = Some(Timestamp { secs: T, nanos: 500 });
    assert!(matches!(
        confirmation::after_fetch_at(
            "id-1".to_string(),
            "T".to_string(),
            Ok(Some(pending.clone())),
            Timestamp { secs: T, nanos: 499 }
        ),
        Confirming::Update { .. }
    ));
    assert!(matches!(
        confirmation::after_fetch_at(
            "id-1".to_string(),
            "T".to_string(),
            Ok(Some(pending)),
            Timestamp { secs: T, nanos: 500 }
        ),
        Confirming::Done(ConfirmResult::Expired)
    ));
}

#[test]
fn confirmation_ends_with_the_update() {
    assert!(matches!(
        confirmation::after_update(Ok(true)),
        Confirming::Done(ConfirmResult::Validated)
    ));
    assert!(matches!(
        confirmation::after_update(Ok(false)),
        Confirming::Done(ConfirmResult::Invalid)
    ));
    assert!(matches!(
        confirmation::after_update(Err(StoreFailure)),
        Confirming::Done(ConfirmResult::UpdateFailed)
    ));
}

#[test]
fn deactivation_takes_the_first_match() {
    assert!(matches!(deactivation::begin("a@x.com".to_string()), Deactivating::QueryIndex(_)));
    let second = Subscriber::create("id-2".to_string(), "a@x.com".to_string(), at(T));
    match deactivation::after_index_at(
        "a@x.com".to_string(),
        Ok(vec![candidate(), second]),
        at(T + 5),
    ) {
        Deactivating::Update { id, update: Update::Deactivate { at: when } } => {
            assert_eq!(id, "id-1");
            assert_eq!(when, at(T + 5));
        }
        other => panic!("unexpected step {:?}", other),
    }
    assert!(matches!(
        deactivation::after_index_at("a@x.com".to_string(), Ok(vec![]), at(T)),
        Deactivating::Done(UnsubscribeResult::EmailNotFound)
    ));
    match deactivation::after_index_at("a@x.com".to_string(), Err(StoreFailure), at(T)) {
        Deactivating::Scan(email) => assert_eq!(email, "a@x.com"),
        other => panic!("unexpected step {:?}", other),
    }
    assert!(matches!(
        deactivation::after_index("a@x.com".to_string(), Ok(vec![candidate()])),
        Deactivating::Update { .. }
    ));
}

#[test]
fn deactivation_gives_up_after_the_scan() {
    assert!(matches!(
        deactivation::after_scan_at(Err(StoreFailure), at(T)),
        Deactivating::Done(UnsubscribeResult::LookupFailed)
    ));
    assert!(matches!(
        deactivation::after_scan_at(Ok(vec![]), at(T)),
        Deactivating::Done(UnsubscribeResult::EmailNotFound)
    ));
    assert!(matches!(
        deactivation::after_scan_at(Ok(vec![candidate()]), at(T)),
        Deactivating::Update { .. }
    ));
    assert!(matches!(
        deactivation::after_scan(Err(StoreFailure)),
        Deactivating::Done(UnsubscribeResult::LookupFailed)
    ));
}

#[test]
fn deactivation_ends_with_the_update() {
    assert!(matches!(
        deactivation::after_update(Ok(true)),
        Deactivating::Done(UnsubscribeResult::Unsubscribed)
    ));
    assert!(matches!(
        deactivation::after_update(Ok(false)),
        Deactivating::Done(UnsubscribeResult::SubscriberNotFound)
    ));
    assert!(matches!(
        deactivation::after_update(Err(StoreFailure)),
        Deactivating::Done(UnsubscribeResult::UpdateFailed)
    ));
}

#[test]
fn validity_follows_the_calendar() {
    assert!(at(0).is_valid());
    assert!(at(MIN_SECS).is_valid());
    assert!(at(MAX_SECS).is_valid());
    assert!(!at(MIN_SECS - 1).is_valid());
    assert!(!at(MAX_SECS + 1).is_valid());
    assert!(Timestamp { secs: 59, nanos: 1_999_999_999 }.is_valid());
    assert!(Timestamp { secs: -1, nanos: 1_000_000_000 }.is_valid());
    assert!(Timestamp { secs: -61, nanos: 1_000_000_000 }.is_valid());
    assert!(!Timestamp { secs: -60, nanos: 1_000_000_000 }.is_valid());
    assert!(!Timestamp { secs: 58, nanos: 1_000_000_000 }.is_valid());
    assert!(!Timestamp { secs: 59, nanos: 2_000_000_000 }.is_valid());
    assert!(Timestamp { secs: 58, nanos: 999_999_999 }.is_valid());
    let record = candidate();
    assert!(record.is_wf());
    let mut half = candidate();
    half.validation_token = Some("T".to_string());
    assert!(!half.is_wf());
    half.token_expiration = Some(at(T));
    assert!(half.is_wf());
    half.validated = true;
    assert!(!half.is_wf());
    let mut late = candidate();
    late.updated_at = at(MAX_SECS + 1);
    assert!(!late.is_wf());
    assert!(Update::Deactivate { at: at(T) }.is_wf());
    assert!(!Update::Deactivate { at: at(MAX_SECS + 1) }.is_wf());
    assert!(!Update::IssueToken {
        token: "T".to_string(),
        expiration: at(MAX_SECS + 1),
        at: at(T)
    }
    .is_wf());
    assert!(Update::Confirm { token: "T".to_string(), at: at(T) }.is_wf());
}

#[test]
fn updates_are_written_as_expressions_with_values() {
    let issue = Update::IssueToken { token: "T".to_string(), expiration: at(86_400), at: at(0) };
    let request = issue.to_request();
    assert_eq!(
        request.update_expression,
        "SET validation_token = :token, token_expiration = :expiration, updated_at = :updated_at"
    );
    assert_eq!(request.condition_expression, "attribute_exists(id) AND validated = :unvalidated");
    assert_eq!(request.values.get(":token"), Some(&Attribute::S("T".to_string())));
    assert_eq!(
        request.values.get(":expiration"),
        Some(&Attribute::S("1970-01-02T00:00:00+00:00".to_string()))
    );
    assert_eq!(
        request.values.get(":updated_at"),
        Some(&Attribute::S("1970-01-01T00:00:00+00:00".to_string()))
    );
    assert_eq!(request.values.get(":unvalidated"), Some(&Attribute::Bool(false)));
    assert_eq!(request.values.entries().len(), 4);

    let confirm = Update::Confirm { token: "T".to_string(), at: at(60) };
    let request = confirm.to_request();
    assert_eq!(
        request.update_expression,
        "SET validated = :validated, updated_at = :updated_at REMOVE validation_token, token_expiration"
    );
    assert_eq!(request.condition_expression, "validation_token = :token");
    assert_eq!(request.values.get(":validated"), Some(&Attribute::Bool(true)));
    assert_eq!(request.values.get(":token"), Some(&Attribute::S("T".to_string())));
    assert_eq!(
        request.values.get(":updated_at"),
        Some(&Attribute::S("1970-01-01T00:01:00+00:00".to_string()))
    );
    assert_eq!(request.values.entries().len(), 3);

    let deactivate = Update::Deactivate { at: at(60) };
    let request = deactivate.to_request();
    assert_eq!(request.update_expression, "SET active = :active, updated_at = :updated_at");
    assert_eq!(request.condition_expression, "attribute_exists(id)");
    assert_eq!(request.values.get(":active"), Some(&Attribute::Bool(false)));
    assert_eq!(request.values.entries().len(), 2);

    let given = deactivate.request_with("now".to_string(), "never".to_string());
    assert_eq!(given.values.get(":updated_at"), Some(&Attribute::S("now".to_string())));
    assert_eq!(given.values.get(":expiration"), None);
    assert_eq!(issue.token(), Some(&"T".to_string()));
    assert_eq!(deactivate.token(), None);
}

#[test]
fn the_table_is_named() {
    assert_eq!(TABLE_NAME, "newsletter_subscribers");
    assert_eq!(EMAIL_INDEX, "email-index");
    assert_eq!(EMAIL_CONDITION, "email = :email");
}

#[test]
fn updates_are_made_only_where_admitted() {
    let mut record = candidate();
    let issue = Update::IssueToken { token: "T".to_string(), expiration: at(T + 10), at: at(T + 1) };
    let confirm = Update::Confirm { token: "T".to_string(), at: at(T + 2) };
    let other = Update::Confirm { token: "U".to_string(), at: at(T + 2) };
    let deactivate = Update::Deactivate { at: at(T + 3) };
    assert!(record.admits(&issue));
    assert!(!record.admits(&confirm));
    assert!(record.admits(&deactivate));
    record.apply(&issue);
    assert_eq!(record.validation_token, Some("T".to_string()));
    assert_eq!(record.token_expiration, Some(at(T + 10)));
    assert_eq!(record.updated_at, at(T + 1));
    assert!(record.admits(&confirm));
    assert!(!record.admits(&other));
    record.apply(&confirm);
    assert!(record.validated);
    assert_eq!(record.validation_token, None);
    assert_eq!(record.token_expiration, None);
    assert_eq!(record.updated_at, at(T + 2));
    assert!(!record.admits(&issue));
    assert!(!record.admits(&confirm));
    record.apply(&deactivate);
    assert!(!record.active);
    assert!(record.validated);
    assert_eq!(record.updated_at, at(T + 3));
    assert_eq!(record.created_at, at(T));
}
