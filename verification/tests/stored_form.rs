use newsletter_backend::record::{Attribute, Item};
use newsletter_backend::subscriber::Subscriber;
use newsletter_backend::time::{Timestamp, MAX_SECS, MIN_SECS};

const T: i64 = 1_431_648_000;

fn at(secs: i64) -> Timestamp {
    Timestamp { secs, nanos: 0 }
}

fn text(value: &str) -> Attribute {
    Attribute::S(value.to_string())
}

fn base_item() -> Item {
    let mut item = Item::new();
    item.insert("id".to_string(), text("id-1"));
    item.insert("email".to_string(), text("a@x.com"));
    item.insert("active".to_string(), Attribute::Bool(true));
    item.insert("validated".to_string(), Attribute::Bool(false));
    item.insert("created_at".to_string(), text("2015-05-15T00:00:00+00:00"));
    item.insert("updated_at".to_string(), text("2015-05-15T01:00:00.5Z"));
    item
}

#[test]
fn a_new_record_is_stored_with_six_attributes() {
    let record = Subscriber::create("id-1".to_string(), "a@x.com".to_string(), at(T));
    let item = record.to_dynamodb_item();
    assert_eq!(item.get("id"), Some(&text("id-1")));
    assert_eq!(item.get("email"), Some(&text("a@x.com")));
    assert_eq!(item.get("active"), Some(&Attribute::Bool(true)));
    assert_eq!(item.get("validated"), Some(&Attribute::Bool(false)));
    assert_eq!(item.get("created_at"), Some(&text("2015-05-15T00:00:00+00:00")));
    assert_eq!(item.get("updated_at"), Some(&text("2015-05-15T00:00:00+00:00")));
    assert_eq!(item.get("validation_token"), None);
    assert_eq!(item.get("token_expiration"), None);
    assert_eq!(item.entries().len(), 6);
}

#[test]
fn a_token_is_stored_with_its_expiry() {
    let mut record = Subscriber::create("id-1".to_string(), "a@x.com".to_string(), at(T));
    record.validation_token = Some("T".to_string());
    record.token_expiration = Some(Timestamp { secs: T + 86_400, nanos: 123_000_000 });
    record.updated_at = Timestamp { secs: T + 1, nanos: 1 };
    let item = record.to_dynamodb_item();
    assert_eq!(item.get("validation_token"), Some(&text("T")));
    assert_eq!(item.get("token_expiration"), Some(&text("2015-05-16T00:00:00.123+00:00")));
    assert_eq!(item.get("updated_at"), Some(&text("2015-05-15T00:00:01.000000001+00:00")));
    assert_eq!(item.entries().len(), 8);
}

#[test]
fn item_with_takes_the_texts_as_given() {
    let mut record = Subscriber::create("id-1".to_string(), "a@x.com".to_string(), at(T));
    record.validation_token = Some("T".to_string());
    let item = record.item_with("c".to_string(), "u".to_string(), Some("e".to_string()));
    assert_eq!(item.get("created_at"), Some(&text("c")));
    assert_eq!(item.get("updated_at"), Some(&text("u")));
    assert_eq!(item.get("validation_token"), Some(&text("T")));
    assert_eq!(item.get("token_expiration"), Some(&text("e")));
    let bare = record.item_with("c".to_string(), "u".to_string(), None);
    assert_eq!(bare.get("validation_token"), None);
    assert_eq!(bare.get("token_expiration"), None);
}

#[test]
fn what_is_stored_is_read_back() {
    let mut record = Subscriber::create("id-1".to_string(), "a@x.com".to_string(), at(T));
    record.validation_token = Some("T".to_string());
    record.token_expiration = Some(Timestamp { secs: T + 86_400, nanos: 123_456_789 });
    record.active = false;
    let back = Subscriber::from_dynamodb_item(&record.to_dynamodb_item()).unwrap();
    assert_eq!(back.id, record.id);
    assert_eq!(back.email, record.email);
    assert_eq!(back.active, record.active);
    assert_eq!(back.validated, record.validated);
    assert_eq!(back.validation_token, record.validation_token);
    assert_eq!(back.token_expiration, record.token_expiration);
    assert_eq!(back.created_at, record.created_at);
    assert_eq!(back.updated_at, record.updated_at);
}

#[test]
fn instants_are_read_in_any_offset() {
    let mut item = base_item();
    item.insert("created_at".to_string(), text("2015-05-15T02:00:00+02:00"));
    let record = Subscriber::from_dynamodb_item(&item).unwrap();
    assert_eq!(record.created_at, at(T));
    assert_eq!(record.updated_at, Timestamp { secs: T + 3600, nanos: 500_000_000 });
    assert_eq!(record.id, "id-1");
    assert_eq!(record.email, "a@x.com");
    assert!(record.active);
    assert!(!record.validated);
    assert_eq!(record.validation_token, None);
    assert_eq!(record.token_expiration, None);
}

#[test]
fn a_leap_second_is_read_as_the_second_before_it() {
    let mut item = base_item();
    item.insert("validation_token".to_string(), text("T"));
    item.insert("token_expiration".to_string(), text("2016-12-31T23:59:60.25Z"));
    let record = Subscriber::from_dynamodb_item(&item).unwrap();
    assert_eq!(
        record.token_expiration,
        Some(Timestamp { secs: 1_483_228_799, nanos: 1_250_000_000 })
    );
    let back = record.to_dynamodb_item();
    assert_eq!(back.get("token_expiration"), Some(&text("2016-12-31T23:59:60.250+00:00")));
}

#[test]
fn a_missing_base_attribute_makes_no_record() {
    for name in ["id", "email", "active", "validated", "created_at", "updated_at"] {
        let mut item = Item::new();
        for (key, value) in base_item().entries() {
            if key != name {
                item.insert(key.clone(), value.clone());
            }
        }
        assert!(Subscriber::from_dynamodb_item(&item).is_none(), "without {}", name);
    }
    assert!(Subscriber::from_dynamodb_item(&Item::new()).is_none());
    assert!(Subscriber::from_dynamodb_item(&base_item()).is_some());
}

#[test]
fn an_attribute_of_the_wrong_kind_makes_no_record() {
    let mut item = base_item();
    item.insert("id".to_string(), Attribute::Bool(true));
    assert!(Subscriber::from_dynamodb_item(&item).is_none());
    let mut item = base_item();
    item.insert("active".to_string(), text("true"));
    assert!(Subscriber::from_dynamodb_item(&item).is_none());
    let mut item = base_item();
    item.insert("email".to_string(), Attribute::Other);
    assert!(Subscriber::from_dynamodb_item(&item).is_none());
    let mut item = base_item();
    item.insert("created_at".to_string(), text("yesterday"));
    assert!(Subscriber::from_dynamodb_item(&item).is_none());
    let mut item = base_item();
    item.insert("updated_at".to_string(), text("2015-05-15 00:00:00"));
    assert!(Subscriber::from_dynamodb_item(&item).is_none());
}

#[test]
fn half_a_token_is_no_token() {
    let mut item = base_item();
    item.insert("validation_token".to_string(), text("T"));
    let record = Subscriber::from_dynamodb_item(&item).unwrap();
    assert_eq!(record.validation_token, None);
    assert_eq!(record.token_expiration, None);

    let mut item = base_item();
    item.insert("token_expiration".to_string(), text("2015-05-16T00:00:00Z"));
    let record = Subscriber::from_dynamodb_item(&item).unwrap();
    assert_eq!(record.validation_token, None);
    assert_eq!(record.token_expiration, None);

    let mut item = base_item();
    item.insert("validation_token".to_string(), text("T"));
    item.insert("token_expiration".to_string(), text("soon"));
    let record = Subscriber::from_dynamodb_item(&item).unwrap();
    assert_eq!(record.validation_token, None);
    assert_eq!(record.token_expiration, None);

    let mut item = base_item();
    item.insert("validation_token".to_string(), Attribute::Bool(true));
    item.insert("token_expiration".to_string(), text("2015-05-16T00:00:00Z"));
    let record = Subscriber::from_dynamodb_item(&item).unwrap();
    assert_eq!(record.validation_token, None);
    assert_eq!(record.token_expiration, None);

    let mut item = base_item();
    item.insert("validation_token".to_string(), text("T"));
    item.insert("token_expiration".to_string(), text("2015-05-16T00:00:00Z"));
    let record = Subscriber::from_dynamodb_item(&item).unwrap();
    assert_eq!(record.validation_token, Some("T".to_string()));
    assert_eq!(record.token_expiration, Some(at(T + 86_400)));
}

#[test]
fn a_validated_record_is_read_without_a_token() {
    let mut item = base_item();
    item.insert("validated".to_string(), Attribute::Bool(true));
    item.insert("validation_token".to_string(), text("T"));
    item.insert("token_expiration".to_string(), text("2015-05-16T00:00:00Z"));
    let record = Subscriber::from_dynamodb_item(&item).unwrap();
    assert!(record.validated);
    assert_eq!(record.validation_token, None);
    assert_eq!(record.token_expiration, None);
}

#[test]
fn assemble_needs_the_six_base_parts() {
    let full = Subscriber::assemble(
        Some("id-1".to_string()),
        Some("a@x.com".to_string()),
        Some(false),
        Some(false),
        Some(at(1)),
        Some(at(2)),
        Some("T".to_string()),
        Some(at(3)),
    )
    .unwrap();
    assert_eq!(full.id, "id-1");
    assert_eq!(full.email, "a@x.com");
    assert!(!full.active);
    assert_eq!(full.created_at, at(1));
    assert_eq!(full.updated_at, at(2));
    assert_eq!(full.validation_token, Some("T".to_string()));
    assert_eq!(full.token_expiration, Some(at(3)));
    assert!(Subscriber::assemble(
        None,
        Some("a@x.com".to_string()),
        Some(true),
        Some(false),
        Some(at(1)),
        Some(at(2)),
        None,
        None
    )
    .is_none());
    assert!(Subscriber::assemble(
        Some("id-1".to_string()),
        Some("a@x.com".to_string()),
        Some(true),
        Some(false),
        Some(at(1)),
        None,
        None,
        None
    )
    .is_none());
}

#[test]
fn a_later_insertion_replaces_an_earlier_one() {
    let mut item = Item::new();
    assert_eq!(item.get("id"), None);
    item.insert("id".to_string(), text("one"));
    item.insert("email".to_string(), text("a@x.com"));
    item.insert("id".to_string(), text("two"));
    assert_eq!(item.get("id"), Some(&text("two")));
    assert_eq!(item.get("email"), Some(&text("a@x.com")));
    assert_eq!(item.get("Id"), None);
    assert_eq!(item.entries().len(), 3);
}

#[test]
fn attributes_hand_out_their_kind_only() {
    assert_eq!(text("a").as_s(), Some(&"a".to_string()));
    assert_eq!(text("a").as_bool(), None);
    assert_eq!(Attribute::Bool(false).as_bool(), Some(false));
    assert_eq!(Attribute::Bool(false).as_s(), None);
    assert_eq!(Attribute::Other.as_s(), None);
    assert_eq!(Attribute::Other.as_bool(), None);
    assert_eq!(text("a").clone(), text("a"));
}

#[test]
fn instants_are_written_in_rfc_3339() {
    assert_eq!(at(0).to_rfc3339(), "1970-01-01T00:00:00+00:00");
    assert_eq!(at(T).to_rfc3339(), "2015-05-15T00:00:00+00:00");
    assert_eq!(at(-1).to_rfc3339(), "1969-12-31T23:59:59+00:00");
    assert_eq!(
        Timestamp { secs: T, nanos: 120_000 }.to_rfc3339(),
        "2015-05-15T00:00:00.000120+00:00"
    );
    assert_eq!(at(MAX_SECS).to_rfc3339(), "+262142-12-31T23:59:59+00:00");
    assert_eq!(at(MIN_SECS).to_rfc3339(), "-262143-01-01T00:00:00+00:00");
}

#[test]
fn instants_are_ordered_by_seconds_then_nanoseconds() {
    let a = Timestamp { secs: 5, nanos: 10 };
    let b = Timestamp { secs: 5, nanos: 11 };
    let c = Timestamp { secs: 6, nanos: 0 };
    let leap = Timestamp { secs: 5, nanos: 1_999_999_999 };
    assert!(a.before(&b));
    assert!(!b.before(&a));
    assert!(!a.before(&a));
    assert!(b.before(&c));
    assert!(a.before(&c));
    assert!(!c.before(&a));
    assert!(leap.before(&c));
    assert!(b.before(&leap));
    assert!(Timestamp { secs: -1, nanos: 999_999_999 }.before(&at(0)));
}
