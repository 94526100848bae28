use zero2prod::errors::SubscribeError;
use zero2prod::new_subscriber::NewSubscriber;
use zero2prod::newsletter::{Publication, PublishAction};
use zero2prod::store::{ConfirmError, StoreError, SubscriberStore, SubscriptionStatus};
use zero2prod::subscriptions::{
    generate_subscription_token, subscribe, subscribe_with, SUBSCRIPTION_TOKEN_LENGTH,
};

fn status_of(store: &SubscriberStore, id: u128) -> Option<SubscriptionStatus> {
    store.subscribers().iter().find(|s| s.id == id).map(|s| s.status)
}

#[test]
fn register_stores_a_pending_subscriber_and_its_token() {
    let mut store = SubscriberStore::new();
    let (id, token) = subscribe(
        &mut store,
        "le guin".to_string(),
        "ursula_le_guin@gmail.com".to_string(),
    )
    .unwrap();
    assert_eq!(store.subscribers().len(), 1);
    let row = &store.subscribers()[0];
    assert_eq!(row.id, id);
    assert_eq!(row.name, "le guin");
    assert_eq!(row.email, "ursula_le_guin@gmail.com");
    assert_eq!(row.status, SubscriptionStatus::PendingConfirmation);
    assert_eq!(store.tokens().len(), 1);
    assert_eq!(store.tokens()[0].subscription_token, token);
    assert_eq!(store.tokens()[0].subscriber_id, id);
}

#[test]
fn end_to_end_register_confirm_publish() {
    let mut store = SubscriberStore::new();
    let (id, token) = subscribe(
        &mut store,
        "le guin".to_string(),
        "ursula_le_guin@gmail.com".to_string(),
    )
    .unwrap();
    assert_eq!(status_of(&store, id), Some(SubscriptionStatus::PendingConfirmation));
    assert_eq!(store.confirm(&token), Ok(()));
    assert_eq!(status_of(&store, id), Some(SubscriptionStatus::Confirmed));

    let mut publication = Publication::for_confirmed(&store);
    let mut sent = Vec::new();
    loop {
        match publication.next_action() {
            PublishAction::Send(to) => {
                sent.push(to);
                publication.record_delivery(true);
            }
            PublishAction::Completed => break,
            PublishAction::Aborted(to) => panic!("unexpected failure for {}", to),
        }
    }
    assert_eq!(sent, vec!["ursula_le_guin@gmail.com".to_string()]);
}

#[test]
fn register_then_confirm_with_issued_token_confirms() {
    let mut store = SubscriberStore::new();
    subscribe_with(&mut store, "A".into(), "a@b.com".into(), 7, 100, "tok7".into()).unwrap();
    subscribe_with(&mut store, "B".into(), "b@b.com".into(), 8, 101, "tok8".into()).unwrap();
    assert_eq!(store.confirm("tok8"), Ok(()));
    assert_eq!(status_of(&store, 8), Some(SubscriptionStatus::Confirmed));
    assert_eq!(status_of(&store, 7), Some(SubscriptionStatus::PendingConfirmation));
}

#[test]
fn register_with_empty_name_is_a_validation_error() {
    let mut store = SubscriberStore::new();
    let r = subscribe(&mut store, "".to_string(), "a@b.com".to_string());
    assert_eq!(
        r,
        Err(SubscribeError::ValidationError("invalid subscriber name".to_string()))
    );
    assert!(store.subscribers().is_empty());
    assert!(store.tokens().is_empty());
}

#[test]
fn register_with_malformed_email_is_a_validation_error() {
    let mut store = SubscriberStore::new();
    let r = subscribe(&mut store, "A".to_string(), "not-an-email".to_string());
    assert_eq!(
        r,
        Err(SubscribeError::ValidationError("invalid subscriber email".to_string()))
    );
    assert!(store.subscribers().is_empty());
    assert!(store.tokens().is_empty());
}

#[test]
fn malformed_names_and_emails_store_nothing() {
    let mut store = SubscriberStore::new();
    let long = "a".repeat(257);
    for (name, email) in [
        ("", "a@b.com"),
        ("   ", "a@b.com"),
        (long.as_str(), "a@b.com"),
        ("<script>", "a@b.com"),
        ("A", "ab.com"),
        ("A", "a@bcom"),
    ] {
        let r = subscribe_with(&mut store, name.into(), email.into(), 1, 0, "tok".into());
        assert!(matches!(r, Err(SubscribeError::ValidationError(_))));
        assert!(store.subscribers().is_empty());
        assert!(store.tokens().is_empty());
    }
}

#[test]
fn duplicate_emails_may_coexist() {
    let mut store = SubscriberStore::new();
    subscribe_with(&mut store, "A".into(), "a@b.com".into(), 1, 0, "t1".into()).unwrap();
    subscribe_with(&mut store, "A".into(), "a@b.com".into(), 2, 0, "t2".into()).unwrap();
    assert_eq!(store.subscribers().len(), 2);
    assert_eq!(store.tokens().len(), 2);
}

#[test]
fn a_taken_identifier_stores_nothing() {
    let mut store = SubscriberStore::new();
    subscribe_with(&mut store, "A".into(), "a@b.com".into(), 1, 0, "t1".into()).unwrap();
    let r = subscribe_with(&mut store, "B".into(), "b@b.com".into(), 1, 0, "t2".into());
    assert_eq!(r, Err(SubscribeError::StoreError(StoreError::DuplicateSubscriberId)));
    assert_eq!(store.subscribers().len(), 1);
    assert_eq!(store.tokens().len(), 1);
}

#[test]
fn a_taken_token_stores_nothing() {
    let mut store = SubscriberStore::new();
    subscribe_with(&mut store, "A".into(), "a@b.com".into(), 1, 0, "t1".into()).unwrap();
    let r = subscribe_with(&mut store, "B".into(), "b@b.com".into(), 2, 0, "t1".into());
    assert_eq!(r, Err(SubscribeError::StoreError(StoreError::DuplicateToken)));
    assert_eq!(store.subscribers().len(), 1);
    assert_eq!(store.tokens().len(), 1);
}

#[test]
fn confirm_with_unknown_token_changes_nothing() {
    let mut store = SubscriberStore::new();
    subscribe_with(&mut store, "A".into(), "a@b.com".into(), 1, 0, "t1".into()).unwrap();
    assert_eq!(store.confirm("never-issued"), Err(ConfirmError::TokenNotFound));
    assert_eq!(status_of(&store, 1), Some(SubscriptionStatus::PendingConfirmation));
    assert_eq!(store.get_subscriber_id_from_token("never-issued"), None);
}

#[test]
fn confirm_twice_is_idempotent() {
    let mut store = SubscriberStore::new();
    subscribe_with(&mut store, "A".into(), "a@b.com".into(), 1, 0, "t1".into()).unwrap();
    assert_eq!(store.confirm("t1"), Ok(()));
    assert_eq!(store.confirm("t1"), Ok(()));
    assert_eq!(status_of(&store, 1), Some(SubscriptionStatus::Confirmed));
    assert_eq!(store.subscribers().len(), 1);
}

#[test]
fn token_lookup_finds_its_subscriber() {
    let mut store = SubscriberStore::new();
    subscribe_with(&mut store, "A".into(), "a@b.com".into(), 41, 0, "t41".into()).unwrap();
    assert_eq!(store.get_subscriber_id_from_token("t41"), Some(41));
}

#[test]
fn generated_tokens_are_alphanumeric_and_fixed_length() {
    let token = generate_subscription_token();
    assert_eq!(token.chars().count(), SUBSCRIPTION_TOKEN_LENGTH);
    assert_eq!(SUBSCRIPTION_TOKEN_LENGTH, 25);
    assert!(token.chars().all(|c| c.is_ascii_alphanumeric()));
    assert_ne!(token, generate_subscription_token());
}

#[test]
fn drawn_identifiers_are_version_4() {
    let mut store = SubscriberStore::new();
    let (id, _) = subscribe(&mut store, "A".into(), "a@b.com".into()).unwrap();
    assert_eq!((id >> 76) & 0xf, 4);
    assert_eq!((id >> 62) & 0x3, 2);
    let (other, _) = subscribe(&mut store, "A".into(), "a@b.com".into()).unwrap();
    assert_ne!(id, other);
    assert!(store.subscribers()[0].subscribed_at > 1_600_000_000);
}

#[test]
fn new_subscriber_can_be_registered_directly() {
    let mut store = SubscriberStore::new();
    let s = NewSubscriber::parse("A".into(), "a@b.com".into()).unwrap();
    assert_eq!(store.register(&s, 3, 5, "t3".into()), Ok(()));
    assert_eq!(store.subscribers()[0].subscribed_at, 5);
}

#[test]
fn register_on_an_empty_store_leaves_one_row_and_one_token() {
    let mut store = SubscriberStore::new();
    let (id, token) = subscribe(
        &mut store,
        "le guin".to_string(),
        "ursula_le_guin@gmail.com".to_string(),
    )
    .expect("an empty store takes any valid registration");
    assert_eq!(store.subscribers().len(), 1);
    assert_eq!(store.subscribers()[0].id, id);
    assert_eq!(store.tokens().len(), 1);
    assert_eq!(store.tokens()[0].subscription_token, token);
    assert_eq!(store.tokens()[0].subscriber_id, id);
}
