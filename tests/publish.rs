use zero2prod::newsletter::{get_confirmed_subscribers, Publication, PublishAction};
use zero2prod::store::SubscriberStore;
use zero2prod::subscriptions::subscribe_with;

fn store_with(n: u128) -> SubscriberStore {
    let mut store = SubscriberStore::new();
    for i in 0..n {
        subscribe_with(
            &mut store,
            format!("S{}", i),
            format!("s{}@example.com", i),
            i,
            0,
            format!("tok{}", i),
        )
        .unwrap();
    }
    store
}

/// Runs a publication with a gateway that fails on the listed send numbers.
fn run(publication: &mut Publication, fail_on: &[usize]) -> (Vec<String>, PublishAction) {
    let mut sent = Vec::new();
    loop {
        match publication.next_action() {
            PublishAction::Send(to) => {
                let ok = !fail_on.contains(&sent.len());
                sent.push(to);
                publication.record_delivery(ok);
            }
            other => return (sent, other),
        }
    }
}

#[test]
fn publish_reaches_only_confirmed_subscribers() {
    let mut store = store_with(4);
    store.confirm("tok1").unwrap();
    store.confirm("tok3").unwrap();
    let mut publication = Publication::for_confirmed(&store);
    let (sent, end) = run(&mut publication, &[]);
    assert_eq!(sent, vec!["s1@example.com".to_string(), "s3@example.com".to_string()]);
    assert_eq!(end, PublishAction::Completed);
}

#[test]
fn publish_with_no_confirmed_subscriber_sends_nothing() {
    let store = store_with(3);
    let mut publication = Publication::for_confirmed(&store);
    let (sent, end) = run(&mut publication, &[]);
    assert!(sent.is_empty());
    assert_eq!(end, PublishAction::Completed);
}

#[test]
fn a_failed_send_stops_the_publication() {
    let mut store = store_with(5);
    for i in 0..5 {
        store.confirm(&format!("tok{}", i)).unwrap();
    }
    let mut publication = Publication::for_confirmed(&store);
    let (sent, end) = run(&mut publication, &[2]);
    assert_eq!(
        sent,
        vec![
            "s0@example.com".to_string(),
            "s1@example.com".to_string(),
            "s2@example.com".to_string()
        ]
    );
    assert_eq!(end, PublishAction::Aborted("s2@example.com".to_string()));
    // Once failed, it stays failed and sends to nobody else.
    assert_eq!(publication.next_action(), PublishAction::Aborted("s2@example.com".to_string()));
}

#[test]
fn a_failure_on_the_first_send_contacts_only_the_first() {
    let mut store = store_with(2);
    store.confirm("tok0").unwrap();
    store.confirm("tok1").unwrap();
    let mut publication = Publication::for_confirmed(&store);
    let (sent, end) = run(&mut publication, &[0]);
    assert_eq!(sent, vec!["s0@example.com".to_string()]);
    assert_eq!(end, PublishAction::Aborted("s0@example.com".to_string()));
}

#[test]
fn malformed_stored_addresses_are_skipped_and_reported() {
    let rows = get_confirmed_subscribers(vec![
        "good@example.com".to_string(),
        "broken".to_string(),
        "also@example.com".to_string(),
    ]);
    assert_eq!(rows.len(), 3);
    assert!(rows[0].is_ok());
    assert_eq!(rows[1].as_ref().unwrap_err(), "invalid subscriber email");
    assert_eq!(rows[2].as_ref().unwrap().email.as_str(), "also@example.com");
    let mut publication = Publication::new(rows);
    assert_eq!(publication.skipped(), &vec!["invalid subscriber email".to_string()]);
    let (sent, end) = run(&mut publication, &[]);
    assert_eq!(
        sent,
        vec!["good@example.com".to_string(), "also@example.com".to_string()]
    );
    assert_eq!(end, PublishAction::Completed);
}

#[test]
fn list_confirmed_follows_storage_order() {
    let mut store = store_with(3);
    store.confirm("tok2").unwrap();
    store.confirm("tok0").unwrap();
    let rows = store.list_confirmed();
    let emails: Vec<&str> = rows.iter().map(|r| r.as_ref().unwrap().email.as_str()).collect();
    assert_eq!(emails, vec!["s0@example.com", "s2@example.com"]);
}
