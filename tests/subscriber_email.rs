use zero2prod::new_subscriber::NewSubscriber;
use zero2prod::subscriber_email::SubscriberEmail;

#[test]
fn a_plain_address_is_valid() {
    let e = SubscriberEmail::parse("ursula_le_guin@gmail.com".to_string()).unwrap();
    assert_eq!(e.as_str(), "ursula_le_guin@gmail.com");
}

#[test]
fn an_address_without_at_sign_is_invalid() {
    assert!(SubscriberEmail::parse("not-an-email".to_string()).is_err());
    assert!(SubscriberEmail::parse("ursuladomain.com".to_string()).is_err());
}

#[test]
fn an_address_without_domain_dot_is_invalid() {
    assert!(SubscriberEmail::parse("ursula@localhost".to_string()).is_err());
    assert!(SubscriberEmail::parse("ursula@.com".to_string()).is_err());
    assert!(SubscriberEmail::parse("ursula@gmail.".to_string()).is_err());
}

#[test]
fn an_address_without_local_part_is_invalid() {
    assert!(SubscriberEmail::parse("@gmail.com".to_string()).is_err());
}

#[test]
fn an_address_with_two_at_signs_is_invalid() {
    assert!(SubscriberEmail::parse("a@b@c.com".to_string()).is_err());
}

#[test]
fn an_address_with_white_space_is_invalid() {
    assert!(SubscriberEmail::parse("ursula le guin@gmail.com".to_string()).is_err());
}

#[test]
fn an_empty_address_is_invalid() {
    let err = SubscriberEmail::parse("".to_string()).unwrap_err();
    assert_eq!(err, "invalid subscriber email");
}

#[test]
fn a_short_address_is_valid() {
    assert!(SubscriberEmail::parse("a@b.co".to_string()).is_ok());
}

#[test]
fn a_new_subscriber_reports_the_name_first() {
    let err = NewSubscriber::parse("".to_string(), "nope".to_string()).unwrap_err();
    assert_eq!(err, "invalid subscriber name");
    let err = NewSubscriber::parse("A".to_string(), "nope".to_string()).unwrap_err();
    assert_eq!(err, "invalid subscriber email");
    let ok = NewSubscriber::parse("A".to_string(), "a@b.com".to_string()).unwrap();
    assert_eq!(ok.name.as_str(), "A");
    assert_eq!(ok.email.as_str(), "a@b.com");
}
