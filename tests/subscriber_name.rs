use zero2prod::subscriber_name::{name_is_valid, SubscriberName};

#[test]
fn a_256_grapheme_name_is_valid() {
    let name = SubscriberName::parse("a".repeat(256));
    assert!(name.is_ok());
}

#[test]
fn a_name_longer_than_256_graphemes_is_invalid() {
    let name = SubscriberName::parse("a".repeat(257));
    assert!(name.is_err());
}

#[test]
fn whitespace_only_names_are_invalid() {
    let name = SubscriberName::parse(" ".into());
    assert!(name.is_err());
}

#[test]
fn empty_names_are_invalid() {
    let name = SubscriberName::parse("".into());
    assert!(name.is_err());
}

#[test]
fn names_with_forbidden_characters_are_invalid() {
    for name in &["<", ">", "\"", "`", "(", ")", "{", "}", "\\", "/"] {
        let name = SubscriberName::parse(name.to_string());
        assert!(name.is_err());
    }
}

#[test]
fn valid_names_are_valid() {
    let name = SubscriberName::parse("Ursula Le Guin".to_string());
    assert!(name.is_ok());
}

#[test]
fn a_name_is_kept_verbatim() {
    let name = SubscriberName::parse("  le guin ".to_string()).unwrap();
    assert_eq!(name.as_str(), "  le guin ");
}

#[test]
fn graphemes_not_chars_are_counted() {
    // "e" followed by a combining acute accent is two chars but one grapheme.
    let accented = "e\u{301}".repeat(256);
    assert_eq!(accented.chars().count(), 512);
    assert!(SubscriberName::parse(accented).is_ok());
    assert!(SubscriberName::parse("e\u{301}".repeat(257)).is_err());
}

#[test]
fn unicode_white_space_only_names_are_invalid() {
    assert!(SubscriberName::parse("\t\n\u{3000}\u{a0}".to_string()).is_err());
}

#[test]
fn the_refusal_names_the_field() {
    let err = SubscriberName::parse("".to_string()).unwrap_err();
    assert_eq!(err, "invalid subscriber name");
}

#[test]
fn name_rules_apply_to_a_given_grapheme_count() {
    assert!(name_is_valid("le guin", 7));
    assert!(name_is_valid("le guin", 256));
    assert!(!name_is_valid("le guin", 257));
    assert!(!name_is_valid("", 0));
    assert!(!name_is_valid(" \t", 2));
    assert!(!name_is_valid("a/b", 3));
}
