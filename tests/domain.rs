use zero2prod_newsletter::domain::{
    is_valid_email, name_is_valid, NewSubscriber, SubscriberEmail, SubscriberName,
};

#[test]
fn empty_name_is_rejected() {
    assert!(SubscriberName::parse("".to_string()).is_err());
}

#[test]
fn whitespace_only_names_are_rejected() {
    for s in [" ", "   ", "\t\n", "\u{3000}\u{a0}"] {
        assert!(SubscriberName::parse(s.to_string()).is_err(), "{:?}", s);
    }
}

#[test]
fn name_of_256_graphemes_is_accepted() {
    assert!(SubscriberName::parse("a".repeat(256)).is_ok());
}

#[test]
fn name_longer_than_256_graphemes_is_rejected() {
    assert!(SubscriberName::parse("a".repeat(257)).is_err());
}

#[test]
fn graphemes_not_scalars_are_counted() {
    assert!(SubscriberName::parse("ë".repeat(256)).is_ok());
    // "e" followed by a combining diaeresis: two scalars, one grapheme.
    assert!(SubscriberName::parse("e\u{308}".repeat(256)).is_ok());
    assert!(SubscriberName::parse("e\u{308}".repeat(257)).is_err());
}

#[test]
fn names_with_forbidden_characters_are_rejected() {
    for c in ['/', '(', ')', '"', '<', '>', '\\', '{', '}'] {
        let name = format!("Ursula {} Le Guin", c);
        assert!(SubscriberName::parse(name).is_err(), "{:?}", c);
    }
}

#[test]
fn valid_name_is_parsed_and_kept_exactly() {
    let name = SubscriberName::parse("Ursula Le Guin".to_string()).unwrap();
    assert_eq!(name.inner_ref(), "Ursula Le Guin");
}

#[test]
fn rejected_name_error_names_the_input() {
    let err = SubscriberName::parse("a/b".to_string()).unwrap_err();
    assert_eq!(err, "a/b is not a valid subscriber name.");
}

#[test]
fn name_check_uses_the_given_count() {
    assert!(name_is_valid("Ursula", 6));
    assert!(name_is_valid("Ursula", 256));
    assert!(!name_is_valid("Ursula", 257));
    assert!(!name_is_valid("  ", 2));
}

#[test]
fn parsing_a_name_twice_gives_equal_values() {
    let a = SubscriberName::parse("Ursula Le Guin".to_string()).unwrap();
    let b = SubscriberName::parse("Ursula Le Guin".to_string()).unwrap();
    assert_eq!(a, b);
}

#[test]
fn valid_email_is_accepted() {
    let email = SubscriberEmail::parse("user@example.com".to_string()).unwrap();
    assert_eq!(email.as_str(), "user@example.com");
    assert!(SubscriberEmail::parse("ursula.le-guin@mail.example.org".to_string()).is_ok());
}

#[test]
fn empty_email_is_rejected() {
    assert!(SubscriberEmail::parse("".to_string()).is_err());
}

#[test]
fn email_missing_at_symbol_is_rejected() {
    assert!(SubscriberEmail::parse("ursuladomain.com".to_string()).is_err());
}

#[test]
fn email_missing_subject_is_rejected() {
    assert!(SubscriberEmail::parse("@domain.com".to_string()).is_err());
}

#[test]
fn email_missing_domain_dot_is_rejected() {
    assert!(SubscriberEmail::parse("user@example".to_string()).is_err());
    assert!(SubscriberEmail::parse("user@example.".to_string()).is_err());
    assert!(SubscriberEmail::parse("user@.example".to_string()).is_err());
}

#[test]
fn email_with_whitespace_or_two_ats_is_rejected() {
    assert!(!is_valid_email(" user@example.com"));
    assert!(!is_valid_email("user@example.com "));
    assert!(!is_valid_email("us er@example.com"));
    assert!(!is_valid_email("user@ex@ample.com"));
}

#[test]
fn rejected_email_error_names_the_input() {
    let err = SubscriberEmail::parse("nobody".to_string()).unwrap_err();
    assert_eq!(err, "nobody is not a valid subscriber email.");
}

#[test]
fn parsing_an_email_twice_gives_equal_values() {
    let a = SubscriberEmail::parse("user@example.com".to_string()).unwrap();
    let b = SubscriberEmail::parse("user@example.com".to_string()).unwrap();
    assert_eq!(a, b);
}

#[test]
fn new_subscriber_holds_checked_values() {
    let s = NewSubscriber {
        email: SubscriberEmail::parse("user@example.com".to_string()).unwrap(),
        name: SubscriberName::parse("Ursula".to_string()).unwrap(),
    };
    assert_eq!(s.email.as_str(), "user@example.com");
    assert_eq!(s.name.inner_ref(), "Ursula");
}
