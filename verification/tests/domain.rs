use zero2prod::domain::SubscriberEmail;
use zero2prod::domain::SubscriberName;
use zero2prod::secret::SecretString;
use zero2prod::token::generate_subscription_token;

#[test]
fn a_256_char_name_is_valid() {
    let name = "a".repeat(256);
    assert!(SubscriberName::parse(name).is_ok());
}

#[test]
fn a_name_longer_than_256_chars_is_rejected() {
    let name = "a".repeat(257);
    assert!(SubscriberName::parse(name).is_err());
}

#[test]
fn whitespace_only_names_are_rejected() {
    assert!(SubscriberName::parse(String::from(" \t\n")).is_err());
}

#[test]
fn empty_string_names_are_rejected() {
    assert!(SubscriberName::parse(String::new()).is_err());
}

#[test]
fn names_containing_forbidden_characters_are_rejected() {
    for c in ['/', '(', ')', '"', '<', '>', '\\', '{', '}'] {
        let name = format!("ben{}jamin", c);
        assert!(SubscriberName::parse(name).is_err(), "accepted forbidden {:?}", c);
    }
}

#[test]
fn a_valid_name_round_trips() {
    let parsed = SubscriberName::parse(String::from("Ursula Le Guin")).unwrap();
    assert_eq!(parsed.as_str(), "Ursula Le Guin");
    assert_eq!(parsed.as_string(), "Ursula Le Guin");
}

#[test]
fn name_rejection_carries_the_input_in_the_message() {
    let err = SubscriberName::parse(String::from("ben/jamin")).unwrap_err();
    assert_eq!(err, "ben/jamin is not a valid subscriber name.");
}

#[test]
fn valid_emails_are_accepted() {
    for email in ["benjamin@gmail.com", "a@b.c", "first.last+tag@sub.domain.org"] {
        assert!(SubscriberEmail::parse(String::from(email)).is_ok(), "rejected {}", email);
    }
}

#[test]
fn malformed_emails_are_rejected() {
    for email in ["", "definitely-not-an-email", "@gmail.com", "benjamin@", "a b@c.de", "a@@b"] {
        assert!(SubscriberEmail::parse(String::from(email)).is_err(), "accepted {}", email);
    }
}

#[test]
fn email_rejection_carries_the_input_in_the_message() {
    let err = SubscriberEmail::parse(String::from("nope")).unwrap_err();
    assert_eq!(err, "nope is not a valid subscriber email.");
}

#[test]
fn subscription_tokens_are_25_alphanumeric_chars() {
    let token = generate_subscription_token();
    assert_eq!(token.chars().count(), 25);
    assert!(token.chars().all(|c| c.is_ascii_alphanumeric()));
}

#[test]
fn two_generated_tokens_differ() {
    assert_ne!(generate_subscription_token(), generate_subscription_token());
}

#[test]
fn a_secret_reveals_only_through_the_explicit_accessor() {
    let password = SecretString::new(String::from("everythinghastostartsomewhere"));
    assert_eq!(password.expose_secret(), "everythinghastostartsomewhere");
    assert_eq!(password.redacted(), "[REDACTED]");
}

#[test]
fn secret_equality_goes_through_the_explicit_helper() {
    let a = SecretString::new(String::from("one-password"));
    let b = SecretString::new(String::from("one-password"));
    let c = SecretString::new(String::from("another-password"));
    assert!(a.expose_eq(&b));
    assert!(!a.expose_eq(&c));
}
