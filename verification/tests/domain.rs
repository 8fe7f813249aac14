//! Validation of subscriber names and email addresses.

use fake::faker::internet::en::SafeEmail;
use fake::Fake;

use mailbolt::domain::{SubscriberEmail, SubscriberName};

#[test]
fn empty_strings_should_be_rejected() {
    let email = "".to_string();
    assert!(SubscriberEmail::parse(email).is_err());
}

#[test]
fn missing_at_simple_should_be_rejected() {
    let email = "hiemail.com".to_string();
    assert!(SubscriberEmail::parse(email).is_err());
}

#[test]
fn missing_email_should_be_rejected() {
    let email = "@email.com".to_string();
    assert!(SubscriberEmail::parse(email).is_err());
}

#[test]
fn valid_emails_should_be_allowed() {
    let email: String = SafeEmail().fake();
    assert!(SubscriberEmail::parse(email).is_ok());
}

#[test]
fn a_256_grapheme_long_name_is_valid() {
    let name = "ã".repeat(256);
    assert!(SubscriberName::parse(name).is_ok());
}

#[test]
fn a_name_longer_than_256_graphemes_is_rejected() {
    let name = "ã".repeat(257);
    assert!(SubscriberName::parse(name).is_err());
}

#[test]
fn names_with_invalid_chars_are_rejected() {
    for name in ['/', '(', ')', '"', '<', '>', '\\', '{', '}'] {
        let name = name.to_string();
        assert!(SubscriberName::parse(name).is_err());
    }
}

#[test]
fn whitespace_only_names_are_rejected() {
    let name = " \t\n ".to_string();
    assert!(SubscriberName::parse(name).is_err());
}

#[test]
fn empty_names_are_rejected() {
    let name = "".to_string();
    assert!(SubscriberName::parse(name).is_err());
}

#[test]
fn an_ordinary_name_is_accepted_unchanged() {
    let parsed = SubscriberName::parse("le guin".to_string()).unwrap();
    assert_eq!(parsed.as_ref(), "le guin");
}

#[test]
fn an_ordinary_email_is_accepted_unchanged() {
    let parsed = SubscriberEmail::parse("ursula_le_guin@gmail.com".to_string()).unwrap();
    assert_eq!(parsed.as_ref(), "ursula_le_guin@gmail.com");
}

#[test]
fn a_rejected_name_is_echoed_in_the_error() {
    let err = SubscriberName::parse("in/valid".to_string()).unwrap_err();
    assert_eq!(err, "in/valid is not a valid subscriber name");
}

#[test]
fn a_rejected_email_is_echoed_in_the_error() {
    let err = SubscriberEmail::parse("not-an-email".to_string()).unwrap_err();
    assert_eq!(err, "'not-an-email' is not a valid email");
}
