use fast_chat::errors::AppErrorType;
use fast_chat::graphql::user::validators::{contains_forbidden, UserEmail, UserName};

#[test]
fn a_plain_name_is_accepted() {
    let name = UserName::parse("Ursula Le Guin".to_string());
    assert!(name.is_ok());
    assert_eq!(name.unwrap().inner(), "Ursula Le Guin");
}

#[test]
fn a_blank_name_is_rejected() {
    for s in ["", " ", "   \t\n"] {
        let r = UserName::parse(s.to_string());
        let e = r.err().unwrap();
        assert_eq!(e.detail(), &format!("{} is not a valid subscriber name.", s));
        assert!(matches!(e.error_type(), AppErrorType::ValidationError(_)));
    }
}

#[test]
fn a_name_of_256_graphemes_is_accepted_and_257_rejected() {
    assert!(UserName::parse("a".repeat(256)).is_ok());
    assert!(UserName::parse("a".repeat(257)).is_err());
}

#[test]
fn graphemes_are_counted_not_characters() {
    // One grapheme cluster made of two characters.
    let cluster = "e\u{301}";
    assert!(UserName::parse(cluster.repeat(256)).is_ok());
    assert!(UserName::parse(cluster.repeat(257)).is_err());
}

#[test]
fn each_forbidden_character_is_rejected() {
    for c in ['/', '(', ')', '"', '<', '>', '\\', '{', '}'] {
        let s = format!("ab{}cd", c);
        assert!(contains_forbidden(&s));
        assert!(UserName::parse(s).is_err());
    }
    assert!(!contains_forbidden("abcd"));
}

#[test]
fn decide_follows_the_measurements_it_is_given() {
    assert!(UserName::decide("abc".to_string(), 3, 3).is_ok());
    assert!(UserName::decide("abc".to_string(), 0, 3).is_err());
    assert!(UserName::decide("abc".to_string(), 3, 257).is_err());
    assert!(UserName::decide("abc".to_string(), 3, 256).is_ok());
    assert!(UserName::decide("a{c".to_string(), 3, 3).is_err());
}

#[test]
fn a_well_formed_address_is_accepted() {
    let email = UserEmail::parse("ursula@example.com".to_string()).unwrap();
    assert_eq!(email.as_ref(), "ursula@example.com");
    assert_eq!(email.inner(), "ursula@example.com");
}

#[test]
fn a_malformed_address_is_rejected() {
    for s in ["", "abc", "abc@", "a @x.cz", "something@@somewhere.com"] {
        let e = UserEmail::parse(s.to_string()).err().unwrap();
        assert_eq!(e.detail(), "Failed to parse email.");
        match e.error_type() {
            AppErrorType::ValidationError(d) => assert_eq!(d, "Failed to parse email."),
            _ => panic!("wrong kind of error"),
        }
    }
}

#[test]
fn decide_on_an_address_follows_the_verdict() {
    assert!(UserEmail::decide("nonsense".to_string(), true).is_ok());
    assert!(UserEmail::decide("a@b.c".to_string(), false).is_err());
}
