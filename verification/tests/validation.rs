use zero2prod::error::ValidationError;
use zero2prod::models::{NewSubscriber, TokenQuery, ValidEmail};
use zero2prod::validation::{validate_email_address, validate_name};

#[test]
fn valid_email_is_accepted() {
    assert!(validate_email_address("ursula_le_guin@gmail.com").is_ok());
    assert!(validate_email_address("email@here.com").is_ok());
}

#[test]
fn malformed_emails_are_rejected() {
    assert_eq!(
        validate_email_address("not-an-email"),
        Err(ValidationError::InvalidEmail)
    );
    assert_eq!(
        validate_email_address("definitely-not-an-email"),
        Err(ValidationError::InvalidEmail)
    );
    assert_eq!(validate_email_address(""), Err(ValidationError::InvalidEmail));
    assert_eq!(
        validate_email_address("something@@somewhere.com"),
        Err(ValidationError::InvalidEmail)
    );
}

#[test]
fn ordinary_name_is_accepted() {
    assert!(validate_name("Ursula le Guin").is_ok());
    assert!(validate_name(" a ").is_ok());
}

#[test]
fn empty_and_whitespace_names_are_rejected() {
    assert_eq!(validate_name(""), Err(ValidationError::NameEmpty));
    assert_eq!(validate_name("   "), Err(ValidationError::NameEmpty));
    // non-breaking space is Unicode whitespace too
    assert_eq!(validate_name("\u{00A0}\u{00A0}"), Err(ValidationError::NameEmpty));
}

#[test]
fn overlong_name_is_rejected() {
    let name_257 = "a".repeat(257);
    assert_eq!(validate_name(&name_257), Err(ValidationError::NameTooLong));
    let name_256 = "a".repeat(256);
    assert!(validate_name(&name_256).is_ok());
}

#[test]
fn name_length_counts_graphemes_not_chars() {
    // 'a' followed by a combining acute accent: two chars, one grapheme.
    let accented = "a\u{0301}".repeat(256);
    assert_eq!(accented.chars().count(), 512);
    assert!(validate_name(&accented).is_ok());
    let accented_257 = "a\u{0301}".repeat(257);
    assert_eq!(validate_name(&accented_257), Err(ValidationError::NameTooLong));
}

#[test]
fn names_with_forbidden_characters_are_rejected() {
    for bad in [
        "Ursula<", "a/b", "(name)", "say \"hi\"", "a>b", "back\\slash", "br{ace", "brace}",
    ] {
        assert_eq!(
            validate_name(bad),
            Err(ValidationError::NameForbiddenCharacter),
            "expected rejection of {bad}"
        );
    }
}

#[test]
fn name_rules_are_checked_in_order() {
    // 300 forbidden characters: the length rule fires first.
    let long_and_forbidden = "(".repeat(300);
    assert_eq!(validate_name(&long_and_forbidden), Err(ValidationError::NameTooLong));
}

#[test]
fn validation_error_names_field_and_rule() {
    assert_eq!(ValidationError::InvalidEmail.field(), "email");
    assert_eq!(ValidationError::NameEmpty.field(), "name");
    assert_eq!(ValidationError::NameTooLong.field(), "name");
    assert_eq!(ValidationError::NameForbiddenCharacter.field(), "name");
    assert_eq!(ValidationError::InvalidEmail.rule(), "not a valid email address");
    assert_eq!(ValidationError::NameEmpty.rule(), "name is empty");
    assert_eq!(ValidationError::NameTooLong.rule(), "name length exceeds 256 characters");
    assert_eq!(
        ValidationError::NameForbiddenCharacter.rule(),
        "name contains forbidden character(s)"
    );
}

#[test]
fn new_subscriber_keeps_validated_values() {
    let s = NewSubscriber::new(
        String::from("ursula_le_guin@gmail.com"),
        String::from("Ursula le Guin"),
    )
    .expect("valid subscriber input was rejected");
    assert_eq!(s.get_email(), "ursula_le_guin@gmail.com");
    assert_eq!(s.get_name(), "Ursula le Guin");
}

#[test]
fn new_subscriber_reports_the_offending_field() {
    let r = NewSubscriber::new(String::from("not-an-email"), String::from("Ursula"));
    assert!(matches!(r, Err(ValidationError::InvalidEmail)));
    // email is checked first even when both fields are bad
    let r = NewSubscriber::new(String::from("not-an-email"), String::from(""));
    assert!(matches!(r, Err(ValidationError::InvalidEmail)));
    let r = NewSubscriber::new(String::from("email@here.com"), String::from(""));
    assert!(matches!(r, Err(ValidationError::NameEmpty)));
}

#[test]
fn valid_email_wrapper_round_trips() {
    let v = ValidEmail::new("email@here.com").expect("valid email was rejected");
    assert_eq!(v.as_str(), "email@here.com");
    assert_eq!(
        ValidEmail::new("nope").err(),
        Some(String::from("Not a valid email!"))
    );
}

#[test]
fn token_query_returns_its_token() {
    let q = TokenQuery::new(String::from("abc123"));
    assert_eq!(q.get_token(), "abc123");
}
