use zero2prod::token::{generate_subscription_token, TOKEN_LENGTH};

#[test]
fn generated_token_is_25_alphanumeric_characters() {
    let t = generate_subscription_token();
    assert_eq!(t.chars().count(), 25);
    assert_eq!(t.chars().count(), TOKEN_LENGTH);
    assert!(t.chars().all(|c| c.is_ascii_alphanumeric()));
}

#[test]
fn generated_tokens_differ_between_calls() {
    // 25 characters over a 62-symbol alphabet: a collision here would be
    // astronomically unlikely and means the generator is broken
    let a = generate_subscription_token();
    let b = generate_subscription_token();
    assert_ne!(a, b);
}
