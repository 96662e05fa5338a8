use zero2prod::dispatch::{
    build_confirmation_link, compose_confirmation_email, extract_first_link, token_from_link,
    ApplicationBaseUrl,
};
use zero2prod::models::ValidEmail;

const BASE: &str = "https://there.com";

#[test]
fn confirmation_link_has_the_documented_shape() {
    let link = build_confirmation_link(BASE, "abc123");
    assert_eq!(link, "https://there.com/confirm?token=abc123");
}

#[test]
fn subscribe_sends_a_confirmation_mail_with_a_link() {
    let base = ApplicationBaseUrl(String::from(BASE));
    let recipient = ValidEmail::new("ursula_le_guin@gmail.com").unwrap();
    let message = compose_confirmation_email(&base, &recipient, "tok25tok25tok25tok25tok25");
    assert_eq!(message.to, "ursula_le_guin@gmail.com");
    assert_eq!(message.subject, "Welcome!");
    // dual-body invariant: each body holds exactly one URL and they agree
    let html_link = extract_first_link(&message.html_body).expect("no link in the HTML body");
    let text_link = extract_first_link(&message.text_body).expect("no link in the text body");
    assert_eq!(html_link, text_link);
    assert_eq!(html_link, "https://there.com/confirm?token=tok25tok25tok25tok25tok25");
}

#[test]
fn email_bodies_follow_the_fixed_templates() {
    let base = ApplicationBaseUrl(String::from(BASE));
    let recipient = ValidEmail::new("email@here.com").unwrap();
    let message = compose_confirmation_email(&base, &recipient, "t");
    assert_eq!(
        message.html_body,
        "Welcome to our newsletter!<br />Click <a href=\"https://there.com/confirm?token=t\">here</a> to confirm your subscription."
    );
    assert_eq!(
        message.text_body,
        "Welcome to our newsletter!\nVisit https://there.com/confirm?token=t to confirm your subscription."
    );
}

#[test]
fn extraction_finds_a_delimited_url() {
    assert_eq!(
        extract_first_link("Visit https://x.example/z now"),
        Some(String::from("https://x.example/z"))
    );
    assert_eq!(
        extract_first_link("first http://a.example then http://b.example"),
        Some(String::from("http://a.example"))
    );
    assert_eq!(extract_first_link("no links here"), None);
    assert_eq!(extract_first_link(""), None);
}

#[test]
fn token_recovery_inverts_link_building() {
    let link = build_confirmation_link(BASE, "SomeToken123");
    assert_eq!(token_from_link(&link, BASE), Some(String::from("SomeToken123")));
    assert_eq!(token_from_link("https://elsewhere.com/confirm?token=x", BASE), None);
    assert_eq!(token_from_link("https://there.com/other?token=x", BASE), None);
    assert_eq!(token_from_link("short", BASE), None);
}
