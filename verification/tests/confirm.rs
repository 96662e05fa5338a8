use zero2prod::dispatch::{extract_first_link, token_from_link, ApplicationBaseUrl};
use zero2prod::store::{Store, SubscriberStatus};
use zero2prod::workflow::{run_confirm, subscribe, ConfirmOutcome, StorageFaults};

const BASE: &str = "https://there.com";
const EMAIL: &str = "ursula_le_guin@gmail.com";
const NAME: &str = "Ursula le Quin";

fn base_url() -> ApplicationBaseUrl {
    ApplicationBaseUrl(String::from(BASE))
}

/// Subscribes one visitor and hands back the store and the token carried by
/// the dispatched email's HTML link.
fn store_with_one_pending() -> (Store, String) {
    let mut store = Store::new();
    let (_, email) = subscribe(&mut store, &base_url(), EMAIL, NAME, StorageFaults::none(), true);
    let message = email.expect("no confirmation email was composed");
    let link = extract_first_link(&message.html_body).expect("no link in the HTML body");
    let token = token_from_link(&link, BASE).expect("link does not carry a token");
    (store, token)
}

#[test]
fn confirmations_with_invalid_token_are_rejected_with_a_401() {
    let (mut store, _) = store_with_one_pending();
    let outcome = run_confirm(&mut store, Some("gibberish"), false, false);
    assert_eq!(outcome, ConfirmOutcome::Unauthorized);
    assert_eq!(outcome.status_code(), 401);
    // also on an empty store
    let mut empty = Store::new();
    let outcome = run_confirm(&mut empty, Some("gibberish"), false, false);
    assert_eq!(outcome, ConfirmOutcome::Unauthorized);
}

#[test]
fn confirmations_without_token_are_rejected_with_a_400() {
    let (mut store, _) = store_with_one_pending();
    let outcome = run_confirm(&mut store, None, false, false);
    assert_eq!(outcome, ConfirmOutcome::MissingToken);
    assert_eq!(outcome.status_code(), 400);
    assert_ne!(outcome, ConfirmOutcome::Unauthorized);
}

#[test]
fn subscribe_confirmation_link_confirms_user() {
    let (mut store, token) = store_with_one_pending();
    let id = store
        .find_subscriber_id_by_token(&token, false)
        .expect("lookup failed")
        .expect("token row missing");
    assert_eq!(store.status_of(id), Some(SubscriberStatus::PendingConfirmation));
    assert_eq!(store.count_with_email(EMAIL), 1);

    let outcome = run_confirm(&mut store, Some(&token), false, false);
    assert_eq!(outcome, ConfirmOutcome::Confirmed);
    assert_eq!(outcome.status_code(), 200);
    assert_eq!(store.status_of(id), Some(SubscriberStatus::Confirmed));
}

#[test]
fn confirming_twice_succeeds_both_times() {
    let (mut store, token) = store_with_one_pending();
    let id = store
        .find_subscriber_id_by_token(&token, false)
        .expect("lookup failed")
        .expect("token row missing");
    let first = run_confirm(&mut store, Some(&token), false, false);
    let second = run_confirm(&mut store, Some(&token), false, false);
    assert_eq!(first, ConfirmOutcome::Confirmed);
    assert_eq!(second, ConfirmOutcome::Confirmed);
    assert_eq!(store.status_of(id), Some(SubscriberStatus::Confirmed));
}

#[test]
fn storage_faults_during_confirm_are_server_errors() {
    let (mut store, token) = store_with_one_pending();
    let id = store
        .find_subscriber_id_by_token(&token, false)
        .expect("lookup failed")
        .expect("token row missing");

    let outcome = run_confirm(&mut store, Some(&token), true, false);
    assert_eq!(outcome, ConfirmOutcome::StorageFailed);
    assert_eq!(outcome.status_code(), 500);
    assert_eq!(store.status_of(id), Some(SubscriberStatus::PendingConfirmation));

    let outcome = run_confirm(&mut store, Some(&token), false, true);
    assert_eq!(outcome, ConfirmOutcome::StorageFailed);
    assert_eq!(store.status_of(id), Some(SubscriberStatus::PendingConfirmation));
}

#[test]
fn confirming_an_unknown_id_is_not_an_error() {
    let mut store = Store::new();
    let r = store.mark_confirmed(999, false);
    assert_eq!(r, Ok(()));
    assert_eq!(store.subscriber_count(), 0);
}
