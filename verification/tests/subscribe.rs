use zero2prod::dispatch::{extract_first_link, token_from_link, ApplicationBaseUrl};
use zero2prod::store::{Store, SubscriberStatus};
use zero2prod::workflow::{run_subscribe, subscribe, StorageFaults, SubscribeOutcome};

const BASE: &str = "https://there.com";
const EMAIL: &str = "ursula_le_guin@gmail.com";
const NAME: &str = "Ursula le Quin";

fn base_url() -> ApplicationBaseUrl {
    ApplicationBaseUrl(String::from(BASE))
}

#[test]
fn subscribe_returns_200_for_valid_form_data() {
    let mut store = Store::new();
    let (outcome, email) = subscribe(&mut store, &base_url(), EMAIL, NAME, StorageFaults::none(), true);
    assert_eq!(outcome, SubscribeOutcome::Completed);
    assert_eq!(outcome.status_code(), 200);
    assert!(email.is_some());
}

#[test]
fn subscribe_inserts_rows_into_database() {
    let mut store = Store::new();
    let (outcome, email) = subscribe(&mut store, &base_url(), EMAIL, NAME, StorageFaults::none(), true);
    assert_eq!(outcome, SubscribeOutcome::Completed);
    assert_eq!(store.subscriber_count(), 1);
    assert_eq!(store.count_with_email(EMAIL), 1);
    // the new row is pending, and its token row is redeemable
    let message = email.expect("no confirmation email was composed");
    let link = extract_first_link(&message.html_body).expect("no link in the HTML body");
    let token = token_from_link(&link, BASE).expect("link does not carry a token");
    let id = store
        .find_subscriber_id_by_token(&token, false)
        .expect("lookup failed")
        .expect("token row missing");
    assert_eq!(store.status_of(id), Some(SubscriberStatus::PendingConfirmation));
}

#[test]
fn subscribe_returns_a_422_when_fields_are_present_but_erroneous() {
    let cases = [
        (EMAIL, "", "empty name"),
        ("", "Ursula le Guin", "empty email"),
        ("definitely-not-an-email", "Ursula", "invalid email"),
    ];
    for (email, name, description) in cases {
        let mut store = Store::new();
        let (outcome, message) =
            subscribe(&mut store, &base_url(), email, name, StorageFaults::none(), true);
        assert!(
            matches!(outcome, SubscribeOutcome::InvalidInput(_)),
            "payload with an {description} was not rejected"
        );
        assert_eq!(outcome.status_code(), 422);
        assert!(message.is_none());
        // rejected before any storage write
        assert_eq!(store.subscriber_count(), 0);
    }
}

#[test]
fn subscribe_sends_a_confirmation_mail_for_valid_data() {
    let mut store = Store::new();
    let (_, email) = subscribe(&mut store, &base_url(), EMAIL, NAME, StorageFaults::none(), true);
    let message = email.expect("no confirmation email was composed");
    assert_eq!(message.to, EMAIL);
    assert_eq!(message.subject, "Welcome!");
    assert!(message.html_body.contains("/confirm?token="));
    assert!(message.text_body.contains("/confirm?token="));
}

#[test]
fn token_attachment_failure_rolls_the_transaction_back() {
    // fault injection: the insert succeeds, attaching the token fails
    let mut store = Store::new();
    let faults = StorageFaults { insert: false, attach: true, commit: false };
    let (outcome, email) = run_subscribe(
        &mut store,
        &base_url(),
        EMAIL,
        NAME,
        7,
        "faketokenfaketokenfaketok",
        0,
        faults,
        true,
    );
    assert_eq!(outcome, SubscribeOutcome::StorageFailed);
    assert_eq!(outcome.status_code(), 500);
    assert!(email.is_none());
    // no subscriber row is observable afterward
    assert_eq!(store.subscriber_count(), 0);
    assert_eq!(store.count_with_email(EMAIL), 0);
    assert_eq!(store.find_subscriber_id_by_token("faketokenfaketokenfaketok", false), Ok(None));
}

#[test]
fn insert_and_commit_failures_also_roll_back() {
    for faults in [
        StorageFaults { insert: true, attach: false, commit: false },
        StorageFaults { insert: false, attach: false, commit: true },
    ] {
        let mut store = Store::new();
        let (outcome, _) = subscribe(&mut store, &base_url(), EMAIL, NAME, faults, true);
        assert_eq!(outcome, SubscribeOutcome::StorageFailed);
        assert_eq!(store.subscriber_count(), 0);
    }
}

#[test]
fn dispatch_failure_is_reported_but_rows_stay_committed() {
    // the documented inconsistency window: the email could not be sent, the
    // caller sees a server error, yet subscriber and token are durable
    let mut store = Store::new();
    let (outcome, email) = subscribe(&mut store, &base_url(), EMAIL, NAME, StorageFaults::none(), false);
    assert_eq!(outcome, SubscribeOutcome::DispatchFailed);
    assert_eq!(outcome.status_code(), 500);
    assert_eq!(store.subscriber_count(), 1);
    let message = email.expect("the composed email should still be reported");
    let link = extract_first_link(&message.text_body).expect("no link in the text body");
    let token = token_from_link(&link, BASE).expect("link does not carry a token");
    let found = store.find_subscriber_id_by_token(&token, false).unwrap();
    assert!(found.is_some(), "the token must be durable despite the dispatch failure");
}

#[test]
fn repeated_subscriptions_create_independent_rows() {
    // the store does not deduplicate by email: each call mints a new identity
    let mut store = Store::new();
    subscribe(&mut store, &base_url(), EMAIL, NAME, StorageFaults::none(), true);
    subscribe(&mut store, &base_url(), EMAIL, NAME, StorageFaults::none(), true);
    assert_eq!(store.count_with_email(EMAIL), 2);
    assert_eq!(store.subscriber_count(), 2);
}

#[test]
fn transaction_without_commit_leaves_no_trace() {
    let mut store = Store::new();
    let mut tx = store.begin();
    tx.create_pending_subscriber(&store, 42, EMAIL, NAME, 123, false)
        .expect("staging the subscriber failed");
    tx.attach_token("sometokensometokensometok", false)
        .expect("staging the token failed");
    drop(tx);
    assert_eq!(store.subscriber_count(), 0);
    assert_eq!(store.find_subscriber_id_by_token("sometokensometokensometok", false), Ok(None));
}
