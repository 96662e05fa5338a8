//! The two business workflows. Subscribe: validate, insert the pending
//! subscriber and its token in one unit of work, commit, then compose and
//! dispatch the confirmation email. Confirm: look the subscriber up by
//! token and promote it to confirmed.
//!
//! Storage-collaborator health and dispatch success are arguments: memory
//! cannot fail on its own, and the email transport lives outside this crate,
//! so the caller (or a fault-injection test) supplies each outcome.

use vstd::prelude::*;

use crate::dispatch::{compose_confirmation_email, confirmation_email_model, ApplicationBaseUrl,
    EmailMessage};
use crate::error::ValidationError;
use crate::models::ValidEmail;
use crate::store::{first_token_match, lemma_first_match_push, lemma_first_match_row,
    lemma_with_confirmed_status,
    lemma_with_subscription_status, Store, StoreModel, SubscriberStatus, TokenModel};
use crate::token::{generate_subscription_token, token_wf};
use crate::validation::{email_ok, name_error, name_ok, validate_email_address, validate_name};

verus! {

/// The caller-visible outcome of one Subscribe request.
#[derive(Clone, Copy, Debug, PartialEq, Eq, Structural)]
pub enum SubscribeOutcome {
    /// Subscriber and token durably created, confirmation email dispatched.
    Completed,
    /// Rejected before any storage write; names the offending field and rule.
    InvalidInput(ValidationError),
    /// The unit of work failed and was rolled back; nothing was created.
    StorageFailed,
    /// The rows are durably committed but the confirmation email could not
    /// be dispatched — the deliberate inconsistency window of this design.
    DispatchFailed,
}

/// The caller-visible outcome of one Confirm request.
#[derive(Clone, Copy, Debug, PartialEq, Eq, Structural)]
pub enum ConfirmOutcome {
    /// The subscriber is now (or already was) confirmed.
    Confirmed,
    /// The request carried no token parameter: a client error, distinct
    /// from an invalid token.
    MissingToken,
    /// The token matches no subscriber: an authorization failure.
    Unauthorized,
    /// The storage collaborator failed.
    StorageFailed,
}

/// Health of the storage collaborator for each step of one Subscribe
/// request; `true` injects a failure at that step.
#[derive(Clone, Copy, Debug, PartialEq, Eq, Structural)]
pub struct StorageFaults {
    pub insert: bool,
    pub attach: bool,
    pub commit: bool,
}

/// A run with no storage failures.
pub open spec fn no_faults() -> StorageFaults {
    StorageFaults { insert: false, attach: false, commit: false }
}

impl StorageFaults {
    /// Healthy storage for every step.
    pub fn none() -> (f: StorageFaults)
        ensures
            f == no_faults(),
    {
        StorageFaults { insert: false, attach: false, commit: false }
    }
}

/// What one Subscribe request does to the store, and what the caller is
/// told: validation, then the atomic unit of work, then dispatch, with
/// every failure mapped to its outcome. Note the asymmetry of the last
/// step: a dispatch failure is reported even though the rows are already
/// durably committed.
pub open spec fn subscribe_transition(
    s: StoreModel,
    email: Seq<char>,
    name: Seq<char>,
    id: u128,
    token: Seq<char>,
    now: i64,
    faults: StorageFaults,
    dispatch_ok: bool,
) -> (StoreModel, SubscribeOutcome) {
    if !email_ok(email) {
        (s, SubscribeOutcome::InvalidInput(ValidationError::InvalidEmail))
    } else if !name_ok(name) {
        (s, SubscribeOutcome::InvalidInput(name_error(name)))
    } else if faults.insert || s.has_subscriber(id) {
        (s, SubscribeOutcome::StorageFailed)
    } else if faults.attach {
        (s, SubscribeOutcome::StorageFailed)
    } else if faults.commit {
        (s, SubscribeOutcome::StorageFailed)
    } else {
        let s1 = s.with_subscription(id, email, name, now, token);
        if dispatch_ok {
            (s1, SubscribeOutcome::Completed)
        } else {
            (s1, SubscribeOutcome::DispatchFailed)
        }
    }
}

/// What one Confirm request does to the store, and what the caller is told:
/// a missing token is a client error, an unknown token an authorization
/// failure, and a known token promotes its subscriber.
pub open spec fn confirm_transition(
    s: StoreModel,
    token: Option<Seq<char>>,
    lookup_fault: bool,
    update_fault: bool,
) -> (StoreModel, ConfirmOutcome) {
    match token {
        None => (s, ConfirmOutcome::MissingToken),
        Some(q) => {
            if lookup_fault {
                (s, ConfirmOutcome::StorageFailed)
            } else {
                match s.lookup_token(q) {
                    None => (s, ConfirmOutcome::Unauthorized),
                    Some(id) => {
                        if update_fault {
                            (s, ConfirmOutcome::StorageFailed)
                        } else {
                            (s.with_confirmed(id), ConfirmOutcome::Confirmed)
                        }
                    },
                }
            }
        },
    }
}

/// Runs one Subscribe request against the store with every collaborator
/// outcome supplied: the fresh identity, the minted token, the current
/// time, storage health and dispatch success. Returns the outcome and, when
/// the workflow reached dispatch, the composed confirmation email.
pub fn run_subscribe(
    store: &mut Store,
    base_url: &ApplicationBaseUrl,
    email: &str,
    name: &str,
    id: u128,
    token: &str,
    now: i64,
    faults: StorageFaults,
    dispatch_ok: bool,
) -> (r: (SubscribeOutcome, Option<EmailMessage>))
    requires
        old(store)@.well_formed(),
    ensures
        final(store)@ == subscribe_transition(
            old(store)@,
            email@,
            name@,
            id,
            token@,
            now,
            faults,
            dispatch_ok,
        ).0,
        r.0 == subscribe_transition(
            old(store)@,
            email@,
            name@,
            id,
            token@,
            now,
            faults,
            dispatch_ok,
        ).1,
        final(store)@.well_formed(),
        r.1 is Some <==> (r.0 is Completed || r.0 is DispatchFailed),
        r.1 matches Some(m) ==> m@ == confirmation_email_model(base_url.0@, email@, token@),
{
    match validate_email_address(email) {
        Ok(_) => {},
        Err(e) => {
            return (SubscribeOutcome::InvalidInput(e), None);
        },
    }
    match validate_name(name) {
        Ok(_) => {},
        Err(e) => {
            return (SubscribeOutcome::InvalidInput(e), None);
        },
    }
    let mut tx = store.begin();
    match tx.create_pending_subscriber(store, id, email, name, now, faults.insert) {
        Ok(_) => {},
        Err(_) => {
            return (SubscribeOutcome::StorageFailed, None);
        },
    }
    match tx.attach_token(token, faults.attach) {
        Ok(_) => {},
        Err(_) => {
            return (SubscribeOutcome::StorageFailed, None);
        },
    }
    match store.commit(tx, faults.commit) {
        Ok(_) => {},
        Err(_) => {
            return (SubscribeOutcome::StorageFailed, None);
        },
    }
    let recipient = match ValidEmail::new(email) {
        Ok(v) => v,
        Err(_) => {
            return vstd::pervasive::unreached();
        },
    };
    let message = compose_confirmation_email(base_url, &recipient, token);
    if dispatch_ok {
        (SubscribeOutcome::Completed, Some(message))
    } else {
        (SubscribeOutcome::DispatchFailed, Some(message))
    }
}

/// Runs one Confirm request against the store: extracts the token if one
/// was supplied, looks the subscriber up, and promotes it.
pub fn run_confirm(
    store: &mut Store,
    token: Option<&str>,
    lookup_fault: bool,
    update_fault: bool,
) -> (r: ConfirmOutcome)
    requires
        old(store)@.well_formed(),
    ensures
        final(store)@ == confirm_transition(
            old(store)@,
            match token {
                Some(t) => Some(t@),
                None => None,
            },
            lookup_fault,
            update_fault,
        ).0,
        r == confirm_transition(
            old(store)@,
            match token {
                Some(t) => Some(t@),
                None => None,
            },
            lookup_fault,
            update_fault,
        ).1,
        final(store)@.well_formed(),
{
    let q = match token {
        Some(q) => q,
        None => {
            return ConfirmOutcome::MissingToken;
        },
    };
    let found = match store.find_subscriber_id_by_token(q, lookup_fault) {
        Ok(found) => found,
        Err(_) => {
            return ConfirmOutcome::StorageFailed;
        },
    };
    let id = match found {
        Some(id) => id,
        None => {
            return ConfirmOutcome::Unauthorized;
        },
    };
    match store.mark_confirmed(id, update_fault) {
        Ok(_) => ConfirmOutcome::Confirmed,
        Err(_) => ConfirmOutcome::StorageFailed,
    }
}

/// Relies on uuid's `Uuid::new_v4`: a randomly generated version-4
/// identifier, never derived from the input. Nothing is promised of the
/// value.
#[verifier::external_body]
fn random_subscriber_id() -> (id: u128) {
    uuid::Uuid::new_v4().as_u128()
}

/// Relies on chrono's `Utc::now`: the current time, as milliseconds since
/// the epoch. Nothing is promised of the value.
#[verifier::external_body]
fn current_timestamp_millis() -> (t: i64) {
    chrono::Utc::now().timestamp_millis()
}

/// One whole Subscribe request: mints a fresh random identity, a 25-character
/// alphanumeric token and the current time, then runs the workflow with
/// them. Whatever identity and token were drawn, the store and the outcome
/// relate to them by [`subscribe_transition`].
pub fn subscribe(
    store: &mut Store,
    base_url: &ApplicationBaseUrl,
    email: &str,
    name: &str,
    faults: StorageFaults,
    dispatch_ok: bool,
) -> (r: (SubscribeOutcome, Option<EmailMessage>))
    requires
        old(store)@.well_formed(),
    ensures
        final(store)@.well_formed(),
        exists|id: u128, token: Seq<char>, now: i64|
            {
                let step = #[trigger] subscribe_transition(
                    old(store)@,
                    email@,
                    name@,
                    id,
                    token,
                    now,
                    faults,
                    dispatch_ok,
                );
                &&& token_wf(token)
                &&& final(store)@ == step.0
                &&& r.0 == step.1
                &&& (r.1 matches Some(m) ==> m@ == confirmation_email_model(
                    base_url.0@,
                    email@,
                    token,
                ))
            },
        r.1 is Some <==> (r.0 is Completed || r.0 is DispatchFailed),
        r.0 matches SubscribeOutcome::InvalidInput(e) ==> !(email_ok(email@) && name_ok(name@))
            && final(store)@
            == old(store)@ && e == (if !email_ok(email@) {
            ValidationError::InvalidEmail
        } else {
            name_error(name@)
        }),
        (email_ok(email@) && name_ok(name@)) ==> !(r.0 is InvalidInput),
{
    let id = random_subscriber_id();
    let token = generate_subscription_token();
    let now = current_timestamp_millis();
    let r = run_subscribe(store, base_url, email, name, id, token.as_str(), now, faults,
        dispatch_ok);
    proof {
        let step = subscribe_transition(
            old(store)@,
            email@,
            name@,
            id,
            token@,
            now,
            faults,
            dispatch_ok,
        );
        assert(token_wf(token@) && final(store)@ == step.0 && r.0 == step.1 && (
        r.1 matches Some(m) ==> m@ == confirmation_email_model(base_url.0@, email@, token@)));
    }
    r
}

/// Law: for every valid `(email, name)` pair, Subscribe followed immediately
/// by Confirm with the token it minted completes both workflows, and the
/// subscriber's persisted status is `Confirmed`. The minted identity and
/// token must be fresh in the store: a token string already present would
/// redeem against the older row instead.
pub proof fn lemma_subscribe_then_confirm(
    s: StoreModel,
    email: Seq<char>,
    name: Seq<char>,
    id: u128,
    token: Seq<char>,
    now: i64,
)
    requires
        s.well_formed(),
        email_ok(email),
        name_ok(name),
        !s.has_subscriber(id),
        s.lookup_token(token) is None,
    ensures
        ({
            let step1 = subscribe_transition(s, email, name, id, token, now, no_faults(), true);
            let step2 = confirm_transition(step1.0, Some(token), false, false);
            &&& step1.1 == SubscribeOutcome::Completed
            &&& step2.1 == ConfirmOutcome::Confirmed
            &&& step2.0.has_subscriber(id)
            &&& step2.0.status_of(id) == SubscriberStatus::Confirmed
        }),
{
    let s1 = s.with_subscription(id, email, name, now, token);
    lemma_first_match_push(s.tokens, TokenModel { token, subscriber_id: id }, token);
    assert(s1.lookup_token(token) == Some(id));
    lemma_with_subscription_status(s, id, email, name, now, token);
    lemma_with_confirmed_status(s1, id);
}

/// Law: a malformed email or an out-of-policy name rejects the request
/// before any storage write — the store is unchanged whatever the
/// collaborators would have done — and the rejection names the offending
/// field and rule.
pub proof fn lemma_invalid_input_writes_nothing(
    s: StoreModel,
    email: Seq<char>,
    name: Seq<char>,
    id: u128,
    token: Seq<char>,
    now: i64,
    faults: StorageFaults,
    dispatch_ok: bool,
)
    requires
        !(email_ok(email) && name_ok(name)),
    ensures
        subscribe_transition(s, email, name, id, token, now, faults, dispatch_ok).0 == s,
        subscribe_transition(s, email, name, id, token, now, faults, dispatch_ok).1
            == SubscribeOutcome::InvalidInput(
            if !email_ok(email) {
                ValidationError::InvalidEmail
            } else {
                name_error(name)
            },
        ),
{
}

/// Law: atomicity — when token-attachment or the commit fails after
/// subscriber-insertion succeeded (or the insertion itself fails), the unit
/// of work rolls back: no subscriber row or token row is observable
/// afterward.
pub proof fn lemma_storage_fault_rolls_back(
    s: StoreModel,
    email: Seq<char>,
    name: Seq<char>,
    id: u128,
    token: Seq<char>,
    now: i64,
    faults: StorageFaults,
    dispatch_ok: bool,
)
    requires
        faults.insert || faults.attach || faults.commit,
    ensures
        subscribe_transition(s, email, name, id, token, now, faults, dispatch_ok).0 == s,
        email_ok(email) && name_ok(name) ==> subscribe_transition(
            s,
            email,
            name,
            id,
            token,
            now,
            faults,
            dispatch_ok,
        ).1 == SubscribeOutcome::StorageFailed,
{
}

/// Law: an unknown token always yields the unauthorized outcome and changes
/// nothing, regardless of how many subscribers exist.
pub proof fn lemma_unknown_token_unauthorized(s: StoreModel, token: Seq<char>)
    requires
        s.lookup_token(token) is None,
    ensures
        confirm_transition(s, Some(token), false, false).0 == s,
        confirm_transition(s, Some(token), false, false).1 == ConfirmOutcome::Unauthorized,
{
}

/// Law: a missing token parameter always yields the missing-parameter
/// outcome — never the unauthorized one — and changes nothing.
pub proof fn lemma_missing_token_never_unauthorized(
    s: StoreModel,
    lookup_fault: bool,
    update_fault: bool,
)
    ensures
        confirm_transition(s, None, lookup_fault, update_fault).0 == s,
        confirm_transition(s, None, lookup_fault, update_fault).1 == ConfirmOutcome::MissingToken,
        confirm_transition(s, None, lookup_fault, update_fault).1 != ConfirmOutcome::Unauthorized,
{
}

/// Law: Confirm is idempotent — two Confirms with the same known token both
/// succeed, and the subscriber's status is `Confirmed` after each.
pub proof fn lemma_confirm_idempotent(s: StoreModel, token: Seq<char>)
    requires
        s.well_formed(),
        s.lookup_token(token) is Some,
    ensures
        ({
            let id = s.lookup_token(token)->0;
            let step1 = confirm_transition(s, Some(token), false, false);
            let step2 = confirm_transition(step1.0, Some(token), false, false);
            &&& step1.1 == ConfirmOutcome::Confirmed
            &&& step2.1 == ConfirmOutcome::Confirmed
            &&& step1.0.status_of(id) == SubscriberStatus::Confirmed
            &&& step2.0.status_of(id) == SubscriberStatus::Confirmed
        }),
{
    let id = s.lookup_token(token)->0;
    lemma_first_match_row(s.tokens, token);
    let i = choose|i: int|
        0 <= i < s.tokens.len() && (#[trigger] s.tokens[i]).token == token
            && s.tokens[i].subscriber_id == first_token_match(s.tokens, token)->0;
    assert(s.has_subscriber(s.tokens[i].subscriber_id));
    lemma_with_confirmed_status(s, id);
    let s1 = s.with_confirmed(id);
    assert(s1.lookup_token(token) == s.lookup_token(token));
    lemma_with_confirmed_status(s1, id);
}

/// Maps a Subscribe outcome to its HTTP status: success 200, field-level
/// rejection 422, storage or dispatch failure 500.
pub open spec fn subscribe_status(o: SubscribeOutcome) -> u16 {
    match o {
        SubscribeOutcome::Completed => 200,
        SubscribeOutcome::InvalidInput(_) => 422,
        SubscribeOutcome::StorageFailed => 500,
        SubscribeOutcome::DispatchFailed => 500,
    }
}

/// Maps a Confirm outcome to its HTTP status: success 200, missing
/// parameter 400, unknown token 401, storage failure 500.
pub open spec fn confirm_status(o: ConfirmOutcome) -> u16 {
    match o {
        ConfirmOutcome::Confirmed => 200,
        ConfirmOutcome::MissingToken => 400,
        ConfirmOutcome::Unauthorized => 401,
        ConfirmOutcome::StorageFailed => 500,
    }
}

impl SubscribeOutcome {
    pub fn status_code(&self) -> (c: u16)
        ensures
            c == subscribe_status(*self),
    {
        match self {
            SubscribeOutcome::Completed => 200,
            SubscribeOutcome::InvalidInput(_) => 422,
            SubscribeOutcome::StorageFailed => 500,
            SubscribeOutcome::DispatchFailed => 500,
        }
    }
}

impl ConfirmOutcome {
    pub fn status_code(&self) -> (c: u16)
        ensures
            c == confirm_status(*self),
    {
        match self {
            ConfirmOutcome::Confirmed => 200,
            ConfirmOutcome::MissingToken => 400,
            ConfirmOutcome::Unauthorized => 401,
            ConfirmOutcome::StorageFailed => 500,
        }
    }
}

} // verus!
