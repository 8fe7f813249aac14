//! The registration workflow, run against the in-memory store.

use mailbolt::email::confirmation_link;
use mailbolt::http::HttpStatus;
use mailbolt::registration::{
    register, run_registration, FormData, RegistrationAction, RegistrationEvent,
    RegistrationState, StorageFaults,
};
use mailbolt::store::{SubscriberStatus, SubscriptionStore};
use mailbolt::token::generate_subscription_token;

const BASE_URL: &str = "https://mailbolt.example";

fn no_faults() -> StorageFaults {
    StorageFaults { begin: false, insert_subscriber: false, store_token: false, commit: false }
}

fn valid_form() -> FormData {
    FormData { name: "le guin".to_string(), email: "ursula_le_guin@gmail.com".to_string() }
}

#[test]
fn registration_returns_200_and_persists_a_pending_subscriber() {
    let mut store = SubscriptionStore::new();
    let (status, message) = register(&mut store, valid_form(), BASE_URL, true);

    assert_eq!(status.code(), 200);
    let rows = store.subscribers();
    assert_eq!(rows.len(), 1);
    assert_eq!(rows[0].email, "ursula_le_guin@gmail.com");
    assert_eq!(rows[0].name, "le guin");
    assert_eq!(rows[0].status, SubscriberStatus::PendingConfirmation);
    let tokens = store.tokens();
    assert_eq!(tokens.len(), 1);
    assert_eq!(tokens[0].subscriber_id, rows[0].id);
    assert!(message.is_some());
}

#[test]
fn registration_dispatches_one_email_with_the_same_link_in_both_bodies() {
    let mut store = SubscriptionStore::new();
    let (status, message) = register(&mut store, valid_form(), BASE_URL, true);

    assert_eq!(status.code(), 200);
    let message = message.expect("a confirmation email should have been dispatched");
    assert_eq!(message.to, "ursula_le_guin@gmail.com");
    assert_eq!(message.subject, "Welcome!");

    let token = store.tokens()[0].subscription_token.clone();
    let link = confirmation_link(BASE_URL, &token);
    assert_eq!(
        link,
        format!("{}/subscriptions/confirm?subscription_token={}", BASE_URL, token)
    );
    assert!(message.html_body.contains(&link));
    assert!(message.text_body.contains(&link));
}

#[test]
fn registration_with_empty_email_returns_400_and_creates_no_row() {
    let mut store = SubscriptionStore::new();
    let form = FormData { name: "le guin".to_string(), email: "".to_string() };
    let (status, message) = register(&mut store, form, BASE_URL, true);

    assert_eq!(status.code(), 400);
    assert!(message.is_none());
    assert_eq!(store.subscribers().len(), 0);
    assert_eq!(store.tokens().len(), 0);
}

#[test]
fn registration_with_empty_name_returns_400_and_creates_no_row() {
    let mut store = SubscriptionStore::new();
    let form = FormData { name: "".to_string(), email: "james@email.com".to_string() };
    let (status, _) = register(&mut store, form, BASE_URL, true);

    assert_eq!(status.code(), 400);
    assert_eq!(store.subscribers().len(), 0);
}

#[test]
fn registration_with_invalid_email_returns_400_and_creates_no_row() {
    let mut store = SubscriptionStore::new();
    let form = FormData { name: "James".to_string(), email: "not-a-valid-email".to_string() };
    let (status, _) = register(&mut store, form, BASE_URL, true);

    assert_eq!(status.code(), 400);
    assert_eq!(store.subscribers().len(), 0);
}

#[test]
fn a_failure_between_the_two_inserts_leaves_no_subscriber_row() {
    let mut store = SubscriptionStore::new();
    let faults =
        StorageFaults { begin: false, insert_subscriber: false, store_token: true, commit: false };
    let token = generate_subscription_token();
    let (status, message) =
        run_registration(&mut store, valid_form(), 7, &token, 1_690_000_000, BASE_URL, faults, true);

    assert_eq!(status.code(), 500);
    assert!(message.is_none());
    assert_eq!(store.subscribers().len(), 0);
    assert_eq!(store.tokens().len(), 0);
}

#[test]
fn a_commit_failure_leaves_no_row_at_all() {
    let mut store = SubscriptionStore::new();
    let faults =
        StorageFaults { begin: false, insert_subscriber: false, store_token: false, commit: true };
    let token = generate_subscription_token();
    let (status, _) =
        run_registration(&mut store, valid_form(), 7, &token, 1_690_000_000, BASE_URL, faults, true);

    assert_eq!(status.code(), 500);
    assert_eq!(store.subscribers().len(), 0);
    assert_eq!(store.tokens().len(), 0);
}

#[test]
fn an_email_failure_after_commit_returns_500_with_the_rows_persisted() {
    let mut store = SubscriptionStore::new();
    let token = generate_subscription_token();
    let (status, message) = run_registration(
        &mut store,
        valid_form(),
        7,
        &token,
        1_690_000_000,
        BASE_URL,
        no_faults(),
        false,
    );

    assert_eq!(status.code(), 500);
    assert!(message.is_some());
    assert_eq!(store.subscribers().len(), 1);
    assert_eq!(store.subscribers()[0].status, SubscriberStatus::PendingConfirmation);
    assert_eq!(store.tokens().len(), 1);
}

#[test]
fn a_taken_subscriber_id_is_a_conflict_and_mutates_nothing() {
    let mut store = SubscriptionStore::new();
    let token = generate_subscription_token();
    let (status, _) =
        run_registration(&mut store, valid_form(), 7, &token, 1_690_000_000, BASE_URL, no_faults(), true);
    assert_eq!(status.code(), 200);

    let second = FormData { name: "james bond".to_string(), email: "james@bond.com".to_string() };
    let other_token = generate_subscription_token();
    let (status, message) =
        run_registration(&mut store, second, 7, &other_token, 1_690_000_001, BASE_URL, no_faults(), true);

    assert_eq!(status.code(), 500);
    assert!(message.is_none());
    assert_eq!(store.subscribers().len(), 1);
    assert_eq!(store.tokens().len(), 1);
}

#[test]
fn a_subscription_token_has_25_alphanumeric_characters() {
    let token = generate_subscription_token();
    assert_eq!(token.len(), 25);
    assert!(token.chars().all(|c| c.is_ascii_alphanumeric()));
}

#[test]
fn the_orchestrator_walks_the_expected_ladder_on_success() {
    let (state, action) =
        mailbolt::registration::registration_step(RegistrationState::Received, RegistrationEvent::FormValid);
    assert_eq!(state, RegistrationState::Validated);
    assert_eq!(action, RegistrationAction::BeginTransaction);

    let (state, action) =
        mailbolt::registration::registration_step(state, RegistrationEvent::TransactionBegun);
    assert_eq!(state, RegistrationState::TransactionOpen);
    assert_eq!(action, RegistrationAction::InsertSubscriber);

    let (state, action) =
        mailbolt::registration::registration_step(state, RegistrationEvent::SubscriberInserted);
    assert_eq!(state, RegistrationState::Persisted);
    assert_eq!(action, RegistrationAction::StoreToken);

    let (state, action) =
        mailbolt::registration::registration_step(state, RegistrationEvent::TokenStored);
    assert_eq!(state, RegistrationState::TokenStored);
    assert_eq!(action, RegistrationAction::CommitTransaction);

    let (state, action) =
        mailbolt::registration::registration_step(state, RegistrationEvent::CommitSucceeded);
    assert_eq!(state, RegistrationState::Committed);
    assert_eq!(action, RegistrationAction::SendConfirmationEmail);

    let (state, action) =
        mailbolt::registration::registration_step(state, RegistrationEvent::EmailAccepted);
    assert_eq!(state, RegistrationState::EmailSent);
    assert_eq!(action, RegistrationAction::Respond(HttpStatus::Success));
}

#[test]
fn the_orchestrator_answers_500_when_the_email_fails_after_commit() {
    let (state, action) = mailbolt::registration::registration_step(
        RegistrationState::Committed,
        RegistrationEvent::EmailFailed,
    );
    assert_eq!(state, RegistrationState::Inconsistent);
    assert_eq!(action, RegistrationAction::Respond(HttpStatus::ServerError));
}

#[test]
fn the_orchestrator_rejects_an_invalid_form_with_400() {
    let (state, action) = mailbolt::registration::registration_step(
        RegistrationState::Received,
        RegistrationEvent::FormInvalid,
    );
    assert_eq!(state, RegistrationState::Aborted(HttpStatus::BadRequest));
    assert_eq!(action, RegistrationAction::Respond(HttpStatus::BadRequest));
}
