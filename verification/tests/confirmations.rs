//! The confirmation workflow, run against the in-memory store.

use mailbolt::confirmation::{
    confirm_decision, run_confirmation, ConfirmStep, Parameters, TokenLookup,
};
use mailbolt::http::HttpStatus;
use mailbolt::registration::{register, FormData};
use mailbolt::store::{SubscriberStatus, SubscriptionStore};

const BASE_URL: &str = "https://mailbolt.example";

fn registered_store() -> (SubscriptionStore, String) {
    let mut store = SubscriptionStore::new();
    let form =
        FormData { name: "james bond".to_string(), email: "james@bond.com".to_string() };
    let (status, message) = register(&mut store, form, BASE_URL, true);
    assert_eq!(status.code(), 200);

    // Extract the token from the confirmation URL of the dispatched email,
    // as a subscriber following the link would.
    let html = message.expect("a confirmation email should have been dispatched").html_body;
    let marker = "subscription_token=";
    let start = html.find(marker).expect("the HTML body should embed the confirmation URL")
        + marker.len();
    let token: String =
        html[start..].chars().take_while(|c| c.is_ascii_alphanumeric()).collect();
    (store, token)
}

#[test]
fn confirmations_with_an_unknown_token_return_401_and_mutate_nothing() {
    let (mut store, _token) = registered_store();
    let status = run_confirmation(&mut store, Some("mysteriousunknowntoken123"), false, false);

    assert_eq!(status.code(), 401);
    assert_eq!(store.subscribers().len(), 1);
    assert_eq!(store.subscribers()[0].status, SubscriberStatus::PendingConfirmation);
    assert_eq!(store.tokens().len(), 1);
}

#[test]
fn confirmations_without_a_token_parameter_return_400() {
    let mut store = SubscriptionStore::new();
    let status = run_confirmation(&mut store, None, false, false);
    assert_eq!(status.code(), 400);
    assert_eq!(store.subscribers().len(), 0);
}

#[test]
fn the_link_sent_by_registration_confirms_the_subscription() {
    let (mut store, token) = registered_store();
    let status = run_confirmation(&mut store, Some(&token), false, false);

    assert_eq!(status.code(), 200);
    let rows = store.subscribers();
    assert_eq!(rows.len(), 1);
    assert_eq!(rows[0].email, "james@bond.com");
    assert_eq!(rows[0].name, "james bond");
    assert_eq!(rows[0].status, SubscriberStatus::Confirmed);
}

#[test]
fn repeating_a_confirmation_answers_200_again_and_changes_nothing() {
    let (mut store, token) = registered_store();

    let first = run_confirmation(&mut store, Some(&token), false, false);
    assert_eq!(first.code(), 200);
    assert_eq!(store.subscribers()[0].status, SubscriberStatus::Confirmed);

    let second = run_confirmation(&mut store, Some(&token), false, false);
    assert_eq!(second.code(), first.code());
    assert_eq!(store.subscribers().len(), 1);
    assert_eq!(store.subscribers()[0].status, SubscriberStatus::Confirmed);
    assert_eq!(store.tokens().len(), 1);
}

#[test]
fn a_failed_lookup_returns_500_and_mutates_nothing() {
    let (mut store, token) = registered_store();
    let status = run_confirmation(&mut store, Some(&token), true, false);

    assert_eq!(status.code(), 500);
    assert_eq!(store.subscribers()[0].status, SubscriberStatus::PendingConfirmation);
}

#[test]
fn a_failed_status_write_returns_500_and_mutates_nothing() {
    let (mut store, token) = registered_store();
    let status = run_confirmation(&mut store, Some(&token), false, true);

    assert_eq!(status.code(), 500);
    assert_eq!(store.subscribers()[0].status, SubscriberStatus::PendingConfirmation);
}

#[test]
fn the_lookup_decision_maps_each_outcome_to_its_response() {
    assert_eq!(
        confirm_decision(TokenLookup::Found(42)),
        ConfirmStep::MarkConfirmed(42)
    );
    assert_eq!(
        confirm_decision(TokenLookup::Unknown),
        ConfirmStep::Respond(HttpStatus::Unauthorized)
    );
    assert_eq!(
        confirm_decision(TokenLookup::LookupFailed),
        ConfirmStep::Respond(HttpStatus::ServerError)
    );
}

#[test]
fn parameters_hand_back_the_token_they_were_built_with() {
    let parameters = Parameters::new("sometoken123".to_string());
    assert_eq!(parameters.subscription_token(), "sometoken123");
}
