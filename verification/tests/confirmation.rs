//! Tests for the confirmation workflow.

use blog_backend::application_state::ApplicationBaseUrl;
use blog_backend::store::{Store, SubscriberStatus};
use blog_backend::subscriptions::{subscribe, FormData, SubscribeFaults, SubscribeOutcome};
use blog_backend::subscriptions_confirm::{confirm, ConfirmFaults, ConfirmationError, Parameters};

fn store_with_pending_subscriber() -> (Store, String) {
    let mut store = Store::new();
    let form = FormData {
        email: String::from("ursula@domain.com"),
        name: String::from("le guin"),
    };
    let base_url = ApplicationBaseUrl(String::from("https://example.com"));
    let outcome = subscribe(&mut store, &base_url, form, &SubscribeFaults::none());
    assert!(matches!(outcome, SubscribeOutcome::Accepted(_)));
    let token = store.tokens[0].token.clone();
    (store, token)
}

#[test]
fn confirming_an_issued_token_flips_the_status() {
    let (mut store, token) = store_with_pending_subscriber();
    let parameters = Parameters { subscription_token: token };
    let result = confirm(&mut store, &parameters, &ConfirmFaults::none());
    assert!(result.is_ok());
    assert_eq!(store.subscribers[0].status, SubscriberStatus::Confirmed);
}

#[test]
fn confirming_an_unissued_token_fails_and_mutates_nothing() {
    let (mut store, _token) = store_with_pending_subscriber();
    let parameters = Parameters {
        subscription_token: String::from("aaaaaaaaaaaaaaaaaaaaaaaaa"),
    };
    let result = confirm(&mut store, &parameters, &ConfirmFaults::none());
    assert_eq!(result, Err(ConfirmationError::UnknownToken));
    assert_eq!(store.subscribers[0].status, SubscriberStatus::PendingConfirmation);
    assert_eq!(store.subscribers.len(), 1);
    assert_eq!(store.tokens.len(), 1);
}

#[test]
fn confirming_twice_is_idempotent() {
    let (mut store, token) = store_with_pending_subscriber();
    let parameters = Parameters { subscription_token: token };
    assert!(confirm(&mut store, &parameters, &ConfirmFaults::none()).is_ok());
    assert_eq!(store.subscribers[0].status, SubscriberStatus::Confirmed);
    assert!(confirm(&mut store, &parameters, &ConfirmFaults::none()).is_ok());
    assert_eq!(store.subscribers[0].status, SubscriberStatus::Confirmed);
    assert_eq!(store.subscribers.len(), 1);
}

#[test]
fn lookup_fault_is_an_unexpected_error() {
    let (mut store, token) = store_with_pending_subscriber();
    let parameters = Parameters { subscription_token: token };
    let faults = ConfirmFaults { lookup: true, update: false };
    let result = confirm(&mut store, &parameters, &faults);
    assert_eq!(result, Err(ConfirmationError::UnexpectedError));
    assert_eq!(store.subscribers[0].status, SubscriberStatus::PendingConfirmation);
}

#[test]
fn update_fault_is_an_unexpected_error_and_mutates_nothing() {
    let (mut store, token) = store_with_pending_subscriber();
    let parameters = Parameters { subscription_token: token };
    let faults = ConfirmFaults { lookup: false, update: true };
    let result = confirm(&mut store, &parameters, &faults);
    assert_eq!(result, Err(ConfirmationError::UnexpectedError));
    assert_eq!(store.subscribers[0].status, SubscriberStatus::PendingConfirmation);
}

#[test]
fn confirmation_error_status_codes() {
    assert_eq!(ConfirmationError::UnknownToken.status_code(), 401);
    assert_eq!(ConfirmationError::UnexpectedError.status_code(), 500);
}
