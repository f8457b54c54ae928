//! Tests for validation and the subscribe workflow.

use blog_backend::application_state::ApplicationBaseUrl;
use blog_backend::domain::{SubscriberEmail, SubscriberName};
use blog_backend::store::{Store, SubscriberStatus};
use blog_backend::subscriptions::{
    generate_subscription_token, subscribe, subscribe_status, FormData, SubscribeFaults,
    SubscribeOutcome,
};

fn base_url() -> ApplicationBaseUrl {
    ApplicationBaseUrl(String::from("https://newsletter.example.com"))
}

fn valid_form() -> FormData {
    FormData {
        email: String::from("ursula_le_guin@gmail.com"),
        name: String::from("le guin"),
    }
}

#[test]
fn valid_name_is_accepted() {
    let parsed = SubscriberName::parse(String::from("Ursula K. Le Guin")).unwrap();
    assert_eq!(parsed.as_str(), "Ursula K. Le Guin");
}

#[test]
fn empty_name_is_rejected() {
    assert!(SubscriberName::parse(String::new()).is_err());
}

#[test]
fn whitespace_only_name_is_rejected() {
    assert!(SubscriberName::parse(String::from("   \t ")).is_err());
}

#[test]
fn overlong_name_is_rejected() {
    assert!(SubscriberName::parse("a".repeat(256)).is_ok());
    assert!(SubscriberName::parse("a".repeat(257)).is_err());
}

#[test]
fn name_with_forbidden_character_is_rejected() {
    for c in ['/', '(', ')', '"', '<', '>', '\\', '{', '}'] {
        assert!(SubscriberName::parse(format!("name{}", c)).is_err());
    }
}

#[test]
fn valid_email_is_accepted() {
    let parsed = SubscriberEmail::parse(String::from("ursula@domain.com")).unwrap();
    assert_eq!(parsed.as_str(), "ursula@domain.com");
}

#[test]
fn email_without_at_is_rejected() {
    assert!(SubscriberEmail::parse(String::from("ursuladomain.com")).is_err());
}

#[test]
fn email_without_local_part_is_rejected() {
    assert!(SubscriberEmail::parse(String::from("@domain.com")).is_err());
}

#[test]
fn email_without_domain_is_rejected() {
    assert!(SubscriberEmail::parse(String::from("ursula@")).is_err());
}

#[test]
fn email_with_whitespace_is_rejected() {
    assert!(SubscriberEmail::parse(String::from("ursula le guin@domain.com")).is_err());
}

#[test]
fn email_with_two_ats_is_rejected() {
    assert!(SubscriberEmail::parse(String::from("ursula@le@domain.com")).is_err());
}

#[test]
fn token_is_25_alphanumeric_characters() {
    let token = generate_subscription_token();
    assert_eq!(token.chars().count(), 25);
    assert!(token.chars().all(|c| c.is_ascii_alphanumeric()));
}

#[test]
fn two_tokens_differ() {
    assert_ne!(generate_subscription_token(), generate_subscription_token());
}

#[test]
fn subscribe_persists_one_pending_subscriber_and_one_token() {
    let mut store = Store::new();
    let outcome = subscribe(&mut store, &base_url(), valid_form(), &SubscribeFaults::none());
    let message = match outcome {
        SubscribeOutcome::Accepted(message) => message,
        _ => panic!("expected an accepted subscription"),
    };
    assert_eq!(store.subscribers.len(), 1);
    assert_eq!(store.tokens.len(), 1);
    let row = &store.subscribers[0];
    assert_eq!(row.email, "ursula_le_guin@gmail.com");
    assert_eq!(row.name, "le guin");
    assert_eq!(row.status, SubscriberStatus::PendingConfirmation);
    let token_row = &store.tokens[0];
    assert_eq!(token_row.subscriber_id, row.id);
    assert_eq!(token_row.token.len(), 25);
    assert_eq!(message.recipient, "ursula_le_guin@gmail.com");
    assert_eq!(message.subject, "Welcome");
    let link = format!(
        "https://newsletter.example.com/subscriptions/confirm?subscription_token={}",
        token_row.token
    );
    assert_eq!(
        message.text_body,
        format!(
            "Welcome to our newsletter!\nVisit {} to confirm your subscription.",
            link
        )
    );
    assert_eq!(
        message.html_body,
        format!(
            "Welcome to our newsletter!<br />Click <a href=\"{}\">here</a> to confirm your subscription.",
            link
        )
    );
}

#[test]
fn subscribe_with_invalid_email_stores_nothing() {
    let mut store = Store::new();
    let form = FormData {
        email: String::from("definitely-not-an-email"),
        name: String::from("le guin"),
    };
    let outcome = subscribe(&mut store, &base_url(), form, &SubscribeFaults::none());
    assert!(matches!(outcome, SubscribeOutcome::BadRequest));
    assert!(store.subscribers.is_empty());
    assert!(store.tokens.is_empty());
}

#[test]
fn subscribe_with_invalid_name_stores_nothing() {
    let mut store = Store::new();
    let form = FormData {
        email: String::from("ursula@domain.com"),
        name: String::from("le {guin}"),
    };
    let outcome = subscribe(&mut store, &base_url(), form, &SubscribeFaults::none());
    assert!(matches!(outcome, SubscribeOutcome::BadRequest));
    assert!(store.subscribers.is_empty());
}

#[test]
fn token_insert_fault_rolls_back_the_subscriber() {
    let mut store = Store::new();
    let faults = SubscribeFaults {
        begin: false,
        insert_subscriber: false,
        store_token: true,
        commit: false,
    };
    let outcome = subscribe(&mut store, &base_url(), valid_form(), &faults);
    assert!(matches!(outcome, SubscribeOutcome::ServerError));
    assert!(store.subscribers.is_empty());
    assert!(store.tokens.is_empty());
}

#[test]
fn commit_fault_rolls_back_everything() {
    let mut store = Store::new();
    let faults = SubscribeFaults {
        begin: false,
        insert_subscriber: false,
        store_token: false,
        commit: true,
    };
    let outcome = subscribe(&mut store, &base_url(), valid_form(), &faults);
    assert!(matches!(outcome, SubscribeOutcome::ServerError));
    assert!(store.subscribers.is_empty());
    assert!(store.tokens.is_empty());
}

#[test]
fn subscribe_statuses_match_the_boundary_mapping() {
    let mut store = Store::new();
    let accepted = subscribe(&mut store, &base_url(), valid_form(), &SubscribeFaults::none());
    assert_eq!(subscribe_status(&accepted, true), 200);
    assert_eq!(subscribe_status(&accepted, false), 500);
    assert_eq!(subscribe_status(&SubscribeOutcome::BadRequest, true), 400);
    assert_eq!(subscribe_status(&SubscribeOutcome::ServerError, true), 500);
}

#[test]
fn duplicate_subscriptions_both_persist() {
    let mut store = Store::new();
    let first = subscribe(&mut store, &base_url(), valid_form(), &SubscribeFaults::none());
    let second = subscribe(&mut store, &base_url(), valid_form(), &SubscribeFaults::none());
    assert!(matches!(first, SubscribeOutcome::Accepted(_)));
    assert!(matches!(second, SubscribeOutcome::Accepted(_)));
    assert_eq!(store.subscribers.len(), 2);
    assert_eq!(store.tokens.len(), 2);
}
