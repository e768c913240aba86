use zero2prod::email::ApplicationBaseUrl;
use zero2prod::email::Outbox;
use zero2prod::errors::ConfirmError;
use zero2prod::errors::SubscriberError;
use zero2prod::store::Store;
use zero2prod::store::SubscriptionStatus;
use zero2prod::subscriptions::FormData;
use zero2prod::subscriptions::confirm;
use zero2prod::subscriptions::subscribe;

fn base_url() -> ApplicationBaseUrl {
    ApplicationBaseUrl(String::from("https://newsletter.example.com"))
}

fn form(name: &str, email: &str) -> FormData {
    FormData { email: String::from(email), name: String::from(name) }
}

/// Pulls the subscription token out of the confirmation link in a body.
fn extract_token(body: &str) -> String {
    let marker = "subscription_token=";
    let start = body.find(marker).expect("no confirmation link in the email") + marker.len();
    let rest = &body[start..];
    let end = rest.find('"').unwrap_or(rest.len());
    String::from(&rest[..end])
}

#[test]
fn subscribe_persists_one_pending_subscriber_with_one_token() {
    let mut store = Store::new();
    let mut outbox = Outbox::new();
    let r = subscribe(form("benjamin", "benjamin@gmail.com"), &mut store, &mut outbox, &base_url());
    assert!(r.is_ok());
    assert_eq!(store.subscriber_count(), 1);
    assert_eq!(store.token_count(), 1);
    assert_eq!(outbox.sent_count(), 1);
    let message = outbox.get_sent(0);
    assert_eq!(message.to, "benjamin@gmail.com");
    assert_eq!(message.subject, "Welcome!");
    let token = extract_token(&message.html_body);
    let id = store
        .get_subscriber_by_token(&token)
        .expect("the token from the email is not bound in the store");
    let row = store.get_subscriber(id).unwrap();
    assert_eq!(row.email, "benjamin@gmail.com");
    assert_eq!(row.name, "benjamin");
    assert!(matches!(row.status, SubscriptionStatus::PendingConfirmation));
}

#[test]
fn subscribe_rejects_malformed_emails_and_gains_no_row() {
    let cases = vec![
        ("benjamin", "", "empty email"),
        ("benjamin", "definitely-not-an-email", "missing the at sign"),
        ("benjamin", "@gmail.com", "at sign first"),
        ("benjamin", "benjamin@", "at sign last"),
        ("benjamin", "ben jamin@gmail.com", "whitespace inside"),
        ("benjamin", "ben@jamin@gmail.com", "two at signs"),
    ];
    for (name, email, reason) in cases {
        let mut store = Store::new();
        let mut outbox = Outbox::new();
        let r = subscribe(form(name, email), &mut store, &mut outbox, &base_url());
        assert!(
            matches!(r, Err(SubscriberError::ValidationError(_))),
            "not rejected: {}",
            reason
        );
        assert_eq!(store.subscriber_count(), 0, "a row appeared for: {}", reason);
        assert_eq!(store.token_count(), 0, "a token appeared for: {}", reason);
        assert_eq!(outbox.sent_count(), 0, "an email left for: {}", reason);
    }
}

#[test]
fn subscribe_rejects_invalid_names() {
    let cases = vec![
        ("", "empty name"),
        ("   ", "whitespace-only name"),
        ("ben/jamin", "name with a slash"),
        ("<benjamin>", "name with angle brackets"),
    ];
    for (name, reason) in cases {
        let mut store = Store::new();
        let mut outbox = Outbox::new();
        let r = subscribe(form(name, "benjamin@gmail.com"), &mut store, &mut outbox, &base_url());
        assert!(
            matches!(r, Err(SubscriberError::ValidationError(_))),
            "not rejected: {}",
            reason
        );
        assert_eq!(store.subscriber_count(), 0);
    }
}

#[test]
fn subscribe_validation_error_reports_the_offending_field() {
    let mut store = Store::new();
    let mut outbox = Outbox::new();
    let r = subscribe(form("", "benjamin@gmail.com"), &mut store, &mut outbox, &base_url());
    match r {
        Err(SubscriberError::ValidationError(m)) => {
            assert_eq!(m, " is not a valid subscriber name.");
        }
        other => panic!("expected a validation error, got {:?}", other),
    }
    let r = subscribe(form("benjamin", "nope"), &mut store, &mut outbox, &base_url());
    match r {
        Err(SubscriberError::ValidationError(m)) => {
            assert_eq!(m, "nope is not a valid subscriber email.");
        }
        other => panic!("expected a validation error, got {:?}", other),
    }
}

#[test]
fn subscribe_rolls_back_when_the_email_is_refused() {
    let mut store = Store::new();
    let mut outbox = Outbox::new();
    outbox.set_accepting(false);
    let r = subscribe(form("benjamin", "benjamin@gmail.com"), &mut store, &mut outbox, &base_url());
    assert!(matches!(r, Err(SubscriberError::SendEmailError(_))));
    assert_eq!(store.subscriber_count(), 0);
    assert_eq!(store.token_count(), 0);
    assert_eq!(outbox.sent_count(), 0);
}

#[test]
fn clicking_on_the_confirmation_link_confirms_a_subscriber() {
    let mut store = Store::new();
    let mut outbox = Outbox::new();
    subscribe(form("benjamin", "benjamin@gmail.com"), &mut store, &mut outbox, &base_url())
        .unwrap();
    let message = outbox.get_sent(0);
    let link_start = format!("{}/subscriptions/confirm?subscription_token=", "https://newsletter.example.com");
    assert!(message.html_body.contains(&link_start));
    assert!(message.text_body.contains(&link_start));
    let token = extract_token(&message.html_body);
    assert_eq!(token.chars().count(), 25);
    assert!(token.chars().all(|c| c.is_ascii_alphanumeric()));
    let id = store.get_subscriber_by_token(&token).unwrap();
    confirm(&mut store, &token).unwrap();
    let row = store.get_subscriber(id).unwrap();
    assert!(matches!(row.status, SubscriptionStatus::Confirmed));
    assert_eq!(row.email, "benjamin@gmail.com");
    assert_eq!(row.name, "benjamin");
}

#[test]
fn confirming_twice_is_a_harmless_no_op() {
    let mut store = Store::new();
    let mut outbox = Outbox::new();
    subscribe(form("benjamin", "benjamin@gmail.com"), &mut store, &mut outbox, &base_url())
        .unwrap();
    let token = extract_token(&outbox.get_sent(0).html_body);
    let id = store.get_subscriber_by_token(&token).unwrap();
    confirm(&mut store, &token).unwrap();
    let second = confirm(&mut store, &token);
    assert!(second.is_ok());
    assert!(matches!(
        store.get_subscriber(id).unwrap().status,
        SubscriptionStatus::Confirmed
    ));
    assert_eq!(store.subscriber_count(), 1);
    assert_eq!(store.token_count(), 1);
}

#[test]
fn confirmations_with_an_unknown_token_are_rejected() {
    let mut store = Store::new();
    let r = confirm(&mut store, &String::from("nonexistent-token"));
    assert!(matches!(r, Err(ConfirmError::UnknownToken)));
    assert_eq!(store.subscriber_count(), 0);
}

#[test]
fn two_subscriptions_with_the_same_email_make_two_pending_rows() {
    let mut store = Store::new();
    let mut outbox = Outbox::new();
    subscribe(form("benjamin", "benjamin@gmail.com"), &mut store, &mut outbox, &base_url())
        .unwrap();
    subscribe(form("benjamin", "benjamin@gmail.com"), &mut store, &mut outbox, &base_url())
        .unwrap();
    assert_eq!(store.subscriber_count(), 2);
    assert_eq!(store.token_count(), 2);
    assert_eq!(outbox.sent_count(), 2);
}
