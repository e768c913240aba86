use zero2prod::errors::ConfirmError;
use zero2prod::errors::PublishError;
use zero2prod::errors::SendEmailError;
use zero2prod::errors::StoreTokenError;
use zero2prod::errors::SubscriberError;
use zero2prod::errors::error_chain_fmt;
use zero2prod::store::StoreError;

#[test]
fn validation_errors_are_the_callers_fault() {
    let e = SubscriberError::ValidationError(String::from("nope"));
    assert_eq!(e.status_code(), 400);
    assert_eq!(e.message(), "nope");
}

#[test]
fn infrastructure_errors_are_server_failures() {
    let cases = vec![
        SubscriberError::StoreTokenError(StoreTokenError {}),
        SubscriberError::SendEmailError(SendEmailError {}),
        SubscriberError::PoolError(StoreError::NotFound),
        SubscriberError::InsertSubscriberError(StoreError::ConstraintViolation),
        SubscriberError::TransactionCommitError(StoreError::ConstraintViolation),
    ];
    for e in cases {
        assert_eq!(e.status_code(), 500, "not a 500: {:?}", e);
    }
}

#[test]
fn subscriber_error_messages_name_the_failed_step() {
    assert_eq!(
        SubscriberError::StoreTokenError(StoreTokenError {}).message(),
        "Failed to store the confirmation token for a new subscriber."
    );
    assert_eq!(
        SubscriberError::SendEmailError(SendEmailError {}).message(),
        "Failed to send a confirmation email."
    );
}

#[test]
fn an_unknown_token_is_a_bad_request_with_uniform_wording() {
    let e = ConfirmError::UnknownToken;
    assert_eq!(e.status_code(), 400);
    assert_eq!(e.message(), "There is no subscriber associated with the provided token.");
}

#[test]
fn publish_auth_failures_carry_the_challenge_header() {
    let e = PublishError::AuthError(String::from("credentials rejected"));
    assert_eq!(e.status_code(), 401);
    assert_eq!(e.www_authenticate().unwrap(), "Basic realm=\"publish\"");
    assert_eq!(e.message(), "Authentication failed.");
}

#[test]
fn publish_unexpected_failures_are_plain_500s() {
    let e = PublishError::UnexpectedError(String::from("store went away"));
    assert_eq!(e.status_code(), 500);
    assert!(e.www_authenticate().is_none());
    assert_eq!(e.message(), "store went away");
}

#[test]
fn error_chains_render_outermost_first() {
    let causes = vec![
        String::from("connection refused"),
        String::from("socket closed"),
    ];
    let rendered = error_chain_fmt("Failed to store the confirmation token for a new subscriber.", &causes);
    assert_eq!(
        rendered,
        "Failed to store the confirmation token for a new subscriber.\n\n\
         Caused by:\n\tconnection refused\n\
         Caused by:\n\tsocket closed\n"
    );
}

#[test]
fn an_error_without_causes_renders_its_message_alone() {
    let rendered = error_chain_fmt("Authentication failed.", &Vec::new());
    assert_eq!(rendered, "Authentication failed.\n\n");
}
