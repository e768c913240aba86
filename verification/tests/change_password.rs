use zero2prod::auth::AuthError;
use zero2prod::auth::Credentials;
use zero2prod::auth::UserId;
use zero2prod::auth::validate_credentials;
use zero2prod::hashing::compute_password_hash;
use zero2prod::password::FormData;
use zero2prod::password::PasswordChangeError;
use zero2prod::password::change_password;
use zero2prod::secret::SecretString;
use zero2prod::session::Session;
use zero2prod::store::Store;

const CURRENT: &str = "everythinghastostartsomewhere";

fn secret(s: &str) -> SecretString {
    SecretString::new(String::from(s))
}

fn store_with_user(user_id: u128) -> Store {
    let mut store = Store::new();
    let hash = compute_password_hash(&secret(CURRENT)).expect("hashing failed");
    store
        .add_user(user_id, String::from("benjamin"), hash)
        .expect("seeding the user failed");
    store
}

fn logged_in_session(user_id: u128) -> Session {
    let mut session = Session::new();
    session.insert_user_id(UserId(user_id));
    session
}

fn change_form(current: &str, new: &str, check: &str) -> FormData {
    FormData {
        current_password: secret(current),
        new_password: secret(new),
        new_password_check: secret(check),
    }
}

fn can_log_in(store: &Store, password: &str) -> bool {
    validate_credentials(
        Credentials { username: String::from("benjamin"), password: secret(password) },
        store,
    )
    .is_ok()
}

#[test]
fn new_password_must_be_valid() {
    let mut store = store_with_user(42);
    let session = logged_in_session(42);

    let eleven = "12345678901";
    let r = change_password(change_form(CURRENT, eleven, eleven), &session, &mut store);
    assert!(matches!(r, Err(PasswordChangeError::InvalidNewPassword)));

    let one_hundred_twenty_nine = "a".repeat(129);
    let r = change_password(
        change_form(CURRENT, &one_hundred_twenty_nine, &one_hundred_twenty_nine),
        &session,
        &mut store,
    );
    assert!(matches!(r, Err(PasswordChangeError::InvalidNewPassword)));

    let twelve = "123456789012";
    let r = change_password(change_form(CURRENT, twelve, twelve), &session, &mut store);
    assert!(r.is_ok());

    let one_hundred_twenty_eight = "b".repeat(128);
    let r = change_password(
        change_form(twelve, &one_hundred_twenty_eight, &one_hundred_twenty_eight),
        &session,
        &mut store,
    );
    assert!(r.is_ok());
    assert!(can_log_in(&store, &one_hundred_twenty_eight));
}

#[test]
fn new_password_fields_must_match() {
    let mut store = store_with_user(42);
    let session = logged_in_session(42);
    let r = change_password(
        change_form(CURRENT, "onenewpassword", "anothernewpassword"),
        &session,
        &mut store,
    );
    assert!(matches!(r, Err(PasswordChangeError::PasswordFieldsMismatch)));
    // the stored hash is untouched: the old password still logs in
    assert!(can_log_in(&store, CURRENT));
    assert!(!can_log_in(&store, "onenewpassword"));
}

#[test]
fn current_password_must_be_valid() {
    let mut store = store_with_user(42);
    let session = logged_in_session(42);
    let r = change_password(
        change_form("not-the-current-password", "brandnewpassword", "brandnewpassword"),
        &session,
        &mut store,
    );
    assert!(matches!(r, Err(PasswordChangeError::CurrentPasswordIncorrect)));
    assert!(can_log_in(&store, CURRENT));
    assert!(!can_log_in(&store, "brandnewpassword"));
}

#[test]
fn you_must_be_logged_in_to_change_your_password() {
    let mut store = store_with_user(42);
    let session = Session::new();
    let r = change_password(
        change_form(CURRENT, "brandnewpassword", "brandnewpassword"),
        &session,
        &mut store,
    );
    assert!(matches!(r, Err(PasswordChangeError::NotAuthenticated)));
    assert!(can_log_in(&store, CURRENT));
}

#[test]
fn changing_password_works() {
    let mut store = store_with_user(42);
    let session = logged_in_session(42);
    let r = change_password(
        change_form(CURRENT, "brandnewpassword", "brandnewpassword"),
        &session,
        &mut store,
    );
    assert!(r.is_ok());
    assert!(can_log_in(&store, "brandnewpassword"));
    assert!(!can_log_in(&store, CURRENT));
}

#[test]
fn a_session_bound_to_a_vanished_user_is_a_server_fault() {
    let mut store = store_with_user(42);
    let session = logged_in_session(977);
    let r = change_password(
        change_form(CURRENT, "brandnewpassword", "brandnewpassword"),
        &session,
        &mut store,
    );
    assert!(matches!(r, Err(PasswordChangeError::UnexpectedError)));
}

#[test]
fn password_change_error_messages_match_the_page_wording() {
    assert_eq!(
        PasswordChangeError::InvalidNewPassword.message(),
        "new passwords should be longer than 12 characters but shorter than 128 characters."
    );
    assert_eq!(
        PasswordChangeError::PasswordFieldsMismatch.message(),
        "You entered two different new passwords - the field values must match."
    );
    assert_eq!(
        PasswordChangeError::CurrentPasswordIncorrect.message(),
        "The current password is incorrect."
    );
    assert_eq!(PasswordChangeError::NotAuthenticated.message(), "The user has not logged in");
}

#[test]
fn a_wrong_current_password_and_a_wrong_login_read_the_same_kind() {
    // the wording never reveals which stored secret was wrong
    let store = store_with_user(42);
    let r = validate_credentials(
        Credentials { username: String::from("benjamin"), password: secret("wrong") },
        &store,
    );
    assert!(matches!(r, Err(AuthError::InvalidCredentials)));
}
