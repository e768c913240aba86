use std::time::Instant;

use zero2prod::auth::AuthError;
use zero2prod::auth::Credentials;
use zero2prod::auth::UserId;
use zero2prod::auth::validate_credentials;
use zero2prod::hashing::HashCheck;
use zero2prod::hashing::compute_password_hash;
use zero2prod::hashing::verify_password_hash;
use zero2prod::login::FormData;
use zero2prod::login::login;
use zero2prod::secret::SecretString;
use zero2prod::session::Session;
use zero2prod::session::logout;
use zero2prod::session::reject_anonymous_users;
use zero2prod::store::Store;

fn secret(s: &str) -> SecretString {
    SecretString::new(String::from(s))
}

fn store_with_user(user_id: u128, username: &str, password: &str) -> Store {
    let mut store = Store::new();
    let hash = compute_password_hash(&secret(password)).expect("hashing failed");
    store
        .add_user(user_id, String::from(username), hash)
        .expect("seeding the user failed");
    store
}

fn credentials(username: &str, password: &str) -> Credentials {
    Credentials { username: String::from(username), password: secret(password) }
}

#[test]
fn valid_credentials_return_the_matching_user_id() {
    let store = store_with_user(42, "benjamin", "everythinghastostartsomewhere");
    let r = validate_credentials(credentials("benjamin", "everythinghastostartsomewhere"), &store);
    assert_eq!(r.unwrap(), UserId(42));
}

#[test]
fn a_wrong_password_is_an_invalid_credential() {
    let store = store_with_user(42, "benjamin", "everythinghastostartsomewhere");
    let r = validate_credentials(credentials("benjamin", "not-the-password"), &store);
    assert!(matches!(r, Err(AuthError::InvalidCredentials)));
}

#[test]
fn an_unknown_username_is_an_invalid_credential() {
    let store = store_with_user(42, "benjamin", "everythinghastostartsomewhere");
    let r = validate_credentials(credentials("nobody", "everythinghastostartsomewhere"), &store);
    assert!(matches!(r, Err(AuthError::InvalidCredentials)));
}

#[test]
fn a_malformed_stored_hash_is_a_server_fault_not_a_wrong_password() {
    let mut store = Store::new();
    store
        .add_user(7, String::from("broken"), String::from("not-a-phc-string"))
        .unwrap();
    let r = validate_credentials(credentials("broken", "whatever-password"), &store);
    assert!(matches!(r, Err(AuthError::UnexpectedError)));
}

#[test]
fn unknown_user_and_wrong_password_take_comparable_time() {
    // Both failure paths perform exactly one hash verification; their mean
    // latencies must stay within an order of magnitude of each other.
    let store = store_with_user(42, "benjamin", "everythinghastostartsomewhere");
    let trials = 5;
    let wrong_password = {
        let start = Instant::now();
        for _ in 0..trials {
            let r = validate_credentials(credentials("benjamin", "not-the-password"), &store);
            assert!(r.is_err());
        }
        start.elapsed()
    };
    let unknown_user = {
        let start = Instant::now();
        for _ in 0..trials {
            let r = validate_credentials(credentials("nobody", "not-the-password"), &store);
            assert!(r.is_err());
        }
        start.elapsed()
    };
    let slow = wrong_password.max(unknown_user).as_secs_f64();
    let fast = wrong_password.min(unknown_user).as_secs_f64().max(1e-9);
    assert!(
        slow / fast < 10.0,
        "latency gap between the failure paths: {:?} vs {:?}",
        wrong_password,
        unknown_user
    );
}

#[test]
fn a_fresh_hash_verifies_and_a_wrong_password_does_not() {
    let hash = compute_password_hash(&secret("everythinghastostartsomewhere")).unwrap();
    assert!(hash.starts_with("$argon2id$"));
    assert!(matches!(
        verify_password_hash(&hash, &secret("everythinghastostartsomewhere")),
        HashCheck::PasswordMatch
    ));
    assert!(matches!(
        verify_password_hash(&hash, &secret("something-else-entirely")),
        HashCheck::PasswordMismatch
    ));
    assert!(matches!(
        verify_password_hash(&String::from("garbage"), &secret("x")),
        HashCheck::MalformedHash
    ));
}

#[test]
fn two_hashes_of_the_same_password_differ_by_salt() {
    let a = compute_password_hash(&secret("everythinghastostartsomewhere")).unwrap();
    let b = compute_password_hash(&secret("everythinghastostartsomewhere")).unwrap();
    assert_ne!(a, b);
}

#[test]
fn login_binds_the_session_to_the_user() {
    let store = store_with_user(42, "benjamin", "everythinghastostartsomewhere");
    let mut session = Session::new();
    let form = FormData {
        username: String::from("benjamin"),
        password: secret("everythinghastostartsomewhere"),
    };
    let r = login(form, &store, &mut session);
    assert_eq!(r.unwrap(), UserId(42));
    assert_eq!(reject_anonymous_users(&session).unwrap(), UserId(42));
}

#[test]
fn a_failed_login_leaves_the_session_anonymous() {
    let store = store_with_user(42, "benjamin", "everythinghastostartsomewhere");
    let mut session = Session::new();
    let form = FormData {
        username: String::from("benjamin"),
        password: secret("not-the-password"),
    };
    let r = login(form, &store, &mut session);
    assert!(matches!(r, Err(AuthError::InvalidCredentials)));
    assert!(matches!(
        reject_anonymous_users(&session),
        Err(AuthError::NotAuthenticated)
    ));
}

#[test]
fn logout_clears_session_state() {
    let store = store_with_user(42, "benjamin", "everythinghastostartsomewhere");
    let mut session = Session::new();
    let form = FormData {
        username: String::from("benjamin"),
        password: secret("everythinghastostartsomewhere"),
    };
    login(form, &store, &mut session).unwrap();
    assert!(logout(&mut session));
    assert!(matches!(
        reject_anonymous_users(&session),
        Err(AuthError::NotAuthenticated)
    ));
    assert!(!logout(&mut session));
}
