//! The credential authentication core: lookup, hash verification and the
//! timing-uniformity defense.

use vstd::prelude::*;
use vstd::string::StringExecFns;

use crate::hashing::HashCheck;
use crate::hashing::phc_matches;
use crate::hashing::phc_parses;
use crate::hashing::verify_password_hash;
use crate::secret::SecretString;
use crate::store::Store;
use crate::store::lookup_user;

verus! {

/// An authenticated user's identity.
#[derive(Clone, Copy, PartialEq, Eq, Structural, Debug)]
pub struct UserId(pub u128);

/// Authentication failures. A wrong password and an unknown username both
/// surface as `InvalidCredentials`, with nothing to tell them apart.
#[derive(Debug)]
pub enum AuthError {
    InvalidCredentials,
    NotAuthenticated,
    UnexpectedError,
}

/// A transient username/password pair; never persisted as-is.
pub struct Credentials {
    pub username: String,
    pub password: SecretString,
}

/// The fixed, non-secret fallback hash verified against when the username is
/// unknown, so that an unknown user and a wrong password take the same time.
fn fallback_password_hash() -> (r: String)
    ensures
        r@
            == "$argon2id$v=19$m=15000,t=2,p=1$gZiV/M1gPc22ElAH/Jh1Hw$CWOrkoo7oJBQ/iyh7uJ0LO2aLEfrHwTWllSAxT0zRno"@,
{
    String::from_str(
        "$argon2id$v=19$m=15000,t=2,p=1$gZiV/M1gPc22ElAH/Jh1Hw$CWOrkoo7oJBQ/iyh7uJ0LO2aLEfrHwTWllSAxT0zRno",
    )
}

/// Validates a username/password pair against the store.
///
/// Success comes exactly when the store holds the username and its stored
/// hash verifies against the supplied password. An unknown username still
/// performs one hash verification, against the fallback hash, before it
/// reports `InvalidCredentials`: the uniform-timing defense, which must not
/// be optimized away. A stored hash that cannot be parsed is a configuration
/// fault and surfaces as `UnexpectedError`, never as a wrong password.
pub fn validate_credentials(credentials: Credentials, store: &Store) -> (r: Result<
    UserId,
    AuthError,
>)
    ensures
        match lookup_user(store@.users, credentials.username@) {
            Some(u) => {
                &&& (r is Ok <==> phc_parses(u.password_hash) && phc_matches(
                    u.password_hash,
                    credentials.password@,
                ))
                &&& (r matches Ok(uid) ==> uid.0 == u.user_id)
                &&& (r matches Err(e) ==> (e is UnexpectedError <==> !phc_parses(
                    u.password_hash,
                )))
                &&& (r matches Err(e) ==> (e is InvalidCredentials <==> phc_parses(
                    u.password_hash,
                ) && !phc_matches(u.password_hash, credentials.password@)))
            },
            None => r matches Err(e) && e is InvalidCredentials,
        },
{
    match store.get_credential(&credentials.username) {
        Some(stored) => {
            match verify_password_hash(&stored.password_hash, &credentials.password) {
                HashCheck::PasswordMatch => Ok(UserId(stored.user_id)),
                HashCheck::PasswordMismatch => Err(AuthError::InvalidCredentials),
                HashCheck::MalformedHash => Err(AuthError::UnexpectedError),
            }
        },
        None => {
            let fallback = fallback_password_hash();
            let _ = verify_password_hash(&fallback, &credentials.password);
            Err(AuthError::InvalidCredentials)
        },
    }
}

} // verus!
