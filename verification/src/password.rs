//! The password-change flow.
//!
//! An authenticated user proves knowledge of the current password, the new
//! password must meet the length policy and be typed identically twice, and
//! only then is the stored hash overwritten. The length bounds are a product
//! decision, not a cryptographic one.

use vstd::prelude::*;
use vstd::string::StrSliceExecFns;
use vstd::string::StringExecFns;

use crate::auth::AuthError;
use crate::auth::Credentials;
use crate::auth::validate_credentials;
use crate::hashing::compute_password_hash;
use crate::hashing::phc_matches;
use crate::hashing::phc_parses;
use crate::secret::SecretString;
use crate::session::Session;
use crate::session::reject_anonymous_users;
use crate::store::Store;
use crate::store::lemma_lookup_user_by_id_then_name;
use crate::store::lookup_user_by_id;
use crate::store::update_hash_view;

verus! {

/// Smallest acceptable new-password length, in characters.
pub const MIN_PASSWORD_LENGTH: usize = 12;

/// Largest acceptable new-password length, in characters.
pub const MAX_PASSWORD_LENGTH: usize = 128;

/// The length policy on a new password, inclusive at both ends.
pub open spec fn acceptable_password_length(n: nat) -> bool {
    MIN_PASSWORD_LENGTH <= n <= MAX_PASSWORD_LENGTH
}

/// A password-change submission.
pub struct FormData {
    pub current_password: SecretString,
    pub new_password: SecretString,
    pub new_password_check: SecretString,
}

/// Whether a submission passes the checks made before anyone is consulted:
/// the new password meets the length policy and was typed identically twice.
pub open spec fn prechecks_pass(form: FormData) -> bool {
    &&& acceptable_password_length(form.new_password@.len())
    &&& form.new_password@ == form.new_password_check@
}

/// The typed, non-fatal failures of a password change, and the opaque server
/// failure.
#[derive(Debug)]
pub enum PasswordChangeError {
    /// The new password violates the length policy.
    InvalidNewPassword,
    /// The two new-password entries differ.
    PasswordFieldsMismatch,
    /// Nobody is logged in; the caller must redirect to the login page.
    NotAuthenticated,
    /// The current password did not verify.
    CurrentPasswordIncorrect,
    /// The session's user is missing from the store, or its stored hash is
    /// not usable; never blamed on the user.
    UnexpectedError,
}

impl PasswordChangeError {
    /// The user-facing message of the failure.
    pub fn message(&self) -> (r: String)
        ensures
            self is InvalidNewPassword ==> r@
                == "new passwords should be longer than 12 characters but shorter than 128 characters."@,
            self is PasswordFieldsMismatch ==> r@
                == "You entered two different new passwords - the field values must match."@,
            self is NotAuthenticated ==> r@ == "The user has not logged in"@,
            self is CurrentPasswordIncorrect ==> r@ == "The current password is incorrect."@,
            self is UnexpectedError ==> r@ == "Something went wrong."@,
    {
        match self {
            PasswordChangeError::InvalidNewPassword => String::from_str(
                "new passwords should be longer than 12 characters but shorter than 128 characters.",
            ),
            PasswordChangeError::PasswordFieldsMismatch => String::from_str(
                "You entered two different new passwords - the field values must match.",
            ),
            PasswordChangeError::NotAuthenticated => String::from_str("The user has not logged in"),
            PasswordChangeError::CurrentPasswordIncorrect => String::from_str(
                "The current password is incorrect.",
            ),
            PasswordChangeError::UnexpectedError => String::from_str("Something went wrong."),
        }
    }
}

/// Changes the password of the logged-in user.
///
/// The checks run in order: length policy, matching entries, login, current
/// password. Any failure leaves the stored hash untouched. When every check
/// passes and the stored hash verifies against the current password, success
/// is owed: the stored hash of the session's user is overwritten with a fresh
/// hash that verifies against the new password.
pub fn change_password(form: FormData, session: &Session, store: &mut Store) -> (r: Result<
    (),
    PasswordChangeError,
>)
    requires
        old(store).wf(),
    ensures
        final(store).wf(),
        r is Err ==> final(store)@ == old(store)@,
        ((r matches Err(e) && e is InvalidNewPassword) <==> !acceptable_password_length(
            form.new_password@.len(),
        )),
        ((r matches Err(e) && e is PasswordFieldsMismatch) <==> (acceptable_password_length(
            form.new_password@.len(),
        ) && form.new_password@ != form.new_password_check@)),
        ((r matches Err(e) && e is NotAuthenticated) <==> (prechecks_pass(form) && session@
            is None)),
        prechecks_pass(form) ==> (session@ matches Some(uid) ==> match lookup_user_by_id(
            old(store)@.users,
            uid,
        ) {
            None => (r matches Err(e) && e is UnexpectedError),
            Some(u) => {
                &&& (r is Ok <==> phc_parses(u.password_hash) && phc_matches(
                    u.password_hash,
                    form.current_password@,
                ))
                &&& ((r matches Err(e) && e is CurrentPasswordIncorrect) <==> (phc_parses(
                    u.password_hash,
                ) && !phc_matches(u.password_hash, form.current_password@)))
                &&& ((r matches Err(e) && e is UnexpectedError) <==> !phc_parses(
                    u.password_hash,
                ))
            },
        }),
        r is Ok ==> (prechecks_pass(form) && session@ is Some && exists|h: Seq<char>|
            phc_parses(h) && #[trigger] phc_matches(h, form.new_password@) && final(store)@
                == update_hash_view(old(store)@, session@->Some_0, h)),
{
    let FormData { current_password, new_password, new_password_check } = form;
    let new_len = new_password.expose_secret().unicode_len();
    if new_len < MIN_PASSWORD_LENGTH || new_len > MAX_PASSWORD_LENGTH {
        return Err(PasswordChangeError::InvalidNewPassword);
    }
    if !new_password.expose_eq(&new_password_check) {
        return Err(PasswordChangeError::PasswordFieldsMismatch);
    }
    let user_id = match reject_anonymous_users(session) {
        Ok(uid) => uid,
        Err(_) => return Err(PasswordChangeError::NotAuthenticated),
    };
    let username = match store.get_username(user_id.0) {
        Some(n) => n,
        None => return Err(PasswordChangeError::UnexpectedError),
    };
    proof {
        lemma_lookup_user_by_id_then_name(store@.users, user_id.0);
    }
    let credentials = Credentials { username, password: current_password };
    match validate_credentials(credentials, store) {
        Ok(_) => (),
        Err(AuthError::InvalidCredentials) => {
            return Err(PasswordChangeError::CurrentPasswordIncorrect);
        },
        Err(_) => return Err(PasswordChangeError::UnexpectedError),
    }
    let new_hash = match compute_password_hash(&new_password) {
        Ok(h) => h,
        Err(_) => {
            proof {
                assert(false);
            }
            return Err(PasswordChangeError::UnexpectedError);
        },
    };
    let ghost new_hash_view = new_hash@;
    match store.update_password_hash(user_id.0, new_hash) {
        Ok(_) => {
            proof {
                assert(phc_parses(new_hash_view) && phc_matches(
                    new_hash_view,
                    new_password@,
                ) && store@ == update_hash_view(old(store)@, session@->Some_0, new_hash_view));
            }
            Ok(())
        },
        Err(_) => {
            proof {
                assert(false);
            }
            Err(PasswordChangeError::UnexpectedError)
        },
    }
}

} // verus!
