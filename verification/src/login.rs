//! The login flow: credential validation followed by session binding.

use vstd::prelude::*;

use crate::auth::AuthError;
use crate::auth::Credentials;
use crate::auth::UserId;
use crate::auth::validate_credentials;
use crate::hashing::phc_matches;
use crate::hashing::phc_parses;
use crate::secret::SecretString;
use crate::session::Session;
use crate::store::Store;
use crate::store::lookup_user;

verus! {

/// A login submission.
pub struct FormData {
    pub username: String,
    pub password: SecretString,
}

/// Handles a login submission: validates the credentials and, on success,
/// binds the session to the authenticated user. A failed login leaves the
/// session untouched.
pub fn login(form: FormData, store: &Store, session: &mut Session) -> (r: Result<UserId, AuthError>)
    ensures
        match lookup_user(store@.users, form.username@) {
            Some(u) => {
                &&& (r is Ok <==> phc_parses(u.password_hash) && phc_matches(
                    u.password_hash,
                    form.password@,
                ))
                &&& (r matches Ok(uid) ==> uid.0 == u.user_id)
                &&& (r matches Err(e) ==> (e is UnexpectedError <==> !phc_parses(
                    u.password_hash,
                )))
                &&& (r matches Err(e) ==> (e is InvalidCredentials <==> phc_parses(
                    u.password_hash,
                ) && !phc_matches(u.password_hash, form.password@)))
            },
            None => r matches Err(e) && e is InvalidCredentials,
        },
        r matches Ok(uid) ==> final(session)@ == Some(uid.0),
        r is Err ==> final(session)@ == old(session)@,
{
    let credentials = Credentials { username: form.username, password: form.password };
    match validate_credentials(credentials, store) {
        Ok(user_id) => {
            session.insert_user_id(user_id);
            Ok(user_id)
        },
        Err(e) => Err(e),
    }
}

} // verus!
