//! The session guard: mapping an opaque session to a user identity and
//! enforcing login-required semantics.
//!
//! A session holds at most one user id. It is created empty, populated on
//! successful authentication, and cleared on logout; expiry is the session
//! store's business, outside this core.

use vstd::prelude::*;

use crate::auth::AuthError;
use crate::auth::UserId;

verus! {

/// Server-side session state: at most one authenticated user id.
pub struct Session {
    user_id: Option<u128>,
}

impl View for Session {
    type V = Option<u128>;

    closed spec fn view(&self) -> Option<u128> {
        self.user_id
    }
}

impl Session {
    /// A fresh, empty session.
    pub fn new() -> (r: Session)
        ensures
            r@ is None,
    {
        Session { user_id: None }
    }

    /// Binds the session to an authenticated user.
    pub fn insert_user_id(&mut self, user_id: UserId)
        ensures
            final(self)@ == Some(user_id.0),
    {
        self.user_id = Some(user_id.0);
    }

    /// The user the session is bound to, if any.
    pub fn get_user_id(&self) -> (r: Option<UserId>)
        ensures
            match self@ {
                Some(u) => r == Some(UserId(u)),
                None => r is None,
            },
    {
        match self.user_id {
            Some(u) => Some(UserId(u)),
            None => None,
        }
    }

    /// Destroys the session state.
    pub fn purge(&mut self)
        ensures
            final(self)@ is None,
    {
        self.user_id = None;
    }
}

/// The login-required guard: the identity behind the session, or the error
/// that sends the caller to the login page. A caller that receives the error
/// must not proceed.
pub fn reject_anonymous_users(session: &Session) -> (r: Result<UserId, AuthError>)
    ensures
        match session@ {
            Some(u) => r == Ok::<UserId, AuthError>(UserId(u)),
            None => r == Err::<UserId, AuthError>(AuthError::NotAuthenticated),
        },
{
    match session.get_user_id() {
        Some(user_id) => Ok(user_id),
        None => Err(AuthError::NotAuthenticated),
    }
}

/// Clears the session. The result says whether a logged-in session was
/// cleared, so the caller can acknowledge the logout; after the call no
/// cached identity survives: `reject_anonymous_users` on the same session
/// fails.
pub fn logout(session: &mut Session) -> (r: bool)
    ensures
        final(session)@ is None,
        r == (old(session)@ is Some),
{
    let was_logged_in = session.get_user_id().is_some();
    if was_logged_in {
        session.purge();
    }
    was_logged_in
}

} // verus!
