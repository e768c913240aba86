//! The error taxonomy of the core, and the rendering of error chains.
//!
//! Validation and credential-mismatch failures are recovered at the boundary
//! into user-facing messages; store and transport failures surface uniformly
//! as opaque server errors. An unknown confirmation token and a wrong password
//! are not distinguished in wording.

use vstd::prelude::*;
use vstd::string::StringExecFns;

use crate::store::StoreError;

verus! {

/// A confirmation token could not be stored: the uniqueness constraint on the
/// token column was violated.
#[derive(Debug)]
pub struct StoreTokenError {}

/// The email transport did not accept an outbound message.
#[derive(Debug)]
pub struct SendEmailError {}

/// Everything that can go wrong while a new subscriber is registered.
#[derive(Debug)]
pub enum SubscriberError {
    /// The submitted form failed validation; the payload is the user-facing
    /// reason.
    ValidationError(String),
    /// The confirmation token could not be stored.
    StoreTokenError(StoreTokenError),
    /// The confirmation email was not accepted by the transport.
    SendEmailError(SendEmailError),
    /// No store connection could be acquired.
    PoolError(StoreError),
    /// The subscriber row could not be inserted.
    InsertSubscriberError(StoreError),
    /// The transaction holding the new subscriber could not be committed.
    TransactionCommitError(StoreError),
}

impl SubscriberError {
    /// The transport-level status this error maps to: bad input is the
    /// caller's fault, everything else is a server failure.
    pub fn status_code(&self) -> (r: u16)
        ensures
            self is ValidationError ==> r == 400,
            !(self is ValidationError) ==> r == 500,
    {
        match self {
            SubscriberError::ValidationError(_) => 400,
            SubscriberError::PoolError(_)
            | SubscriberError::TransactionCommitError(_)
            | SubscriberError::InsertSubscriberError(_)
            | SubscriberError::StoreTokenError(_)
            | SubscriberError::SendEmailError(_) => 500,
        }
    }

    /// The user-facing message: the validation reason verbatim, an opaque
    /// description otherwise.
    pub fn message(&self) -> (r: String)
        ensures
            self matches SubscriberError::ValidationError(m) ==> r@ == m@,
            self is StoreTokenError ==> r@
                == "Failed to store the confirmation token for a new subscriber."@,
            self is SendEmailError ==> r@ == "Failed to send a confirmation email."@,
            self is PoolError ==> r@ == "Failed to acquire a connection from the store."@,
            self is InsertSubscriberError ==> r@
                == "Failed to insert new subscriber in the store."@,
            self is TransactionCommitError ==> r@
                == "Failed to commit the transaction to store a new subscriber."@,
    {
        match self {
            SubscriberError::ValidationError(m) => m.clone(),
            SubscriberError::StoreTokenError(_) => String::from_str(
                "Failed to store the confirmation token for a new subscriber.",
            ),
            SubscriberError::SendEmailError(_) => String::from_str(
                "Failed to send a confirmation email.",
            ),
            SubscriberError::PoolError(_) => String::from_str(
                "Failed to acquire a connection from the store.",
            ),
            SubscriberError::InsertSubscriberError(_) => String::from_str(
                "Failed to insert new subscriber in the store.",
            ),
            SubscriberError::TransactionCommitError(_) => String::from_str(
                "Failed to commit the transaction to store a new subscriber.",
            ),
        }
    }
}

impl From<String> for SubscriberError {
    /// A bare reason string converts into the validation failure it reports.
    fn from(e: String) -> (r: SubscriberError) {
        SubscriberError::ValidationError(e)
    }
}

impl vstd::std_specs::convert::FromSpecImpl<String> for SubscriberError {
    open spec fn obeys_from_spec() -> bool {
        true
    }

    open spec fn from_spec(e: String) -> SubscriberError {
        SubscriberError::ValidationError(e)
    }
}

/// Everything that can go wrong while a confirmation link is redeemed.
#[derive(Debug)]
pub enum ConfirmError {
    /// No subscriber is bound to the presented token: a bad request, not a
    /// server error.
    UnknownToken,
}

impl ConfirmError {
    /// The transport-level status this error maps to.
    pub fn status_code(&self) -> (r: u16)
        ensures
            r == 400,
    {
        match self {
            ConfirmError::UnknownToken => 400,
        }
    }

    /// The user-facing message; it does not reveal which part of the check
    /// failed.
    pub fn message(&self) -> (r: String)
        ensures
            r@ == "There is no subscriber associated with the provided token."@,
    {
        match self {
            ConfirmError::UnknownToken => String::from_str(
                "There is no subscriber associated with the provided token.",
            ),
        }
    }
}

/// Everything that can go wrong while an issue is published; the payloads
/// carry internal detail for the logs.
#[derive(Debug)]
pub enum PublishError {
    AuthError(String),
    UnexpectedError(String),
}

impl PublishError {
    /// The transport-level status this error maps to.
    pub fn status_code(&self) -> (r: u16)
        ensures
            self is AuthError ==> r == 401,
            self is UnexpectedError ==> r == 500,
    {
        match self {
            PublishError::AuthError(_) => 401,
            PublishError::UnexpectedError(_) => 500,
        }
    }

    /// The value of the authentication challenge header that accompanies an
    /// authentication failure.
    pub fn www_authenticate(&self) -> (r: Option<String>)
        ensures
            self is AuthError ==> (r matches Some(v) && v@ == "Basic realm=\"publish\""@),
            self is UnexpectedError ==> r is None,
    {
        match self {
            PublishError::AuthError(_) => Some(String::from_str("Basic realm=\"publish\"")),
            PublishError::UnexpectedError(_) => None,
        }
    }

    /// The rendering of the error. For an authentication failure this is the
    /// uniform user-facing wording; for an unexpected error it is the wrapped
    /// internal detail, which belongs in the server's log — the boundary
    /// surfaces unexpected errors to the user uniformly, by status alone.
    pub fn message(&self) -> (r: String)
        ensures
            self is AuthError ==> r@ == "Authentication failed."@,
            self matches PublishError::UnexpectedError(m) ==> r@ == m@,
    {
        match self {
            PublishError::AuthError(_) => String::from_str("Authentication failed."),
            PublishError::UnexpectedError(m) => m.clone(),
        }
    }
}

/// The rendering of the causes that follow an error's own message.
pub open spec fn chain_causes(causes: Seq<Seq<char>>) -> Seq<char>
    decreases causes.len(),
{
    if causes.len() == 0 {
        Seq::empty()
    } else {
        "Caused by:\n\t"@ + causes.first() + "\n"@ + chain_causes(causes.drop_first())
    }
}

/// The full rendering of an error: its message, a blank line, then each cause
/// on a line of its own.
pub open spec fn spec_error_chain(message: Seq<char>, causes: Seq<Seq<char>>) -> Seq<char> {
    message + "\n\n"@ + chain_causes(causes)
}

/// Renders an error and the chain of its causes, outermost first.
pub fn error_chain_fmt(message: &str, causes: &Vec<String>) -> (out: String)
    ensures
        out@ == spec_error_chain(message@, causes.deep_view()),
{
    let ghost cs = causes.deep_view();
    let mut out = String::from_str(message);
    out.append("\n\n");
    let n = causes.len();
    let mut i: usize = 0;
    proof {
        assert(cs.skip(0) =~= cs);
        assert(out@ =~= message@ + "\n\n"@ + Seq::<char>::empty());
    }
    while i < n
        invariant
            n == causes@.len(),
            cs == causes.deep_view(),
            cs.len() == n,
            i <= n,
            spec_error_chain(message@, cs) == out@ + chain_causes(cs.skip(i as int)),
        decreases n - i,
    {
        proof {
            assert(cs[i as int] == causes@[i as int]@);
            assert(cs.skip(i as int).first() == cs[i as int]);
            assert(cs.skip(i as int).drop_first() =~= cs.skip(i + 1));
        }
        let ghost pre = out@;
        out.append("Caused by:\n\t");
        out.append(causes[i].as_str());
        out.append("\n");
        proof {
            assert(out@ =~= pre + ("Caused by:\n\t"@ + cs[i as int] + "\n"@));
            assert(pre + chain_causes(cs.skip(i as int)) =~= out@ + chain_causes(
                cs.skip(i + 1),
            ));
        }
        i += 1;
    }
    proof {
        assert(cs.skip(n as int) =~= Seq::<Seq<char>>::empty());
        assert(out@ + chain_causes(cs.skip(n as int)) =~= out@);
    }
    out
}

} // verus!
