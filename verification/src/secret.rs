//! A wrapper that keeps sensitive strings from leaking by accident.
//!
//! The type has no derived equality and no printing: the content comes out
//! only through `expose_secret`, and comparisons go through the explicit
//! `expose_eq` helper, which is exactly the path a password-match check must
//! take.

use vstd::prelude::*;
use vstd::string::StringExecFns;

verus! {

/// A sensitive string (password, token, key). Default formatting and equality
/// are deliberately absent.
pub struct SecretString {
    inner: String,
}

impl View for SecretString {
    type V = Seq<char>;

    closed spec fn view(&self) -> Seq<char> {
        self.inner@
    }
}

impl SecretString {
    /// Wraps a sensitive string.
    pub fn new(s: String) -> (r: SecretString)
        ensures
            r@ == s@,
    {
        SecretString { inner: s }
    }

    /// The explicit accessor: the only way to read the content.
    pub fn expose_secret(&self) -> (r: &str)
        ensures
            r@ == self@,
    {
        self.inner.as_str()
    }

    /// Explicit equality of the wrapped contents. Secret material is compared
    /// only through this opt-in path, never through derived trait machinery.
    pub fn expose_eq(&self, other: &SecretString) -> (r: bool)
        ensures
            r == (self@ == other@),
    {
        self.inner == other.inner
    }

    /// What default stringification renders instead of the content.
    pub fn redacted(&self) -> (r: String)
        ensures
            r@ == "[REDACTED]"@,
    {
        String::from_str("[REDACTED]")
    }
}

/// The secret used to sign message cookies; configuration hands it in at
/// startup.
pub struct HmacSecret(pub SecretString);

} // verus!
