//! Verified core of a newsletter subscription service.
//!
//! The crate models the parts of the service with real invariants to protect:
//! subscriber validation, confirmation tokens, the transactional subscription
//! workflow, credential authentication with memory-hard password hashing, the
//! session guard, and the password-change flow. Routing, page rendering and
//! transport glue live outside this crate.

pub mod auth;
pub mod domain;
pub mod email;
pub mod errors;
pub mod hashing;
pub mod login;
pub mod password;
pub mod secret;
pub mod session;
pub mod store;
pub mod subscriptions;
pub mod token;
