//! Password hashing and verification.
//!
//! Hashes are Argon2id PHC strings: self-describing encodings of algorithm,
//! cost parameters, salt and digest. Deriving a hash is deliberately CPU- and
//! memory-expensive; the comparison against a stored digest is constant-time
//! inside the hashing backend. Callers that serve concurrent requests are
//! expected to dispatch these calls off their request-handling path.

use vstd::prelude::*;

use crate::secret::SecretString;

verus! {

/// Memory cost of a fresh hash, in KiB.
pub const HASH_MEMORY_KIB: u32 = 15000;

/// Number of iterations of a fresh hash.
pub const HASH_ITERATIONS: u32 = 2;

/// Degree of parallelism of a fresh hash.
pub const HASH_PARALLELISM: u32 = 1;

/// Whether a stored hash string is a usable PHC encoding: it parses and names
/// an algorithm, parameters and salt the backend can recompute with.
pub uninterp spec fn phc_parses(hash: Seq<char>) -> bool;

/// Whether the digest in a PHC hash string is the hash of `password` under
/// the algorithm, parameters and salt the string encodes.
pub uninterp spec fn phc_matches(hash: Seq<char>, password: Seq<char>) -> bool;

/// Outcome of checking a password against a stored PHC hash string.
#[derive(Clone, Copy, PartialEq, Eq, Structural, Debug)]
pub enum HashCheck {
    /// The stored digest is the hash of the supplied password.
    PasswordMatch,
    /// The stored hash is usable but the password does not produce its digest.
    PasswordMismatch,
    /// The stored hash is not a usable PHC string: a configuration fault, not
    /// a wrong password.
    MalformedHash,
}

/// The hashing backend refused to derive a hash.
#[derive(Debug)]
pub struct HashError {}

/// Cost parameters the hashing backend accepts: memory of at least 8 KiB and
/// at least 8 KiB per lane, at least one iteration, and between 1 and 2^24 - 1
/// lanes.
pub open spec fn hash_params_valid(m_cost: u32, t_cost: u32, p_cost: u32) -> bool {
    &&& m_cost >= 8
    &&& m_cost >= 8 * p_cost
    &&& t_cost >= 1
    &&& 1 <= p_cost <= 0xFFFFFF
}

/// Relies on argon2's `PasswordHash::new` and `Argon2::verify_password`:
/// parsing and recomputation depend only on the hash string, the comparison
/// outcome only on the hash string and the password, and a failed comparison
/// surfaces as the distinguished password error.
#[verifier::external_body]
fn argon2_verify(stored_hash: &str, password: &str) -> (r: HashCheck)
    ensures
        (r is PasswordMatch) == (phc_parses(stored_hash@) && phc_matches(
            stored_hash@,
            password@,
        )),
        (r is PasswordMismatch) == (phc_parses(stored_hash@) && !phc_matches(
            stored_hash@,
            password@,
        )),
        (r is MalformedHash) == !phc_parses(stored_hash@),
{
    let parsed = match argon2::PasswordHash::new(stored_hash) {
        Ok(p) => p,
        Err(_) => return HashCheck::MalformedHash,
    };
    match argon2::PasswordVerifier::verify_password(
        &argon2::Argon2::default(),
        password.as_bytes(),
        &parsed,
    ) {
        Ok(()) => HashCheck::PasswordMatch,
        Err(argon2::password_hash::Error::Password) => HashCheck::PasswordMismatch,
        Err(_) => HashCheck::MalformedHash,
    }
}

/// Relies on argon2's `Argon2::hash_password` with a fresh random salt: the
/// produced PHC string encodes Argon2id, the given parameters, the salt and
/// the digest of the given password, so verifying it against that password
/// succeeds. Whether the call succeeds depends on the arguments alone: with
/// cost parameters that `Params::new` accepts, a freshly generated 16-byte
/// salt and the default 32-byte output, the one remaining failure is a
/// password of 2^32 bytes or more — and a string of fewer than 2^30
/// characters is shorter than that, each character taking at most 4 bytes.
#[verifier::external_body]
fn argon2_hash(password: &str, m_cost: u32, t_cost: u32, p_cost: u32) -> (r: Result<
    String,
    HashError,
>)
    ensures
        r matches Ok(h) ==> phc_parses(h@) && phc_matches(h@, password@),
        hash_params_valid(m_cost, t_cost, p_cost) && password@.len() < 0x40000000 ==> r is Ok,
{
    let params = match argon2::Params::new(m_cost, t_cost, p_cost, None) {
        Ok(p) => p,
        Err(_) => return Err(HashError {}),
    };
    let hasher = argon2::Argon2::new(argon2::Algorithm::Argon2id, argon2::Version::V0x13, params);
    let salt = argon2::password_hash::SaltString::generate(&mut rand::thread_rng());
    match argon2::PasswordHasher::hash_password(&hasher, password.as_bytes(), &salt) {
        Ok(h) => Ok(h.to_string()),
        Err(_) => Err(HashError {}),
    }
}

/// Derives the PHC hash string to store for `password`: Argon2id with the
/// fixed cost parameters above and a fresh random salt. Succeeds for every
/// password shorter than 2^30 characters.
pub fn compute_password_hash(password: &SecretString) -> (r: Result<String, HashError>)
    ensures
        r matches Ok(h) ==> phc_parses(h@) && phc_matches(h@, password@),
        password@.len() < 0x40000000 ==> r is Ok,
{
    proof {
        assert(hash_params_valid(HASH_MEMORY_KIB, HASH_ITERATIONS, HASH_PARALLELISM));
    }
    argon2_hash(password.expose_secret(), HASH_MEMORY_KIB, HASH_ITERATIONS, HASH_PARALLELISM)
}

/// Checks `password` against a stored PHC hash string.
pub fn verify_password_hash(stored_hash: &String, password: &SecretString) -> (r: HashCheck)
    ensures
        r is PasswordMatch <==> phc_parses(stored_hash@) && phc_matches(stored_hash@, password@),
        r is PasswordMismatch <==> phc_parses(stored_hash@) && !phc_matches(
            stored_hash@,
            password@,
        ),
        r is MalformedHash <==> !phc_parses(stored_hash@),
{
    argon2_verify(stored_hash.as_str(), password.expose_secret())
}

} // verus!
