//! Confirmation tokens: fixed-length, URL-safe, drawn from a strong random
//! source.
//!
//! Tokens are not globally unique by construction; the store's uniqueness
//! constraint on the token column enforces that at insert time.

use vstd::prelude::*;

verus! {

/// Number of characters in a subscription token.
pub const TOKEN_LENGTH: usize = 25;

/// The token alphabet: ASCII letters and digits.
pub open spec fn is_token_char(c: char) -> bool {
    ||| 'a' <= c <= 'z'
    ||| 'A' <= c <= 'Z'
    ||| '0' <= c <= '9'
}

/// A well-formed subscription token: exactly `TOKEN_LENGTH` characters from
/// the token alphabet.
pub open spec fn well_formed_token(s: Seq<char>) -> bool {
    &&& s.len() == TOKEN_LENGTH
    &&& forall|j: int| 0 <= j < s.len() ==> is_token_char(s[j])
}

/// Relies on rand's `Alphanumeric` distribution: its `sample` draws one byte
/// uniformly from `A`-`Z`, `a`-`z`, `0`-`9` using a cryptographically strong
/// generator. Nothing more is assumed of the draw.
#[verifier::external_body]
fn sample_alphanumeric_char() -> (c: char)
    ensures
        is_token_char(c),
{
    let b: u8 = rand::Rng::sample(&mut rand::thread_rng(), rand::distributions::Alphanumeric);
    b as char
}

/// Relies on std's `String::push`: appends exactly the given character.
#[verifier::external_body]
fn push_char(s: &mut String, c: char)
    ensures
        final(s)@ == old(s)@.push(c),
{
    s.push(c);
}

/// Generates a random 25-characters-long case-sensitive subscription token.
pub fn generate_subscription_token() -> (r: String)
    ensures
        well_formed_token(r@),
{
    let mut token = String::new();
    let mut i: usize = 0;
    while i < TOKEN_LENGTH
        invariant
            i <= TOKEN_LENGTH,
            token@.len() == i,
            forall|j: int| 0 <= j < token@.len() ==> is_token_char(token@[j]),
        decreases TOKEN_LENGTH - i,
    {
        let c = sample_alphanumeric_char();
        push_char(&mut token, c);
        i += 1;
    }
    token
}

} // verus!
