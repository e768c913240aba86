//! Validated subscriber data: names and email addresses.
//!
//! A `NewSubscriber` can only be built through validation, so invalid input
//! never produces an instance.

use vstd::prelude::*;
use vstd::string::StrSliceExecFns;
use vstd::string::StringExecFns;

verus! {

/// Upper bound on the number of characters in a subscriber name.
pub const MAX_NAME_LENGTH: usize = 256;

/// Whitespace for the purposes of name validation: a name made only of these
/// characters is rejected as empty.
pub open spec fn is_whitespace_char(c: char) -> bool {
    c == ' ' || c == '\t' || c == '\n' || c == '\r'
}

/// Characters that could carry markup or injection payloads and are therefore
/// banned from subscriber names.
pub open spec fn is_forbidden_name_char(c: char) -> bool {
    ||| c == '/'
    ||| c == '('
    ||| c == ')'
    ||| c == '"'
    ||| c == '<'
    ||| c == '>'
    ||| c == '\\'
    ||| c == '{'
    ||| c == '}'
}

/// Number of occurrences of `c` in `s`.
pub open spec fn count_char(s: Seq<char>, c: char) -> nat
    decreases s.len(),
{
    if s.len() == 0 {
        0
    } else {
        count_char(s.drop_last(), c) + if s.last() == c {
            1nat
        } else {
            0nat
        }
    }
}

/// A valid subscriber name: at most `MAX_NAME_LENGTH` characters, at least one
/// non-whitespace character, and no forbidden character.
pub open spec fn valid_subscriber_name(s: Seq<char>) -> bool {
    &&& s.len() <= MAX_NAME_LENGTH
    &&& exists|j: int| 0 <= j < s.len() && !is_whitespace_char(s[j])
    &&& forall|j: int| 0 <= j < s.len() ==> !is_forbidden_name_char(s[j])
}

/// A syntactically acceptable email address: exactly one '@', neither at the
/// start nor at the end, no whitespace, and at least three characters.
pub open spec fn valid_subscriber_email(s: Seq<char>) -> bool {
    &&& s.len() >= 3
    &&& count_char(s, '@') == 1
    &&& s[0] != '@'
    &&& s[s.len() - 1] != '@'
    &&& forall|j: int| 0 <= j < s.len() ==> !is_whitespace_char(s[j])
}

/// A subscriber name that passed validation.
#[derive(Debug)]
pub struct SubscriberName {
    name: String,
}

impl View for SubscriberName {
    type V = Seq<char>;

    closed spec fn view(&self) -> Seq<char> {
        self.name@
    }
}

impl SubscriberName {
    /// Validates `s` as a subscriber name; on failure the error carries a
    /// user-facing message built from the rejected input.
    pub fn parse(s: String) -> (r: Result<SubscriberName, String>)
        ensures
            r is Ok <==> valid_subscriber_name(s@),
            r matches Ok(name) ==> name@ == s@,
            r matches Err(msg) ==> msg@ == s@ + " is not a valid subscriber name."@,
    {
        if check_name(&s) {
            Ok(SubscriberName { name: s })
        } else {
            Err(s.concat(" is not a valid subscriber name."))
        }
    }

    /// The validated name as a string slice.
    pub fn as_str(&self) -> (r: &str)
        ensures
            r@ == self@,
    {
        self.name.as_str()
    }

    /// An owned copy of the validated name.
    pub fn as_string(&self) -> (r: String)
        ensures
            r@ == self@,
    {
        self.name.clone()
    }
}

/// A subscriber email address that passed validation.
#[derive(Debug)]
pub struct SubscriberEmail {
    email: String,
}

impl View for SubscriberEmail {
    type V = Seq<char>;

    closed spec fn view(&self) -> Seq<char> {
        self.email@
    }
}

impl SubscriberEmail {
    /// Validates `s` as an email address; on failure the error carries a
    /// user-facing message built from the rejected input.
    pub fn parse(s: String) -> (r: Result<SubscriberEmail, String>)
        ensures
            r is Ok <==> valid_subscriber_email(s@),
            r matches Ok(email) ==> email@ == s@,
            r matches Err(msg) ==> msg@ == s@ + " is not a valid subscriber email."@,
    {
        if check_email(&s) {
            Ok(SubscriberEmail { email: s })
        } else {
            Err(s.concat(" is not a valid subscriber email."))
        }
    }

    /// The validated address as a string slice.
    pub fn as_str(&self) -> (r: &str)
        ensures
            r@ == self@,
    {
        self.email.as_str()
    }

    /// An owned copy of the validated address.
    pub fn as_string(&self) -> (r: String)
        ensures
            r@ == self@,
    {
        self.email.clone()
    }
}

/// A fully validated subscription submission.
pub struct NewSubscriber {
    pub email: SubscriberEmail,
    pub name: SubscriberName,
}

/// Executable check for `valid_subscriber_name`.
fn check_name(s: &String) -> (r: bool)
    ensures
        r == valid_subscriber_name(s@),
{
    let n = s.as_str().unicode_len();
    let mut has_visible = false;
    let mut has_forbidden = false;
    let mut i: usize = 0;
    while i < n
        invariant
            n == s@.len(),
            i <= n,
            has_visible == exists|j: int| 0 <= j < i && !is_whitespace_char(s@[j]),
            has_forbidden == exists|j: int| 0 <= j < i && is_forbidden_name_char(s@[j]),
        decreases n - i,
    {
        let c = s.as_str().get_char(i);
        if !(c == ' ' || c == '\t' || c == '\n' || c == '\r') {
            assert(!is_whitespace_char(s@[i as int]));
            has_visible = true;
        }
        if c == '/' || c == '(' || c == ')' || c == '"' || c == '<' || c == '>' || c == '\\'
            || c == '{' || c == '}' {
            has_forbidden = true;
        } else {
            assert(!is_forbidden_name_char(s@[i as int]));
        }
        i += 1;
    }
    n <= MAX_NAME_LENGTH && has_visible && !has_forbidden
}

/// Executable check for `valid_subscriber_email`.
fn check_email(s: &String) -> (r: bool)
    ensures
        r == valid_subscriber_email(s@),
{
    let n = s.as_str().unicode_len();
    if n < 3 {
        return false;
    }
    let mut at_count: usize = 0;
    let mut has_whitespace = false;
    let mut i: usize = 0;
    while i < n
        invariant
            n == s@.len(),
            i <= n,
            at_count <= i,
            at_count as nat == count_char(s@.take(i as int), '@'),
            has_whitespace == exists|j: int| 0 <= j < i && is_whitespace_char(s@[j]),
        decreases n - i,
    {
        let c = s.as_str().get_char(i);
        proof {
            assert(s@.take(i + 1).drop_last() =~= s@.take(i as int));
            assert(s@.take(i + 1).last() == s@[i as int]);
        }
        if c == '@' {
            at_count += 1;
        }
        if c == ' ' || c == '\t' || c == '\n' || c == '\r' {
            has_whitespace = true;
        } else {
            assert(!is_whitespace_char(s@[i as int]));
        }
        i += 1;
    }
    proof {
        assert(s@.take(n as int) =~= s@);
    }
    let first = s.as_str().get_char(0);
    let last = s.as_str().get_char(n - 1);
    at_count == 1 && first != '@' && last != '@' && !has_whitespace
}

} // verus!
