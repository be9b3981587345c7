//! Field validation rules used by request payloads.

use vstd::prelude::*;

verus! {

/// Whether `validator`'s `ValidateEmail::validate_email` accepts the text.
pub uninterp spec fn email_is_valid(s: Seq<char>) -> bool;

/// `ValidateEmail::validate_email` of the `validator` crate on a string. Its
/// source rejects an empty text and one without `@` before anything else; the
/// rest of its rules (length limits, user and domain patterns) is left to the
/// name `email_is_valid`.
#[verifier::external_body]
pub(crate) fn validate_email(s: &str) -> (r: bool)
    ensures
        r == email_is_valid(s@),
        s@.len() == 0 || !s@.contains('@') ==> !r,
{
    validator::ValidateEmail::validate_email(&s)
}

/// The length rule of `#[validate(length(min, max))]`: the number of characters
/// lies between the bounds.
pub open spec fn spec_length_within(s: Seq<char>, min: nat, max: nat) -> bool {
    min <= s.len() <= max
}

/// Whether the number of characters of `s` lies in `min..=max`.
pub fn length_within(s: &str, min: usize, max: usize) -> (r: bool)
    ensures
        r == spec_length_within(s@, min as nat, max as nat),
{
    let n = s.unicode_len();
    min <= n && n <= max
}

/// Whether `s` has exactly `n` characters (`#[validate(length(equal = n))]`).
pub fn length_equals(s: &str, n: usize) -> (r: bool)
    ensures
        r == (s@.len() == n),
{
    s.unicode_len() == n
}

} // verus!
