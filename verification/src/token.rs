//! Access token generation.

use vstd::prelude::*;

use crate::identifier::{is_alnum, is_digit, is_lower, is_upper};

verus! {

/// Relies on `passwords::PasswordGenerator::generate_one` with length 64,
/// digits and both letter cases enabled, symbols and spaces disabled, and
/// strict rules: the result is 64 characters drawn from the enabled
/// classes, with at least one of each. With these settings the generator
/// cannot refuse: its only failures are a zero length and an empty
/// character pool.
#[verifier::external_body]
fn generate_token_chars() -> (r: String)
    ensures
        r@.len() == 64,
        forall|i: int| 0 <= i < r@.len() ==> is_alnum(#[trigger] r@[i]),
        exists|i: int| 0 <= i < r@.len() && is_digit(#[trigger] r@[i]),
        exists|i: int| 0 <= i < r@.len() && is_lower(#[trigger] r@[i]),
        exists|i: int| 0 <= i < r@.len() && is_upper(#[trigger] r@[i]),
{
    let pg = passwords::PasswordGenerator {
        length: 64,
        numbers: true,
        lowercase_letters: true,
        uppercase_letters: true,
        symbols: false,
        spaces: false,
        exclude_similar_characters: false,
        strict: true,
    };
    pg.generate_one().unwrap()
}

/// A fresh random access token: 64 alphanumeric characters holding at
/// least one digit, one lowercase and one uppercase letter.
pub fn create_token() -> (r: String)
    ensures
        r@.len() == 64,
        forall|i: int| 0 <= i < r@.len() ==> is_alnum(#[trigger] r@[i]),
{
    generate_token_chars()
}

} // verus!
