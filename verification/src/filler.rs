//! Randomized filler values for the account payloads: a correlation
//! identifier, an email address, and a password. All of them come from
//! outside generators; nothing about a single draw is reproducible, so the
//! contracts state only what holds of every outcome.

use fake::Fake;
use vstd::prelude::*;

verus! {

/// Relies on `uuid::Uuid::new_v4` and its `Display` form: a fresh random
/// identifier rendered as the 36-character hyphenated UUID string.
#[verifier::external_body]
pub(crate) fn fresh_correlation_id() -> (r: String)
    ensures
        r@.len() == 36,
{
    uuid::Uuid::new_v4().to_string()
}

/// Relies on `fake`'s `FreeEmail` faker: it renders `username@provider`,
/// which is never empty.
#[verifier::external_body]
pub(crate) fn random_email() -> (r: String)
    ensures
        r@.len() >= 1,
{
    fake::faker::internet::en::FreeEmail().fake()
}

/// Relies on `fake`'s `Password` faker over the range `len..len + 1`: it
/// draws exactly `len` characters from its ASCII alphanumeric alphabet.
#[verifier::external_body]
pub(crate) fn random_password(len: usize) -> (r: String)
    requires
        len < usize::MAX,
    ensures
        r@.len() == len,
{
    fake::faker::internet::en::Password(len..len + 1).fake()
}

} // verus!
