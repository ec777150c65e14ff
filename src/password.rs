//! One-way password hashing and verification.

use vstd::prelude::*;

verus! {

#[verifier::external_type_specification]
#[verifier::external_body]
pub struct ExBcryptError(bcrypt::BcryptError);

/// What `bcrypt::verify` reports for a password against a stored hash.
pub uninterp spec fn bcrypt_accepts(password: Seq<char>, hash: Seq<char>) -> bool;

/// Relies on `bcrypt::hash`: a salted hash at `cost`, with a random salt; a cost
/// outside 4..=31 is refused. `bcrypt::verify` reruns the same hashing on the salt and
/// cost the hash carries, so it accepts the password against the hash.
#[verifier::external_body]
pub(crate) fn hash_password(password: &str, cost: u32) -> (r: Result<String, bcrypt::BcryptError>)
    ensures
        cost < 4 || cost > 31 ==> r is Err,
        r matches Ok(h) ==> bcrypt_accepts(password@, h@),
{
    bcrypt::hash(password, cost)
}

/// Relies on `bcrypt::verify`: whether `password` hashes to `hash`; a malformed hash
/// counts as a mismatch.
#[verifier::external_body]
pub(crate) fn verify_password(password: &str, hash: &str) -> (r: bool)
    ensures
        r == bcrypt_accepts(password@, hash@),
{
    bcrypt::verify(password, hash).unwrap_or(false)
}

} // verus!
