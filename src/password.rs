//! One-way salted password hashing and verification against a stored hash.
use vstd::prelude::*;
use crate::models::AuthError;
use crate::text::digits_of;

verus! {

/// The work factor of every stored hash.
pub const HASH_COST: u32 = 10;

#[verifier::external_type_specification]
#[verifier::external_body]
pub struct ExBcryptError(bcrypt::BcryptError);

/// What verifying `password` against the stored `hash` yields: `Some(matches)`, or `None`
/// where the stored hash cannot be read.
pub uninterp spec fn bcrypt_verdict(password: Seq<char>, hash: Seq<char>) -> Option<bool>;

/// The shape of a bcrypt hash string of a two-digit cost: "$2b$", the cost, "$", then 22
/// characters of salt and 31 of hash.
pub open spec fn bcrypt_form(h: Seq<char>, cost: u32) -> bool {
    &&& h.len() == 60
    &&& h.subrange(0, 4) == "$2b$"@
    &&& h.subrange(4, 6) == digits_of(cost as nat)
    &&& h[6] == '$'
}

/// Relies on bcrypt::hash: a fresh random salt on each call, a result that bcrypt::verify
/// accepts for the same password, written in the 2b version's format.
#[verifier::external_body]
fn bcrypt_hash(password: &str, cost: u32) -> (r: Result<String, bcrypt::BcryptError>)
    requires
        10 <= cost <= 31,
    ensures
        r is Ok ==> bcrypt_verdict(password@, r->Ok_0@) == Some(true),
        r is Ok ==> bcrypt_form(r->Ok_0@, cost),
{
    bcrypt::hash(password, cost)
}

/// Relies on bcrypt::verify: a constant-time comparison that depends on the password and
/// the stored hash alone.
#[verifier::external_body]
fn bcrypt_verify(password: &str, hash: &str) -> (r: Result<bool, bcrypt::BcryptError>)
    ensures
        r is Ok <==> bcrypt_verdict(password@, hash@) is Some,
        r is Ok ==> bcrypt_verdict(password@, hash@) == Some(r->Ok_0),
{
    bcrypt::verify(password, hash)
}

/// Hashes a plaintext password with a fresh salt. The hash is accepted by
/// `verify_password` for the same plaintext.
pub fn hash_password(password: &str) -> (r: Result<String, AuthError>)
    ensures
        r is Ok ==> bcrypt_verdict(password@, r->Ok_0@) == Some(true),
        r is Ok ==> bcrypt_form(r->Ok_0@, HASH_COST),
        r is Err ==> r->Err_0 == AuthError::HashingFailure,
{
    match bcrypt_hash(password, HASH_COST) {
        Ok(h) => Ok(h),
        Err(_) => Err(AuthError::HashingFailure),
    }
}

/// The outcome of a verification, given what the hash function reported.
pub open spec fn verification_of(verdict: Option<bool>) -> Result<bool, AuthError> {
    match verdict {
        Some(b) => Ok(b),
        None => Err(AuthError::HashingFailure),
    }
}

/// Checks a plaintext password against a stored hash: `Ok(false)` on a mismatch,
/// `HashingFailure` on a stored hash that cannot be read.
pub fn verify_password(password: &str, hash: &str) -> (r: Result<bool, AuthError>)
    ensures
        r == verification_of(bcrypt_verdict(password@, hash@)),
{
    match bcrypt_verify(password, hash) {
        Ok(b) => Ok(b),
        Err(_) => Err(AuthError::HashingFailure),
    }
}

/// A hash made for a password verifies it: on any hash that `hash_password` returns for
/// `password`, `verify_password` with the same password returns `Ok(true)`.
pub proof fn hash_then_verify(password: Seq<char>, hash: Seq<char>)
    requires
        bcrypt_verdict(password, hash) == Some(true),
    ensures
        verification_of(bcrypt_verdict(password, hash)) == Ok::<bool, AuthError>(true),
{
}

}
