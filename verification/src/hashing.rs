use vstd::prelude::*;
use crate::error::HashingError;

verus! {

/// The error type of the bcrypt crate.
#[verifier::external_type_specification]
#[verifier::external_body]
pub struct ExBcryptError(bcrypt::BcryptError);

/// What `bcrypt::verify` answers for a password and a stored hash: `None`
/// when it reports an error (the hash is malformed or names a cost outside
/// the allowed range), otherwise whether the password fits the hash.
pub uninterp spec fn bcrypt_verdict(password: Seq<char>, hash: Seq<char>) -> Option<bool>;

/// A password fits a stored hash when bcrypt says so; a hash that bcrypt
/// cannot read fits no password.
pub open spec fn password_matches(password: Seq<char>, hash: Seq<char>) -> bool {
    bcrypt_verdict(password, hash) == Some(true)
}

/// Calls `bcrypt::hash` with the crate's default cost. The salt is drawn at
/// random, so little is said of the text of the hash: it is the 60
/// characters that bcrypt writes whatever the password, and `bcrypt::verify`
/// accepts the same password against it, since it reads cost and salt back
/// from the hash and recomputes.
#[verifier::external_body]
fn bcrypt_hash(password: &str) -> (outcome: Result<String, bcrypt::BcryptError>)
    ensures
        outcome matches Ok(hash) ==> hash@.len() == 60 && bcrypt_verdict(password@, hash@)
            == Some(true),
{
    bcrypt::hash(password, bcrypt::DEFAULT_COST)
}

/// Calls `bcrypt::verify`, whose answer depends on the two texts alone.
#[verifier::external_body]
fn bcrypt_verify(password: &str, hash: &str) -> (outcome: Result<bool, bcrypt::BcryptError>)
    ensures
        match outcome {
            Ok(fits) => bcrypt_verdict(password@, hash@) == Some(fits),
            Err(_) => bcrypt_verdict(password@, hash@) is None,
        },
{
    bcrypt::verify(password, hash)
}

/// What is made of the hashing backend's answer: its hash, or the one
/// failure that callers get to see.
pub fn hashed_or_failure(outcome: Result<String, bcrypt::BcryptError>) -> (result: Result<
    String,
    HashingError,
>)
    ensures
        match outcome {
            Ok(hash) => result == Ok::<String, HashingError>(hash),
            Err(_) => result == Err::<String, HashingError>(HashingError::Backend),
        },
{
    match outcome {
        Ok(hash) => Ok(hash),
        Err(_) => Err(HashingError::Backend),
    }
}

/// What is made of the verifying backend's answer: only a clear yes counts.
/// A mismatch and an unreadable hash look the same from outside.
pub fn accepted(outcome: Result<bool, bcrypt::BcryptError>) -> (yes: bool)
    ensures
        yes == (outcome matches Ok(fits) && fits),
{
    match outcome {
        Ok(fits) => fits,
        Err(_) => false,
    }
}

/// Hashes a password with a fresh random salt. Whatever hash comes back, it
/// is 60 characters long and `verify_password` accepts the same password
/// against it.
pub fn hash_password(password: &str) -> (result: Result<String, HashingError>)
    ensures
        result matches Ok(hash) ==> hash@.len() == 60 && password_matches(password@, hash@),
        result matches Err(e) ==> e == HashingError::Backend,
{
    hashed_or_failure(bcrypt_hash(password))
}

/// Tells whether a password fits a stored hash. Never fails: a hash that
/// cannot be read gives `false`, as a wrong password does.
pub fn verify_password(password: &str, hash: &str) -> (fits: bool)
    ensures
        fits == password_matches(password@, hash@),
{
    accepted(bcrypt_verify(password, hash))
}

} // verus!
