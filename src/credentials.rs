use vstd::prelude::*;
use crate::error::{AuthError, HashError};

verus! {

/// What `bcrypt::verify` answers for a password and a stored hash: `Some(matches)`,
/// or `None` where the hash is not well formed.
pub uninterp spec fn bcrypt_verdict(password: Seq<char>, hash: Seq<char>) -> Option<bool>;

/// `hash` is a hash of `secret`: checking `secret` against it succeeds.
pub open spec fn hashes_secret(secret: Seq<char>, hash: Seq<char>) -> bool {
    bcrypt_verdict(secret, hash) == Some(true)
}

/// The result of checking `secret` against `hash`.
pub open spec fn verify_result(secret: Seq<char>, hash: Seq<char>) -> Result<bool, HashError> {
    match bcrypt_verdict(secret, hash) {
        Some(b) => Ok(b),
        None => Err(HashError::Failed),
    }
}

/// The outcome of a login for a verdict on the stored hash.
pub open spec fn verdict_outcome_spec(v: Result<bool, HashError>) -> Result<(), AuthError> {
    match v {
        Ok(true) => Ok(()),
        Ok(false) => Err(AuthError::InvalidCredentials),
        Err(_) => Err(AuthError::Hashing),
    }
}

/// Start of every hash made here: bcrypt version `2b` at cost 12.
pub open spec fn hash_prefix() -> Seq<char> {
    "$2b$12$"@
}

/// Relies on `bcrypt::hash` at `bcrypt::DEFAULT_COST` (12): each call draws a fresh
/// salt; the 60-character result is written as `$2b$12$` followed by the salt and
/// digest, and is accepted by `bcrypt::verify` for the same password (both hash
/// the password with the cost and salt written in the result).
#[verifier::external_body]
fn bcrypt_hash(password: &str) -> (r: Option<String>)
    ensures
        r matches Some(h) ==> h@.len() == 60 && h@.subrange(0, 7) == hash_prefix() && hashes_secret(
            password@,
            h@,
        ),
{
    bcrypt::hash(password, bcrypt::DEFAULT_COST).ok()
}

/// Relies on `bcrypt::verify`: its answer depends on the password and the hash alone,
/// and it fails, without panicking, on a hash that is not well formed; in
/// particular on one that is not 60 ASCII characters.
#[verifier::external_body]
fn bcrypt_verify(password: &str, hash: &str) -> (r: Option<bool>)
    ensures
        r == bcrypt_verdict(password@, hash@),
        hash@.len() != 60 ==> r is None,
{
    bcrypt::verify(password, hash).ok()
}

/// Hashes a secret with a fresh salt; the result verifies against the secret.
pub fn hash_str(plain_text: &String) -> (r: Result<String, HashError>)
    ensures
        r matches Ok(h) ==> hashes_secret(plain_text@, h@) && h@.len() == 60 && h@.subrange(0, 7)
            == hash_prefix(),
{
    match bcrypt_hash(plain_text.as_str()) {
        Some(h) => Ok(h),
        None => Err(HashError::Failed),
    }
}

/// Checks a secret against a stored hash: `Ok(false)` on a mismatch, an error only
/// where the stored hash is not well formed.
pub fn verify_secret(secret: &str, stored_hash: &str) -> (r: Result<bool, HashError>)
    ensures
        r == verify_result(secret@, stored_hash@),
        stored_hash@.len() != 60 ==> r == Err::<bool, HashError>(HashError::Failed),
{
    match bcrypt_verify(secret, stored_hash) {
        Some(b) => Ok(b),
        None => Err(HashError::Failed),
    }
}

/// Turns a verdict on the stored hash into the outcome of a login.
pub fn verdict_outcome(v: Result<bool, HashError>) -> (r: Result<(), AuthError>)
    ensures
        r == verdict_outcome_spec(v),
{
    match v {
        Ok(true) => Ok(()),
        Ok(false) => Err(AuthError::InvalidCredentials),
        Err(_) => Err(AuthError::Hashing),
    }
}

/// Status text of the hash endpoint for what hashing gave: `"Empty"` when there
/// was no input, `"OK"` once hashed, `"Not OK"` when hashing failed.
pub fn hash_status(hashed: Option<Result<String, HashError>>) -> (r: &'static str)
    ensures
        hashed is None ==> r@ == "Empty"@,
        hashed matches Some(h) && h is Ok ==> r@ == "OK"@,
        hashed matches Some(h) && h is Err ==> r@ == "Not OK"@,
{
    proof {
        reveal_strlit("Empty");
        reveal_strlit("OK");
        reveal_strlit("Not OK");
    }
    match hashed {
        None => "Empty",
        Some(Ok(_)) => "OK",
        Some(Err(_)) => "Not OK",
    }
}

/// The hash endpoint: hashes the input, where there is one, and reports how that
/// went (see `hash_status`).
pub fn get_hash(plain: Option<&String>) -> (r: &'static str)
    ensures
        plain is None ==> r@ == "Empty"@,
        plain is Some ==> (r@ == "OK"@ || r@ == "Not OK"@),
{
    let hashed = match plain {
        None => None,
        Some(p) => Some(hash_str(p)),
    };
    hash_status(hashed)
}

/// A secret always verifies against a hash made of it.
pub proof fn lemma_hash_then_verify(secret: Seq<char>, hash: Seq<char>)
    requires
        hashes_secret(secret, hash),
    ensures
        verify_result(secret, hash) == Ok::<bool, HashError>(true),
        verdict_outcome_spec(verify_result(secret, hash)) == Ok::<(), AuthError>(()),
{
}

} // verus!
