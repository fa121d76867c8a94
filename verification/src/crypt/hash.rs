//! Password hashing.

use crate::errors::{AppError, AppErrorType, AppErrorView, ErrorKind};
use vstd::prelude::*;
use vstd::string::StringExecFns;

verus! {

/// The cost at which passwords are hashed.
pub const HASH_COST: u32 = 10;

/// The length of a bcrypt hash in its textual form.
pub const HASH_LEN: usize = 60;

/// What `bcrypt::verify` returns for a password and a hash: whether they
/// match, or the text of the error.
pub uninterp spec fn bcrypt_verdict(password: Seq<char>, hash: Seq<char>) -> Result<
    bool,
    Seq<char>,
>;

/// Whether the hash is one that the password verifies against.
pub open spec fn hash_matches(password: Seq<char>, hash: Seq<char>) -> bool {
    bcrypt_verdict(password, hash) == Ok::<bool, Seq<char>>(true)
}

/// The outcome of a comparison, with its error as a sequence of characters.
pub open spec fn outcome_view(outcome: Result<bool, String>) -> Result<bool, Seq<char>> {
    match outcome {
        Ok(b) => Ok(b),
        Err(cause) => Err(cause@),
    }
}

/// `bcrypt::hash`: hashes the password under a fresh random salt. Whether it
/// succeeds depends on the system's source of randomness. A hash it returns
/// has 60 characters, starts with the version tag `$2b$`, and is one that
/// `bcrypt::verify` accepts for the same password.
#[verifier::external_body]
fn bcrypt_hash(password: &str, cost: u32) -> (r: Result<String, String>)
    ensures
        r matches Ok(h) ==> h@.len() == HASH_LEN && h@.subrange(0, 4) == "$2b$"@ && hash_matches(
            password@,
            h@,
        ),
{
    bcrypt::hash(password, cost).map_err(|e| e.to_string())
}

/// `bcrypt::verify`. The contract only names the result, with the error
/// given as text.
#[verifier::external_body]
fn bcrypt_verify(password: &str, hash: &str) -> (r: Result<bool, String>)
    ensures
        outcome_view(r) == bcrypt_verdict(password@, hash@),
{
    bcrypt::verify(password, hash).map_err(|e| e.to_string())
}

/// The error for a password that could not be hashed.
pub open spec fn hashing_failure(cause: Seq<char>) -> AppErrorView {
    AppErrorView { message: "Hash password error"@, kind: ErrorKind::Encoding(cause) }
}

/// What checking a password returns, given what the comparison returned.
pub open spec fn verdict_result(outcome: Result<bool, Seq<char>>) -> Result<(), AppErrorView> {
    match outcome {
        Ok(true) => Ok(()),
        Ok(false) => Err(
            AppErrorView { message: "Password does not match."@, kind: ErrorKind::PasswordWrong },
        ),
        Err(cause) => Err(
            AppErrorView { message: "Encryption error."@, kind: ErrorKind::Encoding(cause) },
        ),
    }
}

/// The view of the result of a password check.
pub open spec fn check_view(r: Result<(), AppError>) -> Result<(), AppErrorView> {
    match r {
        Ok(()) => Ok(()),
        Err(e) => Err(e@),
    }
}

/// Turns the outcome of hashing into the library's result.
pub fn hash_outcome(outcome: Result<String, String>) -> (r: Result<String, AppError>)
    ensures
        match outcome {
            Ok(h) => r matches Ok(s) && s@ == h@,
            Err(cause) => r matches Err(e) && e@ == hashing_failure(cause@),
        },
{
    match outcome {
        Ok(h) => Ok(h),
        Err(cause) => Err(
            AppError::new(
                String::from_str("Hash password error"),
                AppErrorType::EncodingError(cause),
            ),
        ),
    }
}

/// Hashes a password under a fresh salt. A hash that comes back matches the
/// password; an error is always the hashing failure.
pub fn hash_password(password: String) -> (r: Result<String, AppError>)
    ensures
        match r {
            Ok(h) => h@.len() == HASH_LEN && hash_matches(password@, h@),
            Err(e) => exists|cause: Seq<char>| e@ == hashing_failure(cause),
        },
{
    let outcome = bcrypt_hash(password.as_str(), HASH_COST);
    hash_outcome(outcome)
}

/// Turns the outcome of comparing a password with a hash into the library's
/// result: a match passes, a mismatch is a wrong password, and a failure of
/// the comparison itself is an encoding error.
pub fn password_verdict(outcome: Result<bool, String>) -> (r: Result<(), AppError>)
    ensures
        check_view(r) == verdict_result(outcome_view(outcome)),
{
    match outcome {
        Err(cause) => Err(
            AppError::new(
                String::from_str("Encryption error."),
                AppErrorType::EncodingError(cause),
            ),
        ),
        Ok(true) => Ok(()),
        Ok(false) => Err(
            AppError::new(
                String::from_str("Password does not match."),
                AppErrorType::PasswordWrongError,
            ),
        ),
    }
}

/// Checks a password against a stored hash.
pub fn verify_password(password: &str, hash: &str) -> (r: Result<(), AppError>)
    ensures
        check_view(r) == verdict_result(bcrypt_verdict(password@, hash@)),
{
    let outcome = bcrypt_verify(password, hash);
    password_verdict(outcome)
}

} // verus!
