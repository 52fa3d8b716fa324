//! The PIN that guards backups and destructive actions.
use vstd::prelude::*;

use crate::error::{AppError, AppErrorView};

verus! {

/// `bcrypt`'s error type, carried through as it is.
#[verifier::external_type_specification]
#[verifier::external_body]
pub struct ExBcryptError(bcrypt::BcryptError);

/// What `bcrypt::verify(password, hash)` answers: whether the password
/// matches, or `None` for an error (a malformed hash).
pub uninterp spec fn bcrypt_verify_result(password: Seq<char>, hash: Seq<char>) -> Option<bool>;

/// `bcrypt::hash(pin, DEFAULT_COST)`. Trusted: the salt is random, so the
/// hash itself is left unsaid; but a hash it returns verifies against the same
/// PIN (`verify` re-hashes the PIN with the salt and cost read back from the
/// hash, as `_verify` and `split_hash` show).
#[verifier::external_body]
fn bcrypt_hash(pin: &str) -> (r: Result<String, bcrypt::BcryptError>)
    ensures
        r is Ok ==> bcrypt_verify_result(pin@, r->Ok_0@) == Some(true),
{
    bcrypt::hash(pin, bcrypt::DEFAULT_COST)
}

/// `bcrypt::verify(pin, hash)`. Trusted: the result is the named
/// `bcrypt_verify_result` (a function of the PIN and of the hash, which
/// carries its own salt and cost).
#[verifier::external_body]
fn bcrypt_verify(pin: &str, hash: &str) -> (r: Result<bool, bcrypt::BcryptError>)
    ensures
        r is Ok ==> bcrypt_verify_result(pin@, hash@) == Some(r->Ok_0),
        r is Err ==> bcrypt_verify_result(pin@, hash@) is None,
{
    bcrypt::verify(pin, hash)
}

/// The message of a bcrypt error (its `Display` text). Nothing is stated of it.
#[verifier::external_body]
fn bcrypt_error_text(e: &bcrypt::BcryptError) -> (r: String) {
    e.to_string()
}

/// Whether `pin` matches the stored hash: no hash means no match, and a
/// malformed hash is an error.
pub open spec fn pin_matches_spec(pin: Seq<char>, stored: Option<Seq<char>>) -> Option<bool> {
    match stored {
        None => Some(false),
        Some(h) => bcrypt_verify_result(pin, h),
    }
}

/// PIN hashing and checking.
pub struct SettingsRepo;

/// The settings key the PIN hash is stored under.
pub const KEY_PIN_HASH: &'static str = "pin_hash";

impl SettingsRepo {
    /// A salted hash of `pin`, to be stored; checking the same PIN against it
    /// answers `true`.
    pub fn hash_pin(pin: &str) -> (r: Result<String, AppError>)
        ensures
            r matches Ok(h) ==> pin_matches_spec(pin@, Some(h@)) == Some(true),
            r matches Err(e) ==> e@ is Validation,
    {
        match bcrypt_hash(pin) {
            Ok(h) => Ok(h),
            Err(e) => Err(AppError::Validation(bcrypt_error_text(&e))),
        }
    }

    /// Whether `pin` matches the stored hash (`None`: no PIN is set).
    pub fn check_pin(pin: &str, stored: Option<String>) -> (r: Result<bool, AppError>)
        ensures
            match pin_matches_spec(pin@, match stored {
                Some(h) => Some(h@),
                None => None,
            }) {
                Some(b) => r == Ok::<bool, AppError>(b),
                None => r matches Err(e) && e@ is Validation,
            },
    {
        match stored {
            None => Ok(false),
            Some(h) => match bcrypt_verify(pin, h.as_str()) {
                Ok(b) => Ok(b),
                Err(e) => Err(AppError::Validation(bcrypt_error_text(&e))),
            },
        }
    }
}

} // verus!
