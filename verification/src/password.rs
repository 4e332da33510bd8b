//! Passwords: salted with the tracker's salt and hashed with bcrypt.

use vstd::prelude::*;
use crate::text::{joined, opens_with};

verus! {

/// The text every password is prefixed with before it is hashed.
pub open spec fn salt() -> Seq<char> {
    "bugtrack2025"@
}

/// A password as it is handed to bcrypt.
pub open spec fn salted(password: Seq<char>) -> Seq<char> {
    salt() + password
}

/// What `bcrypt::verify` answers for a password and a stored hash:
/// `Some(matches)`, or `None` where it fails (a hash it cannot read).
pub uninterp spec fn bcrypt_verify_outcome(password: Seq<char>, hash: Seq<char>) -> Option<bool>;

/// Calls `bcrypt::verify`. Trusted: the answer is `bcrypt_verify_outcome` of
/// the two texts, with an error as `None`.
#[verifier::external_body]
fn bcrypt_verify(password: &str, hash: &str) -> (r: Option<bool>)
    ensures
        r == bcrypt_verify_outcome(password@, hash@),
{
    match bcrypt::verify(password, hash) {
        Ok(b) => Some(b),
        Err(_) => None,
    }
}

/// The form of a bcrypt hash at cost 12: `$2b$12$`, then 22 characters of
/// salt and 31 of hash, 60 in all.
pub open spec fn bcrypt_hash_form(hash: Seq<char>) -> bool {
    hash.len() == 60 && opens_with(hash, "$2b$12$"@)
}

/// Calls `bcrypt::hash` at bcrypt's `DEFAULT_COST` (12), with a random salt,
/// and turns an error into its message. Trusted: a hash it returns is one
/// that `bcrypt::verify` accepts for the same password, written as version
/// `2b` at cost 12 with 22 characters of salt and 31 of hash. It fails only
/// where no random salt can be had (`BcryptError::Rand`, the cost being
/// allowed), so an error's message opens with `Rand error: `. Which hash it
/// is, and whether it fails, is not stated.
#[verifier::external_body]
fn bcrypt_hash(password: &str) -> (r: Result<String, String>)
    ensures
        r matches Ok(h) ==> bcrypt_verify_outcome(password@, h@) == Some(true),
        r matches Ok(h) ==> bcrypt_hash_form(h@),
        r matches Err(e) ==> opens_with(e@, "Rand error: "@),
{
    match bcrypt::hash(password, bcrypt::DEFAULT_COST) {
        Ok(h) => Ok(h),
        Err(e) => Err(e.to_string()),
    }
}

/// The stored hash accepts the password: bcrypt verifies the salted password
/// against it without error.
pub open spec fn password_accepted(password: Seq<char>, stored_hash: Seq<char>) -> bool {
    bcrypt_verify_outcome(salted(password), stored_hash) == Some(true)
}

/// The password with the tracker's salt in front.
pub fn salted_password(password: &str) -> (r: String)
    ensures
        r@ == salted(password@),
{
    joined("bugtrack2025", password)
}

/// Whether the password matches the stored hash; a hash bcrypt cannot read
/// matches nothing.
pub fn password_matches(password: &str, stored_hash: &str) -> (r: bool)
    ensures
        r == password_accepted(password@, stored_hash@),
{
    let s = salted_password(password);
    match bcrypt_verify(s.as_str(), stored_hash) {
        Some(b) => b,
        None => false,
    }
}

/// The hash to store for a new password, or bcrypt's error message, which
/// only a failure to draw a random salt gives.
pub fn hash_password(password: &str) -> (r: Result<String, String>)
    ensures
        r matches Ok(h) ==> password_accepted(password@, h@),
        r matches Ok(h) ==> bcrypt_hash_form(h@),
        r matches Err(e) ==> opens_with(e@, "Rand error: "@),
{
    let s = salted_password(password);
    bcrypt_hash(s.as_str())
}

} // verus!
