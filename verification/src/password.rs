//! Password hashing and verification, delegated to argon2. The library
//! never states what a hash looks like; it names the verification relation
//! and promises only what argon2's own documentation gives.
use vstd::prelude::*;

use argon2::{Argon2, PasswordHash, PasswordHasher, PasswordVerifier};

verus! {

/// Whether argon2's verification accepts `password` against the PHC hash
/// string `hash`. Verification recomputes the hash with the salt and
/// parameters stored in the string and compares, so the answer is a
/// function of the two texts alone.
pub uninterp spec fn password_matches(password: Seq<char>, hash: Seq<char>) -> bool;

#[verifier::external_type_specification]
#[verifier::external_body]
pub struct ExPasswordHashError(argon2::password_hash::Error);

/// The struct that groups the password operations.
pub struct PasswordHashing;

impl PasswordHashing {
    /// Hashes a password under a fresh random salt, rendered as a PHC
    /// string.
    ///
    /// Relies on argon2's `PasswordHasher::hash_password`: a hash it
    /// produces verifies against the password it was computed from. The
    /// salt is drawn at random, so nothing else is promised of the string.
    #[verifier::external_body]
    pub fn hash_password(password: &str) -> (r: Result<String, argon2::password_hash::Error>)
        ensures
            r matches Ok(h) ==> password_matches(password@, h@),
    {
        let hasher = Argon2::default();
        match PasswordHasher::<PasswordHash>::hash_password(&hasher, password.as_bytes()) {
            Ok(h) => Ok(h.to_string()),
            Err(e) => Err(e),
        }
    }

    /// Checks a password against a stored PHC hash string; an unparsable
    /// string verifies as false — in particular an empty one, which the
    /// PHC parser always refuses.
    ///
    /// Relies on argon2's `PasswordVerifier::verify_password`: it
    /// recomputes the hash with the salt and parameters stored in the
    /// string and compares, a function of the two texts alone.
    #[verifier::external_body]
    pub fn verify_password(password: &str, hashed: &str) -> (r: bool)
        ensures
            r == password_matches(password@, hashed@),
            hashed@.len() == 0 ==> !r,
    {
        let verifier = Argon2::default();
        PasswordVerifier::<str>::verify_password(&verifier, password.as_bytes(), hashed).is_ok()
    }
}

} // verus!
