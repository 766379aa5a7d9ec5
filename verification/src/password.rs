//! Password hashing and verification.
//!
//! Hashing uses a memory-hard algorithm (Argon2id) with a fresh random salt
//! per call; the salt and the cost parameters are embedded in the returned
//! digest, so verification needs nothing but the password and the digest.
//! Whether a password matches a digest is a deterministic function of the
//! two, named by [`digest_matches`]; what a digest for a given password
//! looks like depends on the random salt, so `hash_password` promises only
//! what holds of every salt: the digest it returns matches the password it
//! was made from.

use argon2::password_hash::rand_core::OsRng;
use argon2::password_hash::{PasswordHash, PasswordHasher, PasswordVerifier, SaltString};
use vstd::prelude::*;

verus! {

/// Whatever `argon2::Argon2::verify_password` decides for this password and
/// digest: it recomputes the hash with the algorithm, parameters and salt
/// embedded in the digest and compares in constant time, so the outcome
/// depends on the two arguments alone. A digest that does not parse never
/// matches.
pub uninterp spec fn digest_matches(password: Seq<char>, digest: Seq<char>) -> bool;

/// The most characters a password handed to `hash_password` may have. Argon2
/// rejects passwords over `u32::MAX` bytes; a character is at most four
/// UTF-8 bytes, so this bound keeps every password under that limit.
pub const PASSWORD_CHAR_LIMIT: usize = 0x3FFF_FFFF;

/// Relies on argon2's `Argon2::hash_password` (Argon2id, default parameters)
/// with a salt freshly drawn from the operating-system generator. The digest
/// is a PHC string carrying algorithm, version, parameters, salt and hash;
/// `verify_password` on that string recomputes the same hash, so the digest
/// matches the password it was made from, whatever the salt. Hashing fails
/// only on passwords over `u32::MAX` bytes, which the precondition rules
/// out.
#[verifier::external_body]
pub fn hash_password(password: &String) -> (digest: String)
    requires
        password@.len() <= PASSWORD_CHAR_LIMIT,
    ensures
        digest_matches(password@, digest@),
{
    let salt = SaltString::generate(&mut OsRng);
    argon2::Argon2::default().hash_password(password.as_bytes(), &salt).unwrap().to_string()
}

/// Relies on argon2's `Argon2::verify_password`: recomputes the hash with
/// the salt and parameters embedded in the digest and compares in constant
/// time, a deterministic function of password and digest. A digest that
/// `PasswordHash::new` cannot parse is reported as not matching, never as an
/// error.
#[verifier::external_body]
pub fn verify_digest(password: &String, digest: &String) -> (r: bool)
    ensures
        r == digest_matches(password@, digest@),
{
    match PasswordHash::new(digest.as_str()) {
        Ok(parsed) => {
            argon2::Argon2::default().verify_password(password.as_bytes(), &parsed).is_ok()
        },
        Err(_) => false,
    }
}

/// For every password within the length limit, a digest freshly produced by
/// [`hash_password`] is accepted by [`verify_digest`] for that same
/// password.
pub fn hash_round_trip(password: &String) -> (r: bool)
    requires
        password@.len() <= PASSWORD_CHAR_LIMIT,
    ensures
        r,
{
    let digest = hash_password(password);
    verify_digest(password, &digest)
}

} // verus!
