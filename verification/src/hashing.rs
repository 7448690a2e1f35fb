use argon2::PasswordHasher;
use argon2::PasswordVerifier;
use vstd::prelude::*;

use crate::password::Password;

verus! {

/// Whether the memory-hard hash verification accepts a password against a
/// stored hash string.  The judgement is the one argon2's `verify_password`
/// makes with the algorithm, version, parameters and salt read from the
/// hash string itself; it is a function of the two strings alone.
pub uninterp spec fn argon2_verifies(password: Seq<char>, hash: Seq<char>) -> bool;

/// The hashing service failed: either the presented password does not match
/// the stored hash, or the stored hash itself could not be used.
#[derive(Clone, Copy, Debug, PartialEq, Eq, Structural)]
pub enum HashingError {
    Mismatch,
    UnexpectedError,
}

/// Relies on `argon2::PasswordHash::new` and
/// `PasswordVerifier::verify_password` (argon2 0.5): deterministic in the
/// password and the hash string; a mismatch is reported as
/// `password_hash::Error::Password`, a hash that cannot be parsed or used as
/// any other error.
#[verifier::external_body]
fn argon2_check(password: &str, hash: &str) -> (r: Result<bool, ()>)
    ensures
        r matches Ok(b) ==> b == argon2_verifies(password@, hash@),
        r is Err ==> !argon2_verifies(password@, hash@),
{
    let parsed = match argon2::PasswordHash::new(hash) {
        Ok(h) => h,
        Err(_) => return Err(()),
    };
    match argon2::Argon2::default().verify_password(password.as_bytes(), &parsed) {
        Ok(()) => Ok(true),
        Err(argon2::password_hash::Error::Password) => Ok(false),
        Err(_) => Err(()),
    }
}

/// Relies on `argon2::Argon2::hash_password` with explicit Argon2id
/// parameters (memory 15000 KiB, 2 passes, 1 lane) and a salt drawn from
/// `rand::thread_rng`: the salt is random, so only the verification
/// round trip is promised — a hash it returns verifies against the password
/// it was computed from.
#[verifier::external_body]
fn argon2_hash(password: &str) -> (r: Result<String, ()>)
    ensures
        r matches Ok(h) ==> argon2_verifies(password@, h@),
{
    let salt = argon2::password_hash::SaltString::generate(&mut rand::thread_rng());
    let params = argon2::Params::new(15000, 2, 1, None).map_err(|_| ())?;
    let hasher = argon2::Argon2::new(argon2::Algorithm::Argon2id, argon2::Version::V0x13, params);
    match hasher.hash_password(password.as_bytes(), &salt) {
        Ok(h) => Ok(h.to_string()),
        Err(_) => Err(()),
    }
}

/// Computes the memory-hard salted hash of a password.  The call is
/// CPU-bound; callers on a request path dispatch it to a blocking pool.
/// Every hash it returns verifies against the password it was given.
pub fn compute_password_hash(password: &Password) -> (r: Result<String, HashingError>)
    ensures
        r matches Ok(h) ==> argon2_verifies(password@, h@),
        r is Err ==> r == Err::<String, HashingError>(HashingError::UnexpectedError),
{
    match argon2_hash(password.expose_secret().as_str()) {
        Ok(h) => Ok(h),
        Err(_) => Err(HashingError::UnexpectedError),
    }
}

/// Checks a password against a stored hash string.  Succeeds exactly when
/// the verification accepts the pair; a bad stored hash surfaces as
/// `UnexpectedError`, never as a mismatch.
pub fn verify_password_hash(password: &Password, hash: &str) -> (r: Result<(), HashingError>)
    ensures
        r is Ok <==> argon2_verifies(password@, hash@),
        r is Err ==> (r == Err::<(), HashingError>(HashingError::Mismatch) || r == Err::<
            (),
            HashingError,
        >(HashingError::UnexpectedError)),
{
    match argon2_check(password.expose_secret().as_str(), hash) {
        Ok(true) => Ok(()),
        Ok(false) => Err(HashingError::Mismatch),
        Err(_) => Err(HashingError::UnexpectedError),
    }
}

} // verus!
