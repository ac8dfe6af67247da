//! One-way password hashing and verification, done by Argon2.
//!
//! The hashing itself is the work of the `argon2` crate and is not proved
//! here. This module states what the rest of the library relies on: a
//! password is hashed under a salt drawn for that call, the hash that comes
//! back matches the password it was made from, and a stored hash that cannot
//! be read or does not match is never accepted. A stored hash reaches Argon2
//! only after the parallelism written in it has been found within bounds.

use vstd::prelude::*;
use argon2::password_hash::rand_core::OsRng;
use argon2::password_hash::{Error, PasswordHash, PasswordHasher, PasswordVerifier, SaltString};
use argon2::Argon2;
use crate::phc::{parallelism_in_bounds, parallelism_is_bounded};

verus! {

/// `password_hash::Error`: why Argon2 could not hash, or did not accept.
#[verifier::external_type_specification]
#[verifier::external_body]
pub struct ExPasswordHashError(argon2::password_hash::Error);

/// What Argon2, with its default parameters, makes of `password` under
/// `salt`, the salt being given in its B64 text: the hash as a PHC string, or
/// nothing where the salt does not parse or Argon2 refuses the input.
pub uninterp spec fn argon2_phc(password: Seq<char>, salt: Seq<char>) -> Option<Seq<char>>;

/// Whether Argon2 accepts `password` for `stored_hash`: the stored text
/// parses as a PHC string and the hash recomputed from the password, with the
/// salt and cost parameters found in that string, equals the one it holds.
/// It says nothing of a text whose parallelism is out of bounds: Argon2 is
/// never asked about one.
pub uninterp spec fn hash_accepts(password: Seq<char>, stored_hash: Seq<char>) -> bool;

/// Whether `stored_hash` is a hash of `password`: every parallelism written
/// in it is within bounds and Argon2 accepts the password for it.
pub open spec fn password_matches(password: Seq<char>, stored_hash: Seq<char>) -> bool {
    parallelism_in_bounds(stored_hash) && hash_accepts(password, stored_hash)
}

/// What is handed out of what Argon2 made: the hash, if it can be verified
/// later, that is, if every parallelism written in it is within bounds.
pub open spec fn verifiable(made: Option<Seq<char>>) -> Option<Seq<char>> {
    match made {
        Some(hash) => if parallelism_in_bounds(hash) {
            Some(hash)
        } else {
            None
        },
        None => None,
    }
}

/// The password could not be hashed.
#[derive(Debug, Clone, Copy, PartialEq, Eq, Structural)]
pub struct HashFailure;

/// The text of a hashing outcome, if it is a hash.
pub open spec fn hash_text(outcome: Result<String, HashFailure>) -> Option<Seq<char>> {
    match outcome {
        Ok(hash) => Some(hash@),
        Err(_) => None,
    }
}

/// Calls `SaltString::generate` on the operating system's random source and
/// hands the salt out in its B64 text. Nothing is claimed of the salt: every
/// call draws a new one.
#[verifier::external_body]
fn fresh_salt() -> (salt: String) {
    SaltString::generate(&mut OsRng).as_str().to_owned()
}

/// Reads the salt with `SaltString::from_b64`, calls
/// `Argon2::default().hash_password` and renders the result as a PHC string.
/// The outcome is a function of password and salt, so it is named. Of a
/// hash that is returned, the claim is the one the crate documents for
/// hashing followed by verifying: it is accepted for the same password.
#[verifier::external_body]
fn argon2_hash(password: &str, salt: &str) -> (outcome: Result<String, Error>)
    ensures
        match outcome {
            Ok(hash) => argon2_phc(password@, salt@) == Some(hash@) && hash_accepts(
                password@,
                hash@,
            ),
            Err(_) => argon2_phc(password@, salt@) is None,
        },
{
    let salt = SaltString::from_b64(salt)?;
    Ok(Argon2::default().hash_password(password.as_bytes(), &salt)?.to_string())
}

/// Parses the stored text with `PasswordHash::new` and calls
/// `Argon2::default().verify_password` on it. The result is `Ok` exactly when
/// Argon2 accepts; a text that does not parse is an error of the first call.
/// A text with a parallelism of 2^29 or more is left out: on it Argon2's
/// `Params::new` overflows while it multiplies by eight. Time and memory of
/// the call grow with the other cost parameters written in the stored text.
#[verifier::external_body]
fn argon2_verify(password: &str, stored_hash: &str) -> (verdict: Result<(), Error>)
    requires
        parallelism_in_bounds(stored_hash@),
    ensures
        verdict is Ok <==> hash_accepts(password@, stored_hash@),
{
    let parsed = PasswordHash::new(stored_hash)?;
    Argon2::default().verify_password(password.as_bytes(), &parsed)
}

/// What hashing returns for each outcome of Argon2: the hash, or the
/// library's own error.
pub fn hashed(outcome: Result<String, Error>) -> (hash: Result<String, HashFailure>)
    ensures
        match outcome {
            Ok(h) => hash == Ok::<String, HashFailure>(h),
            Err(_) => hash == Err::<String, HashFailure>(HashFailure),
        },
{
    match outcome {
        Ok(h) => Ok(h),
        Err(_) => Err(HashFailure),
    }
}

/// What verification returns for each outcome of Argon2. Every error, a
/// malformed stored hash among them, is a refusal.
pub fn accepted(verdict: Result<(), Error>) -> (ok: bool)
    ensures
        ok == verdict is Ok,
{
    match verdict {
        Ok(_) => true,
        Err(_) => false,
    }
}

/// Hashes a password under the given salt, a salt in its B64 text. The
/// result is Argon2's for this password and this salt, and nothing else
/// enters it: the same two texts always give the same outcome. A hash is
/// handed out only if it can be verified later, and it then matches this
/// password.
pub fn hash_with_salt(password: &str, salt: &str) -> (hash: Result<String, HashFailure>)
    ensures
        hash_text(hash) == verifiable(argon2_phc(password@, salt@)),
        hash matches Ok(h) ==> password_matches(password@, h@),
{
    match hashed(argon2_hash(password, salt)) {
        Ok(hash) => if parallelism_is_bounded(hash.as_str()) {
            Ok(hash)
        } else {
            Err(HashFailure)
        },
        Err(failure) => Err(failure),
    }
}

/// Hashes a password under a salt drawn for this call. The result is
/// Argon2's for this password and that salt; it fails only where Argon2
/// does or where the hash could not be verified later. The hash carries
/// algorithm, cost parameters and salt, so it can be verified with no other
/// state, and it matches this password.
pub fn hash_password(password: String) -> (hash: Result<String, HashFailure>)
    ensures
        exists|salt: Seq<char>|
            hash_text(hash) == verifiable(#[trigger] argon2_phc(password@, salt)),
        hash matches Ok(h) ==> password_matches(password@, h@),
{
    let salt = fresh_salt();
    let hash = hash_with_salt(password.as_str(), salt.as_str());
    assert(hash_text(hash) == verifiable(argon2_phc(password@, salt@)));
    hash
}

/// Whether `stored_hash` is a hash of `password`. Fails closed: a stored
/// hash that is corrupt is refused, and one whose parallelism is out of
/// bounds is refused without being handed to Argon2.
pub fn verify_password(password: &str, stored_hash: &str) -> (ok: bool)
    ensures
        ok == password_matches(password@, stored_hash@),
{
    if parallelism_is_bounded(stored_hash) {
        accepted(argon2_verify(password, stored_hash))
    } else {
        false
    }
}

} // verus!
