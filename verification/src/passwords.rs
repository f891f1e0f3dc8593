//! Credential codec: salted one-way password hashing and verification,
//! built on the argon2 crate.

use vstd::prelude::*;
use argon2::Argon2;
use argon2::password_hash::PasswordHash;
use argon2::password_hash::PasswordHasher;
use argon2::password_hash::PasswordVerifier;
use argon2::password_hash::SaltString;
use argon2::password_hash::rand_core::OsRng;
use crate::types::HashError;

verus! {

/// Whether verification of `password` against the hash string `hash`
/// succeeds. Both the parse of the hash string and the recomputation of the
/// hash read every parameter (salt included) out of the string itself, so the
/// outcome is a function of the two arguments alone.
pub uninterp spec fn verifies(password: Seq<char>, hash: Seq<char>) -> bool;

/// Relies on argon2's `Argon2::hash_password` with a fresh random salt from
/// `OsRng`: on success the returned PHC string embeds the salt and all
/// parameters, and `Argon2::verify_password` recomputes the hash from exactly
/// those, so the string verifies against the password it was produced from.
/// A PHC string always begins with a `$` separator. The salt is drawn anew
/// on every call, so nothing more is promised of the string itself.
#[verifier::external_body]
pub fn hash_password_ret(password: &String) -> (r: Result<String, HashError>)
    ensures
        r matches Ok(h) ==> verifies(password@, h@) && h@.len() > 0 && h@[0] == '$',
{
    let salt = SaltString::generate(&mut OsRng);
    let argon = Argon2::default();
    match argon.hash_password(password.as_bytes(), &salt) {
        Ok(hash) => Ok(hash.to_string()),
        Err(_) => Err(HashError),
    }
}

/// Relies on argon2's `PasswordHash::new` and `Argon2::verify_password`:
/// parsing the PHC string and recomputing the hash from the salt and
/// parameters embedded in it are deterministic, so the outcome is exactly
/// `verifies` on the two arguments.
#[verifier::external_body]
pub fn verify_password(password: &str, hashed_password: &str) -> (r: Result<(), String>)
    ensures
        r is Ok <==> verifies(password@, hashed_password@),
{
    let parsed_hash = PasswordHash::new(hashed_password).map_err(
        |err| format!("Failed to parse hashed password: {}", err),
    )?;
    Argon2::default().verify_password(password.as_bytes(), &parsed_hash).map_err(
        |err| format!("Password verification failed: {}", err),
    )
}

/// Hashes a password in place: on success the plaintext in `password` is
/// replaced by the returned hash, so the plaintext is not kept around.
pub fn hash_password(password: &mut String) -> (r: Result<String, HashError>)
    ensures
        match r {
            Ok(h) => verifies(old(password)@, h@) && final(password)@ == h@ && h@.len() > 0
                && h@[0] == '$',
            Err(e) => e == HashError && final(password)@ == old(password)@,
        },
{
    match hash_password_ret(&*password) {
        Ok(h) => {
            *password = h.clone();
            Ok(h)
        },
        Err(e) => Err(e),
    }
}

/// A hash string begins with `$`, so a plaintext that does not begin with
/// `$` is never textually equal to a hash of anything.
pub proof fn lemma_hash_differs_from_plaintext(p: Seq<char>, h: Seq<char>)
    requires
        h.len() > 0,
        h[0] == '$',
        p.len() == 0 || p[0] != '$',
    ensures
        p != h,
{
}

} // verus!
