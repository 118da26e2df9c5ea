//! Passwords: hashing with a fresh salt, and checking against a stored hash.

use argon2::password_hash::rand_core::OsRng;
use argon2::password_hash::{PasswordHash, PasswordHasher, PasswordVerifier, SaltString};
use argon2::Argon2;
use vstd::prelude::*;
use vstd::utf8::encode_utf8;

verus! {

/// The error type of the password hashing crate.
#[verifier::external_type_specification]
#[verifier::external_body]
pub struct ExPasswordHashError(argon2::password_hash::Error);

/// Whether a text parses as a password hash in the PHC string format, as
/// `PasswordHash::new` decides it.
pub uninterp spec fn phc_parses(hash: Seq<char>) -> bool;

/// Whether Argon2 with default settings, run on the password with the salt
/// and parameters that the parsed hash carries, gives the output that the
/// hash carries: what `verify_password` decides.
pub uninterp spec fn argon2_matches(password: Seq<u8>, hash: Seq<char>) -> bool;

/// Whether Argon2 with default settings hashes the password with the salt,
/// given as the text that a password hash carries: what `hash_password`
/// decides, after `SaltString::from_b64` has taken the text as a salt. It
/// does not where the text is no salt or the password is longer than Argon2
/// takes.
pub uninterp spec fn argon2_hashes(password: Seq<u8>, salt: Seq<char>) -> bool;

/// Why a password could not be hashed or checked.
#[derive(Debug, Clone, Copy, PartialEq, Eq, Structural)]
pub enum CredentialError {
    /// The hash function itself failed.
    Hashing,
    /// The stored hash is not a hash at all.
    MalformedHash,
}

/// A stored hash accepts a password.
pub open spec fn accepts(hash: Seq<char>, password: Seq<char>) -> bool {
    phc_parses(hash) && argon2_matches(encode_utf8(password), hash)
}

/// `SaltString::generate` of password-hash with the operating system's random
/// source, and the salt as its text: a fresh salt. Nothing is claimed of its
/// value.
#[verifier::external_body]
fn fresh_salt() -> (salt: String) {
    SaltString::generate(&mut OsRng).as_str().to_owned()
}

/// `SaltString::from_b64` of password-hash on the salt's text, then
/// `Argon2::default().hash_password` of argon2, and the hash written as a
/// PHC string. Whether it succeeds depends on the password and the salt
/// alone. Where it succeeds the string names the algorithm `argon2id`
/// first, parses again, and matches the password it was made from: checking
/// recomputes the same function with the salt and parameters in the string.
#[verifier::external_body]
fn argon2_hash(password: &[u8], salt: &str) -> (r: Result<String, argon2::password_hash::Error>)
    ensures
        r is Ok <==> argon2_hashes(password@, salt@),
        r matches Ok(hash) ==> {
            &&& "$argon2id$"@.is_prefix_of(hash@)
            &&& phc_parses(hash@)
            &&& argon2_matches(password@, hash@)
        },
{
    let salt = SaltString::from_b64(salt)?;
    match Argon2::default().hash_password(password, &salt) {
        Ok(hash) => Ok(hash.to_string()),
        Err(e) => Err(e),
    }
}

/// `PasswordHash::new` of password-hash followed by
/// `Argon2::default().verify_password` of argon2: an error where the text is
/// no PHC string, else whether the password matches.
#[verifier::external_body]
fn argon2_verify(password: &[u8], hash: &str) -> (r: Result<bool, argon2::password_hash::Error>)
    ensures
        r is Ok <==> phc_parses(hash@),
        r matches Ok(matched) ==> matched == argon2_matches(password@, hash@),
{
    match PasswordHash::new(hash) {
        Ok(parsed) => Ok(Argon2::default().verify_password(password, &parsed).is_ok()),
        Err(e) => Err(e),
    }
}

/// Hashes a password with the given salt. It succeeds exactly where Argon2
/// hashes the password with that salt. The hash describes itself: it names
/// the algorithm and carries parameters and salt, so checking needs nothing
/// else; it accepts the password it was made from.
pub fn hash_password_with_salt(password: &str, salt: &str) -> (r: Result<String, CredentialError>)
    ensures
        r is Ok <==> argon2_hashes(encode_utf8(password@), salt@),
        r matches Ok(hash) ==> "$argon2id$"@.is_prefix_of(hash@) && accepts(hash@, password@),
        r matches Err(e) ==> e == CredentialError::Hashing,
{
    match argon2_hash(password.as_bytes(), salt) {
        Ok(hash) => Ok(hash),
        Err(_) => Err(CredentialError::Hashing),
    }
}

/// The password was hashed, or was not, as Argon2 decides for some salt:
/// the hashing fails only where Argon2 itself refuses the password with the
/// salt that was drawn.
pub open spec fn hashed_with_some_salt(password: Seq<char>, hashed: bool) -> bool {
    exists|salt: Seq<char>| hashed == #[trigger] argon2_hashes(encode_utf8(password), salt)
}

/// Hashes a password with a fresh salt. It succeeds exactly where Argon2
/// hashes the password with the salt that was drawn. A hash that comes back
/// accepts the password it was made from.
pub fn hash_password(password: &str) -> (r: Result<String, CredentialError>)
    ensures
        hashed_with_some_salt(password@, r is Ok),
        r matches Ok(hash) ==> "$argon2id$"@.is_prefix_of(hash@) && accepts(hash@, password@),
        r matches Err(e) ==> e == CredentialError::Hashing,
{
    let salt = fresh_salt();
    let r = hash_password_with_salt(password, salt.as_str());
    proof {
        assert((r is Ok) == argon2_hashes(encode_utf8(password@), salt@));
    }
    r
}

/// Checks a password against a stored hash. A stored text that is no hash is
/// an error of its own, not a mismatch.
pub fn verify_password(password: &str, hash: &str) -> (r: Result<bool, CredentialError>)
    ensures
        r is Ok <==> phc_parses(hash@),
        r matches Ok(matched) ==> matched == accepts(hash@, password@),
        r matches Err(e) ==> e == CredentialError::MalformedHash,
{
    match argon2_verify(password.as_bytes(), hash) {
        Ok(matched) => Ok(matched),
        Err(_) => Err(CredentialError::MalformedHash),
    }
}

} // verus!
