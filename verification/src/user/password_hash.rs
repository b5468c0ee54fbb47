//! Password hashing with Argon2 in the PHC string format.
use argon2::{PasswordHasher, PasswordVerifier};
use vstd::prelude::*;
use vstd::utf8::encode_utf8;

verus! {

/// An error of the password hashing library.
#[verifier::external_type_specification]
#[verifier::external_body]
pub struct ExArgon2Error(argon2::password_hash::Error);

/// A failure to hash or to check a password.
#[derive(Debug, Clone, Copy, PartialEq, Eq, Structural)]
pub struct PasswordHashError;

/// What `Argon2::default().hash_password(password, &salt)` gives, as a PHC
/// string, for a salt that `SaltString::from_b64` accepts; `None` where
/// hashing fails.
pub uninterp spec fn argon2_hash(password: Seq<u8>, salt: Seq<char>) -> Option<Seq<char>>;

/// What checking a password against a stored PHC string gives: whether
/// `Argon2::default().verify_password` accepts it, or `None` where
/// `PasswordHash::new` cannot parse the stored string.
pub uninterp spec fn argon2_verify(stored: Seq<char>, password: Seq<u8>) -> Option<bool>;

/// A character of the B64 alphabet that the PHC string format allows in a salt.
pub open spec fn is_salt_char(c: char) -> bool {
    ('a' <= c <= 'z') || ('A' <= c <= 'Z') || ('0' <= c <= '9') || c == '/' || c == '+' || c == '.' || c == '-'
}

/// Whether `SaltString::from_b64` accepts a salt: 4 to 64 bytes of the B64
/// alphabet.
pub open spec fn is_valid_salt(salt: Seq<char>) -> bool {
    &&& 4 <= encode_utf8(salt).len() <= 64
    &&& forall|i: int| 0 <= i < salt.len() ==> is_salt_char(#[trigger] salt[i])
}

/// Hashes a password with Argon2 under a fresh random salt
/// (`SaltString::generate(&mut OsRng)`), as a PHC string.
///
/// Trusted: the hash depends on the random salt, so it gets no name. Two
/// facts are stated. Hashing fails exactly where the password is longer than
/// `MAX_PWD_LEN` (0xFFFFFFFF) bytes: in the `argon2` source, the other checks
/// on the way (decoding the generated 16-byte salt, the default output length
/// of 32 bytes, the salt length of at least 8 bytes, the memory of the default
/// parameters, the parameter string) pass for a generated salt and
/// `Argon2::default()`. And checking the same password against the result
/// succeeds, as the `password-hash` source shows of `verify_password`, which
/// recomputes the hash with the algorithm, version, parameters and salt
/// written in the PHC string.
#[verifier::external_body]
pub(crate) fn hash_password(password: &[u8]) -> (r: Result<String, argon2::password_hash::Error>)
    ensures
        r is Ok <==> password@.len() <= 0xFFFF_FFFF,
        r matches Ok(h) ==> argon2_verify(h@, password@) == Some(true),
{
    let salt = argon2::password_hash::SaltString::generate(&mut argon2::password_hash::rand_core::OsRng);
    match argon2::Argon2::default().hash_password(password, &salt) {
        Ok(h) => Ok(h.to_string()),
        Err(e) => Err(e),
    }
}

/// Hashes a password with Argon2 under the given B64 salt, as a PHC string.
///
/// Trusted: the result is named by `argon2_hash`; the salt must be one
/// that `SaltString::from_b64` accepts (the source checks 4 to 64 bytes of
/// `[a-zA-Z0-9/+.-]`), so the `unwrap` below does not panic. The
/// fact stated besides is the one of `hash_password`: checking the same
/// password against the result succeeds.
#[verifier::external_body]
pub(crate) fn hash_password_fixed(password: &[u8], salt_string: &str) -> (r: Result<String, argon2::password_hash::Error>)
    requires
        is_valid_salt(salt_string@),
    ensures
        r is Ok <==> argon2_hash(password@, salt_string@) is Some,
        r matches Ok(h) ==> Some(h@) == argon2_hash(password@, salt_string@),
        r matches Ok(h) ==> argon2_verify(h@, password@) == Some(true),
{
    let salt = argon2::password_hash::SaltString::from_b64(salt_string).unwrap();
    match argon2::Argon2::default().hash_password(password, &salt) {
        Ok(h) => Ok(h.to_string()),
        Err(e) => Err(e),
    }
}

/// Checks a password against a stored PHC string
/// (`PasswordHash::new`, then `Argon2::default().verify_password`).
///
/// Trusted: the result is named by `argon2_verify`; an error is the parse
/// error of `PasswordHash::new`.
#[verifier::external_body]
pub(crate) fn verify_password(stored_hash: &str, password: &[u8]) -> (r: Result<bool, argon2::password_hash::Error>)
    ensures
        match argon2_verify(stored_hash@, password@) {
            Some(b) => r == Ok::<bool, argon2::password_hash::Error>(b),
            None => r is Err,
        },
{
    match argon2::password_hash::PasswordHash::new(stored_hash) {
        Ok(parsed) => Ok(argon2::Argon2::default().verify_password(password, &parsed).is_ok()),
        Err(e) => Err(e),
    }
}

/// Hashes a password text under a fresh random salt; it fails only for a
/// password longer than 0xFFFFFFFF bytes.
pub fn _hash_password(password: &str) -> (r: Result<String, PasswordHashError>)
    ensures
        r is Ok <==> encode_utf8(password@).len() <= 0xFFFF_FFFF,
        r matches Ok(h) ==> argon2_verify(h@, encode_utf8(password@)) == Some(true),
{
    match hash_password(password.as_bytes()) {
        Ok(h) => Ok(h),
        Err(_) => Err(PasswordHashError),
    }
}

/// Hashes a password text under the given salt.
pub fn hash_password_with_salt(password: &str, salt: &str) -> (r: Result<String, PasswordHashError>)
    requires
        is_valid_salt(salt@),
    ensures
        r is Ok <==> argon2_hash(encode_utf8(password@), salt@) is Some,
        r matches Ok(h) ==> Some(h@) == argon2_hash(encode_utf8(password@), salt@),
        r matches Ok(h) ==> argon2_verify(h@, encode_utf8(password@)) == Some(true),
{
    match hash_password_fixed(password.as_bytes(), salt) {
        Ok(h) => Ok(h),
        Err(_) => Err(PasswordHashError),
    }
}

/// Checks a password text against a stored PHC string.
pub fn check_password(stored_hash: &str, password: &str) -> (r: Result<bool, PasswordHashError>)
    ensures
        match argon2_verify(stored_hash@, encode_utf8(password@)) {
            Some(b) => r == Ok::<bool, PasswordHashError>(b),
            None => r is Err,
        },
{
    match verify_password(stored_hash, password.as_bytes()) {
        Ok(b) => Ok(b),
        Err(_) => Err(PasswordHashError),
    }
}

} // verus!
