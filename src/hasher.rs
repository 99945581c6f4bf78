use vstd::prelude::*;
use vstd::utf8::encode_utf8;
use argon2::password_hash::{PasswordHash, PasswordHasher, PasswordVerifier, SaltString};
use argon2::Argon2;
use crate::error::AuthError;

verus! {

/// Whether Argon2 accepts `password` against the encoded hash `encoded`
/// (the bytes of a PHC string): the digest recomputed with the embedded
/// parameters and salt equals the embedded one.
pub uninterp spec fn argon2_accepts(encoded: Seq<u8>, password: Seq<char>) -> bool;

/// The longest password, in bytes, that Argon2 accepts.
pub const MAX_PASSWORD_BYTES: u64 = 4294967295;

#[verifier::external_type_specification]
#[verifier::external_body]
pub struct ExPasswordHashError(argon2::password_hash::Error);

/// Relies on `SaltString::generate` with the OS random source and on
/// `Argon2::hash_password` with default parameters. `PasswordVerifier` for
/// `Argon2` recomputes the digest with the parameters and salt read back from
/// the hash, so a hash made from a password is accepted for that password.
/// The only input Argon2 rejects is a password longer than `MAX_PWD_LEN`
/// (`0xFFFFFFFF`) bytes; the generated salt always has a valid length.
#[verifier::external_body]
fn argon2_hash(password: &str) -> (r: Result<String, argon2::password_hash::Error>)
    ensures
        r matches Ok(h) ==> argon2_accepts(encode_utf8(h@), password@),
        encode_utf8(password@).len() <= MAX_PASSWORD_BYTES ==> r is Ok,
{
    let salt = SaltString::generate(&mut argon2::password_hash::rand_core::OsRng);
    let hash = Argon2::default().hash_password(password.as_bytes(), &salt)?;
    Ok(hash.to_string())
}

/// Relies on `PasswordHash::new` to parse the PHC string and on
/// `Argon2::verify_password` to check the password against it; bytes that
/// are not UTF-8 or not a PHC string are rejected.
#[verifier::external_body]
fn argon2_verify(encoded: &[u8], password: &str) -> (r: bool)
    ensures
        r == argon2_accepts(encoded@, password@),
{
    match std::str::from_utf8(encoded) {
        Ok(s) => match PasswordHash::new(s) {
            Ok(parsed) => Argon2::default().verify_password(password.as_bytes(), &parsed).is_ok(),
            Err(_) => false,
        },
        Err(_) => false,
    }
}

/// Hashes `password` with a fresh random salt into a PHC string. The string
/// verifies against the password it was made from. Every password of at most
/// `MAX_PASSWORD_BYTES` bytes is hashed.
pub fn hash_passwords(password: &str) -> (r: Result<String, AuthError>)
    ensures
        r matches Ok(h) ==> argon2_accepts(encode_utf8(h@), password@),
        r is Err ==> encode_utf8(password@).len() > MAX_PASSWORD_BYTES,
        r matches Err(e) ==> e == AuthError::Hashing,
{
    match argon2_hash(password) {
        Ok(h) => Ok(h),
        Err(_) => Err(AuthError::Hashing),
    }
}

/// Checks `password` against an encoded hash. A malformed hash is a failed
/// check, never an error.
pub fn verify_password(encoded: &[u8], password: &str) -> (r: bool)
    ensures
        r == argon2_accepts(encoded@, password@),
{
    argon2_verify(encoded, password)
}

} // verus!
