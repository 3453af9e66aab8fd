//! Password hashing with Argon2 (default parameters, random salt, PHC string
//! format) and checking a password against a stored hash.
use vstd::prelude::*;
use argon2::{PasswordHasher, PasswordVerifier};
use vstd::string::StringSliceAdditionalSpecFns;

verus! {

/// Whether Argon2 accepts `password` for the PHC string `phc`: the string
/// parses as a password hash and hashing the password with its algorithm,
/// version, parameters and salt gives its hash.
pub uninterp spec fn argon2_verifies(password: Seq<u8>, phc: Seq<char>) -> bool;

/// Whether `argon2::password_hash::PasswordHash::new` accepts a text as a
/// PHC string.
pub uninterp spec fn phc_parses(phc: Seq<char>) -> bool;

/// Checks a password against a stored PHC string with
/// `argon2::PasswordHash::new` and `Argon2::default().verify_password`.
/// Claimed: the answer is `argon2_verifies` of the password and the string,
/// `false` when the string does not parse, which is so of the empty string
/// and of any string not starting with `$` (`PasswordHash::parse` splits at
/// `$` and refuses a non-empty first field).
#[verifier::external_body]
fn argon2_verify(password: &[u8], phc: &str) -> (r: bool)
    ensures
        r == argon2_verifies(password@, phc@),
        !phc_parses(phc@) ==> !r,
        phc@.len() == 0 || phc@[0] != '$' ==> !r,
{
    match argon2::password_hash::PasswordHash::new(phc) {
        Ok(hash) => argon2::Argon2::default().verify_password(password, &hash).is_ok(),
        Err(_) => false,
    }
}

/// Hashes a password with `Argon2::default().hash_password` and a fresh
/// `SaltString::generate(&mut OsRng)` salt, giving its PHC string.
/// Claimed: the string is a PHC string that `PasswordHash::new` parses back
/// (it starts with `$`, as `PasswordHash` writes itself), and the same password is accepted for it (verification
/// re-hashes with the salt and parameters the string carries).
/// The salt is random, so which string comes back is not stated. Argon2
/// refuses passwords longer than `u32::MAX` bytes, which `requires` leaves out.
#[verifier::external_body]
fn argon2_hash(password: &[u8]) -> (r: String)
    requires
        password@.len() <= 0xFFFF_FFFF,
    ensures
        argon2_verifies(password@, r@),
        phc_parses(r@),
        r@.len() > 0 && r@[0] == '$',
{
    let salt = argon2::password_hash::SaltString::generate(
        &mut argon2::password_hash::rand_core::OsRng,
    );
    argon2::Argon2::default().hash_password(password, &salt).expect(
        "Failed to hash password",
    ).to_string()
}

/// The bytes of a password as they are hashed (its UTF-8 encoding).
pub open spec fn password_bytes(password: Seq<char>) -> Seq<u8> {
    vstd::utf8::encode_utf8(password)
}

/// Hashes a password for storage.
pub fn hash_password(password: &str) -> (r: String)
    requires
        password_bytes(password@).len() <= 0xFFFF_FFFF,
    ensures
        argon2_verifies(password_bytes(password@), r@),
        phc_parses(r@),
        r@.len() > 0 && r@[0] == '$',
{
    argon2_hash(password.as_bytes())
}

/// Whether `password` is the one the stored PHC string was made from.
pub fn password_matches(password: &str, phc: &str) -> (r: bool)
    ensures
        r == argon2_verifies(password_bytes(password@), phc@),
        !phc_parses(phc@) ==> !r,
        phc@.len() == 0 || phc@[0] != '$' ==> !r,
{
    argon2_verify(password.as_bytes(), phc)
}

} // verus!
