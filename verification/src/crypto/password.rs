//! Password hashing with Argon2 (rust-argon2's default configuration).
use vstd::prelude::*;
use vstd::string::*;
use vstd::utf8::encode_utf8;
use crate::crypto::random::gen_secure_rand;
use crate::error::Error as ServerError;

verus! {

/// What `argon2::hash_encoded` makes of a password and a salt under the
/// default configuration.
pub uninterp spec fn argon2_encoded_hash(password: Seq<char>, salt: Seq<u8>) -> Seq<char>;

/// What `argon2::verify_encoded` says of an encoded hash and a password:
/// `Some(matches)`, or `None` where it fails (a malformed hash).
pub uninterp spec fn argon2_verification(encoded: Seq<char>, password: Seq<char>) -> Option<bool>;

/// `argon2::hash_encoded` on the password's UTF-8 bytes with
/// `Config::default()`. The hash is named. The crate documents that a hash
/// made this way verifies against the password it was made from; its source
/// fails only on a salt shorter than 8 or longer than 2^32 - 1 bytes or a
/// password longer than 2^32 - 1 bytes. The crate's error is passed on as
/// `None`.
#[verifier::external_body]
fn argon2_hash_encoded(password: &str, salt: &Vec<u8>) -> (r: Option<String>)
    ensures
        r is Some <==> (8 <= salt@.len() <= 0xFFFF_FFFF && encode_utf8(password@).len() <= 0xFFFF_FFFF),
        r matches Some(h) ==> h@ == argon2_encoded_hash(password@, salt@)
            && argon2_verification(h@, password@) == Some(true),
{
    argon2::hash_encoded(password.as_bytes(), salt.as_slice(), &argon2::Config::default()).ok()
}

/// `argon2::verify_encoded` on the encoded hash and the password's UTF-8
/// bytes. Its outcome is named; the crate's error is passed on as `None`.
#[verifier::external_body]
fn argon2_verify_encoded(encoded: &str, password: &str) -> (r: Option<bool>)
    ensures
        match argon2_verification(encoded@, password@) {
            Some(b) => r == Some(b),
            None => r is None,
        },
{
    argon2::verify_encoded(encoded, password.as_bytes()).ok()
}

/// Whether the password verifies against the encoded hash.
pub open spec fn password_matches(encoded: Seq<char>, password: Seq<char>) -> bool {
    argon2_verification(encoded, password) == Some(true)
}

/// Hash the password with a fresh random 32-byte salt using the standard
/// rust-argon2 config. The hash verifies against the password.
pub fn hash(password: String) -> (r: Result<String, ServerError>)
    ensures
        encode_utf8(password@).len() <= 0xFFFF_FFFF ==> r is Ok,
        r is Err ==> r == Err::<String, ServerError>(ServerError::Argon2),
        r matches Ok(h) ==> password_matches(h@, password@)
            && exists|salt: Seq<u8>| salt.len() == 32 && h@ == argon2_encoded_hash(password@, salt),
{
    let salt = gen_secure_rand(32);
    match argon2_hash_encoded(password.as_str(), &salt) {
        Some(h) => Ok(h),
        None => Err(ServerError::Argon2),
    }
}

/// Verify an encoded password; a malformed hash does not verify.
pub fn verify(password: String, hash: String) -> (r: bool)
    ensures
        r == password_matches(hash@, password@),
{
    match argon2_verify_encoded(hash.as_str(), password.as_str()) {
        Some(b) => b,
        None => false,
    }
}

} // verus!
