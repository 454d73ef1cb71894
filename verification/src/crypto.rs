//! Cryptographic operations: random tokens, request digests, password
//! hashing and RSA key pairs.
use vstd::prelude::*;

pub mod digest;
pub mod password;
pub mod random;
pub mod rsa;
pub mod token;

verus! {

/// The size of generated RSA keys, in bits.
pub const KEY_SIZE: usize = 2048;

/// The length of generated tokens, in characters.
pub const TOKEN_LENGTH: usize = 40;

} // verus!
