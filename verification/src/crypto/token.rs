//! Random tokens (OAuth secrets, access tokens, confirmation codes).
use vstd::prelude::*;
use crate::crypto::TOKEN_LENGTH;
use crate::crypto::random::gen_secure_rand;
use crate::ids::hex_digit;

verus! {

/// The lower case hexadecimal encoding of a byte sequence, two digits a
/// byte, the high nibble first.
pub open spec fn hex_lower(bytes: Seq<u8>) -> Seq<char> {
    Seq::new(
        2 * bytes.len(),
        |i: int|
            if i % 2 == 0 {
                hex_digit((bytes[i / 2] / 16) as nat)
            } else {
                hex_digit((bytes[i / 2] % 16) as nat)
            },
    )
}

/// `hex::encode`: the lower case hexadecimal encoding of the bytes, as the
/// crate documents it.
#[verifier::external_body]
pub(crate) fn hex_encode(bytes: &Vec<u8>) -> (r: String)
    ensures
        r@ == hex_lower(bytes@),
{
    hex::encode(bytes)
}

/// Whether a character is a lower case hexadecimal digit.
pub open spec fn is_lower_hex(c: char) -> bool {
    ('0' <= c && c <= '9') || ('a' <= c && c <= 'f')
}

/// Generate a cryptographically random token (length defined by `TOKEN_LENGTH`)
pub fn generate() -> (r: String)
    ensures
        r@.len() == TOKEN_LENGTH,
        exists|bytes: Seq<u8>| bytes.len() == TOKEN_LENGTH / 2 && r@ == hex_lower(bytes),
        forall|i: int| 0 <= i < r@.len() ==> is_lower_hex(#[trigger] r@[i]),
{
    // Two characters are needed to encode one byte as hex
    let bytes = gen_secure_rand(TOKEN_LENGTH / 2);
    let token = hex_encode(&bytes);
    proof {
        assert forall|i: int| 0 <= i < token@.len() implies is_lower_hex(#[trigger] token@[i]) by {
            let b = bytes@[i / 2];
            assert(b / 16 < 16);
            assert(b % 16 < 16);
        }
    }
    token
}

} // verus!
