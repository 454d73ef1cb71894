//! The `Digest` header of outgoing requests.
use vstd::prelude::*;
use vstd::string::*;
use sha2::Digest;

verus! {

/// What `sha2::Sha256::digest` makes of the data.
pub uninterp spec fn sha256_of(data: Seq<u8>) -> Seq<u8>;

/// `sha2::Sha256::digest`: the SHA-256 hash of the data. The result is named
/// (it depends on the data alone); its documented size is 32 bytes.
#[verifier::external_body]
pub(crate) fn sha256(data: &Vec<u8>) -> (r: Vec<u8>)
    ensures
        r@ == sha256_of(data@),
        r@.len() == 32,
{
    sha2::Sha256::digest(data.as_slice()).to_vec()
}

/// The character of a 6-bit value in the standard Base64 alphabet.
pub open spec fn base64_char(v: int) -> char {
    if v < 26 {
        (65 + v) as char
    } else if v < 52 {
        (97 + (v - 26)) as char
    } else if v < 62 {
        (48 + (v - 52)) as char
    } else if v == 62 {
        '+'
    } else {
        '/'
    }
}

/// Standard Base64 with padding: every three bytes become four characters;
/// a final one or two bytes are padded with `=`.
pub open spec fn base64_standard(s: Seq<u8>) -> Seq<char>
    decreases s.len(),
{
    let b0 = if s.len() > 0 { s[0] as int } else { 0 };
    let b1 = if s.len() > 1 { s[1] as int } else { 0 };
    let b2 = if s.len() > 2 { s[2] as int } else { 0 };
    if s.len() == 0 {
        Seq::empty()
    } else if s.len() == 1 {
        seq![base64_char(b0 / 4), base64_char((b0 % 4) * 16), '=', '=']
    } else if s.len() == 2 {
        seq![
            base64_char(b0 / 4),
            base64_char((b0 % 4) * 16 + b1 / 16),
            base64_char((b1 % 16) * 4),
            '=',
        ]
    } else {
        seq![
            base64_char(b0 / 4),
            base64_char((b0 % 4) * 16 + b1 / 16),
            base64_char((b1 % 16) * 4 + b2 / 64),
            base64_char(b2 % 64),
        ] + base64_standard(s.skip(3))
    }
}

/// `base64::encode`: standard Base64 with padding, as `base64_standard` states it.
#[verifier::external_body]
pub(crate) fn base64_encode(data: &Vec<u8>) -> (r: String)
    ensures
        r@ == base64_standard(data@),
{
    base64::encode(data)
}

/// Calculate the digest HTTP header
pub fn http_header(data: Vec<u8>) -> (r: String)
    ensures
        r@ == "SHA-256="@ + base64_standard(sha256_of(data@)),
{
    let hash = sha256(&data);
    let encoded = base64_encode(&hash);
    String::from_str("SHA-256=").concat(encoded.as_str())
}

} // verus!
