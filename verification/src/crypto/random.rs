//! The operating system's random number generator.
use vstd::prelude::*;
use rand::RngCore;

verus! {

/// Fill the buffer with bytes from the operating system's secure random
/// number generator (`rand::rngs::OsRng`, `RngCore::fill_bytes`). Only the
/// length is stated: the bytes are random. (rand's source panics where the
/// operating system cannot deliver random bytes; no input decides that.)
#[verifier::external_body]
pub(crate) fn fill_secure_random(buf: &mut Vec<u8>)
    ensures
        final(buf)@.len() == old(buf)@.len(),
{
    rand::rngs::OsRng.fill_bytes(buf.as_mut_slice())
}

/// Generate `len` bytes with the operating system's secure random number
/// generator (`OsRng`).
pub fn gen_secure_rand(len: usize) -> (r: Vec<u8>)
    ensures
        r@.len() == len,
{
    let mut buf: Vec<u8> = Vec::new();
    let mut i: usize = 0;
    while i < len
        invariant
            i <= len,
            buf@.len() == i,
        decreases len - i,
    {
        buf.push(0u8);
        i += 1;
    }
    fill_secure_random(&mut buf);
    buf
}

} // verus!
