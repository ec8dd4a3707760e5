//! Key generation for the cipher suite.

use vstd::prelude::*;

use rand::Rng;

use crate::cipher::key_len;
use crate::cipher::key_acceptable;
use crate::cipher::required_key_len;
use crate::models::EncryptionMethod;

verus! {

/// Relies on `rand::rngs::OsRng` through `Rng::fill`: the buffer is filled
/// with bytes from the operating system's generator; nothing else can be
/// promised of its contents, and the length is the one asked for.
#[verifier::external_body]
fn random_bytes(n: usize) -> (r: Vec<u8>)
    ensures
        r@.len() == n,
{
    let mut buf = vec![0u8; n];
    rand::rngs::OsRng.fill(&mut buf[..]);
    buf
}

/// Draws fresh key material of exactly the length the method requires:
/// 32 bytes for the 256-bit-keyed methods and 24 bytes for the triple
/// block cipher, on every invocation.
pub fn generate_key(method: &EncryptionMethod) -> (r: Vec<u8>)
    ensures
        r@.len() == required_key_len(*method),
        key_acceptable(*method, r@),
{
    let n = key_len(method);
    random_bytes(n)
}

} // verus!
