//! Content hashing of favicon bytes.

use sha3::Digest;
use vstd::prelude::*;

verus! {

/// The lowercase hex text of the Keccak-256 digest of a byte sequence.
pub uninterp spec fn keccak256_hex(b: Seq<u8>) -> Seq<char>;

/// A lowercase hexadecimal digit.
pub open spec fn is_lower_hex_digit(c: char) -> bool {
    ('0' <= c && c <= '9') || ('a' <= c && c <= 'f')
}

/// Relies on sha3's `Keccak256` (update, then finalize) and on generic-array's
/// `LowerHex`, which writes two lowercase digits per byte of the 32-byte digest.
#[verifier::external_body]
pub fn hasher(input: &[u8]) -> (r: String)
    ensures
        r@ == keccak256_hex(input@),
        r@.len() == 64,
        forall|i: int| 0 <= i < r@.len() ==> is_lower_hex_digit(#[trigger] r@[i]),
{
    let mut h = sha3::Keccak256::new();
    h.update(input);
    format!("{:x}", h.finalize())
}

/// The digest is a function of the bytes alone: two results of `hasher`,
/// from any two calls on byte-for-byte equal inputs, are equal.
pub proof fn digest_deterministic(b1: Seq<u8>, b2: Seq<u8>, d1: Seq<char>, d2: Seq<char>)
    requires
        b1 == b2,
        d1 == keccak256_hex(b1),
        d2 == keccak256_hex(b2),
    ensures
        d1 == d2,
{
}

} // verus!
