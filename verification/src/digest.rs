//! Content digest of the fetched archive, shown beside a published reference
//! sum as a manual comparison aid. The digest has no effect on control flow.

use vstd::prelude::*;

verus! {

/// The lowercase hexadecimal SHA-256 digest of a byte sequence. The digest
/// depends on the bytes alone.
pub uninterp spec fn sha256_hex_of(b: Seq<u8>) -> Seq<char>;

/// Relies on sha2's `Sha256` digest and generic-array's `LowerHex`
/// formatting: a 32-byte digest printed as two lowercase hex digits per
/// byte, 64 characters in all.
#[verifier::external_body]
pub(crate) fn sha256_hex(bytes: &Vec<u8>) -> (r: String)
    ensures
        r@ == sha256_hex_of(bytes@),
        r@.len() == 64,
{
    let mut h = <sha2::Sha256 as sha2::Digest>::new();
    sha2::Digest::update(&mut h, bytes.as_slice());
    format!("{:x}", sha2::Digest::finalize(h))
}

} // verus!
