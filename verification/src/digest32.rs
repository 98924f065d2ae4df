//! The external 256-bit cryptographic hash primitive.

use vstd::prelude::*;

verus! {

/// Number of bytes of a 256-bit digest.
pub const DIGEST_LEN: usize = 32;

/// The 256-bit blake2b digest of a byte sequence. The digest is a
/// function of the input bytes alone; what it is on given bytes is known
/// only to the external hash implementation.
pub uninterp spec fn blake2b256_of(bytes: Seq<u8>) -> Seq<u8>;

/// Relies on blake2's `Blake2b` with a 32-byte output size: the digest is
/// a pure function of the input bytes and is always 32 bytes long.
#[verifier::external_body]
pub(crate) fn blake2b256_hash(bytes: &Vec<u8>) -> (r: Vec<u8>)
    ensures
        r@ == blake2b256_of(bytes@),
        r@.len() == DIGEST_LEN,
{
    let digest = <blake2::Blake2b<blake2::digest::consts::U32> as blake2::Digest>::digest(
        bytes.as_slice(),
    );
    digest.to_vec()
}

} // verus!
