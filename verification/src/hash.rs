//! The chain's hash function.

use vstd::prelude::*;

verus! {

/// The chain's hash of a byte string: blake2b with a 32-byte digest, personalised with
/// `ckb-default-hash`.
pub uninterp spec fn blake2b_256(bytes: Seq<u8>) -> Seq<u8>;

/// Calls `ckb_hash::blake2b_256`. Trusted: the digest depends on the bytes of the argument
/// alone, so it is the one that [`blake2b_256`] names for them. Nothing is claimed of how
/// the digests of different byte strings relate.
#[verifier::external_body]
pub(crate) fn hash_bytes(bytes: &[u8]) -> (digest: [u8; 32])
    ensures
        digest@ == blake2b_256(bytes@),
{
    ckb_hash::blake2b_256(bytes)
}

} // verus!
