//! The digest engine: Keccak-256 of a byte sequence.

use sha3::{Digest, Keccak256};
use vstd::prelude::*;

verus! {

/// The Keccak-256 digest of `bytes`, as the `sha3` crate computes it.
///
/// The digest depends on the bytes alone. Nothing else about it is assumed:
/// the algorithm is not restated here.
pub uninterp spec fn keccak256_digest(bytes: Seq<u8>) -> [u8; 32];

/// Hashes `bytes` with a fresh hasher.
///
/// This calls `Keccak256::digest` of the `sha3` crate, which creates a hasher
/// in its initial state, feeds it `bytes` and finalizes it. The contract is
/// not proved: it gives the 32 bytes that come back the name
/// [`keccak256_digest`].
#[verifier::external_body]
pub(crate) fn keccak256(bytes: &[u8]) -> (digest: [u8; 32])
    ensures
        digest == keccak256_digest(bytes@),
{
    Keccak256::digest(bytes).into()
}

} // verus!
