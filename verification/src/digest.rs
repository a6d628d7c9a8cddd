//! SHA-256, which is left to the `sha2` crate.

use sha2::Digest;
use vstd::prelude::*;

verus! {

/// Length in bytes of a SHA-256 digest.
pub const DIGEST_LENGTH: usize = 32;

/// The SHA-256 digest of `message`, as `sha2::Sha256::digest` computes it.
pub uninterp spec fn sha256(message: Seq<u8>) -> Seq<u8>;

/// Calls `sha2::Sha256::digest`.
///
/// Not proved: that the outcome is `sha256` of the input, a function of the
/// input alone, and that it is 32 bytes long, the output size of SHA-256.
#[verifier::external_body]
pub(crate) fn sha256_of(message: &[u8]) -> (digest: Vec<u8>)
    ensures
        digest@ == sha256(message@),
        digest@.len() == DIGEST_LENGTH,
{
    sha2::Sha256::digest(message).to_vec()
}

} // verus!
