//! The one-way digest under which a master password is stored.

use sha2::{Digest, Sha256};
use vstd::prelude::*;

verus! {

/// The SHA-256 digest of `data`, as the `sha2` crate computes it. Nothing is
/// proved of its value: the contracts of this crate only say which bytes were
/// hashed.
pub uninterp spec fn sha256(data: Seq<u8>) -> Seq<u8>;

/// Calls `sha2::Sha256::digest`, the one-shot form of the hasher, and turns
/// its 32-byte output into an array. Trusted: the result is the SHA-256
/// digest of exactly the bytes of `data`, a function of those bytes alone.
#[verifier::external_body]
pub(crate) fn sha256_digest(data: &[u8]) -> (digest: [u8; 32])
    ensures
        digest@ == sha256(data@),
{
    Sha256::digest(data).into()
}

} // verus!
