//! The Keccak-256 hash.

use vstd::prelude::*;
use sha3::Digest;
use crate::primitives::H256;

verus! {

/// The Keccak-256 digest of a byte string.
pub uninterp spec fn keccak256(data: Seq<u8>) -> Seq<u8>;

/// `sha3::Keccak256::digest`: the Keccak-256 digest of the bytes.
#[verifier::external_body]
pub(crate) fn hash_bytes(data: &Vec<u8>) -> (r: H256)
    ensures
        r@ == keccak256(data@),
{
    H256 { bytes: primitive_types::H256::from_slice(sha3::Keccak256::digest(data).as_slice()).0 }
}

} // verus!
