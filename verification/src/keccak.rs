//! The Keccak-256 hashes that the pool takes from the Solana program crate.

use anchor_lang::solana_program::keccak;
use vstd::prelude::*;

verus! {

/// What `keccak::hash` returns, as a function of the bytes hashed.
pub uninterp spec fn keccak_hash_of(data: Seq<u8>) -> Seq<u8>;

/// What `keccak::hashv` returns, as a function of the byte slices hashed.
pub uninterp spec fn keccak_hashv_of(parts: Seq<Seq<u8>>) -> Seq<u8>;

/// Calls `anchor_lang::solana_program::keccak::hash` on `data` and returns the
/// 32 digest bytes. Trusted: the digest is the named Keccak-256 result of `data`.
#[verifier::external_body]
pub(crate) fn keccak_hash(data: &[u8]) -> (digest: [u8; 32])
    ensures
        digest@ == keccak_hash_of(data@),
{
    keccak::hash(data).0
}

/// Calls `anchor_lang::solana_program::keccak::hashv` on the two 32-byte values
/// `first` and `second`, in that order, and returns the 32 digest bytes.
/// Trusted: the digest is the named result of hashing the sequence `[first, second]`.
#[verifier::external_body]
pub(crate) fn keccak_hashv_pair(first: &[u8; 32], second: &[u8; 32]) -> (digest: [u8; 32])
    ensures
        digest@ == keccak_hashv_of(seq![first@, second@]),
{
    keccak::hashv(&[&first[..], &second[..]]).0
}

} // verus!
