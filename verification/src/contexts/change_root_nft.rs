//! Replacing the Merkle root of a pool.

use crate::states::HybridPool;
use vstd::prelude::*;

verus! {

/// Sets the Merkle root of the pool's NFTs to `root`; nothing else changes.
pub fn change_root(pool: &mut HybridPool, _id: u16, _bump: u8, root: [u8; 32])
    ensures
        *final(pool) == (HybridPool { root_mint: root, ..*old(pool) }),
{
    pool.root_mint = root;
}

} // verus!
