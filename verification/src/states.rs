//! The accounts that the pool program keeps, as plain values. A public key is
//! its 32 bytes.

use vstd::prelude::*;

verus! {

/// The program-wide settings: who may change them, who receives the fees and
/// in what percentages, and the fees charged per swap and per new pool.
#[derive(Debug, Clone, Copy, PartialEq, Eq)]
pub struct Config {
    pub owner: [u8; 32],
    pub fee_receivers: [[u8; 32]; 5],
    pub fee_percentage: [u8; 5],
    pub swap_fee: u64,
    pub init_fee: u64,
}

/// A pool that trades the NFTs of one Merkle tree against one token at a fixed price.
#[derive(Debug, Clone, Copy, PartialEq, Eq)]
pub struct HybridPool {
    pub owner: [u8; 32],
    pub root_mint: [u8; 32],
    pub token_mint: [u8; 32],
    pub nft_price: u64,
    pub id: u16,
}

/// A liquidity provider's share of one pool.
#[derive(Debug, Clone, Copy, PartialEq, Eq)]
pub struct UserData {
    pub owner: [u8; 32],
    pub pool: [u8; 32],
    pub token_amount: u64,
    pub nft_count: u64,
    pub initialized: bool,
}

/// The token account that holds a programmable NFT.
#[derive(Debug, Clone, Copy, PartialEq, Eq)]
pub struct PnftTokenAccountAddress {
    pub token_account: [u8; 32],
}

/// A Merkle proof together with a position in it.
#[derive(Debug, Clone)]
pub struct AllowList {
    pub proof: Vec<[u8; 32]>,
    pub current: u32,
}

/// A request for randomness: the requesting program, the largest guess, and the user.
#[derive(Debug, Clone, Copy, PartialEq, Eq)]
pub struct ContainerParams {
    pub program_id: [u8; 32],
    pub max_guess: u8,
    pub user_key: [u8; 32],
}

} // verus!
