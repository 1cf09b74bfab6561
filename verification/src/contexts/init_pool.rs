//! Creating a pool.

use crate::fees::{fee_payments, fee_transfers, fees_fit};
use crate::states::{Config, HybridPool};
use crate::transfers::Transfer;
use vstd::prelude::*;

verus! {

/// Creates the pool `id` of `signer`, trading the NFTs of the tree with root
/// `root` against `token_mint` at `price`; the signer pays the configured
/// initialization fee, split among the fee receivers.
pub fn initialize_pool(
    config: &Config,
    signer: [u8; 32],
    token_mint: [u8; 32],
    id: u16,
    price: u64,
    root: [u8; 32],
) -> (created: (HybridPool, Vec<Transfer>))
    requires
        fees_fit(config.init_fee, config.fee_percentage),
    ensures
        created.0 == (HybridPool {
            owner: signer,
            root_mint: root,
            token_mint: token_mint,
            nft_price: price,
            id: id,
        }),
        created.1@ == fee_transfers(config.init_fee, config.fee_receivers, config.fee_percentage),
{
    let payments = fee_payments(config.init_fee, &config.fee_receivers, &config.fee_percentage);
    let pool = HybridPool {
        owner: signer,
        root_mint: root,
        token_mint: token_mint,
        nft_price: price,
        id: id,
    };
    (pool, payments)
}

} // verus!
