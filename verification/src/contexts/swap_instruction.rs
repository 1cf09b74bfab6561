//! Swapping between the pool's token and the NFTs of its tree, at the pool's
//! price, for the configured swap fee.

use crate::errors::ErrorCode;
use crate::fees::{fee_payments, fee_shares_fit, fee_transfers, fees_fit, lemma_fee_transfers_totals, total_fee};
use crate::states::{Config, HybridPool};
use crate::transfers::{
    Asset, Transfer, fees_paid, lemma_fees_paid_append, lemma_pool_delta_append, pool_delta,
};
use crate::utils::verify_hash::{copy_proof, mint_in_tree, nft_leaf, verify};
use vstd::prelude::*;

verus! {

/// Whether the pool account matches the token mint and the id named by the instruction.
pub fn pool_matches(pool: &HybridPool, token_mint: &[u8; 32], id: u16) -> (matches: bool)
    ensures
        matches == (pool.token_mint@ == token_mint@ && pool.id == id),
{
    crate::utils::verify_hash::bytes_eq(&pool.token_mint, token_mint) && pool.id == id
}

/// The transfers of selling an NFT to the pool: the swap fee to the receivers,
/// the NFT into the pool, then the price in tokens out of it.
pub open spec fn sell_transfers(config: Config, pool: HybridPool) -> Seq<Transfer> {
    fee_transfers(config.swap_fee, config.fee_receivers, config.fee_percentage) + seq![
        Transfer::Deposit { asset: Asset::Nft, amount: 1 },
        Transfer::Withdraw { asset: Asset::Token, amount: pool.nft_price },
    ]
}

/// The transfers of buying an NFT from the pool: the swap fee to the receivers,
/// the price in tokens into the pool, then the NFT out of it.
pub open spec fn buy_transfers(config: Config, pool: HybridPool) -> Seq<Transfer> {
    fee_transfers(config.swap_fee, config.fee_receivers, config.fee_percentage) + seq![
        Transfer::Deposit { asset: Asset::Token, amount: pool.nft_price },
        Transfer::Withdraw { asset: Asset::Nft, amount: 1 },
    ]
}

/// Sells an NFT to the pool once it is known whether it belongs to the pool's tree.
pub fn plan_nft_to_token(config: &Config, pool: &HybridPool, in_tree: bool)
    -> (result: Result<Vec<Transfer>, ErrorCode>)
    requires
        in_tree ==> fees_fit(config.swap_fee, config.fee_percentage),
    ensures
        match result {
            Ok(transfers) => in_tree && transfers@ == sell_transfers(*config, *pool),
            Err(e) => !in_tree && e == ErrorCode::InvalidProof,
        },
{
    if !in_tree {
        return Err(ErrorCode::InvalidProof);
    }
    let mut transfers = fee_payments(config.swap_fee, &config.fee_receivers, &config.fee_percentage);
    transfers.push(Transfer::Deposit { asset: Asset::Nft, amount: 1 });
    transfers.push(Transfer::Withdraw { asset: Asset::Token, amount: pool.nft_price });
    assert(transfers@ =~= sell_transfers(*config, *pool));
    Ok(transfers)
}

/// Buys an NFT from the pool once it is known whether it belongs to the pool's tree.
pub fn plan_token_to_nft(config: &Config, pool: &HybridPool, in_tree: bool)
    -> (result: Result<Vec<Transfer>, ErrorCode>)
    requires
        in_tree ==> fees_fit(config.swap_fee, config.fee_percentage),
    ensures
        match result {
            Ok(transfers) => in_tree && transfers@ == buy_transfers(*config, *pool),
            Err(e) => !in_tree && e == ErrorCode::InvalidProof,
        },
{
    if !in_tree {
        return Err(ErrorCode::InvalidProof);
    }
    let mut transfers = fee_payments(config.swap_fee, &config.fee_receivers, &config.fee_percentage);
    transfers.push(Transfer::Deposit { asset: Asset::Token, amount: pool.nft_price });
    transfers.push(Transfer::Withdraw { asset: Asset::Nft, amount: 1 });
    assert(transfers@ =~= buy_transfers(*config, *pool));
    Ok(transfers)
}

/// Sells the NFT with mint `nft_mint` to the pool for its price in tokens, if
/// `proof` shows that it belongs to the pool's tree; otherwise fails with
/// `InvalidProof`. The seller pays the swap fee.
pub fn nft_to_token(
    config: &Config,
    pool: &HybridPool,
    nft_mint: [u8; 32],
    _id: u16,
    _bump: u8,
    proof: Vec<[u8; 32]>,
) -> (result: Result<Vec<Transfer>, ErrorCode>)
    requires
        mint_in_tree(proof@, pool.root_mint, nft_mint) ==> fees_fit(config.swap_fee, config.fee_percentage),
    ensures
        match result {
            Ok(transfers) => mint_in_tree(proof@, pool.root_mint, nft_mint)
                && transfers@ == sell_transfers(*config, *pool),
            Err(e) => !mint_in_tree(proof@, pool.root_mint, nft_mint) && e == ErrorCode::InvalidProof,
        },
{
    let leaf = nft_leaf(&nft_mint);
    let in_tree = verify(proof, pool.root_mint, leaf);
    plan_nft_to_token(config, pool, in_tree)
}

/// Buys the NFT with mint `nft_mint` from the pool for its price in tokens, if
/// `proof` shows that it belongs to the pool's tree; otherwise fails with
/// `InvalidProof`. The buyer pays the swap fee.
pub fn token_to_nft(
    config: &Config,
    pool: &HybridPool,
    nft_mint: [u8; 32],
    _id: u16,
    _bump: u8,
    proof: Vec<[u8; 32]>,
) -> (result: Result<Vec<Transfer>, ErrorCode>)
    requires
        mint_in_tree(proof@, pool.root_mint, nft_mint) ==> fees_fit(config.swap_fee, config.fee_percentage),
    ensures
        match result {
            Ok(transfers) => mint_in_tree(proof@, pool.root_mint, nft_mint)
                && transfers@ == buy_transfers(*config, *pool),
            Err(e) => !mint_in_tree(proof@, pool.root_mint, nft_mint) && e == ErrorCode::InvalidProof,
        },
{
    let leaf = nft_leaf(&nft_mint);
    let in_tree = verify(proof, pool.root_mint, leaf);
    plan_token_to_nft(config, pool, in_tree)
}

/// Sells an NFT as `nft_to_token` does, on every input: `None` where the
/// proof is accepted but a share of the swap fee cannot be computed in a `u64`.
pub fn try_nft_to_token(
    config: &Config,
    pool: &HybridPool,
    nft_mint: [u8; 32],
    id: u16,
    bump: u8,
    proof: Vec<[u8; 32]>,
) -> (result: Option<Result<Vec<Transfer>, ErrorCode>>)
    ensures
        result is None <==> (mint_in_tree(proof@, pool.root_mint, nft_mint)
            && !fees_fit(config.swap_fee, config.fee_percentage)),
        match result {
            None => true,
            Some(Ok(transfers)) => mint_in_tree(proof@, pool.root_mint, nft_mint)
                && transfers@ == sell_transfers(*config, *pool),
            Some(Err(e)) => !mint_in_tree(proof@, pool.root_mint, nft_mint) && e == ErrorCode::InvalidProof,
        },
{
    if !fee_shares_fit(config.swap_fee, &config.fee_percentage) {
        let leaf = nft_leaf(&nft_mint);
        if verify(copy_proof(&proof), pool.root_mint, leaf) {
            return None;
        }
    }
    Some(nft_to_token(config, pool, nft_mint, id, bump, proof))
}

/// Buys an NFT as `token_to_nft` does, on every input: `None` where the
/// proof is accepted but a share of the swap fee cannot be computed in a `u64`.
pub fn try_token_to_nft(
    config: &Config,
    pool: &HybridPool,
    nft_mint: [u8; 32],
    id: u16,
    bump: u8,
    proof: Vec<[u8; 32]>,
) -> (result: Option<Result<Vec<Transfer>, ErrorCode>>)
    ensures
        result is None <==> (mint_in_tree(proof@, pool.root_mint, nft_mint)
            && !fees_fit(config.swap_fee, config.fee_percentage)),
        match result {
            None => true,
            Some(Ok(transfers)) => mint_in_tree(proof@, pool.root_mint, nft_mint)
                && transfers@ == buy_transfers(*config, *pool),
            Some(Err(e)) => !mint_in_tree(proof@, pool.root_mint, nft_mint) && e == ErrorCode::InvalidProof,
        },
{
    if !fee_shares_fit(config.swap_fee, &config.fee_percentage) {
        let leaf = nft_leaf(&nft_mint);
        if verify(copy_proof(&proof), pool.root_mint, leaf) {
            return None;
        }
    }
    Some(token_to_nft(config, pool, nft_mint, id, bump, proof))
}

/// A sale moves one NFT into the pool and the price in tokens out of it, and
/// pays the swap fee; a purchase does the reverse, for the same fee. So buying
/// an NFT and selling it back leaves the pool's holdings as they were, and
/// costs the trader twice the swap fee.
pub proof fn lemma_buy_then_sell_nets_out(config: Config, pool: HybridPool)
    requires
        fees_fit(config.swap_fee, config.fee_percentage),
    ensures
        pool_delta(sell_transfers(config, pool), Asset::Nft) == 1,
        pool_delta(sell_transfers(config, pool), Asset::Token) == -(pool.nft_price as int),
        pool_delta(buy_transfers(config, pool), Asset::Nft) == -1,
        pool_delta(buy_transfers(config, pool), Asset::Token) == pool.nft_price as int,
        fees_paid(sell_transfers(config, pool)) == total_fee(config.swap_fee, config.fee_percentage),
        fees_paid(buy_transfers(config, pool)) == total_fee(config.swap_fee, config.fee_percentage),
        pool_delta(buy_transfers(config, pool) + sell_transfers(config, pool), Asset::Nft) == 0,
        pool_delta(buy_transfers(config, pool) + sell_transfers(config, pool), Asset::Token) == 0,
        fees_paid(buy_transfers(config, pool) + sell_transfers(config, pool))
            == 2 * total_fee(config.swap_fee, config.fee_percentage),
{
    let f = fee_transfers(config.swap_fee, config.fee_receivers, config.fee_percentage);
    let s: Seq<Transfer> = seq![
        Transfer::Deposit { asset: Asset::Nft, amount: 1 },
        Transfer::Withdraw { asset: Asset::Token, amount: pool.nft_price },
    ];
    let b: Seq<Transfer> = seq![
        Transfer::Deposit { asset: Asset::Token, amount: pool.nft_price },
        Transfer::Withdraw { asset: Asset::Nft, amount: 1 },
    ];
    lemma_fee_transfers_totals(config.swap_fee, config.fee_receivers, config.fee_percentage);
    reveal_with_fuel(pool_delta, 3);
    reveal_with_fuel(fees_paid, 3);
    assert(s.drop_last().drop_last() =~= Seq::<Transfer>::empty());
    assert(b.drop_last().drop_last() =~= Seq::<Transfer>::empty());
    lemma_pool_delta_append(f, s, Asset::Nft);
    lemma_pool_delta_append(f, s, Asset::Token);
    lemma_pool_delta_append(f, b, Asset::Nft);
    lemma_pool_delta_append(f, b, Asset::Token);
    lemma_fees_paid_append(f, s);
    lemma_fees_paid_append(f, b);
    let bt = buy_transfers(config, pool);
    let st = sell_transfers(config, pool);
    lemma_pool_delta_append(bt, st, Asset::Nft);
    lemma_pool_delta_append(bt, st, Asset::Token);
    lemma_fees_paid_append(bt, st);
}

} // verus!
