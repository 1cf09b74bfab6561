//! Adding liquidity: an NFT of the pool's tree and the pool's price in tokens.

use crate::errors::ErrorCode;
use crate::states::{HybridPool, UserData};
use crate::transfers::{Asset, Transfer, pool_delta};
use crate::utils::verify_hash::{copy_proof, mint_in_tree, nft_leaf, verify};
use vstd::prelude::*;

verus! {

/// The provider's share before a deposit: a share seen for the first time is
/// registered to `signer` and `pool_key` and starts empty.
pub open spec fn registered(user: UserData, signer: [u8; 32], pool_key: [u8; 32]) -> UserData {
    if user.initialized {
        user
    } else {
        UserData { owner: signer, pool: pool_key, token_amount: 0, nft_count: 0, initialized: true }
    }
}

/// Whether a deposit of one NFT and `price` tokens can be counted in a `u64`.
pub open spec fn deposit_fits(user: UserData, price: u64) -> bool {
    user.initialized ==> (user.nft_count + 1 <= u64::MAX && user.token_amount + price <= u64::MAX)
}

/// The provider's share after depositing one NFT and `price` tokens.
pub open spec fn after_deposit(user: UserData, signer: [u8; 32], pool_key: [u8; 32], price: u64) -> UserData {
    let r = registered(user, signer, pool_key);
    UserData {
        nft_count: (r.nft_count + 1) as u64,
        token_amount: (r.token_amount + price) as u64,
        ..r
    }
}

/// The transfers of a deposit: `price` tokens, then the NFT, into the pool.
pub open spec fn deposit_transfers(price: u64) -> Seq<Transfer> {
    seq![
        Transfer::Deposit { asset: Asset::Token, amount: price },
        Transfer::Deposit { asset: Asset::Nft, amount: 1 },
    ]
}

/// Adds liquidity once it is known whether the NFT belongs to the pool's tree:
/// if it does, the deposit is counted in the provider's share and its
/// transfers returned; if not, the instruction fails with `InvalidProof`.
pub fn apply_liquidity_deposit(
    pool: &HybridPool,
    user_data: &mut UserData,
    signer: [u8; 32],
    pool_key: [u8; 32],
    in_tree: bool,
) -> (result: Result<Vec<Transfer>, ErrorCode>)
    requires
        in_tree ==> deposit_fits(*old(user_data), pool.nft_price),
    ensures
        match result {
            Ok(transfers) => in_tree && transfers@ == deposit_transfers(pool.nft_price)
                && *final(user_data) == after_deposit(*old(user_data), signer, pool_key, pool.nft_price),
            Err(e) => !in_tree && e == ErrorCode::InvalidProof && *final(user_data) == *old(user_data),
        },
{
    if !in_tree {
        return Err(ErrorCode::InvalidProof);
    }
    if !user_data.initialized {
        user_data.initialized = true;
        user_data.owner = signer;
        user_data.pool = pool_key;
        user_data.nft_count = 0;
        user_data.token_amount = 0;
    }
    let mut transfers: Vec<Transfer> = Vec::new();
    transfers.push(Transfer::Deposit { asset: Asset::Token, amount: pool.nft_price });
    transfers.push(Transfer::Deposit { asset: Asset::Nft, amount: 1 });
    user_data.nft_count = user_data.nft_count + 1;
    user_data.token_amount = user_data.token_amount + pool.nft_price;
    assert(transfers@ =~= deposit_transfers(pool.nft_price));
    Ok(transfers)
}

/// Adds liquidity: `signer` puts the NFT with mint `nft_mint` and the pool's
/// price in tokens into the pool `pool_key`, if `proof` shows that the NFT
/// belongs to the pool's tree; otherwise it fails with `InvalidProof`.
pub fn increase_liquidity(
    pool: &HybridPool,
    user_data: &mut UserData,
    signer: [u8; 32],
    pool_key: [u8; 32],
    nft_mint: [u8; 32],
    _id: u16,
    proof: Vec<[u8; 32]>,
) -> (result: Result<Vec<Transfer>, ErrorCode>)
    requires
        mint_in_tree(proof@, pool.root_mint, nft_mint) ==> deposit_fits(*old(user_data), pool.nft_price),
    ensures
        match result {
            Ok(transfers) => mint_in_tree(proof@, pool.root_mint, nft_mint)
                && transfers@ == deposit_transfers(pool.nft_price)
                && *final(user_data) == after_deposit(*old(user_data), signer, pool_key, pool.nft_price),
            Err(e) => !mint_in_tree(proof@, pool.root_mint, nft_mint) && e == ErrorCode::InvalidProof
                && *final(user_data) == *old(user_data),
        },
{
    let leaf = nft_leaf(&nft_mint);
    let in_tree = verify(proof, pool.root_mint, leaf);
    apply_liquidity_deposit(pool, user_data, signer, pool_key, in_tree)
}

/// A deposit is refused only when one of the share's counters would overflow;
/// an accepted deposit adds exactly one NFT and the price to the share as
/// registered, with nothing wrapping around.
pub proof fn lemma_deposit_refused_only_on_overflow(
    user: UserData,
    signer: [u8; 32],
    pool_key: [u8; 32],
    price: u64,
)
    ensures
        !user.initialized ==> deposit_fits(user, price),
        (user.nft_count < u64::MAX && user.token_amount + price <= u64::MAX) ==> deposit_fits(user, price),
        !deposit_fits(user, price) ==> user.initialized && (user.nft_count == u64::MAX
            || user.token_amount + price > u64::MAX),
        deposit_fits(user, price) ==> {
            &&& after_deposit(user, signer, pool_key, price).nft_count
                == registered(user, signer, pool_key).nft_count + 1
            &&& after_deposit(user, signer, pool_key, price).token_amount
                == registered(user, signer, pool_key).token_amount + price
        },
{
}

/// A deposit moves exactly the price in tokens and one NFT into the pool.
pub proof fn lemma_deposit_moves_price_and_nft(price: u64)
    ensures
        pool_delta(deposit_transfers(price), Asset::Token) == price as int,
        pool_delta(deposit_transfers(price), Asset::Nft) == 1,
{
    reveal_with_fuel(pool_delta, 3);
    assert(deposit_transfers(price).drop_last().drop_last() =~= Seq::<Transfer>::empty());
}

/// Whether a deposit of one NFT and `price` tokens can be counted in the share `user`.
pub fn can_count_deposit(user: &UserData, price: u64) -> (fits: bool)
    ensures
        fits == deposit_fits(*user, price),
        fits == (!user.initialized || (user.nft_count < u64::MAX && user.token_amount + price <= u64::MAX)),
{
    !user.initialized || (user.nft_count < u64::MAX && user.token_amount <= u64::MAX - price)
}

/// Adds liquidity as `increase_liquidity` does, on every input: `None` where
/// the proof is accepted but the share's counters cannot take the deposit
/// (the share is then left as it was).
pub fn try_increase_liquidity(
    pool: &HybridPool,
    user_data: &mut UserData,
    signer: [u8; 32],
    pool_key: [u8; 32],
    nft_mint: [u8; 32],
    id: u16,
    proof: Vec<[u8; 32]>,
) -> (result: Option<Result<Vec<Transfer>, ErrorCode>>)
    ensures
        result is None <==> (mint_in_tree(proof@, pool.root_mint, nft_mint)
            && !deposit_fits(*old(user_data), pool.nft_price)),
        result is None ==> old(user_data).initialized && (old(user_data).nft_count == u64::MAX
            || old(user_data).token_amount + pool.nft_price > u64::MAX),
        match result {
            None => *final(user_data) == *old(user_data),
            Some(Ok(transfers)) => mint_in_tree(proof@, pool.root_mint, nft_mint)
                && transfers@ == deposit_transfers(pool.nft_price)
                && *final(user_data) == after_deposit(*old(user_data), signer, pool_key, pool.nft_price),
            Some(Err(e)) => !mint_in_tree(proof@, pool.root_mint, nft_mint) && e == ErrorCode::InvalidProof
                && *final(user_data) == *old(user_data),
        },
{
    if !can_count_deposit(user_data, pool.nft_price) {
        let leaf = nft_leaf(&nft_mint);
        if verify(copy_proof(&proof), pool.root_mint, leaf) {
            return None;
        }
    }
    Some(increase_liquidity(pool, user_data, signer, pool_key, nft_mint, id, proof))
}

} // verus!
