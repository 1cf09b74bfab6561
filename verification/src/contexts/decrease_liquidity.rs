//! Removing liquidity: an NFT with, if it can be paid, its price in tokens; or
//! else all the provider's tokens.

use crate::errors::ErrorCode;
use crate::states::{HybridPool, UserData};
use crate::contexts::increase_liquidity::{after_deposit, deposit_fits, deposit_transfers, registered};
use crate::transfers::{Asset, Transfer, lemma_pool_delta_append, pool_delta};
use vstd::prelude::*;

verus! {

/// What removing liquidity does to the share `user`: the new share and the
/// transfers out of the pool, or the error.
/// - When an NFT is asked for (`nft_count > 0`) and the share holds one, one NFT
///   leaves the pool, and the price in tokens with it if both the share and the
///   pool's token balance `balance` cover the price.
/// - Otherwise, when the share holds tokens, all of them leave the pool.
/// - Otherwise the share is empty: `EmptyShare`.
pub open spec fn withdrawal(user: UserData, nft_count: u64, price: u64, balance: u64)
    -> Result<(UserData, Seq<Transfer>), ErrorCode>
{
    if nft_count > 0 && user.nft_count > 0 {
        if user.token_amount >= price && balance >= price {
            Ok((
                UserData {
                    nft_count: (user.nft_count - 1) as u64,
                    token_amount: (user.token_amount - price) as u64,
                    ..user
                },
                seq![
                    Transfer::Withdraw { asset: Asset::Nft, amount: 1 },
                    Transfer::Withdraw { asset: Asset::Token, amount: price },
                ],
            ))
        } else {
            Ok((
                UserData { nft_count: (user.nft_count - 1) as u64, ..user },
                seq![Transfer::Withdraw { asset: Asset::Nft, amount: 1 }],
            ))
        }
    } else if user.token_amount > 0 {
        Ok((
            UserData { token_amount: 0, ..user },
            seq![Transfer::Withdraw { asset: Asset::Token, amount: user.token_amount }],
        ))
    } else {
        Err(ErrorCode::EmptyShare)
    }
}

/// Removes liquidity from the pool for the provider whose share is `user_data`.
/// `pool_balance` is the pool's token balance. What leaves the pool is exactly
/// what the share loses.
pub fn decrease_liquidity(
    pool: &HybridPool,
    user_data: &mut UserData,
    _id: u16,
    _bump: u8,
    nft_count: u64,
    pool_balance: u64,
) -> (result: Result<Vec<Transfer>, ErrorCode>)
    ensures
        match result {
            Ok(transfers) => withdrawal(*old(user_data), nft_count, pool.nft_price, pool_balance)
                == Ok::<(UserData, Seq<Transfer>), ErrorCode>((*final(user_data), transfers@)),
            Err(e) => withdrawal(*old(user_data), nft_count, pool.nft_price, pool_balance)
                == Err::<(UserData, Seq<Transfer>), ErrorCode>(e) && *final(user_data) == *old(user_data),
        },
        result is Ok ==> final(user_data).token_amount - pool_delta(result->Ok_0@, Asset::Token)
            == old(user_data).token_amount,
        result is Ok ==> final(user_data).nft_count - pool_delta(result->Ok_0@, Asset::Nft)
            == old(user_data).nft_count,
        result is Err <==> ((nft_count == 0 || old(user_data).nft_count == 0)
            && old(user_data).token_amount == 0),
{
    let mut transfers: Vec<Transfer> = Vec::new();
    if nft_count > 0 && user_data.nft_count > 0 {
        transfers.push(Transfer::Withdraw { asset: Asset::Nft, amount: 1 });
        user_data.nft_count = user_data.nft_count - 1;
        if user_data.token_amount >= pool.nft_price && pool_balance >= pool.nft_price {
            transfers.push(Transfer::Withdraw { asset: Asset::Token, amount: pool.nft_price });
            user_data.token_amount = user_data.token_amount - pool.nft_price;
        }
    } else if user_data.token_amount > 0 {
        transfers.push(Transfer::Withdraw { asset: Asset::Token, amount: user_data.token_amount });
        user_data.token_amount = 0;
    } else {
        return Err(ErrorCode::EmptyShare);
    }
    proof {
        reveal_with_fuel(pool_delta, 3);
        let w = withdrawal(*old(user_data), nft_count, pool.nft_price, pool_balance);
        assert(w is Ok);
        assert(transfers@ =~= w->Ok_0.1);
        assert(transfers@.drop_last().len() <= 1);
        if transfers@.len() == 2 {
            assert(transfers@.drop_last().drop_last() =~= Seq::<Transfer>::empty());
        } else {
            assert(transfers@.drop_last() =~= Seq::<Transfer>::empty());
        }
    }
    Ok(transfers)
}

/// What removing liquidity pays out: when an NFT is asked for and the share
/// holds one, exactly one NFT leaves the pool, with the price in tokens exactly
/// when both the share and the pool's balance cover it; otherwise, when the
/// share holds tokens, all of them leave and no NFT does. A payout of tokens
/// never exceeds the share's tokens nor, with an NFT, the pool's balance.
pub proof fn lemma_withdrawal_payouts(user: UserData, nft_count: u64, price: u64, balance: u64)
    ensures
        (nft_count > 0 && user.nft_count > 0) ==> {
            &&& withdrawal(user, nft_count, price, balance) is Ok
            &&& pool_delta(withdrawal(user, nft_count, price, balance)->Ok_0.1, Asset::Nft) == -1
            &&& pool_delta(withdrawal(user, nft_count, price, balance)->Ok_0.1, Asset::Token) == if user.token_amount
                >= price && balance >= price {
                -(price as int)
            } else {
                0
            }
            &&& withdrawal(user, nft_count, price, balance)->Ok_0.0.nft_count == user.nft_count - 1
        },
        (!(nft_count > 0 && user.nft_count > 0) && user.token_amount > 0) ==> {
            &&& withdrawal(user, nft_count, price, balance) is Ok
            &&& pool_delta(withdrawal(user, nft_count, price, balance)->Ok_0.1, Asset::Nft) == 0
            &&& pool_delta(withdrawal(user, nft_count, price, balance)->Ok_0.1, Asset::Token)
                == -(user.token_amount as int)
            &&& withdrawal(user, nft_count, price, balance)->Ok_0.0.token_amount == 0
            &&& withdrawal(user, nft_count, price, balance)->Ok_0.0.nft_count == user.nft_count
        },
        (!(nft_count > 0 && user.nft_count > 0) && user.token_amount == 0) ==> withdrawal(
            user,
            nft_count,
            price,
            balance,
        ) == Err::<(UserData, Seq<Transfer>), ErrorCode>(ErrorCode::EmptyShare),
        withdrawal(user, nft_count, price, balance) is Ok ==> {
            &&& withdrawal(user, nft_count, price, balance)->Ok_0.0.owner == user.owner
            &&& withdrawal(user, nft_count, price, balance)->Ok_0.0.pool == user.pool
            &&& withdrawal(user, nft_count, price, balance)->Ok_0.0.initialized == user.initialized
        },
{
    reveal_with_fuel(pool_delta, 3);
    let w = withdrawal(user, nft_count, price, balance);
    if w is Ok {
        let ts = w->Ok_0.1;
        if ts.len() == 2 {
            assert(ts.drop_last().drop_last() =~= Seq::<Transfer>::empty());
        } else {
            assert(ts.drop_last() =~= Seq::<Transfer>::empty());
        }
    }
}

/// Removing liquidity right after adding it undoes the deposit: when an NFT is
/// asked for and the pool's token balance is what it was plus the deposited
/// price, the provider gets the NFT and the price back, the share returns to
/// what it was (as registered), and the pool's holdings are unchanged overall.
pub proof fn lemma_withdraw_undoes_deposit(
    user: UserData,
    signer: [u8; 32],
    pool_key: [u8; 32],
    price: u64,
    nft_count: u64,
    balance_before: u64,
)
    requires
        deposit_fits(user, price),
        nft_count > 0,
        balance_before + price <= u64::MAX,
    ensures
        withdrawal(after_deposit(user, signer, pool_key, price), nft_count, price, (balance_before + price) as u64)
            == Ok::<(UserData, Seq<Transfer>), ErrorCode>((
                registered(user, signer, pool_key),
                seq![
                    Transfer::Withdraw { asset: Asset::Nft, amount: 1 },
                    Transfer::Withdraw { asset: Asset::Token, amount: price },
                ],
            )),
        pool_delta(deposit_transfers(price) + seq![
            Transfer::Withdraw { asset: Asset::Nft, amount: 1 },
            Transfer::Withdraw { asset: Asset::Token, amount: price },
        ], Asset::Token) == 0,
        pool_delta(deposit_transfers(price) + seq![
            Transfer::Withdraw { asset: Asset::Nft, amount: 1 },
            Transfer::Withdraw { asset: Asset::Token, amount: price },
        ], Asset::Nft) == 0,
{
    let w: Seq<Transfer> = seq![
        Transfer::Withdraw { asset: Asset::Nft, amount: 1 },
        Transfer::Withdraw { asset: Asset::Token, amount: price },
    ];
    let d = deposit_transfers(price);
    reveal_with_fuel(pool_delta, 3);
    assert(w.drop_last().drop_last() =~= Seq::<Transfer>::empty());
    assert(d.drop_last().drop_last() =~= Seq::<Transfer>::empty());
    lemma_pool_delta_append(d, w, Asset::Token);
    lemma_pool_delta_append(d, w, Asset::Nft);
    let r = registered(user, signer, pool_key);
    let a = after_deposit(user, signer, pool_key, price);
    assert(UserData { nft_count: (a.nft_count - 1) as u64, token_amount: (a.token_amount - price) as u64, ..a } == r);
}

} // verus!
