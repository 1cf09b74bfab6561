//! The transfers that an instruction makes, in the order in which it makes them.

use vstd::prelude::*;

verus! {

/// What a token transfer moves.
#[derive(Debug, Clone, Copy, PartialEq, Eq)]
pub enum Asset {
    /// The pool's fungible token.
    Token,
    /// The NFT named by the instruction.
    Nft,
}

/// One transfer of an instruction.
#[derive(Debug, Clone, Copy, PartialEq, Eq)]
pub enum Transfer {
    /// Lamports from the signer to a fee receiver.
    Fee { receiver: [u8; 32], lamports: u64 },
    /// From the signer's account into the pool's account.
    Deposit { asset: Asset, amount: u64 },
    /// From the pool's account to the signer's account, signed by the pool.
    Withdraw { asset: Asset, amount: u64 },
}

/// How much of `asset` a transfer moves into the pool (negative: out of it).
pub open spec fn pool_delta_of(t: Transfer, asset: Asset) -> int {
    match t {
        Transfer::Fee { .. } => 0,
        Transfer::Deposit { asset: a, amount } => if a == asset { amount as int } else { 0 },
        Transfer::Withdraw { asset: a, amount } => if a == asset { -(amount as int) } else { 0 },
    }
}

/// How much of `asset` a list of transfers moves into the pool (negative: out of it).
pub open spec fn pool_delta(ts: Seq<Transfer>, asset: Asset) -> int
    decreases ts.len(),
{
    if ts.len() == 0 {
        0
    } else {
        pool_delta(ts.drop_last(), asset) + pool_delta_of(ts.last(), asset)
    }
}

/// The lamports paid in fees by a list of transfers.
pub open spec fn fees_paid(ts: Seq<Transfer>) -> int
    decreases ts.len(),
{
    if ts.len() == 0 {
        0
    } else {
        fees_paid(ts.drop_last()) + match ts.last() {
            Transfer::Fee { lamports, .. } => lamports as int,
            _ => 0,
        }
    }
}

/// Transfers of two lists, one after the other, move the sum of what each moves.
pub proof fn lemma_pool_delta_append(a: Seq<Transfer>, b: Seq<Transfer>, asset: Asset)
    ensures
        pool_delta(a + b, asset) == pool_delta(a, asset) + pool_delta(b, asset),
    decreases b.len(),
{
    if b.len() == 0 {
        assert(a + b =~= a);
    } else {
        lemma_pool_delta_append(a, b.drop_last(), asset);
        assert((a + b).drop_last() =~= a + b.drop_last());
    }
}

/// Fees of two lists, one after the other, are the sum of the fees of each.
pub proof fn lemma_fees_paid_append(a: Seq<Transfer>, b: Seq<Transfer>)
    ensures
        fees_paid(a + b) == fees_paid(a) + fees_paid(b),
    decreases b.len(),
{
    if b.len() == 0 {
        assert(a + b =~= a);
    } else {
        lemma_fees_paid_append(a, b.drop_last());
        assert((a + b).drop_last() =~= a + b.drop_last());
    }
}

} // verus!
