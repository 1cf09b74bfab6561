//! Splitting a fee among the five fee receivers by their percentages.

use crate::states::Config;
use crate::transfers::{Transfer, fees_paid, pool_delta, Asset};
use crate::utils::verify_hash::bytes_eq;
use vstd::prelude::*;

verus! {

/// The part of `fee` paid to a receiver with percentage `percentage`, rounded down.
pub open spec fn share(fee: u64, percentage: u8) -> int {
    (fee * percentage) / 100
}

/// Whether every product `fee * percentage` fits in a `u64`.
pub open spec fn fees_fit(fee: u64, percentage: [u8; 5]) -> bool {
    forall|i: int| 0 <= i < 5 ==> #[trigger] (fee * percentage@[i]) <= u64::MAX
}

/// The fee payments: receiver `i` gets its share of `fee`, in the order of the receivers.
pub open spec fn fee_transfers(fee: u64, receivers: [[u8; 32]; 5], percentage: [u8; 5]) -> Seq<Transfer> {
    Seq::new(5, |i: int| Transfer::Fee { receiver: receivers@[i], lamports: share(fee, percentage@[i]) as u64 })
}

/// The sum of the five shares of `fee`.
pub open spec fn total_fee(fee: u64, percentage: [u8; 5]) -> int {
    share(fee, percentage@[0]) + share(fee, percentage@[1]) + share(fee, percentage@[2])
        + share(fee, percentage@[3]) + share(fee, percentage@[4])
}

/// The sum of the five percentages.
pub open spec fn total_percentage(percentage: [u8; 5]) -> int {
    percentage@[0] + percentage@[1] + percentage@[2] + percentage@[3] + percentage@[4]
}

/// The part of `fee` paid to a receiver with percentage `percentage`.
pub fn fee_share(fee: u64, percentage: u8) -> (amount: u64)
    requires
        fee * percentage <= u64::MAX,
    ensures
        amount == share(fee, percentage),
        amount * 100 <= fee * percentage < (amount + 1) * 100,
{
    let amount = fee * (percentage as u64) / 100;
    proof {
        lemma_share_is_floor_percent(fee, percentage);
    }
    amount
}

/// The five fee payments of `fee`, one to each receiver, in order.
pub fn fee_payments(fee: u64, receivers: &[[u8; 32]; 5], percentage: &[u8; 5]) -> (payments: Vec<Transfer>)
    requires
        fees_fit(fee, *percentage),
    ensures
        payments@ == fee_transfers(fee, *receivers, *percentage),
        payments@.len() == 5,
        forall|i: int| 0 <= i < 5 ==> {
            &&& #[trigger] payments@[i] is Fee
            &&& payments@[i]->receiver == receivers@[i]
            &&& payments@[i]->lamports * 100 <= fee * percentage@[i] < (payments@[i]->lamports + 1) * 100
        },
{
    let mut payments: Vec<Transfer> = Vec::new();
    let mut i: usize = 0;
    while i < 5
        invariant
            0 <= i <= 5,
            fees_fit(fee, *percentage),
            percentage@.len() == 5,
            receivers@.len() == 5,
            payments@ =~= fee_transfers(fee, *receivers, *percentage).take(i as int),
        decreases 5 - i,
    {
        assert(fee * percentage@[i as int] <= u64::MAX);
        let lamports = fee_share(fee, percentage[i]);
        payments.push(Transfer::Fee { receiver: receivers[i], lamports });
        i = i + 1;
    }
    assert(fee_transfers(fee, *receivers, *percentage).take(5) =~= fee_transfers(fee, *receivers, *percentage));
    proof {
        lemma_fee_transfers_pay_each_receiver(fee, *receivers, *percentage);
    }
    payments
}

/// Whether every share of `fee` can be computed in a `u64`.
pub fn fee_shares_fit(fee: u64, percentage: &[u8; 5]) -> (fit: bool)
    ensures
        fit == fees_fit(fee, *percentage),
{
    let mut i: usize = 0;
    while i < 5
        invariant
            0 <= i <= 5,
            percentage@.len() == 5,
            forall|j: int| 0 <= j < i ==> #[trigger] (fee * percentage@[j]) <= u64::MAX,
        decreases 5 - i,
    {
        if fee.checked_mul(percentage[i] as u64).is_none() {
            assert(fee * percentage@[i as int] > u64::MAX);
            return false;
        }
        i = i + 1;
    }
    true
}

/// Whether the five fee receiver accounts given to an instruction are, in
/// order, the receivers named in the configuration.
pub fn fee_receivers_match(config: &Config, receivers: &[[u8; 32]; 5]) -> (matches: bool)
    ensures
        matches == (forall|i: int| 0 <= i < 5 ==> #[trigger] receivers@[i]@ == config.fee_receivers@[i]@),
{
    let mut i: usize = 0;
    while i < 5
        invariant
            0 <= i <= 5,
            receivers@.len() == 5,
            config.fee_receivers@.len() == 5,
            forall|j: int| 0 <= j < i ==> #[trigger] receivers@[j]@ == config.fee_receivers@[j]@,
        decreases 5 - i,
    {
        if !bytes_eq(&receivers[i], &config.fee_receivers[i]) {
            return false;
        }
        i = i + 1;
    }
    true
}

/// A receiver's share is its percentage of the fee, rounded down: the largest
/// amount whose hundredfold does not exceed `fee * percentage`.
pub proof fn lemma_share_is_floor_percent(fee: u64, percentage: u8)
    ensures
        share(fee, percentage) * 100 <= fee * percentage < (share(fee, percentage) + 1) * 100,
        share(fee, percentage) >= 0,
{
    let x = fee * percentage;
    assert(x >= 0) by (nonlinear_arith)
        requires
            x == fee * percentage,
            fee >= 0,
            percentage >= 0,
    ;
    assert((x / 100) * 100 <= x < (x / 100 + 1) * 100) by (nonlinear_arith)
        requires
            x >= 0,
    ;
}

/// The fee payments pay, in order, receiver `i` its own percentage of the fee
/// rounded down, for each of the five receivers.
pub proof fn lemma_fee_transfers_pay_each_receiver(fee: u64, receivers: [[u8; 32]; 5], percentage: [u8; 5])
    requires
        fees_fit(fee, percentage),
    ensures
        fee_transfers(fee, receivers, percentage).len() == 5,
        forall|i: int| 0 <= i < 5 ==> {
            &&& #[trigger] fee_transfers(fee, receivers, percentage)[i] is Fee
            &&& fee_transfers(fee, receivers, percentage)[i]->receiver == receivers@[i]
            &&& fee_transfers(fee, receivers, percentage)[i]->lamports * 100 <= fee * percentage@[i]
            &&& fee * percentage@[i] < (fee_transfers(fee, receivers, percentage)[i]->lamports + 1) * 100
        },
{
    assert forall|i: int| 0 <= i < 5 implies {
        &&& #[trigger] fee_transfers(fee, receivers, percentage)[i] is Fee
        &&& fee_transfers(fee, receivers, percentage)[i]->receiver == receivers@[i]
        &&& fee_transfers(fee, receivers, percentage)[i]->lamports * 100 <= fee * percentage@[i]
        &&& fee * percentage@[i] < (fee_transfers(fee, receivers, percentage)[i]->lamports + 1) * 100
    } by {
        lemma_share_is_floor_percent(fee, percentage@[i]);
        assert(fee * percentage@[i] <= u64::MAX);
        assert(share(fee, percentage@[i]) <= fee * percentage@[i]) by (nonlinear_arith)
            requires
                share(fee, percentage@[i]) * 100 <= fee * percentage@[i],
                share(fee, percentage@[i]) >= 0,
        ;
    }
}

proof fn lemma_floor_sum(x: int, y: int)
    requires
        x >= 0,
        y >= 0,
    ensures
        x / 100 + y / 100 <= (x + y) / 100,
{
    assert(x / 100 + y / 100 <= (x + y) / 100) by (nonlinear_arith)
        requires
            x >= 0,
            y >= 0,
    ;
}

/// The fee payments move no token or NFT, and pay exactly the five shares.
pub proof fn lemma_fee_transfers_totals(fee: u64, receivers: [[u8; 32]; 5], percentage: [u8; 5])
    requires
        fees_fit(fee, percentage),
    ensures
        fees_paid(fee_transfers(fee, receivers, percentage)) == total_fee(fee, percentage),
        pool_delta(fee_transfers(fee, receivers, percentage), Asset::Token) == 0,
        pool_delta(fee_transfers(fee, receivers, percentage), Asset::Nft) == 0,
{
    let ts = fee_transfers(fee, receivers, percentage);
    reveal_with_fuel(fees_paid, 6);
    reveal_with_fuel(pool_delta, 6);
    assert(ts.drop_last() =~= ts.take(4));
    assert(ts.take(4).drop_last() =~= ts.take(3));
    assert(ts.take(3).drop_last() =~= ts.take(2));
    assert(ts.take(2).drop_last() =~= ts.take(1));
    assert(ts.take(1).drop_last() =~= ts.take(0));
    assert forall|i: int| 0 <= i < 5 implies 0 <= #[trigger] share(fee, percentage@[i]) <= u64::MAX by {
        assert(fee * percentage@[i] <= u64::MAX);
        assert(0 <= fee * percentage@[i] / 100 <= fee * percentage@[i]) by (nonlinear_arith)
            requires
                0 <= percentage@[i],
                0 <= fee,
        ;
    }
    assert(share(fee, percentage@[0]) <= u64::MAX);
    assert(share(fee, percentage@[1]) <= u64::MAX);
    assert(share(fee, percentage@[2]) <= u64::MAX);
    assert(share(fee, percentage@[3]) <= u64::MAX);
    assert(share(fee, percentage@[4]) <= u64::MAX);
}

/// Rounding each share down never pays more than the sum of the percentages of
/// `fee`; so when the percentages add up to at most 100, the receivers together
/// get at most `fee`.
pub proof fn lemma_total_fee_bounded(fee: u64, percentage: [u8; 5])
    ensures
        total_fee(fee, percentage) <= (fee * total_percentage(percentage)) / 100,
        total_percentage(percentage) <= 100 ==> total_fee(fee, percentage) <= fee,
{
    let p0 = percentage@[0] as int;
    let p1 = percentage@[1] as int;
    let p2 = percentage@[2] as int;
    let p3 = percentage@[3] as int;
    let p4 = percentage@[4] as int;
    let f = fee as int;
    assert(f * p0 >= 0 && f * p1 >= 0 && f * p2 >= 0 && f * p3 >= 0 && f * p4 >= 0) by (nonlinear_arith)
        requires
            f >= 0,
            p0 >= 0,
            p1 >= 0,
            p2 >= 0,
            p3 >= 0,
            p4 >= 0,
    ;
    lemma_floor_sum(f * p0, f * p1);
    lemma_floor_sum(f * p0 + f * p1, f * p2);
    lemma_floor_sum(f * p0 + f * p1 + f * p2, f * p3);
    lemma_floor_sum(f * p0 + f * p1 + f * p2 + f * p3, f * p4);
    assert(f * p0 + f * p1 + f * p2 + f * p3 + f * p4 == f * (p0 + p1 + p2 + p3 + p4)) by (nonlinear_arith);
    if total_percentage(percentage) <= 100 {
        assert(f * (p0 + p1 + p2 + p3 + p4) / 100 <= f) by (nonlinear_arith)
            requires
                f >= 0,
                0 <= p0 + p1 + p2 + p3 + p4 <= 100,
        ;
    }
}

} // verus!
