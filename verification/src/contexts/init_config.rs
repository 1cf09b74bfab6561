//! Setting the program-wide configuration.

use crate::states::Config;
use crate::utils::verify_hash::bytes_eq;
use vstd::prelude::*;

verus! {

/// The all-zero public key, the owner of a configuration that nobody has written yet.
pub open spec fn zero_key() -> Seq<u8> {
    Seq::new(32, |i: int| 0u8)
}

/// Whether `signer` may write the configuration: it owns it, or nobody does yet.
pub fn may_write_config(config: &Config, signer: &[u8; 32]) -> (allowed: bool)
    ensures
        allowed == (config.owner@ == signer@ || config.owner@ == zero_key()),
{
    let zero: [u8; 32] = [0u8; 32];
    assert(zero@ =~= zero_key());
    bytes_eq(&config.owner, signer) || bytes_eq(&config.owner, &zero)
}

/// Writes the configuration: `signer` becomes its owner, and the fees, fee
/// receivers and their percentages are set.
pub fn initialize_config(
    config: &mut Config,
    signer: [u8; 32],
    _bump: u8,
    swap_fee: u64,
    init_fee: u64,
    fee_receivers: [[u8; 32]; 5],
    fee_percentage: [u8; 5],
)
    ensures
        *final(config) == (Config {
            owner: signer,
            fee_receivers: fee_receivers,
            fee_percentage: fee_percentage,
            swap_fee: swap_fee,
            init_fee: init_fee,
        }),
{
    config.owner = signer;
    config.swap_fee = swap_fee;
    config.init_fee = init_fee;
    config.fee_receivers = fee_receivers;
    config.fee_percentage = fee_percentage;
}

} // verus!
