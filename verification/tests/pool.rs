use anchor_lang::solana_program::keccak;
use joker_swap::contexts::increase_liquidity::{apply_liquidity_deposit, can_count_deposit, try_increase_liquidity};
use joker_swap::contexts::init_config::may_write_config;
use joker_swap::contexts::swap_instruction::{
    plan_nft_to_token, plan_token_to_nft, pool_matches, try_nft_to_token, try_token_to_nft,
};
use joker_swap::contexts::{
    change_root, decrease_liquidity, increase_liquidity, initialize_config, initialize_pool,
    nft_to_token, token_to_nft,
};
use joker_swap::fees::{fee_payments, fee_receivers_match, fee_share, fee_shares_fit};
use joker_swap::states::{Config, HybridPool, UserData};
use joker_swap::transfers::{Asset, Transfer};
use joker_swap::ErrorCode;

fn key(byte: u8) -> [u8; 32] {
    [byte; 32]
}

fn sorted_hash(a: [u8; 32], b: [u8; 32]) -> [u8; 32] {
    if a <= b {
        keccak::hashv(&[&a, &b]).0
    } else {
        keccak::hashv(&[&b, &a]).0
    }
}

fn config() -> Config {
    Config {
        owner: key(1),
        fee_receivers: [key(101), key(102), key(103), key(104), key(105)],
        fee_percentage: [40, 30, 20, 5, 5],
        swap_fee: 1_000,
        init_fee: 5_000,
    }
}

/// A pool whose tree holds the NFTs with mints key(11) and key(12).
fn pool() -> HybridPool {
    let l0 = keccak::hash(&key(11)).0;
    let l1 = keccak::hash(&key(12)).0;
    HybridPool { owner: key(2), root_mint: sorted_hash(l0, l1), token_mint: key(3), nft_price: 250, id: 7 }
}

fn proof_for_first() -> Vec<[u8; 32]> {
    vec![keccak::hash(&key(12)).0]
}

fn fresh_user() -> UserData {
    UserData { owner: [0; 32], pool: [0; 32], token_amount: 0, nft_count: 0, initialized: false }
}

fn fees(fee: u64) -> Vec<Transfer> {
    let c = config();
    (0..5)
        .map(|i| Transfer::Fee { receiver: c.fee_receivers[i], lamports: fee * c.fee_percentage[i] as u64 / 100 })
        .collect()
}

#[test]
fn fee_share_rounds_down() {
    assert_eq!(fee_share(1_000, 30), 300);
    assert_eq!(fee_share(999, 33), 329);
    assert_eq!(fee_share(7, 0), 0);
    assert_eq!(fee_share(u64::MAX, 1), u64::MAX / 100);
}

#[test]
fn fee_payments_follow_receivers_in_order() {
    let c = config();
    let p = fee_payments(1_000, &c.fee_receivers, &c.fee_percentage);
    assert_eq!(
        p,
        vec![
            Transfer::Fee { receiver: key(101), lamports: 400 },
            Transfer::Fee { receiver: key(102), lamports: 300 },
            Transfer::Fee { receiver: key(103), lamports: 200 },
            Transfer::Fee { receiver: key(104), lamports: 50 },
            Transfer::Fee { receiver: key(105), lamports: 50 },
        ]
    );
}

#[test]
fn fee_total_never_exceeds_fee_when_percentages_sum_to_at_most_100() {
    let receivers = [key(1); 5];
    let pct = [33u8, 33, 33, 1, 0];
    for fee in [0u64, 1, 99, 100, 101, 12_345, 1_000_000_007] {
        let total: u64 = fee_payments(fee, &receivers, &pct)
            .iter()
            .map(|t| match t {
                Transfer::Fee { lamports, .. } => *lamports,
                _ => 0,
            })
            .sum();
        assert!(total <= fee);
    }
}

#[test]
fn fee_receivers_must_match_config_in_order() {
    let c = config();
    assert!(fee_receivers_match(&c, &c.fee_receivers));
    let mut swapped = c.fee_receivers;
    swapped.swap(0, 1);
    assert!(!fee_receivers_match(&c, &swapped));
}

#[test]
fn config_written_by_owner_or_when_unowned() {
    let mut c = config();
    assert!(may_write_config(&c, &key(1)));
    assert!(!may_write_config(&c, &key(9)));
    c.owner = [0; 32];
    assert!(may_write_config(&c, &key(9)));
    initialize_config(&mut c, key(9), 254, 10, 20, [key(5); 5], [20; 5]);
    assert_eq!(
        c,
        Config { owner: key(9), fee_receivers: [key(5); 5], fee_percentage: [20; 5], swap_fee: 10, init_fee: 20 }
    );
}

#[test]
fn initialize_pool_sets_fields_and_charges_init_fee() {
    let (p, transfers) = initialize_pool(&config(), key(2), key(3), 7, 250, key(77));
    assert_eq!(p, HybridPool { owner: key(2), root_mint: key(77), token_mint: key(3), nft_price: 250, id: 7 });
    assert_eq!(transfers, fees(5_000));
    assert_eq!(transfers[0], Transfer::Fee { receiver: key(101), lamports: 2_000 });
}

#[test]
fn change_root_changes_only_root() {
    let mut p = pool();
    let before = p;
    change_root(&mut p, 7, 255, key(66));
    assert_eq!(p.root_mint, key(66));
    assert_eq!(HybridPool { root_mint: before.root_mint, ..p }, before);
}

#[test]
fn pool_matches_checks_mint_and_id() {
    let p = pool();
    assert!(pool_matches(&p, &key(3), 7));
    assert!(!pool_matches(&p, &key(4), 7));
    assert!(!pool_matches(&p, &key(3), 8));
}

#[test]
fn add_liquidity_registers_and_counts_deposit() {
    let p = pool();
    let mut u = fresh_user();
    let r = increase_liquidity(&p, &mut u, key(50), key(60), key(11), 7, proof_for_first());
    assert_eq!(
        r,
        Ok(vec![
            Transfer::Deposit { asset: Asset::Token, amount: 250 },
            Transfer::Deposit { asset: Asset::Nft, amount: 1 },
        ])
    );
    assert_eq!(u, UserData { owner: key(50), pool: key(60), token_amount: 250, nft_count: 1, initialized: true });
    let r = increase_liquidity(&p, &mut u, key(50), key(60), key(12), 7, vec![keccak::hash(&key(11)).0]);
    assert!(r.is_ok());
    assert_eq!(u.nft_count, 2);
    assert_eq!(u.token_amount, 500);
}

#[test]
fn add_liquidity_with_bad_proof_fails_and_changes_nothing() {
    let p = pool();
    let mut u = fresh_user();
    let r = increase_liquidity(&p, &mut u, key(50), key(60), key(13), 7, proof_for_first());
    assert_eq!(r, Err(ErrorCode::InvalidProof));
    assert_eq!(u, fresh_user());
}

#[test]
fn apply_liquidity_deposit_follows_the_proof_result() {
    let p = pool();
    let mut u = UserData { owner: key(50), pool: key(60), token_amount: 10, nft_count: 3, initialized: true };
    assert_eq!(apply_liquidity_deposit(&p, &mut u, key(1), key(1), false), Err(ErrorCode::InvalidProof));
    assert_eq!(u.nft_count, 3);
    assert!(apply_liquidity_deposit(&p, &mut u, key(1), key(1), true).is_ok());
    assert_eq!(u, UserData { owner: key(50), pool: key(60), token_amount: 260, nft_count: 4, initialized: true });
}

fn provider(tokens: u64, nfts: u64) -> UserData {
    UserData { owner: key(50), pool: key(60), token_amount: tokens, nft_count: nfts, initialized: true }
}

#[test]
fn remove_liquidity_nft_with_price() {
    let p = pool();
    let mut u = provider(600, 2);
    let r = decrease_liquidity(&p, &mut u, 7, 1, 1, 1_000);
    assert_eq!(
        r,
        Ok(vec![
            Transfer::Withdraw { asset: Asset::Nft, amount: 1 },
            Transfer::Withdraw { asset: Asset::Token, amount: 250 },
        ])
    );
    assert_eq!(u, provider(350, 1));
}

#[test]
fn remove_liquidity_nft_only_when_price_not_covered() {
    let p = pool();
    let mut u = provider(100, 2);
    assert_eq!(decrease_liquidity(&p, &mut u, 7, 1, 5, 1_000), Ok(vec![Transfer::Withdraw { asset: Asset::Nft, amount: 1 }]));
    assert_eq!(u, provider(100, 1));
    let mut u = provider(600, 2);
    assert_eq!(decrease_liquidity(&p, &mut u, 7, 1, 5, 249), Ok(vec![Transfer::Withdraw { asset: Asset::Nft, amount: 1 }]));
    assert_eq!(u, provider(600, 1));
}

#[test]
fn remove_liquidity_all_tokens() {
    let p = pool();
    let mut u = provider(123, 0);
    assert_eq!(decrease_liquidity(&p, &mut u, 7, 1, 1, 1_000), Ok(vec![Transfer::Withdraw { asset: Asset::Token, amount: 123 }]));
    assert_eq!(u, provider(0, 0));
    let mut u = provider(123, 4);
    assert_eq!(decrease_liquidity(&p, &mut u, 7, 1, 0, 1_000), Ok(vec![Transfer::Withdraw { asset: Asset::Token, amount: 123 }]));
    assert_eq!(u, provider(0, 4));
}

#[test]
fn remove_liquidity_empty_share() {
    let p = pool();
    let mut u = provider(0, 0);
    assert_eq!(decrease_liquidity(&p, &mut u, 7, 1, 1, 1_000), Err(ErrorCode::EmptyShare));
    let mut u = provider(0, 3);
    assert_eq!(decrease_liquidity(&p, &mut u, 7, 1, 0, 1_000), Err(ErrorCode::EmptyShare));
    assert_eq!(u, provider(0, 3));
}

#[test]
fn withdraw_right_after_deposit_gives_back_the_deposit() {
    let p = pool();
    let mut u = provider(40, 2);
    let before = u;
    let deposit = increase_liquidity(&p, &mut u, key(50), key(60), key(11), 7, proof_for_first()).unwrap();
    let withdraw = decrease_liquidity(&p, &mut u, 7, 1, 1, 1_000 + 250).unwrap();
    assert_eq!(u, before);
    let net = |asset: Asset| -> i128 {
        deposit
            .iter()
            .chain(withdraw.iter())
            .map(|t| match *t {
                Transfer::Deposit { asset: a, amount } if a == asset => amount as i128,
                Transfer::Withdraw { asset: a, amount } if a == asset => -(amount as i128),
                _ => 0,
            })
            .sum()
    };
    assert_eq!(net(Asset::Token), 0);
    assert_eq!(net(Asset::Nft), 0);
}

#[test]
fn swaps_with_valid_proof() {
    let c = config();
    let p = pool();
    let mut sell = fees(1_000);
    sell.push(Transfer::Deposit { asset: Asset::Nft, amount: 1 });
    sell.push(Transfer::Withdraw { asset: Asset::Token, amount: 250 });
    assert_eq!(nft_to_token(&c, &p, key(11), 7, 1, proof_for_first()), Ok(sell.clone()));
    let mut buy = fees(1_000);
    buy.push(Transfer::Deposit { asset: Asset::Token, amount: 250 });
    buy.push(Transfer::Withdraw { asset: Asset::Nft, amount: 1 });
    assert_eq!(token_to_nft(&c, &p, key(11), 7, 1, proof_for_first()), Ok(buy.clone()));
    assert_eq!(plan_nft_to_token(&c, &p, true), Ok(sell));
    assert_eq!(plan_token_to_nft(&c, &p, true), Ok(buy));
}

#[test]
fn swaps_with_invalid_proof() {
    let c = config();
    let p = pool();
    assert_eq!(nft_to_token(&c, &p, key(13), 7, 1, proof_for_first()), Err(ErrorCode::InvalidProof));
    assert_eq!(token_to_nft(&c, &p, key(11), 7, 1, vec![]), Err(ErrorCode::InvalidProof));
    assert_eq!(plan_nft_to_token(&c, &p, false), Err(ErrorCode::InvalidProof));
    assert_eq!(plan_token_to_nft(&c, &p, false), Err(ErrorCode::InvalidProof));
}

#[test]
fn buy_then_sell_leaves_pool_holdings_unchanged() {
    let c = config();
    let p = pool();
    let buy = token_to_nft(&c, &p, key(12), 7, 1, vec![keccak::hash(&key(11)).0]).unwrap();
    let sell = nft_to_token(&c, &p, key(12), 7, 1, vec![keccak::hash(&key(11)).0]).unwrap();
    let mut tokens: i128 = 0;
    let mut nfts: i128 = 0;
    let mut lamports: u64 = 0;
    for t in buy.iter().chain(sell.iter()) {
        match *t {
            Transfer::Deposit { asset: Asset::Token, amount } => tokens += amount as i128,
            Transfer::Withdraw { asset: Asset::Token, amount } => tokens -= amount as i128,
            Transfer::Deposit { asset: Asset::Nft, amount } => nfts += amount as i128,
            Transfer::Withdraw { asset: Asset::Nft, amount } => nfts -= amount as i128,
            Transfer::Fee { lamports: l, .. } => lamports += l,
        }
    }
    assert_eq!(tokens, 0);
    assert_eq!(nfts, 0);
    assert_eq!(lamports, 2 * 1_000);
}

#[test]
fn error_messages() {
    assert_eq!(ErrorCode::IncorrectTokenAddress.message(), "token address is incorrect.");
    assert_eq!(ErrorCode::IncorrectMintAddress.message(), "mint address is incorrect.");
    assert_eq!(ErrorCode::IncorrectOwnerAddress.message(), "owner address is incorrect.");
    assert_eq!(ErrorCode::InvalidProof.message(), "proof is incorrect.");
    assert_eq!(ErrorCode::EmptyShare.message(), "you have no share");
    assert_eq!(ErrorCode::BadMetadata.message(), "Bad Metadata");
    assert_eq!(ErrorCode::BadRuleset.message(), "Bad Ruleset");
}

#[test]
fn fee_shares_fit_detects_overflow() {
    assert!(fee_shares_fit(1_000, &[100, 100, 100, 100, 100]));
    assert!(fee_shares_fit(u64::MAX, &[1, 0, 1, 0, 1]));
    assert!(!fee_shares_fit(u64::MAX, &[1, 0, 2, 0, 1]));
    assert!(!fee_shares_fit(u64::MAX / 2 + 1, &[0, 0, 0, 0, 2]));
}

#[test]
fn can_count_deposit_checks_counters() {
    assert!(can_count_deposit(&fresh_user(), u64::MAX));
    assert!(can_count_deposit(&provider(10, 3), 250));
    assert!(!can_count_deposit(&provider(u64::MAX - 249, 3), 250));
    assert!(can_count_deposit(&provider(u64::MAX - 250, 3), 250));
    assert!(!can_count_deposit(&provider(0, u64::MAX), 250));
}

#[test]
fn try_increase_liquidity_reports_counter_overflow_only_for_valid_proofs() {
    let p = pool();
    let mut u = provider(u64::MAX - 1, 1);
    assert_eq!(try_increase_liquidity(&p, &mut u, key(50), key(60), key(11), 7, proof_for_first()), None);
    assert_eq!(u, provider(u64::MAX - 1, 1));
    assert_eq!(
        try_increase_liquidity(&p, &mut u, key(50), key(60), key(13), 7, proof_for_first()),
        Some(Err(ErrorCode::InvalidProof))
    );
    let mut u = provider(5, 1);
    assert!(matches!(
        try_increase_liquidity(&p, &mut u, key(50), key(60), key(11), 7, proof_for_first()),
        Some(Ok(_))
    ));
    assert_eq!(u, provider(255, 2));
}

#[test]
fn try_swaps_report_fee_overflow_only_for_valid_proofs() {
    let mut c = config();
    c.swap_fee = u64::MAX;
    let p = pool();
    assert_eq!(try_nft_to_token(&c, &p, key(11), 7, 1, proof_for_first()), None);
    assert_eq!(try_token_to_nft(&c, &p, key(11), 7, 1, proof_for_first()), None);
    assert_eq!(try_nft_to_token(&c, &p, key(13), 7, 1, proof_for_first()), Some(Err(ErrorCode::InvalidProof)));
    assert_eq!(try_token_to_nft(&c, &p, key(13), 7, 1, proof_for_first()), Some(Err(ErrorCode::InvalidProof)));
    let c = config();
    assert_eq!(try_nft_to_token(&c, &p, key(11), 7, 1, proof_for_first()), Some(nft_to_token(&c, &p, key(11), 7, 1, proof_for_first())));
    assert_eq!(try_token_to_nft(&c, &p, key(11), 7, 1, proof_for_first()), Some(token_to_nft(&c, &p, key(11), 7, 1, proof_for_first())));
}
