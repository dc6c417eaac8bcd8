use ico_sale::config::IcoConfig;
use ico_sale::errors::{ErrorCode, SaleError};
use ico_sale::sale::{buy_tokens, create_ico_ata, deposit_ico_in_ata, quote_purchase, Sale};

const TAG: u64 = 42;
const ADMIN: u64 = 7;
const BUYER_A: u64 = 100;
const BUYER_B: u64 = 101;

fn new_sale(initial: u64) -> (Sale, IcoConfig) {
    let cfg = IcoConfig::standard();
    let sale = create_ico_ata(ADMIN, TAG, initial, &cfg, true).expect("creation succeeds");
    (sale, cfg)
}

#[test]
fn create_initializes_ledger_and_vault() {
    let (sale, cfg) = new_sale(1000);
    assert_eq!(sale.data.admin, ADMIN);
    assert_eq!(sale.data.total_tokens, 1000);
    assert_eq!(sale.data.tokens_sold, 0);
    assert_eq!(sale.data.token_price, cfg.lamports_per_token);
    assert_eq!(sale.data.user_purchases.len(), 0);
    assert_eq!(sale.vault.raw_balance, 1000 * cfg.token_decimals);
    assert_eq!(sale.vault.tag, TAG);
}

#[test]
fn create_rejects_scaling_overflow() {
    let cfg = IcoConfig::standard();
    let r = create_ico_ata(ADMIN, TAG, 20_000_000_000, &cfg, true);
    assert_eq!(r, Err(SaleError::Code(ErrorCode::Overflow)));
}

#[test]
fn create_propagates_failed_funding_transfer() {
    let cfg = IcoConfig::standard();
    let r = create_ico_ata(ADMIN, TAG, 1000, &cfg, false);
    assert_eq!(r, Err(SaleError::TokenTransferFailed));
}

#[test]
fn deposit_grows_supply_and_vault_only() {
    let (mut sale, cfg) = new_sale(1000);
    let r = deposit_ico_in_ata(&mut sale, ADMIN, 500, &cfg, true);
    assert_eq!(r, Ok(500 * cfg.token_decimals));
    assert_eq!(sale.data.total_tokens, 1500);
    assert_eq!(sale.data.tokens_sold, 0);
    assert_eq!(sale.data.user_purchases.len(), 0);
    assert_eq!(sale.vault.raw_balance, 1500 * cfg.token_decimals);
}

#[test]
fn deposit_by_non_authority_changes_nothing() {
    let (mut sale, cfg) = new_sale(1000);
    let before = sale.clone();
    let r = deposit_ico_in_ata(&mut sale, ADMIN + 1, 100, &cfg, true);
    assert_eq!(r, Err(SaleError::Code(ErrorCode::InvalidAdmin)));
    assert_eq!(sale, before);
    assert_eq!(sale.data.total_tokens, 1000);
}

#[test]
fn deposit_rejects_scaling_overflow() {
    let (mut sale, cfg) = new_sale(1000);
    let before = sale.clone();
    let r = deposit_ico_in_ata(&mut sale, ADMIN, u64::MAX, &cfg, true);
    assert_eq!(r, Err(SaleError::Code(ErrorCode::Overflow)));
    assert_eq!(sale, before);
}

#[test]
fn deposit_rejects_supply_overflow() {
    // A unit scaling factor lets the committed supply reach the top of the
    // integer range, where a further top-up must abort before any transfer.
    let cfg = IcoConfig {
        lamports_per_token: 1,
        token_decimals: 1,
        max_user_total_limit: 2000,
    };
    let mut sale = create_ico_ata(ADMIN, TAG, u64::MAX - 5, &cfg, true).expect("fits");
    let before = sale.clone();
    let r = deposit_ico_in_ata(&mut sale, ADMIN, 10, &cfg, true);
    assert_eq!(r, Err(SaleError::Code(ErrorCode::Overflow)));
    assert_eq!(sale, before);
}

#[test]
fn deposit_propagates_failed_funding_transfer() {
    let (mut sale, cfg) = new_sale(1000);
    let before = sale.clone();
    let r = deposit_ico_in_ata(&mut sale, ADMIN, 100, &cfg, false);
    assert_eq!(r, Err(SaleError::TokenTransferFailed));
    assert_eq!(sale, before);
}

#[test]
fn deposit_propagates_vault_credit_overflow() {
    // With two raw sub-units per token and part of the supply sold, the vault
    // credit can overflow while the whole-token supply still fits; the
    // fungible-token service's refusal aborts the top-up.
    let cfg = IcoConfig {
        lamports_per_token: 1,
        token_decimals: 2,
        max_user_total_limit: u64::MAX,
    };
    let mut sale = create_ico_ata(ADMIN, TAG, 4_000_000_000_000_000_000, &cfg, true)
        .expect("fits");
    buy_tokens(&mut sale, BUYER_A, TAG, 1, &cfg, true).expect("small purchase");
    let before = sale.clone();
    let r = deposit_ico_in_ata(&mut sale, ADMIN, 6_000_000_000_000_000_000, &cfg, true);
    assert_eq!(r, Err(SaleError::TokenTransferFailed));
    assert_eq!(sale, before);
}

#[test]
fn purchase_updates_ledger_vault_and_receipt() {
    let (mut sale, cfg) = new_sale(1000);
    let receipt = buy_tokens(&mut sale, BUYER_A, TAG, 500, &cfg, true).expect("succeeds");
    assert_eq!(receipt.sol_amount, 500 * cfg.lamports_per_token);
    assert_eq!(receipt.raw_token_amount, 500 * cfg.token_decimals);
    assert_eq!(sale.data.tokens_sold, 500);
    assert_eq!(sale.data.user_purchases.get(BUYER_A), 500);
    assert_eq!(sale.data.total_tokens, 1000);
    assert_eq!(sale.vault.raw_balance, 500 * cfg.token_decimals);
}

#[test]
fn purchase_with_wrong_derivation_proof_changes_nothing() {
    let (mut sale, cfg) = new_sale(1000);
    let before = sale.clone();
    let r = buy_tokens(&mut sale, BUYER_A, TAG + 1, 10, &cfg, true);
    assert_eq!(r, Err(SaleError::VaultAuthorityMismatch));
    assert_eq!(sale, before);
}

#[test]
fn purchase_over_cap_moves_nothing() {
    let (mut sale, cfg) = new_sale(10_000);
    let before = sale.clone();
    let r = buy_tokens(&mut sale, BUYER_A, TAG, 2001, &cfg, true);
    assert_eq!(r, Err(SaleError::Code(ErrorCode::ExceedsTotalUserLimit)));
    assert_eq!(sale, before);
    assert_eq!(sale.vault.raw_balance, 10_000 * cfg.token_decimals);
    assert_eq!(sale.data.user_purchases.get(BUYER_A), 0);
}

#[test]
fn purchase_over_cap_rejected_even_when_payment_would_fail() {
    // The cap check precedes the payment, so the error names the cap, not the
    // payment, and the buyer is never charged.
    let (mut sale, cfg) = new_sale(10_000);
    let r = buy_tokens(&mut sale, BUYER_A, TAG, 2001, &cfg, false);
    assert_eq!(r, Err(SaleError::Code(ErrorCode::ExceedsTotalUserLimit)));
}

#[test]
fn purchase_cumulative_total_overflow_is_rejected() {
    let cfg = IcoConfig {
        lamports_per_token: 0,
        token_decimals: 1,
        max_user_total_limit: u64::MAX,
    };
    let mut sale = create_ico_ata(ADMIN, TAG, 1000, &cfg, true).expect("fits");
    buy_tokens(&mut sale, BUYER_A, TAG, 5, &cfg, true).expect("succeeds");
    let before = sale.clone();
    let r = buy_tokens(&mut sale, BUYER_A, TAG, u64::MAX - 2, &cfg, true);
    assert_eq!(r, Err(SaleError::Code(ErrorCode::Overflow)));
    assert_eq!(sale, before);
}

#[test]
fn purchase_scaling_overflow_is_rejected() {
    let cfg = IcoConfig {
        lamports_per_token: 1,
        token_decimals: 1_000_000_000,
        max_user_total_limit: u64::MAX,
    };
    let mut sale = create_ico_ata(ADMIN, TAG, 1000, &cfg, true).expect("fits");
    let r = buy_tokens(&mut sale, BUYER_A, TAG, 20_000_000_000, &cfg, true);
    assert_eq!(r, Err(SaleError::Code(ErrorCode::Overflow)));
}

#[test]
fn purchase_cost_overflow_is_rejected() {
    let cfg = IcoConfig {
        lamports_per_token: u64::MAX,
        token_decimals: 1,
        max_user_total_limit: u64::MAX,
    };
    let mut sale = create_ico_ata(ADMIN, TAG, 1000, &cfg, true).expect("fits");
    let before = sale.clone();
    let r = buy_tokens(&mut sale, BUYER_A, TAG, 2, &cfg, true);
    assert_eq!(r, Err(SaleError::Code(ErrorCode::Overflow)));
    assert_eq!(sale, before);
}

#[test]
fn purchase_with_failed_payment_changes_nothing() {
    let (mut sale, cfg) = new_sale(1000);
    let before = sale.clone();
    let r = buy_tokens(&mut sale, BUYER_A, TAG, 500, &cfg, false);
    assert_eq!(r, Err(SaleError::PaymentFailed));
    assert_eq!(sale, before);
    assert_eq!(sale.vault.raw_balance, 1000 * cfg.token_decimals);
    assert_eq!(sale.data.user_purchases.get(BUYER_A), 0);
}

#[test]
fn purchase_beyond_vault_balance_is_refused() {
    let (mut sale, cfg) = new_sale(1000);
    let before = sale.clone();
    let r = buy_tokens(&mut sale, BUYER_A, TAG, 1500, &cfg, true);
    assert_eq!(r, Err(SaleError::TokenTransferFailed));
    assert_eq!(sale, before);
    assert_eq!(sale.vault.raw_balance, 1000 * cfg.token_decimals);
}

#[test]
fn sold_tracks_purchases_across_buyers() {
    let (mut sale, cfg) = new_sale(5000);
    buy_tokens(&mut sale, BUYER_A, TAG, 300, &cfg, true).expect("succeeds");
    buy_tokens(&mut sale, BUYER_B, TAG, 700, &cfg, true).expect("succeeds");
    buy_tokens(&mut sale, BUYER_A, TAG, 200, &cfg, true).expect("succeeds");
    assert_eq!(sale.data.tokens_sold, 1200);
    assert_eq!(sale.data.user_purchases.get(BUYER_A), 500);
    assert_eq!(sale.data.user_purchases.get(BUYER_B), 700);
    assert_eq!(sale.data.user_purchases.len(), 2);
    // The proved invariant, on concrete values: sold within supply, purchases
    // summing to sold, vault backing the unsold supply.
    assert!(sale.data.tokens_sold <= sale.data.total_tokens);
    assert_eq!(
        sale.data.user_purchases.get(BUYER_A) + sale.data.user_purchases.get(BUYER_B),
        sale.data.tokens_sold
    );
    assert_eq!(sale.vault.raw_balance, (5000 - 1200) * cfg.token_decimals);
}

#[test]
fn quote_matches_successful_purchase() {
    let (mut sale, cfg) = new_sale(1000);
    let quote = quote_purchase(&sale, BUYER_A, TAG, 500, &cfg).expect("quoted");
    let receipt = buy_tokens(&mut sale, BUYER_A, TAG, 500, &cfg, true).expect("succeeds");
    assert_eq!(quote, receipt);
}

#[test]
fn quote_rejects_what_the_purchase_rejects() {
    let (sale, cfg) = new_sale(1000);
    let r = quote_purchase(&sale, BUYER_A, TAG, 2001, &cfg);
    assert_eq!(r, Err(SaleError::Code(ErrorCode::ExceedsTotalUserLimit)));
    let r = quote_purchase(&sale, BUYER_A, TAG + 1, 10, &cfg);
    assert_eq!(r, Err(SaleError::VaultAuthorityMismatch));
}

#[test]
fn scenario_fixed_sale() {
    // Initialize with 1000 tokens; buyer A buys 500; a second purchase of 1600
    // would take A to 2100, over the 2000 cap, and moves nothing; a top-up by a
    // non-authority is rejected with the supply unchanged.
    let (mut sale, cfg) = new_sale(1000);
    let receipt = buy_tokens(&mut sale, BUYER_A, TAG, 500, &cfg, true).expect("succeeds");
    assert_eq!(sale.data.tokens_sold, 500);
    assert_eq!(sale.data.user_purchases.get(BUYER_A), 500);
    assert_eq!(receipt.sol_amount, 500 * cfg.lamports_per_token);

    let after_first = sale.clone();
    let r = buy_tokens(&mut sale, BUYER_A, TAG, 1600, &cfg, true);
    assert_eq!(r, Err(SaleError::Code(ErrorCode::ExceedsTotalUserLimit)));
    assert_eq!(sale, after_first);

    let r = deposit_ico_in_ata(&mut sale, ADMIN + 9, 100, &cfg, true);
    assert_eq!(r, Err(SaleError::Code(ErrorCode::InvalidAdmin)));
    assert_eq!(sale.data.total_tokens, 1000);
}

#[test]
fn scenario_cap_boundary() {
    // Exactly reaching the cap succeeds; one unit over fails. The authority
    // tops the vault up first so the boundary purchase is backed.
    let (mut sale, cfg) = new_sale(1000);
    buy_tokens(&mut sale, BUYER_A, TAG, 500, &cfg, true).expect("succeeds");
    deposit_ico_in_ata(&mut sale, ADMIN, 1500, &cfg, true).expect("top-up succeeds");
    buy_tokens(&mut sale, BUYER_A, TAG, 1500, &cfg, true).expect("exactly at cap");
    assert_eq!(sale.data.user_purchases.get(BUYER_A), cfg.max_user_total_limit);
    assert_eq!(sale.data.tokens_sold, 2000);
    let r = buy_tokens(&mut sale, BUYER_A, TAG, 1, &cfg, true);
    assert_eq!(r, Err(SaleError::Code(ErrorCode::ExceedsTotalUserLimit)));
}
