//! Record-level behaviour: equity, the caller whitelist, and the
//! prediction-market sub-account's mutation methods.

use vault_program::addr::Address;
use vault_program::state::{
    PredictionMarketUserAccount, UserAccount, VaultConfig, PREDICTION_MARKET_USER_ACCOUNT_SIZE,
    USER_ACCOUNT_DISCRIMINATOR,
};

fn addr(n: u64) -> Address {
    Address::from_words(n, n.wrapping_mul(31), n ^ 0xdead_beef, n + 7)
}

fn config_with(
    admin: Address,
    ledger: Address,
    fund: Option<Address>,
    authorized: Option<Address>,
) -> VaultConfig {
    let mut config = VaultConfig::new(admin, addr(9001), addr(9002), ledger, fund, addr(9003));
    if let Some(caller) = authorized {
        config.authorized_callers[0] = Some(caller);
    }
    config
}

fn user_with(wallet: Address, available: i64, locked: i64, unrealized: i64) -> UserAccount {
    UserAccount {
        discriminator: USER_ACCOUNT_DISCRIMINATOR,
        wallet,
        bump: 255,
        available_balance_e6: available,
        locked_margin_e6: locked,
        unrealized_pnl_e6: unrealized,
        total_deposited_e6: if available > 0 { available } else { 0 },
        total_withdrawn_e6: 0,
        last_update_ts: 0,
    }
}

#[test]
fn test_user_account_equity() {
    let account = user_with(addr(1), 1000_000_000, 500_000_000, 200_000_000);
    assert_eq!(account.equity(), 1700_000_000);
}

#[test]
fn test_state_calculations() {
    let user_account = user_with(addr(2), 1000_000_000, 500_000_000, 200_000_000);
    // equity = available + locked + unrealized_pnl = 1000 + 500 + 200
    assert_eq!(user_account.equity(), 1700_000_000);
    assert_eq!(user_account.available_balance_e6, 1000_000_000);
    assert_eq!(user_account.locked_margin_e6, 500_000_000);
    assert_eq!(user_account.unrealized_pnl_e6, 200_000_000);
}

#[test]
fn test_vault_config_authorized_caller() {
    let ledger = addr(10);
    let fund = addr(11);
    let other = addr(12);
    let authorized = addr(13);
    let config = config_with(addr(14), ledger, Some(fund), Some(authorized));

    assert!(config.is_authorized_caller(&ledger));
    assert!(config.is_authorized_caller(&fund));
    assert!(config.is_authorized_caller(&authorized));
    assert!(!config.is_authorized_caller(&other));
}

#[test]
fn test_prediction_market_user_account_size() {
    assert!(PREDICTION_MARKET_USER_ACCOUNT_SIZE > 0);
    println!("PredictionMarketUserAccount SIZE: {}", PREDICTION_MARKET_USER_ACCOUNT_SIZE);
}

#[test]
fn test_prediction_market_user_account_creation() {
    let wallet = addr(20);
    let account = PredictionMarketUserAccount::new(wallet, 255, 1000);

    assert_eq!(account.wallet, wallet);
    assert_eq!(account.prediction_market_locked_e6, 0);
    assert_eq!(account.prediction_market_pending_settlement_e6, 0);
    assert_eq!(account.prediction_market_equity(), 0);
}

#[test]
fn test_prediction_market_lock_unlock() {
    let wallet = addr(21);
    let mut account = PredictionMarketUserAccount::new(wallet, 255, 1000);

    account.prediction_market_lock(100_000_000, 1001);
    assert_eq!(account.prediction_market_locked_e6, 100_000_000);
    assert_eq!(account.prediction_market_total_deposited_e6, 100_000_000);

    account.prediction_market_unlock(50_000_000, 1002).unwrap();
    assert_eq!(account.prediction_market_locked_e6, 50_000_000);
    assert_eq!(account.prediction_market_total_withdrawn_e6, 50_000_000);

    assert!(account.prediction_market_unlock(100_000_000, 1003).is_err());
}

#[test]
fn test_prediction_market_settle() {
    let wallet = addr(22);
    let mut account = PredictionMarketUserAccount::new(wallet, 255, 1000);

    account.prediction_market_lock(100_000_000, 1001);

    account
        .prediction_market_settle(100_000_000, 100_000_000, 1002)
        .unwrap();
    assert_eq!(account.prediction_market_locked_e6, 0);
    assert_eq!(account.prediction_market_pending_settlement_e6, 100_000_000);
    assert_eq!(account.prediction_market_realized_pnl_e6, 0);

    let claimed = account.prediction_market_claim_settlement(1003);
    assert_eq!(claimed, 100_000_000);
    assert_eq!(account.prediction_market_pending_settlement_e6, 0);
}

#[test]
fn test_prediction_market_settle_with_profit() {
    let wallet = addr(23);
    let mut account = PredictionMarketUserAccount::new(wallet, 255, 1000);

    account.prediction_market_lock(50_000_000, 1001);

    account
        .prediction_market_settle(50_000_000, 100_000_000, 1002)
        .unwrap();
    assert_eq!(account.prediction_market_realized_pnl_e6, 50_000_000);
}
