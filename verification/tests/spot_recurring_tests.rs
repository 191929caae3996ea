//! Spot sub-ledger behaviour (slot table, sequence gating, both
//! settlement variants and their pairwise atomicity), the recurring
//! payment lifecycle, and fee computation with the fee-policy record.

use vault_program::addr::Address;
use vault_program::error::VaultError;
use vault_program::fees::{
    compute_fee, read_fee_destination, read_fee_rate_bps, read_fee_total, FeeCategory,
};
use vault_program::processor::Processor;
use vault_program::spot::{SpotUserAccount, MAX_TOKEN_SLOTS};
use vault_program::state::{UserAccount, VaultConfig, USER_ACCOUNT_DISCRIMINATOR};

fn addr(n: u64) -> Address {
    Address::from_words(n, n.wrapping_mul(31), n ^ 0xdead_beef, n + 7)
}

fn config_with(
    admin: Address,
    ledger: Address,
    fund: Option<Address>,
    authorized: Option<Address>,
) -> VaultConfig {
    let mut config = VaultConfig::new(admin, addr(9001), addr(9002), ledger, fund, addr(9003));
    if let Some(caller) = authorized {
        config.authorized_callers[0] = Some(caller);
    }
    config
}

fn user_with(wallet: Address, available: i64, locked: i64) -> UserAccount {
    UserAccount {
        discriminator: USER_ACCOUNT_DISCRIMINATOR,
        wallet,
        bump: 255,
        available_balance_e6: available,
        locked_margin_e6: locked,
        unrealized_pnl_e6: 0,
        total_deposited_e6: if available > 0 { available } else { 0 },
        total_withdrawn_e6: 0,
        last_update_ts: 0,
    }
}

/// A fee-policy record with the given rate in every category and all
/// running totals zero.
fn fee_policy_with_rate(bps: u16) -> Vec<u8> {
    let mut data = vec![0u8; 96];
    for k in 0..5 {
        data[40 + 2 * k..42 + 2 * k].copy_from_slice(&bps.to_le_bytes());
    }
    data
}

#[test]
fn test_spot_deposit_withdraw_lock_unlock() {
    let mut spot = SpotUserAccount::new(addr(1), 255, 0);

    spot.deposit(7, 1_000_000, 100).unwrap();
    let bal = spot.get_token_balance(7).unwrap();
    assert_eq!(bal.available_e6, 1_000_000);
    assert_eq!(bal.locked_e6, 0);

    assert_eq!(spot.deposit(7, 0, 101), Err(VaultError::InvalidAmount));
    assert_eq!(spot.withdraw(8, 1, 102), Err(VaultError::InvalidAccount));

    spot.lock_balance(7, 400_000, 103).unwrap();
    let bal = spot.get_token_balance(7).unwrap();
    assert_eq!(bal.available_e6, 600_000);
    assert_eq!(bal.locked_e6, 400_000);

    assert_eq!(
        spot.lock_balance(7, 600_001, 104),
        Err(VaultError::InsufficientBalance)
    );
    assert_eq!(
        spot.unlock_balance(7, 400_001, 105),
        Err(VaultError::InsufficientMargin)
    );

    spot.unlock_balance(7, 100_000, 106).unwrap();
    spot.withdraw(7, 700_000, 107).unwrap();
    let bal = spot.get_token_balance(7).unwrap();
    assert_eq!(bal.available_e6, 0);
    assert_eq!(bal.locked_e6, 300_000);
    assert!(bal.is_empty() == false);
    assert_eq!(bal.total(), 300_000);
}

#[test]
fn test_spot_slot_table_saturates() {
    let mut spot = SpotUserAccount::new(addr(2), 255, 0);
    for i in 0..MAX_TOKEN_SLOTS as u16 {
        spot.deposit(100 + i, 1, 100).unwrap();
    }
    assert_eq!(
        spot.deposit(900, 1, 101),
        Err(VaultError::TokenSlotsFull)
    );
    // Existing instruments still work once the table is saturated.
    spot.deposit(100, 1, 102).unwrap();
    assert_eq!(spot.get_token_balance(100).unwrap().available_e6, 2);
}

// Idempotent replay rejection: a settlement whose sequence does not
// strictly exceed the watermark fails and mutates nothing.
#[test]
fn test_spot_settle_replay_rejected() {
    let mut spot = SpotUserAccount::new(addr(3), 255, 0);
    spot.deposit(1, 1_000_000, 100).unwrap();
    spot.lock_balance(1, 500_000, 101).unwrap();

    spot.settle_trade(true, 2, 1, 30_000, 500_000, 5, 102).unwrap();
    assert_eq!(spot.last_settled_sequence, 5);
    assert_eq!(spot.get_token_balance(2).unwrap().available_e6, 30_000);

    let before = spot.clone();
    assert_eq!(
        spot.settle_trade(true, 2, 1, 30_000, 1, 5, 103),
        Err(VaultError::InvalidSequence)
    );
    assert_eq!(
        spot.settle_trade(true, 2, 1, 30_000, 1, 4, 104),
        Err(VaultError::InvalidSequence)
    );
    assert_eq!(spot.last_settled_sequence, before.last_settled_sequence);
    assert_eq!(spot.get_token_balance(1).unwrap().available_e6, 500_000);
    assert_eq!(spot.get_token_balance(1).unwrap().locked_e6, 0);
    assert_eq!(spot.get_token_balance(2).unwrap().available_e6, 30_000);

    assert_eq!(
        spot.settle_trade_v2(true, 2, 1, 1, 1, 0, 5, 105),
        Err(VaultError::InvalidSequence)
    );
}

#[test]
fn test_spot_settle_sell_side() {
    let mut spot = SpotUserAccount::new(addr(4), 255, 0);
    spot.deposit(2, 80_000, 100).unwrap();
    spot.lock_balance(2, 80_000, 101).unwrap();

    // Sell: the base leg leaves locked, the quote leg lands available.
    spot.settle_trade(false, 2, 1, 80_000, 240_000, 1, 102).unwrap();
    assert_eq!(spot.get_token_balance(2).unwrap().locked_e6, 0);
    assert_eq!(spot.get_token_balance(1).unwrap().available_e6, 240_000);

    // Paying more than is locked is rejected.
    assert_eq!(
        spot.settle_trade(false, 2, 1, 1, 1, 2, 103),
        Err(VaultError::InsufficientMargin)
    );
}

#[test]
fn test_spot_settle_v2_draws_available_then_locked() {
    let mut spot = SpotUserAccount::new(addr(5), 255, 0);
    spot.deposit(1, 300_000, 100).unwrap();
    spot.lock_balance(1, 200_000, 101).unwrap();
    // quote instrument 1: available 100_000, locked 200_000.

    // A buy needing 250_000 + 10_000 fee drains available first and takes
    // the remainder from locked.
    spot.settle_trade_v2(true, 2, 1, 50_000, 250_000, 10_000, 1, 102).unwrap();
    let quote = spot.get_token_balance(1).unwrap();
    assert_eq!(quote.available_e6, 0);
    assert_eq!(quote.locked_e6, 40_000);
    assert_eq!(spot.get_token_balance(2).unwrap().available_e6, 50_000);

    // More than available plus locked together is rejected.
    assert_eq!(
        spot.settle_trade_v2(true, 2, 1, 1, 40_001, 0, 2, 103),
        Err(VaultError::InsufficientBalance)
    );

    // On a sell the fee must not exceed the quote leg.
    assert_eq!(
        spot.settle_trade_v2(false, 2, 1, 10_000, 5_000, 5_001, 2, 104),
        Err(VaultError::InvalidAmount)
    );
}

// Pairwise settlement atomicity: a relayer settlement that fails a
// precondition on the taker side leaves the maker side untouched.
#[test]
fn test_relayer_spot_settle_trade_atomicity() {
    let admin = addr(6);
    let config = config_with(admin, addr(7), None, None);

    let mut maker = SpotUserAccount::new(addr(8), 255, 0);
    maker.deposit(2, 1_000_000, 100).unwrap();
    let mut taker = SpotUserAccount::new(addr(9), 255, 0);
    taker.deposit(1, 10, 100).unwrap();

    // Taker buys 100_000 base for 200_000 quote but holds only 10 quote:
    // the taker-side precondition fails, the maker side stays untouched.
    let maker_before = maker.clone();
    let taker_before = taker.clone();
    assert_eq!(
        Processor::process_relayer_spot_settle_trade(
            &config, &mut maker, &mut taker, admin, true, 2, 1, 100_000, 200_000, 0, 0, 1, 1,
            101,
        ),
        Err(VaultError::InsufficientBalance)
    );
    assert_eq!(maker.last_settled_sequence, maker_before.last_settled_sequence);
    assert_eq!(maker.token_balances, maker_before.token_balances);
    assert_eq!(taker.token_balances, taker_before.token_balances);

    // A non-administrator cannot settle.
    assert_eq!(
        Processor::process_relayer_spot_settle_trade(
            &config, &mut maker, &mut taker, addr(10), true, 2, 1, 1, 1, 0, 0, 1, 1, 102,
        ),
        Err(VaultError::InvalidRelayer)
    );

    // With funds on both sides the trade applies to both accounts.
    taker.deposit(1, 200_000, 103).unwrap();
    Processor::process_relayer_spot_settle_trade(
        &config, &mut maker, &mut taker, admin, true, 2, 1, 100_000, 200_000, 0, 0, 1, 1, 104,
    )
    .unwrap();
    // Taker bought base with quote.
    assert_eq!(taker.get_token_balance(2).unwrap().available_e6, 100_000);
    assert_eq!(taker.get_token_balance(1).unwrap().available_e6, 10);
    // Maker sold base for quote.
    assert_eq!(maker.get_token_balance(2).unwrap().available_e6, 900_000);
    assert_eq!(maker.get_token_balance(1).unwrap().available_e6, 200_000);
    assert_eq!(maker.last_settled_sequence, 1);
    assert_eq!(taker.last_settled_sequence, 1);
}

#[test]
fn test_relayer_spot_deposit_withdraw_and_vault_moves() {
    let admin = addr(11);
    let config = config_with(admin, addr(12), None, None);
    let mut spot = SpotUserAccount::new(addr(13), 255, 0);
    let mut user = user_with(addr(13), 1_000_000, 0);

    assert_eq!(
        Processor::process_relayer_spot_deposit(&config, &mut spot, addr(14), 1, 100, 100),
        Err(VaultError::InvalidRelayer)
    );
    Processor::process_relayer_spot_deposit(&config, &mut spot, admin, 1, 100, 100).unwrap();
    assert_eq!(spot.get_token_balance(1).unwrap().available_e6, 100);

    Processor::process_relayer_spot_withdraw(&config, &mut spot, admin, 1, 40, 101).unwrap();
    assert_eq!(spot.get_token_balance(1).unwrap().available_e6, 60);

    // Allocate vault funds into the spot sub-ledger and back.
    Processor::process_spot_allocate_from_vault(
        &config, &mut user, &mut spot, admin, 1, 500_000, 102,
    )
    .unwrap();
    assert_eq!(user.available_balance_e6, 500_000);
    assert_eq!(spot.get_token_balance(1).unwrap().available_e6, 500_060);

    Processor::process_spot_release_to_vault(&config, &mut user, &mut spot, admin, 1, 500_060, 103)
        .unwrap();
    assert_eq!(user.available_balance_e6, 1_000_060);
    assert_eq!(spot.get_token_balance(1).unwrap().available_e6, 0);

    assert_eq!(
        Processor::process_spot_allocate_from_vault(
            &config, &mut user, &mut spot, addr(15), 1, 1, 104,
        ),
        Err(VaultError::InvalidAdmin)
    );
}

// Fee computation determinism: 50 bps on 1_000_000 is exactly 5_000,
// truncating, and the net is 995_000.
#[test]
fn test_fee_computation() {
    assert_eq!(compute_fee(1_000_000, 50), 5_000);
    assert_eq!(1_000_000 - compute_fee(1_000_000, 50), 995_000);
    // Truncation, not rounding: 999 * 50 / 10_000 = 4.995.
    assert_eq!(compute_fee(999, 50), 4);
    assert_eq!(compute_fee(0, 50), 0);
    assert_eq!(compute_fee(1_000_000, 0), 0);
    assert_eq!(compute_fee(1_000_000, 10_000), 1_000_000);
}

#[test]
fn test_fee_policy_record_interface() {
    let mut policy = fee_policy_with_rate(50);
    assert_eq!(read_fee_rate_bps(&policy, FeeCategory::Settlement), Ok(50));
    assert_eq!(read_fee_rate_bps(&policy, FeeCategory::Taker), Ok(50));
    assert_eq!(read_fee_total(&policy, FeeCategory::Taker), Ok(0));

    // The fee-destination identity sits behind the 8-byte tag.
    let destination = addr(99);
    for (i, w) in [destination.w0, destination.w1, destination.w2, destination.w3]
        .iter()
        .enumerate()
    {
        policy[8 + i * 8..16 + i * 8].copy_from_slice(&w.to_le_bytes());
    }
    assert_eq!(read_fee_destination(&policy), Ok(destination));

    let short = vec![0u8; 10];
    assert_eq!(
        read_fee_rate_bps(&short, FeeCategory::Maker),
        Err(VaultError::InvalidAccount)
    );
    assert_eq!(read_fee_destination(&short), Err(VaultError::InvalidAccount));

    let absurd = fee_policy_with_rate(10_001);
    assert_eq!(
        read_fee_rate_bps(&absurd, FeeCategory::Maker),
        Err(VaultError::InvalidAmount)
    );
}

#[test]
fn test_prediction_market_lock_with_fee() {
    let ledger = addr(16);
    let config = config_with(addr(17), ledger, None, None);
    let mut user = user_with(addr(18), 2_000_000, 0);
    let mut pm = vault_program::state::PredictionMarketUserAccount::new(addr(18), 255, 0);
    let mut policy = fee_policy_with_rate(50);

    let fee = Processor::process_prediction_market_lock_with_fee(
        &config, &mut user, &mut pm, &mut policy, ledger, 1_000_000, 100,
    )
    .unwrap();
    assert_eq!(fee, 5_000);
    assert_eq!(user.available_balance_e6, 1_000_000);
    assert_eq!(pm.prediction_market_locked_e6, 995_000);
    assert_eq!(read_fee_total(&policy, FeeCategory::Settlement), Ok(5_000));

    // The unlock nets the fee off the amount returned to the user.
    let fee = Processor::process_prediction_market_unlock_with_fee(
        &config, &mut user, &mut pm, &mut policy, ledger, 995_000, 101,
    )
    .unwrap();
    assert_eq!(fee, 4_975);
    assert_eq!(pm.prediction_market_locked_e6, 0);
    assert_eq!(user.available_balance_e6, 1_990_025);
    assert_eq!(read_fee_total(&policy, FeeCategory::Settlement), Ok(9_975));
}

#[test]
fn test_prediction_market_settle_with_fee_and_trade_fee() {
    let ledger = addr(19);
    let config = config_with(addr(20), ledger, None, None);
    let mut pm = vault_program::state::PredictionMarketUserAccount::new(addr(21), 255, 0);
    pm.prediction_market_lock(1_000_000, 100);
    let mut policy = fee_policy_with_rate(50);

    let fee = Processor::process_prediction_market_settle_with_fee(
        &config, &mut pm, &mut policy, ledger, 1_000_000, 2_000_000, 101,
    )
    .unwrap();
    assert_eq!(fee, 10_000);
    assert_eq!(pm.prediction_market_locked_e6, 0);
    assert_eq!(pm.prediction_market_pending_settlement_e6, 1_990_000);
    assert_eq!(pm.prediction_market_realized_pnl_e6, 990_000);

    // Trade-fee collection books the fee and touches no user balance.
    let fee = Processor::process_collect_trade_fee(&config, &mut policy, ledger, true, 4_000_000)
        .unwrap();
    assert_eq!(fee, 20_000);
    assert_eq!(read_fee_total(&policy, FeeCategory::Taker), Ok(20_000));
    assert_eq!(read_fee_total(&policy, FeeCategory::Settlement), Ok(10_000));

    // An unauthorized caller cannot collect.
    assert_eq!(
        Processor::process_collect_trade_fee(&config, &mut policy, addr(22), false, 1),
        Err(VaultError::UnauthorizedCaller)
    );
}

// Recurring-auth lifecycle: three bounded cycles in order deactivate the
// record; a fourth fails as inactive; out-of-order execution fails on the
// cycle index.
#[test]
fn test_recurring_auth_lifecycle() {
    let ledger = addr(23);
    let config = config_with(addr(24), ledger, None, None);
    let payer = addr(25);
    let payee = addr(26);
    let mut payer_account = user_with(payer, 10_000_000, 0);
    let mut payee_account = user_with(payee, 0, 0);
    payee_account.total_deposited_e6 = 0;

    let mut auth = Processor::process_init_recurring_auth(
        &mut payer_account,
        payer,
        payee,
        1_000_000,
        86_400,
        3,
        50_000,
        [0u8; 32],
        100,
    )
    .unwrap();
    assert!(auth.is_active);
    assert_eq!(auth.current_cycles, 0);
    assert_eq!(payer_account.available_balance_e6, 9_950_000);

    // Out-of-order execution is rejected before any balance moves.
    assert_eq!(
        Processor::process_execute_recurring_auth(
            &config,
            &mut auth,
            &mut payer_account,
            &mut payee_account,
            ledger,
            3,
            0,
            101,
        ),
        Err(VaultError::InvalidCycleCount)
    );

    for cycle in 1..=3u64 {
        Processor::process_execute_recurring_auth(
            &config,
            &mut auth,
            &mut payer_account,
            &mut payee_account,
            ledger,
            cycle,
            10_000,
            101 + cycle as i64,
        )
        .unwrap();
    }
    assert!(!auth.is_active);
    assert_eq!(auth.current_cycles, 3);
    assert_eq!(payee_account.available_balance_e6, 3_000_000);
    // 9_950_000 − 3 × (1_000_000 + 10_000)
    assert_eq!(payer_account.available_balance_e6, 6_920_000);

    // A fourth cycle fails: the record deactivated itself.
    assert_eq!(
        Processor::process_execute_recurring_auth(
            &config,
            &mut auth,
            &mut payer_account,
            &mut payee_account,
            ledger,
            4,
            0,
            105,
        ),
        Err(VaultError::RecurringAuthNotActive)
    );
}

#[test]
fn test_recurring_auth_cancel_and_gates() {
    let ledger = addr(27);
    let config = config_with(addr(28), ledger, None, None);
    let payer = addr(29);
    let payee = addr(30);
    let mut payer_account = user_with(payer, 5_000_000, 0);
    let mut payee_account = user_with(payee, 0, 0);

    // Registration needs a funded payer.
    let mut broke = user_with(payer, 10, 0);
    assert!(matches!(
        Processor::process_init_recurring_auth(
            &mut broke, payer, payee, 1_000, 60, 0, 100, [0u8; 32], 100,
        ),
        Err(VaultError::InsufficientBalance)
    ));

    let mut auth = Processor::process_init_recurring_auth(
        &mut payer_account,
        payer,
        payee,
        1_000,
        60,
        0,
        0,
        [7u8; 32],
        100,
    )
    .unwrap();

    // Execution is whitelist-gated.
    assert_eq!(
        Processor::process_execute_recurring_auth(
            &config,
            &mut auth,
            &mut payer_account,
            &mut payee_account,
            addr(31),
            1,
            0,
            101,
        ),
        Err(VaultError::UnauthorizedCaller)
    );

    // Only the payer cancels; cancellation is terminal and moves nothing.
    assert_eq!(
        Processor::process_cancel_recurring_auth(&mut auth, payee),
        Err(VaultError::UnauthorizedCaller)
    );
    let balance_before = payer_account.available_balance_e6;
    Processor::process_cancel_recurring_auth(&mut auth, payer).unwrap();
    assert!(!auth.is_active);
    assert_eq!(payer_account.available_balance_e6, balance_before);
    assert_eq!(
        Processor::process_execute_recurring_auth(
            &config,
            &mut auth,
            &mut payer_account,
            &mut payee_account,
            ledger,
            1,
            0,
            102,
        ),
        Err(VaultError::RecurringAuthNotActive)
    );
}
