//! Processor-level behaviour: deposits and withdrawals, margin locking,
//! close-position settlement with its dust sweep, authorization gating,
//! administrative operations, relayer-proxied operations, and the
//! checked-arithmetic helpers.

use vault_program::addr::Address;
use vault_program::error::VaultError;
use vault_program::instruction::VaultInstruction;
use vault_program::processor::{read_admin_from_config_bytes, Processor};
use vault_program::state::{UserAccount, VaultConfig, USER_ACCOUNT_DISCRIMINATOR};
use vault_program::utils::{checked_add, checked_add_u64, checked_sub, checked_sub_u64};

fn addr(n: u64) -> Address {
    Address::from_words(n, n.wrapping_mul(31), n ^ 0xdead_beef, n + 7)
}

fn config_with(
    admin: Address,
    ledger: Address,
    fund: Option<Address>,
    authorized: Option<Address>,
) -> VaultConfig {
    let mut config = VaultConfig::new(admin, addr(9001), addr(9002), ledger, fund, addr(9003));
    if let Some(caller) = authorized {
        config.authorized_callers[0] = Some(caller);
    }
    config
}

fn user_with(wallet: Address, available: i64, locked: i64) -> UserAccount {
    UserAccount {
        discriminator: USER_ACCOUNT_DISCRIMINATOR,
        wallet,
        bump: 255,
        available_balance_e6: available,
        locked_margin_e6: locked,
        unrealized_pnl_e6: 0,
        total_deposited_e6: if available > 0 { available } else { 0 },
        total_withdrawn_e6: 0,
        last_update_ts: 0,
    }
}

#[test]
fn test_checked_add() {
    assert_eq!(checked_add(100, 200).unwrap(), 300);
    assert_eq!(checked_add(-100, 200).unwrap(), 100);
    assert!(checked_add(i64::MAX, 1).is_err());
}

#[test]
fn test_checked_sub() {
    assert_eq!(checked_sub(200, 100).unwrap(), 100);
    assert_eq!(checked_sub(100, 200).unwrap(), -100);
    assert!(checked_sub(i64::MIN, 1).is_err());
}

#[test]
fn test_checked_u64_helpers() {
    assert_eq!(checked_add_u64(100, 200).unwrap(), 300);
    assert_eq!(checked_add_u64(u64::MAX, 1), Err(VaultError::Overflow));
    assert_eq!(checked_sub_u64(200, 100).unwrap(), 100);
    assert_eq!(checked_sub_u64(100, 200), Err(VaultError::Overflow));
}

#[test]
fn test_deposit_and_withdraw() {
    let mut config = config_with(addr(1), addr(2), None, None);
    let mut user = UserAccount::new(addr(3), 255);

    Processor::process_deposit(&mut config, &mut user, 1_000_000, 100).unwrap();
    assert_eq!(user.available_balance_e6, 1_000_000);
    assert_eq!(user.total_deposited_e6, 1_000_000);
    assert_eq!(config.total_deposits, 1_000_000);
    assert_eq!(user.last_update_ts, 100);

    Processor::process_withdraw(&config, &mut user, 300_000, 101).unwrap();
    assert_eq!(user.available_balance_e6, 700_000);
    assert_eq!(user.total_withdrawn_e6, 300_000);

    assert_eq!(
        Processor::process_withdraw(&config, &mut user, 700_001, 102),
        Err(VaultError::InsufficientBalance)
    );
    assert_eq!(user.available_balance_e6, 700_000);

    assert_eq!(
        Processor::process_deposit(&mut config, &mut user, 0, 103),
        Err(VaultError::InvalidAmount)
    );
}

#[test]
fn test_paused_vault_rejects_movement() {
    let admin = addr(4);
    let mut config = config_with(admin, addr(5), None, None);
    let mut user = user_with(addr(6), 500_000, 0);

    Processor::process_set_paused(&mut config, admin, true).unwrap();
    assert_eq!(
        Processor::process_deposit(&mut config, &mut user, 1, 100),
        Err(VaultError::VaultPaused)
    );
    assert_eq!(
        Processor::process_withdraw(&config, &mut user, 1, 100),
        Err(VaultError::VaultPaused)
    );

    Processor::process_set_paused(&mut config, admin, false).unwrap();
    Processor::process_deposit(&mut config, &mut user, 1, 100).unwrap();
}

#[test]
fn test_deposit_overflow_is_rejected() {
    let mut config = config_with(addr(7), addr(8), None, None);
    let mut user = user_with(addr(9), i64::MAX - 10, 0);
    user.total_deposited_e6 = 0;
    assert_eq!(
        Processor::process_deposit(&mut config, &mut user, 11, 100),
        Err(VaultError::Overflow)
    );
    assert_eq!(user.available_balance_e6, i64::MAX - 10);
}

// Authorization: a whitelist-gated operation must fail with
// `UnauthorizedCaller` for any identity outside the three accepted
// classes, and succeed for each of them.
#[test]
fn test_lock_margin_authorization_classes() {
    let ledger = addr(10);
    let fund = addr(11);
    let listed = addr(12);
    let stranger = addr(13);
    let config = config_with(addr(14), ledger, Some(fund), Some(listed));

    for caller in [ledger, fund, listed] {
        let mut user = user_with(addr(15), 1_000_000, 0);
        Processor::process_lock_margin(&config, &mut user, caller, 400_000, 100).unwrap();
        assert_eq!(user.available_balance_e6, 600_000);
        assert_eq!(user.locked_margin_e6, 400_000);
    }

    let mut user = user_with(addr(15), 1_000_000, 0);
    let before = user;
    assert_eq!(
        Processor::process_lock_margin(&config, &mut user, stranger, 400_000, 100),
        Err(VaultError::UnauthorizedCaller)
    );
    assert_eq!(user, before);
}

#[test]
fn test_lock_and_release_margin() {
    let ledger = addr(16);
    let config = config_with(addr(17), ledger, None, None);
    let mut user = user_with(addr(18), 1_000_000, 0);

    Processor::process_lock_margin(&config, &mut user, ledger, 600_000, 100).unwrap();
    assert_eq!(user.available_balance_e6, 400_000);
    assert_eq!(user.locked_margin_e6, 600_000);

    assert_eq!(
        Processor::process_lock_margin(&config, &mut user, ledger, 400_001, 101),
        Err(VaultError::InsufficientBalance)
    );

    Processor::process_release_margin(&config, &mut user, ledger, 100_000, 102).unwrap();
    assert_eq!(user.available_balance_e6, 500_000);
    assert_eq!(user.locked_margin_e6, 500_000);

    assert_eq!(
        Processor::process_release_margin(&config, &mut user, ledger, 500_001, 103),
        Err(VaultError::InsufficientMargin)
    );
}

// Dust cleanup: a residual locked margin of 900,000 (below the
// 1,000,000-unit threshold) is swept whole into the available balance by
// the next close-position settlement.
#[test]
fn test_close_position_settle_dust_cleanup() {
    let ledger = addr(19);
    let config = config_with(addr(20), ledger, None, None);

    // One settlement whose release leaves a sub-threshold residue: the
    // residue is swept in the same call.
    let mut user = user_with(addr(21), 0, 5_900_000);
    Processor::process_close_position_settle(&config, &mut user, ledger, 5_000_000, 0, 0, 100)
        .unwrap();
    assert_eq!(user.available_balance_e6, 5_900_000);
    assert_eq!(user.locked_margin_e6, 0);

    // A settlement that releases nothing still sweeps a pre-existing
    // 900,000 residue.
    let mut user = user_with(addr(22), 100_000, 900_000);
    Processor::process_close_position_settle(&config, &mut user, ledger, 0, 0, 0, 101).unwrap();
    assert_eq!(user.available_balance_e6, 1_000_000);
    assert_eq!(user.locked_margin_e6, 0);

    // At or above the threshold nothing is swept.
    let mut user = user_with(addr(23), 0, 1_000_000);
    Processor::process_close_position_settle(&config, &mut user, ledger, 0, 0, 0, 102).unwrap();
    assert_eq!(user.available_balance_e6, 0);
    assert_eq!(user.locked_margin_e6, 1_000_000);
}

#[test]
fn test_close_position_settle_pnl_and_fee() {
    let ledger = addr(24);
    let config = config_with(addr(25), ledger, None, None);
    let mut user = user_with(addr(26), 1_000_000, 10_000_000);

    // Release 4,000,000; apply a loss of 2,000,000; debit a 500,000 fee.
    Processor::process_close_position_settle(
        &config,
        &mut user,
        ledger,
        4_000_000,
        -2_000_000,
        500_000,
        100,
    )
    .unwrap();
    assert_eq!(user.available_balance_e6, 2_500_000);
    assert_eq!(user.locked_margin_e6, 6_000_000);

    // A fee the post-P&L balance cannot cover rejects the whole operation.
    let before = user;
    assert_eq!(
        Processor::process_close_position_settle(
            &config,
            &mut user,
            ledger,
            0,
            0,
            2_500_001,
            101
        ),
        Err(VaultError::InsufficientBalance)
    );
    assert_eq!(user, before);
}

#[test]
fn test_liquidate_position_zeroes_margin() {
    let ledger = addr(27);
    let config = config_with(addr(28), ledger, None, None);
    let mut user = user_with(addr(29), 100_000, 7_777_777);

    Processor::process_liquidate_position(
        &config,
        &mut user,
        ledger,
        config.vault_token_account,
        7_777_777,
        1_234_567,
        500_000,
        100,
    )
    .unwrap();
    assert_eq!(user.locked_margin_e6, 0);
    assert_eq!(user.available_balance_e6, 1_334_567);

    // A positive penalty against the wrong pooled account is rejected.
    let before = user;
    assert_eq!(
        Processor::process_liquidate_position(
            &config,
            &mut user,
            ledger,
            addr(30),
            0,
            0,
            1,
            101
        ),
        Err(VaultError::InvalidAccount)
    );
    assert_eq!(user, before);
}

#[test]
fn test_admin_force_release_margin() {
    let admin = addr(31);
    let config = config_with(admin, addr(32), None, None);
    let mut user = user_with(addr(33), 0, 800_000);

    // A non-administrator is rejected.
    assert_eq!(
        Processor::process_admin_force_release_margin(&config, &mut user, addr(34), 0, 100),
        Err(VaultError::InvalidAdmin)
    );

    // Releasing more than is locked is rejected.
    assert_eq!(
        Processor::process_admin_force_release_margin(&config, &mut user, admin, 800_001, 101),
        Err(VaultError::InsufficientMargin)
    );

    // A partial release.
    Processor::process_admin_force_release_margin(&config, &mut user, admin, 300_000, 102)
        .unwrap();
    assert_eq!(user.available_balance_e6, 300_000);
    assert_eq!(user.locked_margin_e6, 500_000);

    // Zero releases everything left.
    Processor::process_admin_force_release_margin(&config, &mut user, admin, 0, 103).unwrap();
    assert_eq!(user.available_balance_e6, 800_000);
    assert_eq!(user.locked_margin_e6, 0);
}

#[test]
fn test_whitelist_add_remove() {
    let admin = addr(35);
    let mut config = config_with(admin, addr(36), None, None);
    let caller = addr(37);

    assert_eq!(
        Processor::process_add_authorized_caller(&mut config, addr(38), caller),
        Err(VaultError::InvalidAdmin)
    );

    Processor::process_add_authorized_caller(&mut config, admin, caller).unwrap();
    assert!(config.is_authorized_caller(&caller));

    // Adding an already-present caller is a no-op.
    Processor::process_add_authorized_caller(&mut config, admin, caller).unwrap();
    assert_eq!(
        config
            .authorized_callers
            .iter()
            .filter(|s| **s == Some(caller))
            .count(),
        1
    );

    // Removing an absent caller is a no-op.
    Processor::process_remove_authorized_caller(&mut config, admin, addr(39)).unwrap();
    assert!(config.is_authorized_caller(&caller));

    Processor::process_remove_authorized_caller(&mut config, admin, caller).unwrap();
    assert!(!config.is_authorized_caller(&caller));
}

#[test]
fn test_whitelist_rejects_zero_identity() {
    let admin = addr(70);
    let mut config = config_with(admin, addr(71), None, None);
    let zero = Address::from_words(0, 0, 0, 0);

    // The storage boundary writes empty slots as the all-zero sentinel, so
    // the sentinel itself is never admitted as a caller.
    assert_eq!(
        Processor::process_add_authorized_caller(&mut config, admin, zero),
        Err(VaultError::InvalidAccount)
    );
    assert!(!config.is_authorized_caller(&zero));
    // Removing it is still the usual no-op.
    Processor::process_remove_authorized_caller(&mut config, admin, zero).unwrap();
}

#[test]
fn test_whitelist_full_is_rejected() {
    let admin = addr(40);
    let mut config = config_with(admin, addr(41), None, None);
    for i in 0..10u64 {
        Processor::process_add_authorized_caller(&mut config, admin, addr(100 + i)).unwrap();
    }
    assert_eq!(
        Processor::process_add_authorized_caller(&mut config, admin, addr(200)),
        Err(VaultError::InvalidAccount)
    );
}

#[test]
fn test_admin_rotations() {
    let admin = addr(42);
    let new_admin = addr(43);
    let mut config = config_with(admin, addr(44), None, None);

    Processor::process_update_admin(&mut config, admin, new_admin).unwrap();
    assert_eq!(config.admin, new_admin);
    assert_eq!(
        Processor::process_update_admin(&mut config, admin, addr(45)),
        Err(VaultError::InvalidAdmin)
    );

    Processor::process_set_fund_program(&mut config, new_admin, Some(addr(46))).unwrap();
    assert_eq!(config.fund_program, Some(addr(46)));
    Processor::process_set_fund_program(&mut config, new_admin, None).unwrap();
    assert_eq!(config.fund_program, None);

    Processor::process_set_ledger_program(&mut config, new_admin, addr(47)).unwrap();
    assert_eq!(config.ledger_program, addr(47));
}

#[test]
fn test_relayer_deposit_and_withdraw() {
    let admin = addr(48);
    let wallet = addr(49);
    let mut user = user_with(wallet, 0, 0);
    user.total_deposited_e6 = 0;

    assert_eq!(
        Processor::process_relayer_deposit(&mut user, admin, addr(50), wallet, 1_000, 100),
        Err(VaultError::InvalidRelayer)
    );
    assert_eq!(
        Processor::process_relayer_deposit(&mut user, admin, admin, addr(51), 1_000, 100),
        Err(VaultError::InvalidAccount)
    );

    Processor::process_relayer_deposit(&mut user, admin, admin, wallet, 1_000, 100).unwrap();
    assert_eq!(user.available_balance_e6, 1_000);
    assert_eq!(user.total_deposited_e6, 1_000);

    Processor::process_relayer_withdraw(&mut user, admin, admin, wallet, 400, 101).unwrap();
    assert_eq!(user.available_balance_e6, 600);
    assert_eq!(user.total_withdrawn_e6, 400);

    assert_eq!(
        Processor::process_relayer_withdraw(&mut user, admin, admin, wallet, 601, 102),
        Err(VaultError::InsufficientBalance)
    );
}

#[test]
fn test_relayer_deposit_create() {
    let admin = addr(52);
    let wallet = addr(53);
    let user = Processor::process_relayer_deposit_create(admin, admin, wallet, 254, 2_500, 100)
        .unwrap();
    assert_eq!(user.wallet, wallet);
    assert_eq!(user.bump, 254);
    assert_eq!(user.available_balance_e6, 2_500);
    assert_eq!(user.total_deposited_e6, 2_500);
    assert_eq!(user.last_update_ts, 100);

    assert_eq!(
        Processor::process_relayer_deposit_create(admin, addr(54), wallet, 254, 2_500, 100),
        Err(VaultError::InvalidRelayer)
    );
    assert_eq!(
        Processor::process_relayer_deposit_create(admin, admin, wallet, 254, 0, 100),
        Err(VaultError::InvalidAmount)
    );
}

#[test]
fn test_relayer_internal_transfer() {
    let admin = addr(55);
    let config = config_with(admin, addr(56), None, None);
    let mut from_user = user_with(addr(57), 1_000, 0);
    let mut to_user = user_with(addr(58), 50, 0);

    Processor::process_relayer_internal_transfer(
        &config,
        &mut from_user,
        &mut to_user,
        admin,
        400,
        100,
    )
    .unwrap();
    assert_eq!(from_user.available_balance_e6, 600);
    assert_eq!(to_user.available_balance_e6, 450);
    // Cumulative movement totals do not change on an internal transfer.
    assert_eq!(from_user.total_withdrawn_e6, 0);
    assert_eq!(to_user.total_deposited_e6, 50);

    assert_eq!(
        Processor::process_relayer_internal_transfer(
            &config,
            &mut from_user,
            &mut to_user,
            addr(59),
            1,
            101
        ),
        Err(VaultError::InvalidRelayer)
    );
}

#[test]
fn test_read_admin_from_config_bytes() {
    let admin = addr(60);
    // Lay the record out by hand: an 8-byte tag, then the 32-byte
    // administrator identity as four little-endian words.
    let mut data = vec![0u8; 60];
    data[8..16].copy_from_slice(&admin.w0.to_le_bytes());
    data[16..24].copy_from_slice(&admin.w1.to_le_bytes());
    data[24..32].copy_from_slice(&admin.w2.to_le_bytes());
    data[32..40].copy_from_slice(&admin.w3.to_le_bytes());

    assert_eq!(read_admin_from_config_bytes(&data), Ok(admin));
    assert_eq!(
        read_admin_from_config_bytes(&data[..39]),
        Err(VaultError::InvalidAccount)
    );
}

// Conservation on a concrete run: wealth moves only by deposits,
// withdrawals, P&L and fees.
#[test]
fn test_conservation_over_a_sequence() {
    // The user doubles as a whitelisted caller so one identity can drive
    // the whole sequence, the self-signed claim included.
    let wallet = addr(63);
    let mut config = config_with(addr(62), addr(61), None, Some(wallet));
    let mut user = UserAccount::new(wallet, 255);
    let mut pm = vault_program::state::PredictionMarketUserAccount::new(wallet, 255, 0);

    let ops = [
        VaultInstruction::Deposit { amount: 10_000_000 },
        VaultInstruction::LockMargin { amount: 4_000_000 },
        VaultInstruction::ClosePositionSettle {
            margin_to_release: 4_000_000,
            realized_pnl: 1_000_000,
            fee: 250_000,
        },
        VaultInstruction::PredictionMarketLock { amount: 2_000_000 },
        VaultInstruction::PredictionMarketSettle {
            locked_amount: 2_000_000,
            settlement_amount: 3_000_000,
        },
        VaultInstruction::PredictionMarketClaimSettlement,
        VaultInstruction::Withdraw { amount: 5_000_000 },
    ];
    for op in ops {
        Processor::apply_user_instruction(&mut config, &mut user, &mut pm, wallet, &op, 100)
            .unwrap();
    }

    // 10_000_000 − 5_000_000 + (1_000_000 − 250_000) + (3_000_000 − 2_000_000)
    let wealth = user.available_balance_e6
        + user.locked_margin_e6
        + pm.prediction_market_locked_e6
        + pm.prediction_market_pending_settlement_e6;
    assert_eq!(wealth, 6_750_000);

    // A rejected operation moves nothing.
    let user_before = user;
    let pm_before = pm;
    assert_eq!(
        Processor::apply_user_instruction(
            &mut config,
            &mut user,
            &mut pm,
            wallet,
            &VaultInstruction::Withdraw { amount: i64::MAX as u64 },
            101
        ),
        Err(VaultError::InsufficientBalance)
    );
    assert_eq!(user, user_before);
    assert_eq!(pm, pm_before);

    // Record-creating operations are not routed through this dispatcher.
    assert_eq!(
        Processor::apply_user_instruction(
            &mut config,
            &mut user,
            &mut pm,
            wallet,
            &VaultInstruction::InitializeUser,
            102
        ),
        Err(VaultError::InvalidInstruction)
    );
}
