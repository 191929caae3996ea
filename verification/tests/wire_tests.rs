//! The wire grammar: encoding layout, decoding, round trips, and the
//! rejection of malformed payloads.

use vault_program::addr::Address;
use vault_program::error::VaultError;
use vault_program::instruction::VaultInstruction;
use vault_program::wire::{pack, unpack};

fn addr(n: u64) -> Address {
    Address::from_words(n, n.wrapping_mul(31), n ^ 0xdead_beef, n + 7)
}

#[test]
fn test_wire_layout_exact_bytes() {
    // Tag byte, then the amount little-endian.
    let bytes = pack(&VaultInstruction::Deposit { amount: 0x0102_0304_0506_0708 });
    assert_eq!(
        bytes,
        vec![2u8, 0x08, 0x07, 0x06, 0x05, 0x04, 0x03, 0x02, 0x01]
    );

    // A field-less operation is its tag alone.
    assert_eq!(pack(&VaultInstruction::InitializeUser), vec![1u8]);
    assert_eq!(
        pack(&VaultInstruction::PredictionMarketClaimSettlement),
        vec![18u8]
    );

    // Booleans are one 0-or-1 byte.
    assert_eq!(
        pack(&VaultInstruction::SetPaused { paused: true }),
        vec![10u8, 1]
    );
    assert_eq!(
        pack(&VaultInstruction::SetPaused { paused: false }),
        vec![10u8, 0]
    );

    // An identity is its 32 raw bytes; an absent optional identity is the
    // all-zero sentinel.
    let a = Address::from_words(1, 2, 3, 4);
    let bytes = pack(&VaultInstruction::UpdateAdmin { new_admin: a });
    assert_eq!(bytes.len(), 33);
    assert_eq!(bytes[0], 11);
    assert_eq!(bytes[1], 1);
    assert_eq!(&bytes[2..9], &[0u8; 7]);
    assert_eq!(bytes[9], 2);
    let bytes = pack(&VaultInstruction::SetFundProgram { fund_program: None });
    assert_eq!(bytes, [vec![12u8], vec![0u8; 32]].concat());
}

#[test]
fn test_wire_round_trip() {
    let ops = vec![
        VaultInstruction::Initialize {
            ledger_program: addr(1),
            delegation_program: addr(2),
            fund_program: Some(addr(3)),
        },
        VaultInstruction::Initialize {
            ledger_program: addr(1),
            delegation_program: addr(2),
            fund_program: None,
        },
        VaultInstruction::InitializeUser,
        VaultInstruction::Deposit { amount: 1_000_000 },
        VaultInstruction::Withdraw { amount: u64::MAX },
        VaultInstruction::LockMargin { amount: 0 },
        VaultInstruction::ReleaseMargin { amount: 7 },
        VaultInstruction::ClosePositionSettle {
            margin_to_release: 5,
            realized_pnl: -123_456,
            fee: 9,
        },
        VaultInstruction::LiquidatePosition {
            margin: 1,
            user_remainder: 2,
            liquidation_penalty: 3,
        },
        VaultInstruction::AddAuthorizedCaller { caller: addr(4) },
        VaultInstruction::RemoveAuthorizedCaller { caller: addr(5) },
        VaultInstruction::SetPaused { paused: true },
        VaultInstruction::SetPaused { paused: false },
        VaultInstruction::UpdateAdmin { new_admin: addr(6) },
        VaultInstruction::SetFundProgram { fund_program: Some(addr(7)) },
        VaultInstruction::SetFundProgram { fund_program: None },
        VaultInstruction::AdminForceReleaseMargin { amount: 11 },
        VaultInstruction::InitializePredictionMarketUser,
        VaultInstruction::PredictionMarketLock { amount: 12 },
        VaultInstruction::PredictionMarketUnlock { amount: 13 },
        VaultInstruction::PredictionMarketSettle {
            locked_amount: 14,
            settlement_amount: 15,
        },
        VaultInstruction::PredictionMarketClaimSettlement,
        VaultInstruction::AdminPredictionMarketForceUnlock { amount: 16 },
        VaultInstruction::RelayerDeposit {
            user_wallet: addr(8),
            amount: 17,
        },
        VaultInstruction::RelayerWithdraw {
            user_wallet: addr(9),
            amount: 18,
        },
        VaultInstruction::SetLedgerProgram { ledger_program: addr(10) },
    ];
    for op in ops {
        let bytes = pack(&op);
        assert_eq!(unpack(&bytes), Ok(op));
    }
}

#[test]
fn test_wire_rejects_malformed_payloads() {
    // Empty, unknown tag, truncated fields, trailing garbage, bad boolean.
    assert_eq!(unpack(&[]), Err(VaultError::InvalidInstruction));
    assert_eq!(unpack(&[99u8]), Err(VaultError::InvalidInstruction));
    assert_eq!(unpack(&[2u8, 1, 2, 3]), Err(VaultError::InvalidInstruction));
    let mut bytes = pack(&VaultInstruction::Deposit { amount: 5 });
    bytes.push(0);
    assert_eq!(unpack(&bytes), Err(VaultError::InvalidInstruction));
    assert_eq!(unpack(&[10u8, 2]), Err(VaultError::InvalidInstruction));
}
