//! The wire grammar of operation payloads.
//!
//! An operation arrives as one tag byte followed by its fields in order:
//! integers little-endian, identities as 32 raw bytes, booleans as a
//! single 0-or-1 byte. An absent optional identity travels as the all-zero
//! sentinel. [`encode`] is the grammar itself; [`pack`] and [`unpack`] are
//! the executable encoder and decoder, each pinned to the spec side, and
//! [`lemma_decode_encode`] is the round trip: decoding an encoded
//! operation gives the operation back.

use vstd::prelude::*;

use crate::addr::{zero_address, Address};
use crate::error::VaultError;
use crate::fees::{le64_at, le_byte, read_u64_le};
use crate::instruction::VaultInstruction;
use crate::processor::address_at;

verus! {

/// Reading of a stored identity as an optional reference: the sentinel
/// means absent.
pub open spec fn opt_of(a: Address) -> Option<Address> {
    if a == zero_address() {
        None
    } else {
        Some(a)
    }
}

/// The eight little-endian bytes of `v`.
pub open spec fn le64_bytes(v: u64) -> Seq<u8> {
    seq![
        le_byte(v, 0),
        le_byte(v, 1),
        le_byte(v, 2),
        le_byte(v, 3),
        le_byte(v, 4),
        le_byte(v, 5),
        le_byte(v, 6),
        le_byte(v, 7),
    ]
}

/// The 32 raw bytes of an identity, word by little-endian word.
pub open spec fn addr_bytes(a: Address) -> Seq<u8> {
    le64_bytes(a.w0) + le64_bytes(a.w1) + le64_bytes(a.w2) + le64_bytes(a.w3)
}

/// The stored form of an optional identity: the identity itself, or the
/// all-zero sentinel.
pub open spec fn opt_addr_bytes(a: Option<Address>) -> Seq<u8> {
    match a {
        Some(x) => addr_bytes(x),
        None => addr_bytes(zero_address()),
    }
}

/// The single byte of a boolean.
pub open spec fn bool_byte(b: bool) -> u8 {
    if b {
        1
    } else {
        0
    }
}

/// The encoding of one operation: its tag byte followed by its fields.
pub open spec fn encode(ins: VaultInstruction) -> Seq<u8> {
    match ins {
        VaultInstruction::Initialize { ledger_program, delegation_program, fund_program } => seq![
            0u8,
        ] + addr_bytes(ledger_program) + addr_bytes(delegation_program) + opt_addr_bytes(
            fund_program,
        ),
        VaultInstruction::InitializeUser => seq![1u8],
        VaultInstruction::Deposit { amount } => seq![2u8] + le64_bytes(amount),
        VaultInstruction::Withdraw { amount } => seq![3u8] + le64_bytes(amount),
        VaultInstruction::LockMargin { amount } => seq![4u8] + le64_bytes(amount),
        VaultInstruction::ReleaseMargin { amount } => seq![5u8] + le64_bytes(amount),
        VaultInstruction::ClosePositionSettle { margin_to_release, realized_pnl, fee } => seq![
            6u8,
        ] + le64_bytes(margin_to_release) + le64_bytes(realized_pnl as u64) + le64_bytes(fee),
        VaultInstruction::LiquidatePosition {
            margin,
            user_remainder,
            liquidation_penalty,
        } => seq![7u8] + le64_bytes(margin) + le64_bytes(user_remainder) + le64_bytes(
            liquidation_penalty,
        ),
        VaultInstruction::AddAuthorizedCaller { caller } => seq![8u8] + addr_bytes(caller),
        VaultInstruction::RemoveAuthorizedCaller { caller } => seq![9u8] + addr_bytes(caller),
        VaultInstruction::SetPaused { paused } => seq![10u8, bool_byte(paused)],
        VaultInstruction::UpdateAdmin { new_admin } => seq![11u8] + addr_bytes(new_admin),
        VaultInstruction::SetFundProgram { fund_program } => seq![12u8] + opt_addr_bytes(
            fund_program,
        ),
        VaultInstruction::AdminForceReleaseMargin { amount } => seq![13u8] + le64_bytes(amount),
        VaultInstruction::InitializePredictionMarketUser => seq![14u8],
        VaultInstruction::PredictionMarketLock { amount } => seq![15u8] + le64_bytes(amount),
        VaultInstruction::PredictionMarketUnlock { amount } => seq![16u8] + le64_bytes(amount),
        VaultInstruction::PredictionMarketSettle { locked_amount, settlement_amount } => seq![
            17u8,
        ] + le64_bytes(locked_amount) + le64_bytes(settlement_amount),
        VaultInstruction::PredictionMarketClaimSettlement => seq![18u8],
        VaultInstruction::AdminPredictionMarketForceUnlock { amount } => seq![19u8] + le64_bytes(
            amount,
        ),
        VaultInstruction::RelayerDeposit { user_wallet, amount } => seq![20u8] + addr_bytes(
            user_wallet,
        ) + le64_bytes(amount),
        VaultInstruction::RelayerWithdraw { user_wallet, amount } => seq![21u8] + addr_bytes(
            user_wallet,
        ) + le64_bytes(amount),
        VaultInstruction::SetLedgerProgram { ledger_program } => seq![22u8] + addr_bytes(
            ledger_program,
        ),
    }
}

/// An operation whose optional references never carry the sentinel
/// identity explicitly: absence is `None`, not `Some` of all-zero. Only
/// such operations survive a round trip through the sentinel encoding
/// unchanged.
pub open spec fn canonical(ins: VaultInstruction) -> bool {
    match ins {
        VaultInstruction::Initialize { fund_program, .. } => fund_program
            != Some(zero_address()),
        VaultInstruction::SetFundProgram { fund_program } => fund_program != Some(zero_address()),
        _ => true,
    }
}

/// The decoding of a payload: `None` for anything that is not exactly the
/// encoding of one operation.
pub open spec fn decode(s: Seq<u8>) -> Option<VaultInstruction> {
    if s.len() == 0 {
        None
    } else {
        let t = s[0];
        if t == 0 && s.len() == 97 {
            Some(
                VaultInstruction::Initialize {
                    ledger_program: address_at(s, 1),
                    delegation_program: address_at(s, 33),
                    fund_program: opt_of(address_at(s, 65)),
                },
            )
        } else if t == 1 && s.len() == 1 {
            Some(VaultInstruction::InitializeUser)
        } else if t == 2 && s.len() == 9 {
            Some(VaultInstruction::Deposit { amount: le64_at(s, 1) })
        } else if t == 3 && s.len() == 9 {
            Some(VaultInstruction::Withdraw { amount: le64_at(s, 1) })
        } else if t == 4 && s.len() == 9 {
            Some(VaultInstruction::LockMargin { amount: le64_at(s, 1) })
        } else if t == 5 && s.len() == 9 {
            Some(VaultInstruction::ReleaseMargin { amount: le64_at(s, 1) })
        } else if t == 6 && s.len() == 25 {
            Some(
                VaultInstruction::ClosePositionSettle {
                    margin_to_release: le64_at(s, 1),
                    realized_pnl: le64_at(s, 9) as i64,
                    fee: le64_at(s, 17),
                },
            )
        } else if t == 7 && s.len() == 25 {
            Some(
                VaultInstruction::LiquidatePosition {
                    margin: le64_at(s, 1),
                    user_remainder: le64_at(s, 9),
                    liquidation_penalty: le64_at(s, 17),
                },
            )
        } else if t == 8 && s.len() == 33 {
            Some(VaultInstruction::AddAuthorizedCaller { caller: address_at(s, 1) })
        } else if t == 9 && s.len() == 33 {
            Some(VaultInstruction::RemoveAuthorizedCaller { caller: address_at(s, 1) })
        } else if t == 10 && s.len() == 2 && (s[1] == 0 || s[1] == 1) {
            Some(VaultInstruction::SetPaused { paused: s[1] == 1 })
        } else if t == 11 && s.len() == 33 {
            Some(VaultInstruction::UpdateAdmin { new_admin: address_at(s, 1) })
        } else if t == 12 && s.len() == 33 {
            Some(VaultInstruction::SetFundProgram { fund_program: opt_of(address_at(s, 1)) })
        } else if t == 13 && s.len() == 9 {
            Some(VaultInstruction::AdminForceReleaseMargin { amount: le64_at(s, 1) })
        } else if t == 14 && s.len() == 1 {
            Some(VaultInstruction::InitializePredictionMarketUser)
        } else if t == 15 && s.len() == 9 {
            Some(VaultInstruction::PredictionMarketLock { amount: le64_at(s, 1) })
        } else if t == 16 && s.len() == 9 {
            Some(VaultInstruction::PredictionMarketUnlock { amount: le64_at(s, 1) })
        } else if t == 17 && s.len() == 17 {
            Some(
                VaultInstruction::PredictionMarketSettle {
                    locked_amount: le64_at(s, 1),
                    settlement_amount: le64_at(s, 9),
                },
            )
        } else if t == 18 && s.len() == 1 {
            Some(VaultInstruction::PredictionMarketClaimSettlement)
        } else if t == 19 && s.len() == 9 {
            Some(VaultInstruction::AdminPredictionMarketForceUnlock { amount: le64_at(s, 1) })
        } else if t == 20 && s.len() == 41 {
            Some(
                VaultInstruction::RelayerDeposit {
                    user_wallet: address_at(s, 1),
                    amount: le64_at(s, 33),
                },
            )
        } else if t == 21 && s.len() == 41 {
            Some(
                VaultInstruction::RelayerWithdraw {
                    user_wallet: address_at(s, 1),
                    amount: le64_at(s, 33),
                },
            )
        } else if t == 22 && s.len() == 33 {
            Some(VaultInstruction::SetLedgerProgram { ledger_program: address_at(s, 1) })
        } else {
            None
        }
    }
}

/// Eight bytes that match the little-endian decomposition of `v` read
/// back as exactly `v`.
pub proof fn lemma_le64_recompose(s: Seq<u8>, off: int, v: u64)
    requires
        0 <= off,
        off + 8 <= s.len(),
        forall|k: int| 0 <= k < 8 ==> s[off + k] == le_byte(v, k),
    ensures
        le64_at(s, off) == v,
{
    assert(v & 0xff < 256 && (v >> 8) & 0xff < 256 && (v >> 16) & 0xff < 256 && (v >> 24) & 0xff
        < 256 && (v >> 32) & 0xff < 256 && (v >> 40) & 0xff < 256 && (v >> 48) & 0xff < 256 && (v
        >> 56) & 0xff < 256) by (bit_vector);
    assert(v >> 0 == v) by (bit_vector);
    assert(s[off] == le_byte(v, 0));
    assert(s[off + 1] == le_byte(v, 1));
    assert(s[off + 2] == le_byte(v, 2));
    assert(s[off + 3] == le_byte(v, 3));
    assert(s[off + 4] == le_byte(v, 4));
    assert(s[off + 5] == le_byte(v, 5));
    assert(s[off + 6] == le_byte(v, 6));
    assert(s[off + 7] == le_byte(v, 7));
    assert((v & 0xff) | (((v >> 8) & 0xff) << 8) | (((v >> 16) & 0xff) << 16) | (((v >> 24) & 0xff)
        << 24) | (((v >> 32) & 0xff) << 32) | (((v >> 40) & 0xff) << 40) | (((v >> 48) & 0xff)
        << 48) | (((v >> 56) & 0xff) << 56) == v) by (bit_vector);
}

/// Thirty-two bytes that match the word decomposition of `a` read back as
/// exactly `a`.
pub proof fn lemma_addr_recompose(s: Seq<u8>, off: int, a: Address)
    requires
        0 <= off,
        off + 32 <= s.len(),
        forall|k: int| 0 <= k < 32 ==> s[off + k] == addr_bytes(a)[k],
    ensures
        address_at(s, off) == a,
{
    assert(addr_bytes(a).len() == 32);
    assert forall|k: int| 0 <= k < 8 implies s[off + k] == le_byte(a.w0, k) by {
        assert(addr_bytes(a)[k] == le64_bytes(a.w0)[k]);
    }
    assert forall|k: int| 0 <= k < 8 implies s[off + 8 + k] == le_byte(a.w1, k) by {
        assert(addr_bytes(a)[8 + k] == le64_bytes(a.w1)[k]);
    }
    assert forall|k: int| 0 <= k < 8 implies s[off + 16 + k] == le_byte(a.w2, k) by {
        assert(addr_bytes(a)[16 + k] == le64_bytes(a.w2)[k]);
    }
    assert forall|k: int| 0 <= k < 8 implies s[off + 24 + k] == le_byte(a.w3, k) by {
        assert(addr_bytes(a)[24 + k] == le64_bytes(a.w3)[k]);
    }
    lemma_le64_recompose(s, off, a.w0);
    lemma_le64_recompose(s, off + 8, a.w1);
    lemma_le64_recompose(s, off + 16, a.w2);
    lemma_le64_recompose(s, off + 24, a.w3);
}

/// A little-endian integer sitting between a prefix and a suffix reads
/// back as itself.
pub proof fn lemma_le64_concat(p: Seq<u8>, v: u64, rest: Seq<u8>)
    ensures
        le64_at(p + le64_bytes(v) + rest, p.len() as int) == v,
{
    let s = p + le64_bytes(v) + rest;
    assert forall|k: int| 0 <= k < 8 implies s[p.len() + k] == le_byte(v, k) by {
        assert(s[p.len() + k] == le64_bytes(v)[k]);
    }
    lemma_le64_recompose(s, p.len() as int, v);
}

/// A little-endian integer at the end of a payload reads back as itself.
pub proof fn lemma_le64_at_end(p: Seq<u8>, v: u64)
    ensures
        le64_at(p + le64_bytes(v), p.len() as int) == v,
{
    assert(p + le64_bytes(v) =~= p + le64_bytes(v) + Seq::<u8>::empty());
    lemma_le64_concat(p, v, Seq::<u8>::empty());
}

/// An identity sitting between a prefix and a suffix reads back as itself.
pub proof fn lemma_addr_concat(p: Seq<u8>, a: Address, rest: Seq<u8>)
    ensures
        address_at(p + addr_bytes(a) + rest, p.len() as int) == a,
{
    let s = p + addr_bytes(a) + rest;
    assert(addr_bytes(a).len() == 32);
    assert forall|k: int| 0 <= k < 32 implies s[p.len() + k] == addr_bytes(a)[k] by {
        assert(s[p.len() + k] == addr_bytes(a)[k]);
    }
    lemma_addr_recompose(s, p.len() as int, a);
}

/// An identity at the end of a payload reads back as itself.
pub proof fn lemma_addr_at_end(p: Seq<u8>, a: Address)
    ensures
        address_at(p + addr_bytes(a), p.len() as int) == a,
{
    assert(p + addr_bytes(a) =~= p + addr_bytes(a) + Seq::<u8>::empty());
    lemma_addr_concat(p, a, Seq::<u8>::empty());
}

#[verifier::rlimit(100)]
#[verifier::spinoff_prover]
proof fn lemma_three_address_layout(t: Seq<u8>, a1: Address, a2: Address, a3: Address)
    requires
        t.len() == 1,
    ensures
        ({
            let s = t + addr_bytes(a1) + addr_bytes(a2) + addr_bytes(a3);
            &&& s.len() == 97
            &&& s[0] == t[0]
            &&& address_at(s, 1) == a1
            &&& address_at(s, 33) == a2
            &&& address_at(s, 65) == a3
        }),
{
    let s = t + addr_bytes(a1) + addr_bytes(a2) + addr_bytes(a3);
    assert(s =~= t + addr_bytes(a1) + (addr_bytes(a2) + addr_bytes(a3)));
    lemma_addr_concat(t, a1, addr_bytes(a2) + addr_bytes(a3));
    lemma_addr_concat(t + addr_bytes(a1), a2, addr_bytes(a3));
    lemma_addr_at_end((t + addr_bytes(a1)) + addr_bytes(a2), a3);
}

#[verifier::rlimit(100)]
#[verifier::spinoff_prover]
proof fn lemma_decode_encode_group_a1(ins: VaultInstruction)
    requires
        canonical(ins),
        ins is Initialize,
    ensures
        decode(encode(ins)) == Some(ins),
{
    let s = encode(ins);
    match ins {
        VaultInstruction::Initialize { ledger_program, delegation_program, fund_program } => {
            let f = match fund_program {
                Some(x) => x,
                None => zero_address(),
            };
            lemma_three_address_layout(seq![0u8], ledger_program, delegation_program, f);
            assert(s =~= seq![0u8] + addr_bytes(ledger_program) + addr_bytes(delegation_program)
                + addr_bytes(f));
            assert(opt_of(f) == fund_program);
        },
        _ => {
            assert(false);
        },
    }
}

#[verifier::rlimit(100)]
#[verifier::spinoff_prover]
proof fn lemma_decode_encode_group_a2(ins: VaultInstruction)
    requires
        canonical(ins),
        ins is InitializeUser || ins is Deposit || ins is Withdraw || ins is LockMargin || ins is ReleaseMargin,
    ensures
        decode(encode(ins)) == Some(ins),
{
    let s = encode(ins);
    match ins {
        VaultInstruction::InitializeUser => {
        },
        VaultInstruction::Deposit { amount } => {
            lemma_le64_at_end(seq![2u8], amount);
        },
        VaultInstruction::Withdraw { amount } => {
            lemma_le64_at_end(seq![3u8], amount);
        },
        VaultInstruction::LockMargin { amount } => {
            lemma_le64_at_end(seq![4u8], amount);
        },
        VaultInstruction::ReleaseMargin { amount } => {
            lemma_le64_at_end(seq![5u8], amount);
        },
        _ => {
            assert(false);
        },
    }
}

#[verifier::rlimit(100)]
#[verifier::spinoff_prover]
proof fn lemma_decode_encode_group_b(ins: VaultInstruction)
    requires
        canonical(ins),
        ins is ClosePositionSettle || ins is LiquidatePosition || ins is AddAuthorizedCaller || ins is RemoveAuthorizedCaller || ins is SetPaused || ins is UpdateAdmin,
    ensures
        decode(encode(ins)) == Some(ins),
{
    let s = encode(ins);
    match ins {
        VaultInstruction::ClosePositionSettle { margin_to_release, realized_pnl, fee } => {
            let t = seq![6u8];
            assert(s =~= t + le64_bytes(margin_to_release) + (le64_bytes(realized_pnl as u64)
                + le64_bytes(fee)));
            lemma_le64_concat(t, margin_to_release, le64_bytes(realized_pnl as u64) + le64_bytes(
                fee,
            ));
            assert(s =~= (t + le64_bytes(margin_to_release)) + le64_bytes(realized_pnl as u64)
                + le64_bytes(fee));
            lemma_le64_concat(t + le64_bytes(margin_to_release), realized_pnl as u64, le64_bytes(
                fee,
            ));
            lemma_le64_at_end((t + le64_bytes(margin_to_release)) + le64_bytes(
                realized_pnl as u64,
            ), fee);
            assert((realized_pnl as u64) as i64 == realized_pnl) by (bit_vector);
        },
        VaultInstruction::LiquidatePosition { margin, user_remainder, liquidation_penalty } => {
            let t = seq![7u8];
            assert(s =~= t + le64_bytes(margin) + (le64_bytes(user_remainder) + le64_bytes(
                liquidation_penalty,
            )));
            lemma_le64_concat(t, margin, le64_bytes(user_remainder) + le64_bytes(
                liquidation_penalty,
            ));
            assert(s =~= (t + le64_bytes(margin)) + le64_bytes(user_remainder) + le64_bytes(
                liquidation_penalty,
            ));
            lemma_le64_concat(t + le64_bytes(margin), user_remainder, le64_bytes(
                liquidation_penalty,
            ));
            lemma_le64_at_end((t + le64_bytes(margin)) + le64_bytes(user_remainder),
                liquidation_penalty);
        },
        VaultInstruction::AddAuthorizedCaller { caller } => {
            lemma_addr_at_end(seq![8u8], caller);
        },
        VaultInstruction::RemoveAuthorizedCaller { caller } => {
            lemma_addr_at_end(seq![9u8], caller);
        },
        VaultInstruction::SetPaused { paused } => {
            if paused {
                assert(s[1] == 1);
            } else {
                assert(s[1] == 0);
            }
        },
        VaultInstruction::UpdateAdmin { new_admin } => {
            lemma_addr_at_end(seq![11u8], new_admin);
        },
        _ => {
            assert(false);
        },
    }
}

#[verifier::rlimit(100)]
#[verifier::spinoff_prover]
proof fn lemma_decode_encode_group_c(ins: VaultInstruction)
    requires
        canonical(ins),
        ins is SetFundProgram || ins is AdminForceReleaseMargin || ins is InitializePredictionMarketUser || ins is PredictionMarketLock || ins is PredictionMarketUnlock || ins is PredictionMarketSettle,
    ensures
        decode(encode(ins)) == Some(ins),
{
    let s = encode(ins);
    match ins {
        VaultInstruction::SetFundProgram { fund_program } => {
            let f = match fund_program {
                Some(x) => x,
                None => zero_address(),
            };
            assert(s =~= seq![12u8] + addr_bytes(f));
            lemma_addr_at_end(seq![12u8], f);
            assert(opt_of(f) == fund_program);
        },
        VaultInstruction::AdminForceReleaseMargin { amount } => {
            lemma_le64_at_end(seq![13u8], amount);
        },
        VaultInstruction::InitializePredictionMarketUser => {
        },
        VaultInstruction::PredictionMarketLock { amount } => {
            lemma_le64_at_end(seq![15u8], amount);
        },
        VaultInstruction::PredictionMarketUnlock { amount } => {
            lemma_le64_at_end(seq![16u8], amount);
        },
        VaultInstruction::PredictionMarketSettle { locked_amount, settlement_amount } => {
            let t = seq![17u8];
            assert(s =~= t + le64_bytes(locked_amount) + le64_bytes(settlement_amount));
            lemma_le64_concat(t, locked_amount, le64_bytes(settlement_amount));
            lemma_le64_at_end(t + le64_bytes(locked_amount), settlement_amount);
        },
        _ => {
            assert(false);
        },
    }
}

#[verifier::rlimit(100)]
#[verifier::spinoff_prover]
proof fn lemma_decode_encode_group_d1(ins: VaultInstruction)
    requires
        canonical(ins),
        ins is PredictionMarketClaimSettlement || ins is AdminPredictionMarketForceUnlock || ins is SetLedgerProgram,
    ensures
        decode(encode(ins)) == Some(ins),
{
    let s = encode(ins);
    match ins {
        VaultInstruction::PredictionMarketClaimSettlement => {
        },
        VaultInstruction::AdminPredictionMarketForceUnlock { amount } => {
            lemma_le64_at_end(seq![19u8], amount);
        },
        VaultInstruction::SetLedgerProgram { ledger_program } => {
            lemma_addr_at_end(seq![22u8], ledger_program);
        },
        _ => {
            assert(false);
        },
    }
}

#[verifier::rlimit(100)]
#[verifier::spinoff_prover]
proof fn lemma_decode_encode_group_d2(ins: VaultInstruction)
    requires
        canonical(ins),
        ins is RelayerDeposit || ins is RelayerWithdraw,
    ensures
        decode(encode(ins)) == Some(ins),
{
    let s = encode(ins);
    match ins {
        VaultInstruction::RelayerDeposit { user_wallet, amount } => {
            let t = seq![20u8];
            assert(s =~= t + addr_bytes(user_wallet) + le64_bytes(amount));
            lemma_addr_concat(t, user_wallet, le64_bytes(amount));
            lemma_le64_at_end(t + addr_bytes(user_wallet), amount);
        },
        VaultInstruction::RelayerWithdraw { user_wallet, amount } => {
            let t = seq![21u8];
            assert(s =~= t + addr_bytes(user_wallet) + le64_bytes(amount));
            lemma_addr_concat(t, user_wallet, le64_bytes(amount));
            lemma_le64_at_end(t + addr_bytes(user_wallet), amount);
        },
        _ => {
            assert(false);
        },
    }
}

/// The round trip: decoding the encoding of any operation gives the
/// operation back, provided its optional references do not carry the
/// sentinel identity explicitly (the sentinel encoding cannot tell
/// `Some` of all-zero from `None`).
pub proof fn lemma_decode_encode(ins: VaultInstruction)
    requires
        canonical(ins),
    ensures
        decode(encode(ins)) == Some(ins),
{
    match ins {
        VaultInstruction::Initialize { .. } | VaultInstruction::InitializeUser
            | VaultInstruction::Deposit { .. } | VaultInstruction::Withdraw { .. }
            | VaultInstruction::LockMargin { .. } | VaultInstruction::ReleaseMargin { .. } => {
            if ins is Initialize {
                lemma_decode_encode_group_a1(ins);
            } else {
                lemma_decode_encode_group_a2(ins);
            }
        },
        VaultInstruction::ClosePositionSettle { .. } | VaultInstruction::LiquidatePosition { .. }
            | VaultInstruction::AddAuthorizedCaller { .. }
            | VaultInstruction::RemoveAuthorizedCaller { .. } | VaultInstruction::SetPaused { .. }
            | VaultInstruction::UpdateAdmin { .. } => {
            lemma_decode_encode_group_b(ins);
        },
        VaultInstruction::SetFundProgram { .. } | VaultInstruction::AdminForceReleaseMargin { .. }
            | VaultInstruction::InitializePredictionMarketUser
            | VaultInstruction::PredictionMarketLock { .. }
            | VaultInstruction::PredictionMarketUnlock { .. }
            | VaultInstruction::PredictionMarketSettle { .. } => {
            lemma_decode_encode_group_c(ins);
        },
        VaultInstruction::PredictionMarketClaimSettlement
            | VaultInstruction::AdminPredictionMarketForceUnlock { .. }
            | VaultInstruction::RelayerDeposit { .. } | VaultInstruction::RelayerWithdraw { .. }
            | VaultInstruction::SetLedgerProgram { .. } => {
            if ins is RelayerDeposit || ins is RelayerWithdraw {
                lemma_decode_encode_group_d2(ins);
            } else {
                lemma_decode_encode_group_d1(ins);
            }
        },
    }
}

/// Appends the eight little-endian bytes of `v`.
fn push_u64(out: &mut Vec<u8>, v: u64)
    ensures
        final(out)@ == old(out)@ + le64_bytes(v),
{
    proof {
        assert(v & 0xff < 256 && (v >> 8) & 0xff < 256 && (v >> 16) & 0xff < 256 && (v >> 24)
            & 0xff < 256 && (v >> 32) & 0xff < 256 && (v >> 40) & 0xff < 256 && (v >> 48) & 0xff
            < 256 && (v >> 56) & 0xff < 256) by (bit_vector);
        assert(v >> 0 == v) by (bit_vector);
    }
    out.push((v & 0xff) as u8);
    out.push(((v >> 8u64) & 0xff) as u8);
    out.push(((v >> 16u64) & 0xff) as u8);
    out.push(((v >> 24u64) & 0xff) as u8);
    out.push(((v >> 32u64) & 0xff) as u8);
    out.push(((v >> 40u64) & 0xff) as u8);
    out.push(((v >> 48u64) & 0xff) as u8);
    out.push(((v >> 56u64) & 0xff) as u8);
    proof {
        assert(out@ =~= old(out)@ + le64_bytes(v));
    }
}

/// Appends the 32 raw bytes of an identity.
fn push_address(out: &mut Vec<u8>, a: &Address)
    ensures
        final(out)@ == old(out)@ + addr_bytes(*a),
{
    push_u64(out, a.w0);
    push_u64(out, a.w1);
    push_u64(out, a.w2);
    push_u64(out, a.w3);
    proof {
        assert(out@ =~= old(out)@ + addr_bytes(*a));
    }
}

/// Appends an optional identity, absent as the all-zero sentinel.
fn push_opt_address(out: &mut Vec<u8>, a: &Option<Address>)
    ensures
        final(out)@ == old(out)@ + opt_addr_bytes(*a),
{
    match a {
        Some(x) => push_address(out, x),
        None => push_address(out, &Address { w0: 0, w1: 0, w2: 0, w3: 0 }),
    }
}

/// Encodes one operation into its wire payload.
#[verifier::rlimit(100)]
#[verifier::spinoff_prover]
pub fn pack(ins: &VaultInstruction) -> (r: Vec<u8>)
    ensures
        r@ == encode(*ins),
{
    let mut out: Vec<u8> = Vec::new();
    match ins {
        VaultInstruction::Initialize { ledger_program, delegation_program, fund_program } => {
            out.push(0u8);
            push_address(&mut out, ledger_program);
            push_address(&mut out, delegation_program);
            push_opt_address(&mut out, fund_program);
        },
        VaultInstruction::InitializeUser => {
            out.push(1u8);
        },
        VaultInstruction::Deposit { amount } => {
            out.push(2u8);
            push_u64(&mut out, *amount);
        },
        VaultInstruction::Withdraw { amount } => {
            out.push(3u8);
            push_u64(&mut out, *amount);
        },
        VaultInstruction::LockMargin { amount } => {
            out.push(4u8);
            push_u64(&mut out, *amount);
        },
        VaultInstruction::ReleaseMargin { amount } => {
            out.push(5u8);
            push_u64(&mut out, *amount);
        },
        VaultInstruction::ClosePositionSettle { margin_to_release, realized_pnl, fee } => {
            out.push(6u8);
            push_u64(&mut out, *margin_to_release);
            push_u64(&mut out, #[verifier::truncate] (*realized_pnl as u64));
            push_u64(&mut out, *fee);
        },
        VaultInstruction::LiquidatePosition { margin, user_remainder, liquidation_penalty } => {
            out.push(7u8);
            push_u64(&mut out, *margin);
            push_u64(&mut out, *user_remainder);
            push_u64(&mut out, *liquidation_penalty);
        },
        VaultInstruction::AddAuthorizedCaller { caller } => {
            out.push(8u8);
            push_address(&mut out, caller);
        },
        VaultInstruction::RemoveAuthorizedCaller { caller } => {
            out.push(9u8);
            push_address(&mut out, caller);
        },
        VaultInstruction::SetPaused { paused } => {
            out.push(10u8);
            out.push(if *paused { 1u8 } else { 0u8 });
        },
        VaultInstruction::UpdateAdmin { new_admin } => {
            out.push(11u8);
            push_address(&mut out, new_admin);
        },
        VaultInstruction::SetFundProgram { fund_program } => {
            out.push(12u8);
            push_opt_address(&mut out, fund_program);
        },
        VaultInstruction::AdminForceReleaseMargin { amount } => {
            out.push(13u8);
            push_u64(&mut out, *amount);
        },
        VaultInstruction::InitializePredictionMarketUser => {
            out.push(14u8);
        },
        VaultInstruction::PredictionMarketLock { amount } => {
            out.push(15u8);
            push_u64(&mut out, *amount);
        },
        VaultInstruction::PredictionMarketUnlock { amount } => {
            out.push(16u8);
            push_u64(&mut out, *amount);
        },
        VaultInstruction::PredictionMarketSettle { locked_amount, settlement_amount } => {
            out.push(17u8);
            push_u64(&mut out, *locked_amount);
            push_u64(&mut out, *settlement_amount);
        },
        VaultInstruction::PredictionMarketClaimSettlement => {
            out.push(18u8);
        },
        VaultInstruction::AdminPredictionMarketForceUnlock { amount } => {
            out.push(19u8);
            push_u64(&mut out, *amount);
        },
        VaultInstruction::RelayerDeposit { user_wallet, amount } => {
            out.push(20u8);
            push_address(&mut out, user_wallet);
            push_u64(&mut out, *amount);
        },
        VaultInstruction::RelayerWithdraw { user_wallet, amount } => {
            out.push(21u8);
            push_address(&mut out, user_wallet);
            push_u64(&mut out, *amount);
        },
        VaultInstruction::SetLedgerProgram { ledger_program } => {
            out.push(22u8);
            push_address(&mut out, ledger_program);
        },
    }
    proof {
        assert(out@ =~= encode(*ins));
    }
    out
}

/// Reads the 32-byte identity at `off`.
fn read_address(data: &[u8], off: usize) -> (r: Address)
    requires
        off + 32 <= data@.len(),
    ensures
        r == address_at(data@, off as int),
{
    let n = data.len();
    assert(off + 32 <= n);
    Address {
        w0: read_u64_le(data, off),
        w1: read_u64_le(data, off + 8),
        w2: read_u64_le(data, off + 16),
        w3: read_u64_le(data, off + 24),
    }
}

/// Reads a stored identity as an optional reference.
fn opt_from(a: Address) -> (r: Option<Address>)
    ensures
        r == opt_of(a),
{
    if a.w0 == 0 && a.w1 == 0 && a.w2 == 0 && a.w3 == 0 {
        None
    } else {
        Some(a)
    }
}

/// Decodes one wire payload into its operation; anything that is not
/// exactly the encoding of one operation is rejected.
#[verifier::rlimit(100)]
#[verifier::spinoff_prover]
pub fn unpack(data: &[u8]) -> (r: Result<VaultInstruction, VaultError>)
    ensures
        ({
            match decode(data@) {
                Some(i) => r == Ok::<VaultInstruction, VaultError>(i),
                None => r == Err::<VaultInstruction, VaultError>(VaultError::InvalidInstruction),
            }
        }),
{
    if data.len() == 0 {
        return Err(VaultError::InvalidInstruction);
    }
    let t = data[0];
    if t == 0 && data.len() == 97 {
        let ledger_program = read_address(data, 1);
        let delegation_program = read_address(data, 33);
        let fund = read_address(data, 65);
        Ok(
            VaultInstruction::Initialize {
                ledger_program,
                delegation_program,
                fund_program: opt_from(fund),
            },
        )
    } else if t == 1 && data.len() == 1 {
        Ok(VaultInstruction::InitializeUser)
    } else if t == 2 && data.len() == 9 {
        Ok(VaultInstruction::Deposit { amount: read_u64_le(data, 1) })
    } else if t == 3 && data.len() == 9 {
        Ok(VaultInstruction::Withdraw { amount: read_u64_le(data, 1) })
    } else if t == 4 && data.len() == 9 {
        Ok(VaultInstruction::LockMargin { amount: read_u64_le(data, 1) })
    } else if t == 5 && data.len() == 9 {
        Ok(VaultInstruction::ReleaseMargin { amount: read_u64_le(data, 1) })
    } else if t == 6 && data.len() == 25 {
        Ok(
            VaultInstruction::ClosePositionSettle {
                margin_to_release: read_u64_le(data, 1),
                realized_pnl: #[verifier::truncate] (read_u64_le(data, 9) as i64),
                fee: read_u64_le(data, 17),
            },
        )
    } else if t == 7 && data.len() == 25 {
        Ok(
            VaultInstruction::LiquidatePosition {
                margin: read_u64_le(data, 1),
                user_remainder: read_u64_le(data, 9),
                liquidation_penalty: read_u64_le(data, 17),
            },
        )
    } else if t == 8 && data.len() == 33 {
        Ok(VaultInstruction::AddAuthorizedCaller { caller: read_address(data, 1) })
    } else if t == 9 && data.len() == 33 {
        Ok(VaultInstruction::RemoveAuthorizedCaller { caller: read_address(data, 1) })
    } else if t == 10 && data.len() == 2 && (data[1] == 0 || data[1] == 1) {
        Ok(VaultInstruction::SetPaused { paused: data[1] == 1 })
    } else if t == 11 && data.len() == 33 {
        Ok(VaultInstruction::UpdateAdmin { new_admin: read_address(data, 1) })
    } else if t == 12 && data.len() == 33 {
        Ok(VaultInstruction::SetFundProgram { fund_program: opt_from(read_address(data, 1)) })
    } else if t == 13 && data.len() == 9 {
        Ok(VaultInstruction::AdminForceReleaseMargin { amount: read_u64_le(data, 1) })
    } else if t == 14 && data.len() == 1 {
        Ok(VaultInstruction::InitializePredictionMarketUser)
    } else if t == 15 && data.len() == 9 {
        Ok(VaultInstruction::PredictionMarketLock { amount: read_u64_le(data, 1) })
    } else if t == 16 && data.len() == 9 {
        Ok(VaultInstruction::PredictionMarketUnlock { amount: read_u64_le(data, 1) })
    } else if t == 17 && data.len() == 17 {
        Ok(
            VaultInstruction::PredictionMarketSettle {
                locked_amount: read_u64_le(data, 1),
                settlement_amount: read_u64_le(data, 9),
            },
        )
    } else if t == 18 && data.len() == 1 {
        Ok(VaultInstruction::PredictionMarketClaimSettlement)
    } else if t == 19 && data.len() == 9 {
        Ok(VaultInstruction::AdminPredictionMarketForceUnlock { amount: read_u64_le(data, 1) })
    } else if t == 20 && data.len() == 41 {
        Ok(
            VaultInstruction::RelayerDeposit {
                user_wallet: read_address(data, 1),
                amount: read_u64_le(data, 33),
            },
        )
    } else if t == 21 && data.len() == 41 {
        Ok(
            VaultInstruction::RelayerWithdraw {
                user_wallet: read_address(data, 1),
                amount: read_u64_le(data, 33),
            },
        )
    } else if t == 22 && data.len() == 33 {
        Ok(VaultInstruction::SetLedgerProgram { ledger_program: read_address(data, 1) })
    } else {
        Err(VaultError::InvalidInstruction)
    }
}

} // verus!
