//! Fee computation and the external fee-policy record's interface.
//!
//! Fees are quoted in basis points (1 bps = 0.01%) and computed with
//! truncating integer division: `fee = gross * bps / 10_000`.
//!
//! The fee-policy record itself belongs to a separate subsystem; this core
//! does not own its type. It reads the per-category basis-point rates and
//! writes back the running per-category fee totals at fixed byte offsets,
//! little-endian, so the record stays format-compatible with its owner.

use vstd::prelude::*;
use vstd::pervasive::VecAdditionalExecFns;

use crate::addr::Address;
use crate::auth::verify_cpi_caller;
use crate::error::VaultError;
use crate::processor::{Processor, MAX_BALANCE_E6};
use crate::state::{PredictionMarketUserAccount, UserAccount, VaultConfig};
use crate::utils::checked_add;

verus! {

/// Denominator of basis-point rates: 10_000 bps = 100%.
pub const FEE_BPS_DENOMINATOR: u64 = 10_000;

/// Byte offset of the fee-destination identity in the fee-policy record.
pub const FEE_POLICY_DEST_OFFSET: usize = 8;

/// Byte offset of the first basis-point rate field.
pub const FEE_POLICY_RATES_OFFSET: usize = 40;

/// Byte offset of the first running-total field.
pub const FEE_POLICY_TOTALS_OFFSET: usize = 56;

/// Minimum size in bytes of a fee-policy record this core accepts.
pub const FEE_POLICY_MIN_SIZE: usize = 96;

/// The fee categories the fee-policy record carries, in field order.
#[derive(Clone, Copy, Debug, PartialEq, Eq, Structural)]
pub enum FeeCategory {
    /// Minting of venue assets.
    Minting,
    /// Redemption of venue assets.
    Redemption,
    /// Taker side of a trade.
    Taker,
    /// Maker side of a trade.
    Maker,
    /// Position or prediction-market settlement.
    Settlement,
}

/// Position of a category among the record's rate and total fields.
pub open spec fn category_position(c: FeeCategory) -> int {
    match c {
        FeeCategory::Minting => 0,
        FeeCategory::Redemption => 1,
        FeeCategory::Taker => 2,
        FeeCategory::Maker => 3,
        FeeCategory::Settlement => 4,
    }
}

/// Byte offset of a category's 16-bit rate field.
pub open spec fn rate_offset(c: FeeCategory) -> int {
    FEE_POLICY_RATES_OFFSET + 2 * category_position(c)
}

/// Byte offset of a category's 64-bit running-total field.
pub open spec fn total_offset(c: FeeCategory) -> int {
    FEE_POLICY_TOTALS_OFFSET + 8 * category_position(c)
}

/// The 16-bit little-endian value stored at `off`.
pub open spec fn le16_at(s: Seq<u8>, off: int) -> u16 {
    (s[off] as u16) | ((s[off + 1] as u16) << 8)
}

/// The 64-bit little-endian value stored at `off`.
pub open spec fn le64_at(s: Seq<u8>, off: int) -> u64 {
    (s[off] as u64) | ((s[off + 1] as u64) << 8) | ((s[off + 2] as u64) << 16) | ((s[off
        + 3] as u64) << 24) | ((s[off + 4] as u64) << 32) | ((s[off + 5] as u64) << 40) | ((s[off
        + 6] as u64) << 48) | ((s[off + 7] as u64) << 56)
}

/// The truncating basis-point fee: `gross * bps / 10_000`.
pub open spec fn spec_fee(gross: int, bps: int) -> int {
    gross * bps / 10_000
}

/// Byte `k` of the little-endian encoding of `v`.
pub open spec fn le_byte(v: u64, k: int) -> u8 {
    ((v >> ((8 * k) as u64)) & 0xff) as u8
}

/// `s` with the eight bytes at `off` replaced by the little-endian
/// encoding of `v`.
pub open spec fn with_le64(s: Seq<u8>, off: int, v: u64) -> Seq<u8> {
    Seq::new(
        s.len(),
        |i: int|
            if off <= i < off + 8 {
                le_byte(v, i - off)
            } else {
                s[i]
            },
    )
}

/// Computes the fee on `gross_amount` at `fee_bps` basis points, truncating
/// toward zero. A rate of at most 100% never yields a fee above the gross
/// amount.
pub fn compute_fee(gross_amount: u64, fee_bps: u16) -> (r: u64)
    requires
        fee_bps <= 10_000,
    ensures
        r == spec_fee(gross_amount as int, fee_bps as int),
        r <= gross_amount,
{
    proof {
        assert(gross_amount * fee_bps <= gross_amount * 10_000) by (nonlinear_arith)
            requires
                fee_bps <= 10_000,
                0 <= gross_amount,
        ;
        assert(gross_amount * fee_bps / 10_000 <= gross_amount * 10_000 / 10_000)
            by (nonlinear_arith)
            requires
                gross_amount * fee_bps <= gross_amount * 10_000,
        ;
        assert(gross_amount * 10_000 / 10_000 == gross_amount) by (nonlinear_arith);
        assert(0 <= gross_amount * fee_bps) by (nonlinear_arith)
            requires
                0 <= gross_amount,
                0 <= fee_bps,
        ;
    }
    (((gross_amount as u128) * (fee_bps as u128)) / (FEE_BPS_DENOMINATOR as u128)) as u64
}

/// Reads the 16-bit little-endian value at `off`.
fn read_u16_le(data: &[u8], off: usize) -> (r: u16)
    requires
        off + 2 <= data@.len(),
    ensures
        r == le16_at(data@, off as int),
{
    (data[off] as u16) | ((data[off + 1] as u16) << 8u16)
}

/// Reads the 64-bit little-endian value at `off`.
pub(crate) fn read_u64_le(data: &[u8], off: usize) -> (r: u64)
    requires
        off + 8 <= data@.len(),
    ensures
        r == le64_at(data@, off as int),
{
    (data[off] as u64) | ((data[off + 1] as u64) << 8u64) | ((data[off + 2] as u64) << 16u64) | ((
    data[off + 3] as u64) << 24u64) | ((data[off + 4] as u64) << 32u64) | ((data[off
        + 5] as u64) << 40u64) | ((data[off + 6] as u64) << 48u64) | ((data[off
        + 7] as u64) << 56u64)
}

/// Writes `v` at `off` as eight little-endian bytes, leaving every other
/// byte alone.
fn write_u64_le(data: &mut Vec<u8>, off: usize, v: u64)
    requires
        off + 8 <= old(data)@.len(),
    ensures
        final(data)@ =~= with_le64(old(data)@, off as int, v),
        le64_at(final(data)@, off as int) == v,
{
    proof {
        assert(v & 0xff < 256 && (v >> 8) & 0xff < 256 && (v >> 16) & 0xff < 256 && (v >> 24)
            & 0xff < 256 && (v >> 32) & 0xff < 256 && (v >> 40) & 0xff < 256 && (v >> 48) & 0xff
            < 256 && (v >> 56) & 0xff < 256) by (bit_vector);
    }
    let n = data.len();
    assert(off + 8 <= n);
    data.set(off, (v & 0xff) as u8);
    data.set(off + 1, ((v >> 8u64) & 0xff) as u8);
    data.set(off + 2, ((v >> 16u64) & 0xff) as u8);
    data.set(off + 3, ((v >> 24u64) & 0xff) as u8);
    data.set(off + 4, ((v >> 32u64) & 0xff) as u8);
    data.set(off + 5, ((v >> 40u64) & 0xff) as u8);
    data.set(off + 6, ((v >> 48u64) & 0xff) as u8);
    data.set(off + 7, ((v >> 56u64) & 0xff) as u8);
    proof {
        assert((v & 0xff) | (((v >> 8) & 0xff) << 8) | (((v >> 16) & 0xff) << 16) | (((v >> 24)
            & 0xff) << 24) | (((v >> 32) & 0xff) << 32) | (((v >> 40) & 0xff) << 40) | (((v >> 48)
            & 0xff) << 48) | (((v >> 56) & 0xff) << 56) == v) by (bit_vector);
        assert(v >> 0 == v) by (bit_vector);
        assert(data@[off as int] == le_byte(v, 0));
        assert(data@[off + 1] == le_byte(v, 1));
        assert(data@[off + 2] == le_byte(v, 2));
        assert(data@[off + 3] == le_byte(v, 3));
        assert(data@[off + 4] == le_byte(v, 4));
        assert(data@[off + 5] == le_byte(v, 5));
        assert(data@[off + 6] == le_byte(v, 6));
        assert(data@[off + 7] == le_byte(v, 7));
        assert(data@ =~= with_le64(old(data)@, off as int, v));
        assert(le64_at(data@, off as int) == v);
    }
}

/// Exec mirror of [`rate_offset`].
fn rate_offset_of(c: FeeCategory) -> (r: usize)
    ensures
        r == rate_offset(c),
{
    match c {
        FeeCategory::Minting => FEE_POLICY_RATES_OFFSET,
        FeeCategory::Redemption => FEE_POLICY_RATES_OFFSET + 2,
        FeeCategory::Taker => FEE_POLICY_RATES_OFFSET + 4,
        FeeCategory::Maker => FEE_POLICY_RATES_OFFSET + 6,
        FeeCategory::Settlement => FEE_POLICY_RATES_OFFSET + 8,
    }
}

/// Exec mirror of [`total_offset`].
fn total_offset_of(c: FeeCategory) -> (r: usize)
    ensures
        r == total_offset(c),
{
    match c {
        FeeCategory::Minting => FEE_POLICY_TOTALS_OFFSET,
        FeeCategory::Redemption => FEE_POLICY_TOTALS_OFFSET + 8,
        FeeCategory::Taker => FEE_POLICY_TOTALS_OFFSET + 16,
        FeeCategory::Maker => FEE_POLICY_TOTALS_OFFSET + 24,
        FeeCategory::Settlement => FEE_POLICY_TOTALS_OFFSET + 32,
    }
}

/// Reads the fee-destination identity from a fee-policy record, at its
/// fixed offset behind the record's 8-byte tag. The fee legs that this
/// core's callers drive are routed to exactly this identity.
pub fn read_fee_destination(data: &[u8]) -> (r: Result<Address, VaultError>)
    ensures
        data@.len() < FEE_POLICY_MIN_SIZE ==> r == Err::<Address, VaultError>(
            VaultError::InvalidAccount,
        ),
        data@.len() >= FEE_POLICY_MIN_SIZE ==> r == Ok::<Address, VaultError>(
            crate::processor::address_at(data@, FEE_POLICY_DEST_OFFSET as int),
        ),
{
    if data.len() < FEE_POLICY_MIN_SIZE {
        return Err(VaultError::InvalidAccount);
    }
    Ok(
        Address {
            w0: read_u64_le(data, FEE_POLICY_DEST_OFFSET),
            w1: read_u64_le(data, FEE_POLICY_DEST_OFFSET + 8),
            w2: read_u64_le(data, FEE_POLICY_DEST_OFFSET + 16),
            w3: read_u64_le(data, FEE_POLICY_DEST_OFFSET + 24),
        },
    )
}

/// Reads a category's basis-point rate from a fee-policy record. A record
/// shorter than the fixed layout, or a rate above 100%, is rejected.
pub fn read_fee_rate_bps(data: &[u8], category: FeeCategory) -> (r: Result<u16, VaultError>)
    ensures
        data@.len() < FEE_POLICY_MIN_SIZE ==> r == Err::<u16, VaultError>(
            VaultError::InvalidAccount,
        ),
        data@.len() >= FEE_POLICY_MIN_SIZE && le16_at(data@, rate_offset(category)) > 10_000 ==> r
            == Err::<u16, VaultError>(VaultError::InvalidAmount),
        data@.len() >= FEE_POLICY_MIN_SIZE && le16_at(data@, rate_offset(category)) <= 10_000 ==> r
            == Ok::<u16, VaultError>(le16_at(data@, rate_offset(category))),
{
    if data.len() < FEE_POLICY_MIN_SIZE {
        return Err(VaultError::InvalidAccount);
    }
    let rate = read_u16_le(data, rate_offset_of(category));
    if rate > 10_000 {
        return Err(VaultError::InvalidAmount);
    }
    Ok(rate)
}

/// Reads a category's running fee total from a fee-policy record.
pub fn read_fee_total(data: &[u8], category: FeeCategory) -> (r: Result<u64, VaultError>)
    ensures
        data@.len() < FEE_POLICY_MIN_SIZE ==> r == Err::<u64, VaultError>(
            VaultError::InvalidAccount,
        ),
        data@.len() >= FEE_POLICY_MIN_SIZE ==> r == Ok::<u64, VaultError>(
            le64_at(data@, total_offset(category)),
        ),
{
    if data.len() < FEE_POLICY_MIN_SIZE {
        return Err(VaultError::InvalidAccount);
    }
    Ok(read_u64_le(data, total_offset_of(category)))
}

/// Adds `fee` to a category's running total inside a fee-policy record,
/// overflow-checked, touching no other byte.
pub fn add_fee_total(data: &mut Vec<u8>, category: FeeCategory, fee: u64) -> (r: Result<
    (),
    VaultError,
>)
    ensures
        old(data)@.len() < FEE_POLICY_MIN_SIZE ==> r == Err::<(), VaultError>(
            VaultError::InvalidAccount,
        ),
        old(data)@.len() >= FEE_POLICY_MIN_SIZE && le64_at(old(data)@, total_offset(category))
            + fee > u64::MAX ==> r == Err::<(), VaultError>(VaultError::Overflow),
        old(data)@.len() >= FEE_POLICY_MIN_SIZE && le64_at(old(data)@, total_offset(category))
            + fee <= u64::MAX ==> r is Ok,
        r is Err ==> final(data)@ == old(data)@,
        r is Ok ==> {
            &&& old(data)@.len() >= FEE_POLICY_MIN_SIZE
            &&& final(data)@ =~= with_le64(
                old(data)@,
                total_offset(category),
                (le64_at(old(data)@, total_offset(category)) + fee) as u64,
            )
            &&& le64_at(final(data)@, total_offset(category)) == le64_at(
                old(data)@,
                total_offset(category),
            ) + fee
        },
{
    if data.len() < FEE_POLICY_MIN_SIZE {
        return Err(VaultError::InvalidAccount);
    }
    let off = total_offset_of(category);
    let current = read_u64_le(data.as_slice(), off);
    let updated = match crate::utils::checked_add_u64(current, fee) {
        Ok(v) => v,
        Err(e) => {
            return Err(e);
        },
    };
    write_u64_le(data, off, updated);
    Ok(())
}

/// The fee a fee-policy record quotes for `amount` in one category:
/// rejects a record shorter than the fixed layout and a rate above 100%.
pub open spec fn fee_quote(policy: Seq<u8>, category: FeeCategory, amount: u64) -> Result<
    u64,
    VaultError,
> {
    if policy.len() < FEE_POLICY_MIN_SIZE {
        Err(VaultError::InvalidAccount)
    } else if le16_at(policy, rate_offset(category)) > 10_000 {
        Err(VaultError::InvalidAmount)
    } else {
        Ok(spec_fee(amount as int, le16_at(policy, rate_offset(category)) as int) as u64)
    }
}

/// The fee-policy record after booking `fee` in one category's running
/// total; a zero fee books nothing.
pub open spec fn fee_apply(policy: Seq<u8>, category: FeeCategory, fee: u64) -> Result<
    Seq<u8>,
    VaultError,
> {
    if fee == 0 {
        Ok(policy)
    } else if le64_at(policy, total_offset(category)) + fee > u64::MAX {
        Err(VaultError::Overflow)
    } else {
        Ok(
            with_le64(
                policy,
                total_offset(category),
                (le64_at(policy, total_offset(category)) + fee) as u64,
            ),
        )
    }
}

/// Transition of the fee-bearing prediction-market lock (whitelisted
/// callers only): the gross amount leaves the margin account, the net
/// amount (gross minus the settlement-category fee) is committed in the
/// sub-account, and the fee is booked in the fee-policy record. Returns
/// the fee so the caller can move its asset leg.
pub open spec fn pm_lock_with_fee_spec(
    c: VaultConfig,
    u: UserAccount,
    pm: PredictionMarketUserAccount,
    policy: Seq<u8>,
    caller: Address,
    amount: u64,
    now: i64,
) -> Result<(UserAccount, PredictionMarketUserAccount, Seq<u8>, u64), VaultError> {
    if amount == 0 {
        Err(VaultError::InvalidAmount)
    } else if !c.spec_is_authorized(caller) {
        Err(VaultError::UnauthorizedCaller)
    } else {
        match fee_quote(policy, FeeCategory::Settlement, amount) {
            Err(e) => Err(e),
            Ok(fee) => {
                if amount > MAX_BALANCE_E6 {
                    Err(VaultError::Overflow)
                } else {
                    let net = amount - fee;
                    if u.available_balance_e6 < amount {
                        Err(VaultError::InsufficientBalance)
                    } else if pm.prediction_market_locked_e6 + net > i64::MAX
                        || pm.prediction_market_total_deposited_e6 + net > i64::MAX {
                        Err(VaultError::Overflow)
                    } else {
                        match fee_apply(policy, FeeCategory::Settlement, fee) {
                            Err(e) => Err(e),
                            Ok(p2) => Ok(
                                (
                                    UserAccount {
                                        available_balance_e6: (u.available_balance_e6
                                            - amount) as i64,
                                        last_update_ts: now,
                                        ..u
                                    },
                                    PredictionMarketUserAccount {
                                        prediction_market_locked_e6: (pm.prediction_market_locked_e6
                                            + net) as i64,
                                        prediction_market_total_deposited_e6: (
                                        pm.prediction_market_total_deposited_e6 + net) as i64,
                                        last_update_ts: now,
                                        ..pm
                                    },
                                    p2,
                                    fee,
                                ),
                            ),
                        }
                    }
                }
            },
        }
    }
}

/// Transition of the fee-bearing prediction-market unlock (whitelisted
/// callers only): the gross amount leaves the committed bucket, the net
/// amount returns to the margin account, and the fee is booked.
pub open spec fn pm_unlock_with_fee_spec(
    c: VaultConfig,
    u: UserAccount,
    pm: PredictionMarketUserAccount,
    policy: Seq<u8>,
    caller: Address,
    amount: u64,
    now: i64,
) -> Result<(UserAccount, PredictionMarketUserAccount, Seq<u8>, u64), VaultError> {
    if amount == 0 {
        Err(VaultError::InvalidAmount)
    } else if !c.spec_is_authorized(caller) {
        Err(VaultError::UnauthorizedCaller)
    } else {
        match fee_quote(policy, FeeCategory::Settlement, amount) {
            Err(e) => Err(e),
            Ok(fee) => {
                if amount > MAX_BALANCE_E6 {
                    Err(VaultError::Overflow)
                } else {
                    let net = amount - fee;
                    if pm.prediction_market_locked_e6 < amount {
                        Err(VaultError::InsufficientMargin)
                    } else if pm.prediction_market_total_withdrawn_e6 + amount > i64::MAX
                        || u.available_balance_e6 + net > i64::MAX {
                        Err(VaultError::Overflow)
                    } else {
                        match fee_apply(policy, FeeCategory::Settlement, fee) {
                            Err(e) => Err(e),
                            Ok(p2) => Ok(
                                (
                                    UserAccount {
                                        available_balance_e6: (u.available_balance_e6
                                            + net) as i64,
                                        last_update_ts: now,
                                        ..u
                                    },
                                    PredictionMarketUserAccount {
                                        prediction_market_locked_e6: (pm.prediction_market_locked_e6
                                            - amount) as i64,
                                        prediction_market_total_withdrawn_e6: (
                                        pm.prediction_market_total_withdrawn_e6 + amount) as i64,
                                        last_update_ts: now,
                                        ..pm
                                    },
                                    p2,
                                    fee,
                                ),
                            ),
                        }
                    }
                }
            },
        }
    }
}

/// Transition of the fee-bearing prediction-market settlement (whitelisted
/// callers only): the released funds move to the pending bucket net of the
/// settlement-category fee, realized P&L is booked on the net amount, and
/// the fee is booked in the fee-policy record.
pub open spec fn pm_settle_with_fee_spec(
    c: VaultConfig,
    pm: PredictionMarketUserAccount,
    policy: Seq<u8>,
    caller: Address,
    locked_amount: u64,
    settlement_amount: u64,
    now: i64,
) -> Result<(PredictionMarketUserAccount, Seq<u8>, u64), VaultError> {
    if !c.spec_is_authorized(caller) {
        Err(VaultError::UnauthorizedCaller)
    } else {
        match fee_quote(policy, FeeCategory::Settlement, settlement_amount) {
            Err(e) => Err(e),
            Ok(fee) => {
                if locked_amount > MAX_BALANCE_E6 || settlement_amount > MAX_BALANCE_E6 {
                    Err(VaultError::Overflow)
                } else {
                    let net = settlement_amount - fee;
                    if pm.prediction_market_locked_e6 < locked_amount {
                        Err(VaultError::InsufficientMargin)
                    } else if pm.prediction_market_pending_settlement_e6 + net > i64::MAX || !(
                    i64::MIN <= pm.prediction_market_realized_pnl_e6 + net - locked_amount
                        <= i64::MAX) {
                        Err(VaultError::Overflow)
                    } else {
                        match fee_apply(policy, FeeCategory::Settlement, fee) {
                            Err(e) => Err(e),
                            Ok(p2) => Ok(
                                (
                                    PredictionMarketUserAccount {
                                        prediction_market_locked_e6: (pm.prediction_market_locked_e6
                                            - locked_amount) as i64,
                                        prediction_market_pending_settlement_e6: (
                                        pm.prediction_market_pending_settlement_e6 + net) as i64,
                                        prediction_market_realized_pnl_e6: (
                                        pm.prediction_market_realized_pnl_e6 + net
                                            - locked_amount) as i64,
                                        last_update_ts: now,
                                        ..pm
                                    },
                                    p2,
                                    fee,
                                ),
                            ),
                        }
                    }
                }
            },
        }
    }
}

/// Transition of trade-fee collection (whitelisted callers only): books
/// the taker- or maker-category fee on the trade amount in the fee-policy
/// record. No user balance moves; balance adjustment has already been
/// performed by the caller.
pub open spec fn collect_trade_fee_spec(
    c: VaultConfig,
    policy: Seq<u8>,
    caller: Address,
    is_taker: bool,
    trade_amount: u64,
) -> Result<(Seq<u8>, u64), VaultError> {
    let category = if is_taker {
        FeeCategory::Taker
    } else {
        FeeCategory::Maker
    };
    if !c.spec_is_authorized(caller) {
        Err(VaultError::UnauthorizedCaller)
    } else {
        match fee_quote(policy, category, trade_amount) {
            Err(e) => Err(e),
            Ok(fee) => match fee_apply(policy, category, fee) {
                Err(e) => Err(e),
                Ok(p2) => Ok((p2, fee)),
            },
        }
    }
}

impl Processor {
    /// Fee-bearing prediction-market lock: debits the gross amount from
    /// the margin account, commits the net amount, and books the fee.
    /// Returns the fee so the caller can move its asset leg.
    pub fn process_prediction_market_lock_with_fee(
        config: &VaultConfig,
        user: &mut UserAccount,
        pm: &mut PredictionMarketUserAccount,
        fee_policy: &mut Vec<u8>,
        caller: Address,
        amount: u64,
        now: i64,
    ) -> (r: Result<u64, VaultError>)
        ensures
            ({
                let s = pm_lock_with_fee_spec(
                    *config,
                    *old(user),
                    *old(pm),
                    old(fee_policy)@,
                    caller,
                    amount,
                    now,
                );
                match s {
                    Ok(post) => r == Ok::<u64, VaultError>(post.3) && *final(user) == post.0
                        && *final(pm) == post.1 && final(fee_policy)@ == post.2,
                    Err(e) => r == Err::<u64, VaultError>(e) && *final(user) == *old(user)
                        && *final(pm) == *old(pm) && final(fee_policy)@ == old(fee_policy)@,
                }
            }),
            old(user).wf() && r is Ok ==> final(user).wf(),
            old(pm).wf() && r is Ok ==> final(pm).wf(),
    {
        if amount == 0 {
            return Err(VaultError::InvalidAmount);
        }
        if let Err(e) = verify_cpi_caller(config, &caller) {
            return Err(e);
        }
        let rate = match read_fee_rate_bps(fee_policy.as_slice(), FeeCategory::Settlement) {
            Ok(v) => v,
            Err(e) => {
                return Err(e);
            },
        };
        if amount > MAX_BALANCE_E6 {
            return Err(VaultError::Overflow);
        }
        let fee = compute_fee(amount, rate);
        let net = amount - fee;
        if user.available_balance_e6 < amount as i64 {
            return Err(VaultError::InsufficientBalance);
        }
        let locked = match checked_add(pm.prediction_market_locked_e6, net as i64) {
            Ok(v) => v,
            Err(e) => {
                return Err(e);
            },
        };
        let deposited = match checked_add(pm.prediction_market_total_deposited_e6, net as i64) {
            Ok(v) => v,
            Err(e) => {
                return Err(e);
            },
        };
        if fee > 0 {
            match add_fee_total(fee_policy, FeeCategory::Settlement, fee) {
                Ok(()) => {},
                Err(e) => {
                    return Err(e);
                },
            }
        }
        user.available_balance_e6 = user.available_balance_e6 - amount as i64;
        user.last_update_ts = now;
        pm.prediction_market_locked_e6 = locked;
        pm.prediction_market_total_deposited_e6 = deposited;
        pm.last_update_ts = now;
        Ok(fee)
    }

    /// Fee-bearing prediction-market unlock: releases the gross amount
    /// from the committed bucket, credits the net amount to the margin
    /// account, and books the fee. Returns the fee.
    pub fn process_prediction_market_unlock_with_fee(
        config: &VaultConfig,
        user: &mut UserAccount,
        pm: &mut PredictionMarketUserAccount,
        fee_policy: &mut Vec<u8>,
        caller: Address,
        amount: u64,
        now: i64,
    ) -> (r: Result<u64, VaultError>)
        ensures
            ({
                let s = pm_unlock_with_fee_spec(
                    *config,
                    *old(user),
                    *old(pm),
                    old(fee_policy)@,
                    caller,
                    amount,
                    now,
                );
                match s {
                    Ok(post) => r == Ok::<u64, VaultError>(post.3) && *final(user) == post.0
                        && *final(pm) == post.1 && final(fee_policy)@ == post.2,
                    Err(e) => r == Err::<u64, VaultError>(e) && *final(user) == *old(user)
                        && *final(pm) == *old(pm) && final(fee_policy)@ == old(fee_policy)@,
                }
            }),
            old(user).wf() && r is Ok ==> final(user).wf(),
            old(pm).wf() && r is Ok ==> final(pm).wf(),
    {
        if amount == 0 {
            return Err(VaultError::InvalidAmount);
        }
        if let Err(e) = verify_cpi_caller(config, &caller) {
            return Err(e);
        }
        let rate = match read_fee_rate_bps(fee_policy.as_slice(), FeeCategory::Settlement) {
            Ok(v) => v,
            Err(e) => {
                return Err(e);
            },
        };
        if amount > MAX_BALANCE_E6 {
            return Err(VaultError::Overflow);
        }
        let fee = compute_fee(amount, rate);
        let net = amount - fee;
        if pm.prediction_market_locked_e6 < amount as i64 {
            return Err(VaultError::InsufficientMargin);
        }
        let withdrawn = match checked_add(pm.prediction_market_total_withdrawn_e6, amount as i64) {
            Ok(v) => v,
            Err(e) => {
                return Err(e);
            },
        };
        let available = match checked_add(user.available_balance_e6, net as i64) {
            Ok(v) => v,
            Err(e) => {
                return Err(e);
            },
        };
        if fee > 0 {
            match add_fee_total(fee_policy, FeeCategory::Settlement, fee) {
                Ok(()) => {},
                Err(e) => {
                    return Err(e);
                },
            }
        }
        pm.prediction_market_locked_e6 = pm.prediction_market_locked_e6 - amount as i64;
        pm.prediction_market_total_withdrawn_e6 = withdrawn;
        pm.last_update_ts = now;
        user.available_balance_e6 = available;
        user.last_update_ts = now;
        Ok(fee)
    }

    /// Fee-bearing prediction-market settlement: moves the released funds
    /// into the pending bucket net of the fee, books realized P&L on the
    /// net amount, and books the fee. Returns the fee.
    pub fn process_prediction_market_settle_with_fee(
        config: &VaultConfig,
        pm: &mut PredictionMarketUserAccount,
        fee_policy: &mut Vec<u8>,
        caller: Address,
        locked_amount: u64,
        settlement_amount: u64,
        now: i64,
    ) -> (r: Result<u64, VaultError>)
        ensures
            ({
                let s = pm_settle_with_fee_spec(
                    *config,
                    *old(pm),
                    old(fee_policy)@,
                    caller,
                    locked_amount,
                    settlement_amount,
                    now,
                );
                match s {
                    Ok(post) => r == Ok::<u64, VaultError>(post.2) && *final(pm) == post.0
                        && final(fee_policy)@ == post.1,
                    Err(e) => r == Err::<u64, VaultError>(e) && *final(pm) == *old(pm) && final(fee_policy)@ == old(fee_policy)@,
                }
            }),
            old(pm).wf() && r is Ok ==> final(pm).wf(),
    {
        if let Err(e) = verify_cpi_caller(config, &caller) {
            return Err(e);
        }
        let rate = match read_fee_rate_bps(fee_policy.as_slice(), FeeCategory::Settlement) {
            Ok(v) => v,
            Err(e) => {
                return Err(e);
            },
        };
        if locked_amount > MAX_BALANCE_E6 || settlement_amount > MAX_BALANCE_E6 {
            return Err(VaultError::Overflow);
        }
        let fee = compute_fee(settlement_amount, rate);
        let net = settlement_amount - fee;
        if pm.prediction_market_locked_e6 < locked_amount as i64 {
            return Err(VaultError::InsufficientMargin);
        }
        let pending = match checked_add(pm.prediction_market_pending_settlement_e6, net as i64) {
            Ok(v) => v,
            Err(e) => {
                return Err(e);
            },
        };
        let pnl = net as i64 - locked_amount as i64;
        let realized = match checked_add(pm.prediction_market_realized_pnl_e6, pnl) {
            Ok(v) => v,
            Err(e) => {
                return Err(e);
            },
        };
        if fee > 0 {
            match add_fee_total(fee_policy, FeeCategory::Settlement, fee) {
                Ok(()) => {},
                Err(e) => {
                    return Err(e);
                },
            }
        }
        pm.prediction_market_locked_e6 = pm.prediction_market_locked_e6 - locked_amount as i64;
        pm.prediction_market_pending_settlement_e6 = pending;
        pm.prediction_market_realized_pnl_e6 = realized;
        pm.last_update_ts = now;
        Ok(fee)
    }

    /// Collects the taker- or maker-side trade fee: books it in the
    /// fee-policy record and returns it so the caller can move its asset
    /// leg. No user balance is touched.
    pub fn process_collect_trade_fee(
        config: &VaultConfig,
        fee_policy: &mut Vec<u8>,
        caller: Address,
        is_taker: bool,
        trade_amount: u64,
    ) -> (r: Result<u64, VaultError>)
        ensures
            ({
                let s = collect_trade_fee_spec(
                    *config,
                    old(fee_policy)@,
                    caller,
                    is_taker,
                    trade_amount,
                );
                match s {
                    Ok(post) => r == Ok::<u64, VaultError>(post.1) && final(fee_policy)@ == post.0,
                    Err(e) => r == Err::<u64, VaultError>(e) && final(fee_policy)@ == old(fee_policy)@,
                }
            }),
    {
        if let Err(e) = verify_cpi_caller(config, &caller) {
            return Err(e);
        }
        let category = if is_taker {
            FeeCategory::Taker
        } else {
            FeeCategory::Maker
        };
        let rate = match read_fee_rate_bps(fee_policy.as_slice(), category) {
            Ok(v) => v,
            Err(e) => {
                return Err(e);
            },
        };
        let fee = compute_fee(trade_amount, rate);
        if fee > 0 {
            match add_fee_total(fee_policy, category, fee) {
                Ok(()) => {},
                Err(e) => {
                    return Err(e);
                },
            }
        }
        Ok(fee)
    }
}

} // verus!
