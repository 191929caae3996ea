//! Persisted record types of the ledger core.
//!
//! Three records live here: the deployment-wide configuration, the per-user
//! margin account, and the per-user prediction-market sub-account. Each
//! record carries a well-formedness invariant that constructors establish
//! and every mutation preserves. The multi-instrument spot record and the
//! recurring-payment record live in their own modules.
//!
//! Records are persisted by the host store under a fixed byte layout; the
//! `*_SIZE` constants give those layouts' sizes. Encoding and decoding
//! happen at the storage boundary, outside this core.

use vstd::prelude::*;

use crate::addr::Address;
use crate::error::VaultError;

verus! {

/// Number of fixed whitelist slots in the configuration record.
pub const MAX_AUTHORIZED_CALLERS: usize = 10;

/// Size in bytes of the persisted configuration record.
pub const VAULT_CONFIG_SIZE: usize = 8 + 32 + 32 + 32 + 32 * 10 + 32 + 32 + 32 + 8 + 8 + 1 + 32;

/// Size in bytes of the persisted per-user margin record.
pub const USER_ACCOUNT_SIZE: usize = 8 + 32 + 1 + 8 + 8 + 8 + 8 + 8 + 8 + 64;

/// Size in bytes of the persisted prediction-market sub-account record.
pub const PREDICTION_MARKET_USER_ACCOUNT_SIZE: usize = 8 + 32 + 1 + 8 + 8 + 8 + 8 + 8 + 8 + 64;

/// Record-type tag of the configuration record.
pub const VAULT_CONFIG_DISCRIMINATOR: u64 = 0x5641554C545F434F;

/// Record-type tag of the per-user margin record.
pub const USER_ACCOUNT_DISCRIMINATOR: u64 = 0x555345525F414343;

/// Record-type tag of the prediction-market sub-account record.
pub const PREDICTION_MARKET_USER_ACCOUNT_DISCRIMINATOR: u64 = 0x504D5F55534552;

/// Deployment-wide configuration: administrator, asset references, the
/// bounded caller whitelist, the two external program references, running
/// totals, and the pause flag.
///
/// Absence is a first-class state here: an empty whitelist slot is `None`
/// and an unset fee-pool owner is `None`; the storage boundary maps both to
/// the all-zero sentinel identity.
#[derive(Clone, Debug)]
pub struct VaultConfig {
    /// Record-type tag.
    pub discriminator: u64,
    /// The administrator identity; every administrative mutation must be
    /// invoked by exactly this identity.
    pub admin: Address,
    /// The asset mint this vault custodies.
    pub usdc_mint: Address,
    /// The pooled asset account holding every user's funds.
    pub vault_token_account: Address,
    /// Bounded whitelist of caller identities permitted to invoke
    /// internal-only balance mutations; `None` is an empty slot.
    pub authorized_callers: Vec<Option<Address>>,
    /// The primary settlement-caller component.
    pub ledger_program: Address,
    /// The fee-pool owner component, if configured.
    pub fund_program: Option<Address>,
    /// The delegation component reference.
    pub delegation_program: Address,
    /// Running total of deposits, in e6 units.
    pub total_deposits: u64,
    /// Running total of locked margin, in e6 units.
    pub total_locked: u64,
    /// When set, user-facing balance movement is rejected.
    pub is_paused: bool,
}

impl VaultConfig {
    /// Well-formedness: the whitelist has exactly its fixed slot count and
    /// occupied slots hold pairwise distinct identities.
    pub open spec fn wf(self) -> bool {
        &&& self.authorized_callers.len() == MAX_AUTHORIZED_CALLERS
        &&& forall|i: int, j: int|
                #![trigger self.authorized_callers[i], self.authorized_callers[j]]
                0 <= i < self.authorized_callers.len() && 0 <= j < self.authorized_callers.len()
                    && i != j && self.authorized_callers[i] is Some
                ==> self.authorized_callers[i] != self.authorized_callers[j]
    }

    /// A caller is authorized when it is the settlement-caller component,
    /// the configured fee-pool owner, or an occupied whitelist slot.
    pub open spec fn spec_is_authorized(self, caller: Address) -> bool {
        ||| caller == self.ledger_program
        ||| self.fund_program == Some(caller)
        ||| exists|i: int|
                0 <= i < self.authorized_callers.len()
                    && #[trigger] self.authorized_callers[i] == Some(caller)
    }

    /// Builds the configuration created once at bootstrap: empty whitelist,
    /// zero totals, not paused.
    pub fn new(
        admin: Address,
        usdc_mint: Address,
        vault_token_account: Address,
        ledger_program: Address,
        fund_program: Option<Address>,
        delegation_program: Address,
    ) -> (r: VaultConfig)
        ensures
            r.wf(),
            r.discriminator == VAULT_CONFIG_DISCRIMINATOR,
            r.admin == admin,
            r.usdc_mint == usdc_mint,
            r.vault_token_account == vault_token_account,
            r.ledger_program == ledger_program,
            r.fund_program == fund_program,
            r.delegation_program == delegation_program,
            r.total_deposits == 0,
            r.total_locked == 0,
            !r.is_paused,
            forall|i: int| 0 <= i < r.authorized_callers.len()
                ==> #[trigger] r.authorized_callers[i] is None,
    {
        let mut slots: Vec<Option<Address>> = Vec::new();
        let mut i: usize = 0;
        while i < MAX_AUTHORIZED_CALLERS
            invariant
                i <= MAX_AUTHORIZED_CALLERS,
                slots.len() == i,
                forall|k: int| 0 <= k < i ==> #[trigger] slots[k] is None,
            decreases MAX_AUTHORIZED_CALLERS - i,
        {
            slots.push(None);
            i += 1;
        }
        VaultConfig {
            discriminator: VAULT_CONFIG_DISCRIMINATOR,
            admin,
            usdc_mint,
            vault_token_account,
            authorized_callers: slots,
            ledger_program,
            fund_program,
            delegation_program,
            total_deposits: 0,
            total_locked: 0,
            is_paused: false,
        }
    }

    /// Decides whether `caller` may invoke internal-only balance mutations.
    pub fn is_authorized_caller(&self, caller: &Address) -> (r: bool)
        ensures
            r == self.spec_is_authorized(*caller),
    {
        if *caller == self.ledger_program {
            return true;
        }
        if let Some(fund) = self.fund_program {
            if fund == *caller {
                return true;
            }
        }
        let mut i: usize = 0;
        while i < self.authorized_callers.len()
            invariant
                i <= self.authorized_callers.len(),
                forall|k: int| 0 <= k < i
                    ==> #[trigger] self.authorized_callers[k] != Some(*caller),
            decreases self.authorized_callers.len() - i,
        {
            if let Some(entry) = self.authorized_callers[i] {
                if entry == *caller {
                    return true;
                }
            }
            i += 1;
        }
        false
    }
}

/// Per-user margin account: freely spendable balance, committed margin,
/// externally-written unrealized P&L, and cumulative movement totals.
#[derive(Clone, Copy, Debug, PartialEq, Eq, Structural)]
pub struct UserAccount {
    /// Record-type tag.
    pub discriminator: u64,
    /// The owning user identity.
    pub wallet: Address,
    /// Derivation bump of the record's host address.
    pub bump: u8,
    /// Freely withdrawable balance, in e6 units.
    pub available_balance_e6: i64,
    /// Margin committed to open positions, in e6 units.
    pub locked_margin_e6: i64,
    /// Unrealized P&L, written by the external position tracker and only
    /// read here.
    pub unrealized_pnl_e6: i64,
    /// Cumulative deposits, in e6 units.
    pub total_deposited_e6: i64,
    /// Cumulative withdrawals, in e6 units.
    pub total_withdrawn_e6: i64,
    /// Timestamp of the last mutation.
    pub last_update_ts: i64,
}

impl UserAccount {
    /// Well-formedness: balances and cumulative totals never go negative.
    pub open spec fn wf(self) -> bool {
        &&& self.available_balance_e6 >= 0
        &&& self.locked_margin_e6 >= 0
        &&& self.total_deposited_e6 >= 0
        &&& self.total_withdrawn_e6 >= 0
    }

    /// Builds the record created on a user's first interaction: all
    /// balances zero.
    pub fn new(wallet: Address, bump: u8) -> (r: UserAccount)
        ensures
            r == (UserAccount {
                discriminator: USER_ACCOUNT_DISCRIMINATOR,
                wallet,
                bump,
                available_balance_e6: 0,
                locked_margin_e6: 0,
                unrealized_pnl_e6: 0,
                total_deposited_e6: 0,
                total_withdrawn_e6: 0,
                last_update_ts: 0,
            }),
    {
        UserAccount {
            discriminator: USER_ACCOUNT_DISCRIMINATOR,
            wallet,
            bump,
            available_balance_e6: 0,
            locked_margin_e6: 0,
            unrealized_pnl_e6: 0,
            total_deposited_e6: 0,
            total_withdrawn_e6: 0,
            last_update_ts: 0,
        }
    }

    /// Derived equity: available plus locked plus unrealized P&L. Not
    /// persisted.
    pub fn equity(&self) -> (r: i64)
        requires
            i64::MIN <= self.available_balance_e6 + self.locked_margin_e6 <= i64::MAX,
            i64::MIN
                <= self.available_balance_e6 + self.locked_margin_e6 + self.unrealized_pnl_e6
                <= i64::MAX,
        ensures
            r == self.available_balance_e6 + self.locked_margin_e6 + self.unrealized_pnl_e6,
    {
        self.available_balance_e6 + self.locked_margin_e6 + self.unrealized_pnl_e6
    }
}

/// Per-user prediction-market sub-account, independent of the margin
/// account: funds committed to open positions and settlement proceeds
/// awaiting claim.
#[derive(Clone, Copy, Debug, PartialEq, Eq, Structural)]
pub struct PredictionMarketUserAccount {
    /// Record-type tag.
    pub discriminator: u64,
    /// The owning user identity.
    pub wallet: Address,
    /// Derivation bump of the record's host address.
    pub bump: u8,
    /// Funds committed to open prediction-market positions, in e6 units.
    pub prediction_market_locked_e6: i64,
    /// Settlement proceeds awaiting the user's claim, in e6 units.
    pub prediction_market_pending_settlement_e6: i64,
    /// Cumulative transfers in from the margin account, in e6 units.
    pub prediction_market_total_deposited_e6: i64,
    /// Cumulative transfers back to the margin account, in e6 units.
    pub prediction_market_total_withdrawn_e6: i64,
    /// Realized P&L across settlements, in e6 units.
    pub prediction_market_realized_pnl_e6: i64,
    /// Timestamp of the last mutation.
    pub last_update_ts: i64,
}

impl PredictionMarketUserAccount {
    /// Well-formedness: the locked and pending buckets and the cumulative
    /// totals never go negative.
    pub open spec fn wf(self) -> bool {
        &&& self.prediction_market_locked_e6 >= 0
        &&& self.prediction_market_pending_settlement_e6 >= 0
        &&& self.prediction_market_total_deposited_e6 >= 0
        &&& self.prediction_market_total_withdrawn_e6 >= 0
    }

    /// Builds a fresh sub-account with every bucket zero.
    pub fn new(wallet: Address, bump: u8, created_at: i64) -> (r: PredictionMarketUserAccount)
        ensures
            r == (PredictionMarketUserAccount {
                discriminator: PREDICTION_MARKET_USER_ACCOUNT_DISCRIMINATOR,
                wallet,
                bump,
                prediction_market_locked_e6: 0,
                prediction_market_pending_settlement_e6: 0,
                prediction_market_total_deposited_e6: 0,
                prediction_market_total_withdrawn_e6: 0,
                prediction_market_realized_pnl_e6: 0,
                last_update_ts: created_at,
            }),
            r.wf(),
    {
        PredictionMarketUserAccount {
            discriminator: PREDICTION_MARKET_USER_ACCOUNT_DISCRIMINATOR,
            wallet,
            bump,
            prediction_market_locked_e6: 0,
            prediction_market_pending_settlement_e6: 0,
            prediction_market_total_deposited_e6: 0,
            prediction_market_total_withdrawn_e6: 0,
            prediction_market_realized_pnl_e6: 0,
            last_update_ts: created_at,
        }
    }

    /// Derived sub-ledger equity: locked plus pending settlement.
    pub fn prediction_market_equity(&self) -> (r: i64)
        requires
            self.prediction_market_locked_e6 + self.prediction_market_pending_settlement_e6
                <= i64::MAX,
            self.prediction_market_locked_e6 + self.prediction_market_pending_settlement_e6
                >= i64::MIN,
        ensures
            r == self.prediction_market_locked_e6
                + self.prediction_market_pending_settlement_e6,
    {
        self.prediction_market_locked_e6 + self.prediction_market_pending_settlement_e6
    }

    /// Commits `amount` to open positions and counts it as transferred in.
    /// The caller has already debited the margin account by the same amount.
    pub fn prediction_market_lock(&mut self, amount: i64, current_ts: i64)
        requires
            amount >= 0,
            old(self).prediction_market_locked_e6 + amount <= i64::MAX,
            old(self).prediction_market_total_deposited_e6 + amount <= i64::MAX,
        ensures
            *final(self) == (PredictionMarketUserAccount {
                prediction_market_locked_e6:
                    (old(self).prediction_market_locked_e6 + amount) as i64,
                prediction_market_total_deposited_e6:
                    (old(self).prediction_market_total_deposited_e6 + amount) as i64,
                last_update_ts: current_ts,
                ..*old(self)
            }),
    {
        self.prediction_market_locked_e6 = self.prediction_market_locked_e6 + amount;
        self.prediction_market_total_deposited_e6 =
            self.prediction_market_total_deposited_e6 + amount;
        self.last_update_ts = current_ts;
    }

    /// Releases `amount` of committed funds and counts it as transferred
    /// out. Fails if the committed bucket does not cover the release, or if
    /// the cumulative total would overflow; failure leaves the record
    /// unchanged.
    pub fn prediction_market_unlock(&mut self, amount: i64, current_ts: i64) -> (r: Result<
        (),
        VaultError,
    >)
        requires
            amount >= 0,
        ensures
            old(self).prediction_market_locked_e6 < amount
                ==> r == Err::<(), VaultError>(VaultError::InsufficientMargin),
            old(self).prediction_market_locked_e6 >= amount
                && old(self).prediction_market_total_withdrawn_e6 + amount > i64::MAX
                ==> r == Err::<(), VaultError>(VaultError::Overflow),
            old(self).prediction_market_locked_e6 >= amount
                && old(self).prediction_market_total_withdrawn_e6 + amount <= i64::MAX
                ==> r is Ok,
            r is Err ==> *final(self) == *old(self),
            r is Ok ==> old(self).prediction_market_locked_e6 >= amount
                && *final(self) == (PredictionMarketUserAccount {
                    prediction_market_locked_e6:
                        (old(self).prediction_market_locked_e6 - amount) as i64,
                    prediction_market_total_withdrawn_e6:
                        (old(self).prediction_market_total_withdrawn_e6 + amount) as i64,
                    last_update_ts: current_ts,
                    ..*old(self)
                }),
    {
        if self.prediction_market_locked_e6 < amount {
            return Err(VaultError::InsufficientMargin);
        }
        let withdrawn = match crate::utils::checked_add(
            self.prediction_market_total_withdrawn_e6,
            amount,
        ) {
            Ok(v) => v,
            Err(e) => {
                return Err(e);
            },
        };
        self.prediction_market_locked_e6 = self.prediction_market_locked_e6 - amount;
        self.prediction_market_total_withdrawn_e6 = withdrawn;
        self.last_update_ts = current_ts;
        Ok(())
    }

    /// Settles open positions: releases `locked_to_release` from the
    /// committed bucket, records `settlement_amount` as pending proceeds,
    /// and books the difference as realized P&L. Failure leaves the record
    /// unchanged.
    pub fn prediction_market_settle(
        &mut self,
        locked_to_release: i64,
        settlement_amount: i64,
        current_ts: i64,
    ) -> (r: Result<(), VaultError>)
        requires
            locked_to_release >= 0,
            settlement_amount >= 0,
        ensures
            old(self).prediction_market_locked_e6 < locked_to_release
                ==> r == Err::<(), VaultError>(VaultError::InsufficientMargin),
            r is Err ==> *final(self) == *old(self),
            r is Ok ==> old(self).prediction_market_locked_e6 >= locked_to_release
                && *final(self) == (PredictionMarketUserAccount {
                    prediction_market_locked_e6:
                        (old(self).prediction_market_locked_e6 - locked_to_release) as i64,
                    prediction_market_pending_settlement_e6:
                        (old(self).prediction_market_pending_settlement_e6
                            + settlement_amount) as i64,
                    prediction_market_realized_pnl_e6:
                        (old(self).prediction_market_realized_pnl_e6 + settlement_amount
                            - locked_to_release) as i64,
                    last_update_ts: current_ts,
                    ..*old(self)
                }),
            old(self).prediction_market_locked_e6 >= locked_to_release
                && old(self).prediction_market_pending_settlement_e6 + settlement_amount
                    <= i64::MAX
                && i64::MIN
                    <= old(self).prediction_market_realized_pnl_e6 + settlement_amount
                        - locked_to_release
                    <= i64::MAX
                ==> r is Ok,
    {
        if self.prediction_market_locked_e6 < locked_to_release {
            return Err(VaultError::InsufficientMargin);
        }
        let pending = match crate::utils::checked_add(
            self.prediction_market_pending_settlement_e6,
            settlement_amount,
        ) {
            Ok(v) => v,
            Err(e) => {
                return Err(e);
            },
        };
        let pnl = settlement_amount - locked_to_release;
        let realized = match crate::utils::checked_add(
            self.prediction_market_realized_pnl_e6,
            pnl,
        ) {
            Ok(v) => v,
            Err(e) => {
                return Err(e);
            },
        };
        self.prediction_market_locked_e6 = self.prediction_market_locked_e6 - locked_to_release;
        self.prediction_market_pending_settlement_e6 = pending;
        self.prediction_market_realized_pnl_e6 = realized;
        self.last_update_ts = current_ts;
        Ok(())
    }

    /// Claims the pending settlement proceeds in one step: zeroes the
    /// pending bucket, counts the amount as transferred out, and returns it
    /// so the caller can credit the margin account.
    pub fn prediction_market_claim_settlement(&mut self, current_ts: i64) -> (r: i64)
        requires
            old(self).wf(),
            old(self).prediction_market_total_withdrawn_e6
                + old(self).prediction_market_pending_settlement_e6 <= i64::MAX,
        ensures
            r == old(self).prediction_market_pending_settlement_e6,
            *final(self) == (PredictionMarketUserAccount {
                prediction_market_pending_settlement_e6: 0,
                prediction_market_total_withdrawn_e6:
                    (old(self).prediction_market_total_withdrawn_e6
                        + old(self).prediction_market_pending_settlement_e6) as i64,
                last_update_ts: current_ts,
                ..*old(self)
            }),
    {
        let amount = self.prediction_market_pending_settlement_e6;
        self.prediction_market_pending_settlement_e6 = 0;
        self.prediction_market_total_withdrawn_e6 =
            self.prediction_market_total_withdrawn_e6 + amount;
        self.last_update_ts = current_ts;
        amount
    }
}

} // verus!
