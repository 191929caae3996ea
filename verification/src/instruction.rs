//! The typed operations of the ledger core.
//!
//! The dispatch layer decodes an opaque operation code and payload arriving
//! from the host environment into one of these variants and routes it to
//! the transition processor, together with the records the operation
//! declares. Identities travel as [`Address`] values; the unset fee-pool
//! owner is `None`.

use vstd::prelude::*;

use crate::addr::Address;

verus! {

/// One operation on the ledger, as decoded from an incoming payload.
#[derive(Clone, Copy, Debug, PartialEq, Eq)]
pub enum VaultInstruction {
    /// Create the deployment-wide configuration (bootstrap, administrator
    /// signed).
    Initialize {
        /// The settlement-caller component.
        ledger_program: Address,
        /// The delegation component.
        delegation_program: Address,
        /// The fee-pool owner component, if already known.
        fund_program: Option<Address>,
    },
    /// Create the invoking user's margin account.
    InitializeUser,
    /// Credit a user deposit (user signed).
    Deposit {
        /// Amount in e6 units.
        amount: u64,
    },
    /// Debit a user withdrawal (user signed).
    Withdraw {
        /// Amount in e6 units.
        amount: u64,
    },
    /// Move available funds into locked margin (whitelisted callers only).
    LockMargin {
        /// Amount in e6 units.
        amount: u64,
    },
    /// Move locked margin back to available funds (whitelisted callers
    /// only).
    ReleaseMargin {
        /// Amount in e6 units.
        amount: u64,
    },
    /// Settle a closed position (whitelisted callers only).
    ClosePositionSettle {
        /// Margin to release, in e6 units.
        margin_to_release: u64,
        /// Signed realized P&L, in e6 units.
        realized_pnl: i64,
        /// Fee debited from the available balance, in e6 units.
        fee: u64,
    },
    /// Liquidate a position (whitelisted callers only).
    LiquidatePosition {
        /// The margin reported by the caller; informational only — the
        /// locked margin is zeroed unconditionally.
        margin: u64,
        /// Remainder returned to the user, in e6 units.
        user_remainder: u64,
        /// Penalty moved to the insurance destination, in e6 units.
        liquidation_penalty: u64,
    },
    /// Add a caller to the whitelist (administrator only).
    AddAuthorizedCaller {
        /// The caller to add.
        caller: Address,
    },
    /// Remove a caller from the whitelist (administrator only).
    RemoveAuthorizedCaller {
        /// The caller to remove.
        caller: Address,
    },
    /// Pause or resume user-facing balance movement (administrator only).
    SetPaused {
        /// The new pause flag.
        paused: bool,
    },
    /// Rotate the administrator identity (administrator only).
    UpdateAdmin {
        /// The new administrator.
        new_admin: Address,
    },
    /// Rotate the fee-pool owner reference (administrator only).
    SetFundProgram {
        /// The new fee-pool owner; `None` marks it unset.
        fund_program: Option<Address>,
    },
    /// Rotate the settlement-caller reference (administrator only).
    SetLedgerProgram {
        /// The new settlement-caller component.
        ledger_program: Address,
    },
    /// Release stuck locked margin (administrator only).
    AdminForceReleaseMargin {
        /// Amount in e6 units; zero releases all locked margin.
        amount: u64,
    },
    /// Create the invoking user's prediction-market sub-account.
    InitializePredictionMarketUser,
    /// Commit available funds to the prediction market (whitelisted
    /// callers only).
    PredictionMarketLock {
        /// Amount in e6 units.
        amount: u64,
    },
    /// Release prediction-market funds (whitelisted callers only).
    PredictionMarketUnlock {
        /// Amount in e6 units.
        amount: u64,
    },
    /// Settle prediction-market positions (whitelisted callers only).
    PredictionMarketSettle {
        /// Committed amount to release, in e6 units.
        locked_amount: u64,
        /// Settlement proceeds, in e6 units.
        settlement_amount: u64,
    },
    /// Claim pending settlement proceeds (user signed).
    PredictionMarketClaimSettlement,
    /// Release stuck prediction-market funds (administrator only).
    AdminPredictionMarketForceUnlock {
        /// Amount in e6 units; zero releases all committed funds.
        amount: u64,
    },
    /// Credit a deposit on a user's behalf (administrator only).
    RelayerDeposit {
        /// The user credited.
        user_wallet: Address,
        /// Amount in e6 units.
        amount: u64,
    },
    /// Debit a withdrawal on a user's behalf (administrator only).
    RelayerWithdraw {
        /// The user debited.
        user_wallet: Address,
        /// Amount in e6 units.
        amount: u64,
    },
}

} // verus!
