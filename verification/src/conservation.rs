//! Conservation of funds across operation sequences.
//!
//! A user's wealth inside the vault is the sum of the four buckets the
//! core moves funds between: the margin account's available balance and
//! locked margin, and the prediction-market sub-account's committed and
//! pending buckets. Every user-scoped operation changes that sum by
//! exactly its external flow — deposits in, withdrawals out, realized P&L
//! in or out, fees out — and an operation that is rejected changes
//! nothing. [`lemma_wealth_conservation`] states the law for any sequence
//! of operations: the final wealth is the initial wealth plus the summed
//! flows of the operations that were applied.

use vstd::prelude::*;

use crate::addr::Address;
use crate::error::VaultError;
use crate::instruction::VaultInstruction;
use crate::processor::{
    admin_force_release_margin_spec, admin_pm_force_unlock_spec, close_position_settle_spec,
    deposit_spec, liquidate_position_spec, lock_margin_spec, pm_claim_spec, pm_lock_spec,
    pm_settle_spec, pm_unlock_spec, relayer_deposit_spec, relayer_withdraw_spec,
    release_margin_spec, withdraw_spec, Processor,
};
use crate::state::{PredictionMarketUserAccount, UserAccount, VaultConfig};

verus! {

/// A user's wealth inside the vault: available plus locked margin plus the
/// prediction-market committed and pending buckets.
pub open spec fn wealth(u: UserAccount, pm: PredictionMarketUserAccount) -> int {
    u.available_balance_e6 + u.locked_margin_e6 + pm.prediction_market_locked_e6
        + pm.prediction_market_pending_settlement_e6
}

/// The transition one user-scoped operation makes on the configuration,
/// the margin account and the prediction-market sub-account. Operations
/// that create records, or that mutate the configuration alone, are not
/// user-scoped and are not routed here.
pub open spec fn user_step(
    c: VaultConfig,
    u: UserAccount,
    pm: PredictionMarketUserAccount,
    caller: Address,
    ins: VaultInstruction,
    now: i64,
) -> Result<(VaultConfig, UserAccount, PredictionMarketUserAccount), VaultError> {
    match ins {
        VaultInstruction::Deposit { amount } => match deposit_spec(c, u, amount, now) {
            Ok(post) => Ok((post.0, post.1, pm)),
            Err(e) => Err(e),
        },
        VaultInstruction::Withdraw { amount } => match withdraw_spec(c, u, amount, now) {
            Ok(u2) => Ok((c, u2, pm)),
            Err(e) => Err(e),
        },
        VaultInstruction::LockMargin { amount } => match lock_margin_spec(
            c,
            u,
            caller,
            amount,
            now,
        ) {
            Ok(u2) => Ok((c, u2, pm)),
            Err(e) => Err(e),
        },
        VaultInstruction::ReleaseMargin { amount } => match release_margin_spec(
            c,
            u,
            caller,
            amount,
            now,
        ) {
            Ok(u2) => Ok((c, u2, pm)),
            Err(e) => Err(e),
        },
        VaultInstruction::ClosePositionSettle { margin_to_release, realized_pnl, fee } => match close_position_settle_spec(
            c,
            u,
            caller,
            margin_to_release,
            realized_pnl,
            fee,
            now,
        ) {
            Ok(u2) => Ok((c, u2, pm)),
            Err(e) => Err(e),
        },
        VaultInstruction::LiquidatePosition { margin, user_remainder, liquidation_penalty } => match liquidate_position_spec(
            c,
            u,
            caller,
            c.vault_token_account,
            user_remainder,
            liquidation_penalty,
            now,
        ) {
            Ok(u2) => Ok((c, u2, pm)),
            Err(e) => Err(e),
        },
        VaultInstruction::AdminForceReleaseMargin { amount } => match admin_force_release_margin_spec(
            c,
            u,
            caller,
            amount,
            now,
        ) {
            Ok(u2) => Ok((c, u2, pm)),
            Err(e) => Err(e),
        },
        VaultInstruction::PredictionMarketLock { amount } => match pm_lock_spec(
            c,
            u,
            pm,
            caller,
            amount,
            now,
        ) {
            Ok(post) => Ok((c, post.0, post.1)),
            Err(e) => Err(e),
        },
        VaultInstruction::PredictionMarketUnlock { amount } => match pm_unlock_spec(
            c,
            u,
            pm,
            caller,
            amount,
            now,
        ) {
            Ok(post) => Ok((c, post.0, post.1)),
            Err(e) => Err(e),
        },
        VaultInstruction::PredictionMarketSettle { locked_amount, settlement_amount } => match pm_settle_spec(
            c,
            pm,
            caller,
            locked_amount,
            settlement_amount,
            now,
        ) {
            Ok(pm2) => Ok((c, u, pm2)),
            Err(e) => Err(e),
        },
        VaultInstruction::PredictionMarketClaimSettlement => match pm_claim_spec(
            u,
            pm,
            caller,
            now,
        ) {
            Ok(post) => Ok((c, post.0, post.1)),
            Err(e) => Err(e),
        },
        VaultInstruction::AdminPredictionMarketForceUnlock { amount } => match admin_pm_force_unlock_spec(
            c,
            u,
            pm,
            caller,
            amount,
            now,
        ) {
            Ok(post) => Ok((c, post.0, post.1)),
            Err(e) => Err(e),
        },
        VaultInstruction::RelayerDeposit { user_wallet, amount } => match relayer_deposit_spec(
            u,
            c.admin,
            caller,
            user_wallet,
            amount,
            now,
        ) {
            Ok(u2) => Ok((c, u2, pm)),
            Err(e) => Err(e),
        },
        VaultInstruction::RelayerWithdraw { user_wallet, amount } => match relayer_withdraw_spec(
            u,
            c.admin,
            caller,
            user_wallet,
            amount,
            now,
        ) {
            Ok(u2) => Ok((c, u2, pm)),
            Err(e) => Err(e),
        },
        _ => Err(VaultError::InvalidInstruction),
    }
}

/// The external flow of one operation when it succeeds: deposits count in,
/// withdrawals out, realized P&L with its sign, fees out. Internal moves
/// between buckets flow nothing.
pub open spec fn step_flow(
    u: UserAccount,
    pm: PredictionMarketUserAccount,
    ins: VaultInstruction,
) -> int {
    match ins {
        VaultInstruction::Deposit { amount } => amount as int,
        VaultInstruction::Withdraw { amount } => -(amount as int),
        VaultInstruction::ClosePositionSettle { margin_to_release, realized_pnl, fee } => realized_pnl
            - fee,
        VaultInstruction::LiquidatePosition { margin, user_remainder, liquidation_penalty } => user_remainder
            - u.locked_margin_e6,
        VaultInstruction::PredictionMarketSettle { locked_amount, settlement_amount } => settlement_amount
            - locked_amount,
        VaultInstruction::RelayerDeposit { user_wallet, amount } => amount as int,
        VaultInstruction::RelayerWithdraw { user_wallet, amount } => -(amount as int),
        _ => 0,
    }
}

/// Every state a user-scoped operation can reach from a well-formed state
/// is well-formed: balances and cumulative totals stay non-negative.
pub proof fn lemma_step_wf(
    c: VaultConfig,
    u: UserAccount,
    pm: PredictionMarketUserAccount,
    caller: Address,
    ins: VaultInstruction,
    now: i64,
)
    requires
        u.wf(),
        pm.wf(),
        user_step(c, u, pm, caller, ins, now) is Ok,
    ensures
        ({
            let post = user_step(c, u, pm, caller, ins, now)->Ok_0;
            post.1.wf() && post.2.wf()
        }),
{
}

/// One applied operation changes wealth by exactly its flow.
pub proof fn lemma_step_conservation(
    c: VaultConfig,
    u: UserAccount,
    pm: PredictionMarketUserAccount,
    caller: Address,
    ins: VaultInstruction,
    now: i64,
)
    requires
        u.wf(),
        pm.wf(),
        user_step(c, u, pm, caller, ins, now) is Ok,
    ensures
        ({
            let post = user_step(c, u, pm, caller, ins, now)->Ok_0;
            wealth(post.1, post.2) == wealth(u, pm) + step_flow(u, pm, ins)
        }),
{
    let post = user_step(c, u, pm, caller, ins, now)->Ok_0;
    match ins {
        VaultInstruction::ClosePositionSettle { margin_to_release, realized_pnl, fee } => {
            let swept = crate::processor::sweep_dust(
                u.available_balance_e6 + margin_to_release,
                u.locked_margin_e6 - margin_to_release,
            );
            assert(swept.0 + swept.1 == u.available_balance_e6 + u.locked_margin_e6);
            assert(wealth(post.1, post.2) == wealth(u, pm) + realized_pnl - fee);
        },
        VaultInstruction::Deposit { .. } => {
            assert(wealth(post.1, post.2) == wealth(u, pm) + step_flow(u, pm, ins));
        },
        VaultInstruction::Withdraw { .. } => {
            assert(wealth(post.1, post.2) == wealth(u, pm) + step_flow(u, pm, ins));
        },
        VaultInstruction::LockMargin { .. } => {
            assert(wealth(post.1, post.2) == wealth(u, pm) + step_flow(u, pm, ins));
        },
        VaultInstruction::ReleaseMargin { .. } => {
            assert(wealth(post.1, post.2) == wealth(u, pm) + step_flow(u, pm, ins));
        },
        VaultInstruction::LiquidatePosition { .. } => {
            assert(wealth(post.1, post.2) == wealth(u, pm) + step_flow(u, pm, ins));
        },
        VaultInstruction::AdminForceReleaseMargin { .. } => {
            assert(wealth(post.1, post.2) == wealth(u, pm) + step_flow(u, pm, ins));
        },
        VaultInstruction::PredictionMarketLock { .. } => {
            assert(wealth(post.1, post.2) == wealth(u, pm) + step_flow(u, pm, ins));
        },
        VaultInstruction::PredictionMarketUnlock { .. } => {
            assert(wealth(post.1, post.2) == wealth(u, pm) + step_flow(u, pm, ins));
        },
        VaultInstruction::PredictionMarketSettle { .. } => {
            assert(wealth(post.1, post.2) == wealth(u, pm) + step_flow(u, pm, ins));
        },
        VaultInstruction::PredictionMarketClaimSettlement => {
            let s = pm_claim_spec(u, pm, caller, now);
            assert(s is Ok);
            let p = s->Ok_0;
            assert(post.1 == p.0 && post.2 == p.1);
            if pm.prediction_market_pending_settlement_e6 == 0 {
                assert(wealth(p.0, p.1) == wealth(u, pm));
            } else {
                assert(p.0.available_balance_e6 == u.available_balance_e6
                    + pm.prediction_market_pending_settlement_e6);
                assert(p.1.prediction_market_pending_settlement_e6 == 0);
                assert(wealth(p.0, p.1) == wealth(u, pm));
            }
        },
        VaultInstruction::AdminPredictionMarketForceUnlock { .. } => {
            assert(wealth(post.1, post.2) == wealth(u, pm) + step_flow(u, pm, ins));
        },
        VaultInstruction::RelayerDeposit { .. } => {
            assert(wealth(post.1, post.2) == wealth(u, pm) + step_flow(u, pm, ins));
        },
        VaultInstruction::RelayerWithdraw { .. } => {
            assert(wealth(post.1, post.2) == wealth(u, pm) + step_flow(u, pm, ins));
        },
        _ => {
            assert(wealth(post.1, post.2) == wealth(u, pm) + step_flow(u, pm, ins));
        },
    }
}

/// The state after running a sequence of operations, skipping the ones
/// that are rejected: each operation is atomic, so a rejected one leaves
/// the records exactly as they were.
pub open spec fn run_steps(
    c: VaultConfig,
    u: UserAccount,
    pm: PredictionMarketUserAccount,
    caller: Address,
    ops: Seq<VaultInstruction>,
    now: i64,
) -> (VaultConfig, UserAccount, PredictionMarketUserAccount)
    decreases ops.len(),
{
    if ops.len() == 0 {
        (c, u, pm)
    } else {
        let next = match user_step(c, u, pm, caller, ops[0], now) {
            Ok(t) => t,
            Err(_) => (c, u, pm),
        };
        run_steps(next.0, next.1, next.2, caller, ops.skip(1), now)
    }
}

/// The summed flows of the operations in a sequence that are applied;
/// rejected operations flow nothing.
pub open spec fn flow_sum(
    c: VaultConfig,
    u: UserAccount,
    pm: PredictionMarketUserAccount,
    caller: Address,
    ops: Seq<VaultInstruction>,
    now: i64,
) -> int
    decreases ops.len(),
{
    if ops.len() == 0 {
        0
    } else {
        match user_step(c, u, pm, caller, ops[0], now) {
            Ok(t) => step_flow(u, pm, ops[0]) + flow_sum(t.0, t.1, t.2, caller, ops.skip(1), now),
            Err(_) => flow_sum(c, u, pm, caller, ops.skip(1), now),
        }
    }
}

/// Conservation: for any sequence of user-scoped operations, the final
/// wealth equals the initial wealth plus the deposits, minus the
/// withdrawals, plus the realized P&L, minus the fees of the operations
/// that were applied.
pub proof fn lemma_wealth_conservation(
    c: VaultConfig,
    u: UserAccount,
    pm: PredictionMarketUserAccount,
    caller: Address,
    ops: Seq<VaultInstruction>,
    now: i64,
)
    requires
        u.wf(),
        pm.wf(),
    ensures
        ({
            let end = run_steps(c, u, pm, caller, ops, now);
            wealth(end.1, end.2) == wealth(u, pm) + flow_sum(c, u, pm, caller, ops, now)
        }),
    decreases ops.len(),
{
    if ops.len() == 0 {
    } else {
        match user_step(c, u, pm, caller, ops[0], now) {
            Ok(t) => {
                lemma_step_conservation(c, u, pm, caller, ops[0], now);
                lemma_step_wf(c, u, pm, caller, ops[0], now);
                lemma_wealth_conservation(t.0, t.1, t.2, caller, ops.skip(1), now);
            },
            Err(_) => {
                lemma_wealth_conservation(c, u, pm, caller, ops.skip(1), now);
            },
        }
    }
}

impl Processor {
    /// Routes one user-scoped operation to its handler. The three
    /// record-creating operations are provisioned at the storage boundary
    /// and are not routed here; configuration-only operations have their
    /// own handlers.
    pub fn apply_user_instruction(
        config: &mut VaultConfig,
        user: &mut UserAccount,
        pm: &mut PredictionMarketUserAccount,
        caller: Address,
        ins: &VaultInstruction,
        now: i64,
    ) -> (r: Result<(), VaultError>)
        requires
            old(pm).wf(),
        ensures
            ({
                let s = user_step(*old(config), *old(user), *old(pm), caller, *ins, now);
                match s {
                    Ok(post) => r == Ok::<(), VaultError>(()) && *final(config) == post.0
                        && *final(user) == post.1 && *final(pm) == post.2,
                    Err(e) => r == Err::<(), VaultError>(e) && *final(config) == *old(config)
                        && *final(user) == *old(user) && *final(pm) == *old(pm),
                }
            }),
            old(user).wf() && r is Ok ==> final(user).wf(),
            r is Ok ==> final(pm).wf(),
    {
        match ins {
            VaultInstruction::Deposit { amount } => Processor::process_deposit(
                config,
                user,
                *amount,
                now,
            ),
            VaultInstruction::Withdraw { amount } => Processor::process_withdraw(
                config,
                user,
                *amount,
                now,
            ),
            VaultInstruction::LockMargin { amount } => Processor::process_lock_margin(
                config,
                user,
                caller,
                *amount,
                now,
            ),
            VaultInstruction::ReleaseMargin { amount } => Processor::process_release_margin(
                config,
                user,
                caller,
                *amount,
                now,
            ),
            VaultInstruction::ClosePositionSettle {
                margin_to_release,
                realized_pnl,
                fee,
            } => Processor::process_close_position_settle(
                config,
                user,
                caller,
                *margin_to_release,
                *realized_pnl,
                *fee,
                now,
            ),
            VaultInstruction::LiquidatePosition {
                margin,
                user_remainder,
                liquidation_penalty,
            } => {
                let vault_token_account = config.vault_token_account;
                Processor::process_liquidate_position(
                    config,
                    user,
                    caller,
                    vault_token_account,
                    *margin,
                    *user_remainder,
                    *liquidation_penalty,
                    now,
                )
            },
            VaultInstruction::AdminForceReleaseMargin {
                amount,
            } => Processor::process_admin_force_release_margin(config, user, caller, *amount, now),
            VaultInstruction::PredictionMarketLock {
                amount,
            } => Processor::process_prediction_market_lock(config, user, pm, caller, *amount, now),
            VaultInstruction::PredictionMarketUnlock {
                amount,
            } => Processor::process_prediction_market_unlock(
                config,
                user,
                pm,
                caller,
                *amount,
                now,
            ),
            VaultInstruction::PredictionMarketSettle {
                locked_amount,
                settlement_amount,
            } => Processor::process_prediction_market_settle(
                config,
                pm,
                caller,
                *locked_amount,
                *settlement_amount,
                now,
            ),
            VaultInstruction::PredictionMarketClaimSettlement => {
                Processor::process_prediction_market_claim_settlement(user, pm, caller, now)
            },
            VaultInstruction::AdminPredictionMarketForceUnlock {
                amount,
            } => Processor::process_admin_prediction_market_force_unlock(
                config,
                user,
                pm,
                caller,
                *amount,
                now,
            ),
            VaultInstruction::RelayerDeposit { user_wallet, amount } => {
                let stored_admin = config.admin;
                Processor::process_relayer_deposit(
                    user,
                    stored_admin,
                    caller,
                    *user_wallet,
                    *amount,
                    now,
                )
            },
            VaultInstruction::RelayerWithdraw { user_wallet, amount } => {
                let stored_admin = config.admin;
                Processor::process_relayer_withdraw(
                    user,
                    stored_admin,
                    caller,
                    *user_wallet,
                    *amount,
                    now,
                )
            },
            _ => Err(VaultError::InvalidInstruction),
        }
    }
}

} // verus!
