//! The transition processor: one handler per operation.
//!
//! Each handler validates every precondition of its operation across all
//! touched records before mutating any of them, so a rejected operation
//! returns its error with no record changed. Each handler's behaviour is
//! pinned by a spec-level transition function: the handler returns `Ok`
//! exactly when the transition does, produces exactly the transition's
//! post-state, and reports exactly the transition's error otherwise.
//!
//! External asset movement (the token legs of deposits, withdrawals,
//! penalties and fees) is driven by the storage boundary around this core;
//! handlers here mutate the records only.

use vstd::prelude::*;
use vstd::pervasive::VecAdditionalExecFns;

use crate::addr::Address;
use crate::auth::verify_cpi_caller;
use crate::error::VaultError;
use crate::spot::{spot_deposit_spec, spot_settle_v2_spec, spot_withdraw_spec, SpotUserAccount};
use crate::state::{PredictionMarketUserAccount, UserAccount, VaultConfig};
use crate::utils::{checked_add, checked_add_u64};

verus! {

/// Residual locked margin strictly below this threshold (one unit of the
/// quote asset, in e6 units) is swept into the available balance by a
/// close-position settlement.
pub const DUST_THRESHOLD_E6: i64 = 1_000_000;

/// Largest `u64` amount that fits in a signed 64-bit balance field.
pub const MAX_BALANCE_E6: u64 = 0x7fff_ffff_ffff_ffff;

/// The transition processor. All handlers are associated functions; the
/// records they act on arrive decoded from the host store and are written
/// back by the caller after a successful transition.
pub struct Processor;

/// Transition of a user deposit: credits the available balance and both
/// running deposit totals.
pub open spec fn deposit_spec(c: VaultConfig, u: UserAccount, amount: u64, now: i64) -> Result<
    (VaultConfig, UserAccount),
    VaultError,
> {
    if amount == 0 {
        Err(VaultError::InvalidAmount)
    } else if c.is_paused {
        Err(VaultError::VaultPaused)
    } else if amount > MAX_BALANCE_E6 || u.available_balance_e6 + amount > i64::MAX
        || u.total_deposited_e6 + amount > i64::MAX || c.total_deposits + amount > u64::MAX {
        Err(VaultError::Overflow)
    } else {
        Ok(
            (
                VaultConfig { total_deposits: (c.total_deposits + amount) as u64, ..c },
                UserAccount {
                    available_balance_e6: (u.available_balance_e6 + amount) as i64,
                    total_deposited_e6: (u.total_deposited_e6 + amount) as i64,
                    last_update_ts: now,
                    ..u
                },
            ),
        )
    }
}

/// Transition of a user withdrawal: debits the available balance and
/// credits the cumulative withdrawal total.
pub open spec fn withdraw_spec(c: VaultConfig, u: UserAccount, amount: u64, now: i64) -> Result<
    UserAccount,
    VaultError,
> {
    if amount == 0 {
        Err(VaultError::InvalidAmount)
    } else if c.is_paused {
        Err(VaultError::VaultPaused)
    } else if amount > MAX_BALANCE_E6 {
        Err(VaultError::Overflow)
    } else if u.available_balance_e6 < amount {
        Err(VaultError::InsufficientBalance)
    } else if u.total_withdrawn_e6 + amount > i64::MAX {
        Err(VaultError::Overflow)
    } else {
        Ok(
            UserAccount {
                available_balance_e6: (u.available_balance_e6 - amount) as i64,
                total_withdrawn_e6: (u.total_withdrawn_e6 + amount) as i64,
                last_update_ts: now,
                ..u
            },
        )
    }
}

/// Transition of margin locking (whitelisted callers only): moves `amount`
/// from the available balance into locked margin.
pub open spec fn lock_margin_spec(
    c: VaultConfig,
    u: UserAccount,
    caller: Address,
    amount: u64,
    now: i64,
) -> Result<UserAccount, VaultError> {
    if amount == 0 {
        Err(VaultError::InvalidAmount)
    } else if !c.spec_is_authorized(caller) {
        Err(VaultError::UnauthorizedCaller)
    } else if amount > MAX_BALANCE_E6 {
        Err(VaultError::Overflow)
    } else if u.available_balance_e6 < amount {
        Err(VaultError::InsufficientBalance)
    } else if u.locked_margin_e6 + amount > i64::MAX {
        Err(VaultError::Overflow)
    } else {
        Ok(
            UserAccount {
                available_balance_e6: (u.available_balance_e6 - amount) as i64,
                locked_margin_e6: (u.locked_margin_e6 + amount) as i64,
                last_update_ts: now,
                ..u
            },
        )
    }
}

/// Transition of margin release (whitelisted callers only): moves `amount`
/// from locked margin back into the available balance.
pub open spec fn release_margin_spec(
    c: VaultConfig,
    u: UserAccount,
    caller: Address,
    amount: u64,
    now: i64,
) -> Result<UserAccount, VaultError> {
    if amount == 0 {
        Err(VaultError::InvalidAmount)
    } else if !c.spec_is_authorized(caller) {
        Err(VaultError::UnauthorizedCaller)
    } else if amount > MAX_BALANCE_E6 {
        Err(VaultError::Overflow)
    } else if u.locked_margin_e6 < amount {
        Err(VaultError::InsufficientMargin)
    } else if u.available_balance_e6 + amount > i64::MAX {
        Err(VaultError::Overflow)
    } else {
        Ok(
            UserAccount {
                available_balance_e6: (u.available_balance_e6 + amount) as i64,
                locked_margin_e6: (u.locked_margin_e6 - amount) as i64,
                last_update_ts: now,
                ..u
            },
        )
    }
}

/// The dust-cleanup rule of close-position settlement: a residual locked
/// margin strictly between zero and the threshold is swept whole into the
/// available balance. Returns `(available, locked)` after the sweep.
pub open spec fn sweep_dust(available: int, locked: int) -> (int, int) {
    if 0 < locked < DUST_THRESHOLD_E6 {
        (available + locked, 0)
    } else {
        (available, locked)
    }
}

/// Transition of close-position settlement (whitelisted callers only):
/// releases margin, sweeps sub-threshold residual locked margin, applies
/// the signed realized P&L, then debits the fee.
pub open spec fn close_position_settle_spec(
    c: VaultConfig,
    u: UserAccount,
    caller: Address,
    margin_to_release: u64,
    realized_pnl: i64,
    fee: u64,
    now: i64,
) -> Result<UserAccount, VaultError> {
    if !c.spec_is_authorized(caller) {
        Err(VaultError::UnauthorizedCaller)
    } else if margin_to_release > MAX_BALANCE_E6 || fee > MAX_BALANCE_E6 {
        Err(VaultError::Overflow)
    } else if u.locked_margin_e6 < margin_to_release {
        Err(VaultError::InsufficientMargin)
    } else if u.available_balance_e6 + margin_to_release > i64::MAX {
        Err(VaultError::Overflow)
    } else {
        let swept = sweep_dust(
            u.available_balance_e6 + margin_to_release,
            u.locked_margin_e6 - margin_to_release,
        );
        if swept.0 > i64::MAX || !(i64::MIN <= swept.0 + realized_pnl <= i64::MAX) {
            Err(VaultError::Overflow)
        } else if swept.0 + realized_pnl < fee {
            Err(VaultError::InsufficientBalance)
        } else {
            Ok(
                UserAccount {
                    available_balance_e6: (swept.0 + realized_pnl - fee) as i64,
                    locked_margin_e6: swept.1 as i64,
                    last_update_ts: now,
                    ..u
                },
            )
        }
    }
}

/// Transition of liquidation (whitelisted callers only): zeroes the locked
/// margin unconditionally and credits the remainder to the available
/// balance. A positive penalty requires the pooled asset account reference
/// to match the configuration; the penalty's asset movement happens at the
/// storage boundary and touches no user record.
pub open spec fn liquidate_position_spec(
    c: VaultConfig,
    u: UserAccount,
    caller: Address,
    vault_token_account: Address,
    user_remainder: u64,
    liquidation_penalty: u64,
    now: i64,
) -> Result<UserAccount, VaultError> {
    if !c.spec_is_authorized(caller) {
        Err(VaultError::UnauthorizedCaller)
    } else if liquidation_penalty > 0 && vault_token_account != c.vault_token_account {
        Err(VaultError::InvalidAccount)
    } else if user_remainder > MAX_BALANCE_E6
        || u.available_balance_e6 + user_remainder > i64::MAX {
        Err(VaultError::Overflow)
    } else {
        Ok(
            UserAccount {
                available_balance_e6: (u.available_balance_e6 + user_remainder) as i64,
                locked_margin_e6: 0,
                last_update_ts: now,
                ..u
            },
        )
    }
}

/// Transition of the administrator's forced margin release: releases
/// `amount` of locked margin (all of it when `amount` is zero) into the
/// available balance. Releasing nothing is a successful no-op.
pub open spec fn admin_force_release_margin_spec(
    c: VaultConfig,
    u: UserAccount,
    admin: Address,
    amount: u64,
    now: i64,
) -> Result<UserAccount, VaultError> {
    if admin != c.admin {
        Err(VaultError::InvalidAdmin)
    } else if amount > MAX_BALANCE_E6 {
        Err(VaultError::Overflow)
    } else {
        let release: int = if amount == 0 {
            u.locked_margin_e6 as int
        } else {
            amount as int
        };
        if release > u.locked_margin_e6 {
            Err(VaultError::InsufficientMargin)
        } else if release <= 0 {
            Ok(u)
        } else if u.available_balance_e6 + release > i64::MAX {
            Err(VaultError::Overflow)
        } else {
            Ok(
                UserAccount {
                    available_balance_e6: (u.available_balance_e6 + release) as i64,
                    locked_margin_e6: (u.locked_margin_e6 - release) as i64,
                    last_update_ts: now,
                    ..u
                },
            )
        }
    }
}

/// Whether some occupied whitelist slot holds `caller`.
pub open spec fn whitelist_contains(s: Seq<Option<Address>>, caller: Address) -> bool {
    exists|i: int| 0 <= i < s.len() && #[trigger] s[i] == Some(caller)
}

/// Whether two configurations agree on every field other than the
/// whitelist slots.
pub open spec fn same_config_but_slots(a: VaultConfig, b: VaultConfig) -> bool {
    &&& a.discriminator == b.discriminator
    &&& a.admin == b.admin
    &&& a.usdc_mint == b.usdc_mint
    &&& a.vault_token_account == b.vault_token_account
    &&& a.ledger_program == b.ledger_program
    &&& a.fund_program == b.fund_program
    &&& a.delegation_program == b.delegation_program
    &&& a.total_deposits == b.total_deposits
    &&& a.total_locked == b.total_locked
    &&& a.is_paused == b.is_paused
}

impl Processor {
    /// Adds `caller` to the first empty whitelist slot (administrator
    /// only). Adding an already-present caller is a successful no-op; a
    /// whitelist with no empty slot is rejected as `InvalidAccount`, and so
    /// is the all-zero identity itself — the storage boundary writes empty
    /// slots as that sentinel, so admitting it would silently vanish on
    /// the next load.
    pub fn process_add_authorized_caller(
        config: &mut VaultConfig,
        admin: Address,
        caller: Address,
    ) -> (r: Result<(), VaultError>)
        requires
            old(config).wf(),
        ensures
            final(config).wf(),
            admin != old(config).admin ==> r == Err::<(), VaultError>(VaultError::InvalidAdmin),
            admin == old(config).admin && caller == crate::addr::zero_address() ==> r == Err::<
                (),
                VaultError,
            >(VaultError::InvalidAccount),
            r is Err ==> *final(config) == *old(config),
            admin == old(config).admin && caller != crate::addr::zero_address()
                && whitelist_contains(old(config).authorized_callers@, caller)
                ==> r == Ok::<(), VaultError>(()) && *final(config) == *old(config),
            admin == old(config).admin && caller != crate::addr::zero_address()
                && !whitelist_contains(
                old(config).authorized_callers@,
                caller,
            ) && (exists|i: int|
                0 <= i < old(config).authorized_callers.len() && #[trigger] old(config).authorized_callers[i] is None) ==> r == Ok::<(), VaultError>(())
                && same_config_but_slots(*final(config), *old(config)) && (exists|k: int|
                0 <= k < old(config).authorized_callers.len()
                    && #[trigger] old(config).authorized_callers[k] is None && (forall|j: int|
                    0 <= j < k ==> #[trigger] old(config).authorized_callers[j] is Some)
                    && final(config).authorized_callers@ =~= old(config).authorized_callers@.update(k, Some(caller))),
            admin == old(config).admin && caller != crate::addr::zero_address()
                && !whitelist_contains(
                old(config).authorized_callers@,
                caller,
            ) && (forall|i: int|
                0 <= i < old(config).authorized_callers.len() ==> #[trigger] old(config).authorized_callers[i] is Some) ==> r == Err::<(), VaultError>(
                VaultError::InvalidAccount,
            ),
            r is Ok ==> final(config).spec_is_authorized(caller),
    {
        if admin != config.admin {
            return Err(VaultError::InvalidAdmin);
        }
        if caller == (Address { w0: 0, w1: 0, w2: 0, w3: 0 }) {
            return Err(VaultError::InvalidAccount);
        }
        let n = config.authorized_callers.len();
        let mut i: usize = 0;
        while i < n
            invariant
                *config == *old(config),
                old(config).wf(),
                admin == old(config).admin,
                caller != crate::addr::zero_address(),
                n == config.authorized_callers.len(),
                i <= n,
                forall|k: int| 0 <= k < i
                    ==> #[trigger] config.authorized_callers[k] != Some(caller),
            decreases n - i,
        {
            if let Some(entry) = config.authorized_callers[i] {
                if entry == caller {
                    return Ok(());
                }
            }
            i += 1;
        }
        let mut k: usize = 0;
        while k < n
            invariant
                *config == *old(config),
                old(config).wf(),
                admin == old(config).admin,
                caller != crate::addr::zero_address(),
                n == config.authorized_callers.len(),
                k <= n,
                forall|q: int| 0 <= q < n
                    ==> #[trigger] config.authorized_callers[q] != Some(caller),
                forall|j: int| 0 <= j < k ==> #[trigger] config.authorized_callers[j] is Some,
            decreases n - k,
        {
            if config.authorized_callers[k].is_none() {
                let ghost old_slots = config.authorized_callers@;
                config.authorized_callers.set(k, Some(caller));
                proof {
                    assert(config.authorized_callers@ =~= old_slots.update(k as int, Some(caller)));
                    assert(config.authorized_callers[k as int] == Some(caller));
                    assert forall|p: int, q: int|
                        0 <= p < config.authorized_callers.len() && 0 <= q
                            < config.authorized_callers.len() && p != q
                            && config.authorized_callers[p] is Some implies #[trigger] config
                        .authorized_callers[p] != #[trigger] config.authorized_callers[q] by {
                        if p != k && q != k {
                            assert(config.authorized_callers[p] == old(config).authorized_callers[p]);
                            assert(config.authorized_callers[q] == old(config).authorized_callers[q]);
                            assert(old(config).authorized_callers[p] != old(config).authorized_callers[q]);
                        } else if p == k {
                            assert(old_slots[q] != Some(caller));
                        } else {
                            assert(old_slots[p] != Some(caller));
                        }
                    }
                }
                return Ok(());
            }
            k += 1;
        }
        Err(VaultError::InvalidAccount)
    }

    /// Clears the whitelist slot holding `caller` (administrator only).
    /// Removing an absent caller is a successful no-op.
    pub fn process_remove_authorized_caller(
        config: &mut VaultConfig,
        admin: Address,
        caller: Address,
    ) -> (r: Result<(), VaultError>)
        requires
            old(config).wf(),
        ensures
            final(config).wf(),
            admin != old(config).admin ==> r == Err::<(), VaultError>(VaultError::InvalidAdmin),
            r is Err ==> *final(config) == *old(config),
            admin == old(config).admin ==> r == Ok::<(), VaultError>(()),
            admin == old(config).admin && !whitelist_contains(
                old(config).authorized_callers@,
                caller,
            ) ==> *final(config) == *old(config),
            admin == old(config).admin && whitelist_contains(old(config).authorized_callers@, caller)
                ==> same_config_but_slots(*final(config), *old(config)) && (exists|k: int|
                0 <= k < old(config).authorized_callers.len() && #[trigger] old(config).authorized_callers[k] == Some(caller) && final(config).authorized_callers@ =~= old(config).authorized_callers@.update(k, None::<Address>)),
            admin == old(config).admin
                ==> !whitelist_contains(final(config).authorized_callers@, caller),
    {
        if admin != config.admin {
            return Err(VaultError::InvalidAdmin);
        }
        let n = config.authorized_callers.len();
        let mut i: usize = 0;
        while i < n
            invariant
                *config == *old(config),
                old(config).wf(),
                admin == old(config).admin,
                n == config.authorized_callers.len(),
                i <= n,
                forall|k: int| 0 <= k < i
                    ==> #[trigger] config.authorized_callers[k] != Some(caller),
            decreases n - i,
        {
            let hit = match config.authorized_callers[i] {
                Some(entry) => entry == caller,
                None => false,
            };
            if hit {
                let ghost old_slots = config.authorized_callers@;
                config.authorized_callers.set(i, None);
                proof {
                    assert(config.authorized_callers@ =~= old_slots.update(i as int, None));
                    assert(old_slots[i as int] == Some(caller));
                    assert forall|q: int|
                        0 <= q < config.authorized_callers.len() implies #[trigger] config
                        .authorized_callers[q] != Some(caller) by {
                        if q != i {
                            assert(config.authorized_callers[q] == old_slots[q]);
                            if old_slots[q] is Some {
                                // occupied slots are pairwise distinct
                                assert(old_slots[q] != old_slots[i as int]);
                            }
                        }
                    }
                }
                return Ok(());
            }
            i += 1;
        }
        Ok(())
    }

    /// Sets or clears the pause flag (administrator only).
    pub fn process_set_paused(config: &mut VaultConfig, admin: Address, paused: bool) -> (r: Result<
        (),
        VaultError,
    >)
        ensures
            admin != old(config).admin ==> r == Err::<(), VaultError>(VaultError::InvalidAdmin)
                && *final(config) == *old(config),
            admin == old(config).admin ==> r == Ok::<(), VaultError>(()) && *final(config)
                == (VaultConfig { is_paused: paused, ..*old(config) }),
            old(config).wf() ==> final(config).wf(),
    {
        if admin != config.admin {
            return Err(VaultError::InvalidAdmin);
        }
        config.is_paused = paused;
        Ok(())
    }

    /// Rotates the administrator identity (current administrator only).
    pub fn process_update_admin(
        config: &mut VaultConfig,
        current_admin: Address,
        new_admin: Address,
    ) -> (r: Result<(), VaultError>)
        ensures
            current_admin != old(config).admin ==> r == Err::<(), VaultError>(
                VaultError::InvalidAdmin,
            ) && *final(config) == *old(config),
            current_admin == old(config).admin ==> r == Ok::<(), VaultError>(()) && *final(config)
                == (VaultConfig { admin: new_admin, ..*old(config) }),
            old(config).wf() ==> final(config).wf(),
    {
        if current_admin != config.admin {
            return Err(VaultError::InvalidAdmin);
        }
        config.admin = new_admin;
        Ok(())
    }

    /// Rotates the fee-pool owner reference (administrator only); `None`
    /// marks it unset.
    pub fn process_set_fund_program(
        config: &mut VaultConfig,
        admin: Address,
        fund_program: Option<Address>,
    ) -> (r: Result<(), VaultError>)
        ensures
            admin != old(config).admin ==> r == Err::<(), VaultError>(VaultError::InvalidAdmin)
                && *final(config) == *old(config),
            admin == old(config).admin ==> r == Ok::<(), VaultError>(()) && *final(config)
                == (VaultConfig { fund_program, ..*old(config) }),
            old(config).wf() ==> final(config).wf(),
    {
        if admin != config.admin {
            return Err(VaultError::InvalidAdmin);
        }
        config.fund_program = fund_program;
        Ok(())
    }

    /// Rotates the settlement-caller program reference (administrator
    /// only).
    pub fn process_set_ledger_program(
        config: &mut VaultConfig,
        admin: Address,
        ledger_program: Address,
    ) -> (r: Result<(), VaultError>)
        ensures
            admin != old(config).admin ==> r == Err::<(), VaultError>(VaultError::InvalidAdmin)
                && *final(config) == *old(config),
            admin == old(config).admin ==> r == Ok::<(), VaultError>(()) && *final(config)
                == (VaultConfig { ledger_program, ..*old(config) }),
            old(config).wf() ==> final(config).wf(),
    {
        if admin != config.admin {
            return Err(VaultError::InvalidAdmin);
        }
        config.ledger_program = ledger_program;
        Ok(())
    }

    /// Credits a user deposit. The matching asset movement into the pooled
    /// holding is driven by the caller.
    pub fn process_deposit(
        config: &mut VaultConfig,
        user: &mut UserAccount,
        amount: u64,
        now: i64,
    ) -> (r: Result<(), VaultError>)
        ensures
            ({
                let s = deposit_spec(*old(config), *old(user), amount, now);
                match s {
                    Ok(post) => r == Ok::<(), VaultError>(()) && *final(config) == post.0
                        && *final(user) == post.1,
                    Err(e) => r == Err::<(), VaultError>(e) && *final(config) == *old(config)
                        && *final(user) == *old(user),
                }
            }),
            old(user).wf() && r is Ok ==> final(user).wf(),
    {
        if amount == 0 {
            return Err(VaultError::InvalidAmount);
        }
        if config.is_paused {
            return Err(VaultError::VaultPaused);
        }
        if amount > MAX_BALANCE_E6 {
            return Err(VaultError::Overflow);
        }
        let available = match checked_add(user.available_balance_e6, amount as i64) {
            Ok(v) => v,
            Err(e) => {
                return Err(e);
            },
        };
        let deposited = match checked_add(user.total_deposited_e6, amount as i64) {
            Ok(v) => v,
            Err(e) => {
                return Err(e);
            },
        };
        let config_total = match checked_add_u64(config.total_deposits, amount) {
            Ok(v) => v,
            Err(e) => {
                return Err(e);
            },
        };
        user.available_balance_e6 = available;
        user.total_deposited_e6 = deposited;
        user.last_update_ts = now;
        config.total_deposits = config_total;
        Ok(())
    }

    /// Debits a user withdrawal. The matching asset movement out of the
    /// pooled holding is driven by the caller under the ledger's own
    /// derived signing authority.
    pub fn process_withdraw(
        config: &VaultConfig,
        user: &mut UserAccount,
        amount: u64,
        now: i64,
    ) -> (r: Result<(), VaultError>)
        ensures
            ({
                let s = withdraw_spec(*config, *old(user), amount, now);
                match s {
                    Ok(post) => r == Ok::<(), VaultError>(()) && *final(user) == post,
                    Err(e) => r == Err::<(), VaultError>(e) && *final(user) == *old(user),
                }
            }),
            old(user).wf() && r is Ok ==> final(user).wf(),
    {
        if amount == 0 {
            return Err(VaultError::InvalidAmount);
        }
        if config.is_paused {
            return Err(VaultError::VaultPaused);
        }
        if amount > MAX_BALANCE_E6 {
            return Err(VaultError::Overflow);
        }
        if user.available_balance_e6 < amount as i64 {
            return Err(VaultError::InsufficientBalance);
        }
        let withdrawn = match checked_add(user.total_withdrawn_e6, amount as i64) {
            Ok(v) => v,
            Err(e) => {
                return Err(e);
            },
        };
        user.available_balance_e6 = user.available_balance_e6 - amount as i64;
        user.total_withdrawn_e6 = withdrawn;
        user.last_update_ts = now;
        Ok(())
    }

    /// Locks margin on behalf of a whitelisted caller.
    pub fn process_lock_margin(
        config: &VaultConfig,
        user: &mut UserAccount,
        caller: Address,
        amount: u64,
        now: i64,
    ) -> (r: Result<(), VaultError>)
        ensures
            ({
                let s = lock_margin_spec(*config, *old(user), caller, amount, now);
                match s {
                    Ok(post) => r == Ok::<(), VaultError>(()) && *final(user) == post,
                    Err(e) => r == Err::<(), VaultError>(e) && *final(user) == *old(user),
                }
            }),
            old(user).wf() && r is Ok ==> final(user).wf(),
    {
        if amount == 0 {
            return Err(VaultError::InvalidAmount);
        }
        if let Err(e) = verify_cpi_caller(config, &caller) {
            return Err(e);
        }
        if amount > MAX_BALANCE_E6 {
            return Err(VaultError::Overflow);
        }
        if user.available_balance_e6 < amount as i64 {
            return Err(VaultError::InsufficientBalance);
        }
        let locked = match checked_add(user.locked_margin_e6, amount as i64) {
            Ok(v) => v,
            Err(e) => {
                return Err(e);
            },
        };
        user.available_balance_e6 = user.available_balance_e6 - amount as i64;
        user.locked_margin_e6 = locked;
        user.last_update_ts = now;
        Ok(())
    }

    /// Releases margin on behalf of a whitelisted caller.
    pub fn process_release_margin(
        config: &VaultConfig,
        user: &mut UserAccount,
        caller: Address,
        amount: u64,
        now: i64,
    ) -> (r: Result<(), VaultError>)
        ensures
            ({
                let s = release_margin_spec(*config, *old(user), caller, amount, now);
                match s {
                    Ok(post) => r == Ok::<(), VaultError>(()) && *final(user) == post,
                    Err(e) => r == Err::<(), VaultError>(e) && *final(user) == *old(user),
                }
            }),
            old(user).wf() && r is Ok ==> final(user).wf(),
    {
        if amount == 0 {
            return Err(VaultError::InvalidAmount);
        }
        if let Err(e) = verify_cpi_caller(config, &caller) {
            return Err(e);
        }
        if amount > MAX_BALANCE_E6 {
            return Err(VaultError::Overflow);
        }
        if user.locked_margin_e6 < amount as i64 {
            return Err(VaultError::InsufficientMargin);
        }
        let available = match checked_add(user.available_balance_e6, amount as i64) {
            Ok(v) => v,
            Err(e) => {
                return Err(e);
            },
        };
        user.available_balance_e6 = available;
        user.locked_margin_e6 = user.locked_margin_e6 - amount as i64;
        user.last_update_ts = now;
        Ok(())
    }

    /// Settles a closed position on behalf of a whitelisted caller:
    /// releases margin (sweeping sub-threshold dust), applies the signed
    /// realized P&L, and debits the fee. Fee distribution is driven by the
    /// settlement caller separately.
    pub fn process_close_position_settle(
        config: &VaultConfig,
        user: &mut UserAccount,
        caller: Address,
        margin_to_release: u64,
        realized_pnl: i64,
        fee: u64,
        now: i64,
    ) -> (r: Result<(), VaultError>)
        ensures
            ({
                let s = close_position_settle_spec(
                    *config,
                    *old(user),
                    caller,
                    margin_to_release,
                    realized_pnl,
                    fee,
                    now,
                );
                match s {
                    Ok(post) => r == Ok::<(), VaultError>(()) && *final(user) == post,
                    Err(e) => r == Err::<(), VaultError>(e) && *final(user) == *old(user),
                }
            }),
            old(user).wf() && r is Ok ==> final(user).wf(),
    {
        if let Err(e) = verify_cpi_caller(config, &caller) {
            return Err(e);
        }
        if margin_to_release > MAX_BALANCE_E6 || fee > MAX_BALANCE_E6 {
            return Err(VaultError::Overflow);
        }
        if user.locked_margin_e6 < margin_to_release as i64 {
            return Err(VaultError::InsufficientMargin);
        }
        let mut available = match checked_add(user.available_balance_e6, margin_to_release as i64) {
            Ok(v) => v,
            Err(e) => {
                return Err(e);
            },
        };
        let mut locked = user.locked_margin_e6 - margin_to_release as i64;
        if locked > 0 && locked < DUST_THRESHOLD_E6 {
            available = match checked_add(available, locked) {
                Ok(v) => v,
                Err(e) => {
                    return Err(e);
                },
            };
            locked = 0;
        }
        let with_pnl = match checked_add(available, realized_pnl) {
            Ok(v) => v,
            Err(e) => {
                return Err(e);
            },
        };
        if with_pnl < fee as i64 {
            return Err(VaultError::InsufficientBalance);
        }
        user.available_balance_e6 = with_pnl - fee as i64;
        user.locked_margin_e6 = locked;
        user.last_update_ts = now;
        Ok(())
    }

    /// Liquidates a user position on behalf of a whitelisted caller. The
    /// locked margin is zeroed unconditionally — the `margin` argument is
    /// informational only — and the remainder is credited back; a positive
    /// penalty is moved to the insurance destination by the caller.
    pub fn process_liquidate_position(
        config: &VaultConfig,
        user: &mut UserAccount,
        caller: Address,
        vault_token_account: Address,
        _margin: u64,
        user_remainder: u64,
        liquidation_penalty: u64,
        now: i64,
    ) -> (r: Result<(), VaultError>)
        ensures
            ({
                let s = liquidate_position_spec(
                    *config,
                    *old(user),
                    caller,
                    vault_token_account,
                    user_remainder,
                    liquidation_penalty,
                    now,
                );
                match s {
                    Ok(post) => r == Ok::<(), VaultError>(()) && *final(user) == post,
                    Err(e) => r == Err::<(), VaultError>(e) && *final(user) == *old(user),
                }
            }),
            old(user).wf() && r is Ok ==> final(user).wf(),
    {
        if let Err(e) = verify_cpi_caller(config, &caller) {
            return Err(e);
        }
        if liquidation_penalty > 0 && vault_token_account != config.vault_token_account {
            return Err(VaultError::InvalidAccount);
        }
        if user_remainder > MAX_BALANCE_E6 {
            return Err(VaultError::Overflow);
        }
        let available = match checked_add(user.available_balance_e6, user_remainder as i64) {
            Ok(v) => v,
            Err(e) => {
                return Err(e);
            },
        };
        user.available_balance_e6 = available;
        user.locked_margin_e6 = 0;
        user.last_update_ts = now;
        Ok(())
    }

    /// Escape hatch for stuck residual margin: the administrator releases
    /// `amount` (or, when `amount` is zero, all) of a user's locked margin
    /// back into the available balance.
    pub fn process_admin_force_release_margin(
        config: &VaultConfig,
        user: &mut UserAccount,
        admin: Address,
        amount: u64,
        now: i64,
    ) -> (r: Result<(), VaultError>)
        ensures
            ({
                let s = admin_force_release_margin_spec(*config, *old(user), admin, amount, now);
                match s {
                    Ok(post) => r == Ok::<(), VaultError>(()) && *final(user) == post,
                    Err(e) => r == Err::<(), VaultError>(e) && *final(user) == *old(user),
                }
            }),
            old(user).wf() && r is Ok ==> final(user).wf(),
    {
        if admin != config.admin {
            return Err(VaultError::InvalidAdmin);
        }
        if amount > MAX_BALANCE_E6 {
            return Err(VaultError::Overflow);
        }
        let release: i64 = if amount == 0 {
            user.locked_margin_e6
        } else {
            amount as i64
        };
        if release > user.locked_margin_e6 {
            return Err(VaultError::InsufficientMargin);
        }
        if release <= 0 {
            return Ok(());
        }
        let available = match checked_add(user.available_balance_e6, release) {
            Ok(v) => v,
            Err(e) => {
                return Err(e);
            },
        };
        user.available_balance_e6 = available;
        user.locked_margin_e6 = user.locked_margin_e6 - release;
        user.last_update_ts = now;
        Ok(())
    }
}

/// Transition of a prediction-market lock (whitelisted callers only):
/// debits the margin account's available balance and commits the same
/// amount in the prediction-market sub-account.
pub open spec fn pm_lock_spec(
    c: VaultConfig,
    u: UserAccount,
    pm: PredictionMarketUserAccount,
    caller: Address,
    amount: u64,
    now: i64,
) -> Result<(UserAccount, PredictionMarketUserAccount), VaultError> {
    if amount == 0 {
        Err(VaultError::InvalidAmount)
    } else if !c.spec_is_authorized(caller) {
        Err(VaultError::UnauthorizedCaller)
    } else if amount > MAX_BALANCE_E6 {
        Err(VaultError::Overflow)
    } else if u.available_balance_e6 < amount {
        Err(VaultError::InsufficientBalance)
    } else if pm.prediction_market_locked_e6 + amount > i64::MAX
        || pm.prediction_market_total_deposited_e6 + amount > i64::MAX {
        Err(VaultError::Overflow)
    } else {
        Ok(
            (
                UserAccount {
                    available_balance_e6: (u.available_balance_e6 - amount) as i64,
                    last_update_ts: now,
                    ..u
                },
                PredictionMarketUserAccount {
                    prediction_market_locked_e6: (pm.prediction_market_locked_e6 + amount) as i64,
                    prediction_market_total_deposited_e6: (pm.prediction_market_total_deposited_e6
                        + amount) as i64,
                    last_update_ts: now,
                    ..pm
                },
            ),
        )
    }
}

/// Transition of a prediction-market unlock (whitelisted callers only):
/// releases committed funds back into the margin account's available
/// balance.
pub open spec fn pm_unlock_spec(
    c: VaultConfig,
    u: UserAccount,
    pm: PredictionMarketUserAccount,
    caller: Address,
    amount: u64,
    now: i64,
) -> Result<(UserAccount, PredictionMarketUserAccount), VaultError> {
    if amount == 0 {
        Err(VaultError::InvalidAmount)
    } else if !c.spec_is_authorized(caller) {
        Err(VaultError::UnauthorizedCaller)
    } else if amount > MAX_BALANCE_E6 {
        Err(VaultError::Overflow)
    } else if pm.prediction_market_locked_e6 < amount {
        Err(VaultError::InsufficientMargin)
    } else if pm.prediction_market_total_withdrawn_e6 + amount > i64::MAX
        || u.available_balance_e6 + amount > i64::MAX {
        Err(VaultError::Overflow)
    } else {
        Ok(
            (
                UserAccount {
                    available_balance_e6: (u.available_balance_e6 + amount) as i64,
                    last_update_ts: now,
                    ..u
                },
                PredictionMarketUserAccount {
                    prediction_market_locked_e6: (pm.prediction_market_locked_e6 - amount) as i64,
                    prediction_market_total_withdrawn_e6: (pm.prediction_market_total_withdrawn_e6
                        + amount) as i64,
                    last_update_ts: now,
                    ..pm
                },
            ),
        )
    }
}

/// Transition of a prediction-market settlement (whitelisted callers
/// only): releases committed funds into the pending-settlement bucket and
/// books the difference as realized P&L. No margin-account field moves.
pub open spec fn pm_settle_spec(
    c: VaultConfig,
    pm: PredictionMarketUserAccount,
    caller: Address,
    locked_amount: u64,
    settlement_amount: u64,
    now: i64,
) -> Result<PredictionMarketUserAccount, VaultError> {
    if !c.spec_is_authorized(caller) {
        Err(VaultError::UnauthorizedCaller)
    } else if locked_amount > MAX_BALANCE_E6 || settlement_amount > MAX_BALANCE_E6 {
        Err(VaultError::Overflow)
    } else if pm.prediction_market_locked_e6 < locked_amount {
        Err(VaultError::InsufficientMargin)
    } else if pm.prediction_market_pending_settlement_e6 + settlement_amount > i64::MAX || !(
    i64::MIN <= pm.prediction_market_realized_pnl_e6 + settlement_amount - locked_amount
        <= i64::MAX) {
        Err(VaultError::Overflow)
    } else {
        Ok(
            PredictionMarketUserAccount {
                prediction_market_locked_e6: (pm.prediction_market_locked_e6 - locked_amount) as i64,
                prediction_market_pending_settlement_e6: (pm.prediction_market_pending_settlement_e6
                    + settlement_amount) as i64,
                prediction_market_realized_pnl_e6: (pm.prediction_market_realized_pnl_e6
                    + settlement_amount - locked_amount) as i64,
                last_update_ts: now,
                ..pm
            },
        )
    }
}

/// Transition of a settlement claim by the owning user: zeroes the pending
/// bucket and credits the full amount to the margin account's available
/// balance in one step. A claim of nothing still touches the sub-account's
/// timestamp but leaves the margin account alone.
pub open spec fn pm_claim_spec(
    u: UserAccount,
    pm: PredictionMarketUserAccount,
    user: Address,
    now: i64,
) -> Result<(UserAccount, PredictionMarketUserAccount), VaultError> {
    if pm.wallet != user {
        Err(VaultError::InvalidAccount)
    } else if pm.prediction_market_total_withdrawn_e6 + pm.prediction_market_pending_settlement_e6
        > i64::MAX {
        Err(VaultError::Overflow)
    } else if pm.prediction_market_pending_settlement_e6 == 0 {
        Ok((u, PredictionMarketUserAccount { last_update_ts: now, ..pm }))
    } else if u.wallet != user {
        Err(VaultError::InvalidAccount)
    } else if u.available_balance_e6 + pm.prediction_market_pending_settlement_e6 > i64::MAX {
        Err(VaultError::Overflow)
    } else {
        Ok(
            (
                UserAccount {
                    available_balance_e6: (u.available_balance_e6
                        + pm.prediction_market_pending_settlement_e6) as i64,
                    last_update_ts: now,
                    ..u
                },
                PredictionMarketUserAccount {
                    prediction_market_pending_settlement_e6: 0,
                    prediction_market_total_withdrawn_e6: (pm.prediction_market_total_withdrawn_e6
                        + pm.prediction_market_pending_settlement_e6) as i64,
                    last_update_ts: now,
                    ..pm
                },
            ),
        )
    }
}

/// Transition of the administrator's forced prediction-market unlock:
/// releases `amount` of committed funds (all of them when `amount` is
/// zero) back into the margin account. Releasing nothing is a successful
/// no-op.
pub open spec fn admin_pm_force_unlock_spec(
    c: VaultConfig,
    u: UserAccount,
    pm: PredictionMarketUserAccount,
    admin: Address,
    amount: u64,
    now: i64,
) -> Result<(UserAccount, PredictionMarketUserAccount), VaultError> {
    if admin != c.admin {
        Err(VaultError::InvalidAdmin)
    } else if amount > MAX_BALANCE_E6 {
        Err(VaultError::Overflow)
    } else {
        let release: int = if amount == 0 {
            pm.prediction_market_locked_e6 as int
        } else {
            amount as int
        };
        if release <= 0 {
            Ok((u, pm))
        } else if pm.prediction_market_locked_e6 < release {
            Err(VaultError::InsufficientMargin)
        } else if u.available_balance_e6 + release > i64::MAX {
            Err(VaultError::Overflow)
        } else {
            Ok(
                (
                    UserAccount {
                        available_balance_e6: (u.available_balance_e6 + release) as i64,
                        last_update_ts: now,
                        ..u
                    },
                    PredictionMarketUserAccount {
                        prediction_market_locked_e6: (pm.prediction_market_locked_e6
                            - release) as i64,
                        last_update_ts: now,
                        ..pm
                    },
                ),
            )
        }
    }
}

/// Byte offset of the administrator identity inside the persisted
/// configuration record: it follows the 8-byte record-type tag.
pub const CONFIG_ADMIN_OFFSET: usize = 8;

/// The 32-byte identity stored at `off`, read as four little-endian words.
pub open spec fn address_at(s: Seq<u8>, off: int) -> Address {
    Address {
        w0: crate::fees::le64_at(s, off),
        w1: crate::fees::le64_at(s, off + 8),
        w2: crate::fees::le64_at(s, off + 16),
        w3: crate::fees::le64_at(s, off + 24),
    }
}

/// Reads the administrator identity straight out of a persisted
/// configuration record's bytes, at its fixed offset. Relayer-proxied
/// operations authenticate against this field alone, which keeps them
/// compatible with configuration records persisted under older layouts.
pub fn read_admin_from_config_bytes(data: &[u8]) -> (r: Result<Address, VaultError>)
    ensures
        data@.len() < CONFIG_ADMIN_OFFSET + 32 ==> r == Err::<Address, VaultError>(
            VaultError::InvalidAccount,
        ),
        data@.len() >= CONFIG_ADMIN_OFFSET + 32 ==> r == Ok::<Address, VaultError>(
            address_at(data@, CONFIG_ADMIN_OFFSET as int),
        ),
{
    if data.len() < CONFIG_ADMIN_OFFSET + 32 {
        return Err(VaultError::InvalidAccount);
    }
    Ok(
        Address {
            w0: crate::fees::read_u64_le(data, CONFIG_ADMIN_OFFSET),
            w1: crate::fees::read_u64_le(data, CONFIG_ADMIN_OFFSET + 8),
            w2: crate::fees::read_u64_le(data, CONFIG_ADMIN_OFFSET + 16),
            w3: crate::fees::read_u64_le(data, CONFIG_ADMIN_OFFSET + 24),
        },
    )
}

/// Transition of a relayer-proxied deposit into an existing account
/// (administrator only).
pub open spec fn relayer_deposit_spec(
    u: UserAccount,
    stored_admin: Address,
    relayer: Address,
    user_wallet: Address,
    amount: u64,
    now: i64,
) -> Result<UserAccount, VaultError> {
    if relayer != stored_admin {
        Err(VaultError::InvalidRelayer)
    } else if amount == 0 {
        Err(VaultError::InvalidAmount)
    } else if u.wallet != user_wallet {
        Err(VaultError::InvalidAccount)
    } else if amount > MAX_BALANCE_E6 || u.available_balance_e6 + amount > i64::MAX
        || u.total_deposited_e6 + amount > i64::MAX {
        Err(VaultError::Overflow)
    } else {
        Ok(
            UserAccount {
                available_balance_e6: (u.available_balance_e6 + amount) as i64,
                total_deposited_e6: (u.total_deposited_e6 + amount) as i64,
                last_update_ts: now,
                ..u
            },
        )
    }
}

/// Transition of a relayer-proxied withdrawal (administrator only).
pub open spec fn relayer_withdraw_spec(
    u: UserAccount,
    stored_admin: Address,
    relayer: Address,
    user_wallet: Address,
    amount: u64,
    now: i64,
) -> Result<UserAccount, VaultError> {
    if relayer != stored_admin {
        Err(VaultError::InvalidRelayer)
    } else if amount == 0 {
        Err(VaultError::InvalidAmount)
    } else if u.wallet != user_wallet {
        Err(VaultError::InvalidAccount)
    } else if amount > MAX_BALANCE_E6 {
        Err(VaultError::Overflow)
    } else if u.available_balance_e6 < amount {
        Err(VaultError::InsufficientBalance)
    } else if u.total_withdrawn_e6 + amount > i64::MAX {
        Err(VaultError::Overflow)
    } else {
        Ok(
            UserAccount {
                available_balance_e6: (u.available_balance_e6 - amount) as i64,
                total_withdrawn_e6: (u.total_withdrawn_e6 + amount) as i64,
                last_update_ts: now,
                ..u
            },
        )
    }
}

impl Processor {
    /// Locks funds for the prediction market on behalf of a whitelisted
    /// caller: debits the margin account's available balance and commits
    /// the amount in the sub-account. A missing sub-account is provisioned
    /// by the caller beforehand.
    pub fn process_prediction_market_lock(
        config: &VaultConfig,
        user: &mut UserAccount,
        pm: &mut PredictionMarketUserAccount,
        caller: Address,
        amount: u64,
        now: i64,
    ) -> (r: Result<(), VaultError>)
        ensures
            ({
                let s = pm_lock_spec(*config, *old(user), *old(pm), caller, amount, now);
                match s {
                    Ok(post) => r == Ok::<(), VaultError>(()) && *final(user) == post.0
                        && *final(pm) == post.1,
                    Err(e) => r == Err::<(), VaultError>(e) && *final(user) == *old(user)
                        && *final(pm) == *old(pm),
                }
            }),
            old(user).wf() && r is Ok ==> final(user).wf(),
            old(pm).wf() && r is Ok ==> final(pm).wf(),
    {
        if amount == 0 {
            return Err(VaultError::InvalidAmount);
        }
        if let Err(e) = verify_cpi_caller(config, &caller) {
            return Err(e);
        }
        if amount > MAX_BALANCE_E6 {
            return Err(VaultError::Overflow);
        }
        if user.available_balance_e6 < amount as i64 {
            return Err(VaultError::InsufficientBalance);
        }
        let locked = match checked_add(pm.prediction_market_locked_e6, amount as i64) {
            Ok(v) => v,
            Err(e) => {
                return Err(e);
            },
        };
        let deposited = match checked_add(pm.prediction_market_total_deposited_e6, amount as i64) {
            Ok(v) => v,
            Err(e) => {
                return Err(e);
            },
        };
        user.available_balance_e6 = user.available_balance_e6 - amount as i64;
        user.last_update_ts = now;
        pm.prediction_market_locked_e6 = locked;
        pm.prediction_market_total_deposited_e6 = deposited;
        pm.last_update_ts = now;
        Ok(())
    }

    /// Releases prediction-market funds on behalf of a whitelisted caller:
    /// debits the sub-account's committed bucket and credits the margin
    /// account's available balance.
    pub fn process_prediction_market_unlock(
        config: &VaultConfig,
        user: &mut UserAccount,
        pm: &mut PredictionMarketUserAccount,
        caller: Address,
        amount: u64,
        now: i64,
    ) -> (r: Result<(), VaultError>)
        ensures
            ({
                let s = pm_unlock_spec(*config, *old(user), *old(pm), caller, amount, now);
                match s {
                    Ok(post) => r == Ok::<(), VaultError>(()) && *final(user) == post.0
                        && *final(pm) == post.1,
                    Err(e) => r == Err::<(), VaultError>(e) && *final(user) == *old(user)
                        && *final(pm) == *old(pm),
                }
            }),
            old(user).wf() && r is Ok ==> final(user).wf(),
            old(pm).wf() && r is Ok ==> final(pm).wf(),
    {
        if amount == 0 {
            return Err(VaultError::InvalidAmount);
        }
        if let Err(e) = verify_cpi_caller(config, &caller) {
            return Err(e);
        }
        if amount > MAX_BALANCE_E6 {
            return Err(VaultError::Overflow);
        }
        if pm.prediction_market_locked_e6 < amount as i64 {
            return Err(VaultError::InsufficientMargin);
        }
        let withdrawn = match checked_add(pm.prediction_market_total_withdrawn_e6, amount as i64) {
            Ok(v) => v,
            Err(e) => {
                return Err(e);
            },
        };
        let available = match checked_add(user.available_balance_e6, amount as i64) {
            Ok(v) => v,
            Err(e) => {
                return Err(e);
            },
        };
        pm.prediction_market_locked_e6 = pm.prediction_market_locked_e6 - amount as i64;
        pm.prediction_market_total_withdrawn_e6 = withdrawn;
        pm.last_update_ts = now;
        user.available_balance_e6 = available;
        user.last_update_ts = now;
        Ok(())
    }

    /// Settles prediction-market positions on behalf of a whitelisted
    /// caller: moves committed funds into the pending-settlement bucket and
    /// books the signed difference as realized P&L.
    pub fn process_prediction_market_settle(
        config: &VaultConfig,
        pm: &mut PredictionMarketUserAccount,
        caller: Address,
        locked_amount: u64,
        settlement_amount: u64,
        now: i64,
    ) -> (r: Result<(), VaultError>)
        ensures
            ({
                let s = pm_settle_spec(
                    *config,
                    *old(pm),
                    caller,
                    locked_amount,
                    settlement_amount,
                    now,
                );
                match s {
                    Ok(post) => r == Ok::<(), VaultError>(()) && *final(pm) == post,
                    Err(e) => r == Err::<(), VaultError>(e) && *final(pm) == *old(pm),
                }
            }),
            old(pm).wf() && r is Ok ==> final(pm).wf(),
    {
        if let Err(e) = verify_cpi_caller(config, &caller) {
            return Err(e);
        }
        if locked_amount > MAX_BALANCE_E6 || settlement_amount > MAX_BALANCE_E6 {
            return Err(VaultError::Overflow);
        }
        if pm.prediction_market_locked_e6 < locked_amount as i64 {
            return Err(VaultError::InsufficientMargin);
        }
        let pending = match checked_add(
            pm.prediction_market_pending_settlement_e6,
            settlement_amount as i64,
        ) {
            Ok(v) => v,
            Err(e) => {
                return Err(e);
            },
        };
        let pnl = settlement_amount as i64 - locked_amount as i64;
        let realized = match checked_add(pm.prediction_market_realized_pnl_e6, pnl) {
            Ok(v) => v,
            Err(e) => {
                return Err(e);
            },
        };
        pm.prediction_market_locked_e6 = pm.prediction_market_locked_e6 - locked_amount as i64;
        pm.prediction_market_pending_settlement_e6 = pending;
        pm.prediction_market_realized_pnl_e6 = realized;
        pm.last_update_ts = now;
        Ok(())
    }

    /// Claims the user's pending settlement proceeds into the margin
    /// account. Invoked by the owning user; both records must belong to
    /// the claimant.
    pub fn process_prediction_market_claim_settlement(
        user: &mut UserAccount,
        pm: &mut PredictionMarketUserAccount,
        claimant: Address,
        now: i64,
    ) -> (r: Result<(), VaultError>)
        requires
            old(pm).wf(),
        ensures
            ({
                let s = pm_claim_spec(*old(user), *old(pm), claimant, now);
                match s {
                    Ok(post) => r == Ok::<(), VaultError>(()) && *final(user) == post.0
                        && *final(pm) == post.1,
                    Err(e) => r == Err::<(), VaultError>(e) && *final(user) == *old(user)
                        && *final(pm) == *old(pm),
                }
            }),
            old(user).wf() && r is Ok ==> final(user).wf(),
            r is Ok ==> final(pm).wf(),
    {
        if pm.wallet != claimant {
            return Err(VaultError::InvalidAccount);
        }
        let withdrawn = match checked_add(
            pm.prediction_market_total_withdrawn_e6,
            pm.prediction_market_pending_settlement_e6,
        ) {
            Ok(v) => v,
            Err(e) => {
                return Err(e);
            },
        };
        if pm.prediction_market_pending_settlement_e6 == 0 {
            pm.last_update_ts = now;
            return Ok(());
        }
        if user.wallet != claimant {
            return Err(VaultError::InvalidAccount);
        }
        let available = match checked_add(
            user.available_balance_e6,
            pm.prediction_market_pending_settlement_e6,
        ) {
            Ok(v) => v,
            Err(e) => {
                return Err(e);
            },
        };
        pm.prediction_market_pending_settlement_e6 = 0;
        pm.prediction_market_total_withdrawn_e6 = withdrawn;
        pm.last_update_ts = now;
        user.available_balance_e6 = available;
        user.last_update_ts = now;
        Ok(())
    }

    /// Escape hatch for stuck prediction-market funds: the administrator
    /// releases `amount` (or, when `amount` is zero, all) of the committed
    /// bucket back into the margin account.
    pub fn process_admin_prediction_market_force_unlock(
        config: &VaultConfig,
        user: &mut UserAccount,
        pm: &mut PredictionMarketUserAccount,
        admin: Address,
        amount: u64,
        now: i64,
    ) -> (r: Result<(), VaultError>)
        ensures
            ({
                let s = admin_pm_force_unlock_spec(
                    *config,
                    *old(user),
                    *old(pm),
                    admin,
                    amount,
                    now,
                );
                match s {
                    Ok(post) => r == Ok::<(), VaultError>(()) && *final(user) == post.0
                        && *final(pm) == post.1,
                    Err(e) => r == Err::<(), VaultError>(e) && *final(user) == *old(user)
                        && *final(pm) == *old(pm),
                }
            }),
            old(user).wf() && r is Ok ==> final(user).wf(),
            old(pm).wf() && r is Ok ==> final(pm).wf(),
    {
        if admin != config.admin {
            return Err(VaultError::InvalidAdmin);
        }
        if amount > MAX_BALANCE_E6 {
            return Err(VaultError::Overflow);
        }
        let release: i64 = if amount == 0 {
            pm.prediction_market_locked_e6
        } else {
            amount as i64
        };
        if release <= 0 {
            return Ok(());
        }
        if pm.prediction_market_locked_e6 < release {
            return Err(VaultError::InsufficientMargin);
        }
        let available = match checked_add(user.available_balance_e6, release) {
            Ok(v) => v,
            Err(e) => {
                return Err(e);
            },
        };
        pm.prediction_market_locked_e6 = pm.prediction_market_locked_e6 - release;
        pm.last_update_ts = now;
        user.available_balance_e6 = available;
        user.last_update_ts = now;
        Ok(())
    }

    /// Credits a relayer-proxied deposit to an existing account. The
    /// relayer must be the stored administrator and the record must belong
    /// to the named user.
    pub fn process_relayer_deposit(
        user: &mut UserAccount,
        stored_admin: Address,
        relayer: Address,
        user_wallet: Address,
        amount: u64,
        now: i64,
    ) -> (r: Result<(), VaultError>)
        ensures
            ({
                let s = relayer_deposit_spec(
                    *old(user),
                    stored_admin,
                    relayer,
                    user_wallet,
                    amount,
                    now,
                );
                match s {
                    Ok(post) => r == Ok::<(), VaultError>(()) && *final(user) == post,
                    Err(e) => r == Err::<(), VaultError>(e) && *final(user) == *old(user),
                }
            }),
            old(user).wf() && r is Ok ==> final(user).wf(),
    {
        if relayer != stored_admin {
            return Err(VaultError::InvalidRelayer);
        }
        if amount == 0 {
            return Err(VaultError::InvalidAmount);
        }
        if user.wallet != user_wallet {
            return Err(VaultError::InvalidAccount);
        }
        if amount > MAX_BALANCE_E6 {
            return Err(VaultError::Overflow);
        }
        let available = match checked_add(user.available_balance_e6, amount as i64) {
            Ok(v) => v,
            Err(e) => {
                return Err(e);
            },
        };
        let deposited = match checked_add(user.total_deposited_e6, amount as i64) {
            Ok(v) => v,
            Err(e) => {
                return Err(e);
            },
        };
        user.available_balance_e6 = available;
        user.total_deposited_e6 = deposited;
        user.last_update_ts = now;
        Ok(())
    }

    /// Provisions a fresh account for a relayer-proxied deposit to a user
    /// with no record yet: the new record starts with the deposit already
    /// credited.
    pub fn process_relayer_deposit_create(
        stored_admin: Address,
        relayer: Address,
        user_wallet: Address,
        bump: u8,
        amount: u64,
        now: i64,
    ) -> (r: Result<UserAccount, VaultError>)
        ensures
            relayer != stored_admin ==> r == Err::<UserAccount, VaultError>(
                VaultError::InvalidRelayer,
            ),
            relayer == stored_admin && amount == 0 ==> r == Err::<UserAccount, VaultError>(
                VaultError::InvalidAmount,
            ),
            relayer == stored_admin && amount > MAX_BALANCE_E6 ==> r == Err::<
                UserAccount,
                VaultError,
            >(VaultError::Overflow),
            relayer == stored_admin && 0 < amount <= MAX_BALANCE_E6 ==> r
                == Ok::<UserAccount, VaultError>(
                UserAccount {
                    discriminator: crate::state::USER_ACCOUNT_DISCRIMINATOR,
                    wallet: user_wallet,
                    bump,
                    available_balance_e6: amount as i64,
                    locked_margin_e6: 0,
                    unrealized_pnl_e6: 0,
                    total_deposited_e6: amount as i64,
                    total_withdrawn_e6: 0,
                    last_update_ts: now,
                },
            ),
            r is Ok ==> r->Ok_0.wf(),
    {
        if relayer != stored_admin {
            return Err(VaultError::InvalidRelayer);
        }
        if amount == 0 {
            return Err(VaultError::InvalidAmount);
        }
        if amount > MAX_BALANCE_E6 {
            return Err(VaultError::Overflow);
        }
        Ok(
            UserAccount {
                discriminator: crate::state::USER_ACCOUNT_DISCRIMINATOR,
                wallet: user_wallet,
                bump,
                available_balance_e6: amount as i64,
                locked_margin_e6: 0,
                unrealized_pnl_e6: 0,
                total_deposited_e6: amount as i64,
                total_withdrawn_e6: 0,
                last_update_ts: now,
            },
        )
    }

    /// Debits a relayer-proxied withdrawal. The relayer must be the stored
    /// administrator and the record must belong to the named user; the
    /// relayer settles the matching transfer outside the ledger.
    pub fn process_relayer_withdraw(
        user: &mut UserAccount,
        stored_admin: Address,
        relayer: Address,
        user_wallet: Address,
        amount: u64,
        now: i64,
    ) -> (r: Result<(), VaultError>)
        ensures
            ({
                let s = relayer_withdraw_spec(
                    *old(user),
                    stored_admin,
                    relayer,
                    user_wallet,
                    amount,
                    now,
                );
                match s {
                    Ok(post) => r == Ok::<(), VaultError>(()) && *final(user) == post,
                    Err(e) => r == Err::<(), VaultError>(e) && *final(user) == *old(user),
                }
            }),
            old(user).wf() && r is Ok ==> final(user).wf(),
    {
        if relayer != stored_admin {
            return Err(VaultError::InvalidRelayer);
        }
        if amount == 0 {
            return Err(VaultError::InvalidAmount);
        }
        if user.wallet != user_wallet {
            return Err(VaultError::InvalidAccount);
        }
        if amount > MAX_BALANCE_E6 {
            return Err(VaultError::Overflow);
        }
        if user.available_balance_e6 < amount as i64 {
            return Err(VaultError::InsufficientBalance);
        }
        let withdrawn = match checked_add(user.total_withdrawn_e6, amount as i64) {
            Ok(v) => v,
            Err(e) => {
                return Err(e);
            },
        };
        user.available_balance_e6 = user.available_balance_e6 - amount as i64;
        user.total_withdrawn_e6 = withdrawn;
        user.last_update_ts = now;
        Ok(())
    }

    /// Credits a relayer-proxied spot deposit of one instrument
    /// (administrator only).
    pub fn process_relayer_spot_deposit(
        config: &VaultConfig,
        spot: &mut SpotUserAccount,
        relayer: Address,
        token_index: u16,
        amount: i64,
        now: i64,
    ) -> (r: Result<(), VaultError>)
        requires
            old(spot).wf(),
        ensures
            final(spot).wf(),
            relayer != config.admin ==> r == Err::<(), VaultError>(VaultError::InvalidRelayer)
                && *final(spot) == *old(spot),
            relayer == config.admin ==> ({
                let s = spot_deposit_spec(old(spot)@, token_index, amount, now);
                match s {
                    Ok(post) => r == Ok::<(), VaultError>(()) && final(spot)@ == post,
                    Err(e) => r == Err::<(), VaultError>(e) && *final(spot) == *old(spot),
                }
            }),
    {
        if relayer != config.admin {
            return Err(VaultError::InvalidRelayer);
        }
        spot.deposit(token_index, amount, now)
    }

    /// Debits a relayer-proxied spot withdrawal of one instrument
    /// (administrator only).
    pub fn process_relayer_spot_withdraw(
        config: &VaultConfig,
        spot: &mut SpotUserAccount,
        relayer: Address,
        token_index: u16,
        amount: i64,
        now: i64,
    ) -> (r: Result<(), VaultError>)
        requires
            old(spot).wf(),
        ensures
            final(spot).wf(),
            relayer != config.admin ==> r == Err::<(), VaultError>(VaultError::InvalidRelayer)
                && *final(spot) == *old(spot),
            relayer == config.admin ==> ({
                let s = spot_withdraw_spec(old(spot)@, token_index, amount, now);
                match s {
                    Ok(post) => r == Ok::<(), VaultError>(()) && final(spot)@ == post,
                    Err(e) => r == Err::<(), VaultError>(e) && *final(spot) == *old(spot),
                }
            }),
    {
        if relayer != config.admin {
            return Err(VaultError::InvalidRelayer);
        }
        spot.withdraw(token_index, amount, now)
    }
}

/// Transition of a relayer-proxied transfer between two users' available
/// balances (administrator only). Cumulative deposit and withdrawal totals
/// do not move: the transfer is internal to the vault.
pub open spec fn relayer_internal_transfer_spec(
    c: VaultConfig,
    from: UserAccount,
    to: UserAccount,
    relayer: Address,
    amount: u64,
    now: i64,
) -> Result<(UserAccount, UserAccount), VaultError> {
    if relayer != c.admin {
        Err(VaultError::InvalidRelayer)
    } else if amount == 0 {
        Err(VaultError::InvalidAmount)
    } else if amount > MAX_BALANCE_E6 {
        Err(VaultError::Overflow)
    } else if from.available_balance_e6 < amount {
        Err(VaultError::InsufficientBalance)
    } else if to.available_balance_e6 + amount > i64::MAX {
        Err(VaultError::Overflow)
    } else {
        Ok(
            (
                UserAccount {
                    available_balance_e6: (from.available_balance_e6 - amount) as i64,
                    last_update_ts: now,
                    ..from
                },
                UserAccount {
                    available_balance_e6: (to.available_balance_e6 + amount) as i64,
                    last_update_ts: now,
                    ..to
                },
            ),
        )
    }
}

/// Transition of allocating margin-ledger funds into the spot sub-ledger
/// (administrator only): debits the user's available balance and credits
/// one instrument's available bucket.
pub open spec fn spot_allocate_spec(
    c: VaultConfig,
    u: UserAccount,
    v: crate::spot::SpotView,
    admin: Address,
    token_index: u16,
    amount: u64,
    now: i64,
) -> Result<(UserAccount, crate::spot::SpotView), VaultError> {
    if admin != c.admin {
        Err(VaultError::InvalidAdmin)
    } else if amount == 0 {
        Err(VaultError::InvalidAmount)
    } else if amount > MAX_BALANCE_E6 {
        Err(VaultError::Overflow)
    } else if u.available_balance_e6 < amount {
        Err(VaultError::InsufficientBalance)
    } else {
        match crate::spot::credit_spec(v.balances, token_index, amount as int) {
            Err(e) => Err(e),
            Ok(b) => Ok(
                (
                    UserAccount {
                        available_balance_e6: (u.available_balance_e6 - amount) as i64,
                        last_update_ts: now,
                        ..u
                    },
                    crate::spot::SpotView { balances: b, last_update_ts: now, ..v },
                ),
            ),
        }
    }
}

/// Transition of releasing spot sub-ledger funds back to the margin
/// ledger (administrator only): debits one instrument's available bucket
/// and credits the user's available balance.
pub open spec fn spot_release_spec(
    c: VaultConfig,
    u: UserAccount,
    v: crate::spot::SpotView,
    admin: Address,
    token_index: u16,
    amount: u64,
    now: i64,
) -> Result<(UserAccount, crate::spot::SpotView), VaultError> {
    if admin != c.admin {
        Err(VaultError::InvalidAdmin)
    } else if amount == 0 {
        Err(VaultError::InvalidAmount)
    } else if amount > MAX_BALANCE_E6 {
        Err(VaultError::Overflow)
    } else if u.available_balance_e6 + amount > i64::MAX {
        Err(VaultError::Overflow)
    } else {
        match spot_withdraw_spec(v, token_index, amount as i64, now) {
            Err(e) => Err(e),
            Ok(v2) => Ok(
                (
                    UserAccount {
                        available_balance_e6: (u.available_balance_e6 + amount) as i64,
                        last_update_ts: now,
                        ..u
                    },
                    v2,
                ),
            ),
        }
    }
}

impl Processor {
    /// Moves funds between two users' available balances on behalf of the
    /// relayer (administrator only); both records change together or not
    /// at all.
    pub fn process_relayer_internal_transfer(
        config: &VaultConfig,
        from_user: &mut UserAccount,
        to_user: &mut UserAccount,
        relayer: Address,
        amount: u64,
        now: i64,
    ) -> (r: Result<(), VaultError>)
        ensures
            ({
                let s = relayer_internal_transfer_spec(
                    *config,
                    *old(from_user),
                    *old(to_user),
                    relayer,
                    amount,
                    now,
                );
                match s {
                    Ok(post) => r == Ok::<(), VaultError>(()) && *final(from_user) == post.0
                        && *final(to_user) == post.1,
                    Err(e) => r == Err::<(), VaultError>(e) && *final(from_user) == *old(from_user)
                        && *final(to_user) == *old(to_user),
                }
            }),
            old(from_user).wf() && r is Ok ==> final(from_user).wf(),
            old(to_user).wf() && r is Ok ==> final(to_user).wf(),
    {
        if relayer != config.admin {
            return Err(VaultError::InvalidRelayer);
        }
        if amount == 0 {
            return Err(VaultError::InvalidAmount);
        }
        if amount > MAX_BALANCE_E6 {
            return Err(VaultError::Overflow);
        }
        if from_user.available_balance_e6 < amount as i64 {
            return Err(VaultError::InsufficientBalance);
        }
        let to_available = match checked_add(to_user.available_balance_e6, amount as i64) {
            Ok(v) => v,
            Err(e) => {
                return Err(e);
            },
        };
        from_user.available_balance_e6 = from_user.available_balance_e6 - amount as i64;
        from_user.last_update_ts = now;
        to_user.available_balance_e6 = to_available;
        to_user.last_update_ts = now;
        Ok(())
    }

    /// Allocates a user's vault funds into the spot sub-ledger
    /// (administrator only).
    pub fn process_spot_allocate_from_vault(
        config: &VaultConfig,
        user: &mut UserAccount,
        spot: &mut SpotUserAccount,
        admin: Address,
        token_index: u16,
        amount: u64,
        now: i64,
    ) -> (r: Result<(), VaultError>)
        requires
            old(spot).wf(),
        ensures
            final(spot).wf(),
            ({
                let s = spot_allocate_spec(
                    *config,
                    *old(user),
                    old(spot)@,
                    admin,
                    token_index,
                    amount,
                    now,
                );
                match s {
                    Ok(post) => r == Ok::<(), VaultError>(()) && *final(user) == post.0 && final(spot)@ == post.1,
                    Err(e) => r == Err::<(), VaultError>(e) && *final(user) == *old(user) && *final(spot) == *old(spot),
                }
            }),
            old(user).wf() && r is Ok ==> final(user).wf(),
    {
        if admin != config.admin {
            return Err(VaultError::InvalidAdmin);
        }
        if amount == 0 {
            return Err(VaultError::InvalidAmount);
        }
        if amount > MAX_BALANCE_E6 {
            return Err(VaultError::Overflow);
        }
        if user.available_balance_e6 < amount as i64 {
            return Err(VaultError::InsufficientBalance);
        }
        match spot.deposit(token_index, amount as i64, now) {
            Err(e) => {
                return Err(e);
            },
            Ok(()) => {},
        }
        user.available_balance_e6 = user.available_balance_e6 - amount as i64;
        user.last_update_ts = now;
        Ok(())
    }

    /// Releases a user's spot sub-ledger funds back to the vault
    /// (administrator only).
    pub fn process_spot_release_to_vault(
        config: &VaultConfig,
        user: &mut UserAccount,
        spot: &mut SpotUserAccount,
        admin: Address,
        token_index: u16,
        amount: u64,
        now: i64,
    ) -> (r: Result<(), VaultError>)
        requires
            old(spot).wf(),
        ensures
            final(spot).wf(),
            ({
                let s = spot_release_spec(
                    *config,
                    *old(user),
                    old(spot)@,
                    admin,
                    token_index,
                    amount,
                    now,
                );
                match s {
                    Ok(post) => r == Ok::<(), VaultError>(()) && *final(user) == post.0 && final(spot)@ == post.1,
                    Err(e) => r == Err::<(), VaultError>(e) && *final(user) == *old(user) && *final(spot) == *old(spot),
                }
            }),
            old(user).wf() && r is Ok ==> final(user).wf(),
    {
        if admin != config.admin {
            return Err(VaultError::InvalidAdmin);
        }
        if amount == 0 {
            return Err(VaultError::InvalidAmount);
        }
        if amount > MAX_BALANCE_E6 {
            return Err(VaultError::Overflow);
        }
        let new_available = match checked_add(user.available_balance_e6, amount as i64) {
            Ok(v) => v,
            Err(e) => {
                return Err(e);
            },
        };
        match spot.withdraw(token_index, amount as i64, now) {
            Err(e) => {
                return Err(e);
            },
            Ok(()) => {},
        }
        user.available_balance_e6 = new_available;
        user.last_update_ts = now;
        Ok(())
    }

    /// Settles both sides of a relayer-driven spot trade (administrator
    /// only): the maker takes the opposite side of the taker. Every
    /// precondition of both accounts is validated before either record is
    /// touched, so a rejection on either side leaves both records exactly
    /// as they were.
    pub fn process_relayer_spot_settle_trade(
        config: &VaultConfig,
        maker: &mut SpotUserAccount,
        taker: &mut SpotUserAccount,
        relayer: Address,
        taker_is_buy: bool,
        base_token_index: u16,
        quote_token_index: u16,
        base_amount: i64,
        quote_amount: i64,
        maker_fee: i64,
        taker_fee: i64,
        maker_sequence: u64,
        taker_sequence: u64,
        now: i64,
    ) -> (r: Result<(), VaultError>)
        requires
            old(maker).wf(),
            old(taker).wf(),
        ensures
            final(maker).wf(),
            final(taker).wf(),
            r is Err ==> *final(maker) == *old(maker) && *final(taker) == *old(taker),
            relayer != config.admin ==> r == Err::<(), VaultError>(VaultError::InvalidRelayer),
            relayer == config.admin ==> ({
                let ms = spot_settle_v2_spec(
                    old(maker)@,
                    !taker_is_buy,
                    base_token_index,
                    quote_token_index,
                    base_amount,
                    quote_amount,
                    maker_fee,
                    maker_sequence,
                    now,
                );
                let ts = spot_settle_v2_spec(
                    old(taker)@,
                    taker_is_buy,
                    base_token_index,
                    quote_token_index,
                    base_amount,
                    quote_amount,
                    taker_fee,
                    taker_sequence,
                    now,
                );
                match ms {
                    Err(e) => r == Err::<(), VaultError>(e),
                    Ok(maker_post) => match ts {
                        Err(e) => r == Err::<(), VaultError>(e),
                        Ok(taker_post) => r == Ok::<(), VaultError>(()) && final(maker)@
                            == maker_post && final(taker)@ == taker_post,
                    },
                }
            }),
    {
        if relayer != config.admin {
            return Err(VaultError::InvalidRelayer);
        }
        let mut maker_new = maker.duplicate();
        proof {
            assert(maker_new.token_balances@ == maker.token_balances@);
        }
        match maker_new.settle_trade_v2(
            !taker_is_buy,
            base_token_index,
            quote_token_index,
            base_amount,
            quote_amount,
            maker_fee,
            maker_sequence,
            now,
        ) {
            Err(e) => {
                return Err(e);
            },
            Ok(()) => {},
        }
        let mut taker_new = taker.duplicate();
        proof {
            assert(taker_new.token_balances@ == taker.token_balances@);
        }
        match taker_new.settle_trade_v2(
            taker_is_buy,
            base_token_index,
            quote_token_index,
            base_amount,
            quote_amount,
            taker_fee,
            taker_sequence,
            now,
        ) {
            Err(e) => {
                return Err(e);
            },
            Ok(()) => {},
        }
        *maker = maker_new;
        *taker = taker_new;
        Ok(())
    }
}

} // verus!
