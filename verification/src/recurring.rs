//! Recurring payment authorizations.
//!
//! One record per ordered payer/payee pair: a per-cycle amount, an
//! interval, a bounded or unbounded cycle budget, and an active flag. The
//! state machine is strictly sequential — each execution must present
//! exactly the next cycle index — and terminal: the record deactivates the
//! instant it reaches its cycle budget, or when the payer cancels it, and
//! never reactivates. Cancellation is a soft delete: the record is kept
//! for audit.

use vstd::prelude::*;

use crate::addr::Address;
use crate::error::VaultError;
use crate::processor::{Processor, MAX_BALANCE_E6};
use crate::state::UserAccount;
use crate::state::VaultConfig;
use crate::utils::checked_add;

verus! {

/// Record-type tag of the recurring-authorization record.
pub const RECURRING_AUTH_DISCRIMINATOR: u64 = 0x52454355525F4155;

/// Size in bytes of the persisted recurring-authorization record.
pub const RECURRING_AUTH_SIZE: usize = 8 + 32 + 32 + 8 + 8 + 8 + 8 + 1 + 8 + 8 + 32;

/// A recurring payment authorization from one payer to one payee.
#[derive(Clone, Copy, Debug)]
pub struct RecurringAuth {
    /// Record-type tag.
    pub discriminator: u64,
    /// The identity whose available balance each cycle debits.
    pub payer: Address,
    /// The identity whose available balance each cycle credits.
    pub payee: Address,
    /// Amount moved per cycle, in e6 units.
    pub amount_e6: u64,
    /// Seconds between cycles; recorded for the scheduler, not enforced
    /// here.
    pub interval_seconds: i64,
    /// Total cycle budget; zero means unbounded.
    pub max_cycles: u64,
    /// Cycles executed so far.
    pub current_cycles: u64,
    /// Whether further executions are accepted.
    pub is_active: bool,
    /// Creation timestamp.
    pub created_at: i64,
    /// Timestamp of the last executed cycle; zero before the first.
    pub last_executed_at: i64,
    /// Opaque state-commitment hash for off-chain audit linkage.
    pub state_commitment: [u8; 32],
}

impl RecurringAuth {
    /// Well-formedness: a bounded authorization never overruns its budget,
    /// and stays active only while budget remains.
    pub open spec fn wf(self) -> bool {
        &&& self.max_cycles > 0 ==> self.current_cycles <= self.max_cycles
        &&& self.is_active && self.max_cycles > 0 ==> self.current_cycles < self.max_cycles
    }
}

/// Transition of creating an authorization: the one-time registration fee
/// leaves the payer's available balance before the record exists.
pub open spec fn init_recurring_auth_spec(
    payer_account: UserAccount,
    payer: Address,
    payee: Address,
    amount: u64,
    interval_seconds: i64,
    max_cycles: u64,
    registration_fee: u64,
    state_commitment: [u8; 32],
    now: i64,
) -> Result<(UserAccount, RecurringAuth), VaultError> {
    if amount == 0 {
        Err(VaultError::InvalidAmount)
    } else if registration_fee > MAX_BALANCE_E6 {
        Err(VaultError::Overflow)
    } else if payer_account.wallet != payer {
        Err(VaultError::InvalidAccount)
    } else if payer_account.available_balance_e6 < registration_fee {
        Err(VaultError::InsufficientBalance)
    } else {
        Ok(
            (
                UserAccount {
                    available_balance_e6: (payer_account.available_balance_e6
                        - registration_fee) as i64,
                    last_update_ts: now,
                    ..payer_account
                },
                RecurringAuth {
                    discriminator: RECURRING_AUTH_DISCRIMINATOR,
                    payer,
                    payee,
                    amount_e6: amount,
                    interval_seconds,
                    max_cycles,
                    current_cycles: 0,
                    is_active: true,
                    created_at: now,
                    last_executed_at: 0,
                    state_commitment,
                },
            ),
        )
    }
}

/// Transition of executing one cycle (whitelisted callers only): rejects
/// an inactive authorization and any cycle index other than the next one;
/// debits `amount + fee` from the payer, credits `amount` to the payee,
/// and deactivates the record the instant a bounded budget is reached. The
/// fee's movement to the insurance destination happens at the storage
/// boundary.
pub open spec fn execute_recurring_auth_spec(
    c: VaultConfig,
    auth: RecurringAuth,
    payer_account: UserAccount,
    payee_account: UserAccount,
    caller: Address,
    cycle: u64,
    fee: u64,
    now: i64,
) -> Result<(RecurringAuth, UserAccount, UserAccount), VaultError> {
    if !c.spec_is_authorized(caller) {
        Err(VaultError::UnauthorizedCaller)
    } else if !auth.is_active {
        Err(VaultError::RecurringAuthNotActive)
    } else if cycle != auth.current_cycles + 1 {
        Err(VaultError::InvalidCycleCount)
    } else if payer_account.wallet != auth.payer || payee_account.wallet != auth.payee {
        Err(VaultError::InvalidAccount)
    } else if auth.amount_e6 + fee > MAX_BALANCE_E6 {
        Err(VaultError::Overflow)
    } else if payer_account.available_balance_e6 < auth.amount_e6 + fee {
        Err(VaultError::InsufficientBalance)
    } else if payee_account.available_balance_e6 + auth.amount_e6 > i64::MAX {
        Err(VaultError::Overflow)
    } else {
        Ok(
            (
                RecurringAuth {
                    current_cycles: cycle,
                    is_active: !(auth.max_cycles > 0 && cycle >= auth.max_cycles),
                    last_executed_at: now,
                    ..auth
                },
                UserAccount {
                    available_balance_e6: (payer_account.available_balance_e6 - auth.amount_e6
                        - fee) as i64,
                    last_update_ts: now,
                    ..payer_account
                },
                UserAccount {
                    available_balance_e6: (payee_account.available_balance_e6
                        + auth.amount_e6) as i64,
                    last_update_ts: now,
                    ..payee_account
                },
            ),
        )
    }
}

/// Transition of cancellation by the payer: flips the active flag and
/// nothing else. Terminal, and moves no balance.
pub open spec fn cancel_recurring_auth_spec(auth: RecurringAuth, caller: Address) -> Result<
    RecurringAuth,
    VaultError,
> {
    if caller != auth.payer {
        Err(VaultError::UnauthorizedCaller)
    } else {
        Ok(RecurringAuth { is_active: false, ..auth })
    }
}

impl Processor {
    /// Creates a recurring authorization, debiting the payer's one-time
    /// registration fee first. Invoked by the payer.
    pub fn process_init_recurring_auth(
        payer_account: &mut UserAccount,
        payer: Address,
        payee: Address,
        amount: u64,
        interval_seconds: i64,
        max_cycles: u64,
        registration_fee: u64,
        state_commitment: [u8; 32],
        now: i64,
    ) -> (r: Result<RecurringAuth, VaultError>)
        ensures
            ({
                let s = init_recurring_auth_spec(
                    *old(payer_account),
                    payer,
                    payee,
                    amount,
                    interval_seconds,
                    max_cycles,
                    registration_fee,
                    state_commitment,
                    now,
                );
                match s {
                    Ok(post) => r == Ok::<RecurringAuth, VaultError>(post.1) && *final(payer_account) == post.0,
                    Err(e) => r == Err::<RecurringAuth, VaultError>(e) && *final(payer_account)
                        == *old(payer_account),
                }
            }),
            old(payer_account).wf() && r is Ok ==> final(payer_account).wf(),
            r is Ok ==> r->Ok_0.wf() && r->Ok_0.is_active && r->Ok_0.current_cycles == 0,
    {
        if amount == 0 {
            return Err(VaultError::InvalidAmount);
        }
        if registration_fee > MAX_BALANCE_E6 {
            return Err(VaultError::Overflow);
        }
        if payer_account.wallet != payer {
            return Err(VaultError::InvalidAccount);
        }
        if payer_account.available_balance_e6 < registration_fee as i64 {
            return Err(VaultError::InsufficientBalance);
        }
        payer_account.available_balance_e6 = payer_account.available_balance_e6
            - registration_fee as i64;
        payer_account.last_update_ts = now;
        Ok(
            RecurringAuth {
                discriminator: RECURRING_AUTH_DISCRIMINATOR,
                payer,
                payee,
                amount_e6: amount,
                interval_seconds,
                max_cycles,
                current_cycles: 0,
                is_active: true,
                created_at: now,
                last_executed_at: 0,
                state_commitment,
            },
        )
    }

    /// Executes one cycle of a recurring authorization on behalf of a
    /// whitelisted caller.
    pub fn process_execute_recurring_auth(
        config: &VaultConfig,
        auth: &mut RecurringAuth,
        payer_account: &mut UserAccount,
        payee_account: &mut UserAccount,
        caller: Address,
        cycle: u64,
        fee: u64,
        now: i64,
    ) -> (r: Result<(), VaultError>)
        ensures
            ({
                let s = execute_recurring_auth_spec(
                    *config,
                    *old(auth),
                    *old(payer_account),
                    *old(payee_account),
                    caller,
                    cycle,
                    fee,
                    now,
                );
                match s {
                    Ok(post) => r == Ok::<(), VaultError>(()) && *final(auth) == post.0 && *final(payer_account) == post.1 && *final(payee_account) == post.2,
                    Err(e) => r == Err::<(), VaultError>(e) && *final(auth) == *old(auth) && *final(payer_account) == *old(payer_account) && *final(payee_account) == *old(payee_account),
                }
            }),
            old(auth).wf() && r is Ok ==> final(auth).wf(),
            old(payer_account).wf() && r is Ok ==> final(payer_account).wf(),
            old(payee_account).wf() && r is Ok ==> final(payee_account).wf(),
    {
        if let Err(e) = crate::auth::verify_cpi_caller(config, &caller) {
            return Err(e);
        }
        if !auth.is_active {
            return Err(VaultError::RecurringAuthNotActive);
        }
        if auth.current_cycles == u64::MAX || cycle != auth.current_cycles + 1 {
            return Err(VaultError::InvalidCycleCount);
        }
        if payer_account.wallet != auth.payer || payee_account.wallet != auth.payee {
            return Err(VaultError::InvalidAccount);
        }
        let total_debit = match crate::utils::checked_add_u64(auth.amount_e6, fee) {
            Ok(v) => v,
            Err(e) => {
                return Err(e);
            },
        };
        if total_debit > MAX_BALANCE_E6 {
            return Err(VaultError::Overflow);
        }
        if payer_account.available_balance_e6 < total_debit as i64 {
            return Err(VaultError::InsufficientBalance);
        }
        let payee_available = match checked_add(
            payee_account.available_balance_e6,
            auth.amount_e6 as i64,
        ) {
            Ok(v) => v,
            Err(e) => {
                return Err(e);
            },
        };
        auth.current_cycles = cycle;
        auth.is_active = !(auth.max_cycles > 0 && cycle >= auth.max_cycles);
        auth.last_executed_at = now;
        payer_account.available_balance_e6 = payer_account.available_balance_e6
            - total_debit as i64;
        payer_account.last_update_ts = now;
        payee_account.available_balance_e6 = payee_available;
        payee_account.last_update_ts = now;
        Ok(())
    }

    /// Cancels a recurring authorization. Only the payer may cancel; the
    /// record is kept, deactivated, for audit.
    pub fn process_cancel_recurring_auth(auth: &mut RecurringAuth, caller: Address) -> (r: Result<
        (),
        VaultError,
    >)
        ensures
            ({
                let s = cancel_recurring_auth_spec(*old(auth), caller);
                match s {
                    Ok(post) => r == Ok::<(), VaultError>(()) && *final(auth) == post,
                    Err(e) => r == Err::<(), VaultError>(e) && *final(auth) == *old(auth),
                }
            }),
            old(auth).wf() ==> final(auth).wf(),
            r is Ok ==> !final(auth).is_active,
    {
        if caller != auth.payer {
            return Err(VaultError::UnauthorizedCaller);
        }
        auth.is_active = false;
        Ok(())
    }
}

} // verus!
