//! The closed set of failures an operation can be rejected with.
//!
//! Every rejected operation aborts with exactly one of these values and leaves
//! all records untouched; there is no partial mutation and no local recovery.

use vstd::prelude::*;

verus! {

/// Errors reported by the ledger core.
#[derive(Clone, Copy, Debug, PartialEq, Eq, Structural)]
pub enum VaultError {
    /// The operation payload could not be understood.
    InvalidInstruction,
    /// The available balance does not cover the requested debit.
    InsufficientBalance,
    /// The locked margin does not cover the requested release.
    InsufficientMargin,
    /// The invoking identity is not the settlement caller, the fee-pool
    /// owner, nor a whitelist entry.
    UnauthorizedCaller,
    /// The ledger is paused and rejects balance movement.
    VaultPaused,
    /// An amount was zero (or otherwise outside the accepted range) where a
    /// positive amount is required.
    InvalidAmount,
    /// An account reference does not match what the operation requires.
    InvalidAccount,
    /// A checked arithmetic step would overflow.
    Overflow,
    /// The insurance destination cannot cover the requested movement.
    InsuranceFundInsufficient,
    /// A derived sub-address does not match the expected derivation.
    InvalidPda,
    /// The record already exists.
    AlreadyInitialized,
    /// The record does not exist yet.
    NotInitialized,
    /// The invoking identity is not the configured administrator.
    InvalidAdmin,
    /// The invoking caller is not a recognized cross-component caller.
    InvalidCallerPda,
    /// The invoking caller did not sign the operation.
    CallerNotSigner,
    /// The invoking identity is not accepted for relayer-proxied operations.
    InvalidRelayer,
    /// A settlement sequence number did not strictly increase.
    InvalidSequence,
    /// The per-instrument balance table has no free slot left.
    TokenSlotsFull,
    /// A recurring execution presented a cycle index other than the next one.
    InvalidCycleCount,
    /// The recurring authorization is no longer active.
    RecurringAuthNotActive,
}

} // verus!
