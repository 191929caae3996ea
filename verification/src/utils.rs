//! Overflow-checked arithmetic on balance quantities.
//!
//! Every arithmetic step on a balance goes through one of these helpers:
//! overflow is a hard failure (`VaultError::Overflow`), never a wrap or a
//! saturation.

use vstd::prelude::*;

use crate::error::VaultError;

verus! {

/// Checked `i64` addition: succeeds exactly when the mathematical sum fits.
pub fn checked_add(a: i64, b: i64) -> (r: Result<i64, VaultError>)
    ensures
        i64::MIN <= a + b <= i64::MAX ==> r == Ok::<i64, VaultError>((a + b) as i64),
        !(i64::MIN <= a + b <= i64::MAX) ==> r == Err::<i64, VaultError>(VaultError::Overflow),
{
    match a.checked_add(b) {
        Some(v) => Ok(v),
        None => Err(VaultError::Overflow),
    }
}

/// Checked `i64` subtraction: succeeds exactly when the difference fits.
pub fn checked_sub(a: i64, b: i64) -> (r: Result<i64, VaultError>)
    ensures
        i64::MIN <= a - b <= i64::MAX ==> r == Ok::<i64, VaultError>((a - b) as i64),
        !(i64::MIN <= a - b <= i64::MAX) ==> r == Err::<i64, VaultError>(VaultError::Overflow),
{
    match a.checked_sub(b) {
        Some(v) => Ok(v),
        None => Err(VaultError::Overflow),
    }
}

/// Checked `u64` addition: succeeds exactly when the sum fits.
pub fn checked_add_u64(a: u64, b: u64) -> (r: Result<u64, VaultError>)
    ensures
        a + b <= u64::MAX ==> r == Ok::<u64, VaultError>((a + b) as u64),
        a + b > u64::MAX ==> r == Err::<u64, VaultError>(VaultError::Overflow),
{
    match a.checked_add(b) {
        Some(v) => Ok(v),
        None => Err(VaultError::Overflow),
    }
}

/// Checked `u64` subtraction: succeeds exactly when `b <= a`.
pub fn checked_sub_u64(a: u64, b: u64) -> (r: Result<u64, VaultError>)
    ensures
        b <= a ==> r == Ok::<u64, VaultError>((a - b) as u64),
        b > a ==> r == Err::<u64, VaultError>(VaultError::Overflow),
{
    match a.checked_sub(b) {
        Some(v) => Ok(v),
        None => Err(VaultError::Overflow),
    }
}

} // verus!
