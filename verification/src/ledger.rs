//! Balances: adding and taking away within the range of the integer.

use crate::errors::OridionError;
use vstd::prelude::*;

verus! {

/// What a balance becomes when `amount` is added, if that still fits.
pub open spec fn credit_spec(balance: u64, amount: u64) -> Result<u64, OridionError> {
    if balance + amount <= u64::MAX {
        Ok((balance + amount) as u64)
    } else {
        Err(OridionError::ArithmeticOverflow)
    }
}

/// What a balance becomes when `amount` is taken away, if it holds that much.
pub open spec fn debit_spec(balance: u64, amount: u64) -> Result<u64, OridionError> {
    if balance >= amount {
        Ok((balance - amount) as u64)
    } else {
        Err(OridionError::ArithmeticOverflow)
    }
}

/// Adds `amount` to a balance, or reports that the sum does not fit.
pub fn credit(balance: u64, amount: u64) -> (r: Result<u64, OridionError>)
    ensures
        r == credit_spec(balance, amount),
{
    match balance.checked_add(amount) {
        Some(sum) => Ok(sum),
        None => Err(OridionError::ArithmeticOverflow),
    }
}

/// Takes `amount` from a balance, or reports that the balance is too small.
pub fn debit(balance: u64, amount: u64) -> (r: Result<u64, OridionError>)
    ensures
        r == debit_spec(balance, amount),
{
    match balance.checked_sub(amount) {
        Some(rest) => Ok(rest),
        None => Err(OridionError::ArithmeticOverflow),
    }
}

} // verus!
