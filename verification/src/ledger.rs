//! Checked arithmetic on amounts. All monetary arithmetic of the crate goes
//! through these three functions; none of them wraps.

use crate::error::PlinkoBetError;
use vstd::prelude::*;

verus! {

/// `balance - amount`, or `Underflow` where `amount` exceeds `balance`.
pub fn checked_debit(balance: u64, amount: u64) -> (r: Result<u64, PlinkoBetError>)
    ensures
        match r {
            Ok(rest) => amount <= balance && rest == balance - amount,
            Err(e) => amount > balance && e == PlinkoBetError::Underflow,
        },
{
    match balance.checked_sub(amount) {
        Some(rest) => Ok(rest),
        None => Err(PlinkoBetError::Underflow),
    }
}

/// `balance + amount`, or `Overflow` where the sum does not fit in 64 bits.
pub fn checked_credit(balance: u64, amount: u64) -> (r: Result<u64, PlinkoBetError>)
    ensures
        match r {
            Ok(sum) => balance + amount <= u64::MAX && sum == balance + amount,
            Err(e) => balance + amount > u64::MAX && e == PlinkoBetError::Overflow,
        },
{
    match balance.checked_add(amount) {
        Some(sum) => Ok(sum),
        None => Err(PlinkoBetError::Overflow),
    }
}

/// `amount * factor`, or `Overflow` where the product does not fit in 64 bits.
pub fn checked_multiply(amount: u64, factor: u64) -> (r: Result<u64, PlinkoBetError>)
    ensures
        match r {
            Ok(product) => amount * factor <= u64::MAX && product == amount * factor,
            Err(e) => amount * factor > u64::MAX && e == PlinkoBetError::Overflow,
        },
{
    match amount.checked_mul(factor) {
        Some(product) => Ok(product),
        None => Err(PlinkoBetError::Overflow),
    }
}

} // verus!
