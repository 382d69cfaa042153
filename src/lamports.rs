use vstd::prelude::*;

use crate::error::WagerError;

verus! {

/// The balance left after taking `amount` out of `balance`; MathOverflow when
/// the balance is short.
pub fn debit(balance: u64, amount: u64) -> (r: Result<u64, WagerError>)
    ensures
        balance >= amount ==> r == Ok::<u64, WagerError>((balance - amount) as u64),
        balance < amount ==> r == Err::<u64, WagerError>(WagerError::MathOverflow),
{
    match balance.checked_sub(amount) {
        Some(b) => Ok(b),
        None => Err(WagerError::MathOverflow),
    }
}

/// The balance after adding `amount` to `balance`; MathOverflow when the sum
/// does not fit in 64 bits.
pub fn credit(balance: u64, amount: u64) -> (r: Result<u64, WagerError>)
    ensures
        balance + amount <= u64::MAX ==> r == Ok::<u64, WagerError>((balance + amount) as u64),
        balance + amount > u64::MAX ==> r == Err::<u64, WagerError>(WagerError::MathOverflow),
{
    match balance.checked_add(amount) {
        Some(b) => Ok(b),
        None => Err(WagerError::MathOverflow),
    }
}

} // verus!
