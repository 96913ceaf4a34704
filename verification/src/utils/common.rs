//! Common utility functions.

use vstd::prelude::*;

use crate::address::Address;
use crate::chain::clock_unix_timestamp;
use crate::constants::BASIS_POINTS_DIVISOR;
use crate::error::{Error, StableFunError};
use crate::state::stablecoin::spec_fee;

verus! {

/// The clock's Unix timestamp, `ClockUnavailable` where the clock cannot be
/// read.
pub fn get_current_timestamp() -> (r: Result<i64, Error>)
    ensures
        r is Err ==> r == Err::<i64, Error>(Error::ClockUnavailable),
{
    match clock_unix_timestamp() {
        Some(t) => Ok(t),
        None => Err(Error::ClockUnavailable),
    }
}

/// `amount * basis_points / 10000`, or `MathOverflow` where the product
/// does not fit in a `u64`.
pub fn calculate_percentage(amount: u64, basis_points: u16) -> (r: Result<u64, Error>)
    ensures
        amount * basis_points <= u64::MAX ==> r == Ok::<u64, Error>(spec_fee(amount, basis_points) as u64),
        amount * basis_points > u64::MAX ==> r == Err::<u64, Error>(
            Error::StableFun(StableFunError::MathOverflow),
        ),
{
    match amount.checked_mul(basis_points as u64) {
        Some(v) => Ok(v / (BASIS_POINTS_DIVISOR as u64)),
        None => Err(Error::StableFun(StableFunError::MathOverflow)),
    }
}

/// The account must be owned by `owner`.
pub fn verify_account_owner(account_owner: &Address, owner: &Address) -> (r: Result<(), Error>)
    ensures
        r == (if account_owner@ == owner@ {
            Ok::<(), Error>(())
        } else {
            Err(Error::StableFun(StableFunError::AccountOwnerMismatch))
        }),
{
    if account_owner.same_as(owner) {
        Ok(())
    } else {
        Err(Error::StableFun(StableFunError::AccountOwnerMismatch))
    }
}

} // verus!
