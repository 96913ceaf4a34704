//! The program's instructions, and the helpers they share.

pub mod initialize;
pub mod mint;
pub mod redeem;
pub mod update;

use vstd::prelude::*;

use crate::utils::oracle::AggregatorState;

use crate::error::Error;
use crate::utils::math::{pow10, pow10_u64};
use crate::utils::switchboard::get_validated_price;

verus! {

/// Constants for validation
pub const MIN_NAME_LENGTH: usize = 3;
pub const MIN_SYMBOL_LENGTH: usize = 2;
pub const BASIS_POINTS_DIVISOR: u16 = 10000;
pub const DEFAULT_COLLATERAL_RATIO: u16 = 15000;
pub const MIN_COLLATERAL_RATIO: u16 = 10000;

/// The staleness limit of the price feed, in seconds.
pub const ORACLE_MAX_STALENESS: i64 = 300;

/// Error codes of the instruction helpers.
#[derive(Debug, Clone, Copy, PartialEq, Eq, Structural)]
pub enum ProgramError {
    InvalidOraclePrice,
    StaleOraclePrice,
    MathOverflow,
    InsufficientCollateral,
}

/// The price of the feed, at most five minutes old.
pub fn verify_oracle_price(oracle_account: &AggregatorState) -> (r: Result<u64, Error>)
    ensures
        crate::utils::switchboard::feed_price_outcome(*oracle_account, ORACLE_MAX_STALENESS, r),
{
    get_validated_price(oracle_account, ORACLE_MAX_STALENESS)
}

/// The collateral that `amount` stands for at `price`: `amount *
/// 10^decimals / price`, `MathOverflow` where the product does not fit in a
/// `u64` or the price is zero.
pub open spec fn spec_token_amount(amount: u64, price: u64, decimals: u8) -> Result<u64, Error> {
    if amount * pow10(decimals as nat) > u64::MAX || price == 0 {
        Err(Error::Program(ProgramError::MathOverflow))
    } else {
        Ok(((amount * pow10(decimals as nat)) / (price as int)) as u64)
    }
}

/// The token amount that `amount` stands for at `price`. The power of ten
/// overflows (panics) from 20 decimals on.
pub fn calculate_token_amount(amount: u64, price: u64, decimals: u8) -> (r: Result<u64, Error>)
    requires
        decimals <= 19,
    ensures
        r == spec_token_amount(amount, price, decimals),
{
    let scale = pow10_u64(decimals as u32);
    let scaled = match amount.checked_mul(scale) {
        Some(v) => v,
        None => return Err(Error::Program(ProgramError::MathOverflow)),
    };
    match scaled.checked_div(price) {
        Some(v) => Ok(v),
        None => Err(Error::Program(ProgramError::MathOverflow)),
    }
}

/// The collateral ratio check of the instructions: `collateral_value *
/// 10000 / collateral_amount` must reach `min_ratio`; `MathOverflow` where
/// the product does not fit in a `u64` or there is no collateral.
pub open spec fn spec_instruction_ratio_check(collateral_amount: u64, collateral_value: u64, min_ratio: u16) -> Result<(), Error> {
    if collateral_value * 10000 > u64::MAX || collateral_amount == 0 {
        Err(Error::Program(ProgramError::MathOverflow))
    } else if collateral_value * 10000 / (collateral_amount as int) >= min_ratio {
        Ok(())
    } else {
        Err(Error::Program(ProgramError::InsufficientCollateral))
    }
}

/// Checks that collateral worth `collateral_value` covers
/// `collateral_amount` at `min_ratio`.
pub fn validate_collateral_ratio(collateral_amount: u64, collateral_value: u64, min_ratio: u16) -> (r: Result<(), Error>)
    ensures
        r == spec_instruction_ratio_check(collateral_amount, collateral_value, min_ratio),
{
    let scaled = match collateral_value.checked_mul(BASIS_POINTS_DIVISOR as u64) {
        Some(v) => v,
        None => return Err(Error::Program(ProgramError::MathOverflow)),
    };
    let ratio = match scaled.checked_div(collateral_amount) {
        Some(v) => v,
        None => return Err(Error::Program(ProgramError::MathOverflow)),
    };
    if ratio >= min_ratio as u64 {
        Ok(())
    } else {
        Err(Error::Program(ProgramError::InsufficientCollateral))
    }
}

} // verus!
