//! Stablebonds, the collateral of the stablecoin: their validity, their
//! value and the yield they accrue until maturity.

use vstd::prelude::*;

use crate::address::Address;
use crate::chain::clock_unix_timestamp;
use crate::error::Error;
use crate::utils::math::{lemma_pow10_monotonic, pow10, pow10_u64};

verus! {

/// Error codes of the stablebond service.
#[derive(Debug, Clone, Copy, PartialEq, Eq, Structural)]
pub enum StablebondError {
    StablebondMatured,
    InvalidYieldRate,
    InvalidStablebond,
    MathOverflow,
}

/// The account of a stablebond mint.
#[derive(Debug, Clone, Copy, PartialEq, Eq)]
pub struct StablebondMint {
    pub authority: Address,
    pub underlying_mint: Address,
    pub current_yield: u64,
    pub maturity_timestamp: i64,
    pub supply: u64,
    pub decimals: u8,
    pub last_yield_update: i64,
    pub next_yield_update: i64,
}

/// The yield of a stablebond and when it was and will be updated.
#[derive(Debug, Clone, Copy, PartialEq, Eq, Structural)]
pub struct YieldData {
    pub current_yield: u64,
    pub last_update: i64,
    pub next_update: i64,
}

/// Constants for stablebond operations
pub const MIN_BOND_DURATION: i64 = 24 * 60 * 60;
pub const MAX_BOND_DURATION: i64 = 365 * 24 * 60 * 60;
pub const YIELD_DECIMALS: u8 = 6;

/// Seconds in a year of 365 days.
pub const SECONDS_PER_YEAR: u64 = 365 * 24 * 60 * 60;

/// The scale of a yield with `YIELD_DECIMALS` decimals.
pub const YIELD_SCALE: u64 = 1_000_000;

/// What the value of a stablebond is computed from.
#[derive(Debug, Clone, Copy, PartialEq, Eq)]
pub struct StablebondData {
    pub mint: Address,
    pub underlying_mint: Address,
    pub current_yield: u64,
    pub maturity_timestamp: i64,
    pub total_supply: u64,
    pub decimals: u8,
}

/// The math overflow of the stablebond service.
pub open spec fn bond_overflow<T>() -> Result<T, Error> {
    Err(Error::Stablebond(StablebondError::MathOverflow))
}

/// The yield `amount` accrues on the time remaining from `now` to
/// maturity at the bond's yield rate: `amount * yield * (maturity - now) /
/// SECONDS_PER_YEAR / YIELD_SCALE`, nothing once the bond has matured, and
/// `MathOverflow` where the time to maturity or a product leaves its range.
pub open spec fn spec_accrued_yield(amount: u64, bond: StablebondData, now: i64) -> Result<u64, Error> {
    let time_to_maturity = bond.maturity_timestamp - now;
    if time_to_maturity < i64::MIN || time_to_maturity > i64::MAX {
        bond_overflow()
    } else if time_to_maturity <= 0 {
        Ok(0)
    } else if amount * bond.current_yield > u64::MAX {
        bond_overflow()
    } else if amount * bond.current_yield * time_to_maturity > u64::MAX {
        bond_overflow()
    } else {
        Ok(((amount * bond.current_yield * time_to_maturity / (SECONDS_PER_YEAR as int)) / (YIELD_SCALE as int)) as u64)
    }
}

/// The value of `amount` stablebonds at `price` and time `now`: the price
/// value with the bond's decimals removed, plus the accrued yield.
pub open spec fn spec_value(amount: u64, bond: StablebondData, price: u64, now: i64) -> Result<u64, Error> {
    if amount * price > u64::MAX {
        bond_overflow()
    } else {
        let base = (amount * price) / (pow10(bond.decimals as nat) as int);
        match spec_accrued_yield(amount, bond, now) {
            Ok(y) => if base + y <= u64::MAX {
                Ok((base + y) as u64)
            } else {
                bond_overflow()
            },
            Err(e) => Err(e),
        }
    }
}

/// The checks on a stablebond at time `now`: not matured, a positive yield
/// and a positive supply, in this order.
pub open spec fn spec_validate_stablebond(bond: StablebondMint, now: i64) -> Result<(), Error> {
    if bond.maturity_timestamp <= now {
        Err(Error::Stablebond(StablebondError::StablebondMatured))
    } else if bond.current_yield == 0 {
        Err(Error::Stablebond(StablebondError::InvalidYieldRate))
    } else if bond.supply == 0 {
        Err(Error::Stablebond(StablebondError::InvalidStablebond))
    } else {
        Ok(())
    }
}

/// Working with stablebonds.
pub struct StablebondService;

impl StablebondService {
    /// The data of the stablebond mint at address `mint`.
    pub fn get_stablebond_data(mint: &Address, stablebond_mint: &StablebondMint) -> (r: Result<StablebondData, Error>)
        ensures
            r == Ok::<StablebondData, Error>(
                StablebondData {
                    mint: *mint,
                    underlying_mint: stablebond_mint.underlying_mint,
                    current_yield: stablebond_mint.current_yield,
                    maturity_timestamp: stablebond_mint.maturity_timestamp,
                    total_supply: stablebond_mint.supply,
                    decimals: stablebond_mint.decimals,
                },
            ),
    {
        Ok(StablebondData {
            mint: *mint,
            underlying_mint: stablebond_mint.underlying_mint,
            current_yield: stablebond_mint.current_yield,
            maturity_timestamp: stablebond_mint.maturity_timestamp,
            total_supply: stablebond_mint.supply,
            decimals: stablebond_mint.decimals,
        })
    }

    /// Checks that a stablebond can serve as collateral at
    /// `current_timestamp`.
    pub fn validate_stablebond(stablebond_mint: &StablebondMint, current_timestamp: i64) -> (r: Result<(), Error>)
        ensures
            r == spec_validate_stablebond(*stablebond_mint, current_timestamp),
    {
        if stablebond_mint.maturity_timestamp <= current_timestamp {
            return Err(Error::Stablebond(StablebondError::StablebondMatured));
        }
        if stablebond_mint.current_yield == 0 {
            return Err(Error::Stablebond(StablebondError::InvalidYieldRate));
        }
        if stablebond_mint.supply == 0 {
            return Err(Error::Stablebond(StablebondError::InvalidStablebond));
        }
        Ok(())
    }

    /// The value of `amount` stablebonds at `price`, with the yield accrued
    /// until maturity from the clock's time. The base value is computed
    /// before the clock is read.
    pub fn calculate_value(amount: u64, stablebond: &StablebondData, price: u64) -> (r: Result<u64, Error>)
        requires
            amount * price <= u64::MAX ==> stablebond.decimals <= 19,
        ensures
            amount * price > u64::MAX ==> r == bond_overflow::<u64>(),
            amount * price <= u64::MAX ==> (r == Err::<u64, Error>(Error::ClockUnavailable) || exists|now: i64|
                r == spec_value(amount, *stablebond, price, now)),
    {
        if amount.checked_mul(price).is_none() {
            assert(spec_value(amount, *stablebond, price, 0) == bond_overflow::<u64>());
            return Err(Error::Stablebond(StablebondError::MathOverflow));
        }
        match clock_unix_timestamp() {
            Some(now) => Self::calculate_value_at(amount, stablebond, price, now),
            None => Err(Error::ClockUnavailable),
        }
    }

    /// The value of `amount` stablebonds at `price` and time `now`.
    pub fn calculate_value_at(amount: u64, stablebond: &StablebondData, price: u64, now: i64) -> (r: Result<u64, Error>)
        requires
            amount * price <= u64::MAX ==> stablebond.decimals <= 19,
        ensures
            r == spec_value(amount, *stablebond, price, now),
    {
        let product = match amount.checked_mul(price) {
            Some(v) => v,
            None => return Err(Error::Stablebond(StablebondError::MathOverflow)),
        };
        let scale = pow10_u64(stablebond.decimals as u32);
        proof {
            lemma_pow10_monotonic(0, stablebond.decimals as nat);
        }
        let base_value = match product.checked_div(scale) {
            Some(v) => v,
            None => return Err(Error::Stablebond(StablebondError::MathOverflow)),
        };
        let yield_value = match Self::calculate_accrued_yield_at(amount, stablebond, now) {
            Ok(v) => v,
            Err(e) => return Err(e),
        };
        match base_value.checked_add(yield_value) {
            Some(v) => Ok(v),
            None => Err(Error::Stablebond(StablebondError::MathOverflow)),
        }
    }

    /// The yield `amount` accrues until maturity from the clock's time.
    pub fn calculate_accrued_yield(amount: u64, stablebond: &StablebondData) -> (r: Result<u64, Error>)
        ensures
            r == Err::<u64, Error>(Error::ClockUnavailable) || exists|now: i64|
                r == spec_accrued_yield(amount, *stablebond, now),
    {
        match clock_unix_timestamp() {
            Some(now) => Self::calculate_accrued_yield_at(amount, stablebond, now),
            None => Err(Error::ClockUnavailable),
        }
    }

    /// The yield `amount` accrues from `now` until maturity.
    pub fn calculate_accrued_yield_at(amount: u64, stablebond: &StablebondData, now: i64) -> (r: Result<u64, Error>)
        ensures
            r == spec_accrued_yield(amount, *stablebond, now),
    {
        let time_to_maturity = match stablebond.maturity_timestamp.checked_sub(now) {
            Some(t) => t,
            None => return Err(Error::Stablebond(StablebondError::MathOverflow)),
        };
        if time_to_maturity <= 0 {
            return Ok(0);
        }
        let with_yield = match amount.checked_mul(stablebond.current_yield) {
            Some(v) => v,
            None => return Err(Error::Stablebond(StablebondError::MathOverflow)),
        };
        let t = time_to_maturity as u64;
        let with_time = match with_yield.checked_mul(t) {
            Some(v) => v,
            None => return Err(Error::Stablebond(StablebondError::MathOverflow)),
        };
        let annualized = with_time / SECONDS_PER_YEAR;
        Ok(annualized / YIELD_SCALE)
    }

    /// The yield data of a stablebond mint.
    pub fn get_yield_data(stablebond_mint: &StablebondMint) -> (r: Result<YieldData, Error>)
        ensures
            r == Ok::<YieldData, Error>(
                YieldData {
                    current_yield: stablebond_mint.current_yield,
                    last_update: stablebond_mint.last_yield_update,
                    next_update: stablebond_mint.next_yield_update,
                },
            ),
    {
        Ok(YieldData {
            current_yield: stablebond_mint.current_yield,
            last_update: stablebond_mint.last_yield_update,
            next_update: stablebond_mint.next_yield_update,
        })
    }
}

/// Before maturity the value of a holding is at least its price value:
/// the accrued yield only adds to it.
pub proof fn lemma_value_includes_yield(amount: u64, bond: StablebondData, price: u64, now: i64)
    requires
        spec_value(amount, bond, price, now) is Ok,
    ensures
        spec_accrued_yield(amount, bond, now) is Ok,
        spec_value(amount, bond, price, now)->Ok_0 == (amount * price) / (pow10(bond.decimals as nat) as int)
            + spec_accrued_yield(amount, bond, now)->Ok_0,
        spec_value(amount, bond, price, now)->Ok_0 >= spec_accrued_yield(amount, bond, now)->Ok_0,
{
    lemma_pow10_monotonic(0, bond.decimals as nat);
    assert((amount * price) / (pow10(bond.decimals as nat) as int) >= 0) by (nonlinear_arith)
        requires
            amount * price >= 0,
            pow10(bond.decimals as nat) >= 1,
    ;
}

/// A holding accrues no yield once its bond has matured: at maturity and
/// at every later time (where the time since maturity fits in an `i64`).
pub proof fn lemma_no_yield_at_maturity(amount: u64, bond: StablebondData, now: i64)
    requires
        bond.maturity_timestamp <= now,
        bond.maturity_timestamp - now >= i64::MIN,
    ensures
        spec_accrued_yield(amount, bond, now) == Ok::<u64, Error>(0),
{
}

} // verus!
