pub mod stablecoin;
pub mod vault;

pub use stablecoin::{StablecoinMint, StablecoinSettings, StablecoinStats};
pub use vault::StablecoinVault;

use vstd::prelude::*;

use crate::chain::clock_unix_timestamp;
use crate::error::{Error, StableFunError};

verus! {

// Common constants shared across modules
pub const MAX_NAME_LENGTH: usize = 32;
pub const MAX_SYMBOL_LENGTH: usize = 10;
pub const MAX_CURRENCY_LENGTH: usize = 10;
pub const DISCRIMINATOR_LENGTH: usize = 8;
pub const PUBKEY_LENGTH: usize = 32;

// Price precision constants
pub const PRICE_DECIMALS: u8 = 6;
pub const PRICE_SCALE: u64 = 1_000_000;

/// A state account, with its size in bytes.
pub trait StateAccount {
    const LEN: usize;
}

/// A price from the oracle, with when it was updated and its confidence.
#[derive(Debug, Clone, Copy, PartialEq, Eq, Structural)]
pub struct PriceData {
    pub price: u64,
    pub last_updated: i64,
    pub confidence: u64,
}

/// Whether a price is usable at time `now`: positive, within the
/// confidence limit, and at most `max_age` seconds old.
pub open spec fn spec_price_is_valid(data: PriceData, max_age: i64, max_confidence: u64, now: i64) -> bool {
    data.price > 0 && data.confidence <= max_confidence && now - data.last_updated <= max_age
}

impl PriceData {
    pub fn new(price: u64, last_updated: i64, confidence: u64) -> (d: Self)
        ensures
            d == (PriceData { price, last_updated, confidence }),
    {
        Self { price, last_updated, confidence }
    }

    /// Whether the price is usable by the clock's time. Where the clock
    /// cannot be read, `ClockUnavailable`; where the age of the price does
    /// not fit in an `i64`, `MathOverflow`.
    pub fn is_valid(&self, max_age: i64, max_confidence: u64) -> (r: Result<bool, Error>)
        ensures
            match r {
                Ok(b) => exists|now: i64| b == spec_price_is_valid(*self, max_age, max_confidence, now),
                Err(e) => e == Error::ClockUnavailable || e == Error::StableFun(StableFunError::MathOverflow),
            },
    {
        let now = match clock_unix_timestamp() {
            Some(t) => t,
            None => return Err(Error::ClockUnavailable),
        };
        if self.price > 0 && self.confidence <= max_confidence && now.checked_sub(self.last_updated).is_none() {
            return Err(Error::StableFun(StableFunError::MathOverflow));
        }
        Ok(self.is_valid_at(max_age, max_confidence, now))
    }

    /// Whether the price is usable at time `now`.
    pub fn is_valid_at(&self, max_age: i64, max_confidence: u64, now: i64) -> (r: bool)
        requires
            self.price > 0 && self.confidence <= max_confidence ==> i64::MIN <= now - self.last_updated
                <= i64::MAX,
        ensures
            r == spec_price_is_valid(*self, max_age, max_confidence, now),
    {
        self.price > 0 && self.confidence <= max_confidence && (now - self.last_updated) <= max_age
    }
}

} // verus!
