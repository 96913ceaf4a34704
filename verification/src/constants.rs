//! Program-wide constants.

use vstd::prelude::*;

verus! {

// Validation constants
pub const MIN_NAME_LENGTH: usize = 3;
pub const MIN_SYMBOL_LENGTH: usize = 2;
pub const MAX_NAME_LENGTH: usize = 32;
pub const MAX_SYMBOL_LENGTH: usize = 10;

// Financial constants
pub const BASIS_POINTS_DIVISOR: u16 = 10000;
pub const DEFAULT_COLLATERAL_RATIO: u16 = 15000;
pub const MIN_COLLATERAL_RATIO: u16 = 10000;
pub const MAX_COLLATERAL_RATIO: u16 = 30000;
pub const MAX_FEE_BPS: u16 = 1000;

// Oracle constants
pub const PRICE_DECIMALS: u8 = 6;
pub const PRICE_SCALE: u64 = 1_000_000;
pub const MAX_PRICE_AGE: i64 = 300;
pub const MAX_PRICE_CONFIDENCE: u64 = PRICE_SCALE / 100;

// Supply limits
pub const MIN_SUPPLY: u64 = 1_000;
pub const MAX_SUPPLY: u64 = 1_000_000_000;

// Time constants
pub const MIN_WITHDRAWAL_DELAY: i64 = 60;
pub const MAX_WITHDRAWAL_DELAY: i64 = 86400;

} // verus!
