//! Utilities: arithmetic, oracle prices, stablebonds, validation and
//! program-derived addresses.

pub mod common;
pub mod math;
pub mod oracle;
pub mod oracle_utils;
pub mod pda;
pub mod stablebond;
pub mod switchboard;
pub mod token;
pub mod validation;

pub use common::{calculate_percentage, get_current_timestamp, verify_account_owner};
pub use oracle_utils::{get_validated_price, is_price_stale};
pub use pda::{find_mint_authority_address, find_stablecoin_mint_address, find_vault_address};

use vstd::prelude::*;

verus! {

pub const PRICE_DECIMALS: u8 = 6;
pub const MAX_PRICE_STALENESS: i64 = 300;
pub const BASIS_POINTS_DIVISOR: u16 = 10000;
pub const MINIMUM_LIQUIDITY: u64 = 1000;

} // verus!
