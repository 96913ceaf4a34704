//! The stablecoin account: its metadata, settings and statistics.

use vstd::prelude::*;

use super::{StateAccount, DISCRIMINATOR_LENGTH, PUBKEY_LENGTH};
use crate::address::Address;
use crate::error::{Error, StableFunError};

verus! {

pub const MAX_NAME_LENGTH: usize = 32;
pub const MAX_SYMBOL_LENGTH: usize = 10;
pub const MAX_CURRENCY_LENGTH: usize = 10;

/// The configurable settings of a stablecoin.
#[derive(Debug, Clone, Copy, PartialEq, Eq, Structural, Default)]
pub struct StablecoinSettings {
    /// Fee in basis points (1/10000)
    pub fee_basis_points: u16,
    /// Maximum supply of stablecoins
    pub max_supply: u64,
    /// Minimum collateral ratio (e.g. 150%)
    pub min_collateral_ratio: u16,
    /// Whether minting is paused
    pub mint_paused: bool,
    /// Whether redeeming is paused
    pub redeem_paused: bool,
}

/// Running totals of a stablecoin.
#[derive(Debug, Clone, Copy, PartialEq, Eq, Default)]
pub struct StablecoinStats {
    /// Total amount of stablecoins minted
    pub total_minted: u64,
    /// Total amount of stablecoins burned
    pub total_burned: u64,
    /// Total fees collected
    pub total_fees: u64,
    /// Number of unique holders
    pub holder_count: u32,
    /// Reserved for future use
    pub reserved: [u8; 24],
}

/// The account of a stablecoin.
#[derive(Debug, Clone, Default)]
pub struct StablecoinMint {
    /// The authority who can update settings
    pub authority: Address,
    /// Name of the stablecoin
    pub name: String,
    /// Symbol of the stablecoin (e.g., "USDX")
    pub symbol: String,
    /// Target fiat currency (e.g., "USD", "MXN")
    pub target_currency: String,
    /// The SPL token mint address
    pub token_mint: Address,
    /// The stablebond token mint used as collateral
    pub stablebond_mint: Address,
    /// The oracle feed for price data
    pub price_feed: Address,
    /// Vault holding the collateral
    pub vault: Address,
    /// Current supply of the stablecoin
    pub current_supply: u64,
    /// Configuration settings
    pub settings: StablecoinSettings,
    /// Statistics and metrics
    pub stats: StablecoinStats,
    /// Timestamp when the stablecoin was created
    pub created_at: i64,
    /// Last time settings were updated
    pub last_updated: i64,
}

impl StateAccount for StablecoinMint {
    const LEN: usize = DISCRIMINATOR_LENGTH + PUBKEY_LENGTH + 4 + MAX_NAME_LENGTH + 4 + MAX_SYMBOL_LENGTH
        + 4 + MAX_CURRENCY_LENGTH + PUBKEY_LENGTH + PUBKEY_LENGTH + PUBKEY_LENGTH + PUBKEY_LENGTH + 8 + 32
        + 40 + 8 + 8;
}

/// The fee on `amount` at `fee_basis_points`: `amount * fee / 10000`,
/// rounded down.
pub open spec fn spec_fee(amount: u64, fee_basis_points: u16) -> int {
    amount * fee_basis_points / 10000
}

/// `counter + amount` where it fits in a `u64`, else `counter` unchanged.
pub open spec fn add_or_keep(counter: u64, amount: Option<u64>) -> u64 {
    match amount {
        Some(a) => if counter + a <= u64::MAX {
            (counter + a) as u64
        } else {
            counter
        },
        None => counter,
    }
}

/// Whether `amount` more tokens may be minted: minting is not paused and
/// the supply stays within the maximum.
pub open spec fn spec_can_mint(mint: StablecoinMint, amount: u64) -> bool {
    !mint.settings.mint_paused && mint.current_supply + amount <= mint.settings.max_supply
}

/// Everything but the statistics of two stablecoin accounts agrees.
pub open spec fn same_but_stats(a: StablecoinMint, b: StablecoinMint) -> bool {
    a == StablecoinMint { stats: a.stats, ..b }
}

/// `add_or_keep` adds, or keeps the counter where adding overflows.
fn checked_add_or_keep(counter: u64, amount: Option<u64>) -> (r: u64)
    ensures
        r == add_or_keep(counter, amount),
{
    match amount {
        Some(a) => match counter.checked_add(a) {
            Some(v) => v,
            None => counter,
        },
        None => counter,
    }
}

impl StablecoinMint {
    /// A name is valid when it is not empty and at most 32 bytes long.
    pub fn validate_name(name: &str) -> (r: Result<(), Error>)
        ensures
            r == (if name@.len() != 0 && name.len() <= MAX_NAME_LENGTH {
                Ok::<(), Error>(())
            } else {
                Err(Error::StableFun(StableFunError::InvalidName))
            }),
    {
        if !name.is_empty() && name.len() <= MAX_NAME_LENGTH {
            Ok(())
        } else {
            Err(Error::StableFun(StableFunError::InvalidName))
        }
    }

    /// A symbol is valid when it is not empty and at most 10 bytes long.
    pub fn validate_symbol(symbol: &str) -> (r: Result<(), Error>)
        ensures
            r == (if symbol@.len() != 0 && symbol.len() <= MAX_SYMBOL_LENGTH {
                Ok::<(), Error>(())
            } else {
                Err(Error::StableFun(StableFunError::InvalidSymbol))
            }),
    {
        if !symbol.is_empty() && symbol.len() <= MAX_SYMBOL_LENGTH {
            Ok(())
        } else {
            Err(Error::StableFun(StableFunError::InvalidSymbol))
        }
    }

    /// A currency is valid when it is not empty and at most 10 bytes long.
    pub fn validate_currency(currency: &str) -> (r: Result<(), Error>)
        ensures
            r == (if currency@.len() != 0 && currency.len() <= MAX_CURRENCY_LENGTH {
                Ok::<(), Error>(())
            } else {
                Err(Error::StableFun(StableFunError::InvalidCurrency))
            }),
    {
        if !currency.is_empty() && currency.len() <= MAX_CURRENCY_LENGTH {
            Ok(())
        } else {
            Err(Error::StableFun(StableFunError::InvalidCurrency))
        }
    }

    /// Whether minting or redeeming is paused.
    pub fn is_paused(&self) -> (r: bool)
        ensures
            r == (self.settings.mint_paused || self.settings.redeem_paused),
    {
        self.settings.mint_paused || self.settings.redeem_paused
    }

    /// Adds the given amounts to the minted, burned and fee totals; a total
    /// that would overflow is left as it was.
    pub fn update_stats(&mut self, mint_amount: Option<u64>, burn_amount: Option<u64>, fees: Option<u64>)
        ensures
            final(self).stats == (StablecoinStats {
                total_minted: add_or_keep(old(self).stats.total_minted, mint_amount),
                total_burned: add_or_keep(old(self).stats.total_burned, burn_amount),
                total_fees: add_or_keep(old(self).stats.total_fees, fees),
                ..old(self).stats
            }),
            same_but_stats(*final(self), *old(self)),
    {
        self.stats.total_minted = checked_add_or_keep(self.stats.total_minted, mint_amount);
        self.stats.total_burned = checked_add_or_keep(self.stats.total_burned, burn_amount);
        self.stats.total_fees = checked_add_or_keep(self.stats.total_fees, fees);
    }

    /// The fee on `amount`, or `MathOverflow` where `amount * fee` does not
    /// fit in a `u64`.
    pub fn calculate_fee(&self, amount: u64) -> (r: Result<u64, Error>)
        ensures
            amount * self.settings.fee_basis_points <= u64::MAX ==> r == Ok::<u64, Error>(
                spec_fee(amount, self.settings.fee_basis_points) as u64,
            ),
            amount * self.settings.fee_basis_points > u64::MAX ==> r == Err::<u64, Error>(
                Error::StableFun(StableFunError::MathOverflow),
            ),
    {
        match amount.checked_mul(self.settings.fee_basis_points as u64) {
            Some(product) => Ok(product / 10000),
            None => Err(Error::StableFun(StableFunError::MathOverflow)),
        }
    }

    /// Whether minting is paused.
    pub fn is_mint_paused(&self) -> (r: bool)
        ensures
            r == self.settings.mint_paused,
    {
        self.settings.mint_paused
    }

    /// Whether redeeming is paused.
    pub fn is_redeem_paused(&self) -> (r: bool)
        ensures
            r == self.settings.redeem_paused,
    {
        self.settings.redeem_paused
    }

    /// Whether `amount` more tokens may be minted.
    pub fn can_mint(&self, amount: u64) -> (r: bool)
        ensures
            r == spec_can_mint(*self, amount),
    {
        if self.is_mint_paused() {
            return false;
        }
        match self.current_supply.checked_add(amount) {
            Some(new_supply) => new_supply <= self.settings.max_supply,
            None => false,
        }
    }
}

/// A mint of some amount that `can_mint` allows is allowed for every
/// smaller amount, never while minting is paused, and keeps the supply
/// within the maximum.
pub proof fn lemma_can_mint_smaller(mint: StablecoinMint, amount: u64, smaller: u64)
    requires
        spec_can_mint(mint, amount),
        smaller <= amount,
    ensures
        spec_can_mint(mint, smaller),
        !mint.settings.mint_paused,
        mint.current_supply + amount <= mint.settings.max_supply,
{
}

/// The fee never exceeds the amount while the fee rate is at most 100%,
/// grows with the amount, and is zero at a zero rate.
pub proof fn lemma_fee_bounds(amount: u64, larger: u64, fee_basis_points: u16)
    requires
        fee_basis_points <= 10000,
        amount <= larger,
    ensures
        0 <= spec_fee(amount, fee_basis_points) <= amount,
        spec_fee(amount, fee_basis_points) <= spec_fee(larger, fee_basis_points),
        fee_basis_points == 0 ==> spec_fee(amount, fee_basis_points) == 0,
{
    assert(0 <= amount * fee_basis_points <= amount * 10000) by (nonlinear_arith)
        requires
            fee_basis_points <= 10000,
    ;
    assert(amount * fee_basis_points <= larger * fee_basis_points) by (nonlinear_arith)
        requires
            amount <= larger,
    ;
    assert((amount * fee_basis_points) / 10000 <= (amount * 10000) / 10000) by (nonlinear_arith)
        requires
            0 <= amount * fee_basis_points <= amount * 10000,
    ;
    assert((amount * fee_basis_points) / 10000 <= (larger * fee_basis_points) / 10000) by (nonlinear_arith)
        requires
            0 <= amount * fee_basis_points <= larger * fee_basis_points,
    ;
}

/// Statistics only grow: `update_stats` never lowers a total.
pub proof fn lemma_stats_never_decrease(stats: StablecoinStats, mint_amount: Option<u64>, burn_amount: Option<u64>, fees: Option<u64>)
    ensures
        add_or_keep(stats.total_minted, mint_amount) >= stats.total_minted,
        add_or_keep(stats.total_burned, burn_amount) >= stats.total_burned,
        add_or_keep(stats.total_fees, fees) >= stats.total_fees,
{
}

} // verus!
