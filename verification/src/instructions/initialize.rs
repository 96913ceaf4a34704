//! Creating a stablecoin: its account and its collateral vault.

use vstd::prelude::*;

use crate::utils::oracle::AggregatorState;

use crate::address::Address;
use crate::chain::clock_unix_timestamp;
use crate::error::{Error, StableFunError};
use crate::instructions::update::settings_within_bounds;
use crate::state::stablecoin::{StablecoinMint, StablecoinSettings, StablecoinStats};
use crate::state::vault::{ratio_is_current, StablecoinVault};

verus! {

pub const MIN_NAME_LENGTH: usize = 3;
pub const MIN_SYMBOL_LENGTH: usize = 2;
pub const DEFAULT_COLLATERAL_RATIO: u16 = 15000;

/// The fee of a new stablecoin, in basis points (0.3%).
pub const DEFAULT_FEE_BASIS_POINTS: u16 = 30;

/// The accounts of a new stablecoin, by address: the signing authority,
/// the stablecoin account, its token mint, the stablebond mint of its
/// collateral, its vault, the vault's token account, and the price feed.
#[derive(Debug, Clone, Copy, PartialEq, Eq)]
pub struct Initialize {
    pub authority: Address,
    pub stablecoin_mint: Address,
    pub token_mint: Address,
    pub stablebond_mint: Address,
    pub vault: Address,
    pub vault_token_account: Address,
    pub price_feed: Address,
}

/// What the creation of a stablecoin reports.
#[derive(Debug, Clone)]
pub struct StablecoinInitialized {
    pub stablecoin_mint: Address,
    pub authority: Address,
    pub name: String,
    pub symbol: String,
    pub target_currency: String,
}

/// The settings of a new stablecoin: a 150% minimum ratio, a 0.3% fee, no
/// supply limit, nothing paused.
pub open spec fn default_settings() -> StablecoinSettings {
    StablecoinSettings {
        min_collateral_ratio: DEFAULT_COLLATERAL_RATIO,
        fee_basis_points: DEFAULT_FEE_BASIS_POINTS,
        max_supply: u64::MAX,
        mint_paused: false,
        redeem_paused: false,
    }
}

/// The statistics of a new stablecoin: all zero.
pub open spec fn zero_stats(stats: StablecoinStats) -> bool {
    &&& stats.total_minted == 0
    &&& stats.total_burned == 0
    &&& stats.total_fees == 0
    &&& stats.holder_count == 0
    &&& stats.reserved@ == Seq::new(24, |i: int| 0u8)
}

/// Whether the inputs of a new stablecoin pass the instruction's checks,
/// and which error it gives where they do not: the name, the symbol, the
/// currency, then the price feed's latest confirmed round must have
/// opened.
pub open spec fn spec_initialize_check(name: Seq<char>, symbol: Seq<char>, target_currency: Seq<char>, round_open_timestamp: i64) -> Result<(), Error> {
    if (vstd::utf8::encode_utf8(name).len() as usize) < MIN_NAME_LENGTH {
        Err(Error::StableFun(StableFunError::NameTooShort))
    } else if (vstd::utf8::encode_utf8(symbol).len() as usize) < MIN_SYMBOL_LENGTH {
        Err(Error::StableFun(StableFunError::SymbolTooShort))
    } else if target_currency.len() == 0 {
        Err(Error::StableFun(StableFunError::InvalidCurrency))
    } else if round_open_timestamp <= 0 {
        Err(Error::StableFun(StableFunError::InvalidOracle))
    } else {
        Ok(())
    }
}

/// The stablecoin account, vault and report of a stablecoin created at
/// time `now` from `accounts`.
pub open spec fn initialized_ok(
    accounts: Initialize,
    vault_bump: u8,
    name: Seq<char>,
    symbol: Seq<char>,
    target_currency: Seq<char>,
    now: i64,
    mint: StablecoinMint,
    vault: StablecoinVault,
    event: StablecoinInitialized,
) -> bool {
    &&& mint.authority == accounts.authority
    &&& mint.name@ == name
    &&& mint.symbol@ == symbol
    &&& mint.target_currency@ == target_currency
    &&& mint.token_mint == accounts.token_mint
    &&& mint.stablebond_mint == accounts.stablebond_mint
    &&& mint.price_feed == accounts.price_feed
    &&& mint.vault == accounts.vault
    &&& mint.current_supply == 0
    &&& mint.settings == default_settings()
    &&& zero_stats(mint.stats)
    &&& mint.created_at == now
    &&& mint.last_updated == now
    &&& vault == (StablecoinVault {
        stablecoin_mint: accounts.stablecoin_mint,
        authority: accounts.authority,
        collateral_account: accounts.vault_token_account,
        total_collateral: 0,
        total_value_locked: 0,
        current_ratio: 0,
        last_deposit_time: now,
        last_withdrawal_time: now,
        deposit_count: 0,
        withdrawal_count: 0,
        bump: vault_bump,
    })
    &&& event.stablecoin_mint == accounts.stablecoin_mint
    &&& event.authority == accounts.authority
    &&& event.name@ == name
    &&& event.symbol@ == symbol
    &&& event.target_currency@ == target_currency
}

/// Creates a stablecoin by the clock's time, with the round the price feed
/// last confirmed; where the clock cannot be read (after the checks),
/// `ClockUnavailable`.
pub fn handler(
    accounts: &Initialize,
    price_feed: &AggregatorState,
    vault_bump: u8,
    name: String,
    symbol: String,
    target_currency: String,
    initial_supply: u64,
) -> (r: Result<(StablecoinMint, StablecoinVault, StablecoinInitialized), Error>)
    ensures
        ({
            let opened = price_feed.latest_confirmed_round.round_open_timestamp;
            match spec_initialize_check(name@, symbol@, target_currency@, opened) {
                Err(e) => r matches Err(e2) && e2 == e,
                Ok(_) => match r {
                    Err(e) => e == Error::ClockUnavailable,
                    Ok((mint, vault, event)) => exists|now: i64|
                        initialized_ok(*accounts, vault_bump, name@, symbol@, target_currency@, now, mint, vault, event),
                },
            }
        }),
{
    let opened = price_feed.latest_confirmed_round.round_open_timestamp;
    match check_inputs(&name, &symbol, &target_currency, opened) {
        Ok(_) => {},
        Err(e) => return Err(e),
    }
    match clock_unix_timestamp() {
        Some(now) => handler_at(accounts, opened, now, vault_bump, name, symbol, target_currency, initial_supply),
        None => Err(Error::ClockUnavailable),
    }
}

/// The checks on the inputs of a new stablecoin.
pub fn check_inputs(name: &String, symbol: &String, target_currency: &String, round_open_timestamp: i64) -> (r: Result<(), Error>)
    ensures
        r == spec_initialize_check(name@, symbol@, target_currency@, round_open_timestamp),
{
    if name.as_str().len() < MIN_NAME_LENGTH {
        return Err(Error::StableFun(StableFunError::NameTooShort));
    }
    if symbol.as_str().len() < MIN_SYMBOL_LENGTH {
        return Err(Error::StableFun(StableFunError::SymbolTooShort));
    }
    if target_currency.as_str().is_empty() {
        return Err(Error::StableFun(StableFunError::InvalidCurrency));
    }
    if round_open_timestamp <= 0 {
        return Err(Error::StableFun(StableFunError::InvalidOracle));
    }
    Ok(())
}

/// Creates a stablecoin at time `now`, given when the price feed's latest
/// confirmed round opened. The initial supply is not used: a new
/// stablecoin starts with none.
pub fn handler_at(
    accounts: &Initialize,
    round_open_timestamp: i64,
    now: i64,
    vault_bump: u8,
    name: String,
    symbol: String,
    target_currency: String,
    initial_supply: u64,
) -> (r: Result<(StablecoinMint, StablecoinVault, StablecoinInitialized), Error>)
    ensures
        spec_initialize_check(name@, symbol@, target_currency@, round_open_timestamp) is Err ==> (r matches Err(
            e,
        ) && spec_initialize_check(name@, symbol@, target_currency@, round_open_timestamp) == Err::<(), Error>(e)),
        spec_initialize_check(name@, symbol@, target_currency@, round_open_timestamp) is Ok ==> (r matches Ok(
            (mint, vault, event),
        ) && initialized_ok(*accounts, vault_bump, name@, symbol@, target_currency@, now, mint, vault, event)),
{
    match check_inputs(&name, &symbol, &target_currency, round_open_timestamp) {
        Ok(_) => {},
        Err(e) => return Err(e),
    }
    let event = StablecoinInitialized {
        stablecoin_mint: accounts.stablecoin_mint,
        authority: accounts.authority,
        name: name.clone(),
        symbol: symbol.clone(),
        target_currency: target_currency.clone(),
    };
    let stablecoin_mint = StablecoinMint {
        authority: accounts.authority,
        name,
        symbol,
        target_currency,
        token_mint: accounts.token_mint,
        stablebond_mint: accounts.stablebond_mint,
        price_feed: accounts.price_feed,
        vault: accounts.vault,
        current_supply: 0,
        settings: StablecoinSettings {
            min_collateral_ratio: DEFAULT_COLLATERAL_RATIO,
            fee_basis_points: DEFAULT_FEE_BASIS_POINTS,
            max_supply: u64::MAX,
            mint_paused: false,
            redeem_paused: false,
        },
        stats: StablecoinStats {
            total_minted: 0,
            total_burned: 0,
            total_fees: 0,
            holder_count: 0,
            reserved: [0u8, 0, 0, 0, 0, 0, 0, 0, 0, 0, 0, 0, 0, 0, 0, 0, 0, 0, 0, 0, 0, 0, 0, 0],
        },
        created_at: now,
        last_updated: now,
    };
    let vault = StablecoinVault {
        stablecoin_mint: accounts.stablecoin_mint,
        authority: accounts.authority,
        collateral_account: accounts.vault_token_account,
        total_collateral: 0,
        total_value_locked: 0,
        current_ratio: 0,
        last_deposit_time: now,
        last_withdrawal_time: now,
        deposit_count: 0,
        withdrawal_count: 0,
        bump: vault_bump,
    };
    assert(stablecoin_mint.stats.reserved@ =~= Seq::new(24, |i: int| 0u8));
    Ok((stablecoin_mint, vault, event))
}

/// A new stablecoin starts within the program's bounds and unpaused, with
/// a vault whose recorded ratio is current.
pub proof fn lemma_new_stablecoin_within_bounds(
    accounts: Initialize,
    vault_bump: u8,
    name: Seq<char>,
    symbol: Seq<char>,
    target_currency: Seq<char>,
    now: i64,
    mint: StablecoinMint,
    vault: StablecoinVault,
    event: StablecoinInitialized,
)
    requires
        initialized_ok(accounts, vault_bump, name, symbol, target_currency, now, mint, vault, event),
    ensures
        settings_within_bounds(mint),
        !mint.settings.mint_paused && !mint.settings.redeem_paused,
        ratio_is_current(vault),
{
}

} // verus!
