//! A stablecoin program: stablecoins backed by stablebond collateral held
//! in a vault, priced by an oracle feed. The library holds the program's
//! state accounts, its arithmetic, its validation rules and the decisions
//! of each instruction, with their contracts.

pub mod address;
pub mod chain;
pub mod constants;
pub mod error;
pub mod instructions;
pub mod state;
pub mod utils;

use vstd::prelude::*;

use crate::utils::oracle::AggregatorState;

use crate::constants::{MIN_COLLATERAL_RATIO, MIN_NAME_LENGTH, MIN_SYMBOL_LENGTH};
use crate::error::{Error, StableFunError};
use crate::instructions::initialize::{spec_initialize_check, Initialize, StablecoinInitialized};
use crate::instructions::mint::{mint_reaches_price, MintPlan, MintStablecoin};
use crate::instructions::redeem::{redeem_reaches_price, RedeemPlan, RedeemStablecoin};
use crate::instructions::update::{settings_update_ok, spec_authorized, SettingsUpdateEvent, UpdateSettings, UpdateSettingsParams};
use crate::state::{StablecoinMint, StablecoinVault};

verus! {

/// The entry check of `update_settings`: a new minimum collateral ratio
/// below 100% is refused before anything else.
pub open spec fn spec_entry_ratio_check(params: UpdateSettingsParams) -> Result<(), Error> {
    match params.min_collateral_ratio {
        Some(r) => if r >= MIN_COLLATERAL_RATIO {
            Ok(())
        } else {
            Err(Error::StableFun(StableFunError::CollateralRatioTooLow))
        },
        None => Ok(()),
    }
}

/// Creates a stablecoin: the name must have at least three bytes and the
/// symbol at least two, then the instruction's own checks follow.
pub fn initialize(
    accounts: &Initialize,
    price_feed: &AggregatorState,
    vault_bump: u8,
    name: String,
    symbol: String,
    target_currency: String,
    initial_supply: u64,
) -> (r: Result<(StablecoinMint, StablecoinVault, StablecoinInitialized), Error>)
    ensures
        ({
            let opened = price_feed.latest_confirmed_round.round_open_timestamp;
            match spec_initialize_check(name@, symbol@, target_currency@, opened) {
                Err(e) => r matches Err(e2) && e2 == e,
                Ok(_) => match r {
                    Err(e) => e == Error::ClockUnavailable,
                    Ok((mint, vault, event)) => exists|now: i64|
                        crate::instructions::initialize::initialized_ok(
                            *accounts,
                            vault_bump,
                            name@,
                            symbol@,
                            target_currency@,
                            now,
                            mint,
                            vault,
                            event,
                        ),
                },
            }
        }),
{
    if name.as_str().len() < MIN_NAME_LENGTH {
        return Err(Error::StableFun(StableFunError::NameTooShort));
    }
    if symbol.as_str().len() < MIN_SYMBOL_LENGTH {
        return Err(Error::StableFun(StableFunError::SymbolTooShort));
    }
    crate::instructions::initialize::handler(
        accounts,
        price_feed,
        vault_bump,
        name,
        symbol,
        target_currency,
        initial_supply,
    )
}

/// Checks and plans a mint: the account constraints come first, then a
/// zero amount is refused, then the mint is planned.
pub fn mint(
    accounts: &MintStablecoin,
    stablecoin_mint: &StablecoinMint,
    vault: &StablecoinVault,
    price_feed: &AggregatorState,
    amount: u64,
) -> (r: Result<MintPlan, Error>)
    requires
        crate::instructions::mint::spec_mint_constraints(*accounts, *stablecoin_mint, *vault) is Ok
            && mint_reaches_price(*stablecoin_mint, amount) ==> accounts.token_mint_decimals <= 19,
    ensures
        crate::instructions::mint::spec_mint_constraints(*accounts, *stablecoin_mint, *vault) is Err ==> r
            == Err::<MintPlan, Error>(
            crate::instructions::mint::spec_mint_constraints(*accounts, *stablecoin_mint, *vault)->Err_0,
        ),
        crate::instructions::mint::spec_mint_constraints(*accounts, *stablecoin_mint, *vault) is Ok && amount == 0
            ==> r == Err::<MintPlan, Error>(Error::StableFun(StableFunError::InvalidAmount)),
        crate::instructions::mint::spec_mint_constraints(*accounts, *stablecoin_mint, *vault) is Ok && amount > 0
            ==> exists|price: Result<u64, Error>|
                crate::utils::switchboard::feed_price_outcome(*price_feed, crate::instructions::ORACLE_MAX_STALENESS, price) &&
            r == crate::instructions::mint::spec_mint_plan(
                *stablecoin_mint,
                amount,
                price,
                accounts.token_mint_decimals,
            ),
{
    match accounts.check_constraints(stablecoin_mint, vault) {
        Ok(_) => {},
        Err(e) => return Err(e),
    }
    if amount == 0 {
        return Err(Error::StableFun(StableFunError::InvalidAmount));
    }
    crate::instructions::mint::prepare(accounts, stablecoin_mint, vault, price_feed, amount)
}

/// Plans a redemption: a zero amount is refused first.
pub fn redeem(
    accounts: &RedeemStablecoin,
    stablecoin_mint: &StablecoinMint,
    vault: &StablecoinVault,
    price_feed: &AggregatorState,
    amount: u64,
) -> (r: Result<RedeemPlan, Error>)
    requires
        redeem_reaches_price(*stablecoin_mint, amount, accounts.user_token_account.amount)
            ==> accounts.token_mint_decimals <= 19,
    ensures
        amount == 0 ==> r == Err::<RedeemPlan, Error>(Error::StableFun(StableFunError::InvalidAmount)),
        amount > 0 ==> exists|price: Result<u64, Error>|
                crate::utils::switchboard::feed_price_outcome(*price_feed, crate::instructions::ORACLE_MAX_STALENESS, price) &&
            r == crate::instructions::redeem::spec_redeem_plan(
                *stablecoin_mint,
                *vault,
                amount,
                accounts.user_token_account.amount,
                price,
                accounts.token_mint_decimals,
            ),
{
    if amount == 0 {
        return Err(Error::StableFun(StableFunError::InvalidAmount));
    }
    crate::instructions::redeem::prepare(accounts, stablecoin_mint, vault, price_feed, amount)
}

/// Updates a stablecoin's settings: the signer must be the authority, then
/// a new minimum ratio below 100% is refused, both with the account
/// unchanged.
pub fn update_settings(
    accounts: &UpdateSettings,
    stablecoin_mint: &mut StablecoinMint,
    params: UpdateSettingsParams,
) -> (r: Result<SettingsUpdateEvent, Error>)
    ensures
        spec_authorized(accounts.authority, *old(stablecoin_mint)) is Err ==> r == Err::<
            SettingsUpdateEvent,
            Error,
        >(spec_authorized(accounts.authority, *old(stablecoin_mint))->Err_0) && *final(stablecoin_mint)
            == *old(stablecoin_mint),
        spec_authorized(accounts.authority, *old(stablecoin_mint)) is Ok && spec_entry_ratio_check(params) is Err
            ==> r == Err::<SettingsUpdateEvent, Error>(spec_entry_ratio_check(params)->Err_0)
            && *final(stablecoin_mint) == *old(stablecoin_mint),
        spec_entry_ratio_check(params) is Ok && r == Err::<SettingsUpdateEvent, Error>(Error::ClockUnavailable)
            ==> *final(stablecoin_mint) == *old(stablecoin_mint),
        spec_entry_ratio_check(params) is Ok && r != Err::<SettingsUpdateEvent, Error>(Error::ClockUnavailable)
            ==> exists|now: i64|
            settings_update_ok(accounts, *old(stablecoin_mint), params, now, *final(stablecoin_mint), r),
{
    match accounts.check_constraints(stablecoin_mint) {
        Ok(_) => {},
        Err(e) => {
            assert(settings_update_ok(accounts, *old(stablecoin_mint), params, 0, *stablecoin_mint, Err(e)));
            return Err(e);
        },
    }
    let ratio = match params.min_collateral_ratio {
        Some(r) => r,
        None => MIN_COLLATERAL_RATIO,
    };
    if ratio < MIN_COLLATERAL_RATIO {
        return Err(Error::StableFun(StableFunError::CollateralRatioTooLow));
    }
    crate::instructions::update::handler(accounts, stablecoin_mint, params)
}

} // verus!
