//! Updating a stablecoin's settings and metadata.

use vstd::prelude::*;

use crate::address::Address;
use crate::chain::clock_unix_timestamp;
use crate::error::Error;
use crate::state::stablecoin::{StablecoinMint, StablecoinSettings};

verus! {

/// Error codes of the update instructions.
#[derive(Debug, Clone, Copy, PartialEq, Eq, Structural)]
pub enum UpdateError {
    UnauthorizedUpdate,
    InvalidCollateralRatio,
    InvalidFee,
    InvalidMaxSupply,
    InvalidName,
    InvalidSymbol,
}

/// The lowest minimum collateral ratio a stablecoin may have (100%).
pub const SETTINGS_MIN_COLLATERAL_RATIO: u16 = 10000;

/// The highest fee a stablecoin may charge (10%).
pub const SETTINGS_MAX_FEE_BPS: u16 = 1000;

/// The longest name and symbol, in bytes, that metadata updates accept.
pub const METADATA_MAX_NAME_LENGTH: usize = 32;
pub const METADATA_MAX_SYMBOL_LENGTH: usize = 10;

/// The accounts of a settings update: the signing authority and the
/// address of the stablecoin account.
#[derive(Debug, Clone, Copy, PartialEq, Eq)]
pub struct UpdateSettings {
    pub authority: Address,
    pub stablecoin_mint: Address,
}

/// The settings to change; `None` keeps a setting as it is.
#[derive(Debug, Clone, Copy, PartialEq, Eq, Structural)]
pub struct UpdateSettingsParams {
    pub min_collateral_ratio: Option<u16>,
    pub fee_basis_points: Option<u16>,
    pub max_supply: Option<u64>,
    pub mint_paused: Option<bool>,
    pub redeem_paused: Option<bool>,
}

/// The metadata to change; `None` keeps it as it is.
#[derive(Debug, Clone)]
pub struct UpdateMetadataParams {
    pub name: Option<String>,
    pub symbol: Option<String>,
    pub icon_uri: Option<String>,
}

/// The accounts of a metadata update: the signing authority and the
/// address of the stablecoin account.
#[derive(Debug, Clone, Copy, PartialEq, Eq)]
pub struct UpdateMetadata {
    pub authority: Address,
    pub stablecoin_mint: Address,
}

/// What a settings update reports.
#[derive(Debug, Clone, Copy, PartialEq, Eq)]
pub struct SettingsUpdateEvent {
    pub stablecoin_mint: Address,
    pub authority: Address,
    pub old_settings: StablecoinSettings,
    pub new_settings: StablecoinSettings,
    pub timestamp: i64,
}

/// What a metadata update reports.
#[derive(Debug, Clone)]
pub struct MetadataUpdateEvent {
    pub stablecoin_mint: Address,
    pub authority: Address,
    pub name: String,
    pub symbol: String,
    pub timestamp: i64,
}

/// The length in bytes of a string with the given characters.
pub open spec fn str_len(chars: Seq<char>) -> usize {
    vstd::utf8::encode_utf8(chars).len() as usize
}

/// Only the stablecoin's authority may update it.
pub open spec fn spec_authorized(authority: Address, mint: StablecoinMint) -> Result<(), Error> {
    if mint.authority@ == authority@ {
        Ok(())
    } else {
        Err(Error::Update(UpdateError::UnauthorizedUpdate))
    }
}

/// The stablecoin account and the result after a settings update at time
/// `now`, applied in order: the minimum collateral ratio (at least 100%),
/// the fee (at most 10%), the maximum supply (at least the current supply),
/// the pause flags, the update time. A refused value ends the update with
/// its error, the settings before it already applied.
pub open spec fn spec_update_settings(mint: StablecoinMint, params: UpdateSettingsParams, now: i64) -> (StablecoinMint, Result<(), Error>) {
    let s0 = mint.settings;
    if params.min_collateral_ratio matches Some(r) && r < SETTINGS_MIN_COLLATERAL_RATIO {
        (mint, Err(Error::Update(UpdateError::InvalidCollateralRatio)))
    } else {
        let s1 = match params.min_collateral_ratio {
            Some(r) => StablecoinSettings { min_collateral_ratio: r, ..s0 },
            None => s0,
        };
        if params.fee_basis_points matches Some(f) && f > SETTINGS_MAX_FEE_BPS {
            (StablecoinMint { settings: s1, ..mint }, Err(Error::Update(UpdateError::InvalidFee)))
        } else {
            let s2 = match params.fee_basis_points {
                Some(f) => StablecoinSettings { fee_basis_points: f, ..s1 },
                None => s1,
            };
            if params.max_supply matches Some(m) && m < mint.current_supply {
                (StablecoinMint { settings: s2, ..mint }, Err(Error::Update(UpdateError::InvalidMaxSupply)))
            } else {
                let s3 = match params.max_supply {
                    Some(m) => StablecoinSettings { max_supply: m, ..s2 },
                    None => s2,
                };
                let s4 = match params.mint_paused {
                    Some(p) => StablecoinSettings { mint_paused: p, ..s3 },
                    None => s3,
                };
                let s5 = match params.redeem_paused {
                    Some(p) => StablecoinSettings { redeem_paused: p, ..s4 },
                    None => s4,
                };
                (StablecoinMint { settings: s5, last_updated: now, ..mint }, Ok(()))
            }
        }
    }
}

/// Whether a new name is acceptable: not empty, at most 32 bytes.
pub open spec fn valid_new_name(name: Seq<char>) -> bool {
    name.len() != 0 && str_len(name) <= METADATA_MAX_NAME_LENGTH
}

/// Whether a new symbol is acceptable: not empty, at most 10 bytes.
pub open spec fn valid_new_symbol(symbol: Seq<char>) -> bool {
    symbol.len() != 0 && str_len(symbol) <= METADATA_MAX_SYMBOL_LENGTH
}

/// The settings of a stablecoin are within the program's bounds: a
/// minimum ratio of at least 100%, a fee of at most 10%, and a supply
/// within the maximum.
pub open spec fn settings_within_bounds(mint: StablecoinMint) -> bool {
    &&& mint.settings.min_collateral_ratio >= SETTINGS_MIN_COLLATERAL_RATIO
    &&& mint.settings.fee_basis_points <= SETTINGS_MAX_FEE_BPS
    &&& mint.current_supply <= mint.settings.max_supply
}

impl UpdateSettings {
    /// The signer must be the stablecoin's authority.
    pub fn check_constraints(&self, stablecoin_mint: &StablecoinMint) -> (r: Result<(), Error>)
        ensures
            r == spec_authorized(self.authority, *stablecoin_mint),
    {
        if stablecoin_mint.authority.same_as(&self.authority) {
            Ok(())
        } else {
            Err(Error::Update(UpdateError::UnauthorizedUpdate))
        }
    }
}

impl UpdateMetadata {
    /// The signer must be the stablecoin's authority.
    pub fn check_constraints(&self, stablecoin_mint: &StablecoinMint) -> (r: Result<(), Error>)
        ensures
            r == spec_authorized(self.authority, *stablecoin_mint),
    {
        if stablecoin_mint.authority.same_as(&self.authority) {
            Ok(())
        } else {
            Err(Error::Update(UpdateError::UnauthorizedUpdate))
        }
    }
}

/// Updates the settings by the clock's time: the authority is checked
/// first, then the clock is read (`ClockUnavailable` where it cannot be).
pub fn handler(accounts: &UpdateSettings, stablecoin_mint: &mut StablecoinMint, params: UpdateSettingsParams) -> (r: Result<SettingsUpdateEvent, Error>)
    ensures
        spec_authorized(accounts.authority, *old(stablecoin_mint)) is Err ==> r == Err::<
            SettingsUpdateEvent,
            Error,
        >(spec_authorized(accounts.authority, *old(stablecoin_mint))->Err_0) && *final(stablecoin_mint)
            == *old(stablecoin_mint),
        r == Err::<SettingsUpdateEvent, Error>(Error::ClockUnavailable) ==> *final(stablecoin_mint)
            == *old(stablecoin_mint),
        r != Err::<SettingsUpdateEvent, Error>(Error::ClockUnavailable) ==> exists|now: i64|
            settings_update_ok(accounts, *old(stablecoin_mint), params, now, *final(stablecoin_mint), r),
{
    match accounts.check_constraints(stablecoin_mint) {
        Ok(_) => {},
        Err(e) => {
            assert(settings_update_ok(accounts, *old(stablecoin_mint), params, 0, *stablecoin_mint, Err(e)));
            return Err(e);
        },
    }
    match clock_unix_timestamp() {
        Some(now) => handler_at(accounts, stablecoin_mint, params, now),
        None => Err(Error::ClockUnavailable),
    }
}

/// The outcome of a settings update at time `now`: an unauthorized signer
/// is refused with the account unchanged; otherwise the account is as
/// `spec_update_settings` gives it, and a successful update reports the
/// new settings (as both its old and new settings) at `now`.
pub open spec fn settings_update_ok(
    accounts: &UpdateSettings,
    before: StablecoinMint,
    params: UpdateSettingsParams,
    now: i64,
    after: StablecoinMint,
    r: Result<SettingsUpdateEvent, Error>,
) -> bool {
    match spec_authorized(accounts.authority, before) {
        Err(e) => r == Err::<SettingsUpdateEvent, Error>(e) && after == before,
        Ok(_) => {
            &&& after == spec_update_settings(before, params, now).0
            &&& match spec_update_settings(before, params, now).1 {
                Ok(_) => r == Ok::<SettingsUpdateEvent, Error>(
                    SettingsUpdateEvent {
                        stablecoin_mint: accounts.stablecoin_mint,
                        authority: accounts.authority,
                        old_settings: after.settings,
                        new_settings: after.settings,
                        timestamp: now,
                    },
                ),
                Err(e) => r == Err::<SettingsUpdateEvent, Error>(e),
            }
        },
    }
}

/// Updates the settings at time `now`.
pub fn handler_at(
    accounts: &UpdateSettings,
    stablecoin_mint: &mut StablecoinMint,
    params: UpdateSettingsParams,
    now: i64,
) -> (r: Result<SettingsUpdateEvent, Error>)
    ensures
        settings_update_ok(accounts, *old(stablecoin_mint), params, now, *final(stablecoin_mint), r),
{
    match accounts.check_constraints(stablecoin_mint) {
        Ok(_) => {},
        Err(e) => return Err(e),
    }
    if let Some(new_ratio) = params.min_collateral_ratio {
        if new_ratio < SETTINGS_MIN_COLLATERAL_RATIO {
            return Err(Error::Update(UpdateError::InvalidCollateralRatio));
        }
        stablecoin_mint.settings.min_collateral_ratio = new_ratio;
    }
    if let Some(new_fee) = params.fee_basis_points {
        if new_fee > SETTINGS_MAX_FEE_BPS {
            return Err(Error::Update(UpdateError::InvalidFee));
        }
        stablecoin_mint.settings.fee_basis_points = new_fee;
    }
    if let Some(new_max_supply) = params.max_supply {
        if new_max_supply < stablecoin_mint.current_supply {
            return Err(Error::Update(UpdateError::InvalidMaxSupply));
        }
        stablecoin_mint.settings.max_supply = new_max_supply;
    }
    if let Some(new_mint_paused) = params.mint_paused {
        stablecoin_mint.settings.mint_paused = new_mint_paused;
    }
    if let Some(new_redeem_paused) = params.redeem_paused {
        stablecoin_mint.settings.redeem_paused = new_redeem_paused;
    }
    stablecoin_mint.last_updated = now;
    Ok(SettingsUpdateEvent {
        stablecoin_mint: accounts.stablecoin_mint,
        authority: accounts.authority,
        old_settings: stablecoin_mint.settings,
        new_settings: stablecoin_mint.settings,
        timestamp: now,
    })
}

/// The stablecoin account and the result after a metadata update at time
/// `now`: a new name (if given) must be acceptable, then a new symbol (if
/// given); a refused value ends the update with its error, the name
/// already applied where it was accepted.
pub open spec fn spec_update_metadata(
    mint: StablecoinMint,
    name: Option<String>,
    symbol: Option<String>,
    now: i64,
) -> (StablecoinMint, Result<(), Error>) {
    if name matches Some(n) && !valid_new_name(n@) {
        (mint, Err(Error::Update(UpdateError::InvalidName)))
    } else {
        let m1 = match name {
            Some(n) => StablecoinMint { name: n, ..mint },
            None => mint,
        };
        if symbol matches Some(s) && !valid_new_symbol(s@) {
            (m1, Err(Error::Update(UpdateError::InvalidSymbol)))
        } else {
            let m2 = match symbol {
                Some(s) => StablecoinMint { symbol: s, ..m1 },
                None => m1,
            };
            (StablecoinMint { last_updated: now, ..m2 }, Ok(()))
        }
    }
}

/// The outcome of a metadata update at time `now`: an unauthorized signer
/// is refused with the account unchanged; otherwise the account is as
/// `spec_update_metadata` gives it, and a successful update reports the
/// account's new name and symbol at `now`.
pub open spec fn metadata_update_ok(
    accounts: &UpdateMetadata,
    before: StablecoinMint,
    name: Option<String>,
    symbol: Option<String>,
    now: i64,
    after: StablecoinMint,
    r: Result<MetadataUpdateEvent, Error>,
) -> bool {
    match spec_authorized(accounts.authority, before) {
        Err(e) => r matches Err(e2) && e2 == e && after == before,
        Ok(_) => {
            &&& after == spec_update_metadata(before, name, symbol, now).0
            &&& match spec_update_metadata(before, name, symbol, now).1 {
                Ok(_) => r matches Ok(ev) && ev.stablecoin_mint == accounts.stablecoin_mint
                    && ev.authority == accounts.authority && ev.name@ == after.name@ && ev.symbol@
                    == after.symbol@ && ev.timestamp == now,
                Err(e) => r matches Err(e2) && e2 == e,
            }
        },
    }
}

/// Updates the name and symbol by the clock's time: the authority is
/// checked first, then the clock is read (`ClockUnavailable` where it
/// cannot be).
pub fn update_metadata(accounts: &UpdateMetadata, stablecoin_mint: &mut StablecoinMint, params: UpdateMetadataParams) -> (r: Result<MetadataUpdateEvent, Error>)
    ensures
        spec_authorized(accounts.authority, *old(stablecoin_mint)) is Err ==> (r matches Err(e) && e
            == spec_authorized(accounts.authority, *old(stablecoin_mint))->Err_0) && *final(stablecoin_mint)
            == *old(stablecoin_mint),
        r matches Err(e) && e == Error::ClockUnavailable ==> *final(stablecoin_mint) == *old(stablecoin_mint),
        !(r matches Err(e) && e == Error::ClockUnavailable) ==> exists|now: i64|
            metadata_update_ok(
                accounts,
                *old(stablecoin_mint),
                params.name,
                params.symbol,
                now,
                *final(stablecoin_mint),
                r,
            ),
{
    match accounts.check_constraints(stablecoin_mint) {
        Ok(_) => {},
        Err(e) => {
            assert(metadata_update_ok(accounts, *old(stablecoin_mint), params.name, params.symbol, 0, *stablecoin_mint, Err(e)));
            return Err(e);
        },
    }
    match clock_unix_timestamp() {
        Some(now) => update_metadata_at(accounts, stablecoin_mint, params, now),
        None => Err(Error::ClockUnavailable),
    }
}

/// Updates the name and symbol at time `now`.
pub fn update_metadata_at(
    accounts: &UpdateMetadata,
    stablecoin_mint: &mut StablecoinMint,
    params: UpdateMetadataParams,
    now: i64,
) -> (r: Result<MetadataUpdateEvent, Error>)
    ensures
        metadata_update_ok(
            accounts,
            *old(stablecoin_mint),
            params.name,
            params.symbol,
            now,
            *final(stablecoin_mint),
            r,
        ),
{
    match accounts.check_constraints(stablecoin_mint) {
        Ok(_) => {},
        Err(e) => return Err(e),
    }
    let UpdateMetadataParams { name, symbol, icon_uri: _ } = params;
    if let Some(new_name) = name {
        if !(!new_name.as_str().is_empty() && new_name.as_str().len() <= METADATA_MAX_NAME_LENGTH) {
            return Err(Error::Update(UpdateError::InvalidName));
        }
        stablecoin_mint.name = new_name;
    }
    if let Some(new_symbol) = symbol {
        if !(!new_symbol.as_str().is_empty() && new_symbol.as_str().len() <= METADATA_MAX_SYMBOL_LENGTH) {
            return Err(Error::Update(UpdateError::InvalidSymbol));
        }
        stablecoin_mint.symbol = new_symbol;
    }
    stablecoin_mint.last_updated = now;
    Ok(MetadataUpdateEvent {
        stablecoin_mint: accounts.stablecoin_mint,
        authority: accounts.authority,
        name: stablecoin_mint.name.clone(),
        symbol: stablecoin_mint.symbol.clone(),
        timestamp: now,
    })
}

/// A successful settings update keeps a stablecoin within the program's
/// bounds: every value it sets was checked against them.
pub proof fn lemma_update_settings_keeps_bounds(mint: StablecoinMint, params: UpdateSettingsParams, now: i64)
    requires
        settings_within_bounds(mint),
        spec_update_settings(mint, params, now).1 is Ok,
    ensures
        settings_within_bounds(spec_update_settings(mint, params, now).0),
        spec_update_settings(mint, params, now).0.current_supply == mint.current_supply,
        spec_update_settings(mint, params, now).0.stats == mint.stats,
{
}

/// A settings update that gives no new values changes nothing but the
/// update time.
pub proof fn lemma_empty_update_only_touches_time(mint: StablecoinMint, now: i64)
    ensures
        ({
            let params = UpdateSettingsParams {
                min_collateral_ratio: None,
                fee_basis_points: None,
                max_supply: None,
                mint_paused: None,
                redeem_paused: None,
            };
            spec_update_settings(mint, params, now) == (StablecoinMint { last_updated: now, ..mint }, Ok::<(), Error>(()))
        }),
{
}

/// A successful settings update sets each given value and keeps each
/// value not given: every setting after the update is the parameter where
/// one was given and the old setting where none was, the pause flags
/// included; only the settings and the update time change.
pub proof fn lemma_update_settings_sets_given_values(mint: StablecoinMint, params: UpdateSettingsParams, now: i64)
    requires
        spec_update_settings(mint, params, now).1 is Ok,
    ensures
        ({
            let after = spec_update_settings(mint, params, now).0;
            let old = mint.settings;
            &&& after.settings.min_collateral_ratio == match params.min_collateral_ratio {
                Some(v) => v,
                None => old.min_collateral_ratio,
            }
            &&& after.settings.fee_basis_points == match params.fee_basis_points {
                Some(v) => v,
                None => old.fee_basis_points,
            }
            &&& after.settings.max_supply == match params.max_supply {
                Some(v) => v,
                None => old.max_supply,
            }
            &&& after.settings.mint_paused == match params.mint_paused {
                Some(v) => v,
                None => old.mint_paused,
            }
            &&& after.settings.redeem_paused == match params.redeem_paused {
                Some(v) => v,
                None => old.redeem_paused,
            }
            &&& after == StablecoinMint { settings: after.settings, last_updated: now, ..mint }
        }),
{
}

/// A metadata update that gives a new name and no symbol succeeds exactly
/// when the name is not empty and fits in 32 bytes of UTF-8; it then sets
/// the name and the update time and nothing else. An empty name, or one of
/// more than 32 bytes, is refused with `InvalidName`, the account
/// unchanged.
pub proof fn lemma_update_metadata_name(mint: StablecoinMint, name: String, now: i64)
    ensures
        name@.len() > 0 && vstd::utf8::encode_utf8(name@).len() <= 32 ==> spec_update_metadata(mint, Some(name), None, now)
            == (StablecoinMint { name: name, last_updated: now, ..mint }, Ok::<(), Error>(())),
        name@.len() == 0 ==> spec_update_metadata(mint, Some(name), None, now) == (mint, Err::<(), Error>(
            Error::Update(UpdateError::InvalidName),
        )),
        32 < vstd::utf8::encode_utf8(name@).len() <= usize::MAX ==> spec_update_metadata(mint, Some(name), None, now)
            == (mint, Err::<(), Error>(Error::Update(UpdateError::InvalidName))),
{
}

} // verus!
