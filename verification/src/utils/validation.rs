//! The validation rules of the program.

use vstd::prelude::*;

use vstd::string::StringSliceAdditionalSpecFns;

use crate::address::Address;
use crate::error::{Error, StableFunError};
use crate::state::stablecoin::{spec_can_mint, StablecoinMint};
use crate::state::StablecoinVault;
use crate::utils::oracle::OraclePrice;
use crate::utils::token::TokenAccountState;

verus! {

// Constants for validation
pub const MIN_TRANSACTION_AMOUNT: u64 = 1_000;
pub const MAX_TRANSACTION_AMOUNT: u64 = 1_000_000_000_000;
pub const MIN_COLLATERAL_RATIO_BPS: u16 = 10000;
pub const MAX_COLLATERAL_RATIO_BPS: u16 = 30000;
pub const MAX_FEE_BPS: u16 = 1000;
pub const MIN_NAME_LENGTH: usize = 3;
pub const MAX_NAME_LENGTH: usize = 32;
pub const MIN_SYMBOL_LENGTH: usize = 2;
pub const MAX_SYMBOL_LENGTH: usize = 10;

/// The longest currency code `validate_metadata` accepts.
pub const MAX_METADATA_CURRENCY_LENGTH: usize = 5;

pub open spec fn err<T>(e: StableFunError) -> Result<T, Error> {
    Err(Error::StableFun(e))
}

/// A transaction amount is valid between the minimum and the maximum,
/// both included.
pub open spec fn spec_validate_amount(amount: u64) -> Result<(), Error> {
    if MIN_TRANSACTION_AMOUNT <= amount <= MAX_TRANSACTION_AMOUNT {
        Ok(())
    } else {
        err(StableFunError::AmountTooSmall)
    }
}

/// The collateral ratio check: always passes without supply; otherwise the
/// ratio `collateral * 10000 / supply`, truncated to a `u16`, must lie
/// between `min_ratio` and `MAX_COLLATERAL_RATIO_BPS`, both included.
pub open spec fn spec_validate_collateral_ratio(collateral: u64, supply: u64, min_ratio: u16) -> Result<(), Error> {
    if supply == 0 {
        Ok(())
    } else {
        let ratio = (collateral * 10000 / (supply as int)) as u16;
        if min_ratio <= ratio <= MAX_COLLATERAL_RATIO_BPS {
            Ok(())
        } else {
            err(StableFunError::CollateralRatioTooLow)
        }
    }
}

/// The checks before a mint of `amount`, in this order: minting not
/// paused, a valid amount, a new supply that fits in a `u64` and stays
/// within the maximum, a positive oracle price, and the collateral ratio of
/// `current_collateral` to the new supply.
pub open spec fn spec_validate_mint_operation(
    mint: StablecoinMint,
    amount: u64,
    oracle_price: OraclePrice,
    current_collateral: u64,
) -> Result<(), Error> {
    if mint.settings.mint_paused {
        err(StableFunError::MintingPaused)
    } else if spec_validate_amount(amount) is Err {
        spec_validate_amount(amount)
    } else if mint.current_supply + amount > u64::MAX {
        err(StableFunError::MathOverflow)
    } else if mint.current_supply + amount > mint.settings.max_supply {
        err(StableFunError::MaxSupplyExceeded)
    } else if oracle_price.value == 0 {
        err(StableFunError::InvalidOraclePrice)
    } else {
        spec_validate_collateral_ratio(
            current_collateral,
            (mint.current_supply + amount) as u64,
            mint.settings.min_collateral_ratio,
        )
    }
}

/// The checks before a redemption of `amount`, in this order: redeeming
/// not paused, a valid amount, enough tokens held and a vault with
/// collateral, a supply at least `amount`, and the collateral ratio of
/// `remaining_collateral` to the remaining supply.
pub open spec fn spec_validate_redeem_operation(
    mint: StablecoinMint,
    vault: StablecoinVault,
    amount: u64,
    token_account: TokenAccountState,
    remaining_collateral: u64,
) -> Result<(), Error> {
    if mint.settings.redeem_paused {
        err(StableFunError::RedeemingPaused)
    } else if spec_validate_amount(amount) is Err {
        spec_validate_amount(amount)
    } else if !(token_account.amount >= amount && vault.total_collateral > 0) {
        err(StableFunError::InsufficientBalance)
    } else if amount > mint.current_supply {
        err(StableFunError::MathOverflow)
    } else {
        spec_validate_collateral_ratio(
            remaining_collateral,
            (mint.current_supply - amount) as u64,
            mint.settings.min_collateral_ratio,
        )
    }
}

/// Checking amounts, ratios, fees, metadata and accounts.
#[derive(Default)]
pub struct ValidationService;

impl ValidationService {
    /// A transaction amount must lie between the minimum and the maximum.
    pub fn validate_amount(amount: u64) -> (r: Result<(), Error>)
        ensures
            r == spec_validate_amount(amount),
    {
        if MIN_TRANSACTION_AMOUNT <= amount && amount <= MAX_TRANSACTION_AMOUNT {
            Ok(())
        } else {
            Err(Error::StableFun(StableFunError::AmountTooSmall))
        }
    }

    /// The ratio of `collateral` to `supply` must lie between `min_ratio`
    /// and the maximum ratio.
    pub fn validate_collateral_ratio(collateral: u64, supply: u64, min_ratio: u16) -> (r: Result<(), Error>)
        ensures
            r == spec_validate_collateral_ratio(collateral, supply, min_ratio),
    {
        if supply == 0 {
            return Ok(());
        }
        let scaled = match (collateral as u128).checked_mul(10000) {
            Some(v) => v,
            None => return Err(Error::StableFun(StableFunError::MathOverflow)),
        };
        let ratio = match scaled.checked_div(supply as u128) {
            Some(v) => v as u16,
            None => return Err(Error::StableFun(StableFunError::MathOverflow)),
        };
        if min_ratio <= ratio && ratio <= MAX_COLLATERAL_RATIO_BPS {
            Ok(())
        } else {
            Err(Error::StableFun(StableFunError::CollateralRatioTooLow))
        }
    }

    /// A fee is valid up to the maximum fee.
    pub fn validate_fee(fee_bps: u16) -> (r: Result<(), Error>)
        ensures
            r == (if fee_bps <= MAX_FEE_BPS {
                Ok::<(), Error>(())
            } else {
                err(StableFunError::FeeTooHigh)
            }),
    {
        if fee_bps <= MAX_FEE_BPS {
            Ok(())
        } else {
            Err(Error::StableFun(StableFunError::FeeTooHigh))
        }
    }

    /// Name, symbol and currency lengths (in bytes) must lie within their
    /// bounds, checked in this order.
    pub fn validate_metadata(name: &str, symbol: &str, currency: &str) -> (r: Result<(), Error>)
        ensures
            r == (if !(MIN_NAME_LENGTH <= name.len() <= MAX_NAME_LENGTH) {
                err(StableFunError::InvalidName)
            } else if !(MIN_SYMBOL_LENGTH <= symbol.len() <= MAX_SYMBOL_LENGTH) {
                err(StableFunError::InvalidSymbol)
            } else if !(currency@.len() != 0 && currency.len() <= MAX_METADATA_CURRENCY_LENGTH) {
                err(StableFunError::InvalidCurrency)
            } else {
                Ok::<(), Error>(())
            }),
    {
        if !(MIN_NAME_LENGTH <= name.len() && name.len() <= MAX_NAME_LENGTH) {
            return Err(Error::StableFun(StableFunError::InvalidName));
        }
        if !(MIN_SYMBOL_LENGTH <= symbol.len() && symbol.len() <= MAX_SYMBOL_LENGTH) {
            return Err(Error::StableFun(StableFunError::InvalidSymbol));
        }
        if !(!currency.is_empty() && currency.len() <= MAX_METADATA_CURRENCY_LENGTH) {
            return Err(Error::StableFun(StableFunError::InvalidCurrency));
        }
        Ok(())
    }

    /// A token account must hold tokens of `mint` and belong to `owner`.
    pub fn validate_token_accounts(mint: &Address, token_account: &TokenAccountState, owner: &Address) -> (r: Result<(), Error>)
        ensures
            r == (if token_account.mint@ == mint@ && token_account.owner@ == owner@ {
                Ok::<(), Error>(())
            } else {
                err(StableFunError::InvalidTokenAccount)
            }),
    {
        if token_account.mint.same_as(mint) && token_account.owner.same_as(owner) {
            Ok(())
        } else {
            Err(Error::StableFun(StableFunError::InvalidTokenAccount))
        }
    }

    /// The vault must belong to the stablecoin at `stablecoin_mint` and hold
    /// collateral.
    pub fn validate_vault_state(vault: &StablecoinVault, stablecoin_mint: &Address) -> (r: Result<(), Error>)
        ensures
            r == (if vault.stablecoin_mint@ == stablecoin_mint@ && vault.total_collateral > 0 {
                Ok::<(), Error>(())
            } else {
                err(StableFunError::InvalidVault)
            }),
    {
        if vault.stablecoin_mint.same_as(stablecoin_mint) && vault.total_collateral > 0 {
            Ok(())
        } else {
            Err(Error::StableFun(StableFunError::InvalidVault))
        }
    }

    /// The checks before a mint of `amount`.
    pub fn validate_mint_operation(
        stablecoin_mint: &StablecoinMint,
        amount: u64,
        oracle_price: &OraclePrice,
        current_collateral: u64,
    ) -> (r: Result<(), Error>)
        ensures
            r == spec_validate_mint_operation(*stablecoin_mint, amount, *oracle_price, current_collateral),
    {
        if stablecoin_mint.settings.mint_paused {
            return Err(Error::StableFun(StableFunError::MintingPaused));
        }
        match Self::validate_amount(amount) {
            Ok(_) => {},
            Err(e) => return Err(e),
        }
        let new_supply = match stablecoin_mint.current_supply.checked_add(amount) {
            Some(v) => v,
            None => return Err(Error::StableFun(StableFunError::MathOverflow)),
        };
        if new_supply > stablecoin_mint.settings.max_supply {
            return Err(Error::StableFun(StableFunError::MaxSupplyExceeded));
        }
        if oracle_price.value == 0 {
            return Err(Error::StableFun(StableFunError::InvalidOraclePrice));
        }
        Self::validate_collateral_ratio(
            current_collateral,
            new_supply,
            stablecoin_mint.settings.min_collateral_ratio,
        )
    }

    /// The checks before a redemption of `amount`.
    pub fn validate_redeem_operation(
        stablecoin_mint: &StablecoinMint,
        vault: &StablecoinVault,
        amount: u64,
        token_account: &TokenAccountState,
        remaining_collateral: u64,
    ) -> (r: Result<(), Error>)
        ensures
            r == spec_validate_redeem_operation(
                *stablecoin_mint,
                *vault,
                amount,
                *token_account,
                remaining_collateral,
            ),
    {
        if stablecoin_mint.settings.redeem_paused {
            return Err(Error::StableFun(StableFunError::RedeemingPaused));
        }
        match Self::validate_amount(amount) {
            Ok(_) => {},
            Err(e) => return Err(e),
        }
        if !(token_account.amount >= amount && vault.total_collateral > 0) {
            return Err(Error::StableFun(StableFunError::InsufficientBalance));
        }
        let new_supply = match stablecoin_mint.current_supply.checked_sub(amount) {
            Some(v) => v,
            None => return Err(Error::StableFun(StableFunError::MathOverflow)),
        };
        Self::validate_collateral_ratio(
            remaining_collateral,
            new_supply,
            stablecoin_mint.settings.min_collateral_ratio,
        )
    }
}

/// Metadata that `validate_metadata` accepts also passes the stablecoin
/// account's own name, symbol and currency checks.
pub proof fn lemma_valid_metadata_is_valid_for_account(name: &str, symbol: &str, currency: &str)
    requires
        MIN_NAME_LENGTH <= name.len() <= MAX_NAME_LENGTH,
        MIN_SYMBOL_LENGTH <= symbol.len() <= MAX_SYMBOL_LENGTH,
        currency@.len() != 0 && currency.len() <= MAX_METADATA_CURRENCY_LENGTH,
    ensures
        name@.len() != 0 && name.len() <= crate::state::stablecoin::MAX_NAME_LENGTH,
        symbol@.len() != 0 && symbol.len() <= crate::state::stablecoin::MAX_SYMBOL_LENGTH,
        currency@.len() != 0 && currency.len() <= crate::state::stablecoin::MAX_CURRENCY_LENGTH,
{
    lemma_no_chars_no_bytes(name);
    lemma_no_chars_no_bytes(symbol);
}

/// A string without characters has no bytes.
proof fn lemma_no_chars_no_bytes(s: &str)
    ensures
        s@.len() == 0 ==> s.len() == 0,
{
    if s@.len() == 0 {
        assert(s.spec_bytes() =~= Seq::<u8>::empty());
    }
}

/// A ratio truncated to a `u16` is never above the ratio itself.
proof fn lemma_truncated_ratio_below(x: int)
    requires
        x >= 0,
    ensures
        (x as u16) as int <= x,
{
    if x <= 65535 {
        assert((x as u16) as int == x);
    }
}

/// A mint operation that passes validation keeps the collateral at the
/// minimum ratio to the supply after the mint: `current_collateral *
/// 10000 / (current_supply + amount)` is at least the minimum collateral
/// ratio, and the new supply is within the maximum.
pub proof fn lemma_valid_mint_operation_ratio(
    mint: StablecoinMint,
    amount: u64,
    oracle_price: OraclePrice,
    current_collateral: u64,
)
    requires
        spec_validate_mint_operation(mint, amount, oracle_price, current_collateral) is Ok,
    ensures
        mint.current_supply + amount > 0,
        mint.current_supply + amount <= mint.settings.max_supply,
        current_collateral * 10000 / (mint.current_supply + amount) >= mint.settings.min_collateral_ratio,
{
    let supply = mint.current_supply + amount;
    assert(current_collateral * 10000 / supply >= 0) by (nonlinear_arith)
        requires
            supply > 0,
            current_collateral >= 0,
    ;
    lemma_truncated_ratio_below(current_collateral * 10000 / supply);
}

/// A redemption that passes validation keeps the remaining collateral at
/// the minimum ratio to the supply left after it, where any supply is
/// left: `remaining_collateral * 10000 / (current_supply - amount)` is at
/// least the minimum collateral ratio.
pub proof fn lemma_valid_redeem_operation_ratio(
    mint: StablecoinMint,
    vault: StablecoinVault,
    amount: u64,
    token_account: TokenAccountState,
    remaining_collateral: u64,
)
    requires
        spec_validate_redeem_operation(mint, vault, amount, token_account, remaining_collateral) is Ok,
    ensures
        amount <= mint.current_supply,
        mint.current_supply - amount > 0 ==> remaining_collateral * 10000 / (mint.current_supply - amount)
            >= mint.settings.min_collateral_ratio,
{
    let supply = mint.current_supply - amount;
    if supply > 0 {
        assert(remaining_collateral * 10000 / supply >= 0) by (nonlinear_arith)
            requires
                supply > 0,
                remaining_collateral >= 0,
        ;
        lemma_truncated_ratio_below(remaining_collateral * 10000 / supply);
    }
}

/// A mint operation that passes validation is one the stablecoin account
/// allows: `can_mint` holds for the amount.
pub proof fn lemma_valid_mint_operation_can_mint(
    mint: StablecoinMint,
    amount: u64,
    oracle_price: OraclePrice,
    current_collateral: u64,
)
    requires
        spec_validate_mint_operation(mint, amount, oracle_price, current_collateral) is Ok,
    ensures
        spec_can_mint(mint, amount),
        MIN_TRANSACTION_AMOUNT <= amount <= MAX_TRANSACTION_AMOUNT,
        oracle_price.value > 0,
{
}

/// A redemption that passes validation leaves a supply of at least zero
/// and redeems no more than the account holds.
pub proof fn lemma_valid_redeem_operation_bounds(
    mint: StablecoinMint,
    vault: StablecoinVault,
    amount: u64,
    token_account: TokenAccountState,
    remaining_collateral: u64,
)
    requires
        spec_validate_redeem_operation(mint, vault, amount, token_account, remaining_collateral) is Ok,
    ensures
        !mint.settings.redeem_paused,
        amount <= mint.current_supply,
        amount <= token_account.amount,
        vault.total_collateral > 0,
{
}

} // verus!
