//! Error codes of the program, and the error type that every fallible
//! operation of the library returns.

use vstd::prelude::*;

use crate::instructions::mint::StablecoinError;
use crate::instructions::update::UpdateError;
use crate::instructions::ProgramError;
use crate::utils::stablebond::StablebondError;

verus! {

/// The program's own error codes.
#[derive(Debug, Clone, Copy, PartialEq, Eq, Structural)]
pub enum StableFunError {
    NameTooShort,
    SymbolTooShort,
    InvalidName,
    InvalidSymbol,
    InvalidCurrency,
    InvalidAmount,
    InsufficientCollateral,
    InvalidOraclePrice,
    StaleOraclePrice,
    MathOverflow,
    InvalidTokenAccount,
    InvalidVault,
    MaxSupplyExceeded,
    InsufficientBalance,
    AccountOwnerMismatch,
    InvalidOracle,
    InvalidMint,
    InvalidStablebond,
    InvalidVaultAccount,
    MintingPaused,
    RedeemingPaused,
    CollateralRatioTooLow,
    CollateralRatioTooHigh,
    FeeTooHigh,
    AmountTooSmall,
    AmountTooLarge,
    InvalidTokenOwner,
    EmptyVault,
}

/// The message attached to each error code.
pub open spec fn spec_message(e: StableFunError) -> Seq<char> {
    match e {
        StableFunError::NameTooShort => "Name must be at least 3 characters"@,
        StableFunError::SymbolTooShort => "Symbol must be at least 2 characters"@,
        StableFunError::InvalidName => "Invalid name provided"@,
        StableFunError::InvalidSymbol => "Invalid symbol provided"@,
        StableFunError::InvalidCurrency => "Invalid currency specified"@,
        StableFunError::InvalidAmount => "Invalid amount"@,
        StableFunError::InsufficientCollateral => "Insufficient collateral"@,
        StableFunError::InvalidOraclePrice => "Invalid oracle price"@,
        StableFunError::StaleOraclePrice => "Stale oracle price"@,
        StableFunError::MathOverflow => "Math overflow in calculation"@,
        StableFunError::InvalidTokenAccount => "Invalid token account"@,
        StableFunError::InvalidVault => "Invalid vault account"@,
        StableFunError::MaxSupplyExceeded => "Maximum supply exceeded"@,
        StableFunError::InsufficientBalance => "Insufficient balance"@,
        StableFunError::AccountOwnerMismatch => "Account owner mismatch"@,
        StableFunError::InvalidOracle => "Invalid oracle account"@,
        StableFunError::InvalidMint => "Invalid mint account"@,
        StableFunError::InvalidStablebond => "Invalid stablebond account"@,
        StableFunError::InvalidVaultAccount => "Invalid vault token account"@,
        StableFunError::MintingPaused => "Minting is paused"@,
        StableFunError::RedeemingPaused => "Redeeming is paused"@,
        StableFunError::CollateralRatioTooLow => "Collateral ratio too low"@,
        StableFunError::CollateralRatioTooHigh => "Collateral ratio too high"@,
        StableFunError::FeeTooHigh => "Fee too high"@,
        StableFunError::AmountTooSmall => "Amount too small"@,
        StableFunError::AmountTooLarge => "Amount too large"@,
        StableFunError::InvalidTokenOwner => "Invalid token owner"@,
        StableFunError::EmptyVault => "Empty vault"@,
    }
}

impl StableFunError {
    /// The message attached to each error code.
    pub fn message(&self) -> (s: &'static str)
        ensures
            s@ == spec_message(*self),
    {
        match self {
            StableFunError::NameTooShort => "Name must be at least 3 characters",
            StableFunError::SymbolTooShort => "Symbol must be at least 2 characters",
            StableFunError::InvalidName => "Invalid name provided",
            StableFunError::InvalidSymbol => "Invalid symbol provided",
            StableFunError::InvalidCurrency => "Invalid currency specified",
            StableFunError::InvalidAmount => "Invalid amount",
            StableFunError::InsufficientCollateral => "Insufficient collateral",
            StableFunError::InvalidOraclePrice => "Invalid oracle price",
            StableFunError::StaleOraclePrice => "Stale oracle price",
            StableFunError::MathOverflow => "Math overflow in calculation",
            StableFunError::InvalidTokenAccount => "Invalid token account",
            StableFunError::InvalidVault => "Invalid vault account",
            StableFunError::MaxSupplyExceeded => "Maximum supply exceeded",
            StableFunError::InsufficientBalance => "Insufficient balance",
            StableFunError::AccountOwnerMismatch => "Account owner mismatch",
            StableFunError::InvalidOracle => "Invalid oracle account",
            StableFunError::InvalidMint => "Invalid mint account",
            StableFunError::InvalidStablebond => "Invalid stablebond account",
            StableFunError::InvalidVaultAccount => "Invalid vault token account",
            StableFunError::MintingPaused => "Minting is paused",
            StableFunError::RedeemingPaused => "Redeeming is paused",
            StableFunError::CollateralRatioTooLow => "Collateral ratio too low",
            StableFunError::CollateralRatioTooHigh => "Collateral ratio too high",
            StableFunError::FeeTooHigh => "Fee too high",
            StableFunError::AmountTooSmall => "Amount too small",
            StableFunError::AmountTooLarge => "Amount too large",
            StableFunError::InvalidTokenOwner => "Invalid token owner",
            StableFunError::EmptyVault => "Empty vault",
        }
    }
}

/// Every error an operation of the library can end with: one of the error
/// codes of the program's modules, or the clock being unavailable.
#[derive(Debug, Clone, Copy, PartialEq, Eq, Structural)]
pub enum Error {
    StableFun(StableFunError),
    Program(ProgramError),
    Stablecoin(StablecoinError),
    Update(UpdateError),
    Stablebond(StablebondError),
    /// The clock sysvar could not be read.
    ClockUnavailable,
}

} // verus!
