use anchor_lang::prelude::Pubkey;
use stable_fun::address::Address;
use stable_fun::error::{Error, StableFunError};
use stable_fun::utils::common;
use stable_fun::utils::switchboard;
use stable_fun::utils::oracle::{OraclePrice, OracleService};
use stable_fun::utils::pda;
use stable_fun::utils::stablebond::{StablebondData, StablebondService};
use stable_fun::utils::validation::{ValidationService, MAX_TRANSACTION_AMOUNT, MIN_TRANSACTION_AMOUNT};

fn unique_address() -> Address {
    Address::new(Pubkey::new_unique().to_bytes())
}

// 2024-01-01T00:00:00Z, a year before the test bond matures.
const BEFORE_MATURITY: i64 = 1704067200;

fn create_test_stablebond() -> StablebondData {
    StablebondData {
        mint: unique_address(),
        underlying_mint: unique_address(),
        current_yield: 500_000,         // 5% APY (6 decimals)
        maturity_timestamp: 1735689600, // 2025-01-01
        total_supply: 1_000_000,
        decimals: 6,
    }
}

#[test]
fn test_percentage_calculation() {
    let amount = 1_000_000;
    let basis_points = 500; // 5%

    let result = common::calculate_percentage(amount, basis_points).unwrap();
    assert_eq!(result, 50_000);
}

#[test]
fn test_pda_derivation() {
    let program_id = unique_address();
    let authority = unique_address();
    let symbol = "TEST";

    let (mint_address, _bump) = pda::find_stablecoin_mint_address(&program_id, &authority, symbol).unwrap();
    assert_ne!(mint_address, Address::default());
}

#[test]
fn test_price_standardization() {
    let price = OraclePrice::new(1_000_000_000, 9, 0, 0);
    assert_eq!(price.standardize().unwrap(), 1_000_000);

    let price = OraclePrice::new(1_000, 3, 0, 0);
    assert_eq!(price.standardize().unwrap(), 1_000_000);
}

#[test]
fn test_price_staleness() {
    let price = OraclePrice::new(1_000_000, 6, 1000, 0);
    assert!(price.is_stale(1500));
    assert!(!price.is_stale(1200));
}

#[test]
fn test_safe_price_calculation() {
    let price = OraclePrice::new(1_000_000, 6, 0, 1000);
    assert_eq!(OracleService::calculate_safe_price(&price, true).unwrap(), 1_001_000);
    assert_eq!(OracleService::calculate_safe_price(&price, false).unwrap(), 999_000);
}

#[test]
fn test_value_calculation() {
    let stablebond = create_test_stablebond();
    let price = 1_000_000; // $1.00 (6 decimals)
    let amount = 1_000_000; // 1 token

    let value = StablebondService::calculate_value_at(amount, &stablebond, price, BEFORE_MATURITY).unwrap();

    assert!(value > amount); // Value should include yield
}

#[test]
fn test_yield_calculation() {
    let stablebond = create_test_stablebond();
    let amount = 1_000_000; // 1 token

    let yield_amount = StablebondService::calculate_accrued_yield_at(amount, &stablebond, BEFORE_MATURITY).unwrap();

    assert!(yield_amount > 0);
    assert!(yield_amount < amount); // Yield should be less than principal
}

#[test]
fn test_price_validation() {
    let stale = Err(Error::StableFun(StableFunError::StaleOraclePrice));
    let invalid = Err(Error::StableFun(StableFunError::InvalidOraclePrice));

    // A round opened at 1000 stays fresh for 300 seconds.
    assert_eq!(switchboard::get_validated_price_at(Some((1_050_000, 6)), 1000, 300, 1300), Ok(1_050_000));
    assert_eq!(switchboard::get_validated_price_at(Some((1_050_000, 6)), 1000, 300, 1301), stale);
    assert_eq!(switchboard::get_validated_price_at(Some((0, 6)), 1000, 300, 1000), invalid);
    assert_eq!(switchboard::get_validated_price_at(Some((-5, 6)), 1000, 300, 1000), invalid);
    assert_eq!(switchboard::get_validated_price_at(None, 1000, 300, 1000), invalid);
}

#[test]
fn test_amount_validation() {
    assert!(ValidationService::validate_amount(MIN_TRANSACTION_AMOUNT).is_ok());
    assert!(ValidationService::validate_amount(MIN_TRANSACTION_AMOUNT - 1).is_err());
    assert!(ValidationService::validate_amount(MAX_TRANSACTION_AMOUNT).is_ok());
    assert!(ValidationService::validate_amount(MAX_TRANSACTION_AMOUNT + 1).is_err());
}

#[test]
fn test_collateral_ratio_validation() {
    assert!(ValidationService::validate_collateral_ratio(
        15000000, // 150% collateral
        10000000, // supply
        10000     // min ratio 100%
    )
    .is_ok());

    assert!(ValidationService::validate_collateral_ratio(
        9000000,  // 90% collateral
        10000000, // supply
        10000     // min ratio 100%
    )
    .is_err());
}

#[test]
fn test_metadata_validation() {
    assert!(ValidationService::validate_metadata("Test Coin", "TEST", "USD").is_ok());

    assert!(ValidationService::validate_metadata(
        "Te", // Too short
        "TEST", "USD"
    )
    .is_err());

    assert!(ValidationService::validate_metadata(
        "Test Coin",
        "T", // Too short
        "USD"
    )
    .is_err());
}

#[test]
fn test_fee_validation() {
    assert!(ValidationService::validate_fee(500).is_ok()); // 5%
    assert!(ValidationService::validate_fee(1100).is_err()); // 11%
}
