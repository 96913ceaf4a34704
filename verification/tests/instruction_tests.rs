use stable_fun::instructions::initialize::{MIN_NAME_LENGTH, MIN_SYMBOL_LENGTH};
use stable_fun::instructions::update::{UpdateMetadataParams, UpdateSettingsParams};
use stable_fun::error::{Error, StableFunError};
use stable_fun::instructions::mint::{self, StablecoinError};
use stable_fun::state::{StablecoinMint, StablecoinSettings};

#[test]
fn test_validate_inputs() {
    // Test valid inputs
    let name = "Test Coin".to_string();
    let symbol = "TEST".to_string();
    let currency = "USD".to_string();

    assert!(name.len() >= MIN_NAME_LENGTH);
    assert!(symbol.len() >= MIN_SYMBOL_LENGTH);
    assert!(!currency.is_empty());

    // Test invalid inputs
    let short_name = "Te".to_string();
    let short_symbol = "T".to_string();
    let empty_currency = "".to_string();

    assert!(short_name.len() < MIN_NAME_LENGTH);
    assert!(short_symbol.len() < MIN_SYMBOL_LENGTH);
    assert!(empty_currency.is_empty());
}

#[test]
fn test_mint_validation() {
    let mut test_mint = StablecoinMint {
        settings: StablecoinSettings {
            min_collateral_ratio: 15000,
            fee_basis_points: 30,
            max_supply: 1_000_000,
            mint_paused: false,
            redeem_paused: false,
        },
        current_supply: 990_000,
        ..Default::default()
    };

    // 1000 units at a price of 2 with 6 decimals: 5e8 collateral, a fee of 3.
    let plan = mint::plan(&test_mint, 1000, Ok(2), 6).unwrap();
    assert_eq!(plan.collateral_amount, 500_000_000);
    assert_eq!(plan.fee_amount, 3);
    assert_eq!(plan.total_amount, 1003);

    assert_eq!(mint::plan(&test_mint, 0, Ok(2), 6), Err(Error::Stablecoin(StablecoinError::InvalidAmount)));
    assert_eq!(mint::plan(&test_mint, 10_001, Ok(2), 6), Err(Error::Stablecoin(StablecoinError::MaxSupplyExceeded)));
    let stale = Error::StableFun(StableFunError::StaleOraclePrice);
    assert_eq!(mint::plan(&test_mint, 1000, Err(stale), 6), Err(stale));

    test_mint.settings.mint_paused = true;
    assert_eq!(mint::plan(&test_mint, 1000, Ok(2), 6), Err(Error::Stablecoin(StablecoinError::MintPaused)));
}

#[test]
fn test_update_settings() {
    // Test settings updates
    let mut test_mint = StablecoinMint {
        settings: StablecoinSettings {
            min_collateral_ratio: 15000,
            fee_basis_points: 30,
            max_supply: 1_000_000,
            mint_paused: false,
            redeem_paused: false,
        },
        ..Default::default()
    };

    let params = UpdateSettingsParams {
        min_collateral_ratio: Some(20000),
        fee_basis_points: Some(50),
        max_supply: Some(2_000_000),
        mint_paused: Some(true),
        redeem_paused: Some(true),
    };

    // Simulate update
    test_mint.settings.min_collateral_ratio = params.min_collateral_ratio.unwrap();
    test_mint.settings.fee_basis_points = params.fee_basis_points.unwrap();
    test_mint.settings.max_supply = params.max_supply.unwrap();
    test_mint.settings.mint_paused = params.mint_paused.unwrap();
    test_mint.settings.redeem_paused = params.redeem_paused.unwrap();

    assert_eq!(test_mint.settings.min_collateral_ratio, 20000);
    assert_eq!(test_mint.settings.fee_basis_points, 50);
    assert_eq!(test_mint.settings.max_supply, 2_000_000);
    assert_eq!(test_mint.settings.mint_paused, true);
    assert_eq!(test_mint.settings.redeem_paused, true);
}

#[test]
fn test_update_metadata() {
    // Test metadata updates
    let mut test_mint = StablecoinMint {
        name: "Old Name".to_string(),
        symbol: "OLD".to_string(),
        ..Default::default()
    };

    let params = UpdateMetadataParams {
        name: Some("New Name".to_string()),
        symbol: Some("NEW".to_string()),
        icon_uri: None,
    };

    // Simulate update
    if let Some(name) = params.name {
        test_mint.name = name;
    }
    if let Some(symbol) = params.symbol {
        test_mint.symbol = symbol;
    }

    assert_eq!(test_mint.name, "New Name");
    assert_eq!(test_mint.symbol, "NEW");
}
