use anchor_lang::prelude::Pubkey;
use stable_fun::address::Address;
use stable_fun::error::{Error, StableFunError};
use stable_fun::instructions::initialize::{self as init, Initialize};
use stable_fun::instructions::mint::{self as mint_ix, MintPlan, MintStablecoin, StablecoinError};
use stable_fun::instructions::redeem::{self as redeem_ix, RedeemPlan};
use stable_fun::instructions::update::{
    self as update_ix, UpdateError, UpdateMetadata, UpdateMetadataParams, UpdateSettings, UpdateSettingsParams,
};
use stable_fun::instructions::{self as ix, ProgramError};
use stable_fun::state::{PriceData, StablecoinMint, StablecoinSettings, StablecoinVault};
use stable_fun::utils::math;
use stable_fun::utils::oracle::{AggregatorState, OraclePrice, OracleRound, OracleService};
use stable_fun::utils::oracle_utils;
use stable_fun::utils::stablebond::{StablebondError, StablebondMint, StablebondService};
use stable_fun::utils::switchboard;
use stable_fun::utils::token::TokenAccountState;
use stable_fun::utils::validation::ValidationService;
use stable_fun::utils::{common, pda};

fn addr(b: u8) -> Address {
    Address::new([b; 32])
}

fn round(value: i128, opened: i64, deviation: i128) -> OracleRound {
    OracleRound {
        round_open_timestamp: opened,
        num_success: 1,
        result_mantissa: value,
        result_scale: 6,
        std_deviation_mantissa: deviation,
    }
}

fn vault_with(collateral: u64, value: u64) -> StablecoinVault {
    let mut v = StablecoinVault::new(addr(1), addr(2), addr(3), 7);
    v.total_collateral = collateral;
    v.total_value_locked = value;
    v.update_collateral_ratio().unwrap();
    v
}

fn coin(supply: u64, max_supply: u64, fee: u16) -> StablecoinMint {
    StablecoinMint {
        authority: addr(9),
        token_mint: addr(10),
        stablebond_mint: addr(11),
        price_feed: addr(12),
        current_supply: supply,
        settings: StablecoinSettings {
            fee_basis_points: fee,
            max_supply,
            min_collateral_ratio: 15000,
            mint_paused: false,
            redeem_paused: false,
        },
        ..Default::default()
    }
}

fn so(e: StableFunError) -> Error {
    Error::StableFun(e)
}

#[test]
fn address_same_as_and_bytes() {
    let a = addr(4);
    assert!(a.same_as(&addr(4)));
    assert!(!a.same_as(&addr(5)));
    assert_eq!(a.to_bytes(), [4u8; 32]);
    assert_eq!(a.to_seed(), vec![4u8; 32]);
}

#[test]
fn deposit_then_withdrawal_restores_totals() {
    let mut v = vault_with(1000, 1500);
    let before = v;
    v.process_deposit(500, 250, 10).unwrap();
    assert_eq!(v.total_collateral, 1500);
    assert_eq!(v.total_value_locked, 1750);
    assert_eq!(v.current_ratio, 11666);
    assert_eq!(v.last_deposit_time, 10);
    v.process_withdrawal(500, 250, 20).unwrap();
    assert_eq!(v.total_collateral, before.total_collateral);
    assert_eq!(v.total_value_locked, before.total_value_locked);
    assert_eq!(v.current_ratio, before.current_ratio);
    assert_eq!(v.deposit_count, 1);
    assert_eq!(v.withdrawal_count, 1);
    assert_eq!(v.last_withdrawal_time, 20);
}

#[test]
fn vault_errors() {
    let mut v = vault_with(1000, 1500);
    assert_eq!(v.process_withdrawal(1001, 0, 1), Err(so(StableFunError::InsufficientCollateral)));
    assert_eq!(v.total_collateral, 1000);
    assert_eq!(v.process_deposit(u64::MAX, 0, 1), Err(so(StableFunError::MathOverflow)));
    assert_eq!(v.total_collateral, 1000);
    // The value overflowing leaves the collateral already added.
    assert_eq!(v.process_deposit(1, u64::MAX, 1), Err(so(StableFunError::MathOverflow)));
    assert_eq!(v.total_collateral, 1001);
    // A ratio beyond u16 is refused, the recorded ratio kept.
    let mut w = vault_with(1, 1);
    w.total_value_locked = 10;
    assert_eq!(w.update_collateral_ratio(), Err(so(StableFunError::MathOverflow)));
    assert_eq!(w.current_ratio, 10000);
    let mut z = vault_with(0, 0);
    z.total_value_locked = 5;
    assert!(z.update_collateral_ratio().is_ok());
    assert_eq!(z.current_ratio, 0);
}

#[test]
fn can_withdraw_bounds() {
    let v = vault_with(1000, 1500);
    assert!(v.can_withdraw(100, 16666));
    assert!(!v.can_withdraw(100, 16667));
    assert!(v.can_withdraw(100, 0));
    assert!(!v.can_withdraw(1000, 0));
    assert!(!v.can_withdraw(2000, 0));
    let seeds = v.get_vault_seeds();
    assert_eq!(seeds, vec![b"vault".to_vec(), vec![7u8]]);
}

#[test]
fn allowed_withdrawal_keeps_min_ratio() {
    let mut v = vault_with(1000, 1500);
    assert!(v.can_withdraw(100, 16000));
    v.process_withdrawal(100, 0, 3).unwrap();
    assert!(v.current_ratio >= 16000);
    assert_eq!(v.total_collateral, 900);
}

#[test]
fn stablecoin_flags_and_stats() {
    let mut m = coin(100, 1000, 30);
    assert!(!m.is_paused());
    assert!(m.can_mint(900));
    assert!(m.can_mint(10));
    assert!(!m.can_mint(901));
    m.settings.mint_paused = true;
    assert!(m.is_paused() && m.is_mint_paused() && !m.is_redeem_paused());
    assert!(!m.can_mint(1));
    m.stats.total_minted = u64::MAX - 1;
    m.update_stats(Some(5), Some(7), None);
    assert_eq!(m.stats.total_minted, u64::MAX - 1);
    assert_eq!(m.stats.total_burned, 7);
    assert_eq!(m.stats.total_fees, 0);
    assert_eq!(m.calculate_fee(u64::MAX), Err(so(StableFunError::MathOverflow)));
    assert!(StablecoinMint::validate_currency("USD").is_ok());
    assert_eq!(StablecoinMint::validate_currency("TOOLONGCODE"), Err(so(StableFunError::InvalidCurrency)));
}

#[test]
fn math_helpers() {
    assert_eq!(math::pow10_u64(0), 1);
    assert_eq!(math::pow10_u64(19), 10_000_000_000_000_000_000);
    assert_eq!(math::checked_mul(3, 4), Ok(12));
    assert_eq!(math::checked_mul(u64::MAX, 2), Err(so(StableFunError::MathOverflow)));
    assert_eq!(math::checked_div(12, 5), Ok(2));
    assert_eq!(math::checked_div(12, 0), Err(so(StableFunError::MathOverflow)));
    assert_eq!(math::calculate_token_amount(2_000_000, 3_000_000, 6), Ok(6_000_000));
    assert_eq!(math::calculate_token_amount(u64::MAX, 2, 30), Err(so(StableFunError::MathOverflow)));
    assert_eq!(common::calculate_percentage(u64::MAX, 2), Err(so(StableFunError::MathOverflow)));
    assert_eq!(common::verify_account_owner(&addr(1), &addr(2)), Err(so(StableFunError::AccountOwnerMismatch)));
    assert!(common::verify_account_owner(&addr(1), &addr(1)).is_ok());
    assert_eq!(common::get_current_timestamp(), Err(Error::ClockUnavailable));
}

#[test]
fn instruction_helpers() {
    assert_eq!(ix::calculate_token_amount(1000, 2_000_000, 6), Ok(500));
    assert_eq!(ix::calculate_token_amount(1000, 0, 6), Err(Error::Program(ProgramError::MathOverflow)));
    assert_eq!(ix::validate_collateral_ratio(1000, 1500, 15000), Ok(()));
    assert_eq!(
        ix::validate_collateral_ratio(1000, 1499, 15000),
        Err(Error::Program(ProgramError::InsufficientCollateral))
    );
    assert_eq!(ix::validate_collateral_ratio(0, 1, 0), Err(Error::Program(ProgramError::MathOverflow)));
}

#[test]
fn metadata_valid_for_account() {
    assert!(ValidationService::validate_metadata("Test Coin", "TEST", "USD").is_ok());
    assert!(StablecoinMint::validate_name("Test Coin").is_ok());
    assert!(StablecoinMint::validate_symbol("TEST").is_ok());
    assert!(StablecoinMint::validate_currency("USD").is_ok());
    assert_eq!(ValidationService::validate_metadata("Test Coin", "TEST", "DOLLAR"), Err(so(StableFunError::InvalidCurrency)));
    assert_eq!(ValidationService::validate_metadata("Te", "T", ""), Err(so(StableFunError::InvalidName)));
    assert_eq!(ValidationService::validate_metadata("Test", "T", ""), Err(so(StableFunError::InvalidSymbol)));
}

#[test]
fn validation_errors() {
    assert_eq!(ValidationService::validate_amount(999), Err(so(StableFunError::AmountTooSmall)));
    assert_eq!(ValidationService::validate_fee(1001), Err(so(StableFunError::FeeTooHigh)));
    // A ratio above 300% is refused as well.
    assert_eq!(
        ValidationService::validate_collateral_ratio(31, 10, 10000),
        Err(so(StableFunError::CollateralRatioTooLow))
    );
    assert!(ValidationService::validate_collateral_ratio(5, 0, 10000).is_ok());
    let account = TokenAccountState { mint: addr(1), owner: addr(2), amount: 5000 };
    assert!(ValidationService::validate_token_accounts(&addr(1), &account, &addr(2)).is_ok());
    assert_eq!(
        ValidationService::validate_token_accounts(&addr(1), &account, &addr(3)),
        Err(so(StableFunError::InvalidTokenAccount))
    );
    let v = vault_with(1000, 1500);
    assert!(ValidationService::validate_vault_state(&v, &addr(1)).is_ok());
    assert_eq!(ValidationService::validate_vault_state(&v, &addr(2)), Err(so(StableFunError::InvalidVault)));
}

#[test]
fn mint_and_redeem_validation() {
    let m = coin(10_000, 20_000, 30);
    let price = OraclePrice::new(1_000_000, 6, 0, 0);
    assert!(ValidationService::validate_mint_operation(&m, 10_000, &price, 30_000).is_ok());
    assert!(m.can_mint(10_000));
    assert_eq!(
        ValidationService::validate_mint_operation(&m, 10_001, &price, 30_000),
        Err(so(StableFunError::MaxSupplyExceeded))
    );
    assert_eq!(
        ValidationService::validate_mint_operation(&m, 1000, &OraclePrice::new(0, 6, 0, 0), 30_000),
        Err(so(StableFunError::InvalidOraclePrice))
    );
    let mut paused = coin(10_000, 20_000, 30);
    paused.settings.mint_paused = true;
    paused.settings.redeem_paused = true;
    assert_eq!(
        ValidationService::validate_mint_operation(&paused, 1000, &price, 1),
        Err(so(StableFunError::MintingPaused))
    );
    let v = vault_with(1000, 1500);
    let account = TokenAccountState { mint: addr(1), owner: addr(2), amount: 5000 };
    assert_eq!(
        ValidationService::validate_redeem_operation(&paused, &v, 1000, &account, 1),
        Err(so(StableFunError::RedeemingPaused))
    );
    assert_eq!(
        ValidationService::validate_redeem_operation(&m, &v, 6000, &account, 1),
        Err(so(StableFunError::InsufficientBalance))
    );
    assert!(ValidationService::validate_redeem_operation(&m, &v, 5000, &account, 10_000).is_ok());
    assert_eq!(
        ValidationService::validate_redeem_operation(&coin(100, 200, 0), &v, 1000, &account, 1),
        Err(so(StableFunError::MathOverflow))
    );
}

#[test]
fn oracle_prices() {
    let price = OracleService::get_price_from_round(&round(2_500_000, 100, -30)).unwrap();
    assert_eq!(price, OraclePrice::new(2_500_000, 6, 100, 30));
    assert_eq!(
        OracleService::get_price_from_round(&round(1, 0, 0)),
        Err(so(StableFunError::InvalidOracle))
    );
    assert!(OracleService::validate_price_at(&price, None, 400).is_ok());
    assert_eq!(OracleService::validate_price_at(&price, None, 401), Err(so(StableFunError::StaleOraclePrice)));
    assert_eq!(OracleService::validate_price_at(&price, Some(29), 150), Err(so(StableFunError::InvalidOraclePrice)));
    assert_eq!(
        OracleService::validate_price(&OraclePrice::new(0, 6, 0, 0), None),
        Err(so(StableFunError::InvalidOraclePrice))
    );
    assert_eq!(OracleService::validate_price(&price, None), Err(Error::ClockUnavailable));
    assert_eq!(OracleService::verify_oracle_price_at(&round(2_500_000, 100, 0), 150), Ok(2_500_000));
    assert_eq!(
        OracleService::verify_oracle_price_at(&OracleRound { result_scale: 30, ..round(1, 100, 0) }, 150),
        Err(so(StableFunError::MathOverflow))
    );
    let big = OraclePrice::new(u64::MAX, 0, 0, 0);
    assert_eq!(big.standardize(), Err(so(StableFunError::MathOverflow)));
    let band_low = OracleService::calculate_safe_price(&OraclePrice::new(10, 6, 0, 11), false);
    assert_eq!(band_low, Err(so(StableFunError::MathOverflow)));
}

#[test]
fn median_of_rounds() {
    let now = 1000;
    let rounds = vec![Some(round(300, 900, 0)), Some(round(100, 900, 0)), Some(round(200, 900, 0))];
    assert_eq!(OracleService::get_median_price_at(&rounds, now).unwrap().value, 200);
    // A missing, a stale and a zero round are skipped.
    let rounds = vec![None, Some(round(300, 100, 0)), Some(round(100, 900, 0))];
    assert_eq!(OracleService::get_median_price_at(&rounds, now).unwrap().value, 100);
    let two = vec![Some(round(300, 900, 0)), Some(round(100, 900, 0))];
    assert_eq!(OracleService::get_median_price_at(&two, now).unwrap().value, 300);
    // Equal values keep their order.
    let ties = vec![Some(round(100, 900, 1)), Some(round(100, 900, 2))];
    assert_eq!(OracleService::get_median_price_at(&ties, now).unwrap().confidence, 2);
    let none = vec![Some(round(0, 900, 0))];
    assert_eq!(OracleService::get_median_price_at(&none, now), Err(so(StableFunError::InvalidOraclePrice)));
    let four = vec![None, None, None, None];
    assert_eq!(OracleService::get_median_price_at(&four, now), Err(so(StableFunError::InvalidOracle)));
    assert_eq!(OracleService::aggregate_price_at(&rounds, now, true), Ok(100));
    let wide = vec![Some(round(1_000_000, 900, 5))];
    assert_eq!(OracleService::aggregate_price_at(&wide, now, true), Ok(1_000_005));
    assert_eq!(OracleService::aggregate_price_at(&wide, now, false), Ok(999_995));
}

fn aggregator(mantissa: i128, scale: u32, opened: i64, deviation: i128) -> AggregatorState {
    AggregatorState {
        latest_confirmed_round: OracleRound {
            round_open_timestamp: opened,
            num_success: 1,
            result_mantissa: mantissa,
            result_scale: scale,
            std_deviation_mantissa: deviation,
        },
        min_oracle_results: 1,
        sliding_resolution: false,
    }
}

#[test]
fn aggregator_results() {
    let a = aggregator(5, 6, 1, 0);
    assert_eq!(a.get_result(), Some((5, 6)));
    let few = AggregatorState { min_oracle_results: 2, ..a };
    assert_eq!(few.get_result(), None);
    let sliding = AggregatorState { sliding_resolution: true, ..few };
    assert_eq!(sliding.get_result(), Some((5, 6)));
    assert_eq!(switchboard::get_validated_price(&few, 300), Err(so(StableFunError::InvalidOraclePrice)));
}

#[test]
fn reading_aggregators() {
    let a = aggregator(1_234_567, 9, 42, -17);
    let price = OraclePrice::from_switchboard(&a).unwrap();
    assert_eq!(price, OraclePrice::new(1_234_567, 9, 42, 17));
    assert_eq!(OracleService::get_price(&a).unwrap(), price);
    assert_eq!(OracleService::get_price(&aggregator(5, 6, 0, 0)), Err(so(StableFunError::InvalidOracle)));
    // Off the chain the clock cannot be read.
    assert_eq!(OracleService::verify_oracle_price(&a), Err(Error::ClockUnavailable));
    assert_eq!(OracleService::get_median_price(&[]), Err(so(StableFunError::InvalidOracle)));
    assert_eq!(OracleService::get_median_price(&[Some(a)]), Err(so(StableFunError::InvalidOraclePrice)));
    assert_eq!(OracleService::aggregate_price(&[Some(a), None], true), Err(so(StableFunError::InvalidOraclePrice)));
    assert_eq!(switchboard::get_validated_price(&aggregator(0, 6, 42, 0), 300), Err(so(StableFunError::InvalidOraclePrice)));
    assert_eq!(switchboard::get_validated_price(&a, 300), Err(Error::ClockUnavailable));
    assert_eq!(ix::verify_oracle_price(&a), Err(Error::ClockUnavailable));
    assert_eq!(oracle_utils::get_validated_price(&aggregator(-1, 6, 42, 0)), Err(so(StableFunError::InvalidOraclePrice)));
    assert_eq!(oracle_utils::get_validated_price(&a), Err(Error::ClockUnavailable));
}

#[test]
fn validated_prices_at_a_time() {
    assert_eq!(oracle_utils::get_validated_price_at(&round(7, 100, 0), 400), Ok(7));
    assert_eq!(oracle_utils::get_validated_price_at(&round(7, 100, 0), 401), Err(so(StableFunError::StaleOraclePrice)));
    assert!(oracle_utils::is_price_stale_at(100, 401));
    assert!(!oracle_utils::is_price_stale_at(100, 400));
    assert_eq!(oracle_utils::is_price_stale(100), Err(Error::ClockUnavailable));
    assert_eq!(switchboard::get_validated_price_at(Some((9, 6)), 100, 10, 110), Ok(9));
    assert_eq!(switchboard::get_validated_price_at(Some((9, 6)), 100, 10, 111), Err(so(StableFunError::StaleOraclePrice)));
    assert_eq!(switchboard::get_validated_price_at(None, 100, 10, 110), Err(so(StableFunError::InvalidOraclePrice)));
    let data = PriceData::new(5, 100, 10);
    assert!(data.is_valid_at(60, 10, 160));
    assert!(!data.is_valid_at(60, 10, 161));
    assert!(!data.is_valid_at(60, 9, 100));
    assert_eq!(data.is_valid(60, 10), Err(Error::ClockUnavailable));
}

#[test]
fn pda_matches_the_runtime() {
    let program = Pubkey::new_unique();
    let stablecoin = Pubkey::new_unique();
    let (expected, bump) = Pubkey::find_program_address(&[b"vault", stablecoin.as_ref()], &program);
    let (found, found_bump) =
        pda::find_vault_address(&Address::new(program.to_bytes()), &Address::new(stablecoin.to_bytes())).unwrap();
    assert_eq!(found.to_bytes(), expected.to_bytes());
    assert_eq!(found_bump, bump);
    assert_ne!(found.to_bytes(), program.to_bytes());
    let (expected, _) = Pubkey::find_program_address(&[b"mint-authority", stablecoin.as_ref()], &program);
    let (found, _) =
        pda::find_mint_authority_address(&Address::new(program.to_bytes()), &Address::new(stablecoin.to_bytes())).unwrap();
    assert_eq!(found.to_bytes(), expected.to_bytes());
    let authority = Pubkey::new_unique();
    let (expected, _) = Pubkey::find_program_address(&[b"stablecoin", authority.as_ref(), b"USDX"], &program);
    let (found, _) =
        pda::find_stablecoin_mint_address(&Address::new(program.to_bytes()), &Address::new(authority.to_bytes()), "USDX")
            .unwrap();
    assert_eq!(found.to_bytes(), expected.to_bytes());
    // A symbol longer than 32 bytes is not a valid seed.
    let long = "S".repeat(33);
    assert_eq!(
        pda::find_stablecoin_mint_address(&Address::new(program.to_bytes()), &Address::new(authority.to_bytes()), &long),
        None
    );
}

#[test]
fn stablebond_checks() {
    let bond = StablebondMint {
        authority: addr(1),
        underlying_mint: addr(2),
        current_yield: 500_000,
        maturity_timestamp: 1000,
        supply: 10,
        decimals: 6,
        last_yield_update: 1,
        next_yield_update: 2,
    };
    assert!(StablebondService::validate_stablebond(&bond, 999).is_ok());
    assert_eq!(
        StablebondService::validate_stablebond(&bond, 1000),
        Err(Error::Stablebond(StablebondError::StablebondMatured))
    );
    assert_eq!(
        StablebondService::validate_stablebond(&StablebondMint { current_yield: 0, ..bond }, 1),
        Err(Error::Stablebond(StablebondError::InvalidYieldRate))
    );
    assert_eq!(
        StablebondService::validate_stablebond(&StablebondMint { supply: 0, ..bond }, 1),
        Err(Error::Stablebond(StablebondError::InvalidStablebond))
    );
    let data = StablebondService::get_stablebond_data(&addr(5), &bond).unwrap();
    assert_eq!(data.mint, addr(5));
    assert_eq!(data.total_supply, 10);
    let y = StablebondService::get_yield_data(&bond).unwrap();
    assert_eq!((y.current_yield, y.last_update, y.next_update), (500_000, 1, 2));
    // No yield accrues at maturity.
    assert_eq!(StablebondService::calculate_accrued_yield_at(1_000_000, &data, 1000), Ok(0));
    // One year before maturity at a yield of 0.5 (six decimals): half a token.
    let year = 1000 - 365 * 24 * 60 * 60;
    assert_eq!(StablebondService::calculate_accrued_yield_at(1_000_000, &data, year), Ok(500_000));
    assert_eq!(StablebondService::calculate_value_at(1_000_000, &data, 2_000_000, year), Ok(2_500_000));
    // After maturity no time remains, and no yield accrues.
    assert_eq!(StablebondService::calculate_accrued_yield_at(1_000_000, &data, 1001), Ok(0));
    assert_eq!(StablebondService::calculate_accrued_yield_at(1, &data, 1_000_000_000), Ok(0));
    assert_eq!(StablebondService::calculate_value_at(1_000_000, &data, 2_000_000, 1001), Ok(2_000_000));
    // A time to maturity outside the `i64` range overflows.
    assert_eq!(
        StablebondService::calculate_accrued_yield_at(1, &data, i64::MIN),
        Err(Error::Stablebond(StablebondError::MathOverflow))
    );
    assert_eq!(StablebondService::calculate_accrued_yield(1, &data), Err(Error::ClockUnavailable));
    assert_eq!(
        StablebondService::calculate_value(u64::MAX, &data, 2),
        Err(Error::Stablebond(StablebondError::MathOverflow))
    );
    // Where the price value fits, the clock is read.
    assert_eq!(StablebondService::calculate_value(1, &data, 2), Err(Error::ClockUnavailable));
}

fn mint_accounts() -> MintStablecoin {
    MintStablecoin {
        user: addr(9),
        stablecoin_mint: addr(1),
        token_mint: addr(10),
        token_mint_decimals: 6,
        user_token_account: TokenAccountState { mint: addr(10), owner: addr(9), amount: 0 },
        user_stablebond_account: TokenAccountState { mint: addr(11), owner: addr(9), amount: 0 },
        vault_stablebond_account: addr(3),
        price_feed: addr(12),
    }
}

#[test]
fn mint_instruction() {
    let m = coin(1000, 20_000, 30);
    let v = vault_with(1000, 1500);
    assert!(mint_accounts().check_constraints(&m, &v).is_ok());
    let wrong = MintStablecoin { price_feed: addr(13), ..mint_accounts() };
    assert_eq!(wrong.check_constraints(&m, &v), Err(Error::Stablecoin(StablecoinError::InvalidOracle)));
    let stranger = MintStablecoin { user: addr(8), ..mint_accounts() };
    assert_eq!(stranger.check_constraints(&m, &v), Err(Error::Stablecoin(StablecoinError::UnauthorizedMint)));

    let plan = mint_ix::plan(&m, 10_000, Ok(2_000_000), 6).unwrap();
    assert_eq!(plan, MintPlan { collateral_amount: 5000, fee_amount: 30, total_amount: 10_030 });
    assert_eq!(mint_ix::plan(&m, 0, Ok(1), 6), Err(Error::Stablecoin(StablecoinError::InvalidAmount)));
    assert_eq!(mint_ix::plan(&m, 19_001, Ok(1), 6), Err(Error::Stablecoin(StablecoinError::MaxSupplyExceeded)));
    assert_eq!(
        mint_ix::plan(&m, 10_000, Err(so(StableFunError::StaleOraclePrice)), 6),
        Err(so(StableFunError::StaleOraclePrice))
    );
    let mut paused = m.clone();
    paused.settings.mint_paused = true;
    assert_eq!(mint_ix::plan(&paused, 1, Ok(1), 6), Err(Error::Stablecoin(StablecoinError::MintPaused)));

    // The fee counts against the maximum supply: the amount alone would
    // fit, the amount and its fee would not.
    let mut full = coin(10_000, 20_000, 30);
    assert_eq!(
        mint_ix::plan(&full, 10_000, Ok(2_000_000), 6),
        Err(Error::Stablecoin(StablecoinError::MaxSupplyExceeded))
    );
    // The supply grows by the amount and the fee, up to the maximum.
    let mut vault = vault_with(1000, 1500);
    let plan = mint_ix::plan(&full, 9_970, Ok(2_000_000), 6).unwrap();
    assert_eq!(plan, MintPlan { collateral_amount: 4985, fee_amount: 29, total_amount: 9_999 });
    mint_ix::settle_at(&mut full, &mut vault, 9_970, &plan, 77).unwrap();
    assert_eq!(full.current_supply, 19_999);
    assert!(full.current_supply <= full.settings.max_supply);
    assert_eq!(full.stats.total_minted, 9_970);
    assert_eq!(full.stats.total_fees, 29);
    assert_eq!(vault.total_collateral, 5985);
    assert_eq!(vault.total_value_locked, 11_470);
    assert_eq!(vault.deposit_count, 1);
    assert_eq!(vault.last_deposit_time, 77);
    assert_eq!(vault.current_ratio, 19164);
    // The supply limit on the amount is checked before the fee is computed:
    // an amount past the maximum whose fee would overflow is refused for
    // the supply.
    let small = coin(0, 1000, 30);
    assert_eq!(
        mint_ix::plan(&small, 9_000_000_000_000_000_000, Ok(1), 6),
        Err(Error::Stablecoin(StablecoinError::MaxSupplyExceeded))
    );
    // The fee is computed after the collateral, as in the instruction.
    let unbounded = coin(0, u64::MAX, 30);
    assert_eq!(
        mint_ix::plan(&unbounded, 9_000_000_000_000_000_000, Ok(1), 0),
        Err(Error::Stablecoin(StablecoinError::MathOverflow))
    );
    assert_eq!(
        mint_ix::plan(&unbounded, 9_000_000_000_000_000_000, Err(so(StableFunError::StaleOraclePrice)), 0),
        Err(so(StableFunError::StaleOraclePrice))
    );
    // A supply that the amount would carry past `u64::MAX` exceeds the maximum.
    let over = coin(u64::MAX - 5, u64::MAX, 0);
    assert_eq!(mint_ix::plan(&over, 10, Ok(1), 6), Err(Error::Stablecoin(StablecoinError::MaxSupplyExceeded)));
    // A supply that the total would carry past `u64::MAX` exceeds the maximum.
    let top = coin(u64::MAX - 5, u64::MAX, 30);
    assert_eq!(mint_ix::plan(&top, 10, Ok(1), 6), Err(Error::Stablecoin(StablecoinError::MaxSupplyExceeded)));
    let mut again = coin(10_000, 20_000, 30);
    let mut vault = vault_with(1000, 1500);
    assert_eq!(mint_ix::settle(&mut again, &mut vault, 10_000, &plan), Err(Error::ClockUnavailable));
    assert_eq!(again.current_supply, 10_000);
    // The value locked is checked before the clock is read.
    let mut full_vault = StablecoinVault::new(addr(1), addr(2), addr(3), 7);
    full_vault.total_collateral = 1000;
    full_vault.total_value_locked = u64::MAX - 5;
    assert_eq!(
        mint_ix::settle(&mut again, &mut full_vault, 10, &plan),
        Err(Error::Stablecoin(StablecoinError::MathOverflow))
    );
    assert_eq!(full_vault.total_collateral, 1000 + plan.collateral_amount);
    assert_eq!(full_vault.total_value_locked, u64::MAX - 5);
    assert_eq!(again.current_supply, 10_000);
}

#[test]
fn redeem_instruction() {
    let m = coin(100_000, 1_000_000, 30);
    let v = vault_with(200_000, 150_000);
    let plan = redeem_ix::plan(&m, &v, 10_000, 20_000, Ok(1_000_000), 6).unwrap();
    assert_eq!(
        plan,
        RedeemPlan { collateral_amount: 10_000, fee_amount: 30, burn_amount: 10_030, remaining_supply: 89_970 }
    );
    assert_eq!(redeem_ix::plan(&m, &v, 0, 20_000, Ok(1), 6), Err(so(StableFunError::InvalidAmount)));
    assert_eq!(redeem_ix::plan(&m, &v, 30_000, 20_000, Ok(1), 6), Err(so(StableFunError::InsufficientBalance)));
    assert_eq!(
        redeem_ix::plan(&m, &v, 10_000, 20_000, Ok(1), 6),
        Err(so(StableFunError::InsufficientCollateral))
    );
    assert_eq!(
        redeem_ix::plan(&coin(5000, 1_000_000, 30), &v, 10_000, 20_000, Ok(1_000_000), 6),
        Err(so(StableFunError::MathOverflow))
    );
    // The remaining collateral must stay between the minimum and 300%.
    assert_eq!(
        redeem_ix::plan(&coin(12_000, 1_000_000, 0), &v, 10_000, 20_000, Ok(1_000_000), 6),
        Err(so(StableFunError::CollateralRatioTooLow))
    );
    assert_eq!(redeem_ix::calculate_fee(u64::MAX, 2), Err(so(StableFunError::MathOverflow)));
    let mut vault = v;
    redeem_ix::update_vault_state_at(&mut vault, 10_000, plan.collateral_amount, 5).unwrap();
    assert_eq!(vault.total_collateral, 190_000);
    assert_eq!(vault.total_value_locked, 140_000);
    assert_eq!(vault.withdrawal_count, 1);
    assert_eq!(vault.last_withdrawal_time, 5);
    assert_eq!(redeem_ix::update_vault_state(&mut vault, 1, 1), Err(Error::ClockUnavailable));
    assert_eq!(vault.total_collateral, 190_000);
    // The collateral, the value and the count are checked before the clock
    // is read.
    assert_eq!(redeem_ix::update_vault_state(&mut vault, 1, 190_001), Err(so(StableFunError::MathOverflow)));
    assert_eq!(vault.total_collateral, 190_000);
    assert_eq!(redeem_ix::update_vault_state(&mut vault, 140_001, 1), Err(so(StableFunError::MathOverflow)));
    assert_eq!(vault.total_collateral, 189_999);
    assert_eq!(vault.total_value_locked, 140_000);
    let mut coin_after = m.clone();
    redeem_ix::update_stablecoin_state(&mut coin_after, plan.remaining_supply, 10_000, plan.fee_amount).unwrap();
    assert_eq!(coin_after.current_supply, 89_970);
    assert_eq!(coin_after.stats.total_burned, 10_000);
    assert_eq!(coin_after.stats.total_fees, 30);
}

#[test]
fn settings_updates() {
    let accounts = UpdateSettings { authority: addr(9), stablecoin_mint: addr(1) };
    let mut m = coin(500, 1000, 30);
    let params = UpdateSettingsParams {
        min_collateral_ratio: Some(20000),
        fee_basis_points: Some(50),
        max_supply: Some(2_000_000),
        mint_paused: Some(true),
        redeem_paused: None,
    };
    let event = update_ix::handler_at(&accounts, &mut m, params, 99).unwrap();
    assert_eq!(m.settings.min_collateral_ratio, 20000);
    assert_eq!(m.settings.fee_basis_points, 50);
    assert_eq!(m.settings.max_supply, 2_000_000);
    assert!(m.settings.mint_paused && !m.settings.redeem_paused);
    assert_eq!(m.last_updated, 99);
    assert_eq!(event.old_settings, event.new_settings);
    assert_eq!(event.new_settings, m.settings);
    assert_eq!(event.timestamp, 99);

    // A refused fee leaves the ratio already applied.
    let mut m = coin(500, 1000, 30);
    let bad_fee = UpdateSettingsParams { fee_basis_points: Some(1001), ..params };
    assert_eq!(update_ix::handler_at(&accounts, &mut m, bad_fee, 1), Err(Error::Update(UpdateError::InvalidFee)));
    assert_eq!(m.settings.min_collateral_ratio, 20000);
    assert_eq!(m.settings.fee_basis_points, 30);
    let low = UpdateSettingsParams { min_collateral_ratio: Some(9999), ..params };
    assert_eq!(
        update_ix::handler_at(&accounts, &mut coin(500, 1000, 30), low, 1),
        Err(Error::Update(UpdateError::InvalidCollateralRatio))
    );
    let small = UpdateSettingsParams { max_supply: Some(499), ..params };
    assert_eq!(
        update_ix::handler_at(&accounts, &mut coin(500, 1000, 30), small, 1),
        Err(Error::Update(UpdateError::InvalidMaxSupply))
    );
    let stranger = UpdateSettings { authority: addr(8), stablecoin_mint: addr(1) };
    assert_eq!(
        update_ix::handler_at(&stranger, &mut coin(500, 1000, 30), params, 1),
        Err(Error::Update(UpdateError::UnauthorizedUpdate))
    );
    // The entry point checks the signer, then refuses a low ratio, then needs the clock.
    assert_eq!(
        stable_fun::update_settings(&stranger, &mut coin(500, 1000, 30), low),
        Err(Error::Update(UpdateError::UnauthorizedUpdate))
    );
    assert_eq!(stable_fun::update_settings(&accounts, &mut coin(500, 1000, 30), low), Err(so(StableFunError::CollateralRatioTooLow)));
    assert_eq!(stable_fun::update_settings(&accounts, &mut coin(500, 1000, 30), params), Err(Error::ClockUnavailable));
}

#[test]
fn metadata_updates() {
    let accounts = UpdateMetadata { authority: addr(9), stablecoin_mint: addr(1) };
    let mut m = coin(0, 0, 0);
    let params = UpdateMetadataParams { name: Some("New Name".to_string()), symbol: Some("NEW".to_string()), icon_uri: None };
    let event = update_ix::update_metadata_at(&accounts, &mut m, params, 42).unwrap();
    assert_eq!(m.name, "New Name");
    assert_eq!(m.symbol, "NEW");
    assert_eq!(event.name, "New Name");
    assert_eq!(event.timestamp, 42);
    let long_symbol = UpdateMetadataParams { name: Some("Other".to_string()), symbol: Some("TOOLONGSYMBOL".to_string()), icon_uri: None };
    assert_eq!(
        update_ix::update_metadata_at(&accounts, &mut m, long_symbol, 43).map(|_| ()),
        Err(Error::Update(UpdateError::InvalidSymbol))
    );
    assert_eq!(m.name, "Other");
    assert_eq!(m.symbol, "NEW");
    let empty = UpdateMetadataParams { name: Some(String::new()), symbol: None, icon_uri: None };
    assert_eq!(update_ix::update_metadata_at(&accounts, &mut m, empty, 44).map(|_| ()), Err(Error::Update(UpdateError::InvalidName)));
    // The signer is checked before the clock is read.
    let stranger = UpdateMetadata { authority: addr(8), stablecoin_mint: addr(1) };
    let before = m.clone();
    let again = UpdateMetadataParams { name: Some("Third".to_string()), symbol: None, icon_uri: None };
    assert_eq!(
        update_ix::update_metadata(&stranger, &mut m, again.clone()).map(|_| ()),
        Err(Error::Update(UpdateError::UnauthorizedUpdate))
    );
    assert_eq!((m.name.as_str(), m.symbol.as_str(), m.last_updated), (before.name.as_str(), before.symbol.as_str(), before.last_updated));
    assert_eq!(update_ix::update_metadata(&accounts, &mut m, again).map(|_| ()), Err(Error::ClockUnavailable));
    assert_eq!((m.name.as_str(), m.symbol.as_str(), m.last_updated), (before.name.as_str(), before.symbol.as_str(), before.last_updated));
}

#[test]
fn initialize_instruction() {
    let accounts = Initialize {
        authority: addr(9),
        stablecoin_mint: addr(1),
        token_mint: addr(10),
        stablebond_mint: addr(11),
        vault: addr(2),
        vault_token_account: addr(3),
        price_feed: addr(12),
    };
    let (m, v, event) =
        init::handler_at(&accounts, 5, 1234, 254, "Test Coin".to_string(), "TEST".to_string(), "USD".to_string(), 77).unwrap();
    assert_eq!(m.name, "Test Coin");
    assert_eq!(m.current_supply, 0);
    assert_eq!(m.settings.min_collateral_ratio, 15000);
    assert_eq!(m.settings.fee_basis_points, 30);
    assert_eq!(m.settings.max_supply, u64::MAX);
    assert_eq!(m.created_at, 1234);
    assert_eq!(v.collateral_account, addr(3));
    assert_eq!(v.bump, 254);
    assert_eq!(v.last_deposit_time, 1234);
    assert_eq!(event.symbol, "TEST");
    let run = |name: &str, symbol: &str, currency: &str, opened: i64| {
        init::handler_at(&accounts, opened, 1, 1, name.to_string(), symbol.to_string(), currency.to_string(), 0).map(|_| ())
    };
    assert_eq!(run("Te", "TEST", "USD", 5), Err(so(StableFunError::NameTooShort)));
    assert_eq!(run("Test", "T", "USD", 5), Err(so(StableFunError::SymbolTooShort)));
    assert_eq!(run("Test", "TE", "", 5), Err(so(StableFunError::InvalidCurrency)));
    assert_eq!(run("Test", "TE", "USD", 0), Err(so(StableFunError::InvalidOracle)));
    let feed = aggregator(1, 6, 5, 0);
    assert_eq!(
        stable_fun::initialize(&accounts, &feed, 1, "Te".to_string(), "T".to_string(), String::new(), 0).map(|_| ()),
        Err(so(StableFunError::NameTooShort))
    );
    assert_eq!(
        stable_fun::initialize(&accounts, &feed, 1, "Test".to_string(), "TE".to_string(), "USD".to_string(), 0).map(|_| ()),
        Err(Error::ClockUnavailable)
    );
}

#[test]
fn entry_points_refuse_zero_amounts() {
    let m = coin(1000, 20_000, 30);
    let v = vault_with(1000, 1500);
    let feed = aggregator(1_000_000, 6, 5, 0);
    assert_eq!(stable_fun::mint(&mint_accounts(), &m, &v, &feed, 0), Err(so(StableFunError::InvalidAmount)));
    let stranger = MintStablecoin { user: addr(8), ..mint_accounts() };
    assert_eq!(stable_fun::mint(&stranger, &m, &v, &feed, 0), Err(Error::Stablecoin(StablecoinError::UnauthorizedMint)));
    assert_eq!(stable_fun::mint(&mint_accounts(), &m, &v, &feed, 10), Err(Error::ClockUnavailable));
    let accounts = redeem_ix::RedeemStablecoin {
        user: addr(9),
        stablecoin_mint: addr(1),
        user_token_account: TokenAccountState { mint: addr(10), owner: addr(9), amount: 100 },
        token_mint_decimals: 6,
    };
    assert_eq!(stable_fun::redeem(&accounts, &m, &v, &feed, 0), Err(so(StableFunError::InvalidAmount)));
    assert_eq!(stable_fun::redeem(&accounts, &m, &v, &feed, 10), Err(Error::ClockUnavailable));
    assert_eq!(StableFunError::EmptyVault.message(), "Empty vault");
}

#[test]
fn redeem_undoes_mint() {
    let mut m = coin(100_000, 1_000_000, 30);
    let mut v = vault_with(200_000, 150_000);
    let before = v;
    let mint_plan = mint_ix::plan(&m, 10_000, Ok(2_000_000), 6).unwrap();
    let redeem_plan = redeem_ix::plan(&m, &v, 10_000, 10_000, Ok(2_000_000), 6).unwrap();
    assert_eq!(redeem_plan.collateral_amount, mint_plan.collateral_amount);
    assert_eq!(redeem_plan.fee_amount, mint_plan.fee_amount);
    mint_ix::settle_at(&mut m, &mut v, 10_000, &mint_plan, 1).unwrap();
    redeem_ix::update_vault_state_at(&mut v, 10_000, mint_plan.collateral_amount, 2).unwrap();
    assert_eq!(v.total_collateral, before.total_collateral);
    assert_eq!(v.total_value_locked, before.total_value_locked);
    assert_eq!(v.current_ratio, before.current_ratio);
}
