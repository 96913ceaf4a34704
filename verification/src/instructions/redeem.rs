//! Redeeming stablecoins for stablebond collateral. The instruction plans
//! the redemption (`prepare`), burns the stablecoins and returns the
//! collateral (outside the library), then records the redemption in the
//! vault (`update_vault_state`) and the stablecoin account
//! (`update_stablecoin_state`).

use vstd::prelude::*;

use crate::utils::oracle::AggregatorState;

use crate::address::Address;
use crate::chain::clock_unix_timestamp;
use crate::error::{Error, StableFunError};
use crate::instructions::{calculate_token_amount, spec_token_amount, verify_oracle_price};
use crate::state::stablecoin::{spec_fee, StablecoinMint, StablecoinStats};
use crate::instructions::mint::{settle_fits, spec_mint_plan, spec_mint_settle};
use crate::state::vault::{ratio_is_current, spec_update_ratio, StablecoinVault};
use crate::utils::token::TokenAccountState;
use crate::utils::validation::{spec_validate_collateral_ratio, ValidationService};

verus! {

/// The accounts of a redemption, as far as the instruction reads them: the
/// signing user, the address of the stablecoin account, the user's token
/// account and the decimals of the stablecoin's token mint.
#[derive(Debug, Clone, Copy, PartialEq, Eq)]
pub struct RedeemStablecoin {
    pub user: Address,
    pub stablecoin_mint: Address,
    pub user_token_account: TokenAccountState,
    pub token_mint_decimals: u8,
}

/// The amounts of a redemption: the collateral to return, the fee, the
/// stablecoins to burn (the amount plus the fee) and the supply left.
#[derive(Debug, Clone, Copy, PartialEq, Eq, Structural)]
pub struct RedeemPlan {
    pub collateral_amount: u64,
    pub fee_amount: u64,
    pub burn_amount: u64,
    pub remaining_supply: u64,
}

/// What a redemption reports.
#[derive(Debug, Clone, Copy, PartialEq, Eq)]
pub struct RedeemEvent {
    pub stablecoin_mint: Address,
    pub user: Address,
    pub amount: u64,
    pub fee_amount: u64,
    pub collateral_amount: u64,
    pub timestamp: i64,
}

pub open spec fn redeem_err<T>(e: StableFunError) -> Result<T, Error> {
    Err(Error::StableFun(e))
}

/// Where planning a redemption would compute a power of ten: the checks
/// before the price all pass.
pub open spec fn redeem_reaches_price(mint: StablecoinMint, amount: u64, balance: u64) -> bool {
    !mint.settings.redeem_paused && amount > 0 && amount <= balance
}

/// The plan of a redemption of `amount` from an account holding `balance`,
/// given the outcome of the price check, in this order: redeeming not
/// paused, a positive amount within the balance, the price, the collateral
/// `amount * 10^decimals / price`, the fee, the burn `amount + fee`, enough
/// collateral in the vault, enough supply to burn from, and (where supply
/// remains) the collateral ratio of what remains.
pub open spec fn spec_redeem_plan(
    mint: StablecoinMint,
    vault: StablecoinVault,
    amount: u64,
    balance: u64,
    oracle_price: Result<u64, Error>,
    decimals: u8,
) -> Result<RedeemPlan, Error> {
    if mint.settings.redeem_paused {
        redeem_err(StableFunError::RedeemingPaused)
    } else if amount == 0 {
        redeem_err(StableFunError::InvalidAmount)
    } else if amount > balance {
        redeem_err(StableFunError::InsufficientBalance)
    } else {
        match oracle_price {
            Err(e) => Err(e),
            Ok(price) => match spec_token_amount(amount, price, decimals) {
                Err(e) => Err(e),
                Ok(collateral) => if amount * mint.settings.fee_basis_points > u64::MAX {
                    redeem_err(StableFunError::MathOverflow)
                } else {
                    let fee = spec_fee(amount, mint.settings.fee_basis_points);
                    if amount + fee > u64::MAX {
                        redeem_err(StableFunError::MathOverflow)
                    } else if collateral > vault.total_collateral {
                        redeem_err(StableFunError::InsufficientCollateral)
                    } else if amount + fee > mint.current_supply {
                        redeem_err(StableFunError::MathOverflow)
                    } else {
                        let remaining_collateral = (vault.total_collateral - collateral) as u64;
                        let remaining_supply = (mint.current_supply - (amount + fee)) as u64;
                        if remaining_supply > 0 && spec_validate_collateral_ratio(
                            remaining_collateral,
                            remaining_supply,
                            mint.settings.min_collateral_ratio,
                        ) is Err {
                            Err(
                                spec_validate_collateral_ratio(
                                    remaining_collateral,
                                    remaining_supply,
                                    mint.settings.min_collateral_ratio,
                                )->Err_0,
                            )
                        } else {
                            Ok(
                                RedeemPlan {
                                    collateral_amount: collateral,
                                    fee_amount: fee as u64,
                                    burn_amount: (amount + fee) as u64,
                                    remaining_supply,
                                },
                            )
                        }
                    }
                },
            },
        }
    }
}

/// The vault and the result after recording a redemption of `amount`
/// returning `collateral_amount` at time `now`: the collateral, the value
/// and the count (each overflow ends it with `MathOverflow`), the time, the
/// ratio; the steps before an error done.
pub open spec fn spec_redeem_vault(vault: StablecoinVault, amount: u64, collateral_amount: u64, now: i64) -> (StablecoinVault, Result<(), Error>) {
    if collateral_amount > vault.total_collateral {
        (vault, redeem_err(StableFunError::MathOverflow))
    } else {
        let v1 = StablecoinVault { total_collateral: (vault.total_collateral - collateral_amount) as u64, ..vault };
        if amount > v1.total_value_locked {
            (v1, redeem_err(StableFunError::MathOverflow))
        } else {
            let v2 = StablecoinVault { total_value_locked: (v1.total_value_locked - amount) as u64, ..v1 };
            if v2.withdrawal_count + 1 > u32::MAX {
                (v2, redeem_err(StableFunError::MathOverflow))
            } else {
                spec_update_ratio(
                    StablecoinVault {
                        withdrawal_count: (v2.withdrawal_count + 1) as u32,
                        last_withdrawal_time: now,
                        ..v2
                    },
                )
            }
        }
    }
}

/// The stablecoin account and the result after recording a redemption:
/// the supply set to what remains, then the burned and fee totals (each
/// overflow ends it with `MathOverflow`).
pub open spec fn spec_redeem_stablecoin(mint: StablecoinMint, remaining_supply: u64, amount: u64, fee_amount: u64) -> (StablecoinMint, Result<(), Error>) {
    let m1 = StablecoinMint { current_supply: remaining_supply, ..mint };
    if m1.stats.total_burned + amount > u64::MAX {
        (m1, redeem_err(StableFunError::MathOverflow))
    } else {
        let m2 = StablecoinMint {
            stats: StablecoinStats { total_burned: (m1.stats.total_burned + amount) as u64, ..m1.stats },
            ..m1
        };
        if m2.stats.total_fees + fee_amount > u64::MAX {
            (m2, redeem_err(StableFunError::MathOverflow))
        } else {
            (
                StablecoinMint {
                    stats: StablecoinStats { total_fees: (m2.stats.total_fees + fee_amount) as u64, ..m2.stats },
                    ..m2
                },
                Ok(()),
            )
        }
    }
}

/// Plans a redemption, with the price read from the feed (five minutes of
/// staleness at most).
pub fn prepare(
    accounts: &RedeemStablecoin,
    stablecoin_mint: &StablecoinMint,
    vault: &StablecoinVault,
    price_feed: &AggregatorState,
    amount: u64,
) -> (r: Result<RedeemPlan, Error>)
    requires
        redeem_reaches_price(*stablecoin_mint, amount, accounts.user_token_account.amount)
            ==> accounts.token_mint_decimals <= 19,
    ensures
        exists|price: Result<u64, Error>|
                crate::utils::switchboard::feed_price_outcome(*price_feed, crate::instructions::ORACLE_MAX_STALENESS, price) &&
            r == spec_redeem_plan(
                *stablecoin_mint,
                *vault,
                amount,
                accounts.user_token_account.amount,
                price,
                accounts.token_mint_decimals,
            ),
{
    let price = verify_oracle_price(price_feed);
    plan(
        stablecoin_mint,
        vault,
        amount,
        accounts.user_token_account.amount,
        price,
        accounts.token_mint_decimals,
    )
}

/// Plans a redemption of `amount` from an account holding `balance`, given
/// the outcome of the price check.
pub fn plan(
    stablecoin_mint: &StablecoinMint,
    vault: &StablecoinVault,
    amount: u64,
    balance: u64,
    oracle_price: Result<u64, Error>,
    decimals: u8,
) -> (r: Result<RedeemPlan, Error>)
    requires
        redeem_reaches_price(*stablecoin_mint, amount, balance) && oracle_price is Ok ==> decimals <= 19,
    ensures
        r == spec_redeem_plan(*stablecoin_mint, *vault, amount, balance, oracle_price, decimals),
{
    if stablecoin_mint.settings.redeem_paused {
        return Err(Error::StableFun(StableFunError::RedeemingPaused));
    }
    if amount == 0 {
        return Err(Error::StableFun(StableFunError::InvalidAmount));
    }
    if amount > balance {
        return Err(Error::StableFun(StableFunError::InsufficientBalance));
    }
    let price = match oracle_price {
        Ok(p) => p,
        Err(e) => return Err(e),
    };
    let collateral_amount = match calculate_token_amount(amount, price, decimals) {
        Ok(c) => c,
        Err(e) => return Err(e),
    };
    let fee_amount = match calculate_fee(amount, stablecoin_mint.settings.fee_basis_points) {
        Ok(f) => f,
        Err(e) => return Err(e),
    };
    let burn_amount = match amount.checked_add(fee_amount) {
        Some(v) => v,
        None => return Err(Error::StableFun(StableFunError::MathOverflow)),
    };
    if collateral_amount > vault.total_collateral {
        return Err(Error::StableFun(StableFunError::InsufficientCollateral));
    }
    let remaining_collateral = vault.total_collateral - collateral_amount;
    let remaining_supply = match stablecoin_mint.current_supply.checked_sub(burn_amount) {
        Some(v) => v,
        None => return Err(Error::StableFun(StableFunError::MathOverflow)),
    };
    if remaining_supply > 0 {
        match ValidationService::validate_collateral_ratio(
            remaining_collateral,
            remaining_supply,
            stablecoin_mint.settings.min_collateral_ratio,
        ) {
            Ok(_) => {},
            Err(e) => return Err(e),
        }
    }
    Ok(RedeemPlan { collateral_amount, fee_amount, burn_amount, remaining_supply })
}

/// The fee on a redemption: `amount * fee_basis_points / 10000`, or
/// `MathOverflow` where the product does not fit in a `u64`.
pub fn calculate_fee(amount: u64, fee_basis_points: u16) -> (r: Result<u64, Error>)
    ensures
        amount * fee_basis_points <= u64::MAX ==> r == Ok::<u64, Error>(spec_fee(amount, fee_basis_points) as u64),
        amount * fee_basis_points > u64::MAX ==> r == redeem_err::<u64>(StableFunError::MathOverflow),
{
    match amount.checked_mul(fee_basis_points as u64) {
        Some(v) => Ok(v / 10000),
        None => Err(Error::StableFun(StableFunError::MathOverflow)),
    }
}

/// Recording a redemption fails before the time is taken: the collateral
/// or the value locked would go below zero, or the withdrawal count
/// overflow.
pub open spec fn redeem_vault_fails_early(vault: StablecoinVault, amount: u64, collateral_amount: u64) -> bool {
    ||| collateral_amount > vault.total_collateral
    ||| amount > vault.total_value_locked
    ||| vault.withdrawal_count == u32::MAX
}

/// Records a redemption in the vault by the clock's time. The collateral,
/// the value and the count are checked before the clock is read: where one
/// fails, the outcome is that of `spec_redeem_vault` at any time.
/// Otherwise, where the clock cannot be read, `ClockUnavailable` with the
/// vault unchanged.
pub fn update_vault_state(vault: &mut StablecoinVault, amount: u64, collateral_amount: u64) -> (r: Result<(), Error>)
    ensures
        redeem_vault_fails_early(*old(vault), amount, collateral_amount) ==> forall|now: i64|
            (*final(vault), r) == #[trigger] spec_redeem_vault(*old(vault), amount, collateral_amount, now),
        r == Err::<(), Error>(Error::ClockUnavailable) ==> !redeem_vault_fails_early(*old(vault), amount, collateral_amount)
            && *final(vault) == *old(vault),
        r != Err::<(), Error>(Error::ClockUnavailable) ==> exists|now: i64|
            (*final(vault), r) == spec_redeem_vault(*old(vault), amount, collateral_amount, now),
{
    if vault.total_collateral < collateral_amount || vault.total_value_locked < amount || vault.withdrawal_count
        == u32::MAX {
        // No time is recorded on this path: the vault's own withdrawal time
        // serves.
        let unchanged = vault.last_withdrawal_time;
        let r = update_vault_state_at(vault, amount, collateral_amount, unchanged);
        assert(forall|now: i64|
            #[trigger] spec_redeem_vault(*old(vault), amount, collateral_amount, now) == spec_redeem_vault(
                *old(vault),
                amount,
                collateral_amount,
                unchanged,
            ));
        return r;
    }
    match clock_unix_timestamp() {
        Some(now) => update_vault_state_at(vault, amount, collateral_amount, now),
        None => Err(Error::ClockUnavailable),
    }
}

/// Records a redemption in the vault at time `now`.
pub fn update_vault_state_at(vault: &mut StablecoinVault, amount: u64, collateral_amount: u64, now: i64) -> (r: Result<(), Error>)
    ensures
        (*final(vault), r) == spec_redeem_vault(*old(vault), amount, collateral_amount, now),
{
    vault.total_collateral = match vault.total_collateral.checked_sub(collateral_amount) {
        Some(v) => v,
        None => return Err(Error::StableFun(StableFunError::MathOverflow)),
    };
    vault.total_value_locked = match vault.total_value_locked.checked_sub(amount) {
        Some(v) => v,
        None => return Err(Error::StableFun(StableFunError::MathOverflow)),
    };
    vault.withdrawal_count = match vault.withdrawal_count.checked_add(1) {
        Some(v) => v,
        None => return Err(Error::StableFun(StableFunError::MathOverflow)),
    };
    vault.last_withdrawal_time = now;
    vault.update_collateral_ratio()
}

/// Records a redemption in the stablecoin account.
pub fn update_stablecoin_state(stablecoin_mint: &mut StablecoinMint, remaining_supply: u64, amount: u64, fee_amount: u64) -> (r: Result<(), Error>)
    ensures
        (*final(stablecoin_mint), r) == spec_redeem_stablecoin(*old(stablecoin_mint), remaining_supply, amount, fee_amount),
{
    stablecoin_mint.current_supply = remaining_supply;
    stablecoin_mint.stats.total_burned = match stablecoin_mint.stats.total_burned.checked_add(amount) {
        Some(v) => v,
        None => return Err(Error::StableFun(StableFunError::MathOverflow)),
    };
    stablecoin_mint.stats.total_fees = match stablecoin_mint.stats.total_fees.checked_add(fee_amount) {
        Some(v) => v,
        None => return Err(Error::StableFun(StableFunError::MathOverflow)),
    };
    Ok(())
}

/// A planned redemption burns the amount and its fee from the supply,
/// returns no more collateral than the vault holds, and leaves the
/// remaining collateral at the minimum ratio to the remaining supply
/// (where supply remains).
pub proof fn lemma_redeem_plan_bounds(
    mint: StablecoinMint,
    vault: StablecoinVault,
    amount: u64,
    balance: u64,
    price: Result<u64, Error>,
    decimals: u8,
)
    requires
        spec_redeem_plan(mint, vault, amount, balance, price, decimals) is Ok,
    ensures
        ({
            let plan = spec_redeem_plan(mint, vault, amount, balance, price, decimals)->Ok_0;
            &&& plan.burn_amount == amount + plan.fee_amount
            &&& plan.remaining_supply == mint.current_supply - plan.burn_amount
            &&& plan.collateral_amount <= vault.total_collateral
            &&& 0 < amount <= balance
            &&& plan.remaining_supply > 0 ==> spec_validate_collateral_ratio(
                (vault.total_collateral - plan.collateral_amount) as u64,
                plan.remaining_supply,
                mint.settings.min_collateral_ratio,
            ) is Ok
        }),
{
}

/// Redeeming an amount at the price and decimals it was minted at returns
/// exactly the collateral the mint took in, for the same fee.
pub proof fn lemma_redeem_returns_mint_collateral(
    mint: StablecoinMint,
    vault: StablecoinVault,
    amount: u64,
    balance: u64,
    price: u64,
    decimals: u8,
)
    requires
        spec_mint_plan(mint, amount, Ok(price), decimals) is Ok,
        spec_redeem_plan(mint, vault, amount, balance, Ok(price), decimals) is Ok,
    ensures
        spec_redeem_plan(mint, vault, amount, balance, Ok(price), decimals)->Ok_0.collateral_amount
            == spec_mint_plan(mint, amount, Ok(price), decimals)->Ok_0.collateral_amount,
        spec_redeem_plan(mint, vault, amount, balance, Ok(price), decimals)->Ok_0.fee_amount
            == spec_mint_plan(mint, amount, Ok(price), decimals)->Ok_0.fee_amount,
{
}

/// Recording the redemption of what a mint recorded restores the vault:
/// from a vault whose ratio is current, a recorded mint of `amount` taking
/// in `plan.collateral_amount`, followed by the redemption record of the
/// same amount and collateral (with room in the withdrawal counter),
/// succeeds and gives back the collateral, the value locked and the ratio.
pub proof fn lemma_redeem_undoes_mint_in_vault(
    mint: StablecoinMint,
    vault: StablecoinVault,
    amount: u64,
    plan: crate::instructions::mint::MintPlan,
    t1: i64,
    t2: i64,
)
    requires
        ratio_is_current(vault),
        settle_fits(vault, amount, plan),
        spec_mint_settle(mint, vault, amount, plan, t1).2 is Ok,
        vault.withdrawal_count < u32::MAX,
    ensures
        ({
            let after = spec_redeem_vault(spec_mint_settle(mint, vault, amount, plan, t1).1, amount, plan.collateral_amount, t2);
            &&& after.1 is Ok
            &&& after.0.total_collateral == vault.total_collateral
            &&& after.0.total_value_locked == vault.total_value_locked
            &&& after.0.current_ratio == vault.current_ratio
        }),
{
}

} // verus!
