//! Minting stablecoins against stablebond collateral. The instruction
//! checks its accounts, then plans the mint (`prepare`), moves the tokens
//! (outside the library), and records the mint (`settle`).

use vstd::prelude::*;

use crate::utils::oracle::AggregatorState;

use crate::address::Address;
use crate::chain::clock_unix_timestamp;
use crate::error::Error;
use crate::instructions::{calculate_token_amount, spec_token_amount, verify_oracle_price};
use crate::state::stablecoin::{spec_fee, StablecoinMint, StablecoinStats};
use crate::state::vault::{spec_update_ratio, StablecoinVault};
use crate::utils::token::TokenAccountState;

verus! {

/// Error codes of the mint instruction.
#[derive(Debug, Clone, Copy, PartialEq, Eq, Structural)]
pub enum StablecoinError {
    UnauthorizedMint,
    InvalidVault,
    InvalidMint,
    InvalidTokenAccount,
    InvalidStablebond,
    InvalidVaultAccount,
    InvalidOracle,
    InvalidAmount,
    MathOverflow,
    MintPaused,
    MaxSupplyExceeded,
}

/// The accounts of a mint, as far as the instruction checks them: the
/// signing user, the addresses of the stablecoin account, its token mint
/// (with its decimals), the vault's stablebond account and the price feed,
/// and the user's token and stablebond accounts.
#[derive(Debug, Clone, Copy, PartialEq, Eq)]
pub struct MintStablecoin {
    pub user: Address,
    pub stablecoin_mint: Address,
    pub token_mint: Address,
    pub token_mint_decimals: u8,
    pub user_token_account: TokenAccountState,
    pub user_stablebond_account: TokenAccountState,
    pub vault_stablebond_account: Address,
    pub price_feed: Address,
}

/// The amounts of a mint: the collateral to take in, the fee, and the
/// stablecoins to mint (the amount plus the fee).
#[derive(Debug, Clone, Copy, PartialEq, Eq, Structural)]
pub struct MintPlan {
    pub collateral_amount: u64,
    pub fee_amount: u64,
    pub total_amount: u64,
}

/// What a mint reports.
#[derive(Debug, Clone, Copy, PartialEq, Eq)]
pub struct MintEvent {
    pub stablecoin_mint: Address,
    pub user: Address,
    pub amount: u64,
    pub fee_amount: u64,
    pub collateral_amount: u64,
    pub timestamp: i64,
}

pub open spec fn mint_err<T>(e: StablecoinError) -> Result<T, Error> {
    Err(Error::Stablecoin(e))
}

/// The account constraints of a mint, checked in this order.
pub open spec fn spec_mint_constraints(accounts: MintStablecoin, mint: StablecoinMint, vault: StablecoinVault) -> Result<(), Error> {
    if mint.authority@ != accounts.user@ {
        mint_err(StablecoinError::UnauthorizedMint)
    } else if vault.stablecoin_mint@ != accounts.stablecoin_mint@ {
        mint_err(StablecoinError::InvalidVault)
    } else if accounts.token_mint@ != mint.token_mint@ {
        mint_err(StablecoinError::InvalidMint)
    } else if accounts.user_token_account.mint@ != accounts.token_mint@ || accounts.user_token_account.owner@
        != accounts.user@ {
        mint_err(StablecoinError::InvalidTokenAccount)
    } else if accounts.user_stablebond_account.mint@ != mint.stablebond_mint@
        || accounts.user_stablebond_account.owner@ != accounts.user@ {
        mint_err(StablecoinError::InvalidStablebond)
    } else if accounts.vault_stablebond_account@ != vault.collateral_account@ {
        mint_err(StablecoinError::InvalidVaultAccount)
    } else if accounts.price_feed@ != mint.price_feed@ {
        mint_err(StablecoinError::InvalidOracle)
    } else {
        Ok(())
    }
}

/// The fee and the total of a mint of `amount` fit in a `u64`.
pub open spec fn mint_total_fits(mint: StablecoinMint, amount: u64) -> bool {
    &&& amount * mint.settings.fee_basis_points <= u64::MAX
    &&& amount + spec_fee(amount, mint.settings.fee_basis_points) <= u64::MAX
}

/// Where planning a mint would compute a power of ten: the checks before
/// the price all pass.
pub open spec fn mint_reaches_price(mint: StablecoinMint, amount: u64) -> bool {
    &&& !mint.settings.mint_paused
    &&& amount > 0
    &&& mint.current_supply + amount <= mint.settings.max_supply
}

/// The plan of a mint of `amount` given the outcome of the price check, in
/// this order: minting not paused, a positive amount, a supply within the
/// maximum after adding the amount, the price, the collateral `amount *
/// 10^decimals / price`, the fee and the total `amount + fee` within a
/// `u64`, and a supply within the maximum after adding the total.
pub open spec fn spec_mint_plan(mint: StablecoinMint, amount: u64, oracle_price: Result<u64, Error>, decimals: u8) -> Result<MintPlan, Error> {
    let fee = spec_fee(amount, mint.settings.fee_basis_points);
    if mint.settings.mint_paused {
        mint_err(StablecoinError::MintPaused)
    } else if amount == 0 {
        mint_err(StablecoinError::InvalidAmount)
    } else if mint.current_supply + amount > mint.settings.max_supply {
        mint_err(StablecoinError::MaxSupplyExceeded)
    } else {
        match oracle_price {
            Err(e) => Err(e),
            Ok(price) => match spec_token_amount(amount, price, decimals) {
                Err(e) => Err(e),
                Ok(collateral) => if !mint_total_fits(mint, amount) {
                    mint_err(StablecoinError::MathOverflow)
                } else if mint.current_supply + amount + fee > mint.settings.max_supply {
                    mint_err(StablecoinError::MaxSupplyExceeded)
                } else {
                    Ok(
                        MintPlan {
                            collateral_amount: collateral,
                            fee_amount: fee as u64,
                            total_amount: (amount + fee) as u64,
                        },
                    )
                },
            },
        }
    }
}

/// The accounts and the result after recording a planned mint at time
/// `now`, in order: the collateral and value added to the vault (the value
/// overflowing ends it), its deposit count and time, its ratio, then the
/// supply, minted total and fee total of the stablecoin (each overflow
/// ends it), the steps before an error done.
pub open spec fn spec_mint_settle(
    mint: StablecoinMint,
    vault: StablecoinVault,
    amount: u64,
    plan: MintPlan,
    now: i64,
) -> (StablecoinMint, StablecoinVault, Result<(), Error>) {
    let v1 = StablecoinVault {
        total_collateral: (vault.total_collateral + plan.collateral_amount) as u64,
        ..vault
    };
    if v1.total_value_locked + amount > u64::MAX {
        (mint, v1, mint_err(StablecoinError::MathOverflow))
    } else {
        let v2 = StablecoinVault {
            total_value_locked: (v1.total_value_locked + amount) as u64,
            deposit_count: (v1.deposit_count + 1) as u32,
            last_deposit_time: now,
            ..v1
        };
        let (v3, ratio) = spec_update_ratio(v2);
        if ratio is Err {
            (mint, v3, ratio)
        } else if mint.current_supply + plan.total_amount > u64::MAX {
            (mint, v3, mint_err(StablecoinError::MathOverflow))
        } else {
            let m1 = StablecoinMint { current_supply: (mint.current_supply + plan.total_amount) as u64, ..mint };
            if m1.stats.total_minted + amount > u64::MAX {
                (m1, v3, mint_err(StablecoinError::MathOverflow))
            } else {
                let m2 = StablecoinMint {
                    stats: StablecoinStats { total_minted: (m1.stats.total_minted + amount) as u64, ..m1.stats },
                    ..m1
                };
                if m2.stats.total_fees + plan.fee_amount > u64::MAX {
                    (m2, v3, mint_err(StablecoinError::MathOverflow))
                } else {
                    let m3 = StablecoinMint {
                        stats: StablecoinStats {
                            total_fees: (m2.stats.total_fees + plan.fee_amount) as u64,
                            ..m2.stats
                        },
                        ..m2
                    };
                    (m3, v3, Ok(()))
                }
            }
        }
    }
}

/// Recording a mint adds to the vault's collateral and deposit count
/// without checks (they panic on overflow): both must fit.
pub open spec fn settle_fits(vault: StablecoinVault, amount: u64, plan: MintPlan) -> bool {
    &&& vault.total_collateral + plan.collateral_amount <= u64::MAX
    &&& vault.total_value_locked + amount <= u64::MAX ==> vault.deposit_count < u32::MAX
}

impl MintStablecoin {
    /// Checks the account constraints of a mint.
    pub fn check_constraints(&self, stablecoin_mint: &StablecoinMint, vault: &StablecoinVault) -> (r: Result<(), Error>)
        ensures
            r == spec_mint_constraints(*self, *stablecoin_mint, *vault),
    {
        if !stablecoin_mint.authority.same_as(&self.user) {
            return Err(Error::Stablecoin(StablecoinError::UnauthorizedMint));
        }
        if !vault.stablecoin_mint.same_as(&self.stablecoin_mint) {
            return Err(Error::Stablecoin(StablecoinError::InvalidVault));
        }
        if !self.token_mint.same_as(&stablecoin_mint.token_mint) {
            return Err(Error::Stablecoin(StablecoinError::InvalidMint));
        }
        if !self.user_token_account.mint.same_as(&self.token_mint) || !self.user_token_account.owner.same_as(
            &self.user,
        ) {
            return Err(Error::Stablecoin(StablecoinError::InvalidTokenAccount));
        }
        if !self.user_stablebond_account.mint.same_as(&stablecoin_mint.stablebond_mint)
            || !self.user_stablebond_account.owner.same_as(&self.user) {
            return Err(Error::Stablecoin(StablecoinError::InvalidStablebond));
        }
        if !self.vault_stablebond_account.same_as(&vault.collateral_account) {
            return Err(Error::Stablecoin(StablecoinError::InvalidVaultAccount));
        }
        if !self.price_feed.same_as(&stablecoin_mint.price_feed) {
            return Err(Error::Stablecoin(StablecoinError::InvalidOracle));
        }
        Ok(())
    }
}

/// Checks the accounts of a mint and plans it, with the price read from
/// the feed (five minutes of staleness at most).
pub fn prepare(
    accounts: &MintStablecoin,
    stablecoin_mint: &StablecoinMint,
    vault: &StablecoinVault,
    price_feed: &AggregatorState,
    amount: u64,
) -> (r: Result<MintPlan, Error>)
    requires
        spec_mint_constraints(*accounts, *stablecoin_mint, *vault) is Ok && mint_reaches_price(*stablecoin_mint, amount)
            ==> accounts.token_mint_decimals <= 19,
    ensures
        spec_mint_constraints(*accounts, *stablecoin_mint, *vault) is Err ==> r == Err::<MintPlan, Error>(
            spec_mint_constraints(*accounts, *stablecoin_mint, *vault)->Err_0,
        ),
        spec_mint_constraints(*accounts, *stablecoin_mint, *vault) is Ok ==> exists|price: Result<u64, Error>|
                crate::utils::switchboard::feed_price_outcome(*price_feed, crate::instructions::ORACLE_MAX_STALENESS, price) &&
            r == spec_mint_plan(*stablecoin_mint, amount, price, accounts.token_mint_decimals),
{
    match accounts.check_constraints(stablecoin_mint, vault) {
        Ok(_) => {},
        Err(e) => return Err(e),
    }
    let price = verify_oracle_price(price_feed);
    plan(stablecoin_mint, amount, price, accounts.token_mint_decimals)
}

/// Plans a mint of `amount` given the outcome of the price check.
pub fn plan(stablecoin_mint: &StablecoinMint, amount: u64, oracle_price: Result<u64, Error>, decimals: u8) -> (r: Result<MintPlan, Error>)
    requires
        mint_reaches_price(*stablecoin_mint, amount) && oracle_price is Ok ==> decimals <= 19,
    ensures
        r == spec_mint_plan(*stablecoin_mint, amount, oracle_price, decimals),
{
    if stablecoin_mint.settings.mint_paused {
        return Err(Error::Stablecoin(StablecoinError::MintPaused));
    }
    if amount == 0 {
        return Err(Error::Stablecoin(StablecoinError::InvalidAmount));
    }
    match stablecoin_mint.current_supply.checked_add(amount) {
        Some(new_supply) => {
            if new_supply > stablecoin_mint.settings.max_supply {
                return Err(Error::Stablecoin(StablecoinError::MaxSupplyExceeded));
            }
        },
        None => return Err(Error::Stablecoin(StablecoinError::MaxSupplyExceeded)),
    }
    let price = match oracle_price {
        Ok(p) => p,
        Err(e) => return Err(e),
    };
    let collateral_amount = match calculate_token_amount(amount, price, decimals) {
        Ok(c) => c,
        Err(e) => return Err(e),
    };
    let fee_amount = match amount.checked_mul(stablecoin_mint.settings.fee_basis_points as u64) {
        Some(v) => v / 10000,
        None => return Err(Error::Stablecoin(StablecoinError::MathOverflow)),
    };
    let total_amount = match amount.checked_add(fee_amount) {
        Some(v) => v,
        None => return Err(Error::Stablecoin(StablecoinError::MathOverflow)),
    };
    match stablecoin_mint.current_supply.checked_add(total_amount) {
        Some(new_supply) => {
            if new_supply > stablecoin_mint.settings.max_supply {
                return Err(Error::Stablecoin(StablecoinError::MaxSupplyExceeded));
            }
        },
        None => return Err(Error::Stablecoin(StablecoinError::MaxSupplyExceeded)),
    }
    Ok(MintPlan { collateral_amount, fee_amount, total_amount })
}

/// Recording a mint of `amount` fails before the time is taken: the value
/// locked in the vault would overflow.
pub open spec fn mint_settle_fails_early(vault: StablecoinVault, amount: u64) -> bool {
    vault.total_value_locked + amount > u64::MAX
}

/// Records a planned mint by the clock's time. The value locked is checked
/// before the clock is read: where it would overflow, the outcome is that
/// of `spec_mint_settle` at any time. Otherwise, where the clock cannot be
/// read, `ClockUnavailable` with both accounts unchanged.
pub fn settle(stablecoin_mint: &mut StablecoinMint, vault: &mut StablecoinVault, amount: u64, plan: &MintPlan) -> (r: Result<(), Error>)
    requires
        settle_fits(*old(vault), amount, *plan),
    ensures
        mint_settle_fails_early(*old(vault), amount) ==> forall|now: i64|
            (*final(stablecoin_mint), *final(vault), r) == #[trigger] spec_mint_settle(
                *old(stablecoin_mint),
                *old(vault),
                amount,
                *plan,
                now,
            ),
        r == Err::<(), Error>(Error::ClockUnavailable) ==> !mint_settle_fails_early(*old(vault), amount)
            && *final(stablecoin_mint) == *old(stablecoin_mint) && *final(vault) == *old(vault),
        r != Err::<(), Error>(Error::ClockUnavailable) ==> exists|now: i64|
            (*final(stablecoin_mint), *final(vault), r) == spec_mint_settle(
                *old(stablecoin_mint),
                *old(vault),
                amount,
                *plan,
                now,
            ),
{
    if vault.total_value_locked.checked_add(amount).is_none() {
        // No time is recorded on this path: the vault's own deposit time
        // serves.
        let unchanged = vault.last_deposit_time;
        let r = settle_at(stablecoin_mint, vault, amount, plan, unchanged);
        assert(forall|now: i64|
            #[trigger] spec_mint_settle(*old(stablecoin_mint), *old(vault), amount, *plan, now) == spec_mint_settle(
                *old(stablecoin_mint),
                *old(vault),
                amount,
                *plan,
                unchanged,
            ));
        return r;
    }
    match clock_unix_timestamp() {
        Some(now) => settle_at(stablecoin_mint, vault, amount, plan, now),
        None => Err(Error::ClockUnavailable),
    }
}

/// Records a planned mint at time `now`.
pub fn settle_at(
    stablecoin_mint: &mut StablecoinMint,
    vault: &mut StablecoinVault,
    amount: u64,
    plan: &MintPlan,
    now: i64,
) -> (r: Result<(), Error>)
    requires
        settle_fits(*old(vault), amount, *plan),
    ensures
        (*final(stablecoin_mint), *final(vault), r) == spec_mint_settle(
            *old(stablecoin_mint),
            *old(vault),
            amount,
            *plan,
            now,
        ),
{
    vault.total_collateral = vault.total_collateral + plan.collateral_amount;
    vault.total_value_locked = match vault.total_value_locked.checked_add(amount) {
        Some(v) => v,
        None => return Err(Error::Stablecoin(StablecoinError::MathOverflow)),
    };
    vault.deposit_count = vault.deposit_count + 1;
    vault.last_deposit_time = now;
    match vault.update_collateral_ratio() {
        Ok(_) => {},
        Err(e) => return Err(e),
    }
    stablecoin_mint.current_supply = match stablecoin_mint.current_supply.checked_add(plan.total_amount) {
        Some(v) => v,
        None => return Err(Error::Stablecoin(StablecoinError::MathOverflow)),
    };
    stablecoin_mint.stats.total_minted = match stablecoin_mint.stats.total_minted.checked_add(amount) {
        Some(v) => v,
        None => return Err(Error::Stablecoin(StablecoinError::MathOverflow)),
    };
    stablecoin_mint.stats.total_fees = match stablecoin_mint.stats.total_fees.checked_add(plan.fee_amount) {
        Some(v) => v,
        None => return Err(Error::Stablecoin(StablecoinError::MathOverflow)),
    };
    Ok(())
}

/// A mint adds the amount and its fee to the supply and keeps it within
/// the maximum: after a planned and recorded mint the supply is the old
/// supply plus amount and fee, at most the maximum supply, and the vault
/// and the statistics grow by what the plan says.
pub proof fn lemma_mint_supply(
    mint: StablecoinMint,
    vault: StablecoinVault,
    amount: u64,
    price: Result<u64, Error>,
    decimals: u8,
    now: i64,
)
    requires
        spec_mint_plan(mint, amount, price, decimals) is Ok,
        settle_fits(vault, amount, spec_mint_plan(mint, amount, price, decimals)->Ok_0),
        spec_mint_settle(mint, vault, amount, spec_mint_plan(mint, amount, price, decimals)->Ok_0, now).2 is Ok,
    ensures
        ({
            let plan = spec_mint_plan(mint, amount, price, decimals)->Ok_0;
            let after = spec_mint_settle(mint, vault, amount, plan, now);
            &&& plan.total_amount == amount + plan.fee_amount
            &&& after.0.current_supply == mint.current_supply + amount + plan.fee_amount
            &&& after.0.current_supply <= mint.settings.max_supply
            &&& after.1.total_collateral == vault.total_collateral + plan.collateral_amount
            &&& after.1.total_value_locked == vault.total_value_locked + amount
            &&& after.0.stats.total_minted == mint.stats.total_minted + amount
            &&& after.0.stats.total_fees == mint.stats.total_fees + plan.fee_amount
        }),
{
}

} // verus!
