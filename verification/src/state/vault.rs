//! The vault that holds a stablecoin's collateral.

use vstd::prelude::*;

use super::{StateAccount, DISCRIMINATOR_LENGTH, PUBKEY_LENGTH};
use crate::address::Address;
use crate::error::{Error, StableFunError};

verus! {

/// The collateral vault of a stablecoin.
#[derive(Debug, Clone, Copy, PartialEq, Eq)]
pub struct StablecoinVault {
    pub stablecoin_mint: Address,
    pub authority: Address,
    pub collateral_account: Address,
    pub total_collateral: u64,
    pub total_value_locked: u64,
    pub current_ratio: u16,
    pub last_deposit_time: i64,
    pub last_withdrawal_time: i64,
    pub deposit_count: u32,
    pub withdrawal_count: u32,
    pub bump: u8,
}

impl StateAccount for StablecoinVault {
    const LEN: usize = DISCRIMINATOR_LENGTH + PUBKEY_LENGTH + PUBKEY_LENGTH + PUBKEY_LENGTH + 8 + 8
        + 2 + 8 + 8 + 4 + 4 + 1;
}

/// The collateral ratio of a vault in basis points, `value * 10000 /
/// collateral`: `Some(0)` for an empty vault, `None` where the ratio does
/// not fit in a `u16`.
pub open spec fn spec_collateral_ratio(value_locked: u64, collateral: u64) -> Option<u16> {
    if value_locked == 0 || collateral == 0 {
        Some(0u16)
    } else if value_locked * 10000 / (collateral as int) <= u16::MAX {
        Some((value_locked * 10000 / (collateral as int)) as u16)
    } else {
        None
    }
}

/// A vault whose recorded ratio is the ratio of its totals.
pub open spec fn ratio_is_current(vault: StablecoinVault) -> bool {
    spec_collateral_ratio(vault.total_value_locked, vault.total_collateral) == Some(
        vault.current_ratio,
    )
}

/// The vault and the result after recomputing the ratio: the ratio of the
/// totals, or `MathOverflow` with the vault unchanged.
pub open spec fn spec_update_ratio(vault: StablecoinVault) -> (StablecoinVault, Result<(), Error>) {
    match spec_collateral_ratio(vault.total_value_locked, vault.total_collateral) {
        Some(ratio) => (StablecoinVault { current_ratio: ratio, ..vault }, Ok(())),
        None => (vault, Err(Error::StableFun(StableFunError::MathOverflow))),
    }
}

/// The vault and the result after a deposit of `amount` collateral worth
/// `value` at time `now`. Each step that overflows ends the operation with
/// `MathOverflow`, the steps before it done.
pub open spec fn spec_deposit(vault: StablecoinVault, amount: u64, value: u64, now: i64) -> (
    StablecoinVault,
    Result<(), Error>,
) {
    let overflow = Err(Error::StableFun(StableFunError::MathOverflow));
    if vault.total_collateral + amount > u64::MAX {
        (vault, overflow)
    } else {
        let v1 = StablecoinVault { total_collateral: (vault.total_collateral + amount) as u64, ..vault };
        if v1.total_value_locked + value > u64::MAX {
            (v1, overflow)
        } else {
            let v2 = StablecoinVault {
                total_value_locked: (v1.total_value_locked + value) as u64,
                last_deposit_time: now,
                ..v1
            };
            if v2.deposit_count + 1 > u32::MAX {
                (v2, overflow)
            } else {
                spec_update_ratio(StablecoinVault { deposit_count: (v2.deposit_count + 1) as u32, ..v2 })
            }
        }
    }
}

/// The vault and the result after a withdrawal of `amount` collateral worth
/// `value` at time `now`: `InsufficientCollateral` with the vault unchanged
/// where `amount` exceeds the collateral; otherwise each step that
/// overflows ends the operation with `MathOverflow`, the steps before it
/// done.
pub open spec fn spec_withdrawal(vault: StablecoinVault, amount: u64, value: u64, now: i64) -> (
    StablecoinVault,
    Result<(), Error>,
) {
    let overflow = Err(Error::StableFun(StableFunError::MathOverflow));
    if amount > vault.total_collateral {
        (vault, Err(Error::StableFun(StableFunError::InsufficientCollateral)))
    } else {
        let v1 = StablecoinVault { total_collateral: (vault.total_collateral - amount) as u64, ..vault };
        if value > v1.total_value_locked {
            (v1, overflow)
        } else {
            let v2 = StablecoinVault {
                total_value_locked: (v1.total_value_locked - value) as u64,
                last_withdrawal_time: now,
                ..v1
            };
            if v2.withdrawal_count + 1 > u32::MAX {
                (v2, overflow)
            } else {
                spec_update_ratio(
                    StablecoinVault { withdrawal_count: (v2.withdrawal_count + 1) as u32, ..v2 },
                )
            }
        }
    }
}

/// Whether `amount` may be withdrawn while keeping the ratio at
/// `min_ratio` or above: some collateral must remain, and the ratio of the
/// value locked to what remains must fit in a `u16` and reach `min_ratio`.
pub open spec fn spec_can_withdraw(vault: StablecoinVault, amount: u64, min_ratio: u16) -> bool {
    &&& amount < vault.total_collateral
    &&& vault.total_value_locked * 10000 / (vault.total_collateral - amount) <= u16::MAX
    &&& vault.total_value_locked * 10000 / (vault.total_collateral - amount) >= min_ratio
}

/// The seed that the vault address is derived from.
pub open spec fn vault_seed() -> Seq<u8> {
    seq![118u8, 97u8, 117u8, 108u8, 116u8]
}

impl StablecoinVault {
    /// An empty vault.
    pub fn new(stablecoin_mint: Address, authority: Address, collateral_account: Address, bump: u8) -> (v: Self)
        ensures
            v == (StablecoinVault {
                stablecoin_mint,
                authority,
                collateral_account,
                total_collateral: 0,
                total_value_locked: 0,
                current_ratio: 0,
                last_deposit_time: 0,
                last_withdrawal_time: 0,
                deposit_count: 0,
                withdrawal_count: 0,
                bump,
            }),
            ratio_is_current(v),
    {
        StablecoinVault {
            stablecoin_mint,
            authority,
            collateral_account,
            total_collateral: 0,
            total_value_locked: 0,
            current_ratio: 0,
            last_deposit_time: 0,
            last_withdrawal_time: 0,
            deposit_count: 0,
            withdrawal_count: 0,
            bump,
        }
    }

    /// Records a deposit of `amount` collateral worth `value` at time
    /// `unix_timestamp`, then recomputes the ratio.
    pub fn process_deposit(&mut self, amount: u64, value: u64, unix_timestamp: i64) -> (r: Result<(), Error>)
        ensures
            (*final(self), r) == spec_deposit(*old(self), amount, value, unix_timestamp),
    {
        self.total_collateral = match self.total_collateral.checked_add(amount) {
            Some(v) => v,
            None => return Err(Error::StableFun(StableFunError::MathOverflow)),
        };
        self.total_value_locked = match self.total_value_locked.checked_add(value) {
            Some(v) => v,
            None => return Err(Error::StableFun(StableFunError::MathOverflow)),
        };
        self.last_deposit_time = unix_timestamp;
        self.deposit_count = match self.deposit_count.checked_add(1) {
            Some(v) => v,
            None => return Err(Error::StableFun(StableFunError::MathOverflow)),
        };
        self.update_collateral_ratio()
    }

    /// Records a withdrawal of `amount` collateral worth `value` at time
    /// `unix_timestamp`, then recomputes the ratio.
    pub fn process_withdrawal(&mut self, amount: u64, value: u64, unix_timestamp: i64) -> (r: Result<(), Error>)
        ensures
            (*final(self), r) == spec_withdrawal(*old(self), amount, value, unix_timestamp),
    {
        if amount > self.total_collateral {
            return Err(Error::StableFun(StableFunError::InsufficientCollateral));
        }
        self.total_collateral = match self.total_collateral.checked_sub(amount) {
            Some(v) => v,
            None => return Err(Error::StableFun(StableFunError::MathOverflow)),
        };
        self.total_value_locked = match self.total_value_locked.checked_sub(value) {
            Some(v) => v,
            None => return Err(Error::StableFun(StableFunError::MathOverflow)),
        };
        self.last_withdrawal_time = unix_timestamp;
        self.withdrawal_count = match self.withdrawal_count.checked_add(1) {
            Some(v) => v,
            None => return Err(Error::StableFun(StableFunError::MathOverflow)),
        };
        self.update_collateral_ratio()
    }

    /// Recomputes the ratio of value locked to collateral, in basis points.
    pub fn update_collateral_ratio(&mut self) -> (r: Result<(), Error>)
        ensures
            (*final(self), r) == spec_update_ratio(*old(self)),
    {
        if self.total_value_locked == 0 || self.total_collateral == 0 {
            self.current_ratio = 0;
            return Ok(());
        }
        let scaled = match (self.total_value_locked as u128).checked_mul(10000) {
            Some(v) => v,
            None => return Err(Error::StableFun(StableFunError::MathOverflow)),
        };
        let ratio = match scaled.checked_div(self.total_collateral as u128) {
            Some(v) => v,
            None => return Err(Error::StableFun(StableFunError::MathOverflow)),
        };
        if ratio > 65535 {
            return Err(Error::StableFun(StableFunError::MathOverflow));
        }
        self.current_ratio = ratio as u16;
        Ok(())
    }

    /// Whether `amount` may be withdrawn while keeping the ratio at
    /// `min_ratio` or above.
    pub fn can_withdraw(&self, amount: u64, min_ratio: u16) -> (r: bool)
        ensures
            r == spec_can_withdraw(*self, amount, min_ratio),
    {
        if amount >= self.total_collateral {
            return false;
        }
        let new_collateral = match self.total_collateral.checked_sub(amount) {
            Some(val) => {
                if val > 0 {
                    val
                } else {
                    return false;
                }
            },
            None => return false,
        };
        let scaled = match (self.total_value_locked as u128).checked_mul(10000) {
            Some(v) => v,
            None => return false,
        };
        let ratio = match scaled.checked_div(new_collateral as u128) {
            Some(v) => v,
            None => return false,
        };
        if ratio > 65535 {
            return false;
        }
        let new_ratio = ratio as u16;
        new_ratio >= min_ratio
    }

    /// The seeds that sign for the vault: `b"vault"` and the bump.
    pub fn get_vault_seeds(&self) -> (seeds: Vec<Vec<u8>>)
        ensures
            seeds@.len() == 2,
            seeds@[0]@ == vault_seed(),
            seeds@[1]@ == seq![self.bump],
    {
        let seed: Vec<u8> = vec![118u8, 97u8, 117u8, 108u8, 116u8];
        let bump: Vec<u8> = vec![self.bump];
        let mut seeds: Vec<Vec<u8>> = Vec::new();
        seeds.push(seed);
        seeds.push(bump);
        assert(seeds@[0]@ =~= vault_seed());
        assert(seeds@[1]@ =~= seq![self.bump]);
        seeds
    }
}

/// Every successful deposit leaves the vault's recorded ratio equal to the
/// ratio of its totals.
pub proof fn lemma_deposit_keeps_ratio_current(vault: StablecoinVault, amount: u64, value: u64, now: i64)
    requires
        spec_deposit(vault, amount, value, now).1 is Ok,
    ensures
        ratio_is_current(spec_deposit(vault, amount, value, now).0),
{
}

/// Every successful withdrawal leaves the vault's recorded ratio equal to
/// the ratio of its totals.
pub proof fn lemma_withdrawal_keeps_ratio_current(vault: StablecoinVault, amount: u64, value: u64, now: i64)
    requires
        spec_withdrawal(vault, amount, value, now).1 is Ok,
    ensures
        ratio_is_current(spec_withdrawal(vault, amount, value, now).0),
{
}

/// A withdrawal of what a deposit just added undoes the deposit: from a
/// vault whose ratio is current, a successful deposit of `amount` worth
/// `value` followed by a withdrawal of the same `amount` and `value` (with
/// room left in the withdrawal counter) succeeds and restores the
/// collateral, the value locked and the ratio.
pub proof fn lemma_withdrawal_undoes_deposit(
    vault: StablecoinVault,
    amount: u64,
    value: u64,
    t1: i64,
    t2: i64,
)
    requires
        ratio_is_current(vault),
        spec_deposit(vault, amount, value, t1).1 is Ok,
        vault.withdrawal_count < u32::MAX,
    ensures
        ({
            let after = spec_withdrawal(spec_deposit(vault, amount, value, t1).0, amount, value, t2);
            &&& after.1 is Ok
            &&& after.0.total_collateral == vault.total_collateral
            &&& after.0.total_value_locked == vault.total_value_locked
            &&& after.0.current_ratio == vault.current_ratio
            &&& after.0.deposit_count == vault.deposit_count + 1
            &&& after.0.withdrawal_count == vault.withdrawal_count + 1
        }),
{
}

/// A withdrawal that `can_withdraw` allows succeeds when no value leaves
/// the vault with it (and the withdrawal counter has room), and the ratio
/// it leaves is at least the minimum that was asked for.
pub proof fn lemma_allowed_withdrawal_keeps_min_ratio(
    vault: StablecoinVault,
    amount: u64,
    min_ratio: u16,
    now: i64,
)
    requires
        spec_can_withdraw(vault, amount, min_ratio),
        vault.withdrawal_count < u32::MAX,
    ensures
        spec_withdrawal(vault, amount, 0, now).1 is Ok,
        spec_withdrawal(vault, amount, 0, now).0.current_ratio >= min_ratio,
        spec_withdrawal(vault, amount, 0, now).0.total_collateral == vault.total_collateral - amount,
{
}

/// A withdrawal allowed at some minimum ratio is allowed at every lower
/// one, and always leaves collateral behind.
pub proof fn lemma_can_withdraw_lower_min(vault: StablecoinVault, amount: u64, min_ratio: u16, lower: u16)
    requires
        spec_can_withdraw(vault, amount, min_ratio),
        lower <= min_ratio,
    ensures
        spec_can_withdraw(vault, amount, lower),
        amount < vault.total_collateral,
{
}

} // verus!
