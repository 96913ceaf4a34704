//! What the program reads of token accounts.

use vstd::prelude::*;

use crate::address::Address;

verus! {

/// The fields of an SPL token account that the program checks.
#[derive(Debug, Clone, Copy, PartialEq, Eq)]
pub struct TokenAccountState {
    /// The mint of the tokens held
    pub mint: Address,
    /// The owner of the account
    pub owner: Address,
    /// The number of tokens held
    pub amount: u64,
}

} // verus!
