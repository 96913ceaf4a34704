//! What the library takes from the Solana runtime: the clock and
//! program-derived addresses. Each item here is trusted, not proved.

use vstd::prelude::*;

use anchor_lang::solana_program::clock::Clock;
use anchor_lang::solana_program::pubkey::Pubkey;
use anchor_lang::solana_program::sysvar::Sysvar;

use crate::address::Address;

verus! {

/// `Clock::get` of the Solana runtime, reduced to the clock's Unix
/// timestamp, or `None` where it returns an error (the clock sysvar cannot
/// be read, as off the chain). Nothing is claimed of the value: it is the
/// time of the current slot.
#[verifier::external_body]
pub(crate) fn clock_unix_timestamp() -> (r: Option<i64>) {
    match Clock::get() {
        Ok(clock) => Some(clock.unix_timestamp),
        Err(_) => None,
    }
}

/// What `Pubkey::try_find_program_address` derives from `seeds` and a
/// program id: the address with its bump seed, or `None` where no bump seed
/// gives an address off the curve or the seeds are not valid (16 seeds or
/// more, or a seed longer than 32 bytes). It is a function of the seeds and
/// the program id alone (a hash of them with the highest bump that gives
/// an address off the curve).
pub uninterp spec fn program_address(seeds: Seq<Seq<u8>>, program_id: Seq<u8>) -> Option<(Seq<u8>, u8)>;

/// The views of a list of seeds.
pub open spec fn seeds_view(seeds: Seq<Vec<u8>>) -> Seq<Seq<u8>> {
    seeds.map_values(|s: Vec<u8>| s@)
}

/// `Pubkey::try_find_program_address`: its result, the address taken by
/// its bytes, is the named `program_address` of the seeds and the program
/// id. It does not panic: invalid seeds and a failed bump search both give
/// `None`.
#[verifier::external_body]
pub(crate) fn find_program_address(seeds: &Vec<Vec<u8>>, program_id: &Address) -> (r: Option<(Address, u8)>)
    ensures
        match r {
            Some((address, bump)) => program_address(seeds_view(seeds@), program_id@) == Some((address@, bump)),
            None => program_address(seeds_view(seeds@), program_id@) is None,
        },
{
    let slices: Vec<&[u8]> = seeds.iter().map(|s| s.as_slice()).collect();
    match Pubkey::try_find_program_address(&slices, &Pubkey::new_from_array(program_id.bytes)) {
        Some((key, bump)) => Some((Address { bytes: key.to_bytes() }, bump)),
        None => None,
    }
}

} // verus!
