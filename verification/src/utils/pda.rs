//! Program-derived addresses of the program's accounts.

use vstd::prelude::*;
use vstd::string::StringSliceAdditionalSpecFns;

use crate::address::Address;
use crate::chain::{find_program_address, program_address, seeds_view};
use crate::state::vault::vault_seed;

verus! {

/// The seed of stablecoin accounts, `b"stablecoin"`.
pub open spec fn stablecoin_seed() -> Seq<u8> {
    seq![115u8, 116u8, 97u8, 98u8, 108u8, 101u8, 99u8, 111u8, 105u8, 110u8]
}

/// The seed of mint authorities, `b"mint-authority"`.
pub open spec fn mint_authority_seed() -> Seq<u8> {
    seq![109u8, 105u8, 110u8, 116u8, 45u8, 97u8, 117u8, 116u8, 104u8, 111u8, 114u8, 105u8, 116u8, 121u8]
}

/// A derived address, with its bump seed, is `derived` taken by the
/// address's bytes; none was derived exactly where `derived` is `None`.
pub open spec fn found_as(r: Option<(Address, u8)>, derived: Option<(Seq<u8>, u8)>) -> bool {
    match r {
        Some((address, bump)) => derived == Some((address@, bump)),
        None => derived is None,
    }
}

/// `b"stablecoin"`.
pub fn stablecoin_seed_bytes() -> (v: Vec<u8>)
    ensures
        v@ == stablecoin_seed(),
{
    let v: Vec<u8> = vec![115u8, 116u8, 97u8, 98u8, 108u8, 101u8, 99u8, 111u8, 105u8, 110u8];
    assert(v@ =~= stablecoin_seed());
    v
}

/// `b"vault"`.
pub fn vault_seed_bytes() -> (v: Vec<u8>)
    ensures
        v@ == vault_seed(),
{
    let v: Vec<u8> = vec![118u8, 97u8, 117u8, 108u8, 116u8];
    assert(v@ =~= vault_seed());
    v
}

/// `b"mint-authority"`.
pub fn mint_authority_seed_bytes() -> (v: Vec<u8>)
    ensures
        v@ == mint_authority_seed(),
{
    let v: Vec<u8> = vec![109u8, 105u8, 110u8, 116u8, 45u8, 97u8, 117u8, 116u8, 104u8, 111u8, 114u8, 105u8, 116u8, 121u8];
    assert(v@ =~= mint_authority_seed());
    v
}

/// The address of the stablecoin account of `authority` with `symbol`:
/// derived from `b"stablecoin"`, the authority and the symbol's bytes;
/// `None` where no address can be derived (a symbol longer than 32 bytes
/// is not a valid seed).
pub fn find_stablecoin_mint_address(program_id: &Address, authority: &Address, symbol: &str) -> (r: Option<(Address, u8)>)
    ensures
        found_as(r, program_address(seq![stablecoin_seed(), authority@, symbol.spec_bytes()], program_id@)),
{
    let mut seeds: Vec<Vec<u8>> = Vec::new();
    seeds.push(stablecoin_seed_bytes());
    seeds.push(authority.to_seed());
    seeds.push(vstd::slice::slice_to_vec(symbol.as_bytes()));
    assert(seeds_view(seeds@) =~= seq![stablecoin_seed(), authority@, symbol.spec_bytes()]);
    find_program_address(&seeds, program_id)
}

/// The address of the vault of a stablecoin: derived from `b"vault"` and
/// the stablecoin's address; `None` where no address can be derived.
pub fn find_vault_address(program_id: &Address, stablecoin_mint: &Address) -> (r: Option<(Address, u8)>)
    ensures
        found_as(r, program_address(seq![vault_seed(), stablecoin_mint@], program_id@)),
{
    let mut seeds: Vec<Vec<u8>> = Vec::new();
    seeds.push(vault_seed_bytes());
    seeds.push(stablecoin_mint.to_seed());
    assert(seeds_view(seeds@) =~= seq![vault_seed(), stablecoin_mint@]);
    find_program_address(&seeds, program_id)
}

/// The address of the mint authority of a stablecoin: derived from
/// `b"mint-authority"` and the stablecoin's address; `None` where no
/// address can be derived.
pub fn find_mint_authority_address(program_id: &Address, stablecoin_mint: &Address) -> (r: Option<(Address, u8)>)
    ensures
        found_as(r, program_address(seq![mint_authority_seed(), stablecoin_mint@], program_id@)),
{
    let mut seeds: Vec<Vec<u8>> = Vec::new();
    seeds.push(mint_authority_seed_bytes());
    seeds.push(stablecoin_mint.to_seed());
    assert(seeds_view(seeds@) =~= seq![mint_authority_seed(), stablecoin_mint@]);
    find_program_address(&seeds, program_id)
}

} // verus!
