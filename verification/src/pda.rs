//! Program-derived addresses: the pool authority that signs the pool's payouts
//! and liquidity-token mints is derived from the seeds `"pool_authority"` and
//! the pool's address.
use anchor_lang::prelude::Pubkey;
use vstd::prelude::*;
use vstd::slice::slice_to_vec;

verus! {

/// What `Pubkey::create_program_address` returns for the given seeds and
/// program: the derived address, or `None` where it fails.
pub uninterp spec fn derived_program_address(seeds: Seq<Seq<u8>>, program_id: [u8; 32]) -> Option<
    [u8; 32],
>;

/// What `Pubkey::try_find_program_address` returns for the given seeds and
/// program: the first viable address with its bump seed, or `None`.
pub uninterp spec fn program_address_search(seeds: Seq<Seq<u8>>, program_id: [u8; 32]) -> Option<
    ([u8; 32], u8),
>;

/// Calls `solana_pubkey::Pubkey::create_program_address` (re-exported by
/// anchor-lang) and maps its error to `None`. Claimed: the result is a function
/// of the seeds and the program id; more than 16 seeds, or a seed longer than 32
/// bytes, fail (both checks stand first in the function's source).
#[verifier::external_body]
fn create_program_address(seeds: &Vec<Vec<u8>>, program_id: [u8; 32]) -> (r: Option<[u8; 32]>)
    ensures
        r == derived_program_address(seeds.deep_view(), program_id),
        seeds.deep_view().len() > 16 ==> r is None,
        (exists|i: int| 0 <= i < seeds.deep_view().len() && seeds.deep_view()[i].len() > 32)
            ==> r is None,
{
    let slices: Vec<&[u8]> = seeds.iter().map(|s| s.as_slice()).collect();
    Pubkey::create_program_address(&slices, &Pubkey::new_from_array(program_id)).ok().map(
        |k| k.to_bytes(),
    )
}

/// Calls `solana_pubkey::Pubkey::try_find_program_address` (re-exported by
/// anchor-lang). Claimed: the result is a function of the seeds and the program
/// id, and a bump it returns is one for which `create_program_address`, given
/// the seeds followed by the one-byte bump seed, yields the returned address
/// (the search returns only an address that call produced).
#[verifier::external_body]
fn try_find_program_address(seeds: &Vec<Vec<u8>>, program_id: [u8; 32]) -> (r: Option<
    ([u8; 32], u8),
>)
    ensures
        r == program_address_search(seeds.deep_view(), program_id),
        r matches Some((key, bump)) ==> derived_program_address(
            seeds.deep_view().push(seq![bump]),
            program_id,
        ) == Some(key),
{
    let slices: Vec<&[u8]> = seeds.iter().map(|s| s.as_slice()).collect();
    Pubkey::try_find_program_address(&slices, &Pubkey::new_from_array(program_id)).map(
        |(k, b)| (k.to_bytes(), b),
    )
}

/// The bytes of the seed `"pool_authority"`.
pub open spec fn pool_authority_tag() -> Seq<u8> {
    seq![112u8, 111, 111, 108, 95, 97, 117, 116, 104, 111, 114, 105, 116, 121]
}

/// The seeds of a pool's authority, without the bump.
pub open spec fn pool_authority_seeds(pool: [u8; 32]) -> Seq<Seq<u8>> {
    seq![pool_authority_tag(), pool@]
}

/// The seeds of a pool's authority followed by its bump seed.
pub open spec fn pool_authority_seeds_with_bump(pool: [u8; 32], bump: u8) -> Seq<Seq<u8>> {
    pool_authority_seeds(pool).push(seq![bump])
}

fn pool_authority_seed_vec(pool: [u8; 32]) -> (seeds: Vec<Vec<u8>>)
    ensures
        seeds.deep_view() == pool_authority_seeds(pool),
{
    let tag: [u8; 14] = [112u8, 111, 111, 108, 95, 97, 117, 116, 104, 111, 114, 105, 116, 121];
    let tag_seed = slice_to_vec(tag.as_slice());
    let pool_seed = slice_to_vec(pool.as_slice());
    assert(tag_seed.deep_view() =~= pool_authority_tag());
    assert(pool_seed.deep_view() =~= pool@);
    let mut seeds: Vec<Vec<u8>> = Vec::new();
    seeds.push(tag_seed);
    seeds.push(pool_seed);
    assert(seeds.deep_view() =~= pool_authority_seeds(pool));
    seeds
}

/// Searches the bump of a pool's authority, as the pool's creation does.
pub fn find_pool_authority(pool: [u8; 32], program_id: [u8; 32]) -> (r: Option<([u8; 32], u8)>)
    ensures
        r == program_address_search(pool_authority_seeds(pool), program_id),
        r matches Some((key, bump)) ==> derived_program_address(
            pool_authority_seeds_with_bump(pool, bump),
            program_id,
        ) == Some(key),
{
    let seeds = pool_authority_seed_vec(pool);
    try_find_program_address(&seeds, program_id)
}

/// The address of a pool's authority under a known bump.
pub fn pool_authority_address(pool: [u8; 32], bump: u8, program_id: [u8; 32]) -> (r: Option<
    [u8; 32],
>)
    ensures
        r == derived_program_address(pool_authority_seeds_with_bump(pool, bump), program_id),
{
    let mut seeds = pool_authority_seed_vec(pool);
    let bump_seed: [u8; 1] = [bump];
    let bump_vec = slice_to_vec(bump_seed.as_slice());
    assert(bump_vec.deep_view() =~= seq![bump]);
    let ghost before = seeds.deep_view();
    seeds.push(bump_vec);
    assert(seeds.deep_view() =~= before.push(seq![bump]));
    assert(seeds.deep_view() =~= pool_authority_seeds_with_bump(pool, bump));
    create_program_address(&seeds, program_id)
}

} // verus!
