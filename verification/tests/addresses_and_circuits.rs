use anchor_lang::prelude::Pubkey;
use arcium_hello_world::computation::Circuit;
use arcium_hello_world::pda::{find_pool_authority, pool_authority_address};

const ALL: [Circuit; 8] = [
    Circuit::InitializePool,
    Circuit::AddLiquidity,
    Circuit::RemoveLiquidity,
    Circuit::SwapStep1,
    Circuit::SwapStep2,
    Circuit::InitDeposit,
    Circuit::Deposit,
    Circuit::Withdraw,
];

#[test]
fn circuit_names() {
    let names: Vec<&str> = ALL.iter().map(|c| c.name()).collect();
    assert_eq!(
        names,
        vec![
            "initialize_pool",
            "add_liquidity",
            "remove_liquidity",
            "swap_step1",
            "swap_step2",
            "init_deposit",
            "deposit",
            "withdraw"
        ]
    );
}

#[test]
fn circuit_offsets_match_arcium() {
    for c in ALL.iter() {
        assert_eq!(c.comp_def_offset(), arcium_anchor::comp_def_offset(c.name()));
    }
    assert_ne!(Circuit::Deposit.comp_def_offset(), Circuit::Withdraw.comp_def_offset());
}

#[test]
fn circuit_source_urls() {
    assert_eq!(
        Circuit::SwapStep1.source_url(),
        "https://raw.githubusercontent.com/k1ns0ul/arcium_dex/pool_initializing/build/swap_step1.arcis"
    );
    assert_eq!(
        Circuit::InitializePool.source_url(),
        "https://raw.githubusercontent.com/k1ns0ul/arcium_dex/pool_initializing/build/initialize_pool.arcis"
    );
}

#[test]
fn pool_authority_is_found_and_rederived() {
    let program_id = [7u8; 32];
    let pool = [9u8; 32];
    let (key, bump) = find_pool_authority(pool, program_id).expect("a bump exists");
    let expected = Pubkey::find_program_address(
        &[b"pool_authority", pool.as_ref()],
        &Pubkey::new_from_array(program_id),
    );
    assert_eq!(key, expected.0.to_bytes());
    assert_eq!(bump, expected.1);
    assert_eq!(pool_authority_address(pool, bump, program_id), Some(key));
}

#[test]
fn pool_authority_depends_on_pool() {
    let program_id = [7u8; 32];
    let (k1, _) = find_pool_authority([1u8; 32], program_id).unwrap();
    let (k2, _) = find_pool_authority([2u8; 32], program_id).unwrap();
    assert_ne!(k1, k2);
    assert_ne!(k1, [1u8; 32]);
}

#[test]
fn pool_authority_address_under_another_bump_differs_or_fails() {
    let program_id = [7u8; 32];
    let pool = [9u8; 32];
    let (key, bump) = find_pool_authority(pool, program_id).unwrap();
    let other = pool_authority_address(pool, bump.wrapping_sub(1), program_id);
    assert_ne!(other, Some(key));
}
