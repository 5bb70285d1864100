use arcium_hello_world::computation::{CallbackAccount, Circuit, CircuitArg};
use arcium_hello_world::program::{
    add_liquidity_callback, add_liquidity_to_pool, create_user_balance, deposit_callback,
    deposit_to_pool, init_deposit_callback, init_deposit_to_pool, initialize_liquidity_pool,
    initialize_pool_callback, remove_liquidity_callback, remove_liquidity_from_pool, swap_step1,
    swap_step1_callback, swap_step2, swap_step2_callback, withdraw_callback, withdraw_from_pool,
    AccountKeys, Effect, EncryptedPair, EncryptedValue, Event, InstructionError, Token,
};
use arcium_hello_world::pda::{find_pool_authority, pool_authority_address};
use arcium_hello_world::state::{
    nonce_from_le_bytes, nonce_to_le_bytes, ErrorCode, LiquidityAddedEvent, LiquidityPool,
    LiquidityRemovedEvent, PoolInitializedEvent, SwapEvent, UserPoolBalance, WithdrawEvent,
};

fn key(b: u8) -> [u8; 32] {
    [b; 32]
}

fn keys() -> AccountKeys {
    AccountKeys {
        pool: key(1),
        user: key(2),
        user_pool_balance: key(3),
        token_a_mint: key(4),
        token_b_mint: key(5),
        lp_mint: key(6),
        user_token_a: key(7),
        user_token_b: key(8),
        pool_token_a: key(9),
        pool_token_b: key(10),
        user_lp_token: key(11),
        token_program: key(13),
    }
}

const PROGRAM_ID: [u8; 32] = [200u8; 32];

fn authority() -> ([u8; 32], u8) {
    find_pool_authority(key(1), PROGRAM_ID).unwrap()
}

fn empty_pool() -> LiquidityPool {
    LiquidityPool {
        bump: 0,
        pool_authority_bump: 0,
        token_a_mint: [0; 32],
        token_b_mint: [0; 32],
        lp_mint: [0; 32],
        authority: [0; 32],
        encrypted_reserve_a: [0; 32],
        encrypted_reserve_b: [0; 32],
        reserve_pubkey: [0; 32],
        reserve_nonce: [0; 16],
        lp_supply: 0,
    }
}

fn created_pool() -> LiquidityPool {
    let mut pool = empty_pool();
    initialize_liquidity_pool(
        &mut pool, &keys(), PROGRAM_ID, 254, 252, 77, 1_000_000, 4_000_000, key(20), key(21), key(22), 42,
    )
    .unwrap();
    pool
}

fn pair(nonce: u128, a: u8, b: u8) -> EncryptedPair {
    EncryptedPair { nonce, ciphertext_a: key(a), ciphertext_b: key(b) }
}

#[test]
fn nonce_bytes_are_little_endian() {
    let n: u128 = 0x0102_0304_0506_0708_090a_0b0c_0d0e_0f10;
    assert_eq!(nonce_to_le_bytes(n), n.to_le_bytes());
    assert_eq!(nonce_from_le_bytes(n.to_le_bytes()), n);
    assert_eq!(nonce_from_le_bytes(nonce_to_le_bytes(u128::MAX)), u128::MAX);
}

#[test]
fn error_codes_and_messages() {
    assert_eq!(ErrorCode::AbortedComputation.code(), 6000);
    assert_eq!(ErrorCode::ClusterNotSet.code(), 6001);
    assert_eq!(ErrorCode::InsufficientLiquidity.code(), 6002);
    assert_eq!(ErrorCode::InsufficientLPTokens.code(), 6003);
    assert_eq!(ErrorCode::PoolNotInitialized.code(), 6004);
    assert_eq!(ErrorCode::AlreadyInitialized.code(), 6005);
    assert_eq!(ErrorCode::AbortedComputation.message(), "MPC computation aborted by cluster");
    assert_eq!(
        ErrorCode::AlreadyInitialized.message(),
        "Balance already initialized, use deposit instead"
    );
}

#[test]
fn account_sizes() {
    assert_eq!(LiquidityPool::LEN, 258);
    assert_eq!(UserPoolBalance::LEN, 203);
}

#[test]
fn initialize_liquidity_pool_records_pool_and_queues_encryption() {
    let mut pool = empty_pool();
    let effects = initialize_liquidity_pool(
        &mut pool, &keys(), PROGRAM_ID, 254, 252, 77, 1_000_000, 4_000_000, key(20), key(21), key(22), 42,
    )
    .unwrap();
    let (auth, auth_bump) = authority();
    assert_eq!(pool.bump, 254);
    assert_eq!(pool.pool_authority_bump, auth_bump);
    assert_eq!(pool_authority_address(key(1), auth_bump, PROGRAM_ID), Some(auth));
    assert_eq!(pool.token_a_mint, key(4));
    assert_eq!(pool.token_b_mint, key(5));
    assert_eq!(pool.lp_mint, key(6));
    assert_eq!(pool.authority, key(2));
    assert_eq!(pool.reserve_pubkey, key(22));
    assert_eq!(pool.reserve_nonce, 42u128.to_le_bytes());
    assert_eq!(pool.lp_supply, 2_000_000);
    assert_eq!(effects.len(), 4);
    assert_eq!(effects[0], Effect::TransferToPool { token: Token::A, amount: 1_000_000 });
    assert_eq!(effects[1], Effect::TransferToPool { token: Token::B, amount: 4_000_000 });
    assert_eq!(effects[2], Effect::SetSignerBump(252));
    match &effects[3] {
        Effect::Queue(q) => {
            assert_eq!(q.circuit, Circuit::InitializePool);
            assert_eq!(q.computation_offset, 77);
            assert_eq!(
                q.args,
                vec![
                    CircuitArg::X25519Pubkey(key(22)),
                    CircuitArg::PlaintextU128(42),
                    CircuitArg::EncryptedU64(key(20)),
                    CircuitArg::EncryptedU64(key(21)),
                ]
            );
            assert_eq!(
                q.callback_accounts,
                vec![
                    CallbackAccount { pubkey: key(1), is_writable: true },
                    CallbackAccount { pubkey: key(6), is_writable: true },
                    CallbackAccount { pubkey: key(11), is_writable: true },
                    CallbackAccount { pubkey: auth, is_writable: false },
                    CallbackAccount { pubkey: key(13), is_writable: false },
                ]
            );
        }
        other => panic!("expected a queued computation, got {:?}", other),
    }
}

#[test]
fn initialize_pool_callback_stores_reserves_and_mints_supply() {
    let mut pool = created_pool();
    let effects = initialize_pool_callback(&mut pool, key(1), Some(pair(99, 30, 31))).unwrap();
    assert_eq!(pool.encrypted_reserve_a, key(30));
    assert_eq!(pool.encrypted_reserve_b, key(31));
    assert_eq!(nonce_from_le_bytes(pool.reserve_nonce), 99);
    assert_eq!(
        effects,
        vec![
            Effect::MintLp { amount: 2_000_000 },
            Effect::Emit(Event::PoolInitialized(PoolInitializedEvent {
                pool: key(1),
                encrypted_reserve_a: key(30),
                encrypted_reserve_b: key(31),
                lp_supply: 2_000_000,
            })),
        ]
    );
}

#[test]
fn aborted_computation_changes_nothing() {
    let mut pool = created_pool();
    let before = pool;
    assert_eq!(
        initialize_pool_callback(&mut pool, key(1), None),
        Err(ErrorCode::AbortedComputation)
    );
    assert_eq!(pool, before);
    assert_eq!(
        add_liquidity_callback(&mut pool, key(1), key(2), None),
        Err(ErrorCode::AbortedComputation)
    );
    assert_eq!(
        remove_liquidity_callback(&mut pool, key(1), key(2), None),
        Err(ErrorCode::AbortedComputation)
    );
    assert_eq!(pool, before);
}

#[test]
fn add_liquidity_reads_stored_reserves() {
    let mut pool = created_pool();
    initialize_pool_callback(&mut pool, key(1), Some(pair(99, 30, 31))).unwrap();
    let effects =
        add_liquidity_to_pool(&pool, &keys(), PROGRAM_ID, 7, 78, 10, 40, key(40), key(41), key(42), 5, 20)
            .unwrap();
    assert_eq!(effects[0], Effect::TransferToPool { token: Token::A, amount: 10 });
    assert_eq!(effects[1], Effect::TransferToPool { token: Token::B, amount: 40 });
    assert_eq!(effects[2], Effect::SetSignerBump(7));
    match &effects[3] {
        Effect::Queue(q) => {
            assert_eq!(q.circuit, Circuit::AddLiquidity);
            assert_eq!(
                q.args,
                vec![
                    CircuitArg::X25519Pubkey(key(22)),
                    CircuitArg::PlaintextU128(99),
                    CircuitArg::EncryptedU64(key(30)),
                    CircuitArg::EncryptedU64(key(31)),
                    CircuitArg::X25519Pubkey(key(42)),
                    CircuitArg::PlaintextU128(5),
                    CircuitArg::EncryptedU64(key(40)),
                    CircuitArg::EncryptedU64(key(41)),
                    CircuitArg::PlaintextU64(2_000_000),
                    CircuitArg::PlaintextU64(20),
                ]
            );
            assert_eq!(q.callback_accounts.len(), 8);
            assert_eq!(q.callback_accounts[2], CallbackAccount { pubkey: key(6), is_writable: true });
            assert_eq!(q.callback_accounts[6], CallbackAccount { pubkey: authority().0, is_writable: false });
        }
        other => panic!("expected a queued computation, got {:?}", other),
    }
}

#[test]
fn add_liquidity_callback_raises_supply_by_minted() {
    let mut pool = created_pool();
    let effects = add_liquidity_callback(&mut pool, key(1), key(2), Some((pair(3, 50, 51), 20))).unwrap();
    assert_eq!(pool.lp_supply, 2_000_020);
    assert_eq!(pool.encrypted_reserve_a, key(50));
    assert_eq!(
        effects,
        vec![
            Effect::MintLp { amount: 20 },
            Effect::Emit(Event::LiquidityAdded(LiquidityAddedEvent {
                pool: key(1),
                user: key(2),
                encrypted_reserve_a: key(50),
                encrypted_reserve_b: key(51),
                lp_minted: 20,
            })),
        ]
    );
}

#[test]
fn remove_liquidity_refusals() {
    let mut pool = created_pool();
    let before = pool;
    assert_eq!(
        remove_liquidity_from_pool(&mut pool, &keys(), PROGRAM_ID, 1, 2, 2_000_001, key(0), 0),
        Err(InstructionError::Refused(ErrorCode::InsufficientLPTokens))
    );
    assert_eq!(pool, before);
    let mut drained = empty_pool();
    assert_eq!(
        remove_liquidity_from_pool(&mut drained, &keys(), PROGRAM_ID, 1, 2, 0, key(0), 0),
        Err(InstructionError::Refused(ErrorCode::InsufficientLiquidity))
    );
    assert_eq!(
        remove_liquidity_from_pool(&mut drained, &keys(), PROGRAM_ID, 1, 2, 1, key(0), 0),
        Err(InstructionError::Refused(ErrorCode::InsufficientLPTokens))
    );
}

#[test]
fn remove_liquidity_burns_and_queues() {
    let mut pool = created_pool();
    let effects =
        remove_liquidity_from_pool(&mut pool, &keys(), PROGRAM_ID, 9, 79, 500_000, key(0), 0).unwrap();
    assert_eq!(pool.lp_supply, 1_500_000);
    assert_eq!(effects[0], Effect::BurnLp { amount: 500_000 });
    assert_eq!(effects[1], Effect::SetSignerBump(9));
    match &effects[2] {
        Effect::Queue(q) => {
            assert_eq!(q.circuit, Circuit::RemoveLiquidity);
            assert_eq!(q.args[4], CircuitArg::PlaintextU64(500_000));
            assert_eq!(q.args[5], CircuitArg::PlaintextU64(2_000_000));
            assert_eq!(q.callback_accounts[0], CallbackAccount { pubkey: key(1), is_writable: true });
            assert_eq!(q.callback_accounts[6], CallbackAccount { pubkey: authority().0, is_writable: false });
        }
        other => panic!("expected a queued computation, got {:?}", other),
    }
}

#[test]
fn remove_liquidity_callback_pays_out() {
    let mut pool = created_pool();
    let effects =
        remove_liquidity_callback(&mut pool, key(1), key(2), Some((pair(8, 60, 61), 0, 17))).unwrap();
    assert_eq!(pool.encrypted_reserve_b, key(61));
    assert_eq!(
        effects,
        vec![
            Effect::TransferFromPool { token: Token::A, amount: 0 },
            Effect::TransferFromPool { token: Token::B, amount: 17 },
            Effect::Emit(Event::LiquidityRemoved(LiquidityRemovedEvent {
                pool: key(1),
                user: key(2),
                encrypted_reserve_a: key(60),
                encrypted_reserve_b: key(61),
                amount_a_out: 0,
                amount_b_out: 17,
            })),
        ]
    );
}

#[test]
fn balance_lifecycle() {
    let mut balance = create_user_balance(3, key(2), key(1));
    assert!(!balance.initialized);
    assert_eq!(balance.balance_nonce, [0; 16]);
    assert_eq!(
        deposit_to_pool(&balance, &keys(), 1, 2, 1, 1, key(0), key(0), key(0), 0),
        Err(ErrorCode::PoolNotInitialized)
    );
    assert_eq!(
        swap_step1(&created_pool(), &balance, &keys(), 1, 2, true, key(0), key(0), 0),
        Err(ErrorCode::PoolNotInitialized)
    );
    assert_eq!(
        swap_step2(&balance, &keys(), 1, 2, true, key(0), key(0), 0),
        Err(ErrorCode::PoolNotInitialized)
    );
    assert_eq!(
        withdraw_from_pool(&balance, &created_pool(), &keys(), PROGRAM_ID, 1, 2),
        Err(InstructionError::Refused(ErrorCode::PoolNotInitialized))
    );

    let effects =
        init_deposit_to_pool(&balance, &keys(), 5, 6, 0, 30, key(70), key(71), key(72), 11).unwrap();
    assert_eq!(effects.len(), 3);
    assert_eq!(effects[0], Effect::TransferToPool { token: Token::B, amount: 30 });
    assert_eq!(effects[1], Effect::SetSignerBump(5));

    assert_eq!(init_deposit_callback(&mut balance, Some(pair(12, 73, 74))), Ok(()));
    assert!(balance.initialized);
    assert_eq!(
        init_deposit_to_pool(&balance, &keys(), 5, 6, 1, 1, key(0), key(0), key(0), 0),
        Err(ErrorCode::AlreadyInitialized)
    );

    let effects =
        deposit_to_pool(&balance, &keys(), 5, 6, 4, 0, key(75), key(76), key(77), 13).unwrap();
    assert_eq!(effects[0], Effect::TransferToPool { token: Token::A, amount: 4 });
    match &effects[2] {
        Effect::Queue(q) => {
            assert_eq!(q.circuit, Circuit::Deposit);
            assert_eq!(q.args[0], CircuitArg::PlaintextU128(12));
            assert_eq!(q.args[1], CircuitArg::EncryptedU64(key(73)));
            assert_eq!(q.callback_accounts, vec![CallbackAccount { pubkey: key(3), is_writable: true }]);
        }
        other => panic!("expected a queued computation, got {:?}", other),
    }
    assert_eq!(deposit_callback(&mut balance, Some(pair(14, 78, 79))), Ok(()));
    assert!(balance.initialized);
    assert_eq!(nonce_from_le_bytes(balance.balance_nonce), 14);

    let effects =
        withdraw_callback(&mut balance, key(1), key(2), Some((pair(15, 80, 81), 9, 0))).unwrap();
    assert!(!balance.initialized);
    assert_eq!(
        effects,
        vec![
            Effect::TransferFromPool { token: Token::A, amount: 9 },
            Effect::Emit(Event::Withdraw(WithdrawEvent {
                pool: key(1),
                user: key(2),
                amount_a_out: 9,
                amount_b_out: 0,
            })),
        ]
    );
    assert!(init_deposit_to_pool(&balance, &keys(), 5, 6, 1, 1, key(0), key(0), key(0), 0).is_ok());
}

#[test]
fn swap_steps_pass_pending_amount() {
    let mut pool = created_pool();
    let mut balance = create_user_balance(3, key(2), key(1));
    init_deposit_callback(&mut balance, Some(pair(12, 73, 74))).unwrap();

    let effects = swap_step1(&pool, &balance, &keys(), 5, 90, false, key(85), key(86), 21).unwrap();
    match &effects[1] {
        Effect::Queue(q) => {
            assert_eq!(q.circuit, Circuit::SwapStep1);
            assert_eq!(q.args[7], CircuitArg::PlaintextU8(0));
            assert_eq!(q.args.len(), 8);
        }
        other => panic!("expected a queued computation, got {:?}", other),
    }
    let out = EncryptedValue { nonce: 123, ciphertext: key(88) };
    swap_step1_callback(&mut pool, &mut balance, Some((pair(16, 82, 83), out))).unwrap();
    assert_eq!(pool.encrypted_reserve_a, key(82));
    assert_eq!(balance.pending_amount_out, key(88));
    assert_eq!(balance.encrypted_balance_a, key(73));

    let effects = swap_step2(&balance, &keys(), 5, 91, true, key(85), key(86), 21).unwrap();
    match &effects[1] {
        Effect::Queue(q) => {
            assert_eq!(q.circuit, Circuit::SwapStep2);
            assert_eq!(q.args[3], CircuitArg::PlaintextU128(123));
            assert_eq!(q.args[4], CircuitArg::EncryptedU64(key(88)));
            assert_eq!(q.args[8], CircuitArg::PlaintextU8(1));
        }
        other => panic!("expected a queued computation, got {:?}", other),
    }
    let effects = swap_step2_callback(&mut balance, Some(pair(17, 89, 90))).unwrap();
    assert_eq!(balance.pending_amount_out, [0; 32]);
    assert_eq!(balance.pending_amount_out_nonce, [0; 16]);
    assert_eq!(balance.encrypted_balance_b, key(90));
    assert_eq!(
        effects,
        vec![Effect::Emit(Event::Swap(SwapEvent { pool: key(1), user: key(2), a_to_b: true }))]
    );
}

#[test]
fn swap_event_flag_for_default_user_key() {
    let mut balance = create_user_balance(3, [0; 32], key(1));
    let effects = swap_step2_callback(&mut balance, Some(pair(1, 2, 3))).unwrap();
    assert_eq!(
        effects,
        vec![Effect::Emit(Event::Swap(SwapEvent { pool: key(1), user: [0; 32], a_to_b: false }))]
    );
}

#[test]
fn withdraw_request_names_the_derived_authority() {
    let mut balance = create_user_balance(3, key(2), key(1));
    init_deposit_callback(&mut balance, Some(pair(12, 73, 74))).unwrap();
    let effects = withdraw_from_pool(&balance, &created_pool(), &keys(), PROGRAM_ID, 4, 92).unwrap();
    assert_eq!(effects[0], Effect::SetSignerBump(4));
    match &effects[1] {
        Effect::Queue(q) => {
            assert_eq!(q.circuit, Circuit::Withdraw);
            assert_eq!(
                q.args,
                vec![
                    CircuitArg::PlaintextU128(12),
                    CircuitArg::EncryptedU64(key(73)),
                    CircuitArg::EncryptedU64(key(74)),
                ]
            );
            assert_eq!(
                q.callback_accounts,
                vec![
                    CallbackAccount { pubkey: key(3), is_writable: true },
                    CallbackAccount { pubkey: key(2), is_writable: true },
                    CallbackAccount { pubkey: key(7), is_writable: true },
                    CallbackAccount { pubkey: key(8), is_writable: true },
                    CallbackAccount { pubkey: key(9), is_writable: true },
                    CallbackAccount { pubkey: key(10), is_writable: true },
                    CallbackAccount { pubkey: authority().0, is_writable: false },
                    CallbackAccount { pubkey: key(13), is_writable: false },
                ]
            );
        }
        other => panic!("expected a queued computation, got {:?}", other),
    }
}

#[test]
fn underivable_pool_authority_stops_the_instruction() {
    let bad_bump = (0u8..=255)
        .find(|b| pool_authority_address(key(1), *b, PROGRAM_ID).is_none())
        .expect("some bump gives no address");
    let mut pool = created_pool();
    pool.pool_authority_bump = bad_bump;
    assert_eq!(
        add_liquidity_to_pool(&pool, &keys(), PROGRAM_ID, 7, 78, 10, 40, key(40), key(41), key(42), 5, 20),
        Err(InstructionError::NoPoolAuthority)
    );
    let before = pool;
    assert_eq!(
        remove_liquidity_from_pool(&mut pool, &keys(), PROGRAM_ID, 9, 79, 1, key(0), 0),
        Err(InstructionError::NoPoolAuthority)
    );
    assert_eq!(pool, before);
    let mut balance = create_user_balance(3, key(2), key(1));
    init_deposit_callback(&mut balance, Some(pair(12, 73, 74))).unwrap();
    assert_eq!(
        withdraw_from_pool(&balance, &pool, &keys(), PROGRAM_ID, 4, 92),
        Err(InstructionError::NoPoolAuthority)
    );
}
