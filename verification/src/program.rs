//! The decisions of each program instruction: from the accounts' state and the
//! instruction's inputs to the new state and the effects to carry out (token
//! transfers, liquidity-token mints and burns, computations to queue, events).
//!
//! Each instruction that queues a computation is answered later by its
//! callback, which receives the computation's verified output, or `None` when
//! the cluster aborted it or its signature did not verify.
use crate::circuits;
use crate::computation::{self, CallbackAccount, Circuit, CircuitArg, QueuedComputation};
use crate::math::{self, integer_sqrt};
use crate::pda::{self, find_pool_authority, pool_authority_address};
use crate::state::{
    self, nonce_from_le_bytes, nonce_to_le_bytes, ErrorCode, LiquidityAddedEvent, LiquidityPool,
    LiquidityRemovedEvent, PoolInitializedEvent, SwapEvent, UserPoolBalance, WithdrawEvent,
};
use vstd::prelude::*;

verus! {

/// One of the pool's two tokens.
#[derive(Clone, Copy, Debug, PartialEq, Eq)]
pub enum Token {
    A,
    B,
}

/// An event that the program emits.
#[derive(Clone, Copy, Debug, PartialEq, Eq)]
pub enum Event {
    PoolInitialized(PoolInitializedEvent),
    LiquidityAdded(LiquidityAddedEvent),
    LiquidityRemoved(LiquidityRemovedEvent),
    Swap(SwapEvent),
    Withdraw(WithdrawEvent),
}

/// What an instruction asks to be carried out, in order.
#[derive(Debug, PartialEq, Eq)]
pub enum Effect {
    /// Moves `amount` of `token` from the signer's token account to the pool's,
    /// signed by the signer.
    TransferToPool { token: Token, amount: u64 },
    /// Moves `amount` of `token` from the pool's token account to the user's,
    /// signed by the pool authority.
    TransferFromPool { token: Token, amount: u64 },
    /// Mints `amount` liquidity tokens to the user, signed by the pool authority.
    MintLp { amount: u64 },
    /// Burns `amount` of the user's liquidity tokens, signed by the user.
    BurnLp { amount: u64 },
    /// Records the bump of the cluster's signer account.
    SetSignerBump(u8),
    Queue(QueuedComputation),
    Emit(Event),
}

/// The addresses of the accounts that an instruction is given.
#[derive(Clone, Copy, Debug, PartialEq, Eq)]
pub struct AccountKeys {
    pub pool: [u8; 32],
    /// The signer: the pool's creator, or the user.
    pub user: [u8; 32],
    pub user_pool_balance: [u8; 32],
    pub token_a_mint: [u8; 32],
    pub token_b_mint: [u8; 32],
    pub lp_mint: [u8; 32],
    pub user_token_a: [u8; 32],
    pub user_token_b: [u8; 32],
    pub pool_token_a: [u8; 32],
    pub pool_token_b: [u8; 32],
    pub user_lp_token: [u8; 32],
    pub token_program: [u8; 32],
}

/// Two ciphertexts and the nonce they are encrypted under.
#[derive(Clone, Copy, Debug, PartialEq, Eq)]
pub struct EncryptedPair {
    pub nonce: u128,
    pub ciphertext_a: [u8; 32],
    pub ciphertext_b: [u8; 32],
}

/// One ciphertext and the nonce it is encrypted under.
#[derive(Clone, Copy, Debug, PartialEq, Eq)]
pub struct EncryptedValue {
    pub nonce: u128,
    pub ciphertext: [u8; 32],
}

/// Why an instruction that needs the pool authority does not proceed.
#[derive(Clone, Copy, Debug, PartialEq, Eq)]
pub enum InstructionError {
    /// The instruction is refused with a program error.
    Refused(ErrorCode),
    /// No pool-authority address can be derived from the pool (no viable bump
    /// at creation, or the recorded bump gives no address); the instruction
    /// fails and the transaction is rolled back.
    NoPoolAuthority,
}

/// The pool authority of `pool` under `bump`, for the program `program_id`.
pub open spec fn pool_authority_of(pool: [u8; 32], bump: u8, program_id: [u8; 32]) -> Option<
    [u8; 32],
> {
    pda::derived_program_address(pda::pool_authority_seeds_with_bump(pool, bump), program_id)
}

// ---------------------------------------------------------------------------
// State transitions
// ---------------------------------------------------------------------------

/// `new` is `old` with its reserves replaced by the encrypted pair `o`.
pub open spec fn pool_reencrypted(old: LiquidityPool, new: LiquidityPool, o: EncryptedPair) -> bool {
    &&& new.encrypted_reserve_a == o.ciphertext_a
    &&& new.encrypted_reserve_b == o.ciphertext_b
    &&& new.reserve_nonce@ == state::nonce_bytes(o.nonce)
    &&& new.bump == old.bump
    &&& new.pool_authority_bump == old.pool_authority_bump
    &&& new.token_a_mint == old.token_a_mint
    &&& new.token_b_mint == old.token_b_mint
    &&& new.lp_mint == old.lp_mint
    &&& new.authority == old.authority
    &&& new.reserve_pubkey == old.reserve_pubkey
}

/// `new` is `old` with its balance replaced by the encrypted pair `o`; the
/// pending swap output and the `initialized` flag are for the caller to state.
pub open spec fn balance_reencrypted(
    old: UserPoolBalance,
    new: UserPoolBalance,
    o: EncryptedPair,
) -> bool {
    &&& new.encrypted_balance_a == o.ciphertext_a
    &&& new.encrypted_balance_b == o.ciphertext_b
    &&& new.balance_nonce@ == state::nonce_bytes(o.nonce)
    &&& new.bump == old.bump
    &&& new.user == old.user
    &&& new.pool == old.pool
}

/// `new` keeps `old`'s pending swap output.
pub open spec fn pending_kept(old: UserPoolBalance, new: UserPoolBalance) -> bool {
    &&& new.pending_amount_out == old.pending_amount_out
    &&& new.pending_amount_out_nonce == old.pending_amount_out_nonce
    &&& new.pending_a_to_b == old.pending_a_to_b
}

/// `n` zero bytes.
pub open spec fn zero_bytes(n: nat) -> Seq<u8> {
    Seq::new(n, |i: int| 0u8)
}

/// `b` holds no pending swap output.
pub open spec fn pending_cleared(b: UserPoolBalance) -> bool {
    &&& b.pending_amount_out@ == zero_bytes(32)
    &&& b.pending_amount_out_nonce@ == zero_bytes(16)
    &&& !b.pending_a_to_b
}

/// A balance accepts a first deposit only while it is not initialized.
pub open spec fn accepts_first_deposit(b: UserPoolBalance) -> bool {
    !b.initialized
}

/// A balance accepts deposits, swaps and withdrawals only once initialized.
pub open spec fn accepts_operations(b: UserPoolBalance) -> bool {
    b.initialized
}

/// The transfer into the pool of a deposit's nonzero amounts.
pub open spec fn deposit_transfers(amount_a: u64, amount_b: u64) -> Seq<Effect> {
    (if amount_a > 0 {
        seq![Effect::TransferToPool { token: Token::A, amount: amount_a }]
    } else {
        seq![]
    }) + (if amount_b > 0 {
        seq![Effect::TransferToPool { token: Token::B, amount: amount_b }]
    } else {
        seq![]
    })
}

/// The payout from the pool of a withdrawal's nonzero amounts.
pub open spec fn payout_transfers(amount_a: u64, amount_b: u64) -> Seq<Effect> {
    (if amount_a > 0 {
        seq![Effect::TransferFromPool { token: Token::A, amount: amount_a }]
    } else {
        seq![]
    }) + (if amount_b > 0 {
        seq![Effect::TransferFromPool { token: Token::B, amount: amount_b }]
    } else {
        seq![]
    })
}

/// `e` is a queue effect carrying `circuit`, `offset`, `args` and `accounts`.
pub open spec fn is_queue_of(
    e: Effect,
    circuit: Circuit,
    offset: u64,
    args: Seq<CircuitArg>,
    accounts: Seq<CallbackAccount>,
) -> bool {
    e matches Effect::Queue(q) && computation::queues(q, circuit, offset, args, accounts)
}

/// The arguments by which a pool's encrypted reserves enter a computation.
pub open spec fn reserve_args(pool: LiquidityPool) -> Seq<CircuitArg> {
    seq![
        CircuitArg::X25519Pubkey(pool.reserve_pubkey),
        CircuitArg::PlaintextU128(state::nonce_value(pool.reserve_nonce@)),
        CircuitArg::EncryptedU64(pool.encrypted_reserve_a),
        CircuitArg::EncryptedU64(pool.encrypted_reserve_b),
    ]
}

/// The arguments by which a user's encrypted balance enters a computation.
pub open spec fn balance_args(b: UserPoolBalance) -> Seq<CircuitArg> {
    seq![
        CircuitArg::PlaintextU128(state::nonce_value(b.balance_nonce@)),
        CircuitArg::EncryptedU64(b.encrypted_balance_a),
        CircuitArg::EncryptedU64(b.encrypted_balance_b),
    ]
}

/// The arguments of a pair of amounts the user encrypted to `pubkey`.
pub open spec fn user_pair_args(pubkey: [u8; 32], nonce: u128, ct_a: [u8; 32], ct_b: [u8; 32]) -> Seq<
    CircuitArg,
> {
    seq![
        CircuitArg::X25519Pubkey(pubkey),
        CircuitArg::PlaintextU128(nonce),
        CircuitArg::EncryptedU64(ct_a),
        CircuitArg::EncryptedU64(ct_b),
    ]
}

/// The arguments of one amount the user encrypted to `pubkey`.
pub open spec fn user_value_args(pubkey: [u8; 32], nonce: u128, ct: [u8; 32]) -> Seq<CircuitArg> {
    seq![
        CircuitArg::X25519Pubkey(pubkey),
        CircuitArg::PlaintextU128(nonce),
        CircuitArg::EncryptedU64(ct),
    ]
}

/// The direction flag as the circuits take it.
pub open spec fn direction_flag(a_to_b: bool) -> u8 {
    if a_to_b {
        1
    } else {
        0
    }
}

// ---------------------------------------------------------------------------
// Argument builders
// ---------------------------------------------------------------------------

fn push_reserve_args(args: &mut Vec<CircuitArg>, pool: &LiquidityPool)
    ensures
        final(args)@ == old(args)@ + reserve_args(*pool),
{
    let nonce = nonce_from_le_bytes(pool.reserve_nonce);
    args.push(CircuitArg::X25519Pubkey(pool.reserve_pubkey));
    args.push(CircuitArg::PlaintextU128(nonce));
    args.push(CircuitArg::EncryptedU64(pool.encrypted_reserve_a));
    args.push(CircuitArg::EncryptedU64(pool.encrypted_reserve_b));
    assert(args@ =~= old(args)@ + reserve_args(*pool));
}

fn push_balance_args(args: &mut Vec<CircuitArg>, balance: &UserPoolBalance)
    ensures
        final(args)@ == old(args)@ + balance_args(*balance),
{
    let nonce = nonce_from_le_bytes(balance.balance_nonce);
    args.push(CircuitArg::PlaintextU128(nonce));
    args.push(CircuitArg::EncryptedU64(balance.encrypted_balance_a));
    args.push(CircuitArg::EncryptedU64(balance.encrypted_balance_b));
    assert(args@ =~= old(args)@ + balance_args(*balance));
}

fn push_user_pair_args(
    args: &mut Vec<CircuitArg>,
    pubkey: [u8; 32],
    nonce: u128,
    ct_a: [u8; 32],
    ct_b: [u8; 32],
)
    ensures
        final(args)@ == old(args)@ + user_pair_args(pubkey, nonce, ct_a, ct_b),
{
    args.push(CircuitArg::X25519Pubkey(pubkey));
    args.push(CircuitArg::PlaintextU128(nonce));
    args.push(CircuitArg::EncryptedU64(ct_a));
    args.push(CircuitArg::EncryptedU64(ct_b));
    assert(args@ =~= old(args)@ + user_pair_args(pubkey, nonce, ct_a, ct_b));
}

fn push_deposit_transfers(effects: &mut Vec<Effect>, amount_a: u64, amount_b: u64)
    ensures
        final(effects)@ == old(effects)@ + deposit_transfers(amount_a, amount_b),
{
    if amount_a > 0 {
        effects.push(Effect::TransferToPool { token: Token::A, amount: amount_a });
    }
    if amount_b > 0 {
        effects.push(Effect::TransferToPool { token: Token::B, amount: amount_b });
    }
    assert(effects@ =~= old(effects)@ + deposit_transfers(amount_a, amount_b));
}

// ---------------------------------------------------------------------------
// Pool instructions
// ---------------------------------------------------------------------------

/// The accounts the pool-creation callback receives.
pub open spec fn initialize_pool_callback_accounts(keys: AccountKeys, authority: [u8; 32]) -> Seq<
    CallbackAccount,
> {
    seq![
        computation::writable(keys.pool),
        computation::writable(keys.lp_mint),
        computation::writable(keys.user_lp_token),
        computation::read_only(authority),
        computation::read_only(keys.token_program),
    ]
}

/// The outcome of a pool's creation.
pub open spec fn initialize_liquidity_pool_outcome(
    old: LiquidityPool,
    new: LiquidityPool,
    keys: AccountKeys,
    program_id: [u8; 32],
    pool_bump: u8,
    sign_pda_bump: u8,
    computation_offset: u64,
    initial_amount_a: u64,
    initial_amount_b: u64,
    ciphertext_a: [u8; 32],
    ciphertext_b: [u8; 32],
    pubkey: [u8; 32],
    nonce: u128,
    r: Result<Vec<Effect>, InstructionError>,
) -> bool {
    match pda::program_address_search(pda::pool_authority_seeds(keys.pool), program_id) {
        None => r == Err::<Vec<Effect>, InstructionError>(InstructionError::NoPoolAuthority)
            && new == old,
        Some((authority, authority_bump)) => match r {
            Err(_) => false,
            Ok(effects) => {
                &&& pool_authority_of(keys.pool, authority_bump, program_id) == Some(authority)
                &&& new.bump == pool_bump
                &&& new.pool_authority_bump == authority_bump
                &&& new.token_a_mint == keys.token_a_mint
                &&& new.token_b_mint == keys.token_b_mint
                &&& new.lp_mint == keys.lp_mint
                &&& new.authority == keys.user
                &&& new.reserve_pubkey == pubkey
                &&& new.reserve_nonce@ == state::nonce_bytes(nonce)
                &&& math::is_integer_sqrt(
                    initial_amount_a as nat * initial_amount_b as nat,
                    new.lp_supply as nat,
                )
                &&& new.encrypted_reserve_a == old.encrypted_reserve_a
                &&& new.encrypted_reserve_b == old.encrypted_reserve_b
                &&& effects@.len() == 4
                &&& effects@[0] == Effect::TransferToPool { token: Token::A, amount: initial_amount_a }
                &&& effects@[1] == Effect::TransferToPool { token: Token::B, amount: initial_amount_b }
                &&& effects@[2] == Effect::SetSignerBump(sign_pda_bump)
                &&& is_queue_of(
                    effects@[3],
                    Circuit::InitializePool,
                    computation_offset,
                    user_pair_args(pubkey, nonce, ciphertext_a, ciphertext_b),
                    initialize_pool_callback_accounts(keys, authority),
                )
            },
        },
    }
}

/// Creates a pool: searches the bump of the pool authority, records the pool's
/// mints, creator and bumps, the key and nonce its reserves will be encrypted
/// under, and an initial liquidity-token supply of
/// `floor(sqrt(initial_amount_a * initial_amount_b))`; takes both initial
/// amounts from the creator and queues the encryption of the reserves, whose
/// callback is given the pool authority's address. Fails with
/// `NoPoolAuthority`, changing nothing, when the search finds no bump.
pub fn initialize_liquidity_pool(
    pool: &mut LiquidityPool,
    keys: &AccountKeys,
    program_id: [u8; 32],
    pool_bump: u8,
    sign_pda_bump: u8,
    computation_offset: u64,
    initial_amount_a: u64,
    initial_amount_b: u64,
    ciphertext_a: [u8; 32],
    ciphertext_b: [u8; 32],
    pubkey: [u8; 32],
    nonce: u128,
) -> (r: Result<Vec<Effect>, InstructionError>)
    ensures
        initialize_liquidity_pool_outcome(
            *old(pool),
            *final(pool),
            *keys,
            program_id,
            pool_bump,
            sign_pda_bump,
            computation_offset,
            initial_amount_a,
            initial_amount_b,
            ciphertext_a,
            ciphertext_b,
            pubkey,
            nonce,
            r,
        ),
{
    let (found, pool_authority_bump) = match find_pool_authority(keys.pool, program_id) {
        Some(x) => x,
        None => {
            return Err(InstructionError::NoPoolAuthority);
        },
    };
    let pool_authority = match pool_authority_address(keys.pool, pool_authority_bump, program_id) {
        Some(k) => k,
        None => {
            return Err(InstructionError::NoPoolAuthority);
        },
    };
    assert(pool_authority == found);
    pool.bump = pool_bump;
    pool.pool_authority_bump = pool_authority_bump;
    pool.token_a_mint = keys.token_a_mint;
    pool.token_b_mint = keys.token_b_mint;
    pool.lp_mint = keys.lp_mint;
    pool.authority = keys.user;
    pool.reserve_pubkey = pubkey;
    pool.reserve_nonce = nonce_to_le_bytes(nonce);
    proof {
        assert(initial_amount_a * initial_amount_b <= u64::MAX * u64::MAX) by (nonlinear_arith)
            requires
                initial_amount_a <= u64::MAX,
                initial_amount_b <= u64::MAX,
        ;
    }
    let product: u128 = (initial_amount_a as u128) * (initial_amount_b as u128);
    pool.lp_supply = integer_sqrt(product);

    let mut args: Vec<CircuitArg> = Vec::new();
    push_user_pair_args(&mut args, pubkey, nonce, ciphertext_a, ciphertext_b);
    let mut accounts: Vec<CallbackAccount> = Vec::new();
    accounts.push(CallbackAccount { pubkey: keys.pool, is_writable: true });
    accounts.push(CallbackAccount { pubkey: keys.lp_mint, is_writable: true });
    accounts.push(CallbackAccount { pubkey: keys.user_lp_token, is_writable: true });
    accounts.push(CallbackAccount { pubkey: pool_authority, is_writable: false });
    accounts.push(CallbackAccount { pubkey: keys.token_program, is_writable: false });
    assert(accounts@ =~= initialize_pool_callback_accounts(*keys, pool_authority));
    assert(args@ =~= seq![] + user_pair_args(pubkey, nonce, ciphertext_a, ciphertext_b));

    let mut effects: Vec<Effect> = Vec::new();
    effects.push(Effect::TransferToPool { token: Token::A, amount: initial_amount_a });
    effects.push(Effect::TransferToPool { token: Token::B, amount: initial_amount_b });
    effects.push(Effect::SetSignerBump(sign_pda_bump));
    effects.push(
        Effect::Queue(
            QueuedComputation {
                circuit: Circuit::InitializePool,
                computation_offset,
                args,
                callback_accounts: accounts,
            },
        ),
    );
    Ok(effects)
}

/// The outcome of the pool-creation callback.
pub open spec fn initialize_pool_callback_outcome(
    old: LiquidityPool,
    new: LiquidityPool,
    pool_key: [u8; 32],
    output: Option<EncryptedPair>,
    r: Result<Vec<Effect>, ErrorCode>,
) -> bool {
    match output {
        None => r == Err::<Vec<Effect>, ErrorCode>(ErrorCode::AbortedComputation) && new == old,
        Some(o) => match r {
            Err(_) => false,
            Ok(effects) => {
                &&& pool_reencrypted(old, new, o)
                &&& new.lp_supply == old.lp_supply
                &&& effects@ == seq![
                    Effect::MintLp { amount: old.lp_supply },
                    Effect::Emit(
                        Event::PoolInitialized(
                            PoolInitializedEvent {
                                pool: pool_key,
                                encrypted_reserve_a: o.ciphertext_a,
                                encrypted_reserve_b: o.ciphertext_b,
                                lp_supply: old.lp_supply,
                            },
                        ),
                    ),
                ]
            },
        },
    }
}

/// Stores the encrypted reserves of a new pool, mints the initial liquidity
/// tokens to the creator and announces the pool. An aborted or unverified
/// computation is refused with `AbortedComputation` and changes nothing.
pub fn initialize_pool_callback(
    pool: &mut LiquidityPool,
    pool_key: [u8; 32],
    output: Option<EncryptedPair>,
) -> (r: Result<Vec<Effect>, ErrorCode>)
    ensures
        initialize_pool_callback_outcome(*old(pool), *final(pool), pool_key, output, r),
{
    let o = match output {
        Some(o) => o,
        None => {
            return Err(ErrorCode::AbortedComputation);
        },
    };
    pool.encrypted_reserve_a = o.ciphertext_a;
    pool.encrypted_reserve_b = o.ciphertext_b;
    pool.reserve_nonce = nonce_to_le_bytes(o.nonce);
    let mut effects: Vec<Effect> = Vec::new();
    effects.push(Effect::MintLp { amount: pool.lp_supply });
    effects.push(
        Effect::Emit(
            Event::PoolInitialized(
                PoolInitializedEvent {
                    pool: pool_key,
                    encrypted_reserve_a: pool.encrypted_reserve_a,
                    encrypted_reserve_b: pool.encrypted_reserve_b,
                    lp_supply: pool.lp_supply,
                },
            ),
        ),
    );
    assert(effects@ =~= seq![
        Effect::MintLp { amount: old(pool).lp_supply },
        Effect::Emit(
            Event::PoolInitialized(
                PoolInitializedEvent {
                    pool: pool_key,
                    encrypted_reserve_a: o.ciphertext_a,
                    encrypted_reserve_b: o.ciphertext_b,
                    lp_supply: old(pool).lp_supply,
                },
            ),
        ),
    ]);
    Ok(effects)
}

/// The accounts the add-liquidity callback receives.
pub open spec fn add_liquidity_callback_accounts(
    pool: LiquidityPool,
    keys: AccountKeys,
    authority: [u8; 32],
) -> Seq<CallbackAccount> {
    seq![
        computation::writable(keys.pool),
        computation::writable(keys.user),
        computation::writable(pool.lp_mint),
        computation::writable(keys.user_lp_token),
        computation::read_only(keys.pool_token_a),
        computation::read_only(keys.pool_token_b),
        computation::read_only(authority),
        computation::read_only(keys.token_program),
    ]
}

/// The arguments of the add-liquidity computation.
pub open spec fn add_liquidity_args(
    pool: LiquidityPool,
    pubkey: [u8; 32],
    nonce: u128,
    ciphertext_a: [u8; 32],
    ciphertext_b: [u8; 32],
    lp_minted: u64,
) -> Seq<CircuitArg> {
    reserve_args(pool) + user_pair_args(pubkey, nonce, ciphertext_a, ciphertext_b) + seq![
        CircuitArg::PlaintextU64(pool.lp_supply),
        CircuitArg::PlaintextU64(lp_minted),
    ]
}

/// The outcome of a request to add liquidity.
pub open spec fn add_liquidity_to_pool_outcome(
    pool: LiquidityPool,
    keys: AccountKeys,
    program_id: [u8; 32],
    sign_pda_bump: u8,
    computation_offset: u64,
    amount_a: u64,
    amount_b: u64,
    ciphertext_a: [u8; 32],
    ciphertext_b: [u8; 32],
    pubkey: [u8; 32],
    nonce: u128,
    lp_minted: u64,
    r: Result<Vec<Effect>, InstructionError>,
) -> bool {
    match pool_authority_of(keys.pool, pool.pool_authority_bump, program_id) {
        None => r == Err::<Vec<Effect>, InstructionError>(InstructionError::NoPoolAuthority),
        Some(authority) => match r {
            Err(_) => false,
            Ok(effects) => {
                &&& effects@.len() == 4
                &&& effects@[0] == Effect::TransferToPool { token: Token::A, amount: amount_a }
                &&& effects@[1] == Effect::TransferToPool { token: Token::B, amount: amount_b }
                &&& effects@[2] == Effect::SetSignerBump(sign_pda_bump)
                &&& is_queue_of(
                    effects@[3],
                    Circuit::AddLiquidity,
                    computation_offset,
                    add_liquidity_args(pool, pubkey, nonce, ciphertext_a, ciphertext_b, lp_minted),
                    add_liquidity_callback_accounts(pool, keys, authority),
                )
            },
        },
    }
}

/// Takes a deposit of both tokens from the user and queues the computation that
/// adds it to the encrypted reserves and checks that it pays for `lp_minted`
/// liquidity tokens; its callback is given the pool authority derived from the
/// pool and its recorded bump. The pool is not changed until the callback.
/// Fails with `NoPoolAuthority` when that derivation fails.
pub fn add_liquidity_to_pool(
    pool: &LiquidityPool,
    keys: &AccountKeys,
    program_id: [u8; 32],
    sign_pda_bump: u8,
    computation_offset: u64,
    amount_a: u64,
    amount_b: u64,
    ciphertext_a: [u8; 32],
    ciphertext_b: [u8; 32],
    pubkey: [u8; 32],
    nonce: u128,
    lp_minted: u64,
) -> (r: Result<Vec<Effect>, InstructionError>)
    ensures
        add_liquidity_to_pool_outcome(
            *pool,
            *keys,
            program_id,
            sign_pda_bump,
            computation_offset,
            amount_a,
            amount_b,
            ciphertext_a,
            ciphertext_b,
            pubkey,
            nonce,
            lp_minted,
            r,
        ),
{
    let pool_authority = match pool_authority_address(keys.pool, pool.pool_authority_bump, program_id) {
        Some(k) => k,
        None => {
            return Err(InstructionError::NoPoolAuthority);
        },
    };
    let mut args: Vec<CircuitArg> = Vec::new();
    push_reserve_args(&mut args, pool);
    push_user_pair_args(&mut args, pubkey, nonce, ciphertext_a, ciphertext_b);
    args.push(CircuitArg::PlaintextU64(pool.lp_supply));
    args.push(CircuitArg::PlaintextU64(lp_minted));
    assert(args@ =~= add_liquidity_args(*pool, pubkey, nonce, ciphertext_a, ciphertext_b, lp_minted));
    let mut accounts: Vec<CallbackAccount> = Vec::new();
    accounts.push(CallbackAccount { pubkey: keys.pool, is_writable: true });
    accounts.push(CallbackAccount { pubkey: keys.user, is_writable: true });
    accounts.push(CallbackAccount { pubkey: pool.lp_mint, is_writable: true });
    accounts.push(CallbackAccount { pubkey: keys.user_lp_token, is_writable: true });
    accounts.push(CallbackAccount { pubkey: keys.pool_token_a, is_writable: false });
    accounts.push(CallbackAccount { pubkey: keys.pool_token_b, is_writable: false });
    accounts.push(CallbackAccount { pubkey: pool_authority, is_writable: false });
    accounts.push(CallbackAccount { pubkey: keys.token_program, is_writable: false });
    assert(accounts@ =~= add_liquidity_callback_accounts(*pool, *keys, pool_authority));
    let mut effects: Vec<Effect> = Vec::new();
    effects.push(Effect::TransferToPool { token: Token::A, amount: amount_a });
    effects.push(Effect::TransferToPool { token: Token::B, amount: amount_b });
    effects.push(Effect::SetSignerBump(sign_pda_bump));
    effects.push(
        Effect::Queue(
            QueuedComputation {
                circuit: Circuit::AddLiquidity,
                computation_offset,
                args,
                callback_accounts: accounts,
            },
        ),
    );
    Ok(effects)
}

/// The outcome of the add-liquidity callback.
pub open spec fn add_liquidity_callback_outcome(
    old: LiquidityPool,
    new: LiquidityPool,
    pool_key: [u8; 32],
    user_key: [u8; 32],
    output: Option<(EncryptedPair, u64)>,
    r: Result<Vec<Effect>, ErrorCode>,
) -> bool {
    match output {
        None => r == Err::<Vec<Effect>, ErrorCode>(ErrorCode::AbortedComputation) && new == old,
        Some((o, minted)) => match r {
            Err(_) => false,
            Ok(effects) => {
                &&& pool_reencrypted(old, new, o)
                &&& new.lp_supply == old.lp_supply + minted
                &&& effects@ == seq![
                    Effect::MintLp { amount: minted },
                    Effect::Emit(
                        Event::LiquidityAdded(
                            LiquidityAddedEvent {
                                pool: pool_key,
                                user: user_key,
                                encrypted_reserve_a: o.ciphertext_a,
                                encrypted_reserve_b: o.ciphertext_b,
                                lp_minted: minted,
                            },
                        ),
                    ),
                ]
            },
        },
    }
}

/// Stores the new encrypted reserves, adds the granted liquidity tokens to the
/// supply and mints them to the user. The supply must have room for them.
pub fn add_liquidity_callback(
    pool: &mut LiquidityPool,
    pool_key: [u8; 32],
    user_key: [u8; 32],
    output: Option<(EncryptedPair, u64)>,
) -> (r: Result<Vec<Effect>, ErrorCode>)
    requires
        output matches Some((o, minted)) ==> old(pool).lp_supply + minted <= u64::MAX,
    ensures
        add_liquidity_callback_outcome(*old(pool), *final(pool), pool_key, user_key, output, r),
{
    let (o, minted) = match output {
        Some(x) => x,
        None => {
            return Err(ErrorCode::AbortedComputation);
        },
    };
    pool.encrypted_reserve_a = o.ciphertext_a;
    pool.encrypted_reserve_b = o.ciphertext_b;
    pool.reserve_nonce = nonce_to_le_bytes(o.nonce);
    pool.lp_supply = pool.lp_supply + minted;
    let mut effects: Vec<Effect> = Vec::new();
    effects.push(Effect::MintLp { amount: minted });
    effects.push(
        Effect::Emit(
            Event::LiquidityAdded(
                LiquidityAddedEvent {
                    pool: pool_key,
                    user: user_key,
                    encrypted_reserve_a: pool.encrypted_reserve_a,
                    encrypted_reserve_b: pool.encrypted_reserve_b,
                    lp_minted: minted,
                },
            ),
        ),
    );
    assert(effects@ =~= seq![
        Effect::MintLp { amount: minted },
        Effect::Emit(
            Event::LiquidityAdded(
                LiquidityAddedEvent {
                    pool: pool_key,
                    user: user_key,
                    encrypted_reserve_a: o.ciphertext_a,
                    encrypted_reserve_b: o.ciphertext_b,
                    lp_minted: minted,
                },
            ),
        ),
    ]);
    Ok(effects)
}

/// The accounts the remove-liquidity and withdrawal callbacks receive after
/// the written one.
pub open spec fn payout_callback_accounts(
    first: [u8; 32],
    keys: AccountKeys,
    authority: [u8; 32],
) -> Seq<CallbackAccount> {
    seq![
        computation::writable(first),
        computation::writable(keys.user),
        computation::writable(keys.user_token_a),
        computation::writable(keys.user_token_b),
        computation::writable(keys.pool_token_a),
        computation::writable(keys.pool_token_b),
        computation::read_only(authority),
        computation::read_only(keys.token_program),
    ]
}

fn payout_callback_account_vec(first: [u8; 32], keys: &AccountKeys, authority: [u8; 32]) -> (v: Vec<
    CallbackAccount,
>)
    ensures
        v@ == payout_callback_accounts(first, *keys, authority),
{
    let mut accounts: Vec<CallbackAccount> = Vec::new();
    accounts.push(CallbackAccount { pubkey: first, is_writable: true });
    accounts.push(CallbackAccount { pubkey: keys.user, is_writable: true });
    accounts.push(CallbackAccount { pubkey: keys.user_token_a, is_writable: true });
    accounts.push(CallbackAccount { pubkey: keys.user_token_b, is_writable: true });
    accounts.push(CallbackAccount { pubkey: keys.pool_token_a, is_writable: true });
    accounts.push(CallbackAccount { pubkey: keys.pool_token_b, is_writable: true });
    accounts.push(CallbackAccount { pubkey: authority, is_writable: false });
    accounts.push(CallbackAccount { pubkey: keys.token_program, is_writable: false });
    assert(accounts@ =~= payout_callback_accounts(first, *keys, authority));
    accounts
}

/// The arguments of the remove-liquidity computation.
pub open spec fn remove_liquidity_args(pool: LiquidityPool, lp_amount: u64, lp_supply: u64) -> Seq<
    CircuitArg,
> {
    reserve_args(pool) + seq![
        CircuitArg::PlaintextU64(lp_amount),
        CircuitArg::PlaintextU64(lp_supply),
    ]
}

/// The outcome of a request to remove liquidity.
pub open spec fn remove_liquidity_outcome(
    old: LiquidityPool,
    new: LiquidityPool,
    keys: AccountKeys,
    program_id: [u8; 32],
    sign_pda_bump: u8,
    computation_offset: u64,
    lp_amount: u64,
    r: Result<Vec<Effect>, InstructionError>,
) -> bool {
    if lp_amount > old.lp_supply {
        r == Err::<Vec<Effect>, InstructionError>(
            InstructionError::Refused(ErrorCode::InsufficientLPTokens),
        ) && new == old
    } else if old.lp_supply == 0 {
        r == Err::<Vec<Effect>, InstructionError>(
            InstructionError::Refused(ErrorCode::InsufficientLiquidity),
        ) && new == old
    } else {
        match pool_authority_of(keys.pool, old.pool_authority_bump, program_id) {
        None => r == Err::<Vec<Effect>, InstructionError>(InstructionError::NoPoolAuthority)
            && new == old,
        Some(authority) => match r {
            Err(_) => false,
            Ok(effects) => {
                &&& new == LiquidityPool { lp_supply: (old.lp_supply - lp_amount) as u64, ..old }
                &&& effects@.len() == 3
                &&& effects@[0] == Effect::BurnLp { amount: lp_amount }
                &&& effects@[1] == Effect::SetSignerBump(sign_pda_bump)
                &&& is_queue_of(
                    effects@[2],
                    Circuit::RemoveLiquidity,
                    computation_offset,
                    remove_liquidity_args(old, lp_amount, old.lp_supply),
                    payout_callback_accounts(keys.pool, keys, authority),
                )
            },
        },
        }
    }
}

/// Burns `lp_amount` of the user's liquidity tokens, takes them off the supply
/// and queues the computation of the user's share of the reserves. Refused with
/// `InsufficientLPTokens` when the amount exceeds the supply, else with
/// `InsufficientLiquidity` when the supply is zero; then fails with
/// `NoPoolAuthority`, changing nothing, when no pool authority derives from the
/// pool and its recorded bump. The callback is given that authority. The key
/// and nonce the user passes are not used.
pub fn remove_liquidity_from_pool(
    pool: &mut LiquidityPool,
    keys: &AccountKeys,
    program_id: [u8; 32],
    sign_pda_bump: u8,
    computation_offset: u64,
    lp_amount: u64,
    pubkey: [u8; 32],
    nonce: u128,
) -> (r: Result<Vec<Effect>, InstructionError>)
    ensures
        remove_liquidity_outcome(
            *old(pool),
            *final(pool),
            *keys,
            program_id,
            sign_pda_bump,
            computation_offset,
            lp_amount,
            r,
        ),
{
    if lp_amount > pool.lp_supply {
        return Err(InstructionError::Refused(ErrorCode::InsufficientLPTokens));
    }
    if pool.lp_supply == 0 {
        return Err(InstructionError::Refused(ErrorCode::InsufficientLiquidity));
    }
    let pool_authority = match pool_authority_address(keys.pool, pool.pool_authority_bump, program_id) {
        Some(k) => k,
        None => {
            return Err(InstructionError::NoPoolAuthority);
        },
    };
    let current_lp_supply = pool.lp_supply;
    pool.lp_supply = pool.lp_supply - lp_amount;
    let mut args: Vec<CircuitArg> = Vec::new();
    push_reserve_args(&mut args, pool);
    args.push(CircuitArg::PlaintextU64(lp_amount));
    args.push(CircuitArg::PlaintextU64(current_lp_supply));
    assert(args@ =~= remove_liquidity_args(*old(pool), lp_amount, current_lp_supply));
    let accounts = payout_callback_account_vec(keys.pool, keys, pool_authority);
    let mut effects: Vec<Effect> = Vec::new();
    effects.push(Effect::BurnLp { amount: lp_amount });
    effects.push(Effect::SetSignerBump(sign_pda_bump));
    effects.push(
        Effect::Queue(
            QueuedComputation {
                circuit: Circuit::RemoveLiquidity,
                computation_offset,
                args,
                callback_accounts: accounts,
            },
        ),
    );
    Ok(effects)
}

/// The outcome of the remove-liquidity callback.
pub open spec fn remove_liquidity_callback_outcome(
    old: LiquidityPool,
    new: LiquidityPool,
    pool_key: [u8; 32],
    user_key: [u8; 32],
    output: Option<(EncryptedPair, u64, u64)>,
    r: Result<Vec<Effect>, ErrorCode>,
) -> bool {
    match output {
        None => r == Err::<Vec<Effect>, ErrorCode>(ErrorCode::AbortedComputation) && new == old,
        Some((o, amount_a_out, amount_b_out)) => match r {
            Err(_) => false,
            Ok(effects) => {
                &&& pool_reencrypted(old, new, o)
                &&& new.lp_supply == old.lp_supply
                &&& effects@ == seq![
                    Effect::TransferFromPool { token: Token::A, amount: amount_a_out },
                    Effect::TransferFromPool { token: Token::B, amount: amount_b_out },
                    Effect::Emit(
                        Event::LiquidityRemoved(
                            LiquidityRemovedEvent {
                                pool: pool_key,
                                user: user_key,
                                encrypted_reserve_a: o.ciphertext_a,
                                encrypted_reserve_b: o.ciphertext_b,
                                amount_a_out,
                                amount_b_out,
                            },
                        ),
                    ),
                ]
            },
        },
    }
}

/// Stores the remaining encrypted reserves and pays the user's share out of
/// the pool.
pub fn remove_liquidity_callback(
    pool: &mut LiquidityPool,
    pool_key: [u8; 32],
    user_key: [u8; 32],
    output: Option<(EncryptedPair, u64, u64)>,
) -> (r: Result<Vec<Effect>, ErrorCode>)
    ensures
        remove_liquidity_callback_outcome(*old(pool), *final(pool), pool_key, user_key, output, r),
{
    let (o, amount_a_out, amount_b_out) = match output {
        Some(x) => x,
        None => {
            return Err(ErrorCode::AbortedComputation);
        },
    };
    pool.encrypted_reserve_a = o.ciphertext_a;
    pool.encrypted_reserve_b = o.ciphertext_b;
    pool.reserve_nonce = nonce_to_le_bytes(o.nonce);
    let mut effects: Vec<Effect> = Vec::new();
    effects.push(Effect::TransferFromPool { token: Token::A, amount: amount_a_out });
    effects.push(Effect::TransferFromPool { token: Token::B, amount: amount_b_out });
    effects.push(
        Effect::Emit(
            Event::LiquidityRemoved(
                LiquidityRemovedEvent {
                    pool: pool_key,
                    user: user_key,
                    encrypted_reserve_a: pool.encrypted_reserve_a,
                    encrypted_reserve_b: pool.encrypted_reserve_b,
                    amount_a_out,
                    amount_b_out,
                },
            ),
        ),
    );
    assert(effects@ =~= seq![
        Effect::TransferFromPool { token: Token::A, amount: amount_a_out },
        Effect::TransferFromPool { token: Token::B, amount: amount_b_out },
        Effect::Emit(
            Event::LiquidityRemoved(
                LiquidityRemovedEvent {
                    pool: pool_key,
                    user: user_key,
                    encrypted_reserve_a: o.ciphertext_a,
                    encrypted_reserve_b: o.ciphertext_b,
                    amount_a_out,
                    amount_b_out,
                },
            ),
        ),
    ]);
    Ok(effects)
}

// ---------------------------------------------------------------------------
// User balance instructions
// ---------------------------------------------------------------------------

/// A new, empty balance of `user` in `pool`: zero ciphertexts, not
/// initialized, nothing pending.
pub open spec fn fresh_balance(b: UserPoolBalance, bump: u8, user: [u8; 32], pool: [u8; 32]) -> bool {
    &&& b.bump == bump
    &&& b.user == user
    &&& b.pool == pool
    &&& b.encrypted_balance_a@ == zero_bytes(32)
    &&& b.encrypted_balance_b@ == zero_bytes(32)
    &&& b.balance_nonce@ == zero_bytes(16)
    &&& !b.initialized
    &&& pending_cleared(b)
}

/// Opens an empty balance of `user` in `pool`.
pub fn create_user_balance(bump: u8, user: [u8; 32], pool: [u8; 32]) -> (b: UserPoolBalance)
    ensures
        fresh_balance(b, bump, user, pool),
{
    let b = UserPoolBalance {
        bump,
        user,
        pool,
        encrypted_balance_a: [0u8; 32],
        encrypted_balance_b: [0u8; 32],
        balance_nonce: [0u8; 16],
        initialized: false,
        pending_amount_out: [0u8; 32],
        pending_amount_out_nonce: [0u8; 16],
        pending_a_to_b: false,
    };
    assert(b.encrypted_balance_a@ =~= zero_bytes(32));
    assert(b.encrypted_balance_b@ =~= zero_bytes(32));
    assert(b.balance_nonce@ =~= zero_bytes(16));
    assert(b.pending_amount_out@ =~= zero_bytes(32));
    assert(b.pending_amount_out_nonce@ =~= zero_bytes(16));
    b
}

/// The accounts the balance callbacks receive: the balance alone.
pub open spec fn balance_callback_accounts(keys: AccountKeys) -> Seq<CallbackAccount> {
    seq![computation::writable(keys.user_pool_balance)]
}

fn balance_callback_account_vec(keys: &AccountKeys) -> (v: Vec<CallbackAccount>)
    ensures
        v@ == balance_callback_accounts(*keys),
{
    let mut accounts: Vec<CallbackAccount> = Vec::new();
    accounts.push(CallbackAccount { pubkey: keys.user_pool_balance, is_writable: true });
    assert(accounts@ =~= balance_callback_accounts(*keys));
    accounts
}

/// The effects of an accepted deposit: the nonzero amounts move into the pool,
/// then the computation is queued.
pub open spec fn deposit_effects(
    effects: Seq<Effect>,
    amount_a: u64,
    amount_b: u64,
    sign_pda_bump: u8,
    circuit: Circuit,
    computation_offset: u64,
    args: Seq<CircuitArg>,
    keys: AccountKeys,
) -> bool {
    let transfers = deposit_transfers(amount_a, amount_b);
    &&& effects.len() == transfers.len() + 2
    &&& effects.subrange(0, transfers.len() as int) == transfers
    &&& effects[transfers.len() as int] == Effect::SetSignerBump(sign_pda_bump)
    &&& is_queue_of(
        effects[transfers.len() + 1 as int],
        circuit,
        computation_offset,
        args,
        balance_callback_accounts(keys),
    )
}

fn deposit_effect_vec(
    amount_a: u64,
    amount_b: u64,
    sign_pda_bump: u8,
    circuit: Circuit,
    computation_offset: u64,
    args: Vec<CircuitArg>,
    keys: &AccountKeys,
) -> (effects: Vec<Effect>)
    ensures
        deposit_effects(
            effects@,
            amount_a,
            amount_b,
            sign_pda_bump,
            circuit,
            computation_offset,
            args@,
            *keys,
        ),
{
    let mut effects: Vec<Effect> = Vec::new();
    push_deposit_transfers(&mut effects, amount_a, amount_b);
    let ghost transfers = effects@;
    assert(transfers =~= deposit_transfers(amount_a, amount_b));
    effects.push(Effect::SetSignerBump(sign_pda_bump));
    let accounts = balance_callback_account_vec(keys);
    effects.push(
        Effect::Queue(
            QueuedComputation { circuit, computation_offset, args, callback_accounts: accounts },
        ),
    );
    assert(effects@.subrange(0, transfers.len() as int) =~= transfers);
    effects
}

/// The outcome of a request to make the first deposit into a balance.
pub open spec fn init_deposit_request_outcome(
    balance: UserPoolBalance,
    keys: AccountKeys,
    sign_pda_bump: u8,
    computation_offset: u64,
    amount_a: u64,
    amount_b: u64,
    ciphertext_a: [u8; 32],
    ciphertext_b: [u8; 32],
    pubkey: [u8; 32],
    nonce: u128,
    r: Result<Vec<Effect>, ErrorCode>,
) -> bool {
    if !accepts_first_deposit(balance) {
        r == Err::<Vec<Effect>, ErrorCode>(ErrorCode::AlreadyInitialized)
    } else {
        match r {
            Err(_) => false,
            Ok(effects) => deposit_effects(
                effects@,
                amount_a,
                amount_b,
                sign_pda_bump,
                Circuit::InitDeposit,
                computation_offset,
                user_pair_args(pubkey, nonce, ciphertext_a, ciphertext_b),
                keys,
            ),
        }
    }
}

/// The first deposit into a balance: moves the nonzero amounts into the pool
/// and queues their encryption as the balance. Refused with
/// `AlreadyInitialized` while the balance is initialized.
pub fn init_deposit_to_pool(
    balance: &UserPoolBalance,
    keys: &AccountKeys,
    sign_pda_bump: u8,
    computation_offset: u64,
    amount_a: u64,
    amount_b: u64,
    ciphertext_a: [u8; 32],
    ciphertext_b: [u8; 32],
    pubkey: [u8; 32],
    nonce: u128,
) -> (r: Result<Vec<Effect>, ErrorCode>)
    ensures
        init_deposit_request_outcome(
            *balance,
            *keys,
            sign_pda_bump,
            computation_offset,
            amount_a,
            amount_b,
            ciphertext_a,
            ciphertext_b,
            pubkey,
            nonce,
            r,
        ),
{
    if balance.initialized {
        return Err(ErrorCode::AlreadyInitialized);
    }
    let mut args: Vec<CircuitArg> = Vec::new();
    push_user_pair_args(&mut args, pubkey, nonce, ciphertext_a, ciphertext_b);
    assert(args@ =~= user_pair_args(pubkey, nonce, ciphertext_a, ciphertext_b));
    Ok(
        deposit_effect_vec(
            amount_a,
            amount_b,
            sign_pda_bump,
            Circuit::InitDeposit,
            computation_offset,
            args,
            keys,
        ),
    )
}

/// The outcome of a callback that stores a new encrypted balance, leaving the
/// pending swap output alone and setting `initialized` to `initialized`.
pub open spec fn balance_callback_outcome(
    old: UserPoolBalance,
    new: UserPoolBalance,
    output: Option<EncryptedPair>,
    initialized: bool,
    r: Result<(), ErrorCode>,
) -> bool {
    match output {
        None => r == Err::<(), ErrorCode>(ErrorCode::AbortedComputation) && new == old,
        Some(o) => {
            &&& r == Ok::<(), ErrorCode>(())
            &&& balance_reencrypted(old, new, o)
            &&& pending_kept(old, new)
            &&& new.initialized == initialized
        },
    }
}

fn store_balance(balance: &mut UserPoolBalance, o: EncryptedPair)
    ensures
        balance_reencrypted(*old(balance), *final(balance), o),
        pending_kept(*old(balance), *final(balance)),
        final(balance).initialized == old(balance).initialized,
{
    balance.encrypted_balance_a = o.ciphertext_a;
    balance.encrypted_balance_b = o.ciphertext_b;
    balance.balance_nonce = nonce_to_le_bytes(o.nonce);
}

/// The outcome of the first-deposit callback: the balance is stored and
/// marked initialized.
pub open spec fn init_deposit_callback_outcome(
    old: UserPoolBalance,
    new: UserPoolBalance,
    output: Option<EncryptedPair>,
    r: Result<(), ErrorCode>,
) -> bool {
    balance_callback_outcome(old, new, output, true, r)
}

/// Stores the first encrypted balance and marks the balance initialized.
pub fn init_deposit_callback(balance: &mut UserPoolBalance, output: Option<EncryptedPair>) -> (r:
    Result<(), ErrorCode>)
    ensures
        init_deposit_callback_outcome(*old(balance), *final(balance), output, r),
{
    match output {
        Some(o) => {
            store_balance(balance, o);
            balance.initialized = true;
            Ok(())
        },
        None => Err(ErrorCode::AbortedComputation),
    }
}

/// The arguments of the deposit computation.
pub open spec fn deposit_args(
    balance: UserPoolBalance,
    pubkey: [u8; 32],
    nonce: u128,
    ciphertext_a: [u8; 32],
    ciphertext_b: [u8; 32],
) -> Seq<CircuitArg> {
    balance_args(balance) + user_pair_args(pubkey, nonce, ciphertext_a, ciphertext_b)
}

/// The outcome of a request to deposit into a balance.
pub open spec fn deposit_request_outcome(
    balance: UserPoolBalance,
    keys: AccountKeys,
    sign_pda_bump: u8,
    computation_offset: u64,
    amount_a: u64,
    amount_b: u64,
    ciphertext_a: [u8; 32],
    ciphertext_b: [u8; 32],
    pubkey: [u8; 32],
    nonce: u128,
    r: Result<Vec<Effect>, ErrorCode>,
) -> bool {
    if !accepts_operations(balance) {
        r == Err::<Vec<Effect>, ErrorCode>(ErrorCode::PoolNotInitialized)
    } else {
        match r {
            Err(_) => false,
            Ok(effects) => deposit_effects(
                effects@,
                amount_a,
                amount_b,
                sign_pda_bump,
                Circuit::Deposit,
                computation_offset,
                deposit_args(balance, pubkey, nonce, ciphertext_a, ciphertext_b),
                keys,
            ),
        }
    }
}

/// A further deposit: moves the nonzero amounts into the pool and queues their
/// addition to the encrypted balance. Refused with `PoolNotInitialized` until
/// the balance is initialized.
pub fn deposit_to_pool(
    balance: &UserPoolBalance,
    keys: &AccountKeys,
    sign_pda_bump: u8,
    computation_offset: u64,
    amount_a: u64,
    amount_b: u64,
    ciphertext_a: [u8; 32],
    ciphertext_b: [u8; 32],
    pubkey: [u8; 32],
    nonce: u128,
) -> (r: Result<Vec<Effect>, ErrorCode>)
    ensures
        deposit_request_outcome(
            *balance,
            *keys,
            sign_pda_bump,
            computation_offset,
            amount_a,
            amount_b,
            ciphertext_a,
            ciphertext_b,
            pubkey,
            nonce,
            r,
        ),
{
    if !balance.initialized {
        return Err(ErrorCode::PoolNotInitialized);
    }
    let mut args: Vec<CircuitArg> = Vec::new();
    push_balance_args(&mut args, balance);
    push_user_pair_args(&mut args, pubkey, nonce, ciphertext_a, ciphertext_b);
    assert(args@ =~= deposit_args(*balance, pubkey, nonce, ciphertext_a, ciphertext_b));
    Ok(
        deposit_effect_vec(
            amount_a,
            amount_b,
            sign_pda_bump,
            Circuit::Deposit,
            computation_offset,
            args,
            keys,
        ),
    )
}

/// The outcome of the deposit callback: the balance is stored and stays
/// initialized as it was.
pub open spec fn deposit_callback_outcome(
    old: UserPoolBalance,
    new: UserPoolBalance,
    output: Option<EncryptedPair>,
    r: Result<(), ErrorCode>,
) -> bool {
    balance_callback_outcome(old, new, output, old.initialized, r)
}

/// Stores the encrypted balance after a deposit.
pub fn deposit_callback(balance: &mut UserPoolBalance, output: Option<EncryptedPair>) -> (r: Result<
    (),
    ErrorCode,
>)
    ensures
        deposit_callback_outcome(*old(balance), *final(balance), output, r),
{
    match output {
        Some(o) => {
            store_balance(balance, o);
            Ok(())
        },
        None => Err(ErrorCode::AbortedComputation),
    }
}

/// The accounts the first swap callback receives.
pub open spec fn swap_step1_callback_accounts(keys: AccountKeys) -> Seq<CallbackAccount> {
    seq![computation::writable(keys.pool), computation::writable(keys.user_pool_balance)]
}

/// The arguments of the first swap computation.
pub open spec fn swap_step1_args(
    pool: LiquidityPool,
    a_to_b: bool,
    ciphertext_in: [u8; 32],
    pubkey: [u8; 32],
    nonce: u128,
) -> Seq<CircuitArg> {
    reserve_args(pool) + user_value_args(pubkey, nonce, ciphertext_in) + seq![
        CircuitArg::PlaintextU8(direction_flag(a_to_b)),
    ]
}

fn push_user_value_args(args: &mut Vec<CircuitArg>, pubkey: [u8; 32], nonce: u128, ct: [u8; 32])
    ensures
        final(args)@ == old(args)@ + user_value_args(pubkey, nonce, ct),
{
    args.push(CircuitArg::X25519Pubkey(pubkey));
    args.push(CircuitArg::PlaintextU128(nonce));
    args.push(CircuitArg::EncryptedU64(ct));
    assert(args@ =~= old(args)@ + user_value_args(pubkey, nonce, ct));
}

fn direction_flag_of(a_to_b: bool) -> (f: u8)
    ensures
        f == direction_flag(a_to_b),
{
    if a_to_b {
        1
    } else {
        0
    }
}

/// The outcome of a request for the first step of a swap.
pub open spec fn swap_step1_request_outcome(
    pool: LiquidityPool,
    balance: UserPoolBalance,
    keys: AccountKeys,
    sign_pda_bump: u8,
    computation_offset: u64,
    a_to_b: bool,
    ciphertext_in: [u8; 32],
    pubkey: [u8; 32],
    nonce: u128,
    r: Result<Vec<Effect>, ErrorCode>,
) -> bool {
    if !accepts_operations(balance) {
        r == Err::<Vec<Effect>, ErrorCode>(ErrorCode::PoolNotInitialized)
    } else {
        match r {
            Err(_) => false,
            Ok(effects) => {
                &&& effects@.len() == 2
                &&& effects@[0] == Effect::SetSignerBump(sign_pda_bump)
                &&& is_queue_of(
                    effects@[1],
                    Circuit::SwapStep1,
                    computation_offset,
                    swap_step1_args(pool, a_to_b, ciphertext_in, pubkey, nonce),
                    swap_step1_callback_accounts(keys),
                )
            },
        }
    }
}

/// The first step of a swap: queues the pricing of the encrypted amount
/// `ciphertext_in` against the encrypted reserves, in the direction `a_to_b`.
/// Refused with `PoolNotInitialized` until the balance is initialized.
pub fn swap_step1(
    pool: &LiquidityPool,
    balance: &UserPoolBalance,
    keys: &AccountKeys,
    sign_pda_bump: u8,
    computation_offset: u64,
    a_to_b: bool,
    ciphertext_in: [u8; 32],
    pubkey: [u8; 32],
    nonce: u128,
) -> (r: Result<Vec<Effect>, ErrorCode>)
    ensures
        swap_step1_request_outcome(
            *pool,
            *balance,
            *keys,
            sign_pda_bump,
            computation_offset,
            a_to_b,
            ciphertext_in,
            pubkey,
            nonce,
            r,
        ),
{
    if !balance.initialized {
        return Err(ErrorCode::PoolNotInitialized);
    }
    let mut args: Vec<CircuitArg> = Vec::new();
    push_reserve_args(&mut args, pool);
    push_user_value_args(&mut args, pubkey, nonce, ciphertext_in);
    args.push(CircuitArg::PlaintextU8(direction_flag_of(a_to_b)));
    assert(args@ =~= swap_step1_args(*pool, a_to_b, ciphertext_in, pubkey, nonce));
    let mut accounts: Vec<CallbackAccount> = Vec::new();
    accounts.push(CallbackAccount { pubkey: keys.pool, is_writable: true });
    accounts.push(CallbackAccount { pubkey: keys.user_pool_balance, is_writable: true });
    assert(accounts@ =~= swap_step1_callback_accounts(*keys));
    let mut effects: Vec<Effect> = Vec::new();
    effects.push(Effect::SetSignerBump(sign_pda_bump));
    effects.push(
        Effect::Queue(
            QueuedComputation {
                circuit: Circuit::SwapStep1,
                computation_offset,
                args,
                callback_accounts: accounts,
            },
        ),
    );
    Ok(effects)
}

/// The outcome of the first swap callback: the pool takes the new encrypted
/// reserves, the balance keeps the encrypted amount bought as pending.
pub open spec fn swap_step1_callback_outcome(
    old_pool: LiquidityPool,
    new_pool: LiquidityPool,
    old_balance: UserPoolBalance,
    new_balance: UserPoolBalance,
    output: Option<(EncryptedPair, EncryptedValue)>,
    r: Result<(), ErrorCode>,
) -> bool {
    match output {
        None => r == Err::<(), ErrorCode>(ErrorCode::AbortedComputation) && new_pool == old_pool
            && new_balance == old_balance,
        Some((o, out)) => {
            &&& r == Ok::<(), ErrorCode>(())
            &&& pool_reencrypted(old_pool, new_pool, o)
            &&& new_pool.lp_supply == old_pool.lp_supply
            &&& new_balance.pending_amount_out == out.ciphertext
            &&& new_balance.pending_amount_out_nonce@ == state::nonce_bytes(out.nonce)
            &&& new_balance == UserPoolBalance {
                pending_amount_out: new_balance.pending_amount_out,
                pending_amount_out_nonce: new_balance.pending_amount_out_nonce,
                ..old_balance
            }
        },
    }
}

/// Stores the reserves after the first step of a swap and the encrypted amount
/// bought, pending for the second step.
pub fn swap_step1_callback(
    pool: &mut LiquidityPool,
    balance: &mut UserPoolBalance,
    output: Option<(EncryptedPair, EncryptedValue)>,
) -> (r: Result<(), ErrorCode>)
    ensures
        swap_step1_callback_outcome(
            *old(pool),
            *final(pool),
            *old(balance),
            *final(balance),
            output,
            r,
        ),
{
    let (o, out) = match output {
        Some(x) => x,
        None => {
            return Err(ErrorCode::AbortedComputation);
        },
    };
    pool.encrypted_reserve_a = o.ciphertext_a;
    pool.encrypted_reserve_b = o.ciphertext_b;
    pool.reserve_nonce = nonce_to_le_bytes(o.nonce);
    balance.pending_amount_out = out.ciphertext;
    balance.pending_amount_out_nonce = nonce_to_le_bytes(out.nonce);
    Ok(())
}

/// The arguments of the second swap computation.
pub open spec fn swap_step2_args(
    balance: UserPoolBalance,
    a_to_b: bool,
    ciphertext_in: [u8; 32],
    pubkey: [u8; 32],
    nonce: u128,
) -> Seq<CircuitArg> {
    balance_args(balance) + seq![
        CircuitArg::PlaintextU128(state::nonce_value(balance.pending_amount_out_nonce@)),
        CircuitArg::EncryptedU64(balance.pending_amount_out),
    ] + user_value_args(pubkey, nonce, ciphertext_in) + seq![
        CircuitArg::PlaintextU8(direction_flag(a_to_b)),
    ]
}

/// The outcome of a request for the second step of a swap.
pub open spec fn swap_step2_request_outcome(
    balance: UserPoolBalance,
    keys: AccountKeys,
    sign_pda_bump: u8,
    computation_offset: u64,
    a_to_b: bool,
    ciphertext_in: [u8; 32],
    pubkey: [u8; 32],
    nonce: u128,
    r: Result<Vec<Effect>, ErrorCode>,
) -> bool {
    if !accepts_operations(balance) {
        r == Err::<Vec<Effect>, ErrorCode>(ErrorCode::PoolNotInitialized)
    } else {
        match r {
            Err(_) => false,
            Ok(effects) => {
                &&& effects@.len() == 2
                &&& effects@[0] == Effect::SetSignerBump(sign_pda_bump)
                &&& is_queue_of(
                    effects@[1],
                    Circuit::SwapStep2,
                    computation_offset,
                    swap_step2_args(balance, a_to_b, ciphertext_in, pubkey, nonce),
                    balance_callback_accounts(keys),
                )
            },
        }
    }
}

/// The second step of a swap: queues the settlement of the encrypted balance
/// against the pending amount bought and the amount paid in. Refused with
/// `PoolNotInitialized` until the balance is initialized.
pub fn swap_step2(
    balance: &UserPoolBalance,
    keys: &AccountKeys,
    sign_pda_bump: u8,
    computation_offset: u64,
    a_to_b: bool,
    ciphertext_in: [u8; 32],
    pubkey: [u8; 32],
    nonce: u128,
) -> (r: Result<Vec<Effect>, ErrorCode>)
    ensures
        swap_step2_request_outcome(
            *balance,
            *keys,
            sign_pda_bump,
            computation_offset,
            a_to_b,
            ciphertext_in,
            pubkey,
            nonce,
            r,
        ),
{
    if !balance.initialized {
        return Err(ErrorCode::PoolNotInitialized);
    }
    let mut args: Vec<CircuitArg> = Vec::new();
    push_balance_args(&mut args, balance);
    let pending_nonce = nonce_from_le_bytes(balance.pending_amount_out_nonce);
    args.push(CircuitArg::PlaintextU128(pending_nonce));
    args.push(CircuitArg::EncryptedU64(balance.pending_amount_out));
    push_user_value_args(&mut args, pubkey, nonce, ciphertext_in);
    args.push(CircuitArg::PlaintextU8(direction_flag_of(a_to_b)));
    assert(args@ =~= swap_step2_args(*balance, a_to_b, ciphertext_in, pubkey, nonce));
    let accounts = balance_callback_account_vec(keys);
    let mut effects: Vec<Effect> = Vec::new();
    effects.push(Effect::SetSignerBump(sign_pda_bump));
    effects.push(
        Effect::Queue(
            QueuedComputation {
                circuit: Circuit::SwapStep2,
                computation_offset,
                args,
                callback_accounts: accounts,
            },
        ),
    );
    Ok(effects)
}

/// Whether a key is all zero bytes (the default key).
fn is_default_key(k: &[u8; 32]) -> (z: bool)
    ensures
        z == (k@ == zero_bytes(32)),
{
    let mut i: usize = 0;
    while i < 32
        invariant
            0 <= i <= 32,
            k@.len() == 32,
            forall|j: int| 0 <= j < i ==> k@[j] == 0u8,
        decreases 32 - i,
    {
        if k[i] != 0 {
            assert(k@[i as int] != zero_bytes(32)[i as int]);
            return false;
        }
        i = i + 1;
    }
    assert(k@ =~= zero_bytes(32));
    true
}

/// The outcome of the second swap callback.
pub open spec fn swap_step2_callback_outcome(
    old: UserPoolBalance,
    new: UserPoolBalance,
    output: Option<EncryptedPair>,
    r: Result<Vec<Effect>, ErrorCode>,
) -> bool {
    match output {
        None => r == Err::<Vec<Effect>, ErrorCode>(ErrorCode::AbortedComputation) && new == old,
        Some(o) => match r {
            Err(_) => false,
            Ok(effects) => {
                &&& balance_reencrypted(old, new, o)
                &&& pending_cleared(new)
                &&& new.initialized == old.initialized
                &&& effects@ == seq![
                    Effect::Emit(
                        Event::Swap(
                            SwapEvent {
                                pool: old.pool,
                                user: old.user,
                                a_to_b: old.user@ != zero_bytes(32),
                            },
                        ),
                    ),
                ]
            },
        },
    }
}

/// Stores the encrypted balance after a swap, clears the pending amount and
/// announces the swap. The event's `a_to_b` flag records whether the user's
/// key is not the default key (the swap's direction is not passed here).
pub fn swap_step2_callback(balance: &mut UserPoolBalance, output: Option<EncryptedPair>) -> (r:
    Result<Vec<Effect>, ErrorCode>)
    ensures
        swap_step2_callback_outcome(*old(balance), *final(balance), output, r),
{
    let o = match output {
        Some(o) => o,
        None => {
            return Err(ErrorCode::AbortedComputation);
        },
    };
    store_balance(balance, o);
    balance.pending_amount_out = [0u8; 32];
    balance.pending_amount_out_nonce = [0u8; 16];
    balance.pending_a_to_b = false;
    assert(balance.pending_amount_out@ =~= zero_bytes(32));
    assert(balance.pending_amount_out_nonce@ =~= zero_bytes(16));
    let not_default = !is_default_key(&balance.user);
    let mut effects: Vec<Effect> = Vec::new();
    effects.push(
        Effect::Emit(
            Event::Swap(SwapEvent { pool: balance.pool, user: balance.user, a_to_b: not_default }),
        ),
    );
    Ok(effects)
}

/// The outcome of a withdrawal request.
pub open spec fn withdraw_from_pool_outcome(
    balance: UserPoolBalance,
    pool: LiquidityPool,
    keys: AccountKeys,
    program_id: [u8; 32],
    sign_pda_bump: u8,
    computation_offset: u64,
    r: Result<Vec<Effect>, InstructionError>,
) -> bool {
    if !accepts_operations(balance) {
        r == Err::<Vec<Effect>, InstructionError>(
            InstructionError::Refused(ErrorCode::PoolNotInitialized),
        )
    } else {
        match pool_authority_of(keys.pool, pool.pool_authority_bump, program_id) {
            None => r == Err::<Vec<Effect>, InstructionError>(InstructionError::NoPoolAuthority),
            Some(authority) => match r {
                Err(_) => false,
                Ok(effects) => {
                    &&& effects@.len() == 2
                    &&& effects@[0] == Effect::SetSignerBump(sign_pda_bump)
                    &&& is_queue_of(
                        effects@[1],
                        Circuit::Withdraw,
                        computation_offset,
                        balance_args(balance),
                        payout_callback_accounts(keys.user_pool_balance, keys, authority),
                    )
                },
            },
        }
    }
}

/// The withdrawal: queues the emptying of the encrypted balance, whose callback
/// is given the pool authority derived from the pool and its recorded bump.
/// Refused with `PoolNotInitialized` until the balance is initialized; then
/// fails with `NoPoolAuthority` when that derivation fails.
pub fn withdraw_from_pool(
    balance: &UserPoolBalance,
    pool: &LiquidityPool,
    keys: &AccountKeys,
    program_id: [u8; 32],
    sign_pda_bump: u8,
    computation_offset: u64,
) -> (r: Result<Vec<Effect>, InstructionError>)
    ensures
        withdraw_from_pool_outcome(
            *balance,
            *pool,
            *keys,
            program_id,
            sign_pda_bump,
            computation_offset,
            r,
        ),
{
    if !balance.initialized {
        return Err(InstructionError::Refused(ErrorCode::PoolNotInitialized));
    }
    let pool_authority = match pool_authority_address(keys.pool, pool.pool_authority_bump, program_id) {
        Some(k) => k,
        None => {
            return Err(InstructionError::NoPoolAuthority);
        },
    };
    let mut args: Vec<CircuitArg> = Vec::new();
    push_balance_args(&mut args, balance);
    assert(args@ =~= balance_args(*balance));
    let accounts = payout_callback_account_vec(keys.user_pool_balance, keys, pool_authority);
    let mut effects: Vec<Effect> = Vec::new();
    effects.push(Effect::SetSignerBump(sign_pda_bump));
    effects.push(
        Effect::Queue(
            QueuedComputation {
                circuit: Circuit::Withdraw,
                computation_offset,
                args,
                callback_accounts: accounts,
            },
        ),
    );
    Ok(effects)
}

/// The outcome of the withdrawal callback.
pub open spec fn withdraw_callback_outcome(
    old: UserPoolBalance,
    new: UserPoolBalance,
    pool_key: [u8; 32],
    user_key: [u8; 32],
    output: Option<(EncryptedPair, u64, u64)>,
    r: Result<Vec<Effect>, ErrorCode>,
) -> bool {
    match output {
        None => r == Err::<Vec<Effect>, ErrorCode>(ErrorCode::AbortedComputation) && new == old,
        Some((o, amount_a, amount_b)) => match r {
            Err(_) => false,
            Ok(effects) => {
                &&& balance_reencrypted(old, new, o)
                &&& pending_kept(old, new)
                &&& !new.initialized
                &&& effects@ == payout_transfers(amount_a, amount_b) + seq![
                    Effect::Emit(
                        Event::Withdraw(
                            WithdrawEvent {
                                pool: pool_key,
                                user: user_key,
                                amount_a_out: amount_a,
                                amount_b_out: amount_b,
                            },
                        ),
                    ),
                ]
            },
        },
    }
}

/// Stores the emptied encrypted balance, marks it no longer initialized, pays
/// the nonzero amounts that were held out of the pool and announces the
/// withdrawal.
pub fn withdraw_callback(
    balance: &mut UserPoolBalance,
    pool_key: [u8; 32],
    user_key: [u8; 32],
    output: Option<(EncryptedPair, u64, u64)>,
) -> (r: Result<Vec<Effect>, ErrorCode>)
    ensures
        withdraw_callback_outcome(*old(balance), *final(balance), pool_key, user_key, output, r),
{
    let (o, amount_a, amount_b) = match output {
        Some(x) => x,
        None => {
            return Err(ErrorCode::AbortedComputation);
        },
    };
    store_balance(balance, o);
    balance.initialized = false;
    let mut effects: Vec<Effect> = Vec::new();
    if amount_a > 0 {
        effects.push(Effect::TransferFromPool { token: Token::A, amount: amount_a });
    }
    if amount_b > 0 {
        effects.push(Effect::TransferFromPool { token: Token::B, amount: amount_b });
    }
    effects.push(
        Effect::Emit(
            Event::Withdraw(
                WithdrawEvent {
                    pool: pool_key,
                    user: user_key,
                    amount_a_out: amount_a,
                    amount_b_out: amount_b,
                },
            ),
        ),
    );
    assert(effects@ =~= payout_transfers(amount_a, amount_b) + seq![
        Effect::Emit(
            Event::Withdraw(
                WithdrawEvent {
                    pool: pool_key,
                    user: user_key,
                    amount_a_out: amount_a,
                    amount_b_out: amount_b,
                },
            ),
        ),
    ]);
    Ok(effects)
}

// ---------------------------------------------------------------------------
// Laws
// ---------------------------------------------------------------------------

/// What a callback stores is what the next computation on the pool reads: the
/// reserve arguments of a pool whose reserves were replaced by `o` are `o`'s
/// ciphertexts under `o`'s nonce, with the pool's unchanged key.
pub proof fn lemma_stored_reserves_are_read_back(
    old: LiquidityPool,
    new: LiquidityPool,
    o: EncryptedPair,
)
    requires
        pool_reencrypted(old, new, o),
    ensures
        reserve_args(new) == seq![
            CircuitArg::X25519Pubkey(old.reserve_pubkey),
            CircuitArg::PlaintextU128(o.nonce),
            CircuitArg::EncryptedU64(o.ciphertext_a),
            CircuitArg::EncryptedU64(o.ciphertext_b),
        ],
{
    state::lemma_nonce_round_trip(o.nonce);
}

/// What a callback stores is what the next computation on the balance reads.
pub proof fn lemma_stored_balance_is_read_back(
    old: UserPoolBalance,
    new: UserPoolBalance,
    o: EncryptedPair,
)
    requires
        balance_reencrypted(old, new, o),
    ensures
        balance_args(new) == seq![
            CircuitArg::PlaintextU128(o.nonce),
            CircuitArg::EncryptedU64(o.ciphertext_a),
            CircuitArg::EncryptedU64(o.ciphertext_b),
        ],
{
    state::lemma_nonce_round_trip(o.nonce);
}

/// The pending amount stored by the first step of a swap is what the second
/// step is given.
pub proof fn lemma_pending_amount_is_read_back(
    old_pool: LiquidityPool,
    new_pool: LiquidityPool,
    old_balance: UserPoolBalance,
    new_balance: UserPoolBalance,
    o: EncryptedPair,
    out: EncryptedValue,
    a_to_b: bool,
    ciphertext_in: [u8; 32],
    pubkey: [u8; 32],
    nonce: u128,
)
    requires
        swap_step1_callback_outcome(
            old_pool,
            new_pool,
            old_balance,
            new_balance,
            Some((o, out)),
            Ok(()),
        ),
    ensures
        swap_step2_args(new_balance, a_to_b, ciphertext_in, pubkey, nonce).subrange(3, 5) == seq![
            CircuitArg::PlaintextU128(out.nonce),
            CircuitArg::EncryptedU64(out.ciphertext),
        ],
{
    state::lemma_nonce_round_trip(out.nonce);
    assert(swap_step2_args(new_balance, a_to_b, ciphertext_in, pubkey, nonce).subrange(3, 5)
        =~= seq![
        CircuitArg::PlaintextU128(out.nonce),
        CircuitArg::EncryptedU64(out.ciphertext),
    ]);
}

/// The life of a balance: a new balance takes a first deposit and nothing
/// else; once its first deposit is stored it takes deposits, swaps and
/// withdrawals but no first deposit; deposits and swaps keep it so; once a
/// withdrawal is stored it takes a first deposit again.
pub proof fn lemma_balance_lifecycle(
    fresh: UserPoolBalance,
    bump: u8,
    user: [u8; 32],
    pool: [u8; 32],
    old: UserPoolBalance,
    new: UserPoolBalance,
    o: EncryptedPair,
)
    ensures
        fresh_balance(fresh, bump, user, pool) ==> accepts_first_deposit(fresh)
            && !accepts_operations(fresh),
        balance_callback_outcome(old, new, Some(o), true, Ok(())) ==> accepts_operations(new)
            && !accepts_first_deposit(new),
        balance_callback_outcome(old, new, Some(o), old.initialized, Ok(())) ==> (
        accepts_operations(new) == accepts_operations(old)),
        forall|out: EncryptedValue, p0: LiquidityPool, p1: LiquidityPool|
            #![trigger swap_step1_callback_outcome(p0, p1, old, new, Some((o, out)), Ok(()))]
            swap_step1_callback_outcome(p0, p1, old, new, Some((o, out)), Ok(()))
                ==> accepts_operations(new) == accepts_operations(old),
        forall|effects: Vec<Effect>|
            #![trigger swap_step2_callback_outcome(old, new, Some(o), Ok(effects))]
            swap_step2_callback_outcome(old, new, Some(o), Ok(effects)) ==> accepts_operations(new)
                == accepts_operations(old),
        forall|pk: [u8; 32], uk: [u8; 32], a: u64, b: u64, effects: Vec<Effect>|
            #![trigger withdraw_callback_outcome(old, new, pk, uk, Some((o, a, b)), Ok(effects))]
            withdraw_callback_outcome(old, new, pk, uk, Some((o, a, b)), Ok(effects))
                ==> accepts_first_deposit(new) && !accepts_operations(new),
{
}

/// The net liquidity tokens that a list of effects mints: mints count up,
/// burns count down.
pub open spec fn net_lp_minted(effects: Seq<Effect>) -> int
    decreases effects.len(),
{
    if effects.len() == 0 {
        0
    } else {
        let rest = net_lp_minted(effects.drop_last());
        match effects.last() {
            Effect::MintLp { amount } => rest + amount,
            Effect::BurnLp { amount } => rest - amount,
            _ => rest,
        }
    }
}

/// The recorded supply of liquidity tokens follows the tokens minted and
/// burned: adding liquidity raises it by what it mints, removing liquidity
/// lowers it by what it burns, and the supply recorded when a pool is created
/// is what its creation callback mints.
pub proof fn lemma_lp_supply_follows_mints_and_burns(
    old: LiquidityPool,
    new: LiquidityPool,
    pool_key: [u8; 32],
    user_key: [u8; 32],
    keys: AccountKeys,
    program_id: [u8; 32],
    sign_pda_bump: u8,
    computation_offset: u64,
    lp_amount: u64,
    o: EncryptedPair,
    minted: u64,
    effects: Vec<Effect>,
)
    ensures
        add_liquidity_callback_outcome(old, new, pool_key, user_key, Some((o, minted)), Ok(effects))
            ==> new.lp_supply == old.lp_supply + net_lp_minted(effects@),
        remove_liquidity_outcome(
            old,
            new,
            keys,
            program_id,
            sign_pda_bump,
            computation_offset,
            lp_amount,
            Ok(effects),
        ) ==> new.lp_supply == old.lp_supply + net_lp_minted(effects@),
        initialize_pool_callback_outcome(old, new, pool_key, Some(o), Ok(effects))
            ==> net_lp_minted(effects@) == old.lp_supply && new.lp_supply == old.lp_supply,
{
    reveal_with_fuel(net_lp_minted, 4);
    if remove_liquidity_outcome(
        old,
        new,
        keys,
        program_id,
        sign_pda_bump,
        computation_offset,
        lp_amount,
        Ok(effects),
    ) {
        let e = effects@;
        assert(e.drop_last().drop_last().drop_last() =~= Seq::<Effect>::empty());
        assert(net_lp_minted(e.drop_last().drop_last()) == -(lp_amount as int));
    }
    if add_liquidity_callback_outcome(old, new, pool_key, user_key, Some((o, minted)), Ok(effects)) {
        let e = effects@;
        assert(e.drop_last().drop_last() =~= Seq::<Effect>::empty());
    }
    if initialize_pool_callback_outcome(old, new, pool_key, Some(o), Ok(effects)) {
        let e = effects@;
        assert(e.drop_last().drop_last() =~= Seq::<Effect>::empty());
    }
}

/// A removal the program accepts never asks the cluster for more than the
/// reserves hold: whatever the encrypted reserves are, the pro-rata share of
/// the burned liquidity tokens in the supply before the burn is within them.
pub proof fn lemma_accepted_removal_stays_within_reserves(
    old: LiquidityPool,
    new: LiquidityPool,
    keys: AccountKeys,
    program_id: [u8; 32],
    sign_pda_bump: u8,
    computation_offset: u64,
    lp_amount: u64,
    effects: Vec<Effect>,
    reserve: u64,
)
    requires
        remove_liquidity_outcome(
            old,
            new,
            keys,
            program_id,
            sign_pda_bump,
            computation_offset,
            lp_amount,
            Ok(effects),
        ),
    ensures
        circuits::pro_rata_share(reserve as int, lp_amount as int, old.lp_supply as int)
            <= reserve,
{
    circuits::lemma_remove_within_reserves(reserve as int, lp_amount as int, old.lp_supply as int);
}

/// The amount of `token` that one effect moves into the pool (`into_pool`) or
/// out of it.
pub open spec fn transfer_amount(e: Effect, token: Token, into_pool: bool) -> int {
    match e {
        Effect::TransferToPool { token: t, amount } => if into_pool && t == token {
            amount as int
        } else {
            0
        },
        Effect::TransferFromPool { token: t, amount } => if !into_pool && t == token {
            amount as int
        } else {
            0
        },
        _ => 0,
    }
}

/// The total amount of `token` that a list of effects moves into the pool
/// (`into_pool`) or out of it.
pub open spec fn total_transferred(effects: Seq<Effect>, token: Token, into_pool: bool) -> int
    decreases effects.len(),
{
    if effects.len() == 0 {
        0
    } else {
        total_transferred(effects.drop_last(), token, into_pool) + transfer_amount(
            effects.last(),
            token,
            into_pool,
        )
    }
}

/// The total moved by two lists of effects carried out one after the other is
/// the sum of their totals.
pub proof fn lemma_total_transferred_append(
    s: Seq<Effect>,
    t: Seq<Effect>,
    token: Token,
    into_pool: bool,
)
    ensures
        total_transferred(s + t, token, into_pool) == total_transferred(s, token, into_pool)
            + total_transferred(t, token, into_pool),
    decreases t.len(),
{
    if t.len() == 0 {
        assert(s + t =~= s);
    } else {
        lemma_total_transferred_append(s, t.drop_last(), token, into_pool);
        assert((s + t).drop_last() =~= s + t.drop_last());
    }
}

/// The total moved by a single effect is what that effect moves.
pub proof fn lemma_total_transferred_single(e: Effect, token: Token, into_pool: bool)
    ensures
        total_transferred(seq![e], token, into_pool) == transfer_amount(e, token, into_pool),
{
    reveal_with_fuel(total_transferred, 2);
    assert(seq![e].drop_last() =~= Seq::<Effect>::empty());
    assert(seq![e].last() == e);
}

proof fn lemma_total_of_three(
    s: Seq<Effect>,
    t: Seq<Effect>,
    e: Effect,
    token: Token,
    into_pool: bool,
)
    ensures
        total_transferred(s + t + seq![e], token, into_pool) == total_transferred(
            s,
            token,
            into_pool,
        ) + total_transferred(t, token, into_pool) + transfer_amount(e, token, into_pool),
{
    lemma_total_transferred_append(s + t, seq![e], token, into_pool);
    lemma_total_transferred_append(s, t, token, into_pool);
    lemma_total_transferred_single(e, token, into_pool);
}

/// A withdrawal that the cluster computed pays out exactly the two amounts it
/// revealed: the effects move `amount_a` of token A and `amount_b` of token B
/// out of the pool, and nothing into it.
pub proof fn lemma_withdrawal_pays_what_was_held(
    old: UserPoolBalance,
    new: UserPoolBalance,
    pool_key: [u8; 32],
    user_key: [u8; 32],
    o: EncryptedPair,
    amount_a: u64,
    amount_b: u64,
    r: Result<Vec<Effect>, ErrorCode>,
)
    requires
        withdraw_callback_outcome(old, new, pool_key, user_key, Some((o, amount_a, amount_b)), r),
    ensures
        r is Ok,
        r matches Ok(effects) ==> total_transferred(effects@, Token::A, false) == amount_a,
        r matches Ok(effects) ==> total_transferred(effects@, Token::B, false) == amount_b,
        r matches Ok(effects) ==> total_transferred(effects@, Token::A, true) == 0,
        r matches Ok(effects) ==> total_transferred(effects@, Token::B, true) == 0,
{
    if let Ok(effects) = r {
        let pa: Seq<Effect> = if amount_a > 0 {
            seq![Effect::TransferFromPool { token: Token::A, amount: amount_a }]
        } else {
            seq![]
        };
        let pb: Seq<Effect> = if amount_b > 0 {
            seq![Effect::TransferFromPool { token: Token::B, amount: amount_b }]
        } else {
            seq![]
        };
        let ev = Effect::Emit(
            Event::Withdraw(
                WithdrawEvent {
                    pool: pool_key,
                    user: user_key,
                    amount_a_out: amount_a,
                    amount_b_out: amount_b,
                },
            ),
        );
        assert(effects@ == pa + pb + seq![ev]);
        lemma_total_of_three(pa, pb, ev, Token::A, false);
        lemma_total_of_three(pa, pb, ev, Token::B, false);
        lemma_total_of_three(pa, pb, ev, Token::A, true);
        lemma_total_of_three(pa, pb, ev, Token::B, true);
        if amount_a > 0 {
            lemma_total_transferred_single(pa[0], Token::A, false);
            lemma_total_transferred_single(pa[0], Token::B, false);
            lemma_total_transferred_single(pa[0], Token::A, true);
            lemma_total_transferred_single(pa[0], Token::B, true);
            assert(pa == seq![pa[0]]);
        }
        if amount_b > 0 {
            lemma_total_transferred_single(pb[0], Token::A, false);
            lemma_total_transferred_single(pb[0], Token::B, false);
            lemma_total_transferred_single(pb[0], Token::A, true);
            lemma_total_transferred_single(pb[0], Token::B, true);
            assert(pb == seq![pb[0]]);
        }
    }
}

/// A removal that the cluster computed pays out exactly the two shares it
/// revealed, one of each token, and moves nothing into the pool.
pub proof fn lemma_removal_pays_the_computed_shares(
    old: LiquidityPool,
    new: LiquidityPool,
    pool_key: [u8; 32],
    user_key: [u8; 32],
    o: EncryptedPair,
    amount_a_out: u64,
    amount_b_out: u64,
    r: Result<Vec<Effect>, ErrorCode>,
)
    requires
        remove_liquidity_callback_outcome(
            old,
            new,
            pool_key,
            user_key,
            Some((o, amount_a_out, amount_b_out)),
            r,
        ),
    ensures
        r is Ok,
        r matches Ok(effects) ==> total_transferred(effects@, Token::A, false) == amount_a_out,
        r matches Ok(effects) ==> total_transferred(effects@, Token::B, false) == amount_b_out,
        r matches Ok(effects) ==> total_transferred(effects@, Token::A, true) == 0,
        r matches Ok(effects) ==> total_transferred(effects@, Token::B, true) == 0,
{
    if let Ok(effects) = r {
        let e = effects@;
        assert(e =~= seq![e[0]] + seq![e[1]] + seq![e[2]]);
        lemma_total_of_three(seq![e[0]], seq![e[1]], e[2], Token::A, false);
        lemma_total_of_three(seq![e[0]], seq![e[1]], e[2], Token::B, false);
        lemma_total_of_three(seq![e[0]], seq![e[1]], e[2], Token::A, true);
        lemma_total_of_three(seq![e[0]], seq![e[1]], e[2], Token::B, true);
        lemma_total_transferred_single(e[0], Token::A, false);
        lemma_total_transferred_single(e[0], Token::B, false);
        lemma_total_transferred_single(e[0], Token::A, true);
        lemma_total_transferred_single(e[0], Token::B, true);
        lemma_total_transferred_single(e[1], Token::A, false);
        lemma_total_transferred_single(e[1], Token::B, false);
        lemma_total_transferred_single(e[1], Token::A, true);
        lemma_total_transferred_single(e[1], Token::B, true);
    }
}

/// The effects of an accepted deposit move exactly its two amounts into the
/// pool and nothing out of it.
proof fn lemma_deposit_effects_take_the_amounts(
    effects: Seq<Effect>,
    amount_a: u64,
    amount_b: u64,
    sign_pda_bump: u8,
    circuit: Circuit,
    computation_offset: u64,
    args: Seq<CircuitArg>,
    keys: AccountKeys,
)
    requires
        deposit_effects(
            effects,
            amount_a,
            amount_b,
            sign_pda_bump,
            circuit,
            computation_offset,
            args,
            keys,
        ),
    ensures
        total_transferred(effects, Token::A, true) == amount_a,
        total_transferred(effects, Token::B, true) == amount_b,
        total_transferred(effects, Token::A, false) == 0,
        total_transferred(effects, Token::B, false) == 0,
{
    let ta: Seq<Effect> = if amount_a > 0 {
        seq![Effect::TransferToPool { token: Token::A, amount: amount_a }]
    } else {
        seq![]
    };
    let tb: Seq<Effect> = if amount_b > 0 {
        seq![Effect::TransferToPool { token: Token::B, amount: amount_b }]
    } else {
        seq![]
    };
    let n = deposit_transfers(amount_a, amount_b).len() as int;
    assert(deposit_transfers(amount_a, amount_b) == ta + tb);
    let rest = seq![effects[n], effects[n + 1]];
    assert(effects =~= ta + tb + rest);
    assert(rest =~= seq![effects[n]] + seq![effects[n + 1]]);
    let toks = seq![Token::A, Token::B];
    let dirs = seq![true, false];
    assert forall|i: int, j: int|
        0 <= i < 2 && 0 <= j < 2 implies #[trigger] total_transferred(effects, toks[i], dirs[j])
        == total_transferred(ta, toks[i], dirs[j]) + total_transferred(tb, toks[i], dirs[j]) by {
        lemma_total_transferred_append(ta + tb, rest, toks[i], dirs[j]);
        lemma_total_transferred_append(ta, tb, toks[i], dirs[j]);
        lemma_total_transferred_append(seq![effects[n]], seq![effects[n + 1]], toks[i], dirs[j]);
        lemma_total_transferred_single(effects[n], toks[i], dirs[j]);
        lemma_total_transferred_single(effects[n + 1], toks[i], dirs[j]);
        if amount_a > 0 {
            lemma_total_transferred_single(ta[0], toks[i], dirs[j]);
            assert(ta == seq![ta[0]]);
        }
        if amount_b > 0 {
            lemma_total_transferred_single(tb[0], toks[i], dirs[j]);
            assert(tb == seq![tb[0]]);
        }
    }
    assert(total_transferred(effects, toks[0], dirs[0]) == total_transferred(ta, toks[0], dirs[0])
        + total_transferred(tb, toks[0], dirs[0]));
    assert(total_transferred(effects, toks[1], dirs[0]) == total_transferred(ta, toks[1], dirs[0])
        + total_transferred(tb, toks[1], dirs[0]));
    assert(total_transferred(effects, toks[0], dirs[1]) == total_transferred(ta, toks[0], dirs[1])
        + total_transferred(tb, toks[0], dirs[1]));
    assert(total_transferred(effects, toks[1], dirs[1]) == total_transferred(ta, toks[1], dirs[1])
        + total_transferred(tb, toks[1], dirs[1]));
    if amount_a > 0 {
        lemma_total_transferred_single(ta[0], Token::A, true);
        lemma_total_transferred_single(ta[0], Token::B, true);
        lemma_total_transferred_single(ta[0], Token::A, false);
        lemma_total_transferred_single(ta[0], Token::B, false);
    }
    if amount_b > 0 {
        lemma_total_transferred_single(tb[0], Token::A, true);
        lemma_total_transferred_single(tb[0], Token::B, true);
        lemma_total_transferred_single(tb[0], Token::A, false);
        lemma_total_transferred_single(tb[0], Token::B, false);
    }
}

/// A first deposit that is accepted takes exactly its two amounts from the
/// user into the pool; it is accepted exactly while the balance is not
/// initialized.
pub proof fn lemma_first_deposit_takes_the_amounts(
    balance: UserPoolBalance,
    keys: AccountKeys,
    sign_pda_bump: u8,
    computation_offset: u64,
    amount_a: u64,
    amount_b: u64,
    ciphertext_a: [u8; 32],
    ciphertext_b: [u8; 32],
    pubkey: [u8; 32],
    nonce: u128,
    r: Result<Vec<Effect>, ErrorCode>,
)
    requires
        init_deposit_request_outcome(
            balance,
            keys,
            sign_pda_bump,
            computation_offset,
            amount_a,
            amount_b,
            ciphertext_a,
            ciphertext_b,
            pubkey,
            nonce,
            r,
        ),
    ensures
        r is Ok <==> !balance.initialized,
        balance.initialized ==> r == Err::<Vec<Effect>, ErrorCode>(ErrorCode::AlreadyInitialized),
        r matches Ok(effects) ==> total_transferred(effects@, Token::A, true) == amount_a,
        r matches Ok(effects) ==> total_transferred(effects@, Token::B, true) == amount_b,
        r matches Ok(effects) ==> total_transferred(effects@, Token::A, false) == 0,
        r matches Ok(effects) ==> total_transferred(effects@, Token::B, false) == 0,
{
    if let Ok(effects) = r {
        lemma_deposit_effects_take_the_amounts(
            effects@,
            amount_a,
            amount_b,
            sign_pda_bump,
            Circuit::InitDeposit,
            computation_offset,
            user_pair_args(pubkey, nonce, ciphertext_a, ciphertext_b),
            keys,
        );
    }
}

/// A further deposit that is accepted takes exactly its two amounts from the
/// user into the pool; it is accepted exactly once the balance is initialized.
pub proof fn lemma_deposit_takes_the_amounts(
    balance: UserPoolBalance,
    keys: AccountKeys,
    sign_pda_bump: u8,
    computation_offset: u64,
    amount_a: u64,
    amount_b: u64,
    ciphertext_a: [u8; 32],
    ciphertext_b: [u8; 32],
    pubkey: [u8; 32],
    nonce: u128,
    r: Result<Vec<Effect>, ErrorCode>,
)
    requires
        deposit_request_outcome(
            balance,
            keys,
            sign_pda_bump,
            computation_offset,
            amount_a,
            amount_b,
            ciphertext_a,
            ciphertext_b,
            pubkey,
            nonce,
            r,
        ),
    ensures
        r is Ok <==> balance.initialized,
        !balance.initialized ==> r == Err::<Vec<Effect>, ErrorCode>(ErrorCode::PoolNotInitialized),
        r matches Ok(effects) ==> total_transferred(effects@, Token::A, true) == amount_a,
        r matches Ok(effects) ==> total_transferred(effects@, Token::B, true) == amount_b,
        r matches Ok(effects) ==> total_transferred(effects@, Token::A, false) == 0,
        r matches Ok(effects) ==> total_transferred(effects@, Token::B, false) == 0,
{
    if let Ok(effects) = r {
        lemma_deposit_effects_take_the_amounts(
            effects@,
            amount_a,
            amount_b,
            sign_pda_bump,
            Circuit::Deposit,
            computation_offset,
            deposit_args(balance, pubkey, nonce, ciphertext_a, ciphertext_b),
            keys,
        );
    }
}

proof fn lemma_total_of_four(e: Seq<Effect>, token: Token, into_pool: bool)
    requires
        e.len() == 4,
    ensures
        total_transferred(e, token, into_pool) == transfer_amount(e[0], token, into_pool)
            + transfer_amount(e[1], token, into_pool) + transfer_amount(e[2], token, into_pool)
            + transfer_amount(e[3], token, into_pool),
{
    let first = seq![e[0]] + seq![e[1]] + seq![e[2]];
    assert(e =~= first + seq![e[3]]);
    lemma_total_transferred_append(first, seq![e[3]], token, into_pool);
    lemma_total_of_three(seq![e[0]], seq![e[1]], e[2], token, into_pool);
    lemma_total_transferred_single(e[0], token, into_pool);
    lemma_total_transferred_single(e[1], token, into_pool);
    lemma_total_transferred_single(e[3], token, into_pool);
}

/// A pool's creation, when it goes through, records as the initial supply of
/// liquidity tokens the integer square root of the exact product of the two
/// initial amounts (so the common amount itself when both are equal), and
/// takes both initial amounts from the creator into the pool. It goes through
/// exactly when the search for the pool authority's bump finds one.
pub proof fn lemma_initial_supply_is_the_floor_square_root(
    old: LiquidityPool,
    new: LiquidityPool,
    keys: AccountKeys,
    program_id: [u8; 32],
    pool_bump: u8,
    sign_pda_bump: u8,
    computation_offset: u64,
    initial_amount_a: u64,
    initial_amount_b: u64,
    ciphertext_a: [u8; 32],
    ciphertext_b: [u8; 32],
    pubkey: [u8; 32],
    nonce: u128,
    r: Result<Vec<Effect>, InstructionError>,
)
    requires
        initialize_liquidity_pool_outcome(
            old,
            new,
            keys,
            program_id,
            pool_bump,
            sign_pda_bump,
            computation_offset,
            initial_amount_a,
            initial_amount_b,
            ciphertext_a,
            ciphertext_b,
            pubkey,
            nonce,
            r,
        ),
    ensures
        (r is Ok) == (pda::program_address_search(pda::pool_authority_seeds(keys.pool), program_id)
            is Some),
        r is Ok ==> new.lp_supply * new.lp_supply <= initial_amount_a as int
            * initial_amount_b as int,
        r is Ok ==> (initial_amount_a as int) * (initial_amount_b as int) < (new.lp_supply + 1) * (
        new.lp_supply + 1),
        r is Ok && initial_amount_a == initial_amount_b ==> new.lp_supply == initial_amount_a,
        r matches Ok(effects) ==> total_transferred(effects@, Token::A, true) == initial_amount_a,
        r matches Ok(effects) ==> total_transferred(effects@, Token::B, true) == initial_amount_b,
        r matches Ok(effects) ==> total_transferred(effects@, Token::A, false) == 0,
        r matches Ok(effects) ==> total_transferred(effects@, Token::B, false) == 0,
{
    if let Ok(effects) = r {
        let a = initial_amount_a as nat;
        if initial_amount_a == initial_amount_b {
            assert(a * a < (a + 1) * (a + 1)) by (nonlinear_arith);
            assert(math::is_integer_sqrt(a * a, a));
            math::lemma_integer_sqrt_unique(a * a, new.lp_supply as nat, a);
        }
        lemma_total_of_four(effects@, Token::A, true);
        lemma_total_of_four(effects@, Token::B, true);
        lemma_total_of_four(effects@, Token::A, false);
        lemma_total_of_four(effects@, Token::B, false);
    }
}

/// A request to add liquidity, when it goes through, takes both deposited
/// amounts from the user into the pool, whatever the computation later decides
/// about the liquidity tokens; it goes through exactly when the pool authority
/// derives from the pool and its recorded bump.
pub proof fn lemma_add_liquidity_takes_the_deposit(
    pool: LiquidityPool,
    keys: AccountKeys,
    program_id: [u8; 32],
    sign_pda_bump: u8,
    computation_offset: u64,
    amount_a: u64,
    amount_b: u64,
    ciphertext_a: [u8; 32],
    ciphertext_b: [u8; 32],
    pubkey: [u8; 32],
    nonce: u128,
    lp_minted: u64,
    r: Result<Vec<Effect>, InstructionError>,
)
    requires
        add_liquidity_to_pool_outcome(
            pool,
            keys,
            program_id,
            sign_pda_bump,
            computation_offset,
            amount_a,
            amount_b,
            ciphertext_a,
            ciphertext_b,
            pubkey,
            nonce,
            lp_minted,
            r,
        ),
    ensures
        (r is Ok) == (pool_authority_of(keys.pool, pool.pool_authority_bump, program_id) is Some),
        r matches Ok(effects) ==> {
            &&& effects@.len() == 4
            &&& effects@[3] matches Effect::Queue(q)
            &&& q.circuit == Circuit::AddLiquidity
            &&& q.args@.len() == 10
            &&& q.args@[8] == CircuitArg::PlaintextU64(pool.lp_supply)
            &&& q.args@[9] == CircuitArg::PlaintextU64(lp_minted)
        },
        r matches Ok(effects) ==> total_transferred(effects@, Token::A, true) == amount_a,
        r matches Ok(effects) ==> total_transferred(effects@, Token::B, true) == amount_b,
        r matches Ok(effects) ==> total_transferred(effects@, Token::A, false) == 0,
        r matches Ok(effects) ==> total_transferred(effects@, Token::B, false) == 0,
{
    if let Ok(effects) = r {
        lemma_total_of_four(effects@, Token::A, true);
        lemma_total_of_four(effects@, Token::B, true);
        lemma_total_of_four(effects@, Token::A, false);
        lemma_total_of_four(effects@, Token::B, false);
    }
}

/// A request to remove liquidity is refused for want of liquidity tokens
/// exactly when it asks for more than the supply: any amount up to the whole
/// supply of a pool with a nonzero supply and a derivable authority is
/// accepted, burns that amount and leaves the supply lowered by it. An empty
/// pool refuses a removal of nothing for want of liquidity. A refused request
/// changes nothing.
pub proof fn lemma_removal_accepted_up_to_the_supply(
    old: LiquidityPool,
    new: LiquidityPool,
    keys: AccountKeys,
    program_id: [u8; 32],
    sign_pda_bump: u8,
    computation_offset: u64,
    lp_amount: u64,
    r: Result<Vec<Effect>, InstructionError>,
)
    requires
        remove_liquidity_outcome(
            old,
            new,
            keys,
            program_id,
            sign_pda_bump,
            computation_offset,
            lp_amount,
            r,
        ),
    ensures
        (0 < old.lp_supply && lp_amount <= old.lp_supply && pool_authority_of(
            keys.pool,
            old.pool_authority_bump,
            program_id,
        ) is Some) ==> (r is Ok && new.lp_supply == old.lp_supply - lp_amount),
        (r == Err::<Vec<Effect>, InstructionError>(
            InstructionError::Refused(ErrorCode::InsufficientLPTokens),
        )) == (lp_amount > old.lp_supply),
        (r == Err::<Vec<Effect>, InstructionError>(
            InstructionError::Refused(ErrorCode::InsufficientLiquidity),
        )) == (old.lp_supply == 0 && lp_amount == 0),
        r is Ok ==> new.lp_supply == old.lp_supply - lp_amount,
        r is Err ==> new == old,
        r matches Ok(effects) ==> effects@[0] == (Effect::BurnLp { amount: lp_amount }),
        r matches Ok(effects) ==> {
            &&& effects@.len() == 3
            &&& effects@[2] matches Effect::Queue(q)
            &&& q.circuit == Circuit::RemoveLiquidity
            &&& q.args@.len() == 6
            &&& q.args@[4] == CircuitArg::PlaintextU64(lp_amount)
            &&& q.args@[5] == CircuitArg::PlaintextU64(old.lp_supply)
        },
{
}

/// The first step of a swap prices the amount paid in in the direction the
/// user chose: an accepted request queues the swap pricing on the pool's
/// encrypted reserves, the user's encrypted amount, and last the direction,
/// `1` when the user pays token A for token B and `0` when the user pays
/// token B for token A. It is accepted exactly once the balance is initialized.
pub proof fn lemma_swap_request_carries_direction(
    pool: LiquidityPool,
    balance: UserPoolBalance,
    keys: AccountKeys,
    sign_pda_bump: u8,
    computation_offset: u64,
    a_to_b: bool,
    ciphertext_in: [u8; 32],
    pubkey: [u8; 32],
    nonce: u128,
    r: Result<Vec<Effect>, ErrorCode>,
)
    requires
        swap_step1_request_outcome(
            pool,
            balance,
            keys,
            sign_pda_bump,
            computation_offset,
            a_to_b,
            ciphertext_in,
            pubkey,
            nonce,
            r,
        ),
    ensures
        (r is Ok) == balance.initialized,
        !balance.initialized ==> r == Err::<Vec<Effect>, ErrorCode>(ErrorCode::PoolNotInitialized),
        r matches Ok(effects) ==> {
            &&& effects@.len() == 2
            &&& effects@[0] == Effect::SetSignerBump(sign_pda_bump)
            &&& effects@[1] matches Effect::Queue(q)
            &&& q.circuit == Circuit::SwapStep1
            &&& q.computation_offset == computation_offset
            &&& q.args@.len() == 8
            &&& q.args@.subrange(0, 7) == seq![
                CircuitArg::X25519Pubkey(pool.reserve_pubkey),
                CircuitArg::PlaintextU128(state::nonce_value(pool.reserve_nonce@)),
                CircuitArg::EncryptedU64(pool.encrypted_reserve_a),
                CircuitArg::EncryptedU64(pool.encrypted_reserve_b),
                CircuitArg::X25519Pubkey(pubkey),
                CircuitArg::PlaintextU128(nonce),
                CircuitArg::EncryptedU64(ciphertext_in),
            ]
            &&& a_to_b ==> q.args@[7] == CircuitArg::PlaintextU8(1)
            &&& !a_to_b ==> q.args@[7] == CircuitArg::PlaintextU8(0)
        },
{
    if let Ok(effects) = r {
        let args = swap_step1_args(pool, a_to_b, ciphertext_in, pubkey, nonce);
        assert(args.subrange(0, 7) =~= seq![
            CircuitArg::X25519Pubkey(pool.reserve_pubkey),
            CircuitArg::PlaintextU128(state::nonce_value(pool.reserve_nonce@)),
            CircuitArg::EncryptedU64(pool.encrypted_reserve_a),
            CircuitArg::EncryptedU64(pool.encrypted_reserve_b),
            CircuitArg::X25519Pubkey(pubkey),
            CircuitArg::PlaintextU128(nonce),
            CircuitArg::EncryptedU64(ciphertext_in),
        ]);
        assert(args[7] == CircuitArg::PlaintextU8(direction_flag(a_to_b)));
    }
}

/// The second step of a swap settles the balance in the direction the user
/// chose: an accepted request queues the settlement on the user's encrypted
/// balance, the pending amount bought, the user's encrypted amount paid in,
/// and last the direction, `1` for token A paid for token B and `0` for token
/// B paid for token A. It is accepted exactly once the balance is initialized.
pub proof fn lemma_settlement_request_carries_direction(
    balance: UserPoolBalance,
    keys: AccountKeys,
    sign_pda_bump: u8,
    computation_offset: u64,
    a_to_b: bool,
    ciphertext_in: [u8; 32],
    pubkey: [u8; 32],
    nonce: u128,
    r: Result<Vec<Effect>, ErrorCode>,
)
    requires
        swap_step2_request_outcome(
            balance,
            keys,
            sign_pda_bump,
            computation_offset,
            a_to_b,
            ciphertext_in,
            pubkey,
            nonce,
            r,
        ),
    ensures
        (r is Ok) == balance.initialized,
        !balance.initialized ==> r == Err::<Vec<Effect>, ErrorCode>(ErrorCode::PoolNotInitialized),
        r matches Ok(effects) ==> {
            &&& effects@.len() == 2
            &&& effects@[0] == Effect::SetSignerBump(sign_pda_bump)
            &&& effects@[1] matches Effect::Queue(q)
            &&& q.circuit == Circuit::SwapStep2
            &&& q.computation_offset == computation_offset
            &&& q.args@.len() == 9
            &&& q.args@.subrange(0, 8) == seq![
                CircuitArg::PlaintextU128(state::nonce_value(balance.balance_nonce@)),
                CircuitArg::EncryptedU64(balance.encrypted_balance_a),
                CircuitArg::EncryptedU64(balance.encrypted_balance_b),
                CircuitArg::PlaintextU128(state::nonce_value(balance.pending_amount_out_nonce@)),
                CircuitArg::EncryptedU64(balance.pending_amount_out),
                CircuitArg::X25519Pubkey(pubkey),
                CircuitArg::PlaintextU128(nonce),
                CircuitArg::EncryptedU64(ciphertext_in),
            ]
            &&& a_to_b ==> q.args@[8] == CircuitArg::PlaintextU8(1)
            &&& !a_to_b ==> q.args@[8] == CircuitArg::PlaintextU8(0)
        },
{
    if let Ok(effects) = r {
        let args = swap_step2_args(balance, a_to_b, ciphertext_in, pubkey, nonce);
        assert(args.subrange(0, 8) =~= seq![
            CircuitArg::PlaintextU128(state::nonce_value(balance.balance_nonce@)),
            CircuitArg::EncryptedU64(balance.encrypted_balance_a),
            CircuitArg::EncryptedU64(balance.encrypted_balance_b),
            CircuitArg::PlaintextU128(state::nonce_value(balance.pending_amount_out_nonce@)),
            CircuitArg::EncryptedU64(balance.pending_amount_out),
            CircuitArg::X25519Pubkey(pubkey),
            CircuitArg::PlaintextU128(nonce),
            CircuitArg::EncryptedU64(ciphertext_in),
        ]);
        assert(args[8] == CircuitArg::PlaintextU8(direction_flag(a_to_b)));
    }
}

/// Every callback refuses a computation that the cluster aborted or whose
/// output did not verify with `AbortedComputation` and changes nothing, and
/// accepts every verified output.
pub proof fn lemma_callbacks_refuse_exactly_aborted_computations(
    old_pool: LiquidityPool,
    new_pool: LiquidityPool,
    old_balance: UserPoolBalance,
    new_balance: UserPoolBalance,
    pool_key: [u8; 32],
    user_key: [u8; 32],
    initialized: bool,
    o: EncryptedPair,
    out: EncryptedValue,
    amount_a: u64,
    amount_b: u64,
    r: Result<Vec<Effect>, ErrorCode>,
    u: Result<(), ErrorCode>,
)
    ensures
        initialize_pool_callback_outcome(old_pool, new_pool, pool_key, None, r) ==> r == Err::<
            Vec<Effect>,
            ErrorCode,
        >(ErrorCode::AbortedComputation) && new_pool == old_pool,
        add_liquidity_callback_outcome(old_pool, new_pool, pool_key, user_key, None, r) ==> r
            == Err::<Vec<Effect>, ErrorCode>(ErrorCode::AbortedComputation) && new_pool == old_pool,
        remove_liquidity_callback_outcome(old_pool, new_pool, pool_key, user_key, None, r) ==> r
            == Err::<Vec<Effect>, ErrorCode>(ErrorCode::AbortedComputation) && new_pool == old_pool,
        balance_callback_outcome(old_balance, new_balance, None, initialized, u) ==> u == Err::<
            (),
            ErrorCode,
        >(ErrorCode::AbortedComputation) && new_balance == old_balance,
        swap_step1_callback_outcome(old_pool, new_pool, old_balance, new_balance, None, u) ==> u
            == Err::<(), ErrorCode>(ErrorCode::AbortedComputation) && new_pool == old_pool
            && new_balance == old_balance,
        swap_step2_callback_outcome(old_balance, new_balance, None, r) ==> r == Err::<
            Vec<Effect>,
            ErrorCode,
        >(ErrorCode::AbortedComputation) && new_balance == old_balance,
        withdraw_callback_outcome(old_balance, new_balance, pool_key, user_key, None, r) ==> r
            == Err::<Vec<Effect>, ErrorCode>(ErrorCode::AbortedComputation) && new_balance
            == old_balance,
        initialize_pool_callback_outcome(old_pool, new_pool, pool_key, Some(o), r) ==> (r is Ok),
        add_liquidity_callback_outcome(old_pool, new_pool, pool_key, user_key, Some((o, amount_a)), r)
            ==> (r is Ok),
        remove_liquidity_callback_outcome(
            old_pool,
            new_pool,
            pool_key,
            user_key,
            Some((o, amount_a, amount_b)),
            r,
        ) ==> (r is Ok),
        balance_callback_outcome(old_balance, new_balance, Some(o), initialized, u) ==> (u is Ok),
        swap_step1_callback_outcome(old_pool, new_pool, old_balance, new_balance, Some((o, out)), u)
            ==> (u is Ok),
        swap_step2_callback_outcome(old_balance, new_balance, Some(o), r) ==> (r is Ok),
        withdraw_callback_outcome(
            old_balance,
            new_balance,
            pool_key,
            user_key,
            Some((o, amount_a, amount_b)),
            r,
        ) ==> (r is Ok),
{
}

/// A withdrawal request is accepted exactly when the balance is initialized
/// and the pool authority derives from the pool and its recorded bump; it is
/// refused with `PoolNotInitialized` before the balance is initialized. An
/// accepted request queues the emptying of the user's encrypted balance, read
/// under its stored nonce.
pub proof fn lemma_withdrawal_request_accepted_once_initialized(
    balance: UserPoolBalance,
    pool: LiquidityPool,
    keys: AccountKeys,
    program_id: [u8; 32],
    sign_pda_bump: u8,
    computation_offset: u64,
    r: Result<Vec<Effect>, InstructionError>,
)
    requires
        withdraw_from_pool_outcome(
            balance,
            pool,
            keys,
            program_id,
            sign_pda_bump,
            computation_offset,
            r,
        ),
    ensures
        (r is Ok) == (balance.initialized && pool_authority_of(
            keys.pool,
            pool.pool_authority_bump,
            program_id,
        ) is Some),
        !balance.initialized ==> r == Err::<Vec<Effect>, InstructionError>(
            InstructionError::Refused(ErrorCode::PoolNotInitialized),
        ),
        r matches Ok(effects) ==> {
            &&& effects@.len() == 2
            &&& effects@[0] == Effect::SetSignerBump(sign_pda_bump)
            &&& effects@[1] matches Effect::Queue(q)
            &&& q.circuit == Circuit::Withdraw
            &&& q.computation_offset == computation_offset
            &&& q.args@ == seq![
                CircuitArg::PlaintextU128(state::nonce_value(balance.balance_nonce@)),
                CircuitArg::EncryptedU64(balance.encrypted_balance_a),
                CircuitArg::EncryptedU64(balance.encrypted_balance_b),
            ]
        },
        r matches Ok(effects) ==> total_transferred(effects@, Token::A, false) == 0,
        r matches Ok(effects) ==> total_transferred(effects@, Token::B, false) == 0,
{
    if let Ok(effects) = r {
        let e = effects@;
        assert(e =~= seq![e[0]] + seq![e[1]]);
        lemma_total_transferred_append(seq![e[0]], seq![e[1]], Token::A, false);
        lemma_total_transferred_append(seq![e[0]], seq![e[1]], Token::B, false);
        lemma_total_transferred_single(e[0], Token::A, false);
        lemma_total_transferred_single(e[0], Token::B, false);
        lemma_total_transferred_single(e[1], Token::A, false);
        lemma_total_transferred_single(e[1], Token::B, false);
    }
}

/// The deposit callbacks store the computed balance: the first one marks the
/// balance initialized, so that it takes deposits, swaps and withdrawals; a
/// later one leaves it as it was. Both keep the owner, the pool and any
/// pending swap output.
pub proof fn lemma_deposit_callbacks_store_the_balance(
    old: UserPoolBalance,
    new: UserPoolBalance,
    o: EncryptedPair,
    r: Result<(), ErrorCode>,
)
    ensures
        init_deposit_callback_outcome(old, new, Some(o), r) ==> {
            &&& r is Ok
            &&& new.initialized
            &&& new.encrypted_balance_a == o.ciphertext_a
            &&& new.encrypted_balance_b == o.ciphertext_b
            &&& state::nonce_value(new.balance_nonce@) == o.nonce
            &&& new.user == old.user && new.pool == old.pool
            &&& new.pending_amount_out == old.pending_amount_out
        },
        deposit_callback_outcome(old, new, Some(o), r) ==> {
            &&& r is Ok
            &&& new.initialized == old.initialized
            &&& new.encrypted_balance_a == o.ciphertext_a
            &&& new.encrypted_balance_b == o.ciphertext_b
            &&& state::nonce_value(new.balance_nonce@) == o.nonce
            &&& new.user == old.user && new.pool == old.pool
            &&& new.pending_amount_out == old.pending_amount_out
        },
{
    state::lemma_nonce_round_trip(o.nonce);
}

/// Settling a swap stores the computed balance and clears the pending amount
/// bought, its nonce and its direction, so that no amount is left to be
/// settled twice; the balance stays initialized as it was.
pub proof fn lemma_settlement_clears_the_pending_output(
    old: UserPoolBalance,
    new: UserPoolBalance,
    o: EncryptedPair,
    r: Result<Vec<Effect>, ErrorCode>,
)
    requires
        swap_step2_callback_outcome(old, new, Some(o), r),
    ensures
        r is Ok,
        forall|i: int| 0 <= i < 32 ==> new.pending_amount_out@[i] == 0,
        forall|i: int| 0 <= i < 16 ==> new.pending_amount_out_nonce@[i] == 0,
        !new.pending_a_to_b,
        new.initialized == old.initialized,
        new.encrypted_balance_a == o.ciphertext_a,
        new.encrypted_balance_b == o.ciphertext_b,
        state::nonce_value(new.balance_nonce@) == o.nonce,
{
    state::lemma_nonce_round_trip(o.nonce);
}

/// The pool authority that a pool's creation finds is the one that every later
/// request on the pool derives from the bump the creation recorded, so that the
/// instructions that need it are not refused for want of it.
pub proof fn lemma_created_pool_keeps_its_authority(
    old: LiquidityPool,
    new: LiquidityPool,
    keys: AccountKeys,
    program_id: [u8; 32],
    pool_bump: u8,
    sign_pda_bump: u8,
    computation_offset: u64,
    initial_amount_a: u64,
    initial_amount_b: u64,
    ciphertext_a: [u8; 32],
    ciphertext_b: [u8; 32],
    pubkey: [u8; 32],
    nonce: u128,
    r: Result<Vec<Effect>, InstructionError>,
)
    requires
        initialize_liquidity_pool_outcome(
            old,
            new,
            keys,
            program_id,
            pool_bump,
            sign_pda_bump,
            computation_offset,
            initial_amount_a,
            initial_amount_b,
            ciphertext_a,
            ciphertext_b,
            pubkey,
            nonce,
            r,
        ),
        r is Ok,
    ensures
        pda::program_address_search(pda::pool_authority_seeds(keys.pool), program_id) matches Some(
            (authority, bump),
        ) && new.pool_authority_bump == bump && pool_authority_of(
            keys.pool,
            new.pool_authority_bump,
            program_id,
        ) == Some(authority),
{
}

} // verus!
