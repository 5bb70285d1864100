//! The program's accounts, errors and events, as plain values.
//!
//! Public keys are held as their 32 bytes, ciphertexts as the 32-byte field
//! elements produced by the cluster, nonces as 16 little-endian bytes.
use vstd::bytes::*;
use vstd::prelude::*;

verus! {

/// A pool: its mints, its creator, its encrypted reserves with the key and
/// nonce they are encrypted under, and the supply of liquidity tokens.
#[derive(Clone, Copy, Debug, PartialEq, Eq)]
pub struct LiquidityPool {
    pub bump: u8,
    pub pool_authority_bump: u8,
    pub token_a_mint: [u8; 32],
    pub token_b_mint: [u8; 32],
    pub lp_mint: [u8; 32],
    pub authority: [u8; 32],
    pub encrypted_reserve_a: [u8; 32],
    pub encrypted_reserve_b: [u8; 32],
    pub reserve_pubkey: [u8; 32],
    pub reserve_nonce: [u8; 16],
    pub lp_supply: u64,
}

impl LiquidityPool {
    /// Account size: the 8-byte discriminator and the fields in order.
    pub const LEN: usize = 8 + 1 + 1 + 32 + 32 + 32 + 32 + 32 + 32 + 32 + 16 + 8;
}

/// A user's encrypted balance in a pool, and the encrypted output of the first
/// step of a swap that is waiting for the second.
#[derive(Clone, Copy, Debug, PartialEq, Eq)]
pub struct UserPoolBalance {
    pub bump: u8,
    pub user: [u8; 32],
    pub pool: [u8; 32],
    pub encrypted_balance_a: [u8; 32],
    pub encrypted_balance_b: [u8; 32],
    pub balance_nonce: [u8; 16],
    pub initialized: bool,
    pub pending_amount_out: [u8; 32],
    pub pending_amount_out_nonce: [u8; 16],
    pub pending_a_to_b: bool,
}

impl UserPoolBalance {
    /// Account size: the 8-byte discriminator and the fields in order.
    pub const LEN: usize = 8 + 1 + 32 + 32 + 32 + 32 + 16 + 1 + 32 + 16 + 1;
}

/// Why an instruction is refused.
#[derive(Clone, Copy, Debug, PartialEq, Eq)]
pub enum ErrorCode {
    AbortedComputation,
    ClusterNotSet,
    InsufficientLiquidity,
    InsufficientLPTokens,
    PoolNotInitialized,
    AlreadyInitialized,
}

/// The number under which each error is reported: 6000 for the first variant,
/// counting up in declaration order.
pub open spec fn error_number(e: ErrorCode) -> u32 {
    match e {
        ErrorCode::AbortedComputation => 6000,
        ErrorCode::ClusterNotSet => 6001,
        ErrorCode::InsufficientLiquidity => 6002,
        ErrorCode::InsufficientLPTokens => 6003,
        ErrorCode::PoolNotInitialized => 6004,
        ErrorCode::AlreadyInitialized => 6005,
    }
}

impl ErrorCode {
    /// The error's number.
    pub fn code(&self) -> (c: u32)
        ensures
            c == error_number(*self),
    {
        match self {
            ErrorCode::AbortedComputation => 6000,
            ErrorCode::ClusterNotSet => 6001,
            ErrorCode::InsufficientLiquidity => 6002,
            ErrorCode::InsufficientLPTokens => 6003,
            ErrorCode::PoolNotInitialized => 6004,
            ErrorCode::AlreadyInitialized => 6005,
        }
    }

    /// The error's message.
    pub fn message(&self) -> (m: &'static str)
        ensures
            m@ == error_message(*self),
    {
        match self {
            ErrorCode::AbortedComputation => "MPC computation aborted by cluster",
            ErrorCode::ClusterNotSet => "Arcium cluster not set",
            ErrorCode::InsufficientLiquidity => "Insufficient liquidity",
            ErrorCode::InsufficientLPTokens => "Insufficient LP tokens",
            ErrorCode::PoolNotInitialized => "Pool not initialized",
            ErrorCode::AlreadyInitialized => "Balance already initialized, use deposit instead",
        }
    }
}

/// The message of each error.
pub open spec fn error_message(e: ErrorCode) -> Seq<char> {
    match e {
        ErrorCode::AbortedComputation => "MPC computation aborted by cluster"@,
        ErrorCode::ClusterNotSet => "Arcium cluster not set"@,
        ErrorCode::InsufficientLiquidity => "Insufficient liquidity"@,
        ErrorCode::InsufficientLPTokens => "Insufficient LP tokens"@,
        ErrorCode::PoolNotInitialized => "Pool not initialized"@,
        ErrorCode::AlreadyInitialized => "Balance already initialized, use deposit instead"@,
    }
}

/// Distinct errors are reported under distinct numbers.
pub proof fn lemma_error_numbers_distinct(e1: ErrorCode, e2: ErrorCode)
    ensures
        error_number(e1) == error_number(e2) <==> e1 == e2,
{
}

#[derive(Clone, Copy, Debug, PartialEq, Eq)]
pub struct PoolInitializedEvent {
    pub pool: [u8; 32],
    pub encrypted_reserve_a: [u8; 32],
    pub encrypted_reserve_b: [u8; 32],
    pub lp_supply: u64,
}

#[derive(Clone, Copy, Debug, PartialEq, Eq)]
pub struct LiquidityAddedEvent {
    pub pool: [u8; 32],
    pub user: [u8; 32],
    pub encrypted_reserve_a: [u8; 32],
    pub encrypted_reserve_b: [u8; 32],
    pub lp_minted: u64,
}

#[derive(Clone, Copy, Debug, PartialEq, Eq)]
pub struct LiquidityRemovedEvent {
    pub pool: [u8; 32],
    pub user: [u8; 32],
    pub encrypted_reserve_a: [u8; 32],
    pub encrypted_reserve_b: [u8; 32],
    pub amount_a_out: u64,
    pub amount_b_out: u64,
}

#[derive(Clone, Copy, Debug, PartialEq, Eq)]
pub struct SwapEvent {
    pub pool: [u8; 32],
    pub user: [u8; 32],
    pub a_to_b: bool,
}

#[derive(Clone, Copy, Debug, PartialEq, Eq)]
pub struct WithdrawEvent {
    pub pool: [u8; 32],
    pub user: [u8; 32],
    pub amount_a_out: u64,
    pub amount_b_out: u64,
}

/// The little-endian bytes under which a nonce is stored.
pub open spec fn nonce_bytes(n: u128) -> Seq<u8> {
    spec_u128_to_le_bytes(n)
}

/// The nonce that stored bytes hold.
pub open spec fn nonce_value(b: Seq<u8>) -> u128 {
    spec_u128_from_le_bytes(b)
}

/// Stores a nonce as 16 little-endian bytes.
pub fn nonce_to_le_bytes(n: u128) -> (b: [u8; 16])
    ensures
        b@ == nonce_bytes(n),
{
    let v = u128_to_le_bytes(n);
    let b: [u8; 16] = [
        v[0], v[1], v[2], v[3], v[4], v[5], v[6], v[7],
        v[8], v[9], v[10], v[11], v[12], v[13], v[14], v[15],
    ];
    assert(b@ =~= v@);
    b
}

/// Reads a nonce back from its 16 little-endian bytes.
pub fn nonce_from_le_bytes(b: [u8; 16]) -> (n: u128)
    ensures
        n == nonce_value(b@),
{
    u128_from_le_bytes(b.as_slice())
}

/// A stored nonce reads back as the nonce that was stored.
pub proof fn lemma_nonce_round_trip(n: u128)
    ensures
        nonce_value(nonce_bytes(n)) == n,
        nonce_bytes(n).len() == 16,
{
    lemma_auto_spec_u128_to_from_le_bytes();
}

/// Bytes read as a nonce and stored again are the same bytes.
pub proof fn lemma_nonce_bytes_round_trip(b: Seq<u8>)
    requires
        b.len() == 16,
    ensures
        nonce_bytes(nonce_value(b)) == b,
{
    lemma_auto_spec_u128_to_from_le_bytes();
}

} // verus!
