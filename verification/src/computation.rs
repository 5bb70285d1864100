//! The confidential computations that the program queues on the cluster: which
//! circuit, which arguments, which accounts the result is written back to.
use vstd::prelude::*;

verus! {

/// The circuits of the pool, one per confidential computation.
#[derive(Clone, Copy, Debug, PartialEq, Eq)]
pub enum Circuit {
    InitializePool,
    AddLiquidity,
    RemoveLiquidity,
    SwapStep1,
    SwapStep2,
    InitDeposit,
    Deposit,
    Withdraw,
}

/// The name under which each circuit is registered.
pub open spec fn circuit_name(c: Circuit) -> Seq<char> {
    match c {
        Circuit::InitializePool => "initialize_pool"@,
        Circuit::AddLiquidity => "add_liquidity"@,
        Circuit::RemoveLiquidity => "remove_liquidity"@,
        Circuit::SwapStep1 => "swap_step1"@,
        Circuit::SwapStep2 => "swap_step2"@,
        Circuit::InitDeposit => "init_deposit"@,
        Circuit::Deposit => "deposit"@,
        Circuit::Withdraw => "withdraw"@,
    }
}

/// Where the compiled circuits are published.
pub open spec fn circuit_source_prefix() -> Seq<char> {
    "https://raw.githubusercontent.com/k1ns0ul/arcium_dex/pool_initializing/build/"@
}

/// The file extension of a compiled circuit.
pub open spec fn circuit_source_suffix() -> Seq<char> {
    ".arcis"@
}

/// The computation-definition offset that `arcium_anchor::comp_def_offset`
/// assigns to a circuit name.
pub uninterp spec fn computation_definition_offset(name: Seq<char>) -> u32;

/// Calls `arcium_anchor::comp_def_offset`. Claimed: the result is a function of
/// the name alone (its source takes the first four bytes of the SHA-256 digest
/// of the name, little-endian).
#[verifier::external_body]
fn comp_def_offset(name: &str) -> (r: u32)
    ensures
        r == computation_definition_offset(name@),
{
    arcium_anchor::comp_def_offset(name)
}

impl Circuit {
    /// The circuit's registered name.
    pub fn name(&self) -> (s: &'static str)
        ensures
            s@ == circuit_name(*self),
    {
        match self {
            Circuit::InitializePool => "initialize_pool",
            Circuit::AddLiquidity => "add_liquidity",
            Circuit::RemoveLiquidity => "remove_liquidity",
            Circuit::SwapStep1 => "swap_step1",
            Circuit::SwapStep2 => "swap_step2",
            Circuit::InitDeposit => "init_deposit",
            Circuit::Deposit => "deposit",
            Circuit::Withdraw => "withdraw",
        }
    }

    /// The offset of the circuit's computation definition.
    pub fn comp_def_offset(&self) -> (r: u32)
        ensures
            r == computation_definition_offset(circuit_name(*self)),
    {
        comp_def_offset(self.name())
    }

    /// The address from which the cluster fetches the compiled circuit.
    pub fn source_url(&self) -> (s: String)
        ensures
            s@ == circuit_source_prefix() + circuit_name(*self) + circuit_source_suffix(),
    {
        let mut s = String::from_str(
            "https://raw.githubusercontent.com/k1ns0ul/arcium_dex/pool_initializing/build/",
        );
        s.append(self.name());
        s.append(".arcis");
        s
    }
}

/// One argument of a queued computation, in the order the circuit takes them.
#[derive(Clone, Copy, Debug, PartialEq, Eq)]
pub enum CircuitArg {
    /// The x25519 public key that a following group of ciphertexts is encrypted to.
    X25519Pubkey([u8; 32]),
    PlaintextU128(u128),
    PlaintextU64(u64),
    PlaintextU8(u8),
    /// A ciphertext of a `u64`.
    EncryptedU64([u8; 32]),
}

/// An account that the computation's callback is given.
#[derive(Clone, Copy, Debug, PartialEq, Eq)]
pub struct CallbackAccount {
    pub pubkey: [u8; 32],
    pub is_writable: bool,
}

/// A computation to queue: its circuit, the caller's offset for it, its
/// arguments and the accounts its callback receives after the fixed ones.
#[derive(Debug, PartialEq, Eq)]
pub struct QueuedComputation {
    pub circuit: Circuit,
    pub computation_offset: u64,
    pub args: Vec<CircuitArg>,
    pub callback_accounts: Vec<CallbackAccount>,
}

pub open spec fn writable(pubkey: [u8; 32]) -> CallbackAccount {
    CallbackAccount { pubkey, is_writable: true }
}

pub open spec fn read_only(pubkey: [u8; 32]) -> CallbackAccount {
    CallbackAccount { pubkey, is_writable: false }
}

/// `q` queues `circuit` under `offset` with exactly these arguments and accounts.
pub open spec fn queues(
    q: QueuedComputation,
    circuit: Circuit,
    offset: u64,
    args: Seq<CircuitArg>,
    accounts: Seq<CallbackAccount>,
) -> bool {
    &&& q.circuit == circuit
    &&& q.computation_offset == offset
    &&& q.args@ == args
    &&& q.callback_accounts@ == accounts
}

} // verus!
