//! A constant-product liquidity pool whose reserves and user balances stay
//! encrypted: the pool logic, the plaintext meaning of its confidential
//! computations, and the decisions of each program instruction.
pub mod circuits;
pub mod computation;
pub mod math;
pub mod pda;
pub mod program;
pub mod state;
