//! An on-ledger escrow pool holding two fungible-token reserves.
//!
//! The pool offers three state-changing operations: `initialize`, which
//! creates the pool's registry record exactly once; `faucet`, an
//! administrative hand-out of tokens from one reserve; and `swap`, a
//! fixed-rate 1:1 exchange that moves an amount from the caller into one
//! reserve and the same amount from the other reserve back to the caller.
//! Every operation validates the callers' signatures and the pool owner's
//! authority before any balance moves, and either commits completely or
//! leaves every account untouched.

pub mod accounts;
pub mod errors;
pub mod handlers;
pub mod laws;
pub mod pool;
