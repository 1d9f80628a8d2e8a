//! Verified core of a reward-vault minter.
//!
//! Each mint of a collectible earns a fungible reward whose size follows a
//! decaying bonding curve. The reward is held in an escrow vault that only
//! its owner can release, once. This crate holds the arithmetic, the payment
//! gate and the escrow state machine; moving currency and tokens is left to
//! the caller, who receives the instructions to carry out.

pub mod allowlist;
pub mod curve;
pub mod errors;
pub mod gate;
pub mod identity;
pub mod ledger;
pub mod program;
pub mod vault;
