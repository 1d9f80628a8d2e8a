//! The payment gate: who mints for free, who pays, and who is turned away.

use crate::errors::ErrorCode;
use vstd::prelude::*;

verus! {

/// The price of a mint without a mint pass: one unit of the native currency,
/// in its smallest denomination.
pub const LAMPORTS_PER_SOL: u64 = 1_000_000_000;

/// What a caller owes for a mint: nothing with a mint pass, the fixed price
/// without one, and no mint at all where the balance does not cover the price.
pub open spec fn payment_due(has_mint_pass: bool, balance: u64) -> Result<Option<u64>, ErrorCode> {
    if has_mint_pass {
        Ok(None)
    } else if balance >= LAMPORTS_PER_SOL {
        Ok(Some(LAMPORTS_PER_SOL))
    } else {
        Err(ErrorCode::NoMintPass)
    }
}

/// Decides the payment for a mint. `Ok(None)` means that no transfer is to be
/// made; `Ok(Some(amount))` that `amount` is to be transferred from the caller.
pub fn payment_gate(has_mint_pass: bool, balance: u64) -> (decision: Result<
    Option<u64>,
    ErrorCode,
>)
    ensures
        decision == payment_due(has_mint_pass, balance),
        decision is Err <==> !has_mint_pass && balance < LAMPORTS_PER_SOL,
        decision is Err ==> decision == Err::<Option<u64>, ErrorCode>(ErrorCode::NoMintPass),
        decision == Ok::<Option<u64>, ErrorCode>(None) <==> has_mint_pass,
{
    if has_mint_pass {
        Ok(None)
    } else if balance >= LAMPORTS_PER_SOL {
        Ok(Some(LAMPORTS_PER_SOL))
    } else {
        Err(ErrorCode::NoMintPass)
    }
}

} // verus!
