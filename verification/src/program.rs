//! The two requests of the program: minting a collectible with its reward
//! vault, and unlocking a vault.
//!
//! A request either is carried out whole or changes nothing. What has to be
//! moved outside the program's own records (the payment, the reward, the
//! release) is handed back to the caller as instructions, to be carried out
//! within the same atomic unit: where one of them fails, the caller keeps the
//! records as they were before the request.

use crate::allowlist::{has_mint_pass, is_mint_pass};
use crate::curve::{lemma_reward_fits, reward, reward_amount};
use crate::errors::ErrorCode;
use crate::gate::{payment_due, payment_gate, LAMPORTS_PER_SOL};
use crate::identity::Identity;
use crate::ledger::MintState;
use crate::vault::TokenVault;
use vstd::prelude::*;

verus! {

/// What a mint request works on.
#[derive(Clone, Copy, Debug, PartialEq, Eq)]
pub struct MintNFT {
    /// Who asks for the mint, and will own the vault.
    pub payer: Identity,
    /// The payer's balance of native currency when the request begins.
    pub payer_lamports: u64,
    /// The identity presented as a mint pass.
    pub mint_pass: Identity,
    /// Where payments are collected.
    pub payment_vault: Identity,
    /// The collectible being minted.
    pub nft_mint: Identity,
    /// The record in which the new vault is written.
    pub token_vault: TokenVault,
    /// The ledger of mints.
    pub nft_mint_state: MintState,
}

/// What an unlock request works on.
#[derive(Clone, Copy, Debug, PartialEq, Eq)]
pub struct UnlockTokens {
    /// Who asks for the unlock.
    pub owner: Identity,
    /// The vault to unlock.
    pub token_vault: TokenVault,
}

/// A transfer of native currency that the caller has to make.
#[derive(Clone, Copy, Debug, PartialEq, Eq)]
pub struct Payment {
    pub from: Identity,
    pub to: Identity,
    pub amount: u64,
}

/// What the caller has to carry out for a mint that was granted.
#[derive(Clone, Copy, Debug, PartialEq, Eq)]
pub struct MintInstructions {
    /// The payment to collect first; `None` where a mint pass waives it.
    pub payment: Option<Payment>,
    /// The reward to issue into the custody of the new vault.
    pub reward: u64,
}

/// The reward that a mint on `ctx` earns: the curve at the count of mints
/// before this one.
pub open spec fn mint_reward(ctx: MintNFT, multiplier: u8) -> u64 {
    reward_amount(ctx.nft_mint_state.total_minted as int, multiplier as int) as u64
}

/// What a mint request answers, given whether the identity it presents is a
/// mint pass. The payment gate is consulted first, then the ledger.
pub open spec fn mint_outcome_given(ctx: MintNFT, has_mint_pass: bool, multiplier: u8) -> Result<
    MintInstructions,
    ErrorCode,
> {
    match payment_due(has_mint_pass, ctx.payer_lamports) {
        Err(refusal) => Err(refusal),
        Ok(due) => if ctx.nft_mint_state.saturated() {
            Err(ErrorCode::CounterOverflow)
        } else {
            Ok(
                MintInstructions {
                    payment: match due {
                        Some(amount) => Some(
                            Payment { from: ctx.payer, to: ctx.payment_vault, amount },
                        ),
                        None => None,
                    },
                    reward: mint_reward(ctx, multiplier),
                },
            )
        },
    }
}

/// The records as such a mint request leaves them.
pub open spec fn after_mint_given(ctx: MintNFT, has_mint_pass: bool, multiplier: u8) -> MintNFT {
    if mint_outcome_given(ctx, has_mint_pass, multiplier) is Ok {
        MintNFT {
            token_vault: TokenVault::created(ctx.nft_mint, mint_reward(ctx, multiplier), ctx.payer),
            nft_mint_state: ctx.nft_mint_state.incremented(),
            ..ctx
        }
    } else {
        ctx
    }
}

/// What a mint request answers.
pub open spec fn mint_outcome(ctx: MintNFT, multiplier: u8) -> Result<MintInstructions, ErrorCode> {
    mint_outcome_given(ctx, is_mint_pass(ctx.mint_pass@), multiplier)
}

/// The records as a mint request leaves them.
pub open spec fn after_mint(ctx: MintNFT, multiplier: u8) -> MintNFT {
    after_mint_given(ctx, is_mint_pass(ctx.mint_pass@), multiplier)
}

/// Mints for a caller of whom it is already known whether the identity
/// presented is a mint pass: decides the payment, computes the reward from the
/// count of earlier mints, writes the locked vault and counts the mint.
///
/// A refused request leaves every record as it was. A granted one returns
/// what the caller has to move: the payment, unless a mint pass waives it, and
/// the reward to issue into the vault's custody.
pub fn mint_with_pass_status(ctx: &mut MintNFT, has_mint_pass: bool, multiplier: u8) -> (outcome:
    Result<MintInstructions, ErrorCode>)
    ensures
        outcome == mint_outcome_given(*old(ctx), has_mint_pass, multiplier),
        *final(ctx) == after_mint_given(*old(ctx), has_mint_pass, multiplier),
        outcome == Err::<MintInstructions, ErrorCode>(ErrorCode::NoMintPass) <==> {
            &&& !has_mint_pass
            &&& old(ctx).payer_lamports < LAMPORTS_PER_SOL
        },
        outcome == Err::<MintInstructions, ErrorCode>(ErrorCode::CounterOverflow) <==> {
            &&& has_mint_pass || old(ctx).payer_lamports >= LAMPORTS_PER_SOL
            &&& old(ctx).nft_mint_state.total_minted == u64::MAX
        },
        outcome is Ok <==> {
            &&& has_mint_pass || old(ctx).payer_lamports >= LAMPORTS_PER_SOL
            &&& old(ctx).nft_mint_state.total_minted < u64::MAX
        },
        outcome is Err ==> *final(ctx) == *old(ctx),
        outcome matches Ok(instructions) ==> {
            &&& instructions.payment is None <==> has_mint_pass
            &&& instructions.payment matches Some(payment) ==> payment.from == old(ctx).payer
                && payment.to == old(ctx).payment_vault && payment.amount == LAMPORTS_PER_SOL
            &&& instructions.reward == reward_amount(
                old(ctx).nft_mint_state.total_minted as int,
                multiplier as int,
            )
            &&& final(ctx).token_vault == TokenVault::created(
                old(ctx).nft_mint,
                instructions.reward,
                old(ctx).payer,
            )
            &&& final(ctx).nft_mint_state.total_minted == old(ctx).nft_mint_state.total_minted
                + 1
        },
        old(ctx).token_vault.well_formed() ==> final(ctx).token_vault.well_formed(),
{
    let due = match payment_gate(has_mint_pass, ctx.payer_lamports) {
        Ok(due) => due,
        Err(refusal) => {
            return Err(refusal);
        },
    };
    if ctx.nft_mint_state.read() == u64::MAX {
        return Err(ErrorCode::CounterOverflow);
    }
    let amount = reward(ctx.nft_mint_state.read(), multiplier);
    let payment = match due {
        Some(price) => Some(Payment { from: ctx.payer, to: ctx.payment_vault, amount: price }),
        None => None,
    };
    ctx.token_vault = TokenVault::create(ctx.nft_mint, amount, ctx.payer);
    let counted = ctx.nft_mint_state.increment();
    assert(counted is Ok);
    Ok(MintInstructions { payment, reward: amount })
}

/// Mints: looks the presented identity up among the mint passes and goes on
/// as `mint_with_pass_status` does.
pub fn mint_nft(ctx: &mut MintNFT, multiplier: u8) -> (outcome: Result<MintInstructions, ErrorCode>)
    ensures
        outcome == mint_outcome(*old(ctx), multiplier),
        *final(ctx) == after_mint(*old(ctx), multiplier),
        outcome == Err::<MintInstructions, ErrorCode>(ErrorCode::NoMintPass) <==> {
            &&& !is_mint_pass(old(ctx).mint_pass@)
            &&& old(ctx).payer_lamports < LAMPORTS_PER_SOL
        },
        outcome == Err::<MintInstructions, ErrorCode>(ErrorCode::CounterOverflow) <==> {
            &&& is_mint_pass(old(ctx).mint_pass@) || old(ctx).payer_lamports >= LAMPORTS_PER_SOL
            &&& old(ctx).nft_mint_state.total_minted == u64::MAX
        },
        outcome is Ok <==> {
            &&& is_mint_pass(old(ctx).mint_pass@) || old(ctx).payer_lamports >= LAMPORTS_PER_SOL
            &&& old(ctx).nft_mint_state.total_minted < u64::MAX
        },
        outcome is Err ==> *final(ctx) == *old(ctx),
        outcome is Ok ==> final(ctx).nft_mint_state.total_minted == old(
            ctx,
        ).nft_mint_state.total_minted + 1,
        old(ctx).token_vault.well_formed() ==> final(ctx).token_vault.well_formed(),
{
    let held = has_mint_pass(&ctx.mint_pass);
    mint_with_pass_status(ctx, held, multiplier)
}

/// Unlocks the vault for the caller named in `ctx` and returns the amount to
/// move from the vault's custody to the destination the caller chose.
///
/// A refused request leaves the vault as it was.
pub fn unlock_tokens(ctx: &mut UnlockTokens) -> (outcome: Result<u64, ErrorCode>)
    ensures
        outcome == old(ctx).token_vault.unlock_outcome(old(ctx).owner),
        final(ctx).token_vault == old(ctx).token_vault.after_unlock(old(ctx).owner),
        final(ctx).owner == old(ctx).owner,
        outcome is Err ==> *final(ctx) == *old(ctx),
        outcome is Ok ==> !final(ctx).token_vault.is_locked && final(ctx).token_vault.token_amount
            == 0,
{
    let caller = ctx.owner;
    ctx.token_vault.unlock(&caller)
}

/// The ledger after a run of mint requests that starts from `start`. Each
/// request is made on the ledger that the one before it left; the other
/// records of a request are its own.
pub open spec fn ledger_after(start: MintState, requests: Seq<(MintNFT, u8)>) -> MintState
    decreases requests.len(),
{
    if requests.len() == 0 {
        start
    } else {
        let (ctx, multiplier) = requests.last();
        let before = ledger_after(start, requests.drop_last());
        after_mint(MintNFT { nft_mint_state: before, ..ctx }, multiplier).nft_mint_state
    }
}

/// How many requests of such a run are granted.
pub open spec fn granted_mints(start: MintState, requests: Seq<(MintNFT, u8)>) -> nat
    decreases requests.len(),
{
    if requests.len() == 0 {
        0
    } else {
        let (ctx, multiplier) = requests.last();
        let before = ledger_after(start, requests.drop_last());
        let earlier = granted_mints(start, requests.drop_last());
        if mint_outcome(MintNFT { nft_mint_state: before, ..ctx }, multiplier) is Ok {
            earlier + 1
        } else {
            earlier
        }
    }
}

/// The ledger counts the granted mints and nothing else: after any run of
/// requests it has grown by the number of those that were granted, and a
/// refused request leaves it as it was. On a new ledger the count is that
/// number itself.
pub proof fn lemma_total_minted_counts_granted_mints(start: MintState, requests: Seq<(MintNFT, u8)>)
    ensures
        ledger_after(start, requests).total_minted == start.total_minted + granted_mints(
            start,
            requests,
        ),
        start.total_minted == 0 ==> ledger_after(start, requests).total_minted == granted_mints(
            start,
            requests,
        ),
    decreases requests.len(),
{
    if requests.len() > 0 {
        lemma_total_minted_counts_granted_mints(start, requests.drop_last());
    }
}

/// A refused mint changes no record; a granted one writes a locked vault that
/// holds the reward for the payer and counts exactly one mint.
pub proof fn lemma_mint_is_all_or_nothing(ctx: MintNFT, multiplier: u8)
    ensures
        mint_outcome(ctx, multiplier) is Err ==> after_mint(ctx, multiplier) == ctx,
        mint_outcome(ctx, multiplier) is Ok ==> {
            let after = after_mint(ctx, multiplier);
            &&& after.token_vault.is_locked
            &&& after.token_vault.owner == ctx.payer
            &&& after.token_vault.nft_mint == ctx.nft_mint
            &&& after.token_vault.token_amount == reward_amount(
                ctx.nft_mint_state.total_minted as int,
                multiplier as int,
            )
            &&& after.nft_mint_state.total_minted == ctx.nft_mint_state.total_minted + 1
        },
{
    if mint_outcome(ctx, multiplier) is Ok {
        lemma_reward_fits(ctx.nft_mint_state.total_minted as nat, multiplier);
    }
}

} // verus!
