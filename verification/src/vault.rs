//! The reward vault: an escrow record that is created locked and can be
//! unlocked once, by its owner.

use crate::errors::ErrorCode;
use crate::identity::Identity;
use vstd::prelude::*;

verus! {

/// The escrow record of one mint.
///
/// A vault is `Locked` from its creation until its owner unlocks it, and
/// `Unlocked` for ever after. An unlocked vault holds nothing.
#[derive(Clone, Copy, Debug, PartialEq, Eq)]
pub struct TokenVault {
    /// The collectible this vault belongs to.
    pub nft_mint: Identity,
    /// The reward held in escrow.
    pub token_amount: u64,
    /// Whether the reward is still held.
    pub is_locked: bool,
    /// The only identity that may unlock the vault.
    pub owner: Identity,
}

impl TokenVault {
    /// A vault holds tokens only while it is locked.
    pub open spec fn well_formed(self) -> bool {
        !self.is_locked ==> self.token_amount == 0
    }

    /// The vault that `create` makes.
    pub open spec fn created(nft_mint: Identity, token_amount: u64, owner: Identity) -> TokenVault {
        TokenVault { nft_mint, token_amount, is_locked: true, owner }
    }

    /// What an unlock asked for by `caller` answers: the amount to release, or
    /// the reason for refusing. Ownership is checked before the lock.
    pub open spec fn unlock_outcome(self, caller: Identity) -> Result<u64, ErrorCode> {
        if self.owner != caller {
            Err(ErrorCode::UnauthorizedUnlock)
        } else if !self.is_locked {
            Err(ErrorCode::TokensAlreadyUnlocked)
        } else {
            Ok(self.token_amount)
        }
    }

    /// The vault as an unlock asked for by `caller` leaves it.
    pub open spec fn after_unlock(self, caller: Identity) -> TokenVault {
        if self.unlock_outcome(caller) is Ok {
            TokenVault { token_amount: 0, is_locked: false, ..self }
        } else {
            self
        }
    }

    /// Creates the vault of a mint: locked, holding `token_amount` for `owner`.
    pub fn create(nft_mint: Identity, token_amount: u64, owner: Identity) -> (vault: TokenVault)
        ensures
            vault == TokenVault::created(nft_mint, token_amount, owner),
            vault.well_formed(),
    {
        TokenVault { nft_mint, token_amount, is_locked: true, owner }
    }

    /// Unlocks the vault for `caller` and returns the amount to release.
    ///
    /// Only the owner may unlock, and only once: a refused call leaves the
    /// vault as it was.
    pub fn unlock(&mut self, caller: &Identity) -> (outcome: Result<u64, ErrorCode>)
        ensures
            outcome == old(self).unlock_outcome(*caller),
            *final(self) == old(self).after_unlock(*caller),
            outcome == Err::<u64, ErrorCode>(ErrorCode::UnauthorizedUnlock) <==> *caller != old(
                self,
            ).owner,
            outcome == Err::<u64, ErrorCode>(ErrorCode::TokensAlreadyUnlocked) <==> *caller
                == old(self).owner && !old(self).is_locked,
            outcome is Ok <==> *caller == old(self).owner && old(self).is_locked,
            outcome is Err ==> *final(self) == *old(self),
            outcome matches Ok(amount) ==> {
                &&& amount == old(self).token_amount
                &&& !final(self).is_locked
                &&& final(self).token_amount == 0
                &&& final(self).owner == old(self).owner
                &&& final(self).nft_mint == old(self).nft_mint
            },
            old(self).well_formed() ==> final(self).well_formed(),
    {
        if !self.owner.same_as(caller) {
            return Err(ErrorCode::UnauthorizedUnlock);
        }
        if !self.is_locked {
            return Err(ErrorCode::TokensAlreadyUnlocked);
        }
        let amount = self.token_amount;
        self.is_locked = false;
        self.token_amount = 0;
        Ok(amount)
    }
}

/// The first unlock by the owner releases everything the vault holds and
/// empties it; every later unlock is refused with `TokensAlreadyUnlocked` and
/// changes nothing.
pub proof fn lemma_unlock_succeeds_once(vault: TokenVault)
    requires
        vault.is_locked,
    ensures
        vault.unlock_outcome(vault.owner) == Ok::<u64, ErrorCode>(vault.token_amount),
        vault.after_unlock(vault.owner).token_amount == 0,
        !vault.after_unlock(vault.owner).is_locked,
        vault.after_unlock(vault.owner).unlock_outcome(vault.owner) == Err::<u64, ErrorCode>(
            ErrorCode::TokensAlreadyUnlocked,
        ),
        vault.after_unlock(vault.owner).after_unlock(vault.owner) == vault.after_unlock(
            vault.owner,
        ),
{
}

/// Nobody but the owner can unlock: such a call is refused with
/// `UnauthorizedUnlock` whether the vault is locked or not, and changes nothing.
pub proof fn lemma_unlock_needs_owner(vault: TokenVault, caller: Identity)
    requires
        caller != vault.owner,
    ensures
        vault.unlock_outcome(caller) == Err::<u64, ErrorCode>(ErrorCode::UnauthorizedUnlock),
        vault.after_unlock(caller) == vault,
{
}

/// An unlocked vault stays as it is for ever: every further unlock is refused,
/// with `TokensAlreadyUnlocked` where the owner asks, and changes nothing.
pub proof fn lemma_unlocked_vault_is_final(vault: TokenVault, caller: Identity)
    requires
        !vault.is_locked,
    ensures
        vault.unlock_outcome(caller) is Err,
        caller == vault.owner ==> vault.unlock_outcome(caller) == Err::<u64, ErrorCode>(
            ErrorCode::TokensAlreadyUnlocked,
        ),
        vault.after_unlock(caller) == vault,
{
}

/// No unlock, granted or refused, locks a vault again, changes its owner or
/// its collectible, or puts tokens into it; and a vault that held tokens only
/// while locked still does so afterwards.
pub proof fn lemma_unlock_is_one_way(vault: TokenVault, caller: Identity)
    ensures
        !vault.is_locked ==> !vault.after_unlock(caller).is_locked,
        vault.after_unlock(caller).owner == vault.owner,
        vault.after_unlock(caller).nft_mint == vault.nft_mint,
        vault.after_unlock(caller).token_amount <= vault.token_amount,
        vault.well_formed() ==> vault.after_unlock(caller).well_formed(),
{
}

} // verus!
