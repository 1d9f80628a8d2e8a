//! The mint-state ledger: how many rewards have been issued so far.

use crate::errors::ErrorCode;
use vstd::prelude::*;

verus! {

/// The count of successful mints. It starts at zero and only ever grows, by
/// one per mint; it never wraps.
#[derive(Clone, Copy, Debug, PartialEq, Eq, Structural)]
pub struct MintState {
    pub total_minted: u64,
}

impl MintState {
    /// The ledger as `increment` leaves it, where it succeeds.
    pub open spec fn incremented(self) -> MintState {
        MintState { total_minted: (self.total_minted + 1) as u64 }
    }

    /// Whether the counter has reached the largest value it can hold.
    pub open spec fn saturated(self) -> bool {
        self.total_minted == u64::MAX
    }

    /// A ledger on which nothing has been minted.
    pub fn new() -> (state: MintState)
        ensures
            state.total_minted == 0,
    {
        MintState { total_minted: 0 }
    }

    /// Returns the number of successful mints so far.
    pub fn read(&self) -> (total: u64)
        ensures
            total == self.total_minted,
    {
        self.total_minted
    }

    /// Counts one more mint. At the largest count the ledger stays as it is
    /// and the call fails with `CounterOverflow`.
    pub fn increment(&mut self) -> (outcome: Result<(), ErrorCode>)
        ensures
            !old(self).saturated() ==> outcome is Ok && final(self).total_minted == old(
                self,
            ).total_minted + 1,
            old(self).saturated() ==> outcome == Err::<(), ErrorCode>(ErrorCode::CounterOverflow)
                && *final(self) == *old(self),
    {
        match self.total_minted.checked_add(1) {
            Some(next) => {
                self.total_minted = next;
                Ok(())
            },
            None => Err(ErrorCode::CounterOverflow),
        }
    }
}

} // verus!
