//! The reasons for which a request is refused.

use vstd::prelude::*;

verus! {

/// Why a mint or an unlock was refused. A refused request changes nothing.
#[derive(Clone, Copy, Debug, PartialEq, Eq, Structural)]
pub enum ErrorCode {
    /// The caller holds no mint pass and cannot afford the payment.
    NoMintPass,
    /// The caller is not the owner recorded in the vault.
    UnauthorizedUnlock,
    /// The vault has been unlocked before.
    TokensAlreadyUnlocked,
    /// The count of mints has reached the largest value it can hold.
    CounterOverflow,
}

impl ErrorCode {
    /// The text shown to the caller for this refusal.
    pub open spec fn message_text(self) -> Seq<char> {
        match self {
            ErrorCode::NoMintPass => "User does not have a mint pass and insufficient SOL balance"@,
            ErrorCode::UnauthorizedUnlock => "Only the NFT owner can unlock tokens"@,
            ErrorCode::TokensAlreadyUnlocked => "Tokens are already unlocked"@,
            ErrorCode::CounterOverflow => "The mint counter cannot be incremented further"@,
        }
    }

    /// Returns the text shown to the caller for this refusal.
    pub fn message(&self) -> (text: &'static str)
        ensures
            text@ == self.message_text(),
    {
        match self {
            ErrorCode::NoMintPass => "User does not have a mint pass and insufficient SOL balance",
            ErrorCode::UnauthorizedUnlock => "Only the NFT owner can unlock tokens",
            ErrorCode::TokensAlreadyUnlocked => "Tokens are already unlocked",
            ErrorCode::CounterOverflow => "The mint counter cannot be incremented further",
        }
    }
}

} // verus!
