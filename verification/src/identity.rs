//! Identities of accounts: opaque 32-byte keys, written in text as base58.

use anchor_lang::prelude::Pubkey;
use std::str::FromStr;
use vstd::prelude::*;

verus! {

/// The identity of an account. Two identities are the same when their bytes are.
#[derive(Clone, Copy, Debug, PartialEq, Eq)]
pub struct Identity {
    pub bytes: [u8; 32],
}

impl View for Identity {
    type V = Seq<u8>;

    open spec fn view(&self) -> Seq<u8> {
        self.bytes@
    }
}

/// The bytes that the base58 text of an address stands for, or `None` where
/// the text is not the base58 form of exactly 32 bytes.
pub uninterp spec fn base58_address(text: Seq<char>) -> Option<Seq<u8>>;

/// Decodes the base58 text of an address with `Pubkey::from_str`, and takes
/// the bytes out of the key with `Pubkey::to_bytes`. `anchor_lang`'s `Pubkey`
/// is the `Address` of the `solana-address` crate, and `from_str` is its impl
/// of `FromStr`.
///
/// Trusted: the result is `base58_address` of the text, that is, decoding is a
/// function of the text alone. `from_str` returns an error, and does not
/// panic, on text of more than 44 bytes, text with a character outside the
/// base58 alphabet and text that does not stand for exactly 32 bytes; every
/// error becomes `None` here.
#[verifier::external_body]
fn decode_address(text: &str) -> (decoded: Option<[u8; 32]>)
    ensures
        base58_address(text@) == match decoded {
            Some(bytes) => Some(bytes@),
            None => None,
        },
{
    match Pubkey::from_str(text) {
        Ok(key) => Some(key.to_bytes()),
        Err(_) => None,
    }
}

impl Identity {
    /// Makes an identity of its 32 bytes.
    pub fn new(bytes: [u8; 32]) -> (identity: Identity)
        ensures
            identity.bytes == bytes,
            identity@ == bytes@,
    {
        Identity { bytes }
    }

    /// Reads an identity from its base58 text. `None` where the text is no address.
    pub fn from_base58(text: &str) -> (identity: Option<Identity>)
        ensures
            base58_address(text@) == match identity {
                Some(id) => Some(id@),
                None => None,
            },
    {
        match decode_address(text) {
            Some(bytes) => Some(Identity { bytes }),
            None => None,
        }
    }

    /// Tells whether two identities are the same.
    pub fn same_as(&self, other: &Identity) -> (same: bool)
        ensures
            same == (*self == *other),
            same == (self@ == other@),
    {
        let mut i: usize = 0;
        while i < 32
            invariant
                i <= 32,
                forall|j: int| 0 <= j < i ==> self.bytes[j] == other.bytes[j],
            decreases 32 - i,
        {
            if self.bytes[i] != other.bytes[i] {
                assert(self.bytes@[i as int] != other.bytes@[i as int]);
                return false;
            }
            i += 1;
        }
        assert(self.bytes@ =~= other.bytes@);
        assert(self.bytes =~= other.bytes);
        true
    }
}

/// Identities are the same exactly when their bytes are.
pub proof fn lemma_identity_is_its_bytes(a: Identity, b: Identity)
    ensures
        a == b <==> a@ == b@,
{
    if a@ == b@ {
        assert(a.bytes =~= b.bytes);
    }
}

} // verus!
