//! The mint-pass collection: the identities that may mint without paying.

use crate::identity::{base58_address, lemma_identity_is_its_bytes, Identity};
use vstd::prelude::*;

verus! {

/// Number of mint passes in the collection.
pub const MINT_PASS_COUNT: usize = 6;

/// The base58 text of the mint pass at `index`, for `index` below
/// `MINT_PASS_COUNT`.
pub open spec fn mint_pass_text(index: int) -> Seq<char> {
    if index == 0 {
        "4k3Dyjzvzp8eWcZQyQ8GqFfUzwg8o3Ts1Xx8NyWsfU3Y"@
    } else if index == 1 {
        "5uSP3cCG3vBzEfp5pGbM1WxvS6aFHxpnnzzEYkC7ZRSS"@
    } else if index == 2 {
        "8KjRFkRcYUSKNYbJBs3NZZp6w8kPZ1GVzWG5JPHntYaa"@
    } else if index == 3 {
        "Cq1sKPzjgk9ZZmR48WxRujQnRztu6mkuCz3GneqcH9qB"@
    } else if index == 4 {
        "9cXgR1LuKG76vMCbtDg1hufd9fKWsK544yFnDBH3fxWq"@
    } else {
        "2Y52hkgnn4UQZWy1pCEoYgSoimvoaTy5gAAzAvZRfLfa"@
    }
}

/// The collection as decoded identities, in order. An entry whose text is no
/// address is `None` and matches nobody.
pub open spec fn mint_pass_collection() -> Seq<Option<Seq<u8>>> {
    Seq::new(MINT_PASS_COUNT as nat, |index: int| base58_address(mint_pass_text(index)))
}

/// Whether the identity with these bytes is one of the mint passes.
pub open spec fn is_mint_pass(identity: Seq<u8>) -> bool {
    mint_pass_collection().contains(Some(identity))
}

/// Returns the base58 text of the mint pass at `index`, or `None` where the
/// collection has no such entry.
pub fn mint_pass(index: usize) -> (text: Option<&'static str>)
    ensures
        index < MINT_PASS_COUNT <==> text is Some,
        text matches Some(found) ==> found@ == mint_pass_text(index as int),
{
    if index == 0 {
        Some("4k3Dyjzvzp8eWcZQyQ8GqFfUzwg8o3Ts1Xx8NyWsfU3Y")
    } else if index == 1 {
        Some("5uSP3cCG3vBzEfp5pGbM1WxvS6aFHxpnnzzEYkC7ZRSS")
    } else if index == 2 {
        Some("8KjRFkRcYUSKNYbJBs3NZZp6w8kPZ1GVzWG5JPHntYaa")
    } else if index == 3 {
        Some("Cq1sKPzjgk9ZZmR48WxRujQnRztu6mkuCz3GneqcH9qB")
    } else if index == 4 {
        Some("9cXgR1LuKG76vMCbtDg1hufd9fKWsK544yFnDBH3fxWq")
    } else if index == 5 {
        Some("2Y52hkgnn4UQZWy1pCEoYgSoimvoaTy5gAAzAvZRfLfa")
    } else {
        None
    }
}

/// Whether `identity` is one of `passes`. An absent entry matches nobody.
pub open spec fn listed(passes: Seq<Option<Identity>>, identity: Identity) -> bool {
    passes.contains(Some(identity))
}

/// Decodes the collection: one entry per mint pass, in order, `None` where
/// the text of an entry is no address.
pub fn mint_pass_identities() -> (passes: Vec<Option<Identity>>)
    ensures
        passes.len() == MINT_PASS_COUNT,
        forall|i: int|
            0 <= i < MINT_PASS_COUNT ==> mint_pass_collection()[i] == match #[trigger] passes[i] {
                Some(pass) => Some(pass@),
                None => None,
            },
{
    let mut passes: Vec<Option<Identity>> = Vec::new();
    let mut index: usize = 0;
    while index < MINT_PASS_COUNT
        invariant
            index <= MINT_PASS_COUNT,
            passes.len() == index,
            forall|i: int|
                0 <= i < index ==> mint_pass_collection()[i] == match #[trigger] passes[i] {
                    Some(pass) => Some(pass@),
                    None => None,
                },
        decreases MINT_PASS_COUNT - index,
    {
        let pass = match mint_pass(index) {
            Some(text) => Identity::from_base58(text),
            None => None,
        };
        passes.push(pass);
        index += 1;
    }
    passes
}

/// Tells whether `identity` is one of `passes`, by looking at each in turn.
pub fn is_listed(passes: &Vec<Option<Identity>>, identity: &Identity) -> (held: bool)
    ensures
        held == listed(passes@, *identity),
{
    let mut index: usize = 0;
    while index < passes.len()
        invariant
            index <= passes.len(),
            forall|j: int| 0 <= j < index ==> passes[j] != Some(*identity),
        decreases passes.len() - index,
    {
        match &passes[index] {
            Some(pass) => {
                if pass.same_as(identity) {
                    return true;
                }
            },
            None => {},
        }
        index += 1;
    }
    false
}

/// Tells whether `identity` is one of the mint passes. Absence is an ordinary
/// answer, not an error.
pub fn has_mint_pass(identity: &Identity) -> (held: bool)
    ensures
        held == is_mint_pass(identity@),
{
    let passes = mint_pass_identities();
    let held = is_listed(&passes, identity);
    proof {
        if held {
            let i = choose|i: int| 0 <= i < passes@.len() && passes@[i] == Some(*identity);
            assert(mint_pass_collection()[i] == Some(identity@));
        }
        if is_mint_pass(identity@) {
            let i = choose|i: int|
                0 <= i < mint_pass_collection().len() && mint_pass_collection()[i] == Some(
                    identity@,
                );
            let pass = passes@[i]->Some_0;
            assert(passes@[i] is Some);
            lemma_identity_is_its_bytes(pass, *identity);
            assert(passes@[i] == Some(*identity));
        }
    }
    held
}

} // verus!
