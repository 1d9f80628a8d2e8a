//! The bonding curve: how large a reward is, given how many were issued before.

use vstd::prelude::*;

verus! {

/// Reward of the very first mint, before any multiplier.
pub const BASE_REWARD: u64 = 500_000;

/// Amount by which the base reward shrinks with every mint.
pub const REWARD_DECREASE_RATE: u64 = 1_000;

/// The base reward after `current_supply` mints: it falls linearly and stops at zero.
pub open spec fn base_reward(current_supply: int) -> int {
    if BASE_REWARD - current_supply * REWARD_DECREASE_RATE > 0 {
        BASE_REWARD - current_supply * REWARD_DECREASE_RATE
    } else {
        0
    }
}

/// The reward for a mint made when `current_supply` rewards were issued before it.
pub open spec fn reward_amount(current_supply: int, multiplier: int) -> int {
    base_reward(current_supply) * multiplier
}

/// Computes the reward of one mint.
///
/// The decrease saturates: once it reaches the base reward, the reward is zero.
/// The product with the multiplier is taken in 128 bits; it always fits in 64.
pub fn reward(current_supply: u64, multiplier: u8) -> (amount: u64)
    ensures
        amount == reward_amount(current_supply as int, multiplier as int),
        current_supply >= 500 ==> amount == 0,
        current_supply < 500 && multiplier == 1 ==> amount == 500_000 - current_supply * 1_000,
{
    let base: u64 = match current_supply.checked_mul(REWARD_DECREASE_RATE) {
        Some(decrease) => BASE_REWARD.saturating_sub(decrease),
        None => 0,
    };
    assert(base == base_reward(current_supply as int));
    assert(base * multiplier <= 500_000 * 255 && (base == 0 ==> base * multiplier == 0)) by (nonlinear_arith)
        requires
            0 <= base <= 500_000,
            0 <= multiplier <= 255,
    ;
    let wide: u128 = match (base as u128).checked_mul(multiplier as u128) {
        Some(product) => product,
        None => 0,
    };
    wide as u64
}

/// The reward of a mint always fits in 64 bits: it is at most the base reward
/// times the largest multiplier.
pub proof fn lemma_reward_fits(current_supply: nat, multiplier: u8)
    ensures
        0 <= reward_amount(current_supply as int, multiplier as int) <= BASE_REWARD * 255,
        reward_amount(current_supply as int, multiplier as int) <= u64::MAX,
{
    let base = base_reward(current_supply as int);
    assert(0 <= base * multiplier <= 500_000 * 255) by (nonlinear_arith)
        requires
            0 <= base <= 500_000,
            0 <= multiplier <= 255,
    ;
}

/// With multiplier one, each of the first five hundred mints earns the base
/// reward less a thousand for every mint before it.
pub proof fn lemma_reward_of_early_mint(current_supply: nat)
    requires
        current_supply < 500,
    ensures
        reward_amount(current_supply as int, 1) == 500_000 - current_supply * 1_000,
{
}

/// From the five-hundredth mint on the reward is zero, whatever the multiplier.
pub proof fn lemma_reward_exhausted(current_supply: nat, multiplier: nat)
    requires
        current_supply >= 500,
    ensures
        reward_amount(current_supply as int, multiplier as int) == 0,
{
    assert(base_reward(current_supply as int) == 0);
}

/// A larger multiplier never earns less.
pub proof fn lemma_reward_monotonic_in_multiplier(current_supply: nat, m1: nat, m2: nat)
    requires
        m1 <= m2,
    ensures
        reward_amount(current_supply as int, m1 as int) <= reward_amount(
            current_supply as int,
            m2 as int,
        ),
{
    let base = base_reward(current_supply as int);
    assert(base * m1 <= base * m2) by (nonlinear_arith)
        requires
            0 <= base,
            m1 <= m2,
    ;
}

/// A later mint never earns more than an earlier one at the same multiplier.
pub proof fn lemma_reward_monotonic_in_supply(s1: nat, s2: nat, multiplier: nat)
    requires
        s1 <= s2,
    ensures
        reward_amount(s2 as int, multiplier as int) <= reward_amount(s1 as int, multiplier as int),
{
    let b1 = base_reward(s1 as int);
    let b2 = base_reward(s2 as int);
    assert(b2 <= b1);
    assert(b2 * multiplier <= b1 * multiplier) by (nonlinear_arith)
        requires
            b2 <= b1,
            0 <= multiplier,
    ;
}

} // verus!
