use reward_vault::errors::ErrorCode;
use reward_vault::gate::{payment_gate, LAMPORTS_PER_SOL};
use reward_vault::identity::Identity;
use reward_vault::ledger::MintState;
use reward_vault::vault::TokenVault;

fn id(byte: u8) -> Identity {
    Identity::new([byte; 32])
}

#[test]
fn price_is_one_unit_of_native_currency() {
    assert_eq!(LAMPORTS_PER_SOL, 1_000_000_000);
}

#[test]
fn gate_waives_payment_for_pass_holders() {
    assert_eq!(payment_gate(true, 0), Ok(None));
    assert_eq!(payment_gate(true, 999_999_999), Ok(None));
    assert_eq!(payment_gate(true, u64::MAX), Ok(None));
}

#[test]
fn gate_charges_the_price_without_a_pass() {
    assert_eq!(payment_gate(false, 1_000_000_000), Ok(Some(1_000_000_000)));
    assert_eq!(payment_gate(false, 1_000_000_001), Ok(Some(1_000_000_000)));
    assert_eq!(payment_gate(false, u64::MAX), Ok(Some(1_000_000_000)));
}

#[test]
fn gate_refuses_without_pass_or_funds() {
    assert_eq!(payment_gate(false, 0), Err(ErrorCode::NoMintPass));
    assert_eq!(payment_gate(false, 999_999_999), Err(ErrorCode::NoMintPass));
}

#[test]
fn new_ledger_starts_at_zero() {
    let state = MintState::new();
    assert_eq!(state.total_minted, 0);
    assert_eq!(state.read(), 0);
}

#[test]
fn increment_counts_one_at_a_time() {
    let mut state = MintState::new();
    for expected in 1u64..=10 {
        assert_eq!(state.increment(), Ok(()));
        assert_eq!(state.read(), expected);
    }
}

#[test]
fn increment_fails_at_the_largest_count() {
    let mut state = MintState { total_minted: u64::MAX - 1 };
    assert_eq!(state.increment(), Ok(()));
    assert_eq!(state.read(), u64::MAX);
    assert_eq!(state.increment(), Err(ErrorCode::CounterOverflow));
    assert_eq!(state.read(), u64::MAX);
}

#[test]
fn created_vault_is_locked_and_holds_the_reward() {
    let vault = TokenVault::create(id(1), 250_000, id(2));
    assert_eq!(
        vault,
        TokenVault { nft_mint: id(1), token_amount: 250_000, is_locked: true, owner: id(2) }
    );
}

#[test]
fn owner_unlocks_once() {
    let mut vault = TokenVault::create(id(1), 250_000, id(2));
    assert_eq!(vault.unlock(&id(2)), Ok(250_000));
    assert_eq!(vault.token_amount, 0);
    assert!(!vault.is_locked);
    assert_eq!(vault.owner, id(2));
    assert_eq!(vault.nft_mint, id(1));
    let unlocked = vault;
    assert_eq!(vault.unlock(&id(2)), Err(ErrorCode::TokensAlreadyUnlocked));
    assert_eq!(vault, unlocked);
    assert_eq!(vault.unlock(&id(2)), Err(ErrorCode::TokensAlreadyUnlocked));
    assert_eq!(vault, unlocked);
}

#[test]
fn stranger_cannot_unlock_locked_vault() {
    let mut vault = TokenVault::create(id(1), 250_000, id(2));
    let before = vault;
    assert_eq!(vault.unlock(&id(3)), Err(ErrorCode::UnauthorizedUnlock));
    assert_eq!(vault, before);
    // the collectible's identity is not the owner's
    assert_eq!(vault.unlock(&id(1)), Err(ErrorCode::UnauthorizedUnlock));
    assert_eq!(vault, before);
}

#[test]
fn stranger_cannot_unlock_unlocked_vault() {
    let mut vault = TokenVault::create(id(1), 250_000, id(2));
    assert_eq!(vault.unlock(&id(2)), Ok(250_000));
    let before = vault;
    assert_eq!(vault.unlock(&id(3)), Err(ErrorCode::UnauthorizedUnlock));
    assert_eq!(vault, before);
}

#[test]
fn empty_locked_vault_unlocks_with_nothing_to_release() {
    let mut vault = TokenVault::create(id(1), 0, id(2));
    assert_eq!(vault.unlock(&id(2)), Ok(0));
    assert!(!vault.is_locked);
    assert_eq!(vault.unlock(&id(2)), Err(ErrorCode::TokensAlreadyUnlocked));
}

#[test]
fn refusals_have_their_messages() {
    assert_eq!(
        ErrorCode::NoMintPass.message(),
        "User does not have a mint pass and insufficient SOL balance"
    );
    assert_eq!(ErrorCode::UnauthorizedUnlock.message(), "Only the NFT owner can unlock tokens");
    assert_eq!(ErrorCode::TokensAlreadyUnlocked.message(), "Tokens are already unlocked");
    assert_eq!(
        ErrorCode::CounterOverflow.message(),
        "The mint counter cannot be incremented further"
    );
}
