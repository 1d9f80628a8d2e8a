use reward_vault::errors::ErrorCode;
use reward_vault::identity::Identity;
use reward_vault::ledger::MintState;
use reward_vault::program::{
    mint_nft, mint_with_pass_status, unlock_tokens, MintInstructions, MintNFT, Payment,
    UnlockTokens,
};
use reward_vault::vault::TokenVault;

fn id(byte: u8) -> Identity {
    Identity::new([byte; 32])
}

fn pass_holder() -> Identity {
    Identity::from_base58("8KjRFkRcYUSKNYbJBs3NZZp6w8kPZ1GVzWG5JPHntYaa").unwrap()
}

fn blank_vault() -> TokenVault {
    TokenVault { nft_mint: id(0), token_amount: 0, is_locked: false, owner: id(0) }
}

fn request(mint_pass: Identity, payer_lamports: u64, total_minted: u64) -> MintNFT {
    MintNFT {
        payer: id(10),
        payer_lamports,
        mint_pass,
        payment_vault: id(11),
        nft_mint: id(12),
        token_vault: blank_vault(),
        nft_mint_state: MintState { total_minted },
    }
}

#[test]
fn pass_holder_mints_without_payment() {
    let mut ctx = request(pass_holder(), 0, 0);
    let outcome = mint_nft(&mut ctx, 2);
    assert_eq!(outcome, Ok(MintInstructions { payment: None, reward: 1_000_000 }));
    assert_eq!(
        ctx.token_vault,
        TokenVault { nft_mint: id(12), token_amount: 1_000_000, is_locked: true, owner: id(10) }
    );
    assert_eq!(ctx.nft_mint_state.total_minted, 1);
    assert_eq!(ctx.payer_lamports, 0);
}

#[test]
fn caller_without_pass_or_funds_is_refused() {
    let mut ctx = request(id(20), 999_999_999, 3);
    let before = ctx;
    assert_eq!(mint_nft(&mut ctx, 2), Err(ErrorCode::NoMintPass));
    assert_eq!(ctx, before);
    assert_eq!(ctx.token_vault, blank_vault());
    assert_eq!(ctx.nft_mint_state.total_minted, 3);
}

#[test]
fn caller_without_pass_pays_the_price() {
    let mut ctx = request(id(20), 1_000_000_000, 3);
    let outcome = mint_nft(&mut ctx, 1);
    assert_eq!(
        outcome,
        Ok(MintInstructions {
            payment: Some(Payment { from: id(10), to: id(11), amount: 1_000_000_000 }),
            reward: 497_000,
        })
    );
    assert_eq!(
        ctx.token_vault,
        TokenVault { nft_mint: id(12), token_amount: 497_000, is_locked: true, owner: id(10) }
    );
    assert_eq!(ctx.nft_mint_state.total_minted, 4);
}

#[test]
fn reward_uses_the_count_before_the_mint() {
    let mut ctx = request(pass_holder(), 0, 499);
    assert_eq!(mint_nft(&mut ctx, 3), Ok(MintInstructions { payment: None, reward: 3_000 }));
    assert_eq!(ctx.nft_mint_state.total_minted, 500);
    ctx.token_vault = blank_vault();
    assert_eq!(mint_nft(&mut ctx, 3), Ok(MintInstructions { payment: None, reward: 0 }));
    assert_eq!(ctx.nft_mint_state.total_minted, 501);
    assert_eq!(ctx.token_vault.token_amount, 0);
    assert!(ctx.token_vault.is_locked);
}

#[test]
fn mint_is_refused_when_the_counter_is_full() {
    let mut ctx = request(pass_holder(), 0, u64::MAX);
    let before = ctx;
    assert_eq!(mint_nft(&mut ctx, 1), Err(ErrorCode::CounterOverflow));
    assert_eq!(ctx, before);
    let mut ctx = request(id(20), 2_000_000_000, u64::MAX);
    let before = ctx;
    assert_eq!(mint_nft(&mut ctx, 1), Err(ErrorCode::CounterOverflow));
    assert_eq!(ctx, before);
}

#[test]
fn missing_pass_is_reported_before_a_full_counter() {
    let mut ctx = request(id(20), 5, u64::MAX);
    let before = ctx;
    assert_eq!(mint_nft(&mut ctx, 1), Err(ErrorCode::NoMintPass));
    assert_eq!(ctx, before);
}

#[test]
fn pass_status_decides_the_payment() {
    let mut ctx = request(id(20), 7, 0);
    assert_eq!(
        mint_with_pass_status(&mut ctx, true, 1),
        Ok(MintInstructions { payment: None, reward: 500_000 })
    );
    let mut ctx = request(pass_holder(), 7, 0);
    let before = ctx;
    assert_eq!(mint_with_pass_status(&mut ctx, false, 1), Err(ErrorCode::NoMintPass));
    assert_eq!(ctx, before);
    let mut ctx = request(pass_holder(), 3_000_000_000, 10);
    assert_eq!(
        mint_with_pass_status(&mut ctx, false, 2),
        Ok(MintInstructions {
            payment: Some(Payment { from: id(10), to: id(11), amount: 1_000_000_000 }),
            reward: 980_000,
        })
    );
    assert_eq!(ctx.nft_mint_state.total_minted, 11);
}

#[test]
fn total_minted_counts_granted_mints_only() {
    let mut state = MintState::new();
    let mut granted = 0u64;
    for round in 0u64..40 {
        // every fourth request comes without a pass and without funds
        let refused = round % 4 == 3;
        let mut ctx = request(
            if refused { id(20) } else { pass_holder() },
            round,
            state.total_minted,
        );
        let outcome = mint_nft(&mut ctx, 1);
        if refused {
            assert_eq!(outcome, Err(ErrorCode::NoMintPass));
            assert_eq!(ctx.nft_mint_state, state);
        } else {
            assert_eq!(
                outcome,
                Ok(MintInstructions { payment: None, reward: 500_000 - granted * 1_000 })
            );
            granted += 1;
        }
        state = ctx.nft_mint_state;
        assert_eq!(state.total_minted, granted);
    }
    assert_eq!(state.total_minted, 30);
}

#[test]
fn owner_unlocks_vault_and_receives_its_tokens() {
    let mut ctx = UnlockTokens {
        owner: id(10),
        token_vault: TokenVault::create(id(12), 250_000, id(10)),
    };
    let mut recipient_balance = 40u64;
    let released = unlock_tokens(&mut ctx);
    assert_eq!(released, Ok(250_000));
    recipient_balance += released.unwrap();
    assert_eq!(recipient_balance, 250_040);
    assert_eq!(
        ctx.token_vault,
        TokenVault { nft_mint: id(12), token_amount: 0, is_locked: false, owner: id(10) }
    );
    assert_eq!(ctx.owner, id(10));
}

#[test]
fn second_unlock_is_refused_and_changes_nothing() {
    let mut ctx = UnlockTokens {
        owner: id(10),
        token_vault: TokenVault::create(id(12), 250_000, id(10)),
    };
    assert_eq!(unlock_tokens(&mut ctx), Ok(250_000));
    let before = ctx;
    assert_eq!(unlock_tokens(&mut ctx), Err(ErrorCode::TokensAlreadyUnlocked));
    assert_eq!(ctx, before);
}

#[test]
fn unlock_by_another_identity_is_refused() {
    let vault = TokenVault::create(id(12), 250_000, id(10));
    let mut ctx = UnlockTokens { owner: id(13), token_vault: vault };
    let before = ctx;
    assert_eq!(unlock_tokens(&mut ctx), Err(ErrorCode::UnauthorizedUnlock));
    assert_eq!(ctx, before);
    let mut unlocked = UnlockTokens { owner: id(10), token_vault: vault };
    assert_eq!(unlock_tokens(&mut unlocked), Ok(250_000));
    let mut ctx = UnlockTokens { owner: id(13), token_vault: unlocked.token_vault };
    let before = ctx;
    assert_eq!(unlock_tokens(&mut ctx), Err(ErrorCode::UnauthorizedUnlock));
    assert_eq!(ctx, before);
}

#[test]
fn minted_vault_unlocks_for_the_payer() {
    let mut mint = request(pass_holder(), 0, 0);
    assert_eq!(mint_nft(&mut mint, 2), Ok(MintInstructions { payment: None, reward: 1_000_000 }));
    let mut ctx = UnlockTokens { owner: mint.payer, token_vault: mint.token_vault };
    assert_eq!(unlock_tokens(&mut ctx), Ok(1_000_000));
    assert_eq!(ctx.token_vault.token_amount, 0);
    assert!(!ctx.token_vault.is_locked);
}
