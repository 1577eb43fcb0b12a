//! Purchases and mint-affecting instructions, run end to end against the
//! model ledger with the real address derivation.

use charity_program::authority::derive_mint_authority;
use charity_program::bank::Bank;
use charity_program::errors::{CharityError, InstructionError};
use charity_program::keys::Pubkey;
use charity_program::runtime::{run_mint_nft, run_mint_reward, run_purchase_nft};
use charity_program::state::{MintNft, MintReward, ProgramState, PurchaseNft};

fn key(b: u8) -> Pubkey {
    Pubkey::new([b; 32])
}

const PROGRAM_ID: u8 = 7;

fn fresh_state() -> ProgramState {
    ProgramState::new(key(PROGRAM_ID))
}

fn mint_authority() -> Pubkey {
    let (addr, _bump) = derive_mint_authority(&key(PROGRAM_ID)).expect("derivation must succeed");
    addr
}

fn purchase_accounts(authority: Pubkey) -> PurchaseNft {
    PurchaseNft {
        buyer: key(1),
        charity_wallet: key(2),
        reward_mint: key(3),
        buyer_reward_account: key(4),
        mint_authority: authority,
    }
}

#[test]
fn derivation_is_deterministic_and_checked() {
    let first = derive_mint_authority(&key(PROGRAM_ID)).expect("derivation must succeed");
    let second = derive_mint_authority(&key(PROGRAM_ID)).expect("derivation must succeed");
    assert!(first.0.equals(&second.0));
    assert_eq!(first.1, second.1);
    // the derived address is a genuinely different key, not an echo of the
    // program identity
    assert!(!first.0.equals(&key(PROGRAM_ID)));
    // an authority derived for another program identity is rejected
    let other = derive_mint_authority(&key(99)).expect("derivation must succeed");
    let state = fresh_state();
    let accounts = purchase_accounts(other.0);
    let r = state.purchase_nft(&accounts, 5_000_000_000, 1_000_000_000);
    assert!(matches!(r, Err(InstructionError::AuthorityMismatch)));
}

#[test]
fn purchase_rejects_invalid_tier_regardless_of_balance() {
    let state = fresh_state();
    let accounts = purchase_accounts(mint_authority());
    for price in [0u64, 1, 999_999_999, 1_500_000_000, 3_499_999_999, u64::MAX] {
        for balance in [0u64, u64::MAX] {
            let r = state.purchase_nft(&accounts, balance, price);
            assert!(matches!(
                r,
                Err(InstructionError::Charity(CharityError::InvalidPriceTier))
            ));
        }
    }
}

#[test]
fn purchase_rejects_insufficient_funds_before_any_effect() {
    let state = fresh_state();
    let accounts = purchase_accounts(mint_authority());
    let mut bank = Bank::new();
    bank.set_lamports(&accounts.buyer, 1_999_999_999);
    let r = run_purchase_nft(&state, &mut bank, &accounts, 2_000_000_000);
    assert!(matches!(r, Err(InstructionError::Charity(CharityError::InsufficientFunds))));
    // no transfer and no mint occurred
    assert_eq!(bank.lamports_balance(&accounts.buyer), 1_999_999_999);
    assert_eq!(bank.lamports_balance(&accounts.charity_wallet), 0);
    assert_eq!(bank.token_balance(&accounts.reward_mint, &accounts.buyer_reward_account), 0);
}

#[test]
fn purchase_with_exact_balance_transfers_all_and_mints_reward() {
    let state = fresh_state();
    let accounts = purchase_accounts(mint_authority());
    let mut bank = Bank::new();
    bank.set_lamports(&accounts.buyer, 2_000_000_000);
    let r = run_purchase_nft(&state, &mut bank, &accounts, 2_000_000_000);
    assert_eq!(r, Ok(()));
    assert_eq!(bank.lamports_balance(&accounts.buyer), 0);
    assert_eq!(bank.lamports_balance(&accounts.charity_wallet), 2_000_000_000);
    assert_eq!(
        bank.token_balance(&accounts.reward_mint, &accounts.buyer_reward_account),
        20_000_000_000
    );
}

#[test]
fn purchase_reward_follows_truncating_formula() {
    let state = fresh_state();
    let accounts = purchase_accounts(mint_authority());
    // one whole unit pays ten whole reward tokens in nine-decimal base units
    let calls = state
        .purchase_nft(&accounts, 1_000_000_000, 1_000_000_000)
        .expect("tier purchase must succeed");
    assert_eq!(calls.1.amount, 10_000_000_000);
    // the 3.5-unit tier truncates to three whole units' worth
    let calls = state
        .purchase_nft(&accounts, 3_500_000_000, 3_500_000_000)
        .expect("tier purchase must succeed");
    assert_eq!(calls.1.amount, 30_000_000_000);
    // and the transfer always carries the full price
    assert_eq!(calls.0.lamports, 3_500_000_000);
    assert!(calls.0.from.equals(&accounts.buyer));
    assert!(calls.0.to.equals(&accounts.charity_wallet));
    let calls = state
        .purchase_nft(&accounts, 5_000_000_000, 5_000_000_000)
        .expect("tier purchase must succeed");
    assert_eq!(calls.1.amount, 50_000_000_000);
}

#[test]
fn purchase_fails_when_charity_wallet_cannot_take_the_amount() {
    let state = fresh_state();
    let accounts = purchase_accounts(mint_authority());
    let mut bank = Bank::new();
    bank.set_lamports(&accounts.buyer, 5_000_000_000);
    bank.set_lamports(&accounts.charity_wallet, u64::MAX);
    let r = run_purchase_nft(&state, &mut bank, &accounts, 5_000_000_000);
    assert!(matches!(r, Err(InstructionError::Charity(CharityError::TransferFailed))));
    // all or nothing: every balance is unchanged
    assert_eq!(bank.lamports_balance(&accounts.buyer), 5_000_000_000);
    assert_eq!(bank.lamports_balance(&accounts.charity_wallet), u64::MAX);
    assert_eq!(bank.token_balance(&accounts.reward_mint, &accounts.buyer_reward_account), 0);
}

#[test]
fn purchase_fails_when_reward_account_cannot_take_the_mint() {
    let state = fresh_state();
    let accounts = purchase_accounts(mint_authority());
    let mut bank = Bank::new();
    bank.set_lamports(&accounts.buyer, 1_000_000_000);
    bank.set_token_balance(&accounts.reward_mint, &accounts.buyer_reward_account, u64::MAX);
    let r = run_purchase_nft(&state, &mut bank, &accounts, 1_000_000_000);
    assert!(matches!(r, Err(InstructionError::Charity(CharityError::RewardMintFailed))));
    // the transfer was not performed either
    assert_eq!(bank.lamports_balance(&accounts.buyer), 1_000_000_000);
    assert_eq!(bank.lamports_balance(&accounts.charity_wallet), 0);
    assert_eq!(
        bank.token_balance(&accounts.reward_mint, &accounts.buyer_reward_account),
        u64::MAX
    );
}

#[test]
fn mint_reward_mints_caller_supplied_amount() {
    let state = fresh_state();
    let accounts = MintReward {
        authority: key(1),
        mint: key(3),
        token_account: key(4),
        mint_authority: mint_authority(),
    };
    let mut bank = Bank::new();
    assert_eq!(run_mint_reward(&state, &mut bank, &accounts, 123), Ok(()));
    assert_eq!(bank.token_balance(&accounts.mint, &accounts.token_account), 123);
    assert_eq!(run_mint_reward(&state, &mut bank, &accounts, 7), Ok(()));
    assert_eq!(bank.token_balance(&accounts.mint, &accounts.token_account), 130);
}

#[test]
fn mint_reward_rejects_wrong_authority() {
    let state = fresh_state();
    let accounts = MintReward {
        authority: key(1),
        mint: key(3),
        token_account: key(4),
        mint_authority: key(9),
    };
    let mut bank = Bank::new();
    let r = run_mint_reward(&state, &mut bank, &accounts, 123);
    assert!(matches!(r, Err(InstructionError::AuthorityMismatch)));
    assert_eq!(bank.token_balance(&accounts.mint, &accounts.token_account), 0);
}

#[test]
fn mint_nft_mints_exactly_one_unit_and_writes_the_record() {
    let mut state = fresh_state();
    let accounts = MintNft {
        authority: key(1),
        mint: key(5),
        token_account: key(6),
        collection_mint: key(8),
        mint_authority: mint_authority(),
    };
    let mut bank = Bank::new();
    let r = run_mint_nft(
        &mut state,
        &mut bank,
        &accounts,
        "Asset".to_string(),
        "AST".to_string(),
        "uri://asset".to_string(),
    );
    assert_eq!(r, Ok(()));
    // supply is fixed at one, whatever else the caller supplied
    assert_eq!(bank.token_balance(&accounts.mint, &accounts.token_account), 1);
    let info = state.get_nft_info(&key(5)).expect("descriptor must exist");
    assert_eq!(info.name, "Asset");
    assert_eq!(info.symbol, "AST");
    assert_eq!(info.uri, "uri://asset");
    assert!(info.mint.equals(&key(5)));
    assert!(info.collection.equals(&key(8)));
    assert!(info.owner.equals(&key(1)));
}

#[test]
fn mint_nft_rejects_replay_for_the_same_mint() {
    let mut state = fresh_state();
    let accounts = MintNft {
        authority: key(1),
        mint: key(5),
        token_account: key(6),
        collection_mint: key(8),
        mint_authority: mint_authority(),
    };
    let mut bank = Bank::new();
    let r = run_mint_nft(
        &mut state,
        &mut bank,
        &accounts,
        "Asset".to_string(),
        "AST".to_string(),
        "uri://asset".to_string(),
    );
    assert_eq!(r, Ok(()));
    let replay = run_mint_nft(
        &mut state,
        &mut bank,
        &accounts,
        "Other".to_string(),
        "OTH".to_string(),
        "uri://other".to_string(),
    );
    assert!(matches!(replay, Err(InstructionError::AccountAlreadyInUse)));
    // the record is never overwritten and no further unit was minted
    assert_eq!(state.get_nft_info(&key(5)).unwrap().name, "Asset");
    assert_eq!(bank.token_balance(&accounts.mint, &accounts.token_account), 1);
}
