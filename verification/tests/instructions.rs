//! Record-creating instructions: configuration, token and collection
//! descriptors, and their validation and replay behaviour.

use charity_program::errors::{CharityError, InstructionError};
use charity_program::keys::Pubkey;
use charity_program::state::{
    CreateNftCollection, Initialize, InitializeToken, MintNft, ProgramState,
};

fn key(b: u8) -> Pubkey {
    Pubkey::new([b; 32])
}

fn fresh_state() -> ProgramState {
    ProgramState::new(key(7))
}

#[test]
fn error_messages_match_the_failure_kinds() {
    assert_eq!(CharityError::InsufficientFunds.message(), "Insufficient funds for NFT purchase");
    assert_eq!(CharityError::InvalidPriceTier.message(), "Invalid NFT price tier");
    assert_eq!(CharityError::TransferFailed.message(), "Failed to transfer SOL");
    assert_eq!(CharityError::RewardMintFailed.message(), "Failed to mint reward tokens");
    assert_eq!(CharityError::InvalidTokenParams.message(), "Invalid token parameters");
    assert_eq!(CharityError::InvalidCollectionSize.message(), "Invalid collection size");
    assert_eq!(CharityError::InvalidNftMetadata.message(), "Invalid NFT metadata");
}

#[test]
fn initialize_config_round_trip() {
    let mut state = fresh_state();
    let accounts = Initialize { authority: key(1), reward_mint: key(2) };
    let r = state.initialize(&accounts, 9, 100);
    assert_eq!(r, Ok(()));
    let config = state.get_charity_data().expect("config must exist");
    assert_eq!(config.reward_decimals, 9);
    assert_eq!(config.reward_rate, 100);
    assert!(config.authority.equals(&key(1)));
    assert!(config.reward_mint.equals(&key(2)));
}

#[test]
fn initialize_rejects_replay() {
    let mut state = fresh_state();
    let accounts = Initialize { authority: key(1), reward_mint: key(2) };
    assert_eq!(state.initialize(&accounts, 9, 100), Ok(()));
    let again = Initialize { authority: key(3), reward_mint: key(4) };
    assert_eq!(state.initialize(&again, 0, 7), Err(InstructionError::AccountAlreadyInUse));
    // the original record is untouched
    let config = state.get_charity_data().expect("config must exist");
    assert_eq!(config.reward_rate, 100);
    assert!(config.authority.equals(&key(1)));
}

#[test]
fn register_token_succeeds_then_rejects_same_mint() {
    let mut state = fresh_state();
    let accounts = InitializeToken { authority: key(1), mint: key(5) };
    let r = state.initialize_token(&accounts, "Reward".to_string(), "RWD".to_string(), 9);
    assert_eq!(r, Ok(()));
    let replay = state.initialize_token(&accounts, "Other".to_string(), "OTH".to_string(), 0);
    assert_eq!(replay, Err(InstructionError::AccountAlreadyInUse));
    // never overwritten
    let info = state.get_token_info(&key(5)).expect("descriptor must exist");
    assert_eq!(info.name, "Reward");
    assert_eq!(info.symbol, "RWD");
    assert_eq!(info.decimals, 9);
}

#[test]
fn register_token_round_trip() {
    let mut state = fresh_state();
    let accounts = InitializeToken { authority: key(1), mint: key(5) };
    let name = "A".repeat(32);
    let symbol = "B".repeat(10);
    assert_eq!(state.initialize_token(&accounts, name.clone(), symbol.clone(), 9), Ok(()));
    let info = state.get_token_info(&key(5)).expect("descriptor must exist");
    assert_eq!(info.name, name);
    assert_eq!(info.symbol, symbol);
    assert_eq!(info.decimals, 9);
    assert!(info.mint.equals(&key(5)));
    assert!(info.authority.equals(&key(1)));
}

#[test]
fn register_token_rejects_out_of_bounds_fields() {
    let mut state = fresh_state();
    let accounts = InitializeToken { authority: key(1), mint: key(5) };
    let bad = Err(InstructionError::Charity(CharityError::InvalidTokenParams));
    assert_eq!(
        state.initialize_token(&accounts, "Reward".to_string(), "RWD".to_string(), 10),
        bad
    );
    assert_eq!(
        state.initialize_token(&accounts, "A".repeat(33), "RWD".to_string(), 9),
        bad
    );
    assert_eq!(
        state.initialize_token(&accounts, "Reward".to_string(), "B".repeat(11), 9),
        bad
    );
    // nothing was written by the rejected attempts
    assert!(state.get_token_info(&key(5)).is_none());
}

#[test]
fn register_tokens_for_distinct_mints() {
    let mut state = fresh_state();
    let first = InitializeToken { authority: key(1), mint: key(5) };
    let second = InitializeToken { authority: key(1), mint: key(6) };
    assert_eq!(state.initialize_token(&first, "One".to_string(), "ONE".to_string(), 0), Ok(()));
    assert_eq!(state.initialize_token(&second, "Two".to_string(), "TWO".to_string(), 2), Ok(()));
    assert_eq!(state.get_token_info(&key(5)).unwrap().name, "One");
    assert_eq!(state.get_token_info(&key(6)).unwrap().name, "Two");
}

#[test]
fn register_collection_fee_bounds() {
    let mut state = fresh_state();
    let accounts = CreateNftCollection { authority: key(1), mint: key(5) };
    let r = state.create_nft_collection(
        &accounts,
        "Col".to_string(),
        "COL".to_string(),
        "uri://col".to_string(),
        10001,
    );
    assert_eq!(r, Err(InstructionError::Charity(CharityError::InvalidCollectionSize)));
    assert!(state.get_collection_info(&key(5)).is_none());
    let r = state.create_nft_collection(
        &accounts,
        "Col".to_string(),
        "COL".to_string(),
        "uri://col".to_string(),
        10000,
    );
    assert_eq!(r, Ok(()));
    let info = state.get_collection_info(&key(5)).expect("descriptor must exist");
    assert_eq!(info.seller_fee_basis_points, 10000);
}

#[test]
fn register_collection_round_trip_and_replay() {
    let mut state = fresh_state();
    let accounts = CreateNftCollection { authority: key(1), mint: key(5) };
    let r = state.create_nft_collection(
        &accounts,
        "Col".to_string(),
        "COL".to_string(),
        "uri://col".to_string(),
        250,
    );
    assert_eq!(r, Ok(()));
    let info = state.get_collection_info(&key(5)).expect("descriptor must exist");
    assert_eq!(info.name, "Col");
    assert_eq!(info.symbol, "COL");
    assert_eq!(info.uri, "uri://col");
    assert_eq!(info.seller_fee_basis_points, 250);
    assert!(info.mint.equals(&key(5)));
    assert!(info.authority.equals(&key(1)));
    let replay = state.create_nft_collection(
        &accounts,
        "Other".to_string(),
        "OTH".to_string(),
        "uri://other".to_string(),
        1,
    );
    assert_eq!(replay, Err(InstructionError::AccountAlreadyInUse));
    assert_eq!(state.get_collection_info(&key(5)).unwrap().name, "Col");
}

#[test]
fn mint_nft_rejects_out_of_bounds_metadata() {
    let mut state = fresh_state();
    let accounts = MintNft {
        authority: key(1),
        mint: key(5),
        token_account: key(6),
        collection_mint: key(8),
        mint_authority: key(9),
    };
    let r = state.mint_nft(&accounts, "A".repeat(33), "NFT".to_string(), "uri://a".to_string());
    assert!(matches!(r, Err(InstructionError::Charity(CharityError::InvalidNftMetadata))));
    let r = state.mint_nft(&accounts, "Asset".to_string(), "B".repeat(11), "uri://a".to_string());
    assert!(matches!(r, Err(InstructionError::Charity(CharityError::InvalidNftMetadata))));
    assert!(state.get_nft_info(&key(5)).is_none());
}
