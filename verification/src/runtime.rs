//! Whole-instruction drivers: each runs one mint-affecting instruction
//! against the record store and the model ledger as a single atomic
//! transition. Either every validation passes and every effect commits, or a
//! specific failure is returned and nothing — no record, no balance — has
//! changed. The value transfer always happens before the reward mint, and if
//! the transfer fails the mint does not occur.

use vstd::prelude::*;

use crate::authority::{check_mint_authority, derivable, derived_addr};
use crate::bank::{lamports_of, mint_fails, spec_transfer, token_balance_of, transfer_fails, Bank};
use crate::errors::{CharityError, InstructionError};
use crate::records::NftInfoV;
use crate::state::{has_nft, MintNft, MintReward, ProgramState, PurchaseNft, StateV};
use crate::validate::{check_nft_metadata, nft_metadata_ok, reward_for, valid_tier};

verus! {

/// Runs a tiered purchase to completion: validates the price tier against
/// the payer's ledger balance and the presented authority, then transfers
/// the full price to the charity wallet and mints the proportional reward,
/// all or nothing.
pub fn run_purchase_nft(
    state: &ProgramState,
    bank: &mut Bank,
    accounts: &PurchaseNft,
    price_lamports: u64,
) -> (r: Result<(), InstructionError>)
    requires
        old(bank).wf(),
    ensures
        final(bank).wf(),
        r is Err ==> final(bank)@ == old(bank)@,
        !valid_tier(price_lamports) ==> r == Err::<(), _>(
            InstructionError::Charity(CharityError::InvalidPriceTier),
        ),
        valid_tier(price_lamports) && lamports_of(old(bank)@.lamports, accounts.buyer@)
            < price_lamports ==> r == Err::<(), _>(
            InstructionError::Charity(CharityError::InsufficientFunds),
        ),
        valid_tier(price_lamports) && lamports_of(old(bank)@.lamports, accounts.buyer@)
            >= price_lamports && !derivable(state@.program_id) ==> r == Err::<(), _>(
            InstructionError::AuthorityNotDerivable,
        ),
        valid_tier(price_lamports) && lamports_of(old(bank)@.lamports, accounts.buyer@)
            >= price_lamports && derivable(state@.program_id) && derived_addr(state@.program_id)
            != accounts.mint_authority@ ==> r == Err::<(), _>(InstructionError::AuthorityMismatch),
        valid_tier(price_lamports) && lamports_of(old(bank)@.lamports, accounts.buyer@)
            >= price_lamports && derivable(state@.program_id) && derived_addr(state@.program_id)
            == accounts.mint_authority@ ==> {
            &&& transfer_fails(old(bank)@, accounts.buyer@, accounts.charity_wallet@, price_lamports)
                ==> r == Err::<(), _>(InstructionError::Charity(CharityError::TransferFailed))
            &&& !transfer_fails(
                old(bank)@,
                accounts.buyer@,
                accounts.charity_wallet@,
                price_lamports,
            ) && token_balance_of(old(bank)@.tokens, accounts.reward_mint@, accounts.buyer_reward_account@)
                + reward_for(price_lamports) > u64::MAX ==> r == Err::<(), _>(
                InstructionError::Charity(CharityError::RewardMintFailed),
            )
            &&& !transfer_fails(
                old(bank)@,
                accounts.buyer@,
                accounts.charity_wallet@,
                price_lamports,
            ) && token_balance_of(old(bank)@.tokens, accounts.reward_mint@, accounts.buyer_reward_account@)
                + reward_for(price_lamports) <= u64::MAX ==> {
                &&& r == Ok::<(), InstructionError>(())
                &&& forall|k: Seq<u8>|
                    lamports_of(final(bank)@.lamports, k) == spec_transfer(
                        old(bank)@,
                        accounts.buyer@,
                        accounts.charity_wallet@,
                        price_lamports,
                        k,
                    )
                &&& forall|m: Seq<u8>, a: Seq<u8>|
                    token_balance_of(final(bank)@.tokens, m, a) == if m == accounts.reward_mint@
                        && a == accounts.buyer_reward_account@ {
                        (token_balance_of(old(bank)@.tokens, m, a) + reward_for(
                            price_lamports,
                        )) as u64
                    } else {
                        token_balance_of(old(bank)@.tokens, m, a)
                    }
            }
        },
{
    let buyer_lamports = bank.lamports_balance(&accounts.buyer);
    let calls = match state.purchase_nft(accounts, buyer_lamports, price_lamports) {
        Ok(calls) => calls,
        Err(e) => {
            return Err(e);
        },
    };
    // Check both collaborator calls before performing either, so a failed
    // instruction leaves every balance unchanged.
    let charity_lamports = bank.lamports_balance(&accounts.charity_wallet);
    if !accounts.buyer.equals(&accounts.charity_wallet) && charity_lamports > u64::MAX
        - price_lamports {
        return Err(InstructionError::Charity(CharityError::TransferFailed));
    }
    let reward_balance = bank.token_balance(&accounts.reward_mint, &accounts.buyer_reward_account);
    if reward_balance > u64::MAX - calls.1.amount {
        return Err(InstructionError::Charity(CharityError::RewardMintFailed));
    }
    match bank.transfer(&calls.0) {
        Ok(_) => {},
        Err(_) => {
            proof {
                assert(false);
            }
            return Err(InstructionError::Charity(CharityError::TransferFailed));
        },
    }
    match bank.mint_to(&calls.1) {
        Ok(_) => Ok(()),
        Err(_) => {
            proof {
                assert(false);
            }
            Err(InstructionError::Charity(CharityError::RewardMintFailed))
        },
    }
}

/// Runs an arbitrary reward mint to completion: validates the presented
/// authority, then mints the caller-supplied amount to the target account.
pub fn run_mint_reward(
    state: &ProgramState,
    bank: &mut Bank,
    accounts: &MintReward,
    amount: u64,
) -> (r: Result<(), InstructionError>)
    requires
        old(bank).wf(),
    ensures
        final(bank).wf(),
        r is Err ==> final(bank)@ == old(bank)@,
        !derivable(state@.program_id) ==> r == Err::<(), _>(
            InstructionError::AuthorityNotDerivable,
        ),
        derivable(state@.program_id) && derived_addr(state@.program_id)
            != accounts.mint_authority@ ==> r == Err::<(), _>(InstructionError::AuthorityMismatch),
        derivable(state@.program_id) && derived_addr(state@.program_id)
            == accounts.mint_authority@ ==> {
            &&& mint_fails(old(bank)@, accounts.mint@, accounts.token_account@, amount) ==> r
                == Err::<(), _>(InstructionError::Charity(CharityError::RewardMintFailed))
            &&& !mint_fails(old(bank)@, accounts.mint@, accounts.token_account@, amount) ==> {
                &&& r == Ok::<(), InstructionError>(())
                &&& final(bank)@.lamports == old(bank)@.lamports
                &&& forall|m: Seq<u8>, a: Seq<u8>|
                    token_balance_of(final(bank)@.tokens, m, a) == if m == accounts.mint@ && a
                        == accounts.token_account@ {
                        (token_balance_of(old(bank)@.tokens, m, a) + amount) as u64
                    } else {
                        token_balance_of(old(bank)@.tokens, m, a)
                    }
            }
        },
{
    let call = match state.mint_reward(accounts, amount) {
        Ok(call) => call,
        Err(e) => {
            return Err(e);
        },
    };
    match bank.mint_to(&call) {
        Ok(_) => Ok(()),
        Err(e) => Err(InstructionError::Charity(e)),
    }
}

/// Runs a unique-asset mint to completion: validates metadata, exclusive
/// creation and the presented authority, then writes the asset descriptor
/// and mints exactly one unit, all or nothing.
pub fn run_mint_nft(
    state: &mut ProgramState,
    bank: &mut Bank,
    accounts: &MintNft,
    name: String,
    symbol: String,
    uri: String,
) -> (r: Result<(), InstructionError>)
    requires
        old(state).wf(),
        old(bank).wf(),
    ensures
        final(state).wf(),
        final(bank).wf(),
        r is Err ==> final(state)@ == old(state)@ && final(bank)@ == old(bank)@,
        !nft_metadata_ok(name@, symbol@) ==> r == Err::<(), _>(
            InstructionError::Charity(CharityError::InvalidNftMetadata),
        ),
        nft_metadata_ok(name@, symbol@) && has_nft(old(state)@.nfts, accounts.mint@) ==> r
            == Err::<(), _>(InstructionError::AccountAlreadyInUse),
        nft_metadata_ok(name@, symbol@) && !has_nft(old(state)@.nfts, accounts.mint@)
            && !derivable(old(state)@.program_id) ==> r == Err::<(), _>(
            InstructionError::AuthorityNotDerivable,
        ),
        nft_metadata_ok(name@, symbol@) && !has_nft(old(state)@.nfts, accounts.mint@)
            && derivable(old(state)@.program_id) && derived_addr(old(state)@.program_id)
            != accounts.mint_authority@ ==> r == Err::<(), _>(InstructionError::AuthorityMismatch),
        nft_metadata_ok(name@, symbol@) && !has_nft(old(state)@.nfts, accounts.mint@)
            && derivable(old(state)@.program_id) && derived_addr(old(state)@.program_id)
            == accounts.mint_authority@ ==> {
            &&& mint_fails(old(bank)@, accounts.mint@, accounts.token_account@, 1u64) ==> r
                == Err::<(), _>(InstructionError::Charity(CharityError::RewardMintFailed))
            &&& !mint_fails(old(bank)@, accounts.mint@, accounts.token_account@, 1u64) ==> {
                &&& r == Ok::<(), InstructionError>(())
                &&& final(state)@ == (StateV {
                    nfts: old(state)@.nfts.push(
                        NftInfoV {
                            name: name@,
                            symbol: symbol@,
                            uri: uri@,
                            mint: accounts.mint@,
                            collection: accounts.collection_mint@,
                            owner: accounts.authority@,
                        },
                    ),
                    ..old(state)@
                })
                &&& final(bank)@.lamports == old(bank)@.lamports
                &&& forall|m: Seq<u8>, a: Seq<u8>|
                    token_balance_of(final(bank)@.tokens, m, a) == if m == accounts.mint@ && a
                        == accounts.token_account@ {
                        (token_balance_of(old(bank)@.tokens, m, a) + 1) as u64
                    } else {
                        token_balance_of(old(bank)@.tokens, m, a)
                    }
            }
        },
{
    // Check every validation and both collaborator calls before committing
    // anything, so a failed instruction writes no record and mints nothing.
    if !check_nft_metadata(&name, &symbol) {
        return Err(InstructionError::Charity(CharityError::InvalidNftMetadata));
    }
    if state.has_nft_record(&accounts.mint) {
        return Err(InstructionError::AccountAlreadyInUse);
    }
    match check_mint_authority(&state.program_id, &accounts.mint_authority) {
        Ok(_) => {},
        Err(e) => {
            return Err(e);
        },
    }
    let balance = bank.token_balance(&accounts.mint, &accounts.token_account);
    if balance == u64::MAX {
        return Err(InstructionError::Charity(CharityError::RewardMintFailed));
    }
    let call = match state.mint_nft(accounts, name, symbol, uri) {
        Ok(call) => call,
        Err(_) => {
            proof {
                assert(false);
            }
            return Err(InstructionError::Charity(CharityError::RewardMintFailed));
        },
    };
    match bank.mint_to(&call) {
        Ok(_) => Ok(()),
        Err(_) => {
            proof {
                assert(false);
            }
            Err(InstructionError::Charity(CharityError::RewardMintFailed))
        },
    }
}

} // verus!
