//! The record store and the six instruction handlers.
//!
//! A [`ProgramState`] holds the program's identity and every record the
//! program has created: the one-shot configuration and the token, collection
//! and asset descriptors, each keyed by its mint identity with
//! exclusive-create semantics. Handlers validate their inputs, then either
//! write at most one record and decide the external calls that must follow,
//! or reject with a specific failure kind and change nothing.

use vstd::prelude::*;

use crate::authority::{check_mint_authority, derivable, derived_addr, derived_bump};
use crate::effects::{MintToCall, MintToCallV, TransferCall, TransferCallV};
use crate::errors::{CharityError, InstructionError};
use crate::keys::Pubkey;
use crate::records::{
    CharityData, CharityDataV, CollectionInfo, CollectionInfoV, NftInfo, NftInfoV, TokenInfo,
    TokenInfoV,
};
use crate::validate::{
    check_collection_fee, check_nft_metadata, check_token_params, collection_fee_ok,
    compute_reward, is_valid_tier, nft_metadata_ok, reward_for, token_params_ok, valid_tier,
};

verus! {

/// Whether a token descriptor for the mint exists.
pub open spec fn has_token(tokens: Seq<TokenInfoV>, mint: Seq<u8>) -> bool {
    exists|i: int| 0 <= i < tokens.len() && tokens[i].mint == mint
}

/// The token descriptor for the mint (meaningful only when present).
pub open spec fn token_at(tokens: Seq<TokenInfoV>, mint: Seq<u8>) -> TokenInfoV {
    tokens[choose|i: int| 0 <= i < tokens.len() && tokens[i].mint == mint]
}

/// Whether a collection descriptor for the mint exists.
pub open spec fn has_collection(collections: Seq<CollectionInfoV>, mint: Seq<u8>) -> bool {
    exists|i: int| 0 <= i < collections.len() && collections[i].mint == mint
}

/// The collection descriptor for the mint (meaningful only when present).
pub open spec fn collection_at(collections: Seq<CollectionInfoV>, mint: Seq<u8>) -> CollectionInfoV {
    collections[choose|i: int| 0 <= i < collections.len() && collections[i].mint == mint]
}

/// Whether an asset descriptor for the mint exists.
pub open spec fn has_nft(nfts: Seq<NftInfoV>, mint: Seq<u8>) -> bool {
    exists|i: int| 0 <= i < nfts.len() && nfts[i].mint == mint
}

/// The asset descriptor for the mint (meaningful only when present).
pub open spec fn nft_at(nfts: Seq<NftInfoV>, mint: Seq<u8>) -> NftInfoV {
    nfts[choose|i: int| 0 <= i < nfts.len() && nfts[i].mint == mint]
}

/// At most one token descriptor per mint.
pub open spec fn distinct_token_mints(tokens: Seq<TokenInfoV>) -> bool {
    forall|i: int, j: int| 0 <= i < j < tokens.len() ==> tokens[i].mint != tokens[j].mint
}

/// At most one collection descriptor per mint.
pub open spec fn distinct_collection_mints(collections: Seq<CollectionInfoV>) -> bool {
    forall|i: int, j: int|
        0 <= i < j < collections.len() ==> collections[i].mint != collections[j].mint
}

/// At most one asset descriptor per mint.
pub open spec fn distinct_nft_mints(nfts: Seq<NftInfoV>) -> bool {
    forall|i: int, j: int| 0 <= i < j < nfts.len() ==> nfts[i].mint != nfts[j].mint
}

/// Everything the program has ever written: its identity and the records it
/// exclusively owns.
pub struct ProgramState {
    pub program_id: Pubkey,
    pub charity_data: Option<CharityData>,
    pub tokens: Vec<TokenInfo>,
    pub collections: Vec<CollectionInfo>,
    pub nfts: Vec<NftInfo>,
}

/// Mathematical view of [`ProgramState`].
#[verifier::ext_equal]
pub struct StateV {
    pub program_id: Seq<u8>,
    pub charity_data: Option<CharityDataV>,
    pub tokens: Seq<TokenInfoV>,
    pub collections: Seq<CollectionInfoV>,
    pub nfts: Seq<NftInfoV>,
}

impl View for ProgramState {
    type V = StateV;

    open spec fn view(&self) -> StateV {
        StateV {
            program_id: self.program_id@,
            charity_data: match self.charity_data {
                Some(c) => Some(c@),
                None => None,
            },
            tokens: self.tokens@.map_values(|t: TokenInfo| t@),
            collections: self.collections@.map_values(|c: CollectionInfo| c@),
            nfts: self.nfts@.map_values(|n: NftInfo| n@),
        }
    }
}

/// Caller-presented accounts for the initialize operation.
pub struct Initialize {
    pub authority: Pubkey,
    pub reward_mint: Pubkey,
}

/// Caller-presented accounts for a tiered purchase.
pub struct PurchaseNft {
    pub buyer: Pubkey,
    pub charity_wallet: Pubkey,
    pub reward_mint: Pubkey,
    pub buyer_reward_account: Pubkey,
    pub mint_authority: Pubkey,
}

/// Caller-presented accounts for registering a token descriptor.
pub struct InitializeToken {
    pub authority: Pubkey,
    pub mint: Pubkey,
}

/// Caller-presented accounts for minting reward tokens.
pub struct MintReward {
    pub authority: Pubkey,
    pub mint: Pubkey,
    pub token_account: Pubkey,
    pub mint_authority: Pubkey,
}

/// Caller-presented accounts for registering a collection descriptor.
pub struct CreateNftCollection {
    pub authority: Pubkey,
    pub mint: Pubkey,
}

/// Caller-presented accounts for minting one unique asset.
pub struct MintNft {
    pub authority: Pubkey,
    pub mint: Pubkey,
    pub token_account: Pubkey,
    pub collection_mint: Pubkey,
    pub mint_authority: Pubkey,
}

impl ProgramState {
    /// Descriptor keys are unique: the record store enforces exclusive
    /// creation, so at most one descriptor exists per mint.
    pub open spec fn wf(&self) -> bool {
        &&& distinct_token_mints(self@.tokens)
        &&& distinct_collection_mints(self@.collections)
        &&& distinct_nft_mints(self@.nfts)
    }

    /// A fresh deployment: no record exists yet.
    pub fn new(program_id: Pubkey) -> (r: ProgramState)
        ensures
            r.wf(),
            r@.program_id == program_id@,
            r@.charity_data is None,
            r@.tokens.len() == 0,
            r@.collections.len() == 0,
            r@.nfts.len() == 0,
    {
        let r = ProgramState {
            program_id,
            charity_data: None,
            tokens: Vec::new(),
            collections: Vec::new(),
            nfts: Vec::new(),
        };
        proof {
            assert(r@.tokens =~= Seq::<TokenInfoV>::empty());
            assert(r@.collections =~= Seq::<CollectionInfoV>::empty());
            assert(r@.nfts =~= Seq::<NftInfoV>::empty());
        }
        r
    }

    /// The program configuration, if initialized.
    pub fn get_charity_data(&self) -> (r: Option<&CharityData>)
        ensures
            match r {
                Some(c) => self@.charity_data == Some(c@),
                None => self@.charity_data is None,
            },
    {
        self.charity_data.as_ref()
    }

    fn find_token_index(&self, mint: &Pubkey) -> (r: Option<usize>)
        ensures
            match r {
                Some(i) => i < self@.tokens.len() && self@.tokens[i as int].mint == mint@,
                None => !has_token(self@.tokens, mint@),
            },
    {
        let mut i: usize = 0;
        while i < self.tokens.len()
            invariant
                i <= self.tokens.len(),
                self@.tokens.len() == self.tokens.len(),
                forall|j: int| 0 <= j < i ==> self@.tokens[j].mint != mint@,
            decreases self.tokens.len() - i,
        {
            assert(self@.tokens[i as int] == self.tokens@[i as int]@);
            if self.tokens[i].mint.equals(mint) {
                return Some(i);
            }
            i = i + 1;
        }
        None
    }

    fn find_collection_index(&self, mint: &Pubkey) -> (r: Option<usize>)
        ensures
            match r {
                Some(i) => i < self@.collections.len() && self@.collections[i as int].mint
                    == mint@,
                None => !has_collection(self@.collections, mint@),
            },
    {
        let mut i: usize = 0;
        while i < self.collections.len()
            invariant
                i <= self.collections.len(),
                self@.collections.len() == self.collections.len(),
                forall|j: int| 0 <= j < i ==> self@.collections[j].mint != mint@,
            decreases self.collections.len() - i,
        {
            assert(self@.collections[i as int] == self.collections@[i as int]@);
            if self.collections[i].mint.equals(mint) {
                return Some(i);
            }
            i = i + 1;
        }
        None
    }

    fn find_nft_index(&self, mint: &Pubkey) -> (r: Option<usize>)
        ensures
            match r {
                Some(i) => i < self@.nfts.len() && self@.nfts[i as int].mint == mint@,
                None => !has_nft(self@.nfts, mint@),
            },
    {
        let mut i: usize = 0;
        while i < self.nfts.len()
            invariant
                i <= self.nfts.len(),
                self@.nfts.len() == self.nfts.len(),
                forall|j: int| 0 <= j < i ==> self@.nfts[j].mint != mint@,
            decreases self.nfts.len() - i,
        {
            assert(self@.nfts[i as int] == self.nfts@[i as int]@);
            if self.nfts[i].mint.equals(mint) {
                return Some(i);
            }
            i = i + 1;
        }
        None
    }

    /// Whether a token descriptor exists for the mint.
    pub fn has_token_record(&self, mint: &Pubkey) -> (r: bool)
        ensures
            r == has_token(self@.tokens, mint@),
    {
        self.find_token_index(mint).is_some()
    }

    /// Whether a collection descriptor exists for the mint.
    pub fn has_collection_record(&self, mint: &Pubkey) -> (r: bool)
        ensures
            r == has_collection(self@.collections, mint@),
    {
        self.find_collection_index(mint).is_some()
    }

    /// Whether an asset descriptor exists for the mint.
    pub fn has_nft_record(&self, mint: &Pubkey) -> (r: bool)
        ensures
            r == has_nft(self@.nfts, mint@),
    {
        self.find_nft_index(mint).is_some()
    }

    /// The token descriptor for the mint, if registered.
    pub fn get_token_info(&self, mint: &Pubkey) -> (r: Option<&TokenInfo>)
        requires
            self.wf(),
        ensures
            match r {
                Some(t) => has_token(self@.tokens, mint@) && t@ == token_at(self@.tokens, mint@),
                None => !has_token(self@.tokens, mint@),
            },
    {
        match self.find_token_index(mint) {
            Some(i) => {
                proof {
                    let k = choose|k: int|
                        0 <= k < self@.tokens.len() && self@.tokens[k].mint == mint@;
                    assert(self@.tokens[i as int].mint == mint@);
                    assert(k == i as int);
                    assert(self@.tokens[i as int] == self.tokens@[i as int]@);
                }
                Some(&self.tokens[i])
            },
            None => None,
        }
    }

    /// The collection descriptor for the mint, if registered.
    pub fn get_collection_info(&self, mint: &Pubkey) -> (r: Option<&CollectionInfo>)
        requires
            self.wf(),
        ensures
            match r {
                Some(c) => has_collection(self@.collections, mint@) && c@ == collection_at(
                    self@.collections,
                    mint@,
                ),
                None => !has_collection(self@.collections, mint@),
            },
    {
        match self.find_collection_index(mint) {
            Some(i) => {
                proof {
                    let k = choose|k: int|
                        0 <= k < self@.collections.len() && self@.collections[k].mint == mint@;
                    assert(self@.collections[i as int].mint == mint@);
                    assert(k == i as int);
                    assert(self@.collections[i as int] == self.collections@[i as int]@);
                }
                Some(&self.collections[i])
            },
            None => None,
        }
    }

    /// The asset descriptor for the mint, if created.
    pub fn get_nft_info(&self, mint: &Pubkey) -> (r: Option<&NftInfo>)
        requires
            self.wf(),
        ensures
            match r {
                Some(n) => has_nft(self@.nfts, mint@) && n@ == nft_at(self@.nfts, mint@),
                None => !has_nft(self@.nfts, mint@),
            },
    {
        match self.find_nft_index(mint) {
            Some(i) => {
                proof {
                    let k = choose|k: int| 0 <= k < self@.nfts.len() && self@.nfts[k].mint == mint@;
                    assert(self@.nfts[i as int].mint == mint@);
                    assert(k == i as int);
                    assert(self@.nfts[i as int] == self.nfts@[i as int]@);
                }
                Some(&self.nfts[i])
            },
            None => None,
        }
    }

    /// Creates the program configuration. Fails if it already exists; the
    /// decimals and rate are set once and never mutated by this core.
    pub fn initialize(
        &mut self,
        accounts: &Initialize,
        reward_decimals: u8,
        reward_rate: u64,
    ) -> (r: Result<(), InstructionError>)
        requires
            old(self).wf(),
        ensures
            final(self).wf(),
            old(self)@.charity_data is Some ==> r == Err::<(), _>(
                InstructionError::AccountAlreadyInUse,
            ) && final(self)@ == old(self)@,
            old(self)@.charity_data is None ==> r == Ok::<(), InstructionError>(()) && final(self)@ == (StateV {
                charity_data: Some(
                    CharityDataV {
                        authority: accounts.authority@,
                        reward_mint: accounts.reward_mint@,
                        reward_decimals,
                        reward_rate,
                    },
                ),
                ..old(self)@
            }),
    {
        if self.charity_data.is_some() {
            return Err(InstructionError::AccountAlreadyInUse);
        }
        self.charity_data = Some(
            CharityData {
                authority: accounts.authority,
                reward_mint: accounts.reward_mint,
                reward_decimals,
                reward_rate,
            },
        );
        Ok(())
    }

    /// Decides a tiered purchase: the price must be one of the four tiers and
    /// within the payer's spendable balance, and the presented mint authority
    /// must match the derivation. On success the instruction owes exactly one
    /// transfer of the full price to the charity wallet, followed by one mint
    /// of the proportional reward to the payer's reward account.
    pub fn purchase_nft(
        &self,
        accounts: &PurchaseNft,
        buyer_lamports: u64,
        price_lamports: u64,
    ) -> (r: Result<(TransferCall, MintToCall), InstructionError>)
        ensures
            !valid_tier(price_lamports) ==> r == Err::<(TransferCall, MintToCall), _>(
                InstructionError::Charity(CharityError::InvalidPriceTier),
            ),
            valid_tier(price_lamports) && buyer_lamports < price_lamports ==> r == Err::<
                (TransferCall, MintToCall),
                _,
            >(InstructionError::Charity(CharityError::InsufficientFunds)),
            valid_tier(price_lamports) && buyer_lamports >= price_lamports && !derivable(
                self@.program_id,
            ) ==> r == Err::<(TransferCall, MintToCall), _>(
                InstructionError::AuthorityNotDerivable,
            ),
            valid_tier(price_lamports) && buyer_lamports >= price_lamports && derivable(
                self@.program_id,
            ) && derived_addr(self@.program_id) != accounts.mint_authority@ ==> r == Err::<
                (TransferCall, MintToCall),
                _,
            >(InstructionError::AuthorityMismatch),
            valid_tier(price_lamports) && buyer_lamports >= price_lamports && derivable(
                self@.program_id,
            ) && derived_addr(self@.program_id) == accounts.mint_authority@ ==> (match r {
                Ok(calls) => calls.0@ == (TransferCallV {
                    from: accounts.buyer@,
                    to: accounts.charity_wallet@,
                    lamports: price_lamports,
                }) && calls.1@ == (MintToCallV {
                    mint: accounts.reward_mint@,
                    to: accounts.buyer_reward_account@,
                    authority: accounts.mint_authority@,
                    authority_bump: derived_bump(self@.program_id),
                    amount: calls.1.amount,
                }) && calls.1.amount == reward_for(price_lamports),
                Err(_) => false,
            }),
    {
        if !is_valid_tier(price_lamports) {
            return Err(InstructionError::Charity(CharityError::InvalidPriceTier));
        }
        if buyer_lamports < price_lamports {
            return Err(InstructionError::Charity(CharityError::InsufficientFunds));
        }
        let bump = match check_mint_authority(&self.program_id, &accounts.mint_authority) {
            Ok(bump) => bump,
            Err(e) => {
                return Err(e);
            },
        };
        let reward_amount = compute_reward(price_lamports);
        Ok(
            (
                TransferCall {
                    from: accounts.buyer,
                    to: accounts.charity_wallet,
                    lamports: price_lamports,
                },
                MintToCall {
                    mint: accounts.reward_mint,
                    to: accounts.buyer_reward_account,
                    authority: accounts.mint_authority,
                    authority_bump: bump,
                    amount: reward_amount,
                },
            ),
        )
    }

    /// Registers a token descriptor: fields must be within bounds and no
    /// descriptor may exist for the mint yet. The stored record carries the
    /// validated inputs unchanged.
    pub fn initialize_token(
        &mut self,
        accounts: &InitializeToken,
        name: String,
        symbol: String,
        decimals: u8,
    ) -> (r: Result<(), InstructionError>)
        requires
            old(self).wf(),
        ensures
            final(self).wf(),
            !token_params_ok(name@, symbol@, decimals) ==> r == Err::<(), _>(
                InstructionError::Charity(CharityError::InvalidTokenParams),
            ) && final(self)@ == old(self)@,
            token_params_ok(name@, symbol@, decimals) && has_token(
                old(self)@.tokens,
                accounts.mint@,
            ) ==> r == Err::<(), _>(InstructionError::AccountAlreadyInUse) && final(self)@ == old(self)@,
            token_params_ok(name@, symbol@, decimals) && !has_token(
                old(self)@.tokens,
                accounts.mint@,
            ) ==> r == Ok::<(), InstructionError>(()) && final(self)@ == (StateV {
                tokens: old(self)@.tokens.push(
                    TokenInfoV {
                        name: name@,
                        symbol: symbol@,
                        decimals,
                        mint: accounts.mint@,
                        authority: accounts.authority@,
                    },
                ),
                ..old(self)@
            }),
    {
        if !check_token_params(&name, &symbol, decimals) {
            return Err(InstructionError::Charity(CharityError::InvalidTokenParams));
        }
        if self.has_token_record(&accounts.mint) {
            return Err(InstructionError::AccountAlreadyInUse);
        }
        let ghost pre = self@;
        self.tokens.push(
            TokenInfo { name, symbol, decimals, mint: accounts.mint, authority: accounts.authority },
        );
        proof {
            assert(self@.tokens =~= pre.tokens.push(self.tokens@[pre.tokens.len() as int]@));
            assert(self@ =~= (StateV { tokens: self@.tokens, ..pre }));
        }
        Ok(())
    }

    /// Decides an arbitrary reward mint: the presented mint authority must
    /// match the derivation; the amount is caller-supplied and uncapped in
    /// this core.
    pub fn mint_reward(&self, accounts: &MintReward, amount: u64) -> (r: Result<
        MintToCall,
        InstructionError,
    >)
        ensures
            !derivable(self@.program_id) ==> r == Err::<MintToCall, _>(
                InstructionError::AuthorityNotDerivable,
            ),
            derivable(self@.program_id) && derived_addr(self@.program_id)
                != accounts.mint_authority@ ==> r == Err::<MintToCall, _>(
                InstructionError::AuthorityMismatch,
            ),
            derivable(self@.program_id) && derived_addr(self@.program_id)
                == accounts.mint_authority@ ==> (match r {
                Ok(call) => call@ == (MintToCallV {
                    mint: accounts.mint@,
                    to: accounts.token_account@,
                    authority: accounts.mint_authority@,
                    authority_bump: derived_bump(self@.program_id),
                    amount,
                }),
                Err(_) => false,
            }),
    {
        let bump = match check_mint_authority(&self.program_id, &accounts.mint_authority) {
            Ok(bump) => bump,
            Err(e) => {
                return Err(e);
            },
        };
        Ok(
            MintToCall {
                mint: accounts.mint,
                to: accounts.token_account,
                authority: accounts.mint_authority,
                authority_bump: bump,
                amount,
            },
        )
    }

    /// Registers a collection descriptor: the seller fee must be within
    /// bounds and no descriptor may exist for the mint yet.
    pub fn create_nft_collection(
        &mut self,
        accounts: &CreateNftCollection,
        name: String,
        symbol: String,
        uri: String,
        seller_fee_basis_points: u16,
    ) -> (r: Result<(), InstructionError>)
        requires
            old(self).wf(),
        ensures
            final(self).wf(),
            !collection_fee_ok(seller_fee_basis_points) ==> r == Err::<(), _>(
                InstructionError::Charity(CharityError::InvalidCollectionSize),
            ) && final(self)@ == old(self)@,
            collection_fee_ok(seller_fee_basis_points) && has_collection(
                old(self)@.collections,
                accounts.mint@,
            ) ==> r == Err::<(), _>(InstructionError::AccountAlreadyInUse) && final(self)@ == old(self)@,
            collection_fee_ok(seller_fee_basis_points) && !has_collection(
                old(self)@.collections,
                accounts.mint@,
            ) ==> r == Ok::<(), InstructionError>(()) && final(self)@ == (StateV {
                collections: old(self)@.collections.push(
                    CollectionInfoV {
                        name: name@,
                        symbol: symbol@,
                        uri: uri@,
                        seller_fee_basis_points,
                        mint: accounts.mint@,
                        authority: accounts.authority@,
                    },
                ),
                ..old(self)@
            }),
    {
        if !check_collection_fee(seller_fee_basis_points) {
            return Err(InstructionError::Charity(CharityError::InvalidCollectionSize));
        }
        if self.has_collection_record(&accounts.mint) {
            return Err(InstructionError::AccountAlreadyInUse);
        }
        let ghost pre = self@;
        self.collections.push(
            CollectionInfo {
                name,
                symbol,
                uri,
                seller_fee_basis_points,
                mint: accounts.mint,
                authority: accounts.authority,
            },
        );
        proof {
            assert(self@.collections =~= pre.collections.push(
                self.collections@[pre.collections.len() as int]@,
            ));
            assert(self@ =~= (StateV { collections: self@.collections, ..pre }));
        }
        Ok(())
    }

    /// Creates one unique asset: metadata must be within bounds, no asset
    /// descriptor may exist for the mint yet, and the presented mint
    /// authority must match the derivation. On success the descriptor is
    /// written and the instruction owes exactly one mint of a single unit —
    /// never more, never less — which fixes the asset's supply at one.
    pub fn mint_nft(
        &mut self,
        accounts: &MintNft,
        name: String,
        symbol: String,
        uri: String,
    ) -> (r: Result<MintToCall, InstructionError>)
        requires
            old(self).wf(),
        ensures
            final(self).wf(),
            match r {
                Ok(call) => call.amount == 1,
                Err(_) => true,
            },
            !nft_metadata_ok(name@, symbol@) ==> r == Err::<MintToCall, _>(
                InstructionError::Charity(CharityError::InvalidNftMetadata),
            ) && final(self)@ == old(self)@,
            nft_metadata_ok(name@, symbol@) && has_nft(old(self)@.nfts, accounts.mint@) ==> r
                == Err::<MintToCall, _>(InstructionError::AccountAlreadyInUse) && final(self)@
                == old(self)@,
            nft_metadata_ok(name@, symbol@) && !has_nft(old(self)@.nfts, accounts.mint@)
                && !derivable(old(self)@.program_id) ==> r == Err::<MintToCall, _>(
                InstructionError::AuthorityNotDerivable,
            ) && final(self)@ == old(self)@,
            nft_metadata_ok(name@, symbol@) && !has_nft(old(self)@.nfts, accounts.mint@)
                && derivable(old(self)@.program_id) && derived_addr(old(self)@.program_id)
                != accounts.mint_authority@ ==> r == Err::<MintToCall, _>(
                InstructionError::AuthorityMismatch,
            ) && final(self)@ == old(self)@,
            nft_metadata_ok(name@, symbol@) && !has_nft(old(self)@.nfts, accounts.mint@)
                && derivable(old(self)@.program_id) && derived_addr(old(self)@.program_id)
                == accounts.mint_authority@ ==> (match r {
                Ok(call) => call@ == (MintToCallV {
                    mint: accounts.mint@,
                    to: accounts.token_account@,
                    authority: accounts.mint_authority@,
                    authority_bump: derived_bump(old(self)@.program_id),
                    amount: 1u64,
                }) && final(self)@ == (StateV {
                    nfts: old(self)@.nfts.push(
                        NftInfoV {
                            name: name@,
                            symbol: symbol@,
                            uri: uri@,
                            mint: accounts.mint@,
                            collection: accounts.collection_mint@,
                            owner: accounts.authority@,
                        },
                    ),
                    ..old(self)@
                }),
                Err(_) => false,
            }),
    {
        if !check_nft_metadata(&name, &symbol) {
            return Err(InstructionError::Charity(CharityError::InvalidNftMetadata));
        }
        if self.has_nft_record(&accounts.mint) {
            return Err(InstructionError::AccountAlreadyInUse);
        }
        let bump = match check_mint_authority(&self.program_id, &accounts.mint_authority) {
            Ok(bump) => bump,
            Err(e) => {
                return Err(e);
            },
        };
        let ghost pre = self@;
        self.nfts.push(
            NftInfo {
                name,
                symbol,
                uri,
                mint: accounts.mint,
                collection: accounts.collection_mint,
                owner: accounts.authority,
            },
        );
        proof {
            assert(self@.nfts =~= pre.nfts.push(self.nfts@[pre.nfts.len() as int]@));
            assert(self@ =~= (StateV { nfts: self@.nfts, ..pre }));
        }
        Ok(
            MintToCall {
                mint: accounts.mint,
                to: accounts.token_account,
                authority: accounts.mint_authority,
                authority_bump: bump,
                amount: 1,
            },
        )
    }
}

} // verus!
