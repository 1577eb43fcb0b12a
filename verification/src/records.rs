//! Configuration records: small fixed-shape values created once by a handler
//! and immutable thereafter. Each record has a mathematical view used by the
//! handlers' contracts.

use vstd::prelude::*;

use crate::keys::Pubkey;

verus! {

/// Program configuration, created once by the initialize operation.
#[derive(Clone, Debug)]
pub struct CharityData {
    pub authority: Pubkey,
    pub reward_mint: Pubkey,
    pub reward_decimals: u8,
    pub reward_rate: u64,
}

/// Mathematical view of [`CharityData`].
#[verifier::ext_equal]
pub struct CharityDataV {
    pub authority: Seq<u8>,
    pub reward_mint: Seq<u8>,
    pub reward_decimals: u8,
    pub reward_rate: u64,
}

impl View for CharityData {
    type V = CharityDataV;

    open spec fn view(&self) -> CharityDataV {
        CharityDataV {
            authority: self.authority@,
            reward_mint: self.reward_mint@,
            reward_decimals: self.reward_decimals,
            reward_rate: self.reward_rate,
        }
    }
}

/// Descriptor of a fungible token, one per mint identity.
#[derive(Clone, Debug)]
pub struct TokenInfo {
    pub name: String,
    pub symbol: String,
    pub decimals: u8,
    pub mint: Pubkey,
    pub authority: Pubkey,
}

/// Mathematical view of [`TokenInfo`].
#[verifier::ext_equal]
pub struct TokenInfoV {
    pub name: Seq<char>,
    pub symbol: Seq<char>,
    pub decimals: u8,
    pub mint: Seq<u8>,
    pub authority: Seq<u8>,
}

impl View for TokenInfo {
    type V = TokenInfoV;

    open spec fn view(&self) -> TokenInfoV {
        TokenInfoV {
            name: self.name@,
            symbol: self.symbol@,
            decimals: self.decimals,
            mint: self.mint@,
            authority: self.authority@,
        }
    }
}

/// Descriptor of an asset collection, one per mint identity.
#[derive(Clone, Debug)]
pub struct CollectionInfo {
    pub name: String,
    pub symbol: String,
    pub uri: String,
    pub seller_fee_basis_points: u16,
    pub mint: Pubkey,
    pub authority: Pubkey,
}

/// Mathematical view of [`CollectionInfo`].
#[verifier::ext_equal]
pub struct CollectionInfoV {
    pub name: Seq<char>,
    pub symbol: Seq<char>,
    pub uri: Seq<char>,
    pub seller_fee_basis_points: u16,
    pub mint: Seq<u8>,
    pub authority: Seq<u8>,
}

impl View for CollectionInfo {
    type V = CollectionInfoV;

    open spec fn view(&self) -> CollectionInfoV {
        CollectionInfoV {
            name: self.name@,
            symbol: self.symbol@,
            uri: self.uri@,
            seller_fee_basis_points: self.seller_fee_basis_points,
            mint: self.mint@,
            authority: self.authority@,
        }
    }
}

/// Descriptor of one unique asset, bound to a collection identity.
#[derive(Clone, Debug)]
pub struct NftInfo {
    pub name: String,
    pub symbol: String,
    pub uri: String,
    pub mint: Pubkey,
    pub collection: Pubkey,
    pub owner: Pubkey,
}

/// Mathematical view of [`NftInfo`].
#[verifier::ext_equal]
pub struct NftInfoV {
    pub name: Seq<char>,
    pub symbol: Seq<char>,
    pub uri: Seq<char>,
    pub mint: Seq<u8>,
    pub collection: Seq<u8>,
    pub owner: Seq<u8>,
}

impl View for NftInfo {
    type V = NftInfoV;

    open spec fn view(&self) -> NftInfoV {
        NftInfoV {
            name: self.name@,
            symbol: self.symbol@,
            uri: self.uri@,
            mint: self.mint@,
            collection: self.collection@,
            owner: self.owner@,
        }
    }
}

} // verus!
