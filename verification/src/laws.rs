//! Laws of the core, stated over the same spec functions the handlers'
//! contracts use.

use vstd::prelude::*;

use crate::records::{CollectionInfoV, NftInfoV, TokenInfoV};
use crate::state::{
    collection_at, has_collection, has_nft, has_token, nft_at, token_at,
};
use crate::validate::reward_for;

verus! {

/// The reward formula truncates to whole native units: each tier pays ten
/// whole reward tokens (in nine-decimal base units) per whole unit donated,
/// and the 3.5-unit tier is rewarded exactly as a 3-unit donation would be.
pub proof fn lemma_reward_truncation()
    ensures
        reward_for(1_000_000_000u64) == 10_000_000_000int,
        reward_for(2_000_000_000u64) == 20_000_000_000int,
        reward_for(3_500_000_000u64) == 30_000_000_000int,
        reward_for(3_500_000_000u64) == reward_for(3_000_000_000u64),
        reward_for(5_000_000_000u64) == 50_000_000_000int,
{
    assert(3_500_000_000int / 1_000_000_000int == 3) by (nonlinear_arith);
    assert(1_000_000_000int / 1_000_000_000int == 1) by (nonlinear_arith);
    assert(2_000_000_000int / 1_000_000_000int == 2) by (nonlinear_arith);
    assert(3_000_000_000int / 1_000_000_000int == 3) by (nonlinear_arith);
    assert(5_000_000_000int / 1_000_000_000int == 5) by (nonlinear_arith);
}

/// Replay is rejected: a token descriptor just registered for a mint is
/// present, so registering again for the same mint meets the
/// already-in-use case of `initialize_token`'s contract, which rejects and
/// changes nothing — a record is never overwritten.
pub proof fn lemma_token_replay_rejected(tokens: Seq<TokenInfoV>, t: TokenInfoV)
    ensures
        has_token(tokens.push(t), t.mint),
{
    assert(tokens.push(t)[tokens.len() as int].mint == t.mint);
}

/// Replay is rejected for collection descriptors, as for token descriptors.
pub proof fn lemma_collection_replay_rejected(collections: Seq<CollectionInfoV>, c: CollectionInfoV)
    ensures
        has_collection(collections.push(c), c.mint),
{
    assert(collections.push(c)[collections.len() as int].mint == c.mint);
}

/// Replay is rejected for asset descriptors, as for token descriptors.
pub proof fn lemma_nft_replay_rejected(nfts: Seq<NftInfoV>, n: NftInfoV)
    ensures
        has_nft(nfts.push(n), n.mint),
{
    assert(nfts.push(n)[nfts.len() as int].mint == n.mint);
}

/// Round trip: a token descriptor written for a mint with no prior record
/// reads back exactly as written, field for field.
pub proof fn lemma_token_round_trip(tokens: Seq<TokenInfoV>, t: TokenInfoV)
    requires
        !has_token(tokens, t.mint),
    ensures
        token_at(tokens.push(t), t.mint) == t,
{
    let s = tokens.push(t);
    assert(s[tokens.len() as int].mint == t.mint);
    let i = choose|i: int| 0 <= i < s.len() && s[i].mint == t.mint;
    if i < tokens.len() {
        assert(tokens[i].mint == t.mint);
        assert(has_token(tokens, t.mint));
    }
    assert(i == tokens.len());
}

/// Round trip for collection descriptors, as for token descriptors.
pub proof fn lemma_collection_round_trip(collections: Seq<CollectionInfoV>, c: CollectionInfoV)
    requires
        !has_collection(collections, c.mint),
    ensures
        collection_at(collections.push(c), c.mint) == c,
{
    let s = collections.push(c);
    assert(s[collections.len() as int].mint == c.mint);
    let i = choose|i: int| 0 <= i < s.len() && s[i].mint == c.mint;
    if i < collections.len() {
        assert(collections[i].mint == c.mint);
        assert(has_collection(collections, c.mint));
    }
    assert(i == collections.len());
}

/// Round trip for asset descriptors, as for token descriptors.
pub proof fn lemma_nft_round_trip(nfts: Seq<NftInfoV>, n: NftInfoV)
    requires
        !has_nft(nfts, n.mint),
    ensures
        nft_at(nfts.push(n), n.mint) == n,
{
    let s = nfts.push(n);
    assert(s[nfts.len() as int].mint == n.mint);
    let i = choose|i: int| 0 <= i < s.len() && s[i].mint == n.mint;
    if i < nfts.len() {
        assert(nfts[i].mint == n.mint);
        assert(has_nft(nfts, n.mint));
    }
    assert(i == nfts.len());
}

} // verus!
