//! Parameter validation: pure, side-effect-free checks run by every handler
//! before any state change, and the reward formula.

use vstd::prelude::*;
use vstd::string::StrSliceExecFns;

verus! {

/// Smallest units per whole native-value unit.
pub const LAMPORTS_PER_UNIT: u64 = 1_000_000_000;

/// Whole reward tokens minted per whole native-value unit donated.
pub const REWARD_TOKENS_PER_UNIT: u64 = 10;

/// Smallest units per whole reward token (nine implied decimals).
pub const REWARD_BASE_UNITS: u64 = 1_000_000_000;

/// The fixed price tiers, in smallest native units: 1, 2, 3.5 and 5 whole
/// units.
pub open spec fn valid_tier(price_lamports: u64) -> bool {
    ||| price_lamports == 1_000_000_000u64
    ||| price_lamports == 2_000_000_000u64
    ||| price_lamports == 3_500_000_000u64
    ||| price_lamports == 5_000_000_000u64
}

/// Membership in the fixed tier set.
pub fn is_valid_tier(price_lamports: u64) -> (r: bool)
    ensures
        r == valid_tier(price_lamports),
{
    price_lamports == 1_000_000_000
        || price_lamports == 2_000_000_000
        || price_lamports == 3_500_000_000
        || price_lamports == 5_000_000_000
}

/// Reward for a donation: ten whole reward tokens (with nine implied
/// decimals) per whole native unit, the unit count integer-truncated — a
/// 3.5-unit donation is rewarded as 3 whole units' worth.
pub open spec fn reward_for(price_lamports: u64) -> int {
    (price_lamports as int / LAMPORTS_PER_UNIT as int) * REWARD_TOKENS_PER_UNIT as int
        * REWARD_BASE_UNITS as int
}

/// Computes the reward owed for a tier-valid donation.
pub fn compute_reward(price_lamports: u64) -> (r: u64)
    requires
        valid_tier(price_lamports),
    ensures
        r == reward_for(price_lamports),
{
    (price_lamports / LAMPORTS_PER_UNIT) * REWARD_TOKENS_PER_UNIT * REWARD_BASE_UNITS
}

/// Bounds on a token descriptor: at most 9 decimals, a name of at most 32
/// characters and a symbol of at most 10.
pub open spec fn token_params_ok(name: Seq<char>, symbol: Seq<char>, decimals: u8) -> bool {
    decimals <= 9 && name.len() <= 32 && symbol.len() <= 10
}

/// Checks token descriptor bounds.
pub fn check_token_params(name: &String, symbol: &String, decimals: u8) -> (r: bool)
    ensures
        r == token_params_ok(name@, symbol@, decimals),
{
    decimals <= 9 && name.as_str().unicode_len() <= 32 && symbol.as_str().unicode_len() <= 10
}

/// Bound on a collection's seller fee: at most 10000 basis points.
pub open spec fn collection_fee_ok(seller_fee_basis_points: u16) -> bool {
    seller_fee_basis_points <= 10000
}

/// Checks the seller-fee bound.
pub fn check_collection_fee(seller_fee_basis_points: u16) -> (r: bool)
    ensures
        r == collection_fee_ok(seller_fee_basis_points),
{
    seller_fee_basis_points <= 10000
}

/// Bounds on an asset's metadata: a name of at most 32 characters and a
/// symbol of at most 10.
pub open spec fn nft_metadata_ok(name: Seq<char>, symbol: Seq<char>) -> bool {
    name.len() <= 32 && symbol.len() <= 10
}

/// Checks asset metadata bounds.
pub fn check_nft_metadata(name: &String, symbol: &String) -> (r: bool)
    ensures
        r == nft_metadata_ok(name@, symbol@),
{
    name.as_str().unicode_len() <= 32 && symbol.as_str().unicode_len() <= 10
}

} // verus!
