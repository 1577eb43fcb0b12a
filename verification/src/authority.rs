//! Derived authority: a deterministic, keyless address computed from the
//! fixed seed label `"mint_authority"` and the program's own identity. Every
//! mint-affecting handler must be presented this address as the signer for
//! the token ledger's mint call, and checks it against the derivation.

use vstd::prelude::*;

use crate::errors::InstructionError;
use crate::keys::Pubkey;

verus! {

/// The address and bump that the ledger's program-address derivation yields
/// for the seed label `"mint_authority"` under the given program identity,
/// or `None` if no nonce in the search range yields an off-curve address.
/// The derivation is a fixed hash-based computation, so the result is a
/// function of the program identity alone.
pub uninterp spec fn mint_authority_pda(program_id: Seq<u8>) -> Option<(Seq<u8>, u8)>;

/// Relies on `Pubkey::try_find_program_address` of the ledger's address
/// library (re-exported by anchor_lang): for fixed seeds it deterministically
/// searches bumps from 255 downward for the first off-curve hash-derived
/// address and returns it with its bump, or `None` when no bump works.
#[verifier::external_body]
fn find_mint_authority(program_id: &Pubkey) -> (r: Option<(Pubkey, u8)>)
    ensures
        match r {
            Some(p) => mint_authority_pda(program_id@) == Some((p.0@, p.1)),
            None => mint_authority_pda(program_id@) is None,
        },
{
    let pid = anchor_lang::prelude::Pubkey::new_from_array(program_id.bytes);
    anchor_lang::prelude::Pubkey::try_find_program_address(&[b"mint_authority"], &pid)
        .map(|(addr, bump)| (Pubkey { bytes: addr.to_bytes() }, bump))
}

/// Derives the mint authority for a program identity: the address any
/// verifier can recompute, plus its disambiguating bump.
pub fn derive_mint_authority(program_id: &Pubkey) -> (r: Option<(Pubkey, u8)>)
    ensures
        match r {
            Some(p) => mint_authority_pda(program_id@) == Some((p.0@, p.1)),
            None => mint_authority_pda(program_id@) is None,
        },
{
    find_mint_authority(program_id)
}

/// Whether the derivation yields an address at all.
pub open spec fn derivable(program_id: Seq<u8>) -> bool {
    mint_authority_pda(program_id) is Some
}

/// The derived authority address (meaningful only when derivable).
pub open spec fn derived_addr(program_id: Seq<u8>) -> Seq<u8> {
    mint_authority_pda(program_id)->Some_0.0
}

/// The derived authority's bump (meaningful only when derivable).
pub open spec fn derived_bump(program_id: Seq<u8>) -> u8 {
    mint_authority_pda(program_id)->Some_0.1
}

/// Checks a caller-presented authority slot against the derivation and
/// returns the bump to sign with. Fails with `AuthorityNotDerivable` when the
/// derivation yields nothing, and with `AuthorityMismatch` when the presented
/// address is not the derived one.
pub fn check_mint_authority(program_id: &Pubkey, presented: &Pubkey) -> (r: Result<
    u8,
    InstructionError,
>)
    ensures
        !derivable(program_id@) ==> r == Err::<u8, _>(InstructionError::AuthorityNotDerivable),
        derivable(program_id@) && derived_addr(program_id@) != presented@ ==> r == Err::<u8, _>(
            InstructionError::AuthorityMismatch,
        ),
        derivable(program_id@) && derived_addr(program_id@) == presented@ ==> r == Ok::<_, InstructionError>(
            derived_bump(program_id@),
        ),
{
    match derive_mint_authority(program_id) {
        None => Err(InstructionError::AuthorityNotDerivable),
        Some(p) => {
            if p.0.equals(presented) {
                Ok(p.1)
            } else {
                Err(InstructionError::AuthorityMismatch)
            }
        },
    }
}

} // verus!
