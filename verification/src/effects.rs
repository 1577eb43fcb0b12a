//! Effects: the external calls a handler decides on. The core computes these
//! values; the surrounding environment performs them against the real ledger.

use vstd::prelude::*;

use crate::keys::Pubkey;

verus! {

/// One native-value transfer the environment must perform.
#[derive(Clone, Copy, Debug)]
pub struct TransferCall {
    pub from: Pubkey,
    pub to: Pubkey,
    pub lamports: u64,
}

/// Mathematical view of [`TransferCall`].
#[verifier::ext_equal]
pub struct TransferCallV {
    pub from: Seq<u8>,
    pub to: Seq<u8>,
    pub lamports: u64,
}

impl View for TransferCall {
    type V = TransferCallV;

    open spec fn view(&self) -> TransferCallV {
        TransferCallV { from: self.from@, to: self.to@, lamports: self.lamports }
    }
}

/// One token-ledger mint call the environment must perform, signed by the
/// derived authority via its seed and bump rather than a private key.
#[derive(Clone, Copy, Debug)]
pub struct MintToCall {
    pub mint: Pubkey,
    pub to: Pubkey,
    pub authority: Pubkey,
    pub authority_bump: u8,
    pub amount: u64,
}

/// Mathematical view of [`MintToCall`].
#[verifier::ext_equal]
pub struct MintToCallV {
    pub mint: Seq<u8>,
    pub to: Seq<u8>,
    pub authority: Seq<u8>,
    pub authority_bump: u8,
    pub amount: u64,
}

impl View for MintToCall {
    type V = MintToCallV;

    open spec fn view(&self) -> MintToCallV {
        MintToCallV {
            mint: self.mint@,
            to: self.to@,
            authority: self.authority@,
            authority_bump: self.authority_bump,
            amount: self.amount,
        }
    }
}

} // verus!
