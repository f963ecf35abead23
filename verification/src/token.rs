//! Asset-holding accounts and the transfers between them.

use crate::address::Address;
use vstd::prelude::*;

verus! {

/// An account that holds units of one asset class.
#[derive(Clone, Copy, Debug, PartialEq, Eq)]
pub struct TokenAccount {
    /// Where the account is stored.
    pub address: Address,
    /// The asset class of the units it holds.
    pub asset_class: Address,
    /// The authority that may move units out of it.
    pub owner: Address,
    /// The number of units it holds.
    pub amount: u64,
}

/// The proof of authority that accompanies a transfer.
#[derive(Clone, Copy, Debug, PartialEq, Eq)]
pub enum AuthorityProof {
    /// The caller signed the request; the host has verified the signature.
    Signature { signer: Address },
    /// The authority is the address of the escrow record of the two source
    /// accounts, reproduced from them and the bump. No key signs for it.
    Derived { offering_source: Address, requesting_source: Address, bump: u8 },
}

/// An instruction to move units from one account to another.
#[derive(Clone, Copy, Debug, PartialEq, Eq)]
pub struct Transfer {
    pub from: Address,
    pub to: Address,
    pub authority: AuthorityProof,
    pub amount: u64,
}

/// The two transfers of a settlement. They take effect together or not at
/// all.
#[derive(Clone, Copy, Debug, PartialEq, Eq)]
pub struct Settlement {
    /// The requesting side's asset, on its way to the offering party.
    pub first: Transfer,
    /// The offering side's asset, on its way to the requesting party.
    pub second: Transfer,
}

} // verus!
