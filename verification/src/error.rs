//! Why an operation is refused.

use crate::record::Side;
use vstd::prelude::*;

verus! {

/// The part an account plays in an operation.
#[derive(Clone, Copy, Debug, PartialEq, Eq, Structural)]
pub enum Role {
    /// A party's original account, which assets come from at funding and
    /// return to at defunding.
    Source,
    /// A custody account of the escrow.
    Custody,
    /// An account that receives an asset at settlement.
    Destination,
}

/// The five kinds of refusal.
#[derive(Clone, Copy, Debug, PartialEq, Eq, Structural)]
pub enum ErrorKind {
    Authorization,
    ReferenceMismatch,
    Ownership,
    SupplyInvariant,
    AllocationCollision,
}

/// A refusal, with the side and the role of the account that the failed
/// check was about. It is fatal to the operation: nothing has been changed.
#[derive(Clone, Copy, Debug, PartialEq, Eq, Structural)]
pub enum EscrowError {
    /// The caller is not the party that the operation's side expects.
    Authorization { side: Side },
    /// A supplied account is not the one that the record names.
    ReferenceMismatch { side: Side, role: Role },
    /// An account's owner is not who the protocol expects in that role.
    Ownership { side: Side, role: Role },
    /// A balance is not exactly one unit.
    SupplyInvariant { side: Side, role: Role },
    /// A record or custody account already exists for the pair of sources.
    AllocationCollision,
}

impl EscrowError {
    /// The kind of the refusal.
    pub open spec fn spec_kind(&self) -> ErrorKind {
        match self {
            EscrowError::Authorization { .. } => ErrorKind::Authorization,
            EscrowError::ReferenceMismatch { .. } => ErrorKind::ReferenceMismatch,
            EscrowError::Ownership { .. } => ErrorKind::Ownership,
            EscrowError::SupplyInvariant { .. } => ErrorKind::SupplyInvariant,
            EscrowError::AllocationCollision => ErrorKind::AllocationCollision,
        }
    }

    /// The kind of the refusal.
    #[verifier::when_used_as_spec(spec_kind)]
    pub fn kind(&self) -> (k: ErrorKind)
        ensures
            k == self.spec_kind(),
    {
        match self {
            EscrowError::Authorization { .. } => ErrorKind::Authorization,
            EscrowError::ReferenceMismatch { .. } => ErrorKind::ReferenceMismatch,
            EscrowError::Ownership { .. } => ErrorKind::Ownership,
            EscrowError::SupplyInvariant { .. } => ErrorKind::SupplyInvariant,
            EscrowError::AllocationCollision => ErrorKind::AllocationCollision,
        }
    }
}

} // verus!
