//! The escrow record and the two parameters of every operation on it.

use crate::address::Address;
use vstd::prelude::*;

verus! {

/// The number of asset units that every custody transfer moves.
pub const UNIT_AMOUNT: u64 = 1;

/// One of the two sides of an escrow.
#[derive(Clone, Copy, Debug, PartialEq, Eq, Structural)]
pub enum Side {
    /// The party that opened the escrow, and what it offers.
    Offering,
    /// The party the offer is made to, and what is asked of it.
    Requesting,
}

/// Whether balances are held to exactly one unit.
#[derive(Clone, Copy, Debug, PartialEq, Eq, Structural)]
pub enum Policy {
    /// Sources at initialization and custody at settlement must hold
    /// exactly one unit.
    ExactUnit,
    /// Balances are not examined.
    ArbitraryAmount,
}

/// The durable state of one escrow. It is written once, at initialization.
#[derive(Clone, Copy, Debug, PartialEq, Eq)]
pub struct Escrow {
    pub offering_party: Address,
    pub requesting_party: Address,
    pub offering_asset_class: Address,
    pub requesting_asset_class: Address,
    pub offering_custody_address: Address,
    pub requesting_custody_address: Address,
}

impl Escrow {
    /// The party on the given side.
    pub open spec fn spec_party(&self, side: Side) -> Address {
        match side {
            Side::Offering => self.offering_party,
            Side::Requesting => self.requesting_party,
        }
    }

    /// The party on the given side.
    #[verifier::when_used_as_spec(spec_party)]
    pub fn party(&self, side: Side) -> (r: Address)
        ensures
            r == self.spec_party(side),
    {
        match side {
            Side::Offering => self.offering_party,
            Side::Requesting => self.requesting_party,
        }
    }

    /// The address of the custody account on the given side.
    pub open spec fn spec_custody_address(&self, side: Side) -> Address {
        match side {
            Side::Offering => self.offering_custody_address,
            Side::Requesting => self.requesting_custody_address,
        }
    }

    /// The address of the custody account on the given side.
    #[verifier::when_used_as_spec(spec_custody_address)]
    pub fn custody_address(&self, side: Side) -> (r: Address)
        ensures
            r == self.spec_custody_address(side),
    {
        match side {
            Side::Offering => self.offering_custody_address,
            Side::Requesting => self.requesting_custody_address,
        }
    }
}

/// An escrow record together with the address it is stored at.
#[derive(Clone, Copy, Debug, PartialEq, Eq)]
pub struct EscrowAccount {
    pub address: Address,
    pub record: Escrow,
}

} // verus!
