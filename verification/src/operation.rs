//! The four operations as decisions.
//!
//! Each function here reads a snapshot of the accounts that a request names
//! and decides: either the request is refused, with the first check that
//! failed, or it is granted, with what the host is to commit (the record to
//! store, or the transfers to carry out). Nothing is changed here. One
//! function serves both sides of the escrow and both balance policies.

use crate::address::Address;
use crate::authorization::{
    account_matches_record,
    balance_accepted,
    balance_matches,
    caller_is_party,
    ownership_matches,
};
use crate::derivation::{custody_address, custody_address_spec};
use crate::error::{EscrowError, Role};
use crate::record::{Escrow, EscrowAccount, Policy, Side, UNIT_AMOUNT};
use crate::token::{AuthorityProof, Settlement, TokenAccount, Transfer};
use vstd::prelude::*;

verus! {

/// What a request to initialize an escrow names.
#[derive(Clone, Copy, Debug, PartialEq, Eq)]
pub struct InitializeAccounts {
    /// The authenticated caller, who becomes the offering party.
    pub caller: Address,
    /// The party the offer is made to.
    pub requesting_party: Address,
    pub offering_asset_class: Address,
    pub requesting_asset_class: Address,
    /// The offering party's original account.
    pub offering_source: TokenAccount,
    /// The requesting party's original account.
    pub requesting_source: TokenAccount,
    /// The address of the new custody account on the offering side.
    pub offering_custody: Address,
    /// The address of the new custody account on the requesting side.
    pub requesting_custody: Address,
}

/// What a request to fund one side names.
#[derive(Clone, Copy, Debug, PartialEq, Eq)]
pub struct FundAccounts {
    /// The authenticated caller.
    pub caller: Address,
    pub escrow: EscrowAccount,
    /// The account the units are taken from.
    pub source: TokenAccount,
    /// The custody account the units go to.
    pub custody: TokenAccount,
}

/// What a request to defund one side names.
#[derive(Clone, Copy, Debug, PartialEq, Eq)]
pub struct DefundAccounts {
    /// The authenticated caller.
    pub caller: Address,
    pub escrow: EscrowAccount,
    pub offering_source: TokenAccount,
    pub requesting_source: TokenAccount,
    /// The custody account of the side that is defunded.
    pub custody: TokenAccount,
}

/// What a request to settle names. Anyone may make it.
#[derive(Clone, Copy, Debug, PartialEq, Eq)]
pub struct SettleAccounts {
    pub escrow: EscrowAccount,
    pub offering_source: TokenAccount,
    pub requesting_source: TokenAccount,
    pub offering_custody: TokenAccount,
    pub requesting_custody: TokenAccount,
    /// Where the offering side's asset goes: an account of the requesting
    /// party.
    pub offering_destination: TokenAccount,
    /// Where the requesting side's asset goes: an account of the offering
    /// party.
    pub requesting_destination: TokenAccount,
}

impl InitializeAccounts {
    /// The record that a granted request stores.
    pub open spec fn record(self) -> Escrow {
        Escrow {
            offering_party: self.caller,
            requesting_party: self.requesting_party,
            offering_asset_class: self.offering_asset_class,
            requesting_asset_class: self.requesting_asset_class,
            offering_custody_address: self.offering_custody,
            requesting_custody_address: self.requesting_custody,
        }
    }
}

impl DefundAccounts {
    /// The source account of a side.
    pub open spec fn spec_source(&self, side: Side) -> TokenAccount {
        match side {
            Side::Offering => self.offering_source,
            Side::Requesting => self.requesting_source,
        }
    }

    /// The source account of a side.
    #[verifier::when_used_as_spec(spec_source)]
    pub fn source(&self, side: Side) -> (r: TokenAccount)
        ensures
            r == self.spec_source(side),
    {
        match side {
            Side::Offering => self.offering_source,
            Side::Requesting => self.requesting_source,
        }
    }
}

/// The proof by which the escrow record of two source accounts authorizes a
/// transfer out of custody.
pub open spec fn record_proof(
    offering_source: Address,
    requesting_source: Address,
    bump: u8,
) -> AuthorityProof {
    AuthorityProof::Derived { offering_source, requesting_source, bump }
}

/// The decision on a request to initialize. Under the exact-unit policy
/// each source must be owned by its party and hold exactly one unit; where
/// amounts are arbitrary nothing is asked. No asset moves.
pub open spec fn initialize_spec(policy: Policy, a: InitializeAccounts) -> Result<
    Escrow,
    EscrowError,
> {
    if policy == Policy::ExactUnit && a.offering_source.owner != a.caller {
        Err(EscrowError::Ownership { side: Side::Offering, role: Role::Source })
    } else if policy == Policy::ExactUnit && a.requesting_source.owner != a.requesting_party {
        Err(EscrowError::Ownership { side: Side::Requesting, role: Role::Source })
    } else if !balance_accepted(policy, a.offering_source.amount) {
        Err(EscrowError::SupplyInvariant { side: Side::Offering, role: Role::Source })
    } else if !balance_accepted(policy, a.requesting_source.amount) {
        Err(EscrowError::SupplyInvariant { side: Side::Requesting, role: Role::Source })
    } else {
        Ok(a.record())
    }
}

/// Decides a request to initialize an escrow. Where amounts are arbitrary
/// it is always granted; under the exact-unit policy it is granted exactly
/// when each source is owned by its party and holds one unit.
pub fn initialize(policy: Policy, a: &InitializeAccounts) -> (r: Result<Escrow, EscrowError>)
    ensures
        r == initialize_spec(policy, *a),
        r is Ok <==> policy == Policy::ArbitraryAmount || {
            &&& a.offering_source.owner == a.caller
            &&& a.requesting_source.owner == a.requesting_party
            &&& a.offering_source.amount == UNIT_AMOUNT
            &&& a.requesting_source.amount == UNIT_AMOUNT
        },
{
    match policy {
        Policy::ExactUnit => {
            ownership_matches(&a.offering_source, &a.caller, Side::Offering, Role::Source)?;
            ownership_matches(
                &a.requesting_source,
                &a.requesting_party,
                Side::Requesting,
                Role::Source,
            )?;
            balance_matches(policy, &a.offering_source, Side::Offering, Role::Source)?;
            balance_matches(policy, &a.requesting_source, Side::Requesting, Role::Source)?;
        },
        Policy::ArbitraryAmount => {},
    }
    Ok(
        Escrow {
            offering_party: a.caller,
            requesting_party: a.requesting_party,
            offering_asset_class: a.offering_asset_class,
            requesting_asset_class: a.requesting_asset_class,
            offering_custody_address: a.offering_custody,
            requesting_custody_address: a.requesting_custody,
        },
    )
}

/// The decision on a request to fund a side: the caller must be that side's
/// party, the custody account must be the one on record, and the record
/// must be its owner. A granted request moves one unit from the source into
/// custody on the caller's signature.
pub open spec fn fund_spec(side: Side, a: FundAccounts) -> Result<Transfer, EscrowError> {
    if a.caller != a.escrow.record.party(side) {
        Err(EscrowError::Authorization { side })
    } else if a.custody.address != a.escrow.record.custody_address(side) {
        Err(EscrowError::ReferenceMismatch { side, role: Role::Custody })
    } else if a.custody.owner != a.escrow.address {
        Err(EscrowError::Ownership { side, role: Role::Custody })
    } else {
        Ok(
            Transfer {
                from: a.source.address,
                to: a.custody.address,
                authority: AuthorityProof::Signature { signer: a.caller },
                amount: UNIT_AMOUNT,
            },
        )
    }
}

/// Decides a request to fund a side. A caller who is not that side's party
/// is refused whatever accounts the request names. The request is granted
/// exactly when the caller is that party and the custody account is the
/// one on record and owned by the record.
pub fn fund(side: Side, a: &FundAccounts) -> (r: Result<Transfer, EscrowError>)
    ensures
        r == fund_spec(side, *a),
        a.caller != a.escrow.record.party(side) ==> r == Err::<Transfer, EscrowError>(
            EscrowError::Authorization { side },
        ),
        r is Ok <==> {
            &&& a.caller == a.escrow.record.party(side)
            &&& a.custody.address == a.escrow.record.custody_address(side)
            &&& a.custody.owner == a.escrow.address
        },
{
    caller_is_party(&a.escrow.record, side, &a.caller)?;
    account_matches_record(
        &a.custody.address,
        &a.escrow.record.custody_address(side),
        side,
        Role::Custody,
    )?;
    ownership_matches(&a.custody, &a.escrow.address, side, Role::Custody)?;
    Ok(
        Transfer {
            from: a.source.address,
            to: a.custody.address,
            authority: AuthorityProof::Signature { signer: a.caller },
            amount: UNIT_AMOUNT,
        },
    )
}

/// The decision on a request to defund a side, given the custody address
/// that each source account resolves to. In order: the caller must be that
/// side's party; the custody account must be the one on record; each source
/// must resolve to the custody address on record for its side, the
/// requesting one first; each source must be owned by its party, the
/// requesting one first. A granted request moves one unit from custody back
/// to the side's source, on the authority of the record.
pub open spec fn defund_resolved_spec(
    side: Side,
    a: DefundAccounts,
    bump: u8,
    offering_resolved: Option<Address>,
    requesting_resolved: Option<Address>,
) -> Result<Transfer, EscrowError> {
    let record = a.escrow.record;
    if a.caller != record.party(side) {
        Err(EscrowError::Authorization { side })
    } else if a.custody.address != record.custody_address(side) {
        Err(EscrowError::ReferenceMismatch { side, role: Role::Custody })
    } else if requesting_resolved != Some(record.requesting_custody_address) {
        Err(EscrowError::ReferenceMismatch { side: Side::Requesting, role: Role::Source })
    } else if offering_resolved != Some(record.offering_custody_address) {
        Err(EscrowError::ReferenceMismatch { side: Side::Offering, role: Role::Source })
    } else if a.requesting_source.owner != record.requesting_party {
        Err(EscrowError::Ownership { side: Side::Requesting, role: Role::Source })
    } else if a.offering_source.owner != record.offering_party {
        Err(EscrowError::Ownership { side: Side::Offering, role: Role::Source })
    } else {
        Ok(
            Transfer {
                from: a.custody.address,
                to: a.source(side).address,
                authority: record_proof(
                    a.offering_source.address,
                    a.requesting_source.address,
                    bump,
                ),
                amount: UNIT_AMOUNT,
            },
        )
    }
}

/// The custody address that the source account of a side resolves to.
pub open spec fn resolved_custody(side: Side, source: Address, program_id: Address) -> Option<
    Address,
> {
    match custody_address_spec(side, source, program_id) {
        Some((address, _)) => Some(address),
        None => None,
    }
}

/// The decision on a request to defund a side.
pub open spec fn defund_spec(
    side: Side,
    a: DefundAccounts,
    bump: u8,
    program_id: Address,
) -> Result<Transfer, EscrowError> {
    defund_resolved_spec(
        side,
        a,
        bump,
        resolved_custody(Side::Offering, a.offering_source.address, program_id),
        resolved_custody(Side::Requesting, a.requesting_source.address, program_id),
    )
}

/// Whether one address is present and equal to another.
fn is_address(found: &Option<Address>, expected: &Address) -> (r: bool)
    ensures
        r == (*found == Some(*expected)),
{
    match found {
        Some(address) => *address == *expected,
        None => false,
    }
}

/// Decides a request to defund a side, given the custody address that each
/// source account resolves to. Only that side's party is ever granted it.
pub fn defund_resolved(
    side: Side,
    a: &DefundAccounts,
    bump: u8,
    offering_resolved: Option<Address>,
    requesting_resolved: Option<Address>,
) -> (r: Result<Transfer, EscrowError>)
    ensures
        r == defund_resolved_spec(side, *a, bump, offering_resolved, requesting_resolved),
        r is Ok <==> {
            &&& a.caller == a.escrow.record.party(side)
            &&& a.custody.address == a.escrow.record.custody_address(side)
            &&& requesting_resolved == Some(a.escrow.record.requesting_custody_address)
            &&& offering_resolved == Some(a.escrow.record.offering_custody_address)
            &&& a.requesting_source.owner == a.escrow.record.requesting_party
            &&& a.offering_source.owner == a.escrow.record.offering_party
        },
{
    let record = &a.escrow.record;
    caller_is_party(record, side, &a.caller)?;
    account_matches_record(
        &a.custody.address,
        &record.custody_address(side),
        side,
        Role::Custody,
    )?;
    if !is_address(&requesting_resolved, &record.requesting_custody_address) {
        return Err(EscrowError::ReferenceMismatch { side: Side::Requesting, role: Role::Source });
    }
    if !is_address(&offering_resolved, &record.offering_custody_address) {
        return Err(EscrowError::ReferenceMismatch { side: Side::Offering, role: Role::Source });
    }
    ownership_matches(
        &a.requesting_source,
        &record.requesting_party,
        Side::Requesting,
        Role::Source,
    )?;
    ownership_matches(&a.offering_source, &record.offering_party, Side::Offering, Role::Source)?;
    Ok(
        Transfer {
            from: a.custody.address,
            to: a.source(side).address,
            authority: AuthorityProof::Derived {
                offering_source: a.offering_source.address,
                requesting_source: a.requesting_source.address,
                bump,
            },
            amount: UNIT_AMOUNT,
        },
    )
}

/// Resolves the source account of a side to its custody address.
pub fn resolve_custody(side: Side, source: &Address, program_id: &Address) -> (r: Option<Address>)
    ensures
        r == resolved_custody(side, *source, *program_id),
{
    match custody_address(side, source, program_id) {
        Some((address, _)) => Some(address),
        None => None,
    }
}

/// Decides a request to defund a side: resolves both source accounts under
/// the program and decides as `defund_resolved` does.
pub fn defund(side: Side, a: &DefundAccounts, bump: u8, program_id: &Address) -> (r: Result<
    Transfer,
    EscrowError,
>)
    ensures
        r == defund_spec(side, *a, bump, *program_id),
        r is Ok ==> a.caller == a.escrow.record.party(side),
{
    let offering_resolved = resolve_custody(Side::Offering, &a.offering_source.address, program_id);
    let requesting_resolved = resolve_custody(
        Side::Requesting,
        &a.requesting_source.address,
        program_id,
    );
    defund_resolved(side, a, bump, offering_resolved, requesting_resolved)
}

/// Both custody accounts are the ones on record.
pub open spec fn custody_on_record(a: SettleAccounts) -> bool {
    &&& a.requesting_custody.address == a.escrow.record.requesting_custody_address
    &&& a.offering_custody.address == a.escrow.record.offering_custody_address
}

/// Each destination is owned by the counterparty of the asset it receives.
pub open spec fn destinations_cross_owned(a: SettleAccounts) -> bool {
    &&& a.offering_destination.owner == a.escrow.record.requesting_party
    &&& a.requesting_destination.owner == a.escrow.record.offering_party
}

/// Each source is owned by the owner of the destination that receives the
/// other side's asset.
pub open spec fn destinations_match_sources(a: SettleAccounts) -> bool {
    &&& a.offering_source.owner == a.requesting_destination.owner
    &&& a.requesting_source.owner == a.offering_destination.owner
}

/// The two transfers of a granted settlement: the requesting side's custody
/// to the offering party's destination, then the offering side's custody to
/// the requesting party's destination, one unit each, on the authority of
/// the record.
pub open spec fn settlement_of(a: SettleAccounts, bump: u8) -> Settlement {
    let authority = record_proof(a.offering_source.address, a.requesting_source.address, bump);
    Settlement {
        first: Transfer {
            from: a.requesting_custody.address,
            to: a.requesting_destination.address,
            authority,
            amount: UNIT_AMOUNT,
        },
        second: Transfer {
            from: a.offering_custody.address,
            to: a.offering_destination.address,
            authority,
            amount: UNIT_AMOUNT,
        },
    }
}

/// The decision on a request to settle. In order: both custody accounts
/// must be the ones on record, the requesting one first; each destination
/// must be owned by the counterparty, the offering side's destination
/// first; each source's owner must own the destination of the other side's
/// asset, the offering source first; under the exact-unit policy each
/// custody account must hold exactly one unit, the offering one first.
pub open spec fn settle_spec(policy: Policy, a: SettleAccounts, bump: u8) -> Result<
    Settlement,
    EscrowError,
> {
    let record = a.escrow.record;
    if a.requesting_custody.address != record.requesting_custody_address {
        Err(EscrowError::ReferenceMismatch { side: Side::Requesting, role: Role::Custody })
    } else if a.offering_custody.address != record.offering_custody_address {
        Err(EscrowError::ReferenceMismatch { side: Side::Offering, role: Role::Custody })
    } else if a.offering_destination.owner != record.requesting_party {
        Err(EscrowError::Ownership { side: Side::Offering, role: Role::Destination })
    } else if a.requesting_destination.owner != record.offering_party {
        Err(EscrowError::Ownership { side: Side::Requesting, role: Role::Destination })
    } else if a.offering_source.owner != a.requesting_destination.owner {
        Err(EscrowError::Ownership { side: Side::Offering, role: Role::Source })
    } else if a.requesting_source.owner != a.offering_destination.owner {
        Err(EscrowError::Ownership { side: Side::Requesting, role: Role::Source })
    } else if !balance_accepted(policy, a.offering_custody.amount) {
        Err(EscrowError::SupplyInvariant { side: Side::Offering, role: Role::Custody })
    } else if !balance_accepted(policy, a.requesting_custody.amount) {
        Err(EscrowError::SupplyInvariant { side: Side::Requesting, role: Role::Custody })
    } else {
        Ok(settlement_of(a, bump))
    }
}

/// Decides a request to settle. It is granted exactly when the custody
/// accounts are the ones on record, the destinations are owned crosswise
/// by the two parties and by the owners of the sources, and the custody
/// balances are acceptable under the policy.
pub fn settle(policy: Policy, a: &SettleAccounts, bump: u8) -> (r: Result<Settlement, EscrowError>)
    ensures
        r == settle_spec(policy, *a, bump),
        r is Ok <==> {
            &&& custody_on_record(*a)
            &&& destinations_cross_owned(*a)
            &&& destinations_match_sources(*a)
            &&& balance_accepted(policy, a.offering_custody.amount)
            &&& balance_accepted(policy, a.requesting_custody.amount)
        },
{
    let record = &a.escrow.record;
    account_matches_record(
        &a.requesting_custody.address,
        &record.requesting_custody_address,
        Side::Requesting,
        Role::Custody,
    )?;
    account_matches_record(
        &a.offering_custody.address,
        &record.offering_custody_address,
        Side::Offering,
        Role::Custody,
    )?;
    ownership_matches(
        &a.offering_destination,
        &record.requesting_party,
        Side::Offering,
        Role::Destination,
    )?;
    ownership_matches(
        &a.requesting_destination,
        &record.offering_party,
        Side::Requesting,
        Role::Destination,
    )?;
    ownership_matches(
        &a.offering_source,
        &a.requesting_destination.owner,
        Side::Offering,
        Role::Source,
    )?;
    ownership_matches(
        &a.requesting_source,
        &a.offering_destination.owner,
        Side::Requesting,
        Role::Source,
    )?;
    balance_matches(policy, &a.offering_custody, Side::Offering, Role::Custody)?;
    balance_matches(policy, &a.requesting_custody, Side::Requesting, Role::Custody)?;
    let authority = AuthorityProof::Derived {
        offering_source: a.offering_source.address,
        requesting_source: a.requesting_source.address,
        bump,
    };
    Ok(
        Settlement {
            first: Transfer {
                from: a.requesting_custody.address,
                to: a.requesting_destination.address,
                authority,
                amount: UNIT_AMOUNT,
            },
            second: Transfer {
                from: a.offering_custody.address,
                to: a.offering_destination.address,
                authority,
                amount: UNIT_AMOUNT,
            },
        },
    )
}

} // verus!
