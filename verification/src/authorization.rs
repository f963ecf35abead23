//! The checks that every operation makes before it changes anything.
//!
//! Each check either passes or names the refusal: its kind, and the side
//! and role of the account it was about.

use crate::address::Address;
use crate::error::{EscrowError, Role};
use crate::record::{Escrow, Policy, Side, UNIT_AMOUNT};
use crate::token::TokenAccount;
use vstd::prelude::*;

verus! {

/// The caller is the party that the record names on the given side.
pub fn caller_is_party(record: &Escrow, side: Side, caller: &Address) -> (r: Result<
    (),
    EscrowError,
>)
    ensures
        r == if *caller == record.party(side) {
            Ok::<(), EscrowError>(())
        } else {
            Err(EscrowError::Authorization { side })
        },
{
    if *caller == record.party(side) {
        Ok(())
    } else {
        Err(EscrowError::Authorization { side })
    }
}

/// A supplied address is the one that the record gives.
pub fn account_matches_record(supplied: &Address, recorded: &Address, side: Side, role: Role) -> (r:
    Result<(), EscrowError>)
    ensures
        r == if *supplied == *recorded {
            Ok::<(), EscrowError>(())
        } else {
            Err(EscrowError::ReferenceMismatch { side, role })
        },
{
    if *supplied == *recorded {
        Ok(())
    } else {
        Err(EscrowError::ReferenceMismatch { side, role })
    }
}

/// An account's owner is the expected one.
pub fn ownership_matches(account: &TokenAccount, expected: &Address, side: Side, role: Role) -> (r:
    Result<(), EscrowError>)
    ensures
        r == if account.owner == *expected {
            Ok::<(), EscrowError>(())
        } else {
            Err(EscrowError::Ownership { side, role })
        },
{
    if account.owner == *expected {
        Ok(())
    } else {
        Err(EscrowError::Ownership { side, role })
    }
}

/// Whether an account's balance is acceptable under a policy: any balance
/// where amounts are arbitrary, exactly one unit otherwise.
pub open spec fn balance_accepted(policy: Policy, amount: u64) -> bool {
    policy == Policy::ArbitraryAmount || amount == UNIT_AMOUNT
}

/// An account's balance is acceptable under the policy.
pub fn balance_matches(policy: Policy, account: &TokenAccount, side: Side, role: Role) -> (r:
    Result<(), EscrowError>)
    ensures
        r == if balance_accepted(policy, account.amount) {
            Ok::<(), EscrowError>(())
        } else {
            Err(EscrowError::SupplyInvariant { side, role })
        },
{
    match policy {
        Policy::ArbitraryAmount => Ok(()),
        Policy::ExactUnit => {
            if account.amount == UNIT_AMOUNT {
                Ok(())
            } else {
                Err(EscrowError::SupplyInvariant { side, role })
            }
        },
    }
}

} // verus!
