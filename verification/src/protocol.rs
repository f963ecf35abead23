//! The four operations on a ledger.
//!
//! A request names accounts by address. The ledger looks them up, has the
//! request decided, and commits what was decided. An operation takes effect
//! whole or not at all: whatever the reason for a failure, the ledger is
//! then as it was.

use crate::address::Address;
use crate::derivation::{
    custody_address,
    custody_address_spec,
    record_address,
    record_address_spec,
    record_authority_spec,
};
use crate::error::EscrowError;
use crate::ledger::{Ledger, LedgerState, TransferError};
use crate::operation::{
    defund,
    defund_spec,
    fund,
    fund_spec,
    initialize,
    initialize_spec,
    settle,
    settle_spec,
    DefundAccounts,
    FundAccounts,
    InitializeAccounts,
    SettleAccounts,
};
use crate::record::{Escrow, EscrowAccount, Policy, Side, UNIT_AMOUNT};
use crate::token::TokenAccount;
use vstd::prelude::*;

verus! {

/// Why an operation on a ledger fails.
#[derive(Clone, Copy, Debug, PartialEq, Eq, Structural)]
pub enum Failure {
    /// A check of the escrow refused the request.
    Refused(EscrowError),
    /// The request names an account that the ledger does not hold.
    UnknownAccount,
    /// No address can be derived for the record or for a custody account.
    Underivable,
    /// The host rejected a transfer that the escrow had granted.
    Rejected(TransferError),
}

/// A request to open an escrow between the caller and another party.
#[derive(Clone, Copy, Debug, PartialEq, Eq)]
pub struct InitializeRequest {
    /// The authenticated caller, who becomes the offering party.
    pub caller: Address,
    pub requesting_party: Address,
    pub offering_asset_class: Address,
    pub requesting_asset_class: Address,
    /// The address of the offering party's original account.
    pub offering_source: Address,
    /// The address of the requesting party's original account.
    pub requesting_source: Address,
}

/// A request to fund one side of an escrow.
#[derive(Clone, Copy, Debug, PartialEq, Eq)]
pub struct FundRequest {
    /// The authenticated caller.
    pub caller: Address,
    pub escrow: Address,
    pub source: Address,
    pub custody: Address,
}

/// A request to defund one side of an escrow.
#[derive(Clone, Copy, Debug, PartialEq, Eq)]
pub struct DefundRequest {
    /// The authenticated caller.
    pub caller: Address,
    /// The bump of the record's address.
    pub bump: u8,
    pub escrow: Address,
    pub offering_source: Address,
    pub requesting_source: Address,
    /// The custody account of the side that is defunded.
    pub custody: Address,
}

/// A request to settle an escrow. It carries no caller: anyone may settle.
#[derive(Clone, Copy, Debug, PartialEq, Eq)]
pub struct SettleRequest {
    /// The bump of the record's address.
    pub bump: u8,
    pub escrow: Address,
    pub offering_source: Address,
    pub requesting_source: Address,
    pub offering_custody: Address,
    pub requesting_custody: Address,
    pub offering_destination: Address,
    pub requesting_destination: Address,
}

/// How far an escrow is funded, as its custody balances show. Settlement
/// is the step out of `BothFunded`: it empties both custody accounts.
#[derive(Clone, Copy, Debug, PartialEq, Eq, Structural)]
pub enum Stage {
    /// Neither custody account holds a unit.
    Created,
    /// Only the offering side's custody holds a unit.
    OfferingFunded,
    /// Only the requesting side's custody holds a unit.
    RequestingFunded,
    /// Both custody accounts hold a unit.
    BothFunded,
}

/// The stage that two funding flags amount to.
pub open spec fn stage_of(offering_funded: bool, requesting_funded: bool) -> Stage {
    if offering_funded && requesting_funded {
        Stage::BothFunded
    } else if offering_funded {
        Stage::OfferingFunded
    } else if requesting_funded {
        Stage::RequestingFunded
    } else {
        Stage::Created
    }
}

/// The three addresses that initialization allocates.
pub struct Allocation {
    pub record: Address,
    pub bump: u8,
    pub offering_custody: Address,
    pub requesting_custody: Address,
}

/// A new custody account: empty, and owned by the record.
pub open spec fn new_custody(
    address: Address,
    asset_class: Address,
    record: Address,
) -> TokenAccount {
    TokenAccount { address, asset_class, owner: record, amount: 0 }
}

impl LedgerState {
    /// Whether the ledger holds an escrow and both its custody accounts.
    pub open spec fn holds_escrow(self, escrow: Address) -> bool {
        &&& self.escrows.contains_key(escrow)
        &&& self.tokens.contains_key(self.escrows[escrow].offering_custody_address)
        &&& self.tokens.contains_key(self.escrows[escrow].requesting_custody_address)
    }

    /// Whether a side of an escrow is funded: its custody account holds at
    /// least one unit.
    pub open spec fn funded(self, escrow: Address, side: Side) -> bool {
        self.tokens[self.escrows[escrow].custody_address(side)].amount >= UNIT_AMOUNT
    }

    /// The stage of an escrow.
    pub open spec fn stage(self, escrow: Address) -> Stage {
        stage_of(self.funded(escrow, Side::Offering), self.funded(escrow, Side::Requesting))
    }

    /// The addresses that an escrow of two source accounts is allocated
    /// at, if all three can be derived.
    pub open spec fn allocation(
        self,
        offering_source: Address,
        requesting_source: Address,
    ) -> Option<Allocation> {
        match (
            record_address_spec(offering_source, requesting_source, self.program_id),
            custody_address_spec(Side::Offering, offering_source, self.program_id),
            custody_address_spec(Side::Requesting, requesting_source, self.program_id),
        ) {
            (Some((record, bump)), Some((offering_custody, _)), Some((requesting_custody, _))) =>
                Some(Allocation { record, bump, offering_custody, requesting_custody }),
            _ => None,
        }
    }

    /// Whether the three addresses of an allocation are free and distinct.
    pub open spec fn can_allocate(self, n: Allocation) -> bool {
        &&& !self.occupied(n.record)
        &&& !self.occupied(n.offering_custody)
        &&& !self.occupied(n.requesting_custody)
        &&& n.record != n.offering_custody
        &&& n.record != n.requesting_custody
        &&& n.offering_custody != n.requesting_custody
    }

    /// The ledger with a record stored at its address and both its custody
    /// accounts created.
    pub open spec fn opened(self, n: Allocation, record: Escrow) -> LedgerState {
        self.with_escrow(n.record, record).with_token(
            new_custody(n.offering_custody, record.offering_asset_class, n.record),
        ).with_token(new_custody(n.requesting_custody, record.requesting_asset_class, n.record))
    }

    /// The snapshot that a request to initialize is decided on.
    pub open spec fn initialize_accounts(
        self,
        q: InitializeRequest,
        n: Allocation,
    ) -> InitializeAccounts {
        InitializeAccounts {
            caller: q.caller,
            requesting_party: q.requesting_party,
            offering_asset_class: q.offering_asset_class,
            requesting_asset_class: q.requesting_asset_class,
            offering_source: self.token(q.offering_source),
            requesting_source: self.token(q.requesting_source),
            offering_custody: n.offering_custody,
            requesting_custody: n.requesting_custody,
        }
    }

    /// The outcome of a request to initialize: the ledger with the new
    /// record and its two empty custody accounts, and the record's address
    /// and bump. Both sources must exist and the three addresses must be
    /// derivable. The request fails with a collision where one of them is
    /// taken, before any other check of the escrow is made.
    pub open spec fn initialize(self, policy: Policy, q: InitializeRequest) -> Result<
        (LedgerState, Address, u8),
        Failure,
    > {
        if !self.tokens.contains_key(q.offering_source) || !self.tokens.contains_key(
            q.requesting_source,
        ) {
            Err(Failure::UnknownAccount)
        } else {
            match self.allocation(q.offering_source, q.requesting_source) {
                None => Err(Failure::Underivable),
                Some(n) => if !self.can_allocate(n) {
                    Err(Failure::Refused(EscrowError::AllocationCollision))
                } else {
                    match initialize_spec(policy, self.initialize_accounts(q, n)) {
                        Err(e) => Err(Failure::Refused(e)),
                        Ok(record) => Ok((self.opened(n, record), n.record, n.bump)),
                    }
                },
            }
        }
    }

    /// The snapshot that a request to fund is decided on.
    pub open spec fn fund_accounts(self, q: FundRequest) -> FundAccounts {
        FundAccounts {
            caller: q.caller,
            escrow: self.escrow_account(q.escrow),
            source: self.token(q.source),
            custody: self.token(q.custody),
        }
    }

    /// The outcome of a request to fund a side: the ledger after the
    /// granted transfer.
    pub open spec fn fund(self, side: Side, q: FundRequest) -> Result<LedgerState, Failure> {
        if !self.escrows.contains_key(q.escrow) || !self.tokens.contains_key(q.source)
            || !self.tokens.contains_key(q.custody) {
            Err(Failure::UnknownAccount)
        } else {
            match fund_spec(side, self.fund_accounts(q)) {
                Err(e) => Err(Failure::Refused(e)),
                Ok(t) => match self.transfer(t) {
                    Err(e) => Err(Failure::Rejected(e)),
                    Ok(after) => Ok(after),
                },
            }
        }
    }

    /// The snapshot that a request to defund is decided on.
    pub open spec fn defund_accounts(self, q: DefundRequest) -> DefundAccounts {
        DefundAccounts {
            caller: q.caller,
            escrow: self.escrow_account(q.escrow),
            offering_source: self.token(q.offering_source),
            requesting_source: self.token(q.requesting_source),
            custody: self.token(q.custody),
        }
    }

    /// The outcome of a request to defund a side: the ledger after the
    /// granted transfer.
    pub open spec fn defund(self, side: Side, q: DefundRequest) -> Result<LedgerState, Failure> {
        if !self.escrows.contains_key(q.escrow) || !self.tokens.contains_key(q.offering_source)
            || !self.tokens.contains_key(q.requesting_source) || !self.tokens.contains_key(
            q.custody,
        ) {
            Err(Failure::UnknownAccount)
        } else {
            match defund_spec(side, self.defund_accounts(q), q.bump, self.program_id) {
                Err(e) => Err(Failure::Refused(e)),
                Ok(t) => match self.transfer(t) {
                    Err(e) => Err(Failure::Rejected(e)),
                    Ok(after) => Ok(after),
                },
            }
        }
    }

    /// Whether the ledger holds every account that a request to settle
    /// names.
    pub open spec fn knows(self, q: SettleRequest) -> bool {
        &&& self.escrows.contains_key(q.escrow)
        &&& self.tokens.contains_key(q.offering_source)
        &&& self.tokens.contains_key(q.requesting_source)
        &&& self.tokens.contains_key(q.offering_custody)
        &&& self.tokens.contains_key(q.requesting_custody)
        &&& self.tokens.contains_key(q.offering_destination)
        &&& self.tokens.contains_key(q.requesting_destination)
    }

    /// The snapshot that a request to settle is decided on.
    pub open spec fn settle_accounts(self, q: SettleRequest) -> SettleAccounts {
        SettleAccounts {
            escrow: self.escrow_account(q.escrow),
            offering_source: self.token(q.offering_source),
            requesting_source: self.token(q.requesting_source),
            offering_custody: self.token(q.offering_custody),
            requesting_custody: self.token(q.requesting_custody),
            offering_destination: self.token(q.offering_destination),
            requesting_destination: self.token(q.requesting_destination),
        }
    }

    /// The outcome of a request to settle: the ledger after both granted
    /// transfers.
    pub open spec fn settle(self, policy: Policy, q: SettleRequest) -> Result<
        LedgerState,
        Failure,
    > {
        if !self.knows(q) {
            Err(Failure::UnknownAccount)
        } else {
            match settle_spec(policy, self.settle_accounts(q), q.bump) {
                Err(e) => Err(Failure::Refused(e)),
                Ok(s) => match self.transfer_both(s) {
                    Err(e) => Err(Failure::Rejected(e)),
                    Ok(after) => Ok(after),
                },
            }
        }
    }
}

impl Ledger {
    /// The stage of an escrow, if the ledger holds it and both its custody
    /// accounts.
    pub fn stage(&self, escrow: &Address) -> (r: Option<Stage>)
        ensures
            r == if self@.holds_escrow(*escrow) {
                Some(self@.stage(*escrow))
            } else {
                None
            },
    {
        let record = self.escrow(escrow)?;
        let offering = self.token_account(&record.offering_custody_address)?;
        let requesting = self.token_account(&record.requesting_custody_address)?;
        let offering_funded = offering.amount >= UNIT_AMOUNT;
        let requesting_funded = requesting.amount >= UNIT_AMOUNT;
        Some(
            if offering_funded && requesting_funded {
                Stage::BothFunded
            } else if offering_funded {
                Stage::OfferingFunded
            } else if requesting_funded {
                Stage::RequestingFunded
            } else {
                Stage::Created
            },
        )
    }

    /// Derives the three addresses that an escrow of two source accounts
    /// is allocated at. The bump reproduces the record's address.
    fn allocation(&self, offering_source: &Address, requesting_source: &Address) -> (r: Option<
        Allocation,
    >)
        ensures
            r == self@.allocation(*offering_source, *requesting_source),
            r matches Some(n) ==> record_authority_spec(
                *offering_source,
                *requesting_source,
                n.bump,
                self@.program_id,
            ) == Some(n.record),
    {
        let program_id = self.program_id();
        let record = record_address(offering_source, requesting_source, &program_id);
        let offering = custody_address(Side::Offering, offering_source, &program_id);
        let requesting = custody_address(Side::Requesting, requesting_source, &program_id);
        match (record, offering, requesting) {
            (Some((record, bump)), Some((offering_custody, _)), Some((requesting_custody, _))) =>
                Some(Allocation { record, bump, offering_custody, requesting_custody }),
            _ => None,
        }
    }

    /// Opens an escrow: stores the record and creates its two empty custody
    /// accounts, owned by the record. Returns the record's address and the
    /// bump that reproduces it.
    pub fn initialize(&mut self, policy: Policy, q: &InitializeRequest) -> (r: Result<
        (Address, u8),
        Failure,
    >)
        ensures
            match old(self)@.initialize(policy, *q) {
                Ok((after, record, bump)) => r == Ok::<(Address, u8), Failure>((record, bump))
                    && final(self)@ == after,
                Err(e) => r == Err::<(Address, u8), Failure>(e) && final(self)@ == old(self)@,
            },
            r matches Ok((record, bump)) ==> record_authority_spec(
                q.offering_source,
                q.requesting_source,
                bump,
                old(self)@.program_id,
            ) == Some(record),
    {
        let offering_source = match self.token_account(&q.offering_source) {
            Some(account) => account,
            None => {
                return Err(Failure::UnknownAccount);
            },
        };
        let requesting_source = match self.token_account(&q.requesting_source) {
            Some(account) => account,
            None => {
                return Err(Failure::UnknownAccount);
            },
        };
        let n = match self.allocation(&q.offering_source, &q.requesting_source) {
            Some(n) => n,
            None => {
                return Err(Failure::Underivable);
            },
        };
        if self.occupied(&n.record) || self.occupied(&n.offering_custody) || self.occupied(
            &n.requesting_custody,
        ) || n.record == n.offering_custody || n.record == n.requesting_custody
            || n.offering_custody == n.requesting_custody {
            return Err(Failure::Refused(EscrowError::AllocationCollision));
        }
        let accounts = InitializeAccounts {
            caller: q.caller,
            requesting_party: q.requesting_party,
            offering_asset_class: q.offering_asset_class,
            requesting_asset_class: q.requesting_asset_class,
            offering_source,
            requesting_source,
            offering_custody: n.offering_custody,
            requesting_custody: n.requesting_custody,
        };
        let record = match initialize(policy, &accounts) {
            Ok(record) => record,
            Err(e) => {
                return Err(Failure::Refused(e));
            },
        };
        let stored = self.create_escrow(EscrowAccount { address: n.record, record });
        let first = self.create_token_account(
            TokenAccount {
                address: n.offering_custody,
                asset_class: q.offering_asset_class,
                owner: n.record,
                amount: 0,
            },
        );
        let second = self.create_token_account(
            TokenAccount {
                address: n.requesting_custody,
                asset_class: q.requesting_asset_class,
                owner: n.record,
                amount: 0,
            },
        );
        assert(stored && first && second);
        Ok((n.record, n.bump))
    }

    /// Funds one side of an escrow: moves one unit from the caller's
    /// source account into that side's custody.
    pub fn fund(&mut self, side: Side, q: &FundRequest) -> (r: Result<(), Failure>)
        ensures
            match old(self)@.fund(side, *q) {
                Ok(after) => r is Ok && final(self)@ == after,
                Err(e) => r == Err::<(), Failure>(e) && final(self)@ == old(self)@,
            },
    {
        let escrow = match self.escrow(&q.escrow) {
            Some(record) => EscrowAccount { address: q.escrow, record },
            None => {
                return Err(Failure::UnknownAccount);
            },
        };
        let source = match self.token_account(&q.source) {
            Some(account) => account,
            None => {
                return Err(Failure::UnknownAccount);
            },
        };
        let custody = match self.token_account(&q.custody) {
            Some(account) => account,
            None => {
                return Err(Failure::UnknownAccount);
            },
        };
        let accounts = FundAccounts { caller: q.caller, escrow, source, custody };
        let granted = match fund(side, &accounts) {
            Ok(t) => t,
            Err(e) => {
                return Err(Failure::Refused(e));
            },
        };
        match self.transfer(&granted) {
            Ok(()) => Ok(()),
            Err(e) => Err(Failure::Rejected(e)),
        }
    }

    /// Defunds one side of an escrow: moves one unit from that side's
    /// custody back to its source account.
    pub fn defund(&mut self, side: Side, q: &DefundRequest) -> (r: Result<(), Failure>)
        ensures
            match old(self)@.defund(side, *q) {
                Ok(after) => r is Ok && final(self)@ == after,
                Err(e) => r == Err::<(), Failure>(e) && final(self)@ == old(self)@,
            },
    {
        let escrow = match self.escrow(&q.escrow) {
            Some(record) => EscrowAccount { address: q.escrow, record },
            None => {
                return Err(Failure::UnknownAccount);
            },
        };
        let offering_source = match self.token_account(&q.offering_source) {
            Some(account) => account,
            None => {
                return Err(Failure::UnknownAccount);
            },
        };
        let requesting_source = match self.token_account(&q.requesting_source) {
            Some(account) => account,
            None => {
                return Err(Failure::UnknownAccount);
            },
        };
        let custody = match self.token_account(&q.custody) {
            Some(account) => account,
            None => {
                return Err(Failure::UnknownAccount);
            },
        };
        let accounts = DefundAccounts {
            caller: q.caller,
            escrow,
            offering_source,
            requesting_source,
            custody,
        };
        let program_id = self.program_id();
        let granted = match defund(side, &accounts, q.bump, &program_id) {
            Ok(t) => t,
            Err(e) => {
                return Err(Failure::Refused(e));
            },
        };
        match self.transfer(&granted) {
            Ok(()) => Ok(()),
            Err(e) => Err(Failure::Rejected(e)),
        }
    }

    /// Looks up every account that a request to settle names.
    fn settle_accounts(&self, q: &SettleRequest) -> (r: Option<SettleAccounts>)
        ensures
            r == if self@.knows(*q) {
                Some(self@.settle_accounts(*q))
            } else {
                None
            },
    {
        let escrow = EscrowAccount { address: q.escrow, record: self.escrow(&q.escrow)? };
        Some(
            SettleAccounts {
                escrow,
                offering_source: self.token_account(&q.offering_source)?,
                requesting_source: self.token_account(&q.requesting_source)?,
                offering_custody: self.token_account(&q.offering_custody)?,
                requesting_custody: self.token_account(&q.requesting_custody)?,
                offering_destination: self.token_account(&q.offering_destination)?,
                requesting_destination: self.token_account(&q.requesting_destination)?,
            },
        )
    }

    /// Settles an escrow: moves the requesting side's custody to the
    /// offering party's destination and the offering side's custody to the
    /// requesting party's destination. Both transfers take effect, or
    /// neither does.
    pub fn settle(&mut self, policy: Policy, q: &SettleRequest) -> (r: Result<(), Failure>)
        ensures
            match old(self)@.settle(policy, *q) {
                Ok(after) => r is Ok && final(self)@ == after,
                Err(e) => r == Err::<(), Failure>(e) && final(self)@ == old(self)@,
            },
    {
        let accounts = match self.settle_accounts(q) {
            Some(accounts) => accounts,
            None => {
                return Err(Failure::UnknownAccount);
            },
        };
        let granted = match settle(policy, &accounts, q.bump) {
            Ok(s) => s,
            Err(e) => {
                return Err(Failure::Refused(e));
            },
        };
        match self.transfer_both(&granted) {
            Ok(()) => Ok(()),
            Err(e) => Err(Failure::Rejected(e)),
        }
    }
}

} // verus!
