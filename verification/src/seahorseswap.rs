//! The single-unit program: an escrow in which the original accounts at
//! initialization and the custody accounts at settlement must hold exactly
//! one unit.
//!
//! Each handler decides a request as the escrow's rules say and reports a
//! refusal by one of this program's codes, one for each check of each
//! instruction.

use crate::address::Address;
use crate::error::{ErrorKind, EscrowError, Role};
use crate::operation::{
    defund,
    defund_spec,
    fund,
    fund_spec,
    initialize,
    initialize_spec,
    settle,
    settle_spec,
    DefundAccounts,
    FundAccounts,
    InitializeAccounts,
    SettleAccounts,
};
pub use crate::record::Escrow;
use crate::record::{EscrowAccount, Policy, Side};
use crate::token::{Settlement, TokenAccount, Transfer};
use vstd::prelude::*;

verus! {

/// The balance policy of this program.
pub const POLICY: Policy = Policy::ExactUnit;

/// The codes by which this program reports a refusal.
#[derive(Clone, Copy, Debug, PartialEq, Eq, Structural)]
pub enum ProgramError {
    /// The offering party does not own the original offering account.
    E000,
    /// The requesting party does not own the original requesting account.
    E001,
    /// The original offering account does not hold exactly one unit.
    E002,
    /// The original requesting account does not hold exactly one unit.
    E003,
    /// Funding the offering side: the caller is not the offering party.
    E004,
    /// Funding the offering side: the custody account is not on record.
    E005,
    /// Funding the offering side: the record does not own the custody account.
    E006,
    /// Defunding the offering side: the caller is not the offering party.
    E007,
    /// An account of the offering side is not the one on record.
    E008,
    /// An account of the requesting side is not the one on record.
    E009,
    /// The requesting party does not own the original requesting account.
    E010,
    /// The offering party does not own the original offering account.
    E011,
    /// Funding the requesting side: the caller is not the requesting party.
    E012,
    /// Funding the requesting side: the custody account is not on record.
    E013,
    /// Funding the requesting side: the record does not own the custody account.
    E014,
    /// Defunding the requesting side: the caller is not the requesting party.
    E015,
    /// The original offering account and the requested asset's destination differ in owner.
    E016,
    /// The original requesting account and the offered asset's destination differ in owner.
    E017,
    /// The destination of the offered asset is not owned by the requesting party.
    E018,
    /// The destination of the requested asset is not owned by the offering party.
    E019,
    /// The offering custody account does not hold exactly one unit.
    E020,
    /// The requesting custody account does not hold exactly one unit.
    E021,
}

impl ProgramError {
    /// The kind of refusal that a code reports.
    pub open spec fn spec_kind(&self) -> ErrorKind {
        match self {
            ProgramError::E004
            | ProgramError::E007
            | ProgramError::E012
            | ProgramError::E015 => ErrorKind::Authorization,
            ProgramError::E005
            | ProgramError::E008
            | ProgramError::E009
            | ProgramError::E013 => ErrorKind::ReferenceMismatch,
            ProgramError::E000
            | ProgramError::E001
            | ProgramError::E006
            | ProgramError::E010
            | ProgramError::E011
            | ProgramError::E014
            | ProgramError::E016
            | ProgramError::E017
            | ProgramError::E018
            | ProgramError::E019 => ErrorKind::Ownership,
            ProgramError::E002
            | ProgramError::E003
            | ProgramError::E020
            | ProgramError::E021 => ErrorKind::SupplyInvariant,
        }
    }

    /// The kind of refusal that a code reports.
    #[verifier::when_used_as_spec(spec_kind)]
    pub fn kind(&self) -> (k: ErrorKind)
        ensures
            k == self.spec_kind(),
    {
        match self {
            ProgramError::E004
            | ProgramError::E007
            | ProgramError::E012
            | ProgramError::E015 => ErrorKind::Authorization,
            ProgramError::E005
            | ProgramError::E008
            | ProgramError::E009
            | ProgramError::E013 => ErrorKind::ReferenceMismatch,
            ProgramError::E000
            | ProgramError::E001
            | ProgramError::E006
            | ProgramError::E010
            | ProgramError::E011
            | ProgramError::E014
            | ProgramError::E016
            | ProgramError::E017
            | ProgramError::E018
            | ProgramError::E019 => ErrorKind::Ownership,
            ProgramError::E002
            | ProgramError::E003
            | ProgramError::E020
            | ProgramError::E021 => ErrorKind::SupplyInvariant,
        }
    }

    /// The code for a refusal to open an escrow.
    pub open spec fn spec_for_initialize(e: EscrowError) -> ProgramError {
        match e {
            EscrowError::Ownership { side: Side::Offering, .. } => ProgramError::E000,
            EscrowError::Ownership { side: Side::Requesting, .. } => ProgramError::E001,
            EscrowError::SupplyInvariant { side: Side::Offering, .. } => ProgramError::E002,
            _ => ProgramError::E003,
        }
    }

    /// The code for a refusal to open an escrow.
    #[verifier::when_used_as_spec(spec_for_initialize)]
    pub fn for_initialize(e: EscrowError) -> (code: ProgramError)
        ensures
            code == ProgramError::spec_for_initialize(e),
    {
        match e {
            EscrowError::Ownership { side: Side::Offering, .. } => ProgramError::E000,
            EscrowError::Ownership { side: Side::Requesting, .. } => ProgramError::E001,
            EscrowError::SupplyInvariant { side: Side::Offering, .. } => ProgramError::E002,
            _ => ProgramError::E003,
        }
    }

    /// The code for a refusal to fund a side.
    pub open spec fn spec_for_fund(side: Side, e: EscrowError) -> ProgramError {
        match (side, e) {
            (Side::Offering, EscrowError::Authorization { .. }) => ProgramError::E004,
            (Side::Offering, EscrowError::ReferenceMismatch { .. }) => ProgramError::E005,
            (Side::Offering, _) => ProgramError::E006,
            (Side::Requesting, EscrowError::Authorization { .. }) => ProgramError::E012,
            (Side::Requesting, EscrowError::ReferenceMismatch { .. }) => ProgramError::E013,
            (Side::Requesting, _) => ProgramError::E014,
        }
    }

    /// The code for a refusal to fund a side.
    #[verifier::when_used_as_spec(spec_for_fund)]
    pub fn for_fund(side: Side, e: EscrowError) -> (code: ProgramError)
        ensures
            code == ProgramError::spec_for_fund(side, e),
    {
        match (side, e) {
            (Side::Offering, EscrowError::Authorization { .. }) => ProgramError::E004,
            (Side::Offering, EscrowError::ReferenceMismatch { .. }) => ProgramError::E005,
            (Side::Offering, _) => ProgramError::E006,
            (Side::Requesting, EscrowError::Authorization { .. }) => ProgramError::E012,
            (Side::Requesting, EscrowError::ReferenceMismatch { .. }) => ProgramError::E013,
            (Side::Requesting, _) => ProgramError::E014,
        }
    }

    /// The code for a refusal to defund a side.
    pub open spec fn spec_for_defund(side: Side, e: EscrowError) -> ProgramError {
        match (side, e) {
            (Side::Offering, EscrowError::Authorization { .. }) => ProgramError::E007,
            (Side::Requesting, EscrowError::Authorization { .. }) => ProgramError::E015,
            (_, EscrowError::ReferenceMismatch { side: Side::Offering, .. }) =>
                ProgramError::E008,
            (_, EscrowError::ReferenceMismatch { side: Side::Requesting, .. }) =>
                ProgramError::E009,
            (_, EscrowError::Ownership { side: Side::Requesting, .. }) => ProgramError::E010,
            _ => ProgramError::E011,
        }
    }

    /// The code for a refusal to defund a side.
    #[verifier::when_used_as_spec(spec_for_defund)]
    pub fn for_defund(side: Side, e: EscrowError) -> (code: ProgramError)
        ensures
            code == ProgramError::spec_for_defund(side, e),
    {
        match (side, e) {
            (Side::Offering, EscrowError::Authorization { .. }) => ProgramError::E007,
            (Side::Requesting, EscrowError::Authorization { .. }) => ProgramError::E015,
            (_, EscrowError::ReferenceMismatch { side: Side::Offering, .. }) =>
                ProgramError::E008,
            (_, EscrowError::ReferenceMismatch { side: Side::Requesting, .. }) =>
                ProgramError::E009,
            (_, EscrowError::Ownership { side: Side::Requesting, .. }) => ProgramError::E010,
            _ => ProgramError::E011,
        }
    }

    /// The code for a refusal to settle.
    pub open spec fn spec_for_settle(e: EscrowError) -> ProgramError {
        match e {
            EscrowError::ReferenceMismatch { side: Side::Offering, .. } => ProgramError::E008,
            EscrowError::ReferenceMismatch { side: Side::Requesting, .. } => ProgramError::E009,
            EscrowError::Ownership { side: Side::Offering, role: Role::Source } =>
                ProgramError::E016,
            EscrowError::Ownership { side: Side::Requesting, role: Role::Source } =>
                ProgramError::E017,
            EscrowError::Ownership { side: Side::Offering, .. } => ProgramError::E018,
            EscrowError::Ownership { side: Side::Requesting, .. } => ProgramError::E019,
            EscrowError::SupplyInvariant { side: Side::Offering, .. } => ProgramError::E020,
            _ => ProgramError::E021,
        }
    }

    /// The code for a refusal to settle.
    #[verifier::when_used_as_spec(spec_for_settle)]
    pub fn for_settle(e: EscrowError) -> (code: ProgramError)
        ensures
            code == ProgramError::spec_for_settle(e),
    {
        match e {
            EscrowError::ReferenceMismatch { side: Side::Offering, .. } => ProgramError::E008,
            EscrowError::ReferenceMismatch { side: Side::Requesting, .. } => ProgramError::E009,
            EscrowError::Ownership { side: Side::Offering, role: Role::Source } =>
                ProgramError::E016,
            EscrowError::Ownership { side: Side::Requesting, role: Role::Source } =>
                ProgramError::E017,
            EscrowError::Ownership { side: Side::Offering, .. } => ProgramError::E018,
            EscrowError::Ownership { side: Side::Requesting, .. } => ProgramError::E019,
            EscrowError::SupplyInvariant { side: Side::Offering, .. } => ProgramError::E020,
            _ => ProgramError::E021,
        }
    }
}

/// What a request to open an escrow names.
#[derive(Clone, Copy, Debug, PartialEq, Eq)]
pub struct InitEscrow {
    /// The authenticated caller, who becomes the offering party.
    pub offering_signer: Address,
    /// The asset class that is offered.
    pub offering_token_mint: Address,
    /// The asset class that is asked for.
    pub requesting_token_mint: Address,
    /// The offering party's original account.
    pub original_offering_token_account: TokenAccount,
    /// The requesting party's original account.
    pub original_requesting_token_account: TokenAccount,
    /// The account allocated for the record, which the handler fills.
    pub escrow: EscrowAccount,
    /// The new custody account of the offering side.
    pub escrow_offering_token_account: TokenAccount,
    /// The new custody account of the requesting side.
    pub escrow_requesting_token_account: TokenAccount,
}

/// What a request to fund the offering side names.
#[derive(Clone, Copy, Debug, PartialEq, Eq)]
pub struct FundEscrowOfferingTokenAccount {
    /// The authenticated caller.
    pub offering_signer: Address,
    pub escrow: EscrowAccount,
    pub original_offering_token_account: TokenAccount,
    pub escrow_offering_token_account: TokenAccount,
}

/// What a request to defund the offering side names.
#[derive(Clone, Copy, Debug, PartialEq, Eq)]
pub struct DefundEscrowOfferingTokenAccount {
    /// The authenticated caller.
    pub offering_signer: Address,
    pub escrow: EscrowAccount,
    pub original_offering_token_account: TokenAccount,
    pub original_requesting_token_account: TokenAccount,
    pub escrow_offering_token_account: TokenAccount,
}

/// What a request to fund the requesting side names.
#[derive(Clone, Copy, Debug, PartialEq, Eq)]
pub struct FundEscrowRequestingTokenAccount {
    /// The authenticated caller.
    pub requesting_signer: Address,
    pub escrow: EscrowAccount,
    pub original_requesting_token_account: TokenAccount,
    pub escrow_requesting_token_account: TokenAccount,
}

/// What a request to defund the requesting side names.
#[derive(Clone, Copy, Debug, PartialEq, Eq)]
pub struct DefundEscrowRequestingTokenAccount {
    /// The authenticated caller.
    pub requesting_signer: Address,
    pub escrow: EscrowAccount,
    pub original_offering_token_account: TokenAccount,
    pub original_requesting_token_account: TokenAccount,
    pub escrow_requesting_token_account: TokenAccount,
}

/// What a request to settle names.
#[derive(Clone, Copy, Debug, PartialEq, Eq)]
pub struct CrankSwap {
    pub escrow: EscrowAccount,
    pub original_offering_token_account: TokenAccount,
    pub original_requesting_token_account: TokenAccount,
    pub escrow_offering_token_account: TokenAccount,
    pub escrow_requesting_token_account: TokenAccount,
    /// Where the offered asset goes: an account of the requesting party.
    pub final_offering_token_account: TokenAccount,
    /// Where the requested asset goes: an account of the offering party.
    pub final_requesting_token_account: TokenAccount,
}

impl InitEscrow {
    /// The request in the terms in which it is decided.
    pub open spec fn spec_accounts(&self, requesting_wallet_pubkey: Address) -> InitializeAccounts {
        InitializeAccounts {
            caller: self.offering_signer,
            requesting_party: requesting_wallet_pubkey,
            offering_asset_class: self.offering_token_mint,
            requesting_asset_class: self.requesting_token_mint,
            offering_source: self.original_offering_token_account,
            requesting_source: self.original_requesting_token_account,
            offering_custody: self.escrow_offering_token_account.address,
            requesting_custody: self.escrow_requesting_token_account.address,
        }
    }

    /// The request in the terms in which it is decided.
    #[verifier::when_used_as_spec(spec_accounts)]
    pub fn accounts(&self, requesting_wallet_pubkey: Address) -> (a: InitializeAccounts)
        ensures
            a == self.spec_accounts(requesting_wallet_pubkey),
    {
        InitializeAccounts {
            caller: self.offering_signer,
            requesting_party: requesting_wallet_pubkey,
            offering_asset_class: self.offering_token_mint,
            requesting_asset_class: self.requesting_token_mint,
            offering_source: self.original_offering_token_account,
            requesting_source: self.original_requesting_token_account,
            offering_custody: self.escrow_offering_token_account.address,
            requesting_custody: self.escrow_requesting_token_account.address,
        }
    }
}

impl FundEscrowOfferingTokenAccount {
    /// The request in the terms in which it is decided.
    pub open spec fn spec_accounts(&self) -> FundAccounts {
        FundAccounts {
            caller: self.offering_signer,
            escrow: self.escrow,
            source: self.original_offering_token_account,
            custody: self.escrow_offering_token_account,
        }
    }

    /// The request in the terms in which it is decided.
    #[verifier::when_used_as_spec(spec_accounts)]
    pub fn accounts(&self) -> (a: FundAccounts)
        ensures
            a == self.spec_accounts(),
    {
        FundAccounts {
            caller: self.offering_signer,
            escrow: self.escrow,
            source: self.original_offering_token_account,
            custody: self.escrow_offering_token_account,
        }
    }
}

impl DefundEscrowOfferingTokenAccount {
    /// The request in the terms in which it is decided.
    pub open spec fn spec_accounts(&self) -> DefundAccounts {
        DefundAccounts {
            caller: self.offering_signer,
            escrow: self.escrow,
            offering_source: self.original_offering_token_account,
            requesting_source: self.original_requesting_token_account,
            custody: self.escrow_offering_token_account,
        }
    }

    /// The request in the terms in which it is decided.
    #[verifier::when_used_as_spec(spec_accounts)]
    pub fn accounts(&self) -> (a: DefundAccounts)
        ensures
            a == self.spec_accounts(),
    {
        DefundAccounts {
            caller: self.offering_signer,
            escrow: self.escrow,
            offering_source: self.original_offering_token_account,
            requesting_source: self.original_requesting_token_account,
            custody: self.escrow_offering_token_account,
        }
    }
}

impl FundEscrowRequestingTokenAccount {
    /// The request in the terms in which it is decided.
    pub open spec fn spec_accounts(&self) -> FundAccounts {
        FundAccounts {
            caller: self.requesting_signer,
            escrow: self.escrow,
            source: self.original_requesting_token_account,
            custody: self.escrow_requesting_token_account,
        }
    }

    /// The request in the terms in which it is decided.
    #[verifier::when_used_as_spec(spec_accounts)]
    pub fn accounts(&self) -> (a: FundAccounts)
        ensures
            a == self.spec_accounts(),
    {
        FundAccounts {
            caller: self.requesting_signer,
            escrow: self.escrow,
            source: self.original_requesting_token_account,
            custody: self.escrow_requesting_token_account,
        }
    }
}

impl DefundEscrowRequestingTokenAccount {
    /// The request in the terms in which it is decided.
    pub open spec fn spec_accounts(&self) -> DefundAccounts {
        DefundAccounts {
            caller: self.requesting_signer,
            escrow: self.escrow,
            offering_source: self.original_offering_token_account,
            requesting_source: self.original_requesting_token_account,
            custody: self.escrow_requesting_token_account,
        }
    }

    /// The request in the terms in which it is decided.
    #[verifier::when_used_as_spec(spec_accounts)]
    pub fn accounts(&self) -> (a: DefundAccounts)
        ensures
            a == self.spec_accounts(),
    {
        DefundAccounts {
            caller: self.requesting_signer,
            escrow: self.escrow,
            offering_source: self.original_offering_token_account,
            requesting_source: self.original_requesting_token_account,
            custody: self.escrow_requesting_token_account,
        }
    }
}

impl CrankSwap {
    /// The request in the terms in which it is decided.
    pub open spec fn spec_accounts(&self) -> SettleAccounts {
        SettleAccounts {
            escrow: self.escrow,
            offering_source: self.original_offering_token_account,
            requesting_source: self.original_requesting_token_account,
            offering_custody: self.escrow_offering_token_account,
            requesting_custody: self.escrow_requesting_token_account,
            offering_destination: self.final_offering_token_account,
            requesting_destination: self.final_requesting_token_account,
        }
    }

    /// The request in the terms in which it is decided.
    #[verifier::when_used_as_spec(spec_accounts)]
    pub fn accounts(&self) -> (a: SettleAccounts)
        ensures
            a == self.spec_accounts(),
    {
        SettleAccounts {
            escrow: self.escrow,
            offering_source: self.original_offering_token_account,
            requesting_source: self.original_requesting_token_account,
            offering_custody: self.escrow_offering_token_account,
            requesting_custody: self.escrow_requesting_token_account,
            offering_destination: self.final_offering_token_account,
            requesting_destination: self.final_requesting_token_account,
        }
    }
}

impl InitEscrow {
    /// The request with the record written into the account allocated for
    /// it.
    pub open spec fn with_record(self, record: Escrow) -> InitEscrow {
        InitEscrow { escrow: EscrowAccount { address: self.escrow.address, record }, ..self }
    }
}

/// Opens an escrow: writes the six fields of the record into the account
/// allocated for it. Each original
/// account must be owned by its party and hold exactly one unit.
/// No asset moves. Where the request is refused nothing is written.
pub fn init_escrow_handler(ctx: &mut InitEscrow, requesting_wallet_pubkey: Address) -> (r: Result<
    (),
    ProgramError,
>)
    ensures
        match initialize_spec(POLICY, old(ctx).accounts(requesting_wallet_pubkey)) {
            Ok(record) => r is Ok && *final(ctx) == old(ctx).with_record(record),
            Err(e) => r == Err::<(), ProgramError>(ProgramError::for_initialize(e))
                && *final(ctx) == *old(ctx),
        },
        r matches Err(code) ==> initialize_spec(POLICY, old(ctx).accounts(requesting_wallet_pubkey))
            matches Err(e) && code.kind() == e.kind(),
{
    match initialize(POLICY, &ctx.accounts(requesting_wallet_pubkey)) {
        Ok(record) => {
            ctx.escrow.record = record;
            Ok(())
        },
        Err(e) => Err(ProgramError::for_initialize(e)),
    }
}

/// Funds the offering side: grants the transfer of one unit from the
/// caller's original account into the custody account, on the caller's
/// signature. A caller who is not the offering party is refused with
/// `E004`, whatever accounts the request names.
pub fn fund_escrow_offering_token_account_handler(
    ctx: &FundEscrowOfferingTokenAccount,
) -> (r: Result<Transfer, ProgramError>)
    ensures
        r == match fund_spec(Side::Offering, ctx.accounts()) {
            Ok(t) => Ok::<Transfer, ProgramError>(t),
            Err(e) => Err(ProgramError::for_fund(Side::Offering, e)),
        },
        r matches Err(code) ==> fund_spec(Side::Offering, ctx.accounts()) matches Err(e)
            && code.kind() == e.kind(),
        ctx.offering_signer != ctx.escrow.record.party(Side::Offering) ==> r == Err::<
            Transfer,
            ProgramError,
        >(ProgramError::E004),
{
    match fund(Side::Offering, &ctx.accounts()) {
        Ok(t) => Ok(t),
        Err(e) => Err(ProgramError::for_fund(Side::Offering, e)),
    }
}

/// Defunds the offering side: grants the transfer of one unit from the
/// custody account back to the offering party's original account, on the
/// authority of the record as the two original accounts and the bump
/// reproduce it. Only the offering party is granted it.
pub fn defund_escrow_offering_token_account_handler(
    ctx: &DefundEscrowOfferingTokenAccount,
    escrow_bump: u8,
    program_id: &Address,
) -> (r: Result<Transfer, ProgramError>)
    ensures
        r == match defund_spec(Side::Offering, ctx.accounts(), escrow_bump, *program_id) {
            Ok(t) => Ok::<Transfer, ProgramError>(t),
            Err(e) => Err(ProgramError::for_defund(Side::Offering, e)),
        },
        r matches Err(code) ==> defund_spec(
            Side::Offering,
            ctx.accounts(),
            escrow_bump,
            *program_id,
        ) matches Err(e) && code.kind() == e.kind(),
        r is Ok ==> ctx.accounts().caller == ctx.escrow.record.party(Side::Offering),
{
    match defund(Side::Offering, &ctx.accounts(), escrow_bump, program_id) {
        Ok(t) => Ok(t),
        Err(e) => Err(ProgramError::for_defund(Side::Offering, e)),
    }
}

/// Funds the requesting side: grants the transfer of one unit from the
/// caller's original account into the custody account, on the caller's
/// signature. A caller who is not the requesting party is refused with
/// `E012`, whatever accounts the request names.
pub fn fund_escrow_requesting_token_account_handler(
    ctx: &FundEscrowRequestingTokenAccount,
) -> (r: Result<Transfer, ProgramError>)
    ensures
        r == match fund_spec(Side::Requesting, ctx.accounts()) {
            Ok(t) => Ok::<Transfer, ProgramError>(t),
            Err(e) => Err(ProgramError::for_fund(Side::Requesting, e)),
        },
        r matches Err(code) ==> fund_spec(Side::Requesting, ctx.accounts()) matches Err(e)
            && code.kind() == e.kind(),
        ctx.requesting_signer != ctx.escrow.record.party(Side::Requesting) ==> r == Err::<
            Transfer,
            ProgramError,
        >(ProgramError::E012),
{
    match fund(Side::Requesting, &ctx.accounts()) {
        Ok(t) => Ok(t),
        Err(e) => Err(ProgramError::for_fund(Side::Requesting, e)),
    }
}

/// Defunds the requesting side: grants the transfer of one unit from the
/// custody account back to the requesting party's original account, on the
/// authority of the record as the two original accounts and the bump
/// reproduce it. Only the requesting party is granted it.
pub fn defund_escrow_requesting_token_account_handler(
    ctx: &DefundEscrowRequestingTokenAccount,
    escrow_bump: u8,
    program_id: &Address,
) -> (r: Result<Transfer, ProgramError>)
    ensures
        r == match defund_spec(Side::Requesting, ctx.accounts(), escrow_bump, *program_id) {
            Ok(t) => Ok::<Transfer, ProgramError>(t),
            Err(e) => Err(ProgramError::for_defund(Side::Requesting, e)),
        },
        r matches Err(code) ==> defund_spec(
            Side::Requesting,
            ctx.accounts(),
            escrow_bump,
            *program_id,
        ) matches Err(e) && code.kind() == e.kind(),
        r is Ok ==> ctx.accounts().caller == ctx.escrow.record.party(Side::Requesting),
{
    match defund(Side::Requesting, &ctx.accounts(), escrow_bump, program_id) {
        Ok(t) => Ok(t),
        Err(e) => Err(ProgramError::for_defund(Side::Requesting, e)),
    }
}

/// Settles the escrow: grants the two transfers out of custody, the
/// requested asset to the offering party's destination and the offered
/// asset to the requesting party's destination. Anyone may ask.
/// Each custody account must hold exactly one unit.
pub fn crank_swap_handler(ctx: &CrankSwap, escrow_bump: u8) -> (r: Result<
    Settlement,
    ProgramError,
>)
    ensures
        r == match settle_spec(POLICY, ctx.accounts(), escrow_bump) {
            Ok(s) => Ok::<Settlement, ProgramError>(s),
            Err(e) => Err(ProgramError::for_settle(e)),
        },
        r matches Err(code) ==> settle_spec(POLICY, ctx.accounts(), escrow_bump) matches Err(e)
            && code.kind() == e.kind(),
{
    match settle(POLICY, &ctx.accounts(), escrow_bump) {
        Ok(s) => Ok(s),
        Err(e) => Err(ProgramError::for_settle(e)),
    }
}

/// The instruction that opens an escrow.
pub fn init_escrow(ctx: &mut InitEscrow, requesting_wallet_pubkey: Address) -> (r: Result<
    (),
    ProgramError,
>)
    ensures
        match initialize_spec(POLICY, old(ctx).accounts(requesting_wallet_pubkey)) {
            Ok(record) => r is Ok && *final(ctx) == old(ctx).with_record(record),
            Err(e) => r == Err::<(), ProgramError>(ProgramError::for_initialize(e))
                && *final(ctx) == *old(ctx),
        },
{
    init_escrow_handler(ctx, requesting_wallet_pubkey)
}

/// The instruction that funds the offering side.
pub fn fund_escrow_offering_token_account(ctx: &FundEscrowOfferingTokenAccount) -> (r: Result<
    Transfer,
    ProgramError,
>)
    ensures
        r == match fund_spec(Side::Offering, ctx.accounts()) {
            Ok(t) => Ok::<Transfer, ProgramError>(t),
            Err(e) => Err(ProgramError::for_fund(Side::Offering, e)),
        },
{
    fund_escrow_offering_token_account_handler(ctx)
}

/// The instruction that defunds the offering side.
pub fn defund_escrow_offering_token_account(
    ctx: &DefundEscrowOfferingTokenAccount,
    escrow_bump: u8,
    program_id: &Address,
) -> (r: Result<Transfer, ProgramError>)
    ensures
        r == match defund_spec(Side::Offering, ctx.accounts(), escrow_bump, *program_id) {
            Ok(t) => Ok::<Transfer, ProgramError>(t),
            Err(e) => Err(ProgramError::for_defund(Side::Offering, e)),
        },
{
    defund_escrow_offering_token_account_handler(ctx, escrow_bump, program_id)
}

/// The instruction that funds the requesting side.
pub fn fund_escrow_requesting_token_account(ctx: &FundEscrowRequestingTokenAccount) -> (r: Result<
    Transfer,
    ProgramError,
>)
    ensures
        r == match fund_spec(Side::Requesting, ctx.accounts()) {
            Ok(t) => Ok::<Transfer, ProgramError>(t),
            Err(e) => Err(ProgramError::for_fund(Side::Requesting, e)),
        },
{
    fund_escrow_requesting_token_account_handler(ctx)
}

/// The instruction that defunds the requesting side.
pub fn defund_escrow_requesting_token_account(
    ctx: &DefundEscrowRequestingTokenAccount,
    escrow_bump: u8,
    program_id: &Address,
) -> (r: Result<Transfer, ProgramError>)
    ensures
        r == match defund_spec(Side::Requesting, ctx.accounts(), escrow_bump, *program_id) {
            Ok(t) => Ok::<Transfer, ProgramError>(t),
            Err(e) => Err(ProgramError::for_defund(Side::Requesting, e)),
        },
{
    defund_escrow_requesting_token_account_handler(ctx, escrow_bump, program_id)
}

/// The instruction that settles the escrow.
pub fn crank_swap(ctx: &CrankSwap, escrow_bump: u8) -> (r: Result<
    Settlement,
    ProgramError,
>)
    ensures
        r == match settle_spec(POLICY, ctx.accounts(), escrow_bump) {
            Ok(s) => Ok::<Settlement, ProgramError>(s),
            Err(e) => Err(ProgramError::for_settle(e)),
        },
{
    crank_swap_handler(ctx, escrow_bump)
}

} // verus!
