//! The fixed-quantity program: an escrow of one unit against one unit in
//! which balances are not examined.
//!
//! Each handler decides a request as the escrow's rules say and reports a
//! refusal by one of this program's four codes.

use crate::address::Address;
use crate::error::{ErrorKind, EscrowError};
use crate::operation::{
    defund,
    defund_spec,
    fund,
    fund_spec,
    initialize,
    initialize_spec,
    settle,
    settle_spec,
    DefundAccounts,
    FundAccounts,
    InitializeAccounts,
    SettleAccounts,
};
pub use crate::record::Escrow;
use crate::record::{EscrowAccount, Policy, Side};
use crate::token::{Settlement, TokenAccount, Transfer};
use vstd::prelude::*;

verus! {

/// The balance policy of this program.
pub const POLICY: Policy = Policy::ArbitraryAmount;

/// The codes by which this program reports a refusal.
#[derive(Clone, Copy, Debug, PartialEq, Eq, Structural)]
pub enum ProgramError {
    /// The caller is not the party that opened the escrow.
    E000,
    /// An account is not the one that the escrow names.
    E001,
    /// The caller is not the party that the escrow was offered to.
    E002,
    /// An account is not owned by whom the escrow expects.
    E003,
}

impl ProgramError {
    /// The kind of refusal that a code reports.
    pub open spec fn spec_kind(&self) -> ErrorKind {
        match self {
            ProgramError::E000 => ErrorKind::Authorization,
            ProgramError::E001 => ErrorKind::ReferenceMismatch,
            ProgramError::E002 => ErrorKind::Authorization,
            ProgramError::E003 => ErrorKind::Ownership,
        }
    }

    /// The kind of refusal that a code reports.
    #[verifier::when_used_as_spec(spec_kind)]
    pub fn kind(&self) -> (k: ErrorKind)
        ensures
            k == self.spec_kind(),
    {
        match self {
            ProgramError::E000 => ErrorKind::Authorization,
            ProgramError::E001 => ErrorKind::ReferenceMismatch,
            ProgramError::E002 => ErrorKind::Authorization,
            ProgramError::E003 => ErrorKind::Ownership,
        }
    }

    /// The code for a refusal: `E000` or `E002` for a caller who is not the
    /// offering or the requesting party, `E001` for an account that is not
    /// the one on record, `E003` for any other.
    pub open spec fn spec_of(e: EscrowError) -> ProgramError {
        match e {
            EscrowError::Authorization { side: Side::Offering } => ProgramError::E000,
            EscrowError::Authorization { side: Side::Requesting } => ProgramError::E002,
            EscrowError::ReferenceMismatch { .. } => ProgramError::E001,
            _ => ProgramError::E003,
        }
    }

    /// The code for a refusal.
    #[verifier::when_used_as_spec(spec_of)]
    pub fn of(e: EscrowError) -> (code: ProgramError)
        ensures
            code == ProgramError::spec_of(e),
    {
        match e {
            EscrowError::Authorization { side: Side::Offering } => ProgramError::E000,
            EscrowError::Authorization { side: Side::Requesting } => ProgramError::E002,
            EscrowError::ReferenceMismatch { .. } => ProgramError::E001,
            _ => ProgramError::E003,
        }
    }
}

/// What a request to open an escrow names.
#[derive(Clone, Copy, Debug, PartialEq, Eq)]
pub struct InitEscrow {
    /// The authenticated caller, who becomes the offering party.
    pub offerer_signer: Address,
    /// The asset class that is offered.
    pub offered_token_mint: Address,
    /// The asset class that is asked for.
    pub requested_token_mint: Address,
    /// The offering party's original account.
    pub offered_holder_token_account: TokenAccount,
    /// The requesting party's original account.
    pub requested_holder_token_account: TokenAccount,
    /// The account allocated for the record, which the handler fills.
    pub escrow: EscrowAccount,
    /// The new custody account of the offering side.
    pub new_offered_token_account: TokenAccount,
    /// The new custody account of the requesting side.
    pub new_requested_token_account: TokenAccount,
}

/// What a request to fund the offering side names.
#[derive(Clone, Copy, Debug, PartialEq, Eq)]
pub struct FundOfferedEscrow {
    /// The authenticated caller.
    pub offerer_signer: Address,
    pub escrow: EscrowAccount,
    pub offered_holder_token_account: TokenAccount,
    pub new_offered_token_account: TokenAccount,
}

/// What a request to defund the offering side names.
#[derive(Clone, Copy, Debug, PartialEq, Eq)]
pub struct DefundOfferedEscrow {
    /// The authenticated caller.
    pub offered_signer: Address,
    pub escrow: EscrowAccount,
    pub offered_holder_token_account: TokenAccount,
    pub requested_holder_token_account: TokenAccount,
    pub new_offered_token_account: TokenAccount,
}

/// What a request to fund the requesting side names.
#[derive(Clone, Copy, Debug, PartialEq, Eq)]
pub struct FundRequestedEscrow {
    /// The authenticated caller.
    pub requested_signer: Address,
    pub escrow: EscrowAccount,
    pub requested_holder_token_account: TokenAccount,
    pub new_requested_token_account: TokenAccount,
}

/// What a request to defund the requesting side names.
#[derive(Clone, Copy, Debug, PartialEq, Eq)]
pub struct DefundRequestedEscrow {
    /// The authenticated caller.
    pub requested_signer: Address,
    pub escrow: EscrowAccount,
    pub offered_holder_token_account: TokenAccount,
    pub requested_holder_token_account: TokenAccount,
    pub new_requested_token_account: TokenAccount,
}

/// What a request to settle names.
#[derive(Clone, Copy, Debug, PartialEq, Eq)]
pub struct CrankSwap {
    /// Whoever asks for the settlement. Nothing is asked of this caller.
    pub payer: Address,
    pub escrow: EscrowAccount,
    pub offered_holder_token_account: TokenAccount,
    pub requested_holder_token_account: TokenAccount,
    pub new_offered_token_account: TokenAccount,
    pub new_requested_token_account: TokenAccount,
    /// Where the offered asset goes: an account of the requesting party.
    pub final_offered_token_account: TokenAccount,
    /// Where the requested asset goes: an account of the offering party.
    pub final_requested_token_account: TokenAccount,
}

impl InitEscrow {
    /// The request in the terms in which it is decided.
    pub open spec fn spec_accounts(&self, requested_pubkey: Address) -> InitializeAccounts {
        InitializeAccounts {
            caller: self.offerer_signer,
            requesting_party: requested_pubkey,
            offering_asset_class: self.offered_token_mint,
            requesting_asset_class: self.requested_token_mint,
            offering_source: self.offered_holder_token_account,
            requesting_source: self.requested_holder_token_account,
            offering_custody: self.new_offered_token_account.address,
            requesting_custody: self.new_requested_token_account.address,
        }
    }

    /// The request in the terms in which it is decided.
    #[verifier::when_used_as_spec(spec_accounts)]
    pub fn accounts(&self, requested_pubkey: Address) -> (a: InitializeAccounts)
        ensures
            a == self.spec_accounts(requested_pubkey),
    {
        InitializeAccounts {
            caller: self.offerer_signer,
            requesting_party: requested_pubkey,
            offering_asset_class: self.offered_token_mint,
            requesting_asset_class: self.requested_token_mint,
            offering_source: self.offered_holder_token_account,
            requesting_source: self.requested_holder_token_account,
            offering_custody: self.new_offered_token_account.address,
            requesting_custody: self.new_requested_token_account.address,
        }
    }
}

impl FundOfferedEscrow {
    /// The request in the terms in which it is decided.
    pub open spec fn spec_accounts(&self) -> FundAccounts {
        FundAccounts {
            caller: self.offerer_signer,
            escrow: self.escrow,
            source: self.offered_holder_token_account,
            custody: self.new_offered_token_account,
        }
    }

    /// The request in the terms in which it is decided.
    #[verifier::when_used_as_spec(spec_accounts)]
    pub fn accounts(&self) -> (a: FundAccounts)
        ensures
            a == self.spec_accounts(),
    {
        FundAccounts {
            caller: self.offerer_signer,
            escrow: self.escrow,
            source: self.offered_holder_token_account,
            custody: self.new_offered_token_account,
        }
    }
}

impl DefundOfferedEscrow {
    /// The request in the terms in which it is decided.
    pub open spec fn spec_accounts(&self) -> DefundAccounts {
        DefundAccounts {
            caller: self.offered_signer,
            escrow: self.escrow,
            offering_source: self.offered_holder_token_account,
            requesting_source: self.requested_holder_token_account,
            custody: self.new_offered_token_account,
        }
    }

    /// The request in the terms in which it is decided.
    #[verifier::when_used_as_spec(spec_accounts)]
    pub fn accounts(&self) -> (a: DefundAccounts)
        ensures
            a == self.spec_accounts(),
    {
        DefundAccounts {
            caller: self.offered_signer,
            escrow: self.escrow,
            offering_source: self.offered_holder_token_account,
            requesting_source: self.requested_holder_token_account,
            custody: self.new_offered_token_account,
        }
    }
}

impl FundRequestedEscrow {
    /// The request in the terms in which it is decided.
    pub open spec fn spec_accounts(&self) -> FundAccounts {
        FundAccounts {
            caller: self.requested_signer,
            escrow: self.escrow,
            source: self.requested_holder_token_account,
            custody: self.new_requested_token_account,
        }
    }

    /// The request in the terms in which it is decided.
    #[verifier::when_used_as_spec(spec_accounts)]
    pub fn accounts(&self) -> (a: FundAccounts)
        ensures
            a == self.spec_accounts(),
    {
        FundAccounts {
            caller: self.requested_signer,
            escrow: self.escrow,
            source: self.requested_holder_token_account,
            custody: self.new_requested_token_account,
        }
    }
}

impl DefundRequestedEscrow {
    /// The request in the terms in which it is decided.
    pub open spec fn spec_accounts(&self) -> DefundAccounts {
        DefundAccounts {
            caller: self.requested_signer,
            escrow: self.escrow,
            offering_source: self.offered_holder_token_account,
            requesting_source: self.requested_holder_token_account,
            custody: self.new_requested_token_account,
        }
    }

    /// The request in the terms in which it is decided.
    #[verifier::when_used_as_spec(spec_accounts)]
    pub fn accounts(&self) -> (a: DefundAccounts)
        ensures
            a == self.spec_accounts(),
    {
        DefundAccounts {
            caller: self.requested_signer,
            escrow: self.escrow,
            offering_source: self.offered_holder_token_account,
            requesting_source: self.requested_holder_token_account,
            custody: self.new_requested_token_account,
        }
    }
}

impl CrankSwap {
    /// The request in the terms in which it is decided.
    pub open spec fn spec_accounts(&self) -> SettleAccounts {
        SettleAccounts {
            escrow: self.escrow,
            offering_source: self.offered_holder_token_account,
            requesting_source: self.requested_holder_token_account,
            offering_custody: self.new_offered_token_account,
            requesting_custody: self.new_requested_token_account,
            offering_destination: self.final_offered_token_account,
            requesting_destination: self.final_requested_token_account,
        }
    }

    /// The request in the terms in which it is decided.
    #[verifier::when_used_as_spec(spec_accounts)]
    pub fn accounts(&self) -> (a: SettleAccounts)
        ensures
            a == self.spec_accounts(),
    {
        SettleAccounts {
            escrow: self.escrow,
            offering_source: self.offered_holder_token_account,
            requesting_source: self.requested_holder_token_account,
            offering_custody: self.new_offered_token_account,
            requesting_custody: self.new_requested_token_account,
            offering_destination: self.final_offered_token_account,
            requesting_destination: self.final_requested_token_account,
        }
    }
}

impl InitEscrow {
    /// The request with the record written into the account allocated for
    /// it.
    pub open spec fn with_record(self, record: Escrow) -> InitEscrow {
        InitEscrow { escrow: EscrowAccount { address: self.escrow.address, record }, ..self }
    }
}

/// Opens an escrow: writes the six fields of the record into the account
/// allocated for it. This program asks
/// nothing of the original accounts, so the request is always granted.
/// No asset moves. Where the request is refused nothing is written.
pub fn init_escrow_handler(ctx: &mut InitEscrow, requested_pubkey: Address) -> (r: Result<
    (),
    ProgramError,
>)
    ensures
        match initialize_spec(POLICY, old(ctx).accounts(requested_pubkey)) {
            Ok(record) => r is Ok && *final(ctx) == old(ctx).with_record(record),
            Err(e) => r == Err::<(), ProgramError>(ProgramError::of(e))
                && *final(ctx) == *old(ctx),
        },
        r matches Err(code) ==> initialize_spec(POLICY, old(ctx).accounts(requested_pubkey))
            matches Err(e) && code.kind() == e.kind(),
{
    match initialize(POLICY, &ctx.accounts(requested_pubkey)) {
        Ok(record) => {
            ctx.escrow.record = record;
            Ok(())
        },
        Err(e) => Err(ProgramError::of(e)),
    }
}

/// Funds the offering side: grants the transfer of one unit from the
/// caller's original account into the custody account, on the caller's
/// signature. A caller who is not the offering party is refused with
/// `E000`, whatever accounts the request names.
pub fn fund_offered_escrow_handler(
    ctx: &FundOfferedEscrow,
) -> (r: Result<Transfer, ProgramError>)
    ensures
        r == match fund_spec(Side::Offering, ctx.accounts()) {
            Ok(t) => Ok::<Transfer, ProgramError>(t),
            Err(e) => Err(ProgramError::of(e)),
        },
        r matches Err(code) ==> fund_spec(Side::Offering, ctx.accounts()) matches Err(e)
            && code.kind() == e.kind(),
        ctx.offerer_signer != ctx.escrow.record.party(Side::Offering) ==> r == Err::<
            Transfer,
            ProgramError,
        >(ProgramError::E000),
{
    match fund(Side::Offering, &ctx.accounts()) {
        Ok(t) => Ok(t),
        Err(e) => Err(ProgramError::of(e)),
    }
}

/// Defunds the offering side: grants the transfer of one unit from the
/// custody account back to the offering party's original account, on the
/// authority of the record as the two original accounts and the bump
/// reproduce it. Only the offering party is granted it.
pub fn defund_offered_escrow_handler(
    ctx: &DefundOfferedEscrow,
    escrow_bump: u8,
    program_id: &Address,
) -> (r: Result<Transfer, ProgramError>)
    ensures
        r == match defund_spec(Side::Offering, ctx.accounts(), escrow_bump, *program_id) {
            Ok(t) => Ok::<Transfer, ProgramError>(t),
            Err(e) => Err(ProgramError::of(e)),
        },
        r matches Err(code) ==> defund_spec(
            Side::Offering,
            ctx.accounts(),
            escrow_bump,
            *program_id,
        ) matches Err(e) && code.kind() == e.kind(),
        r is Ok ==> ctx.accounts().caller == ctx.escrow.record.party(Side::Offering),
{
    match defund(Side::Offering, &ctx.accounts(), escrow_bump, program_id) {
        Ok(t) => Ok(t),
        Err(e) => Err(ProgramError::of(e)),
    }
}

/// Funds the requesting side: grants the transfer of one unit from the
/// caller's original account into the custody account, on the caller's
/// signature. A caller who is not the requesting party is refused with
/// `E002`, whatever accounts the request names.
pub fn fund_requested_escrow_handler(
    ctx: &FundRequestedEscrow,
) -> (r: Result<Transfer, ProgramError>)
    ensures
        r == match fund_spec(Side::Requesting, ctx.accounts()) {
            Ok(t) => Ok::<Transfer, ProgramError>(t),
            Err(e) => Err(ProgramError::of(e)),
        },
        r matches Err(code) ==> fund_spec(Side::Requesting, ctx.accounts()) matches Err(e)
            && code.kind() == e.kind(),
        ctx.requested_signer != ctx.escrow.record.party(Side::Requesting) ==> r == Err::<
            Transfer,
            ProgramError,
        >(ProgramError::E002),
{
    match fund(Side::Requesting, &ctx.accounts()) {
        Ok(t) => Ok(t),
        Err(e) => Err(ProgramError::of(e)),
    }
}

/// Defunds the requesting side: grants the transfer of one unit from the
/// custody account back to the requesting party's original account, on the
/// authority of the record as the two original accounts and the bump
/// reproduce it. Only the requesting party is granted it.
pub fn defund_requested_escrow_handler(
    ctx: &DefundRequestedEscrow,
    escrow_bump: u8,
    program_id: &Address,
) -> (r: Result<Transfer, ProgramError>)
    ensures
        r == match defund_spec(Side::Requesting, ctx.accounts(), escrow_bump, *program_id) {
            Ok(t) => Ok::<Transfer, ProgramError>(t),
            Err(e) => Err(ProgramError::of(e)),
        },
        r matches Err(code) ==> defund_spec(
            Side::Requesting,
            ctx.accounts(),
            escrow_bump,
            *program_id,
        ) matches Err(e) && code.kind() == e.kind(),
        r is Ok ==> ctx.accounts().caller == ctx.escrow.record.party(Side::Requesting),
{
    match defund(Side::Requesting, &ctx.accounts(), escrow_bump, program_id) {
        Ok(t) => Ok(t),
        Err(e) => Err(ProgramError::of(e)),
    }
}

/// Settles the escrow: grants the two transfers out of custody, the
/// requested asset to the offering party's destination and the offered
/// asset to the requesting party's destination. Anyone may ask.
/// Custody balances are not examined.
pub fn crank_swap_handler(ctx: &CrankSwap, escrow_bump: u8) -> (r: Result<
    Settlement,
    ProgramError,
>)
    ensures
        r == match settle_spec(POLICY, ctx.accounts(), escrow_bump) {
            Ok(s) => Ok::<Settlement, ProgramError>(s),
            Err(e) => Err(ProgramError::of(e)),
        },
        r matches Err(code) ==> settle_spec(POLICY, ctx.accounts(), escrow_bump) matches Err(e)
            && code.kind() == e.kind(),
{
    match settle(POLICY, &ctx.accounts(), escrow_bump) {
        Ok(s) => Ok(s),
        Err(e) => Err(ProgramError::of(e)),
    }
}

/// The instruction that opens an escrow.
pub fn init_escrow(ctx: &mut InitEscrow, requested_pubkey: Address) -> (r: Result<
    (),
    ProgramError,
>)
    ensures
        match initialize_spec(POLICY, old(ctx).accounts(requested_pubkey)) {
            Ok(record) => r is Ok && *final(ctx) == old(ctx).with_record(record),
            Err(e) => r == Err::<(), ProgramError>(ProgramError::of(e))
                && *final(ctx) == *old(ctx),
        },
{
    init_escrow_handler(ctx, requested_pubkey)
}

/// The instruction that funds the offering side.
pub fn fund_offered_escrow(ctx: &FundOfferedEscrow) -> (r: Result<
    Transfer,
    ProgramError,
>)
    ensures
        r == match fund_spec(Side::Offering, ctx.accounts()) {
            Ok(t) => Ok::<Transfer, ProgramError>(t),
            Err(e) => Err(ProgramError::of(e)),
        },
{
    fund_offered_escrow_handler(ctx)
}

/// The instruction that defunds the offering side.
pub fn defund_offered_escrow(
    ctx: &DefundOfferedEscrow,
    escrow_bump: u8,
    program_id: &Address,
) -> (r: Result<Transfer, ProgramError>)
    ensures
        r == match defund_spec(Side::Offering, ctx.accounts(), escrow_bump, *program_id) {
            Ok(t) => Ok::<Transfer, ProgramError>(t),
            Err(e) => Err(ProgramError::of(e)),
        },
{
    defund_offered_escrow_handler(ctx, escrow_bump, program_id)
}

/// The instruction that funds the requesting side.
pub fn fund_requested_escrow(ctx: &FundRequestedEscrow) -> (r: Result<
    Transfer,
    ProgramError,
>)
    ensures
        r == match fund_spec(Side::Requesting, ctx.accounts()) {
            Ok(t) => Ok::<Transfer, ProgramError>(t),
            Err(e) => Err(ProgramError::of(e)),
        },
{
    fund_requested_escrow_handler(ctx)
}

/// The instruction that defunds the requesting side.
pub fn defund_requested_escrow(
    ctx: &DefundRequestedEscrow,
    escrow_bump: u8,
    program_id: &Address,
) -> (r: Result<Transfer, ProgramError>)
    ensures
        r == match defund_spec(Side::Requesting, ctx.accounts(), escrow_bump, *program_id) {
            Ok(t) => Ok::<Transfer, ProgramError>(t),
            Err(e) => Err(ProgramError::of(e)),
        },
{
    defund_requested_escrow_handler(ctx, escrow_bump, program_id)
}

/// The instruction that settles the escrow.
pub fn crank_swap(ctx: &CrankSwap, escrow_bump: u8) -> (r: Result<
    Settlement,
    ProgramError,
>)
    ensures
        r == match settle_spec(POLICY, ctx.accounts(), escrow_bump) {
            Ok(s) => Ok::<Settlement, ProgramError>(s),
            Err(e) => Err(ProgramError::of(e)),
        },
{
    crank_swap_handler(ctx, escrow_bump)
}

} // verus!
