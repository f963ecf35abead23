use escrow_swap::address::Address;
use escrow_swap::error::{ErrorKind, EscrowError, Role};
use escrow_swap::escrow3;
use escrow_swap::escrow3::{
    CrankSwap, DefundOfferedEscrow, DefundRequestedEscrow, FundOfferedEscrow,
    FundRequestedEscrow, InitEscrow, ProgramError,
};
use escrow_swap::operation::resolve_custody;
use escrow_swap::record::{Escrow, EscrowAccount, Policy, Side};
use escrow_swap::token::{AuthorityProof, Settlement, TokenAccount, Transfer};

const PROGRAM: u8 = 99;
const A: u8 = 1;
const B: u8 = 2;
const C: u8 = 3;
const X: u8 = 10;
const Y: u8 = 11;
const A_SRC: u8 = 20;
const B_SRC: u8 = 21;
const A_DST: u8 = 30;
const B_DST: u8 = 31;
const RECORD: u8 = 50;

fn addr(fill: u8) -> Address {
    Address::new([fill; 32])
}

fn oc() -> Address {
    resolve_custody(Side::Offering, &addr(A_SRC), &addr(PROGRAM)).unwrap()
}

fn rc() -> Address {
    resolve_custody(Side::Requesting, &addr(B_SRC), &addr(PROGRAM)).unwrap()
}

fn held(address: Address, asset_class: u8, owner: u8, amount: u64) -> TokenAccount {
    TokenAccount { address, asset_class: addr(asset_class), owner: addr(owner), amount }
}

fn record() -> Escrow {
    Escrow {
        offering_party: addr(A),
        requesting_party: addr(B),
        offering_asset_class: addr(X),
        requesting_asset_class: addr(Y),
        offering_custody_address: oc(),
        requesting_custody_address: rc(),
    }
}

fn escrow() -> EscrowAccount {
    EscrowAccount { address: addr(RECORD), record: record() }
}

fn blank() -> Escrow {
    Escrow {
        offering_party: addr(0),
        requesting_party: addr(0),
        offering_asset_class: addr(0),
        requesting_asset_class: addr(0),
        offering_custody_address: addr(0),
        requesting_custody_address: addr(0),
    }
}

fn init_ctx() -> InitEscrow {
    InitEscrow {
        offerer_signer: addr(A),
        offered_token_mint: addr(X),
        requested_token_mint: addr(Y),
        offered_holder_token_account: held(addr(A_SRC), X, A, 1),
        requested_holder_token_account: held(addr(B_SRC), Y, B, 1),
        escrow: EscrowAccount { address: addr(RECORD), record: blank() },
        new_offered_token_account: held(oc(), X, RECORD, 0),
        new_requested_token_account: held(rc(), Y, RECORD, 0),
    }
}

fn fund_offered_ctx() -> FundOfferedEscrow {
    FundOfferedEscrow {
        offerer_signer: addr(A),
        escrow: escrow(),
        offered_holder_token_account: held(addr(A_SRC), X, A, 1),
        new_offered_token_account: held(oc(), X, RECORD, 0),
    }
}

fn fund_requested_ctx() -> FundRequestedEscrow {
    FundRequestedEscrow {
        requested_signer: addr(B),
        escrow: escrow(),
        requested_holder_token_account: held(addr(B_SRC), Y, B, 1),
        new_requested_token_account: held(rc(), Y, RECORD, 0),
    }
}

fn defund_offered_ctx() -> DefundOfferedEscrow {
    DefundOfferedEscrow {
        offered_signer: addr(A),
        escrow: escrow(),
        offered_holder_token_account: held(addr(A_SRC), X, A, 0),
        requested_holder_token_account: held(addr(B_SRC), Y, B, 1),
        new_offered_token_account: held(oc(), X, RECORD, 1),
    }
}

fn defund_requested_ctx() -> DefundRequestedEscrow {
    DefundRequestedEscrow {
        requested_signer: addr(B),
        escrow: escrow(),
        offered_holder_token_account: held(addr(A_SRC), X, A, 1),
        requested_holder_token_account: held(addr(B_SRC), Y, B, 0),
        new_requested_token_account: held(rc(), Y, RECORD, 1),
    }
}

fn crank_ctx() -> CrankSwap {
    CrankSwap {
        payer: addr(C),
        escrow: escrow(),
        offered_holder_token_account: held(addr(A_SRC), X, A, 0),
        requested_holder_token_account: held(addr(B_SRC), Y, B, 0),
        new_offered_token_account: held(oc(), X, RECORD, 1),
        new_requested_token_account: held(rc(), Y, RECORD, 1),
        final_offered_token_account: held(addr(B_DST), X, B, 0),
        final_requested_token_account: held(addr(A_DST), Y, A, 0),
    }
}

fn derived(bump: u8) -> AuthorityProof {
    AuthorityProof::Derived {
        offering_source: addr(A_SRC),
        requesting_source: addr(B_SRC),
        bump,
    }
}

#[test]
fn escrow3_does_not_examine_balances() {
    assert_eq!(escrow3::POLICY, Policy::ArbitraryAmount);
}

#[test]
fn escrow3_codes_have_their_kinds() {
    assert_eq!(ProgramError::E000.kind(), ErrorKind::Authorization);
    assert_eq!(ProgramError::E001.kind(), ErrorKind::ReferenceMismatch);
    assert_eq!(ProgramError::E002.kind(), ErrorKind::Authorization);
    assert_eq!(ProgramError::E003.kind(), ErrorKind::Ownership);
}

#[test]
fn escrow3_code_table() {
    let off = Side::Offering;
    let req = Side::Requesting;
    assert_eq!(ProgramError::of(EscrowError::Authorization { side: off }), ProgramError::E000);
    assert_eq!(ProgramError::of(EscrowError::Authorization { side: req }), ProgramError::E002);
    for side in [off, req] {
        for role in [Role::Source, Role::Custody, Role::Destination] {
            assert_eq!(
                ProgramError::of(EscrowError::ReferenceMismatch { side, role }),
                ProgramError::E001
            );
            assert_eq!(ProgramError::of(EscrowError::Ownership { side, role }), ProgramError::E003);
        }
    }
}

#[test]
fn escrow3_init_fills_the_record_and_asks_nothing() {
    let mut ctx = init_ctx();
    assert_eq!(escrow3::init_escrow_handler(&mut ctx, addr(B)), Ok(()));
    let mut expected = init_ctx();
    expected.escrow = escrow();
    assert_eq!(ctx, expected);
    let mut ctx = init_ctx();
    ctx.offered_holder_token_account = held(addr(A_SRC), X, C, 0);
    ctx.requested_holder_token_account = held(addr(B_SRC), Y, C, 9);
    assert_eq!(escrow3::init_escrow(&mut ctx, addr(B)), Ok(()));
    assert_eq!(ctx.escrow, escrow());
}

#[test]
fn escrow3_fund_offered() {
    let granted = Transfer {
        from: addr(A_SRC),
        to: oc(),
        authority: AuthorityProof::Signature { signer: addr(A) },
        amount: 1,
    };
    let mut ctx = fund_offered_ctx();
    assert_eq!(escrow3::fund_offered_escrow_handler(&ctx), Ok(granted));
    assert_eq!(escrow3::fund_offered_escrow(&ctx), Ok(granted));
    ctx.offerer_signer = addr(B);
    ctx.new_offered_token_account.address = rc();
    ctx.new_offered_token_account.owner = addr(A);
    assert_eq!(escrow3::fund_offered_escrow_handler(&ctx), Err(ProgramError::E000));
    ctx.offerer_signer = addr(A);
    assert_eq!(escrow3::fund_offered_escrow_handler(&ctx), Err(ProgramError::E001));
    ctx.new_offered_token_account.address = oc();
    assert_eq!(escrow3::fund_offered_escrow_handler(&ctx), Err(ProgramError::E003));
    assert_eq!(escrow3::fund_offered_escrow(&ctx), Err(ProgramError::E003));
}

#[test]
fn escrow3_fund_offered_by_a_stranger_is_e000_whatever_the_accounts() {
    let mut ctx = fund_offered_ctx();
    ctx.offerer_signer = addr(C);
    assert_eq!(escrow3::fund_offered_escrow_handler(&ctx), Err(ProgramError::E000));
}

#[test]
fn escrow3_fund_requested() {
    let granted = Transfer {
        from: addr(B_SRC),
        to: rc(),
        authority: AuthorityProof::Signature { signer: addr(B) },
        amount: 1,
    };
    let mut ctx = fund_requested_ctx();
    assert_eq!(escrow3::fund_requested_escrow_handler(&ctx), Ok(granted));
    assert_eq!(escrow3::fund_requested_escrow(&ctx), Ok(granted));
    ctx.requested_signer = addr(A);
    ctx.new_requested_token_account.address = oc();
    assert_eq!(escrow3::fund_requested_escrow_handler(&ctx), Err(ProgramError::E002));
    ctx.requested_signer = addr(B);
    assert_eq!(escrow3::fund_requested_escrow_handler(&ctx), Err(ProgramError::E001));
    ctx.new_requested_token_account = held(rc(), Y, B, 0);
    assert_eq!(escrow3::fund_requested_escrow_handler(&ctx), Err(ProgramError::E003));
    assert_eq!(escrow3::fund_requested_escrow(&ctx), Err(ProgramError::E003));
}

#[test]
fn escrow3_defund_offered() {
    let program = addr(PROGRAM);
    let granted = Transfer { from: oc(), to: addr(A_SRC), authority: derived(7), amount: 1 };
    let handler = escrow3::defund_offered_escrow_handler;
    let mut ctx = defund_offered_ctx();
    assert_eq!(handler(&ctx, 7, &program), Ok(granted));
    assert_eq!(escrow3::defund_offered_escrow(&ctx, 7, &program), Ok(granted));
    ctx.offered_signer = addr(B);
    ctx.new_offered_token_account.address = rc();
    ctx.requested_holder_token_account.owner = addr(A);
    assert_eq!(handler(&ctx, 7, &program), Err(ProgramError::E000));
    ctx.offered_signer = addr(A);
    assert_eq!(handler(&ctx, 7, &program), Err(ProgramError::E001));
    ctx.new_offered_token_account.address = oc();
    assert_eq!(handler(&ctx, 7, &program), Err(ProgramError::E003));
    ctx.requested_holder_token_account.address = addr(A_DST);
    assert_eq!(handler(&ctx, 7, &program), Err(ProgramError::E001));
    assert_eq!(escrow3::defund_offered_escrow(&ctx, 7, &program), Err(ProgramError::E001));
}

#[test]
fn escrow3_defund_requested() {
    let program = addr(PROGRAM);
    let granted = Transfer { from: rc(), to: addr(B_SRC), authority: derived(8), amount: 1 };
    let handler = escrow3::defund_requested_escrow_handler;
    let mut ctx = defund_requested_ctx();
    assert_eq!(handler(&ctx, 8, &program), Ok(granted));
    assert_eq!(escrow3::defund_requested_escrow(&ctx, 8, &program), Ok(granted));
    ctx.requested_signer = addr(A);
    ctx.new_requested_token_account.address = oc();
    ctx.offered_holder_token_account.owner = addr(B);
    assert_eq!(handler(&ctx, 8, &program), Err(ProgramError::E002));
    ctx.requested_signer = addr(B);
    assert_eq!(handler(&ctx, 8, &program), Err(ProgramError::E001));
    ctx.new_requested_token_account.address = rc();
    assert_eq!(handler(&ctx, 8, &program), Err(ProgramError::E003));
    assert_eq!(escrow3::defund_requested_escrow(&ctx, 8, &program), Err(ProgramError::E003));
}

#[test]
fn escrow3_crank_swap() {
    let granted = Settlement {
        first: Transfer { from: rc(), to: addr(A_DST), authority: derived(5), amount: 1 },
        second: Transfer { from: oc(), to: addr(B_DST), authority: derived(5), amount: 1 },
    };
    assert_eq!(escrow3::crank_swap_handler(&crank_ctx(), 5), Ok(granted));
    assert_eq!(escrow3::crank_swap(&crank_ctx(), 5), Ok(granted));
    let mut ctx = crank_ctx();
    ctx.new_offered_token_account.amount = 0;
    ctx.new_requested_token_account.amount = 9;
    ctx.payer = addr(A);
    assert_eq!(escrow3::crank_swap_handler(&ctx, 5), Ok(granted));
}

#[test]
fn escrow3_crank_swap_codes_in_order() {
    let handler = escrow3::crank_swap_handler;
    let mut ctx = crank_ctx();
    ctx.new_requested_token_account.address = oc();
    ctx.final_offered_token_account.owner = addr(A);
    ctx.final_requested_token_account.owner = addr(B);
    assert_eq!(handler(&ctx, 5), Err(ProgramError::E001));
    ctx.new_requested_token_account.address = rc();
    ctx.new_offered_token_account.address = rc();
    assert_eq!(handler(&ctx, 5), Err(ProgramError::E001));
    ctx.new_offered_token_account.address = oc();
    assert_eq!(handler(&ctx, 5), Err(ProgramError::E003));
    ctx.final_offered_token_account.owner = addr(B);
    assert_eq!(handler(&ctx, 5), Err(ProgramError::E003));
    ctx.final_requested_token_account.owner = addr(A);
    assert!(handler(&ctx, 5).is_ok());
    ctx.offered_holder_token_account.owner = addr(C);
    assert_eq!(handler(&ctx, 5), Err(ProgramError::E003));
    assert_eq!(escrow3::crank_swap(&ctx, 5), Err(ProgramError::E003));
}

#[test]
fn escrow3_accounts_are_the_request_in_general_terms() {
    let a = crank_ctx().accounts();
    assert_eq!(a.offering_destination.address, addr(B_DST));
    assert_eq!(a.requesting_destination.address, addr(A_DST));
    assert_eq!(a.offering_custody.address, oc());
    assert_eq!(a.requesting_custody.address, rc());
    assert_eq!(a.offering_source.address, addr(A_SRC));
    assert_eq!(a.requesting_source.address, addr(B_SRC));
    let i = init_ctx().accounts(addr(B));
    assert_eq!(i.caller, addr(A));
    assert_eq!(i.requesting_party, addr(B));
    assert_eq!(i.offering_custody, oc());
    assert_eq!(i.requesting_custody, rc());
    assert_eq!(fund_offered_ctx().accounts().caller, addr(A));
    assert_eq!(fund_requested_ctx().accounts().caller, addr(B));
    assert_eq!(defund_offered_ctx().accounts().custody.address, oc());
    assert_eq!(defund_requested_ctx().accounts().custody.address, rc());
}
