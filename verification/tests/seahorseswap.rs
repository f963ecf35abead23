use escrow_swap::address::Address;
use escrow_swap::error::{ErrorKind, EscrowError, Role};
use escrow_swap::operation::resolve_custody;
use escrow_swap::record::{Escrow, EscrowAccount, Policy, Side};
use escrow_swap::seahorseswap;
use escrow_swap::seahorseswap::{
    CrankSwap, DefundEscrowOfferingTokenAccount, DefundEscrowRequestingTokenAccount,
    FundEscrowOfferingTokenAccount, FundEscrowRequestingTokenAccount, InitEscrow, ProgramError,
};
use escrow_swap::token::{AuthorityProof, Settlement, TokenAccount, Transfer};

const PROGRAM: u8 = 99;
const A: u8 = 1;
const B: u8 = 2;
const X: u8 = 10;
const Y: u8 = 11;
const A_SRC: u8 = 20;
const B_SRC: u8 = 21;
const A_DST: u8 = 30;
const B_DST: u8 = 31;
const RECORD: u8 = 50;

fn addr(fill: u8) -> Address {
    Address::new([fill; 32])
}

fn oc() -> Address {
    resolve_custody(Side::Offering, &addr(A_SRC), &addr(PROGRAM)).unwrap()
}

fn rc() -> Address {
    resolve_custody(Side::Requesting, &addr(B_SRC), &addr(PROGRAM)).unwrap()
}

fn held(address: Address, asset_class: u8, owner: u8, amount: u64) -> TokenAccount {
    TokenAccount { address, asset_class: addr(asset_class), owner: addr(owner), amount }
}

fn record() -> Escrow {
    Escrow {
        offering_party: addr(A),
        requesting_party: addr(B),
        offering_asset_class: addr(X),
        requesting_asset_class: addr(Y),
        offering_custody_address: oc(),
        requesting_custody_address: rc(),
    }
}

fn escrow() -> EscrowAccount {
    EscrowAccount { address: addr(RECORD), record: record() }
}

fn blank() -> Escrow {
    Escrow {
        offering_party: addr(0),
        requesting_party: addr(0),
        offering_asset_class: addr(0),
        requesting_asset_class: addr(0),
        offering_custody_address: addr(0),
        requesting_custody_address: addr(0),
    }
}

fn init_ctx() -> InitEscrow {
    InitEscrow {
        offering_signer: addr(A),
        offering_token_mint: addr(X),
        requesting_token_mint: addr(Y),
        original_offering_token_account: held(addr(A_SRC), X, A, 1),
        original_requesting_token_account: held(addr(B_SRC), Y, B, 1),
        escrow: EscrowAccount { address: addr(RECORD), record: blank() },
        escrow_offering_token_account: held(oc(), X, RECORD, 0),
        escrow_requesting_token_account: held(rc(), Y, RECORD, 0),
    }
}

fn fund_offering_ctx() -> FundEscrowOfferingTokenAccount {
    FundEscrowOfferingTokenAccount {
        offering_signer: addr(A),
        escrow: escrow(),
        original_offering_token_account: held(addr(A_SRC), X, A, 1),
        escrow_offering_token_account: held(oc(), X, RECORD, 0),
    }
}

fn fund_requesting_ctx() -> FundEscrowRequestingTokenAccount {
    FundEscrowRequestingTokenAccount {
        requesting_signer: addr(B),
        escrow: escrow(),
        original_requesting_token_account: held(addr(B_SRC), Y, B, 1),
        escrow_requesting_token_account: held(rc(), Y, RECORD, 0),
    }
}

fn defund_offering_ctx() -> DefundEscrowOfferingTokenAccount {
    DefundEscrowOfferingTokenAccount {
        offering_signer: addr(A),
        escrow: escrow(),
        original_offering_token_account: held(addr(A_SRC), X, A, 0),
        original_requesting_token_account: held(addr(B_SRC), Y, B, 1),
        escrow_offering_token_account: held(oc(), X, RECORD, 1),
    }
}

fn defund_requesting_ctx() -> DefundEscrowRequestingTokenAccount {
    DefundEscrowRequestingTokenAccount {
        requesting_signer: addr(B),
        escrow: escrow(),
        original_offering_token_account: held(addr(A_SRC), X, A, 1),
        original_requesting_token_account: held(addr(B_SRC), Y, B, 0),
        escrow_requesting_token_account: held(rc(), Y, RECORD, 1),
    }
}

fn crank_ctx() -> CrankSwap {
    CrankSwap {
        escrow: escrow(),
        original_offering_token_account: held(addr(A_SRC), X, A, 0),
        original_requesting_token_account: held(addr(B_SRC), Y, B, 0),
        escrow_offering_token_account: held(oc(), X, RECORD, 1),
        escrow_requesting_token_account: held(rc(), Y, RECORD, 1),
        final_offering_token_account: held(addr(B_DST), X, B, 0),
        final_requesting_token_account: held(addr(A_DST), Y, A, 0),
    }
}

fn derived(bump: u8) -> AuthorityProof {
    AuthorityProof::Derived {
        offering_source: addr(A_SRC),
        requesting_source: addr(B_SRC),
        bump,
    }
}

#[test]
fn seahorseswap_holds_balances_to_one_unit() {
    assert_eq!(seahorseswap::POLICY, Policy::ExactUnit);
}

#[test]
fn seahorseswap_codes_have_their_kinds() {
    for code in [ProgramError::E004, ProgramError::E007, ProgramError::E012, ProgramError::E015] {
        assert_eq!(code.kind(), ErrorKind::Authorization);
    }
    for code in [ProgramError::E005, ProgramError::E008, ProgramError::E009, ProgramError::E013] {
        assert_eq!(code.kind(), ErrorKind::ReferenceMismatch);
    }
    for code in [
        ProgramError::E000,
        ProgramError::E001,
        ProgramError::E006,
        ProgramError::E010,
        ProgramError::E011,
        ProgramError::E014,
        ProgramError::E016,
        ProgramError::E017,
        ProgramError::E018,
        ProgramError::E019,
    ] {
        assert_eq!(code.kind(), ErrorKind::Ownership);
    }
    for code in [ProgramError::E002, ProgramError::E003, ProgramError::E020, ProgramError::E021] {
        assert_eq!(code.kind(), ErrorKind::SupplyInvariant);
    }
}

#[test]
fn seahorseswap_code_tables() {
    let off = Side::Offering;
    let req = Side::Requesting;
    let own = |side, role| EscrowError::Ownership { side, role };
    let supply = |side, role| EscrowError::SupplyInvariant { side, role };
    let mismatch = |side, role| EscrowError::ReferenceMismatch { side, role };
    let auth = |side| EscrowError::Authorization { side };
    assert_eq!(ProgramError::for_initialize(own(off, Role::Source)), ProgramError::E000);
    assert_eq!(ProgramError::for_initialize(own(req, Role::Source)), ProgramError::E001);
    assert_eq!(ProgramError::for_initialize(supply(off, Role::Source)), ProgramError::E002);
    assert_eq!(ProgramError::for_initialize(supply(req, Role::Source)), ProgramError::E003);
    assert_eq!(ProgramError::for_fund(off, auth(off)), ProgramError::E004);
    assert_eq!(ProgramError::for_fund(off, mismatch(off, Role::Custody)), ProgramError::E005);
    assert_eq!(ProgramError::for_fund(off, own(off, Role::Custody)), ProgramError::E006);
    assert_eq!(ProgramError::for_fund(req, auth(req)), ProgramError::E012);
    assert_eq!(ProgramError::for_fund(req, mismatch(req, Role::Custody)), ProgramError::E013);
    assert_eq!(ProgramError::for_fund(req, own(req, Role::Custody)), ProgramError::E014);
    assert_eq!(ProgramError::for_defund(off, auth(off)), ProgramError::E007);
    assert_eq!(ProgramError::for_defund(req, auth(req)), ProgramError::E015);
    for side in [off, req] {
        assert_eq!(ProgramError::for_defund(side, mismatch(off, Role::Custody)), ProgramError::E008);
        assert_eq!(ProgramError::for_defund(side, mismatch(off, Role::Source)), ProgramError::E008);
        assert_eq!(ProgramError::for_defund(side, mismatch(req, Role::Custody)), ProgramError::E009);
        assert_eq!(ProgramError::for_defund(side, mismatch(req, Role::Source)), ProgramError::E009);
        assert_eq!(ProgramError::for_defund(side, own(req, Role::Source)), ProgramError::E010);
        assert_eq!(ProgramError::for_defund(side, own(off, Role::Source)), ProgramError::E011);
    }
    assert_eq!(ProgramError::for_settle(mismatch(off, Role::Custody)), ProgramError::E008);
    assert_eq!(ProgramError::for_settle(mismatch(req, Role::Custody)), ProgramError::E009);
    assert_eq!(ProgramError::for_settle(own(off, Role::Source)), ProgramError::E016);
    assert_eq!(ProgramError::for_settle(own(req, Role::Source)), ProgramError::E017);
    assert_eq!(ProgramError::for_settle(own(off, Role::Destination)), ProgramError::E018);
    assert_eq!(ProgramError::for_settle(own(req, Role::Destination)), ProgramError::E019);
    assert_eq!(ProgramError::for_settle(supply(off, Role::Custody)), ProgramError::E020);
    assert_eq!(ProgramError::for_settle(supply(req, Role::Custody)), ProgramError::E021);
}

#[test]
fn seahorseswap_init_fills_the_record() {
    let mut ctx = init_ctx();
    assert_eq!(seahorseswap::init_escrow_handler(&mut ctx, addr(B)), Ok(()));
    assert_eq!(ctx.escrow, escrow());
    let mut expected = init_ctx();
    expected.escrow = escrow();
    assert_eq!(ctx, expected);
    let mut ctx = init_ctx();
    assert_eq!(seahorseswap::init_escrow(&mut ctx, addr(B)), Ok(()));
    assert_eq!(ctx, expected);
}

#[test]
fn seahorseswap_init_codes_in_order() {
    let mut ctx = init_ctx();
    ctx.original_offering_token_account.owner = addr(B);
    ctx.original_offering_token_account.amount = 0;
    ctx.original_requesting_token_account.amount = 2;
    let unchanged = ctx;
    assert_eq!(seahorseswap::init_escrow_handler(&mut ctx, addr(A)), Err(ProgramError::E000));
    assert_eq!(ctx, unchanged);
    ctx.original_offering_token_account.owner = addr(A);
    assert_eq!(seahorseswap::init_escrow_handler(&mut ctx, addr(A)), Err(ProgramError::E001));
    assert_eq!(ctx.escrow.record, blank());
    assert_eq!(seahorseswap::init_escrow_handler(&mut ctx, addr(B)), Err(ProgramError::E002));
    ctx.original_offering_token_account.amount = 1;
    assert_eq!(seahorseswap::init_escrow_handler(&mut ctx, addr(B)), Err(ProgramError::E003));
    assert_eq!(seahorseswap::init_escrow(&mut ctx, addr(B)), Err(ProgramError::E003));
    assert_eq!(ctx.escrow.record, blank());
    ctx.original_requesting_token_account.amount = 1;
    assert_eq!(seahorseswap::init_escrow_handler(&mut ctx, addr(B)), Ok(()));
    assert_eq!(ctx.escrow.record, record());
}

#[test]
fn seahorseswap_fund_offering() {
    let granted = Transfer {
        from: addr(A_SRC),
        to: oc(),
        authority: AuthorityProof::Signature { signer: addr(A) },
        amount: 1,
    };
    let mut ctx = fund_offering_ctx();
    assert_eq!(seahorseswap::fund_escrow_offering_token_account_handler(&ctx), Ok(granted));
    assert_eq!(seahorseswap::fund_escrow_offering_token_account(&ctx), Ok(granted));
    ctx.offering_signer = addr(B);
    ctx.escrow_offering_token_account.address = rc();
    ctx.escrow_offering_token_account.owner = addr(A);
    let handler = seahorseswap::fund_escrow_offering_token_account_handler;
    assert_eq!(handler(&ctx), Err(ProgramError::E004));
    ctx.offering_signer = addr(A);
    assert_eq!(handler(&ctx), Err(ProgramError::E005));
    ctx.escrow_offering_token_account.address = oc();
    assert_eq!(handler(&ctx), Err(ProgramError::E006));
    assert_eq!(seahorseswap::fund_escrow_offering_token_account(&ctx), Err(ProgramError::E006));
}

#[test]
fn seahorseswap_fund_offering_by_a_stranger_is_e004_whatever_the_accounts() {
    let mut ctx = fund_offering_ctx();
    ctx.offering_signer = addr(B);
    assert_eq!(
        seahorseswap::fund_escrow_offering_token_account_handler(&ctx),
        Err(ProgramError::E004)
    );
    assert_eq!(ProgramError::E004.kind(), ErrorKind::Authorization);
}

#[test]
fn seahorseswap_fund_requesting() {
    let granted = Transfer {
        from: addr(B_SRC),
        to: rc(),
        authority: AuthorityProof::Signature { signer: addr(B) },
        amount: 1,
    };
    let mut ctx = fund_requesting_ctx();
    let handler = seahorseswap::fund_escrow_requesting_token_account_handler;
    assert_eq!(handler(&ctx), Ok(granted));
    assert_eq!(seahorseswap::fund_escrow_requesting_token_account(&ctx), Ok(granted));
    ctx.requesting_signer = addr(A);
    ctx.escrow_requesting_token_account.address = oc();
    ctx.escrow_requesting_token_account.owner = addr(B);
    assert_eq!(handler(&ctx), Err(ProgramError::E012));
    ctx.requesting_signer = addr(B);
    assert_eq!(handler(&ctx), Err(ProgramError::E013));
    ctx.escrow_requesting_token_account.address = rc();
    assert_eq!(handler(&ctx), Err(ProgramError::E014));
    assert_eq!(seahorseswap::fund_escrow_requesting_token_account(&ctx), Err(ProgramError::E014));
}

#[test]
fn seahorseswap_defund_offering() {
    let program = addr(PROGRAM);
    let granted = Transfer { from: oc(), to: addr(A_SRC), authority: derived(7), amount: 1 };
    let handler = seahorseswap::defund_escrow_offering_token_account_handler;
    let mut ctx = defund_offering_ctx();
    assert_eq!(handler(&ctx, 7, &program), Ok(granted));
    assert_eq!(seahorseswap::defund_escrow_offering_token_account(&ctx, 7, &program), Ok(granted));
    ctx.offering_signer = addr(B);
    ctx.escrow_offering_token_account.address = rc();
    ctx.original_requesting_token_account = held(addr(A_DST), Y, A, 0);
    ctx.original_offering_token_account = held(addr(B_DST), X, B, 0);
    assert_eq!(handler(&ctx, 7, &program), Err(ProgramError::E007));
    ctx.offering_signer = addr(A);
    assert_eq!(handler(&ctx, 7, &program), Err(ProgramError::E008));
    ctx.escrow_offering_token_account.address = oc();
    assert_eq!(handler(&ctx, 7, &program), Err(ProgramError::E009));
    ctx.original_requesting_token_account.address = addr(B_SRC);
    assert_eq!(handler(&ctx, 7, &program), Err(ProgramError::E008));
    ctx.original_offering_token_account.address = addr(A_SRC);
    assert_eq!(handler(&ctx, 7, &program), Err(ProgramError::E010));
    ctx.original_requesting_token_account.owner = addr(B);
    assert_eq!(handler(&ctx, 7, &program), Err(ProgramError::E011));
    assert_eq!(
        seahorseswap::defund_escrow_offering_token_account(&ctx, 7, &program),
        Err(ProgramError::E011)
    );
    ctx.original_offering_token_account.owner = addr(A);
    assert!(handler(&ctx, 7, &program).is_ok());
    assert_eq!(handler(&ctx, 7, &addr(98)), Err(ProgramError::E009));
}

#[test]
fn seahorseswap_defund_requesting() {
    let program = addr(PROGRAM);
    let granted = Transfer { from: rc(), to: addr(B_SRC), authority: derived(8), amount: 1 };
    let handler = seahorseswap::defund_escrow_requesting_token_account_handler;
    let mut ctx = defund_requesting_ctx();
    assert_eq!(handler(&ctx, 8, &program), Ok(granted));
    assert_eq!(
        seahorseswap::defund_escrow_requesting_token_account(&ctx, 8, &program),
        Ok(granted)
    );
    ctx.requesting_signer = addr(A);
    ctx.escrow_requesting_token_account.address = oc();
    ctx.original_requesting_token_account = held(addr(A_DST), Y, A, 0);
    ctx.original_offering_token_account = held(addr(B_DST), X, B, 0);
    assert_eq!(handler(&ctx, 8, &program), Err(ProgramError::E015));
    ctx.requesting_signer = addr(B);
    assert_eq!(handler(&ctx, 8, &program), Err(ProgramError::E009));
    ctx.escrow_requesting_token_account.address = rc();
    assert_eq!(handler(&ctx, 8, &program), Err(ProgramError::E009));
    ctx.original_requesting_token_account.address = addr(B_SRC);
    assert_eq!(handler(&ctx, 8, &program), Err(ProgramError::E008));
    ctx.original_offering_token_account.address = addr(A_SRC);
    assert_eq!(handler(&ctx, 8, &program), Err(ProgramError::E010));
    ctx.original_requesting_token_account.owner = addr(B);
    assert_eq!(handler(&ctx, 8, &program), Err(ProgramError::E011));
    assert_eq!(
        seahorseswap::defund_escrow_requesting_token_account(&ctx, 8, &program),
        Err(ProgramError::E011)
    );
    ctx.original_offering_token_account.owner = addr(A);
    assert!(handler(&ctx, 8, &program).is_ok());
}

#[test]
fn seahorseswap_crank_swap() {
    let granted = Settlement {
        first: Transfer { from: rc(), to: addr(A_DST), authority: derived(5), amount: 1 },
        second: Transfer { from: oc(), to: addr(B_DST), authority: derived(5), amount: 1 },
    };
    assert_eq!(seahorseswap::crank_swap_handler(&crank_ctx(), 5), Ok(granted));
    assert_eq!(seahorseswap::crank_swap(&crank_ctx(), 5), Ok(granted));
}

#[test]
fn seahorseswap_crank_swap_codes_in_order() {
    let handler = seahorseswap::crank_swap_handler;
    let mut ctx = crank_ctx();
    ctx.escrow_requesting_token_account.address = oc();
    ctx.escrow_offering_token_account.address = rc();
    ctx.final_offering_token_account.owner = addr(A);
    ctx.final_requesting_token_account.owner = addr(B);
    ctx.original_offering_token_account.owner = addr(X);
    ctx.original_requesting_token_account.owner = addr(Y);
    ctx.escrow_offering_token_account.amount = 0;
    ctx.escrow_requesting_token_account.amount = 2;
    assert_eq!(handler(&ctx, 5), Err(ProgramError::E009));
    ctx.escrow_requesting_token_account.address = rc();
    assert_eq!(handler(&ctx, 5), Err(ProgramError::E008));
    ctx.escrow_offering_token_account.address = oc();
    assert_eq!(handler(&ctx, 5), Err(ProgramError::E018));
    ctx.final_offering_token_account.owner = addr(B);
    assert_eq!(handler(&ctx, 5), Err(ProgramError::E019));
    ctx.final_requesting_token_account.owner = addr(A);
    assert_eq!(handler(&ctx, 5), Err(ProgramError::E016));
    ctx.original_offering_token_account.owner = addr(A);
    assert_eq!(handler(&ctx, 5), Err(ProgramError::E017));
    ctx.original_requesting_token_account.owner = addr(B);
    assert_eq!(handler(&ctx, 5), Err(ProgramError::E020));
    ctx.escrow_offering_token_account.amount = 1;
    assert_eq!(handler(&ctx, 5), Err(ProgramError::E021));
    assert_eq!(seahorseswap::crank_swap(&ctx, 5), Err(ProgramError::E021));
    ctx.escrow_requesting_token_account.amount = 1;
    assert!(handler(&ctx, 5).is_ok());
}

#[test]
fn seahorseswap_crank_swap_with_swapped_destinations_is_an_ownership_error() {
    let mut ctx = crank_ctx();
    let kept = ctx.final_offering_token_account;
    ctx.final_offering_token_account = ctx.final_requesting_token_account;
    ctx.final_requesting_token_account = kept;
    let got = seahorseswap::crank_swap_handler(&ctx, 5);
    assert_eq!(got, Err(ProgramError::E018));
    assert_eq!(got.unwrap_err().kind(), ErrorKind::Ownership);
}

#[test]
fn seahorseswap_accounts_are_the_request_in_general_terms() {
    let a = crank_ctx().accounts();
    assert_eq!(a.offering_destination.address, addr(B_DST));
    assert_eq!(a.requesting_destination.address, addr(A_DST));
    assert_eq!(a.offering_custody.address, oc());
    assert_eq!(a.requesting_custody.address, rc());
    assert_eq!(a.offering_source.address, addr(A_SRC));
    assert_eq!(a.requesting_source.address, addr(B_SRC));
    assert_eq!(a.escrow, escrow());
    let i = init_ctx().accounts(addr(B));
    assert_eq!(i.caller, addr(A));
    assert_eq!(i.requesting_party, addr(B));
    assert_eq!(i.offering_asset_class, addr(X));
    assert_eq!(i.requesting_asset_class, addr(Y));
    assert_eq!(i.offering_custody, oc());
    assert_eq!(i.requesting_custody, rc());
    assert_eq!(fund_offering_ctx().accounts().source.address, addr(A_SRC));
    assert_eq!(fund_requesting_ctx().accounts().source.address, addr(B_SRC));
    assert_eq!(defund_offering_ctx().accounts().custody.address, oc());
    assert_eq!(defund_requesting_ctx().accounts().custody.address, rc());
}
