use escrow_swap::address::Address;
use escrow_swap::derivation;
use escrow_swap::ledger::{Ledger, TransferError};
use escrow_swap::record::{Escrow, EscrowAccount};
use escrow_swap::token::{AuthorityProof, Settlement, TokenAccount, Transfer};

fn addr(fill: u8) -> Address {
    Address::new([fill; 32])
}

fn account(address: u8, asset_class: u8, owner: u8, amount: u64) -> TokenAccount {
    TokenAccount {
        address: addr(address),
        asset_class: addr(asset_class),
        owner: addr(owner),
        amount,
    }
}

fn signed(from: u8, to: u8, signer: u8, amount: u64) -> Transfer {
    Transfer {
        from: addr(from),
        to: addr(to),
        authority: AuthorityProof::Signature { signer: addr(signer) },
        amount,
    }
}

fn some_record() -> Escrow {
    Escrow {
        offering_party: addr(1),
        requesting_party: addr(2),
        offering_asset_class: addr(10),
        requesting_asset_class: addr(11),
        offering_custody_address: addr(40),
        requesting_custody_address: addr(41),
    }
}

fn ledger_with(accounts: &[TokenAccount]) -> Ledger {
    let mut ledger = Ledger::new(addr(99));
    for a in accounts {
        assert!(ledger.create_token_account(*a));
    }
    ledger
}

fn amount_at(ledger: &Ledger, address: u8) -> u64 {
    ledger.token_account(&addr(address)).unwrap().amount
}

#[test]
fn a_new_ledger_is_empty() {
    let ledger = Ledger::new(addr(99));
    assert_eq!(ledger.program_id(), addr(99));
    assert_eq!(ledger.token_account(&addr(1)), None);
    assert_eq!(ledger.escrow(&addr(1)), None);
    assert!(!ledger.occupied(&addr(1)));
}

#[test]
fn create_token_account_stores_the_account() {
    let mut ledger = Ledger::new(addr(99));
    assert!(ledger.create_token_account(account(20, 10, 1, 5)));
    assert_eq!(ledger.token_account(&addr(20)), Some(account(20, 10, 1, 5)));
    assert!(ledger.occupied(&addr(20)));
    assert_eq!(ledger.token_account(&addr(21)), None);
}

#[test]
fn create_token_account_does_not_overwrite() {
    let mut ledger = ledger_with(&[account(20, 10, 1, 5)]);
    assert!(!ledger.create_token_account(account(20, 11, 2, 9)));
    assert_eq!(ledger.token_account(&addr(20)), Some(account(20, 10, 1, 5)));
}

#[test]
fn create_escrow_stores_the_record_and_does_not_overwrite() {
    let mut ledger = Ledger::new(addr(99));
    let first = EscrowAccount { address: addr(50), record: some_record() };
    assert!(ledger.create_escrow(first));
    assert_eq!(ledger.escrow(&addr(50)), Some(some_record()));
    let mut other = some_record();
    other.offering_party = addr(3);
    assert!(!ledger.create_escrow(EscrowAccount { address: addr(50), record: other }));
    assert_eq!(ledger.escrow(&addr(50)), Some(some_record()));
}

#[test]
fn records_and_asset_accounts_share_one_address_space() {
    let mut ledger = ledger_with(&[account(20, 10, 1, 5)]);
    assert!(!ledger.create_escrow(EscrowAccount { address: addr(20), record: some_record() }));
    assert_eq!(ledger.escrow(&addr(20)), None);
    assert!(ledger.create_escrow(EscrowAccount { address: addr(50), record: some_record() }));
    assert!(!ledger.create_token_account(account(50, 10, 1, 5)));
    assert_eq!(ledger.token_account(&addr(50)), None);
}

#[test]
fn transfer_moves_the_amount() {
    let mut ledger = ledger_with(&[account(20, 10, 1, 5), account(30, 10, 2, 7)]);
    assert_eq!(ledger.transfer(&signed(20, 30, 1, 3)), Ok(()));
    assert_eq!(ledger.token_account(&addr(20)), Some(account(20, 10, 1, 2)));
    assert_eq!(ledger.token_account(&addr(30)), Some(account(30, 10, 2, 10)));
}

#[test]
fn transfer_to_the_same_account_changes_nothing() {
    let mut ledger = ledger_with(&[account(20, 10, 1, u64::MAX)]);
    assert_eq!(ledger.transfer(&signed(20, 20, 1, 3)), Ok(()));
    assert_eq!(amount_at(&ledger, 20), u64::MAX);
}

#[test]
fn transfer_needs_both_accounts() {
    let mut ledger = ledger_with(&[account(20, 10, 1, 5)]);
    assert_eq!(ledger.transfer(&signed(20, 30, 1, 1)), Err(TransferError::UnknownAccount));
    assert_eq!(ledger.transfer(&signed(30, 20, 1, 1)), Err(TransferError::UnknownAccount));
    assert_eq!(amount_at(&ledger, 20), 5);
}

#[test]
fn transfer_needs_the_owners_signature() {
    let mut ledger = ledger_with(&[account(20, 10, 1, 5), account(30, 10, 2, 7)]);
    assert_eq!(ledger.transfer(&signed(20, 30, 2, 1)), Err(TransferError::Unauthorized));
    assert_eq!(amount_at(&ledger, 20), 5);
    assert_eq!(amount_at(&ledger, 30), 7);
}

#[test]
fn transfer_needs_one_asset_class() {
    let mut ledger = ledger_with(&[account(20, 10, 1, 5), account(30, 11, 2, 7)]);
    assert_eq!(ledger.transfer(&signed(20, 30, 1, 1)), Err(TransferError::AssetMismatch));
    assert_eq!(amount_at(&ledger, 20), 5);
    assert_eq!(amount_at(&ledger, 30), 7);
}

#[test]
fn transfer_needs_the_funds() {
    let mut ledger = ledger_with(&[account(20, 10, 1, 5), account(30, 10, 2, 7)]);
    assert_eq!(ledger.transfer(&signed(20, 30, 1, 6)), Err(TransferError::InsufficientFunds));
    assert_eq!(ledger.transfer(&signed(20, 30, 1, 5)), Ok(()));
    assert_eq!(amount_at(&ledger, 20), 0);
    assert_eq!(amount_at(&ledger, 30), 12);
}

#[test]
fn transfer_needs_room_at_the_destination() {
    let mut ledger = ledger_with(&[account(20, 10, 1, 5), account(30, 10, 2, u64::MAX - 1)]);
    assert_eq!(ledger.transfer(&signed(20, 30, 1, 2)), Err(TransferError::Overflow));
    assert_eq!(amount_at(&ledger, 20), 5);
    assert_eq!(ledger.transfer(&signed(20, 30, 1, 1)), Ok(()));
    assert_eq!(amount_at(&ledger, 30), u64::MAX);
}

#[test]
fn transfer_checks_in_order() {
    let mut ledger = ledger_with(&[account(20, 10, 1, 0), account(30, 11, 2, u64::MAX)]);
    assert_eq!(ledger.transfer(&signed(20, 30, 2, 1)), Err(TransferError::Unauthorized));
    assert_eq!(ledger.transfer(&signed(20, 30, 1, 1)), Err(TransferError::AssetMismatch));
    let mut ledger = ledger_with(&[account(20, 10, 1, 0), account(30, 10, 2, u64::MAX)]);
    assert_eq!(ledger.transfer(&signed(20, 30, 1, 1)), Err(TransferError::InsufficientFunds));
}

#[test]
fn a_derived_authority_stands_for_the_address_it_reproduces() {
    let program = addr(99);
    let (record, bump) = derivation::record_address(&addr(20), &addr(21), &program).unwrap();
    let ledger = Ledger::new(program);
    let presented = AuthorityProof::Derived {
        offering_source: addr(20),
        requesting_source: addr(21),
        bump,
    };
    assert!(ledger.authorizes(&presented, &record));
    assert!(!ledger.authorizes(&presented, &addr(20)));
    let swapped = AuthorityProof::Derived {
        offering_source: addr(21),
        requesting_source: addr(20),
        bump,
    };
    assert!(!ledger.authorizes(&swapped, &record));
    let other_bump = AuthorityProof::Derived {
        offering_source: addr(20),
        requesting_source: addr(21),
        bump: bump.wrapping_sub(1),
    };
    assert!(!ledger.authorizes(&other_bump, &record));
    assert!(!Ledger::new(addr(98)).authorizes(&presented, &record));
}

#[test]
fn a_signature_stands_for_the_signer_only() {
    let ledger = Ledger::new(addr(99));
    let presented = AuthorityProof::Signature { signer: addr(1) };
    assert!(ledger.authorizes(&presented, &addr(1)));
    assert!(!ledger.authorizes(&presented, &addr(2)));
}

#[test]
fn transfer_out_of_an_account_owned_by_a_derived_address() {
    let program = addr(99);
    let (record, bump) = derivation::record_address(&addr(20), &addr(21), &program).unwrap();
    let mut ledger = Ledger::new(program);
    let custody = TokenAccount { address: addr(40), asset_class: addr(10), owner: record, amount: 1 };
    assert!(ledger.create_token_account(custody));
    assert!(ledger.create_token_account(account(30, 10, 2, 0)));
    let mut t = Transfer {
        from: addr(40),
        to: addr(30),
        authority: AuthorityProof::Derived {
            offering_source: addr(20),
            requesting_source: addr(22),
            bump,
        },
        amount: 1,
    };
    assert_eq!(ledger.transfer(&t), Err(TransferError::Unauthorized));
    t.authority = AuthorityProof::Signature { signer: addr(2) };
    assert_eq!(ledger.transfer(&t), Err(TransferError::Unauthorized));
    t.authority = AuthorityProof::Derived {
        offering_source: addr(20),
        requesting_source: addr(21),
        bump,
    };
    assert_eq!(ledger.transfer(&t), Ok(()));
    assert_eq!(amount_at(&ledger, 40), 0);
    assert_eq!(amount_at(&ledger, 30), 1);
}

#[test]
fn transfer_both_carries_out_both() {
    let mut ledger = ledger_with(&[
        account(20, 10, 1, 5),
        account(21, 11, 2, 5),
        account(30, 10, 2, 0),
        account(31, 11, 1, 0),
    ]);
    let s = Settlement { first: signed(21, 31, 2, 1), second: signed(20, 30, 1, 1) };
    assert_eq!(ledger.transfer_both(&s), Ok(()));
    assert_eq!(amount_at(&ledger, 20), 4);
    assert_eq!(amount_at(&ledger, 21), 4);
    assert_eq!(amount_at(&ledger, 30), 1);
    assert_eq!(amount_at(&ledger, 31), 1);
}

#[test]
fn transfer_both_undoes_the_first_when_the_second_is_rejected() {
    let accounts = [
        account(20, 10, 1, 5),
        account(21, 11, 2, 5),
        account(30, 12, 2, 0),
        account(31, 11, 1, 0),
    ];
    let mut ledger = ledger_with(&accounts);
    let s = Settlement { first: signed(21, 31, 2, 1), second: signed(20, 30, 1, 1) };
    assert_eq!(ledger.transfer_both(&s), Err(TransferError::AssetMismatch));
    for a in accounts {
        assert_eq!(ledger.token_account(&a.address), Some(a));
    }
}

#[test]
fn transfer_both_stops_at_a_rejected_first() {
    let accounts = [account(20, 10, 1, 5), account(21, 11, 2, 0), account(30, 10, 2, 0)];
    let mut ledger = ledger_with(&accounts);
    let s = Settlement { first: signed(21, 31, 2, 1), second: signed(20, 30, 1, 1) };
    assert_eq!(ledger.transfer_both(&s), Err(TransferError::UnknownAccount));
    for a in accounts {
        assert_eq!(ledger.token_account(&a.address), Some(a));
    }
}

#[test]
fn transfer_both_sees_the_first_in_the_second() {
    let mut ledger = ledger_with(&[account(20, 10, 1, 1), account(30, 10, 1, 0), account(31, 10, 2, 0)]);
    let s = Settlement { first: signed(20, 30, 1, 1), second: signed(30, 31, 1, 1) };
    assert_eq!(ledger.transfer_both(&s), Ok(()));
    assert_eq!(amount_at(&ledger, 20), 0);
    assert_eq!(amount_at(&ledger, 30), 0);
    assert_eq!(amount_at(&ledger, 31), 1);
}
