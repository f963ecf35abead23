//! A model of the host ledger: keyed storage of asset accounts and escrow
//! records, and the transfer of units between accounts.
//!
//! The escrow operations decide; the host commits. This module states what
//! the host is taken to do with a decision, so that the effect of an
//! operation on balances can be stated and checked. A transfer moves units
//! only when its authority proof stands for the owner of the account it
//! draws on.

use crate::address::Address;
use crate::derivation::{record_authority, record_authority_spec};
use crate::record::{Escrow, EscrowAccount};
use crate::token::{AuthorityProof, Settlement, TokenAccount, Transfer};
use vstd::prelude::*;

verus! {

/// Why the host rejects a transfer.
#[derive(Clone, Copy, Debug, PartialEq, Eq, Structural)]
pub enum TransferError {
    /// The source or the destination does not exist.
    UnknownAccount,
    /// The authority proof does not stand for the owner of the source.
    Unauthorized,
    /// Source and destination hold different asset classes.
    AssetMismatch,
    /// The source holds fewer units than the transfer moves.
    InsufficientFunds,
    /// The destination cannot hold that many units more.
    Overflow,
}

/// What an asset account holds, apart from its address.
pub struct Holding {
    pub asset_class: Address,
    pub owner: Address,
    pub amount: u64,
}

/// What a ledger holds, as mathematics.
pub struct LedgerState {
    /// The program under which addresses are derived.
    pub program_id: Address,
    /// What the asset accounts hold, by address.
    pub tokens: Map<Address, Holding>,
    /// The escrow records, by address.
    pub escrows: Map<Address, Escrow>,
}

/// What an asset account holds.
pub open spec fn holding_of(account: TokenAccount) -> Holding {
    Holding { asset_class: account.asset_class, owner: account.owner, amount: account.amount }
}

impl LedgerState {
    /// Whether some account is stored at the address.
    pub open spec fn occupied(self, address: Address) -> bool {
        self.tokens.contains_key(address) || self.escrows.contains_key(address)
    }

    /// Whether a proof stands for an authority: a signature by the
    /// authority itself, or seeds and a bump that reproduce it as the
    /// address of an escrow record.
    pub open spec fn authorizes(self, presented: AuthorityProof, authority: Address) -> bool {
        match presented {
            AuthorityProof::Signature { signer } => signer == authority,
            AuthorityProof::Derived { offering_source, requesting_source, bump } =>
                record_authority_spec(offering_source, requesting_source, bump, self.program_id)
                    == Some(authority),
        }
    }

    /// The asset account at an address.
    pub open spec fn token(self, address: Address) -> TokenAccount {
        TokenAccount {
            address,
            asset_class: self.tokens[address].asset_class,
            owner: self.tokens[address].owner,
            amount: self.tokens[address].amount,
        }
    }

    /// The escrow record at an address, with the address.
    pub open spec fn escrow_account(self, address: Address) -> EscrowAccount {
        EscrowAccount { address, record: self.escrows[address] }
    }

    /// The ledger with the balance of one account replaced.
    pub open spec fn with_amount(self, address: Address, amount: u64) -> LedgerState {
        LedgerState {
            tokens: self.tokens.insert(address, Holding { amount, ..self.tokens[address] }),
            ..self
        }
    }

    /// The outcome of a transfer. Both accounts must exist, the proof must
    /// stand for the owner of the source, both must hold the same asset
    /// class, the source must hold the amount, and the destination must
    /// have room for it. A transfer from an account to itself changes
    /// nothing.
    pub open spec fn transfer(self, t: Transfer) -> Result<LedgerState, TransferError> {
        if !self.tokens.contains_key(t.from) || !self.tokens.contains_key(t.to) {
            Err(TransferError::UnknownAccount)
        } else if !self.authorizes(t.authority, self.tokens[t.from].owner) {
            Err(TransferError::Unauthorized)
        } else if self.tokens[t.from].asset_class != self.tokens[t.to].asset_class {
            Err(TransferError::AssetMismatch)
        } else if self.tokens[t.from].amount < t.amount {
            Err(TransferError::InsufficientFunds)
        } else if t.from == t.to {
            Ok(self)
        } else if self.tokens[t.to].amount + t.amount > u64::MAX {
            Err(TransferError::Overflow)
        } else {
            let debited = (self.tokens[t.from].amount - t.amount) as u64;
            let credited = (self.tokens[t.to].amount + t.amount) as u64;
            Ok(self.with_amount(t.from, debited).with_amount(t.to, credited))
        }
    }

    /// The outcome of the two transfers of a settlement, the second on the
    /// ledger that the first leaves. There is no outcome in which only one
    /// of them has taken effect.
    pub open spec fn transfer_both(self, s: Settlement) -> Result<LedgerState, TransferError> {
        match self.transfer(s.first) {
            Ok(between) => between.transfer(s.second),
            Err(e) => Err(e),
        }
    }

    /// The ledger with one more asset account.
    pub open spec fn with_token(self, account: TokenAccount) -> LedgerState {
        LedgerState { tokens: self.tokens.insert(account.address, holding_of(account)), ..self }
    }

    /// The ledger with one more escrow record.
    pub open spec fn with_escrow(self, address: Address, record: Escrow) -> LedgerState {
        LedgerState { escrows: self.escrows.insert(address, record), ..self }
    }
}

/// Whether an asset account is stored under the address.
spec fn has_token(tokens: Seq<TokenAccount>, address: Address) -> bool {
    exists|i: int| 0 <= i < tokens.len() && #[trigger] tokens[i].address == address
}

/// Where the asset account of an address is stored.
spec fn token_index(tokens: Seq<TokenAccount>, address: Address) -> int {
    choose|i: int| 0 <= i < tokens.len() && #[trigger] tokens[i].address == address
}

/// No two stored asset accounts share an address.
spec fn distinct_tokens(tokens: Seq<TokenAccount>) -> bool {
    forall|i: int, j: int|
        0 <= i < j < tokens.len() ==> #[trigger] tokens[i].address != #[trigger] tokens[j].address
}

/// The stored asset accounts, by address.
spec fn token_map(tokens: Seq<TokenAccount>) -> Map<Address, Holding> {
    Map::new(
        |a: Address| has_token(tokens, a),
        |a: Address| holding_of(tokens[token_index(tokens, a)]),
    )
}

/// Whether an escrow record is stored under the address.
spec fn has_escrow(escrows: Seq<EscrowAccount>, address: Address) -> bool {
    exists|i: int| 0 <= i < escrows.len() && #[trigger] escrows[i].address == address
}

/// Where the escrow record of an address is stored.
spec fn escrow_index(escrows: Seq<EscrowAccount>, address: Address) -> int {
    choose|i: int| 0 <= i < escrows.len() && #[trigger] escrows[i].address == address
}

/// No two stored escrow records share an address.
spec fn distinct_escrows(escrows: Seq<EscrowAccount>) -> bool {
    forall|i: int, j: int|
        0 <= i < j < escrows.len() ==> #[trigger] escrows[i].address
            != #[trigger] escrows[j].address
}

/// The stored escrow records, by address.
spec fn escrow_map(escrows: Seq<EscrowAccount>) -> Map<Address, Escrow> {
    Map::new(
        |a: Address| has_escrow(escrows, a),
        |a: Address| escrows[escrow_index(escrows, a)].record,
    )
}

proof fn lemma_token_at(tokens: Seq<TokenAccount>, i: int)
    requires
        distinct_tokens(tokens),
        0 <= i < tokens.len(),
    ensures
        has_token(tokens, tokens[i].address),
        token_index(tokens, tokens[i].address) == i,
        token_map(tokens).contains_key(tokens[i].address),
        token_map(tokens)[tokens[i].address] == holding_of(tokens[i]),
{
    let a = tokens[i].address;
    assert(has_token(tokens, a));
    let k = token_index(tokens, a);
    assert(0 <= k < tokens.len() && tokens[k].address == a);
    if k < i {
        assert(tokens[k].address != tokens[i].address);
    } else if i < k {
        assert(tokens[i].address != tokens[k].address);
    }
}

proof fn lemma_token_push(tokens: Seq<TokenAccount>, account: TokenAccount)
    requires
        distinct_tokens(tokens),
        !has_token(tokens, account.address),
    ensures
        distinct_tokens(tokens.push(account)),
        token_map(tokens.push(account)) == token_map(tokens).insert(
            account.address,
            holding_of(account),
        ),
{
    let after = tokens.push(account);
    assert forall|i: int, j: int| 0 <= i < j < after.len() implies #[trigger] after[i].address
        != #[trigger] after[j].address by {
        if j == tokens.len() {
            assert(tokens[i].address == after[i].address);
        } else {
            assert(tokens[i].address != tokens[j].address);
        }
    }
    assert forall|a: Address| #[trigger]
        token_map(after).contains_key(a) == token_map(tokens).insert(
            account.address,
            holding_of(account),
        ).contains_key(a) by {
        if has_token(after, a) {
            let k = token_index(after, a);
            if k < tokens.len() {
                assert(tokens[k].address == a);
            }
        }
        if has_token(tokens, a) {
            let k = token_index(tokens, a);
            assert(after[k].address == a);
        }
        if a == account.address {
            assert(after[tokens.len() as int].address == a);
        }
    }
    assert forall|a: Address| #[trigger] token_map(after).contains_key(a) implies token_map(
        after,
    )[a] == token_map(tokens).insert(account.address, holding_of(account))[a] by {
        let k = token_index(after, a);
        lemma_token_at(after, k);
        if k < tokens.len() {
            lemma_token_at(tokens, k);
        }
    }
    assert(token_map(after) =~= token_map(tokens).insert(account.address, holding_of(account)));
}

proof fn lemma_token_update(tokens: Seq<TokenAccount>, i: int, account: TokenAccount)
    requires
        distinct_tokens(tokens),
        0 <= i < tokens.len(),
        account.address == tokens[i].address,
    ensures
        distinct_tokens(tokens.update(i, account)),
        token_map(tokens.update(i, account)) == token_map(tokens).insert(
            account.address,
            holding_of(account),
        ),
{
    let after = tokens.update(i, account);
    assert forall|x: int, y: int| 0 <= x < y < after.len() implies #[trigger] after[x].address
        != #[trigger] after[y].address by {
        assert(tokens[x].address != tokens[y].address);
    }
    assert forall|a: Address| #[trigger]
        token_map(after).contains_key(a) == token_map(tokens).insert(
            account.address,
            holding_of(account),
        ).contains_key(a) by {
        if has_token(after, a) {
            let k = token_index(after, a);
            assert(tokens[k].address == a);
        }
        if has_token(tokens, a) {
            let k = token_index(tokens, a);
            assert(after[k].address == a);
        }
    }
    assert forall|a: Address| #[trigger] token_map(after).contains_key(a) implies token_map(
        after,
    )[a] == token_map(tokens).insert(account.address, holding_of(account))[a] by {
        let k = token_index(after, a);
        lemma_token_at(after, k);
        lemma_token_at(tokens, k);
    }
    assert(token_map(after) =~= token_map(tokens).insert(account.address, holding_of(account)));
}

proof fn lemma_escrow_at(escrows: Seq<EscrowAccount>, i: int)
    requires
        distinct_escrows(escrows),
        0 <= i < escrows.len(),
    ensures
        has_escrow(escrows, escrows[i].address),
        escrow_index(escrows, escrows[i].address) == i,
        escrow_map(escrows).contains_key(escrows[i].address),
        escrow_map(escrows)[escrows[i].address] == escrows[i].record,
{
    let a = escrows[i].address;
    assert(has_escrow(escrows, a));
    let k = escrow_index(escrows, a);
    assert(0 <= k < escrows.len() && escrows[k].address == a);
    if k < i {
        assert(escrows[k].address != escrows[i].address);
    } else if i < k {
        assert(escrows[i].address != escrows[k].address);
    }
}

proof fn lemma_escrow_push(escrows: Seq<EscrowAccount>, account: EscrowAccount)
    requires
        distinct_escrows(escrows),
        !has_escrow(escrows, account.address),
    ensures
        distinct_escrows(escrows.push(account)),
        escrow_map(escrows.push(account)) == escrow_map(escrows).insert(
            account.address,
            account.record,
        ),
{
    let after = escrows.push(account);
    assert forall|i: int, j: int| 0 <= i < j < after.len() implies #[trigger] after[i].address
        != #[trigger] after[j].address by {
        if j == escrows.len() {
            assert(escrows[i].address == after[i].address);
        } else {
            assert(escrows[i].address != escrows[j].address);
        }
    }
    assert forall|a: Address| #[trigger]
        escrow_map(after).contains_key(a) == escrow_map(escrows).insert(
            account.address,
            account.record,
        ).contains_key(a) by {
        if has_escrow(after, a) {
            let k = escrow_index(after, a);
            if k < escrows.len() {
                assert(escrows[k].address == a);
            }
        }
        if has_escrow(escrows, a) {
            let k = escrow_index(escrows, a);
            assert(after[k].address == a);
        }
        if a == account.address {
            assert(after[escrows.len() as int].address == a);
        }
    }
    assert forall|a: Address| #[trigger] escrow_map(after).contains_key(a) implies escrow_map(
        after,
    )[a] == escrow_map(escrows).insert(account.address, account.record)[a] by {
        let k = escrow_index(after, a);
        lemma_escrow_at(after, k);
        if k < escrows.len() {
            lemma_escrow_at(escrows, k);
        }
    }
    assert(escrow_map(after) =~= escrow_map(escrows).insert(account.address, account.record));
}

/// A ledger: the asset accounts and escrow records of one program.
pub struct Ledger {
    program_id: Address,
    tokens: Vec<TokenAccount>,
    escrows: Vec<EscrowAccount>,
}

impl View for Ledger {
    type V = LedgerState;

    closed spec fn view(&self) -> LedgerState {
        LedgerState {
            program_id: self.program_id,
            tokens: token_map(self.tokens@),
            escrows: escrow_map(self.escrows@),
        }
    }
}

impl Ledger {
    #[verifier::type_invariant]
    spec fn well_formed(self) -> bool {
        distinct_tokens(self.tokens@) && distinct_escrows(self.escrows@)
    }

    /// An empty ledger for a program.
    pub fn new(program_id: Address) -> (ledger: Ledger)
        ensures
            ledger@.program_id == program_id,
            ledger@.tokens == Map::<Address, Holding>::empty(),
            ledger@.escrows == Map::<Address, Escrow>::empty(),
    {
        let ledger = Ledger { program_id, tokens: Vec::new(), escrows: Vec::new() };
        assert(ledger@.tokens =~= Map::<Address, Holding>::empty());
        assert(ledger@.escrows =~= Map::<Address, Escrow>::empty());
        ledger
    }

    /// The program under which the ledger derives addresses.
    pub fn program_id(&self) -> (id: Address)
        ensures
            id == self@.program_id,
    {
        self.program_id
    }

    /// Takes the asset accounts out, leaving none behind.
    fn take_tokens(&mut self) -> (tokens: Vec<TokenAccount>)
        ensures
            tokens@ == old(self).tokens@,
            final(self).tokens@ == Seq::<TokenAccount>::empty(),
            final(self).escrows == old(self).escrows,
            final(self).program_id == old(self).program_id,
    {
        proof {
            use_type_invariant(&*self);
        }
        let mut tokens: Vec<TokenAccount> = Vec::new();
        core::mem::swap(&mut self.tokens, &mut tokens);
        tokens
    }

    fn find_token(&self, address: &Address) -> (r: Option<usize>)
        ensures
            match r {
                Some(i) => i < self.tokens@.len() && self.tokens@[i as int].address == *address,
                None => !has_token(self.tokens@, *address),
            },
    {
        let mut i: usize = 0;
        while i < self.tokens.len()
            invariant
                i <= self.tokens@.len(),
                forall|j: int| 0 <= j < i ==> (#[trigger] self.tokens@[j]).address != *address,
            decreases self.tokens@.len() - i,
        {
            if self.tokens[i].address == *address {
                return Some(i);
            }
            i += 1;
        }
        None
    }

    fn find_escrow(&self, address: &Address) -> (r: Option<usize>)
        ensures
            match r {
                Some(i) => i < self.escrows@.len() && self.escrows@[i as int].address == *address,
                None => !has_escrow(self.escrows@, *address),
            },
    {
        let mut i: usize = 0;
        while i < self.escrows.len()
            invariant
                i <= self.escrows@.len(),
                forall|j: int| 0 <= j < i ==> (#[trigger] self.escrows@[j]).address != *address,
            decreases self.escrows@.len() - i,
        {
            if self.escrows[i].address == *address {
                return Some(i);
            }
            i += 1;
        }
        None
    }

    /// The asset account at an address, if there is one.
    pub fn token_account(&self, address: &Address) -> (r: Option<TokenAccount>)
        ensures
            r == if self@.tokens.contains_key(*address) {
                Some(self@.token(*address))
            } else {
                None
            },
    {
        proof {
            use_type_invariant(self);
        }
        match self.find_token(address) {
            Some(i) => {
                proof {
                    lemma_token_at(self.tokens@, i as int);
                }
                Some(self.tokens[i])
            },
            None => None,
        }
    }

    /// The escrow record at an address, if there is one.
    pub fn escrow(&self, address: &Address) -> (r: Option<Escrow>)
        ensures
            r == if self@.escrows.contains_key(*address) {
                Some(self@.escrows[*address])
            } else {
                None
            },
    {
        proof {
            use_type_invariant(self);
        }
        match self.find_escrow(address) {
            Some(i) => {
                proof {
                    lemma_escrow_at(self.escrows@, i as int);
                }
                Some(self.escrows[i].record)
            },
            None => None,
        }
    }

    /// Whether some account is stored at the address.
    pub fn occupied(&self, address: &Address) -> (r: bool)
        ensures
            r == self@.occupied(*address),
    {
        self.find_token(address).is_some() || self.find_escrow(address).is_some()
    }

    /// Stores a new asset account, unless its address is occupied. Says
    /// whether it did.
    pub fn create_token_account(&mut self, account: TokenAccount) -> (created: bool)
        ensures
            created == !old(self)@.occupied(account.address),
            final(self)@ == if created {
                old(self)@.with_token(account)
            } else {
                old(self)@
            },
    {
        proof {
            use_type_invariant(&*self);
        }
        if self.occupied(&account.address) {
            return false;
        }
        proof {
            lemma_token_push(self.tokens@, account);
        }
        let mut tokens = self.take_tokens();
        tokens.push(account);
        self.tokens = tokens;
        true
    }

    /// Stores a new escrow record, unless its address is occupied. Says
    /// whether it did.
    pub fn create_escrow(&mut self, account: EscrowAccount) -> (created: bool)
        ensures
            created == !old(self)@.occupied(account.address),
            final(self)@ == if created {
                old(self)@.with_escrow(account.address, account.record)
            } else {
                old(self)@
            },
    {
        proof {
            use_type_invariant(&*self);
        }
        if self.occupied(&account.address) {
            return false;
        }
        proof {
            lemma_escrow_push(self.escrows@, account);
        }
        let mut escrows: Vec<EscrowAccount> = Vec::new();
        core::mem::swap(&mut self.escrows, &mut escrows);
        escrows.push(account);
        self.escrows = escrows;
        true
    }

    /// Whether a proof stands for an authority.
    pub fn authorizes(&self, presented: &AuthorityProof, authority: &Address) -> (r: bool)
        ensures
            r == self@.authorizes(*presented, *authority),
    {
        match presented {
            AuthorityProof::Signature { signer } => *signer == *authority,
            AuthorityProof::Derived { offering_source, requesting_source, bump } => {
                let program_id = &self.program_id;
                match record_authority(offering_source, requesting_source, *bump, program_id) {
                    Some(address) => address == *authority,
                    None => false,
                }
            },
        }
    }

    fn copy_tokens(&self) -> (tokens: Vec<TokenAccount>)
        ensures
            tokens@ == self.tokens@,
    {
        let mut tokens: Vec<TokenAccount> = Vec::new();
        let mut i: usize = 0;
        while i < self.tokens.len()
            invariant
                i <= self.tokens@.len(),
                tokens@ == self.tokens@.take(i as int),
            decreases self.tokens@.len() - i,
        {
            tokens.push(self.tokens[i]);
            assert(self.tokens@.take(i as int).push(self.tokens@[i as int]) =~= self.tokens@.take(
                i + 1,
            ));
            i += 1;
        }
        assert(self.tokens@.take(i as int) =~= self.tokens@);
        tokens
    }

    /// Carries out the two transfers of a settlement, or rejects them and
    /// changes nothing: where the second is rejected, the first is undone.
    pub fn transfer_both(&mut self, s: &Settlement) -> (r: Result<(), TransferError>)
        ensures
            match old(self)@.transfer_both(*s) {
                Ok(after) => r is Ok && final(self)@ == after,
                Err(e) => r == Err::<(), TransferError>(e) && final(self)@ == old(self)@,
            },
    {
        proof {
            use_type_invariant(&*self);
        }
        let saved = self.copy_tokens();
        match self.transfer(&s.first) {
            Err(e) => {
                return Err(e);
            },
            Ok(()) => {},
        }
        match self.transfer(&s.second) {
            Ok(()) => Ok(()),
            Err(e) => {
                proof {
                    use_type_invariant(&*self);
                }
                self.tokens = saved;
                Err(e)
            },
        }
    }

    /// Carries out a transfer, or rejects it and changes nothing.
    pub fn transfer(&mut self, t: &Transfer) -> (r: Result<(), TransferError>)
        ensures
            match old(self)@.transfer(*t) {
                Ok(after) => r is Ok && final(self)@ == after,
                Err(e) => r == Err::<(), TransferError>(e) && final(self)@ == old(self)@,
            },
    {
        proof {
            use_type_invariant(&*self);
        }
        let from_index = match self.find_token(&t.from) {
            Some(i) => i,
            None => {
                return Err(TransferError::UnknownAccount);
            },
        };
        let to_index = match self.find_token(&t.to) {
            Some(i) => i,
            None => {
                return Err(TransferError::UnknownAccount);
            },
        };
        let from = self.tokens[from_index];
        let to = self.tokens[to_index];
        proof {
            lemma_token_at(self.tokens@, from_index as int);
            lemma_token_at(self.tokens@, to_index as int);
        }
        if !self.authorizes(&t.authority, &from.owner) {
            return Err(TransferError::Unauthorized);
        }
        if from.asset_class != to.asset_class {
            return Err(TransferError::AssetMismatch);
        }
        if from.amount < t.amount {
            return Err(TransferError::InsufficientFunds);
        }
        if from_index == to_index {
            return Ok(());
        }
        if to.amount > u64::MAX - t.amount {
            return Err(TransferError::Overflow);
        }
        let debited = TokenAccount { amount: from.amount - t.amount, ..from };
        let credited = TokenAccount { amount: to.amount + t.amount, ..to };
        proof {
            lemma_token_update(self.tokens@, from_index as int, debited);
            lemma_token_at(self.tokens@.update(from_index as int, debited), to_index as int);
            lemma_token_update(
                self.tokens@.update(from_index as int, debited),
                to_index as int,
                credited,
            );
        }
        let mut tokens = self.take_tokens();
        tokens.set(from_index, debited);
        tokens.set(to_index, credited);
        self.tokens = tokens;
        Ok(())
    }
}

} // verus!
