//! What holds of the escrow whatever the requests are.

use crate::address::Address;
use crate::derivation::{derive_spec, record_address_spec};
use crate::error::{ErrorKind, EscrowError};
use crate::ledger::LedgerState;
use crate::operation::{
    custody_on_record,
    destinations_cross_owned,
    record_proof,
    resolved_custody,
    settle_spec,
    SettleAccounts,
};
use crate::protocol::{
    new_custody,
    DefundRequest,
    Failure,
    FundRequest,
    InitializeRequest,
    SettleRequest,
    Stage,
};
use crate::record::{Policy, Side, UNIT_AMOUNT};
use vstd::prelude::*;

verus! {

/// Derivation is a function: equal tags, references and programs give the
/// same address and the same bump.
pub proof fn lemma_derivation_is_deterministic(
    tag: Seq<u8>,
    refs: Seq<Address>,
    program_id: Address,
    other_tag: Seq<u8>,
    other_refs: Seq<Address>,
    other_program_id: Address,
)
    requires
        tag == other_tag,
        refs == other_refs,
        program_id == other_program_id,
    ensures
        derive_spec(tag, refs, program_id) == derive_spec(other_tag, other_refs, other_program_id),
{
}

/// An ordered pair of source accounts has at most one escrow: once an
/// initialization has succeeded, every further one for the same pair fails
/// with a collision, whoever asks and whatever else the request says. The
/// record written by the first is still there.
pub proof fn lemma_no_second_initialization(
    before: LedgerState,
    policy: Policy,
    first: InitializeRequest,
    other_policy: Policy,
    second: InitializeRequest,
)
    requires
        before.initialize(policy, first) is Ok,
        second.offering_source == first.offering_source,
        second.requesting_source == first.requesting_source,
    ensures
        ({
            let (after, record, bump) = before.initialize(policy, first)->Ok_0;
            let n = before.allocation(first.offering_source, first.requesting_source)->Some_0;
            &&& after.initialize(other_policy, second) matches Err(
                Failure::Refused(EscrowError::AllocationCollision),
            )
            &&& after.escrows.contains_key(record)
            &&& after.escrows[record] == before.initialize_accounts(first, n).record()
        }),
{
}

/// Initialization puts the record and both custody accounts at addresses
/// that anyone can derive again from the two source accounts. It creates
/// both custody accounts empty and owned by the record, each holding the
/// asset class of its side, and records their addresses. No balance
/// changes.
pub proof fn lemma_initialization_creates_empty_custody(
    before: LedgerState,
    policy: Policy,
    q: InitializeRequest,
)
    requires
        before.initialize(policy, q) is Ok,
    ensures
        ({
            let (after, record, bump) = before.initialize(policy, q)->Ok_0;
            let offering = after.escrows[record].offering_custody_address;
            let requesting = after.escrows[record].requesting_custody_address;
            &&& record_address_spec(q.offering_source, q.requesting_source, before.program_id)
                == Some((record, bump))
            &&& resolved_custody(Side::Offering, q.offering_source, before.program_id) == Some(
                offering,
            )
            &&& resolved_custody(Side::Requesting, q.requesting_source, before.program_id) == Some(
                requesting,
            )
            &&& !before.occupied(record) && !before.occupied(offering) && !before.occupied(
                requesting,
            )
            &&& after.token(offering) == new_custody(offering, q.offering_asset_class, record)
            &&& after.token(requesting) == new_custody(requesting, q.requesting_asset_class, record)
            &&& forall|a: Address| #[trigger]
                before.tokens.contains_key(a) ==> after.tokens.contains_key(a) && after.tokens[a]
                    == before.tokens[a]
        }),
{
}

/// The request by which the party of a side funds that side of an escrow
/// from its source account.
pub open spec fn funding_by_party(
    state: LedgerState,
    escrow: Address,
    side: Side,
    source: Address,
) -> FundRequest {
    FundRequest {
        caller: state.escrows[escrow].party(side),
        escrow,
        source,
        custody: state.escrows[escrow].custody_address(side),
    }
}

/// A new escrow can be funded: once initialization has succeeded, the
/// offering party's request to fund its side from its source account
/// succeeds if the party owns that account and it holds at least one unit
/// of the offered asset class. The same holds of the requesting party.
pub proof fn lemma_new_escrow_can_be_funded(
    before: LedgerState,
    policy: Policy,
    q: InitializeRequest,
    side: Side,
)
    requires
        before.initialize(policy, q) is Ok,
        ({
            let source = match side {
                Side::Offering => before.tokens[q.offering_source],
                Side::Requesting => before.tokens[q.requesting_source],
            };
            let party = match side {
                Side::Offering => q.caller,
                Side::Requesting => q.requesting_party,
            };
            let asset_class = match side {
                Side::Offering => q.offering_asset_class,
                Side::Requesting => q.requesting_asset_class,
            };
            source.owner == party && source.asset_class == asset_class && source.amount >= 1
        }),
    ensures
        ({
            let (after, record, bump) = before.initialize(policy, q)->Ok_0;
            let source = match side {
                Side::Offering => q.offering_source,
                Side::Requesting => q.requesting_source,
            };
            after.fund(side, funding_by_party(after, record, side, source)) is Ok
        }),
{
}

/// Funding by anyone but the side's party fails with an authorization
/// error, however correct the accounts of the request are.
pub proof fn lemma_fund_is_for_the_party(before: LedgerState, side: Side, q: FundRequest)
    requires
        before.escrows.contains_key(q.escrow),
        before.tokens.contains_key(q.source),
        before.tokens.contains_key(q.custody),
        q.caller != before.escrows[q.escrow].party(side),
    ensures
        before.fund(side, q) == Err::<LedgerState, Failure>(
            Failure::Refused(EscrowError::Authorization { side }),
        ),
{
}

/// With both custody accounts on record and holding one unit each, and
/// each source owned by its party, a settlement is granted exactly when
/// each destination is owned by the counterparty of the asset it receives.
/// Where it is not granted the refusal is an ownership error.
pub proof fn lemma_settlement_cross_check(policy: Policy, a: SettleAccounts, bump: u8)
    requires
        custody_on_record(a),
        a.offering_custody.amount == UNIT_AMOUNT,
        a.requesting_custody.amount == UNIT_AMOUNT,
        a.offering_source.owner == a.escrow.record.offering_party,
        a.requesting_source.owner == a.escrow.record.requesting_party,
    ensures
        settle_spec(policy, a, bump) is Ok <==> destinations_cross_owned(a),
        settle_spec(policy, a, bump) matches Err(e) ==> e.kind() == ErrorKind::Ownership,
{
}

/// A funded escrow settles: a request to settle succeeds if it names the
/// custody accounts on record, each owned by the record and holding exactly
/// one unit; sources owned by their parties; destinations owned by the
/// counterparties, each of the asset class it receives and with room for a
/// unit; and a bump that reproduces the record's address. The custody
/// accounts and destinations are four different accounts.
pub proof fn lemma_funded_escrow_settles(before: LedgerState, policy: Policy, q: SettleRequest)
    requires
        before.knows(q),
        custody_on_record(before.settle_accounts(q)),
        destinations_cross_owned(before.settle_accounts(q)),
        before.tokens[q.offering_source].owner == before.escrows[q.escrow].offering_party,
        before.tokens[q.requesting_source].owner == before.escrows[q.escrow].requesting_party,
        before.tokens[q.offering_custody].amount == UNIT_AMOUNT,
        before.tokens[q.requesting_custody].amount == UNIT_AMOUNT,
        before.tokens[q.offering_custody].owner == q.escrow,
        before.tokens[q.requesting_custody].owner == q.escrow,
        before.authorizes(record_proof(q.offering_source, q.requesting_source, q.bump), q.escrow),
        before.tokens[q.offering_destination].asset_class
            == before.tokens[q.offering_custody].asset_class,
        before.tokens[q.requesting_destination].asset_class
            == before.tokens[q.requesting_custody].asset_class,
        before.tokens[q.offering_destination].amount < u64::MAX,
        before.tokens[q.requesting_destination].amount < u64::MAX,
        q.offering_custody != q.requesting_custody,
        q.offering_destination != q.requesting_destination,
        q.offering_custody != q.offering_destination,
        q.offering_custody != q.requesting_destination,
        q.requesting_custody != q.offering_destination,
        q.requesting_custody != q.requesting_destination,
    ensures
        before.settle(policy, q) is Ok,
{
}

/// No settlement succeeds unless the custody accounts are the ones on
/// record and each destination is owned by the counterparty of the asset
/// it receives. Under the exact-unit policy each custody account holds
/// exactly one unit when it does.
pub proof fn lemma_settlement_needs_cross_ownership(
    before: LedgerState,
    policy: Policy,
    q: SettleRequest,
)
    requires
        before.settle(policy, q) is Ok,
    ensures
        custody_on_record(before.settle_accounts(q)),
        destinations_cross_owned(before.settle_accounts(q)),
        policy == Policy::ExactUnit ==> before.tokens[q.offering_custody].amount == UNIT_AMOUNT
            && before.tokens[q.requesting_custody].amount == UNIT_AMOUNT,
{
}

/// The accounts of a settlement with the two destinations exchanged.
pub open spec fn with_destinations_swapped(a: SettleAccounts) -> SettleAccounts {
    SettleAccounts {
        offering_destination: a.requesting_destination,
        requesting_destination: a.offering_destination,
        ..a
    }
}

/// Between two different parties, exchanging the destinations of a
/// settlement that would be granted gets it refused with an ownership
/// error.
pub proof fn lemma_swapped_destinations_are_refused(policy: Policy, a: SettleAccounts, bump: u8)
    requires
        settle_spec(policy, a, bump) is Ok,
        a.escrow.record.offering_party != a.escrow.record.requesting_party,
    ensures
        settle_spec(policy, with_destinations_swapped(a), bump) matches Err(e) && e.kind()
            == ErrorKind::Ownership,
{
}

/// A request to settle with the two destinations exchanged.
pub open spec fn with_request_swapped(q: SettleRequest) -> SettleRequest {
    SettleRequest {
        offering_destination: q.requesting_destination,
        requesting_destination: q.offering_destination,
        ..q
    }
}

/// On a ledger, between two different parties: where a settlement
/// succeeds, the same request with the destinations exchanged fails with
/// an ownership error.
pub proof fn lemma_swapped_request_is_refused(before: LedgerState, policy: Policy, q: SettleRequest)
    requires
        before.settle(policy, q) is Ok,
        before.escrows[q.escrow].offering_party != before.escrows[q.escrow].requesting_party,
    ensures
        before.settle(policy, with_request_swapped(q)) matches Err(Failure::Refused(e)) && e.kind()
            == ErrorKind::Ownership,
{
    lemma_swapped_destinations_are_refused(policy, before.settle_accounts(q), q.bump);
    assert(before.settle_accounts(with_request_swapped(q)) == with_destinations_swapped(
        before.settle_accounts(q),
    ));
}

/// A settlement has no outcome in which one transfer took effect and the
/// other did not: where either transfer is rejected, the settlement fails.
pub proof fn lemma_settlement_is_all_or_nothing(
    before: LedgerState,
    policy: Policy,
    q: SettleRequest,
)
    requires
        before.knows(q),
        settle_spec(policy, before.settle_accounts(q), q.bump) is Ok,
    ensures
        ({
            let granted = settle_spec(policy, before.settle_accounts(q), q.bump)->Ok_0;
            match before.transfer(granted.first) {
                Err(e) => before.settle(policy, q) == Err::<LedgerState, Failure>(
                    Failure::Rejected(e),
                ),
                Ok(between) => match between.transfer(granted.second) {
                    Err(e) => before.settle(policy, q) == Err::<LedgerState, Failure>(
                        Failure::Rejected(e),
                    ),
                    Ok(after) => before.settle(policy, q) == Ok::<LedgerState, Failure>(after),
                },
            }
        }),
{
}

/// Under the exact-unit policy a settlement between four distinct accounts
/// leaves both custody accounts empty and each destination one unit
/// richer, and changes no other balance.
pub proof fn lemma_settlement_moves_both_units(before: LedgerState, q: SettleRequest)
    requires
        before.settle(Policy::ExactUnit, q) is Ok,
        q.offering_custody != q.requesting_custody,
        q.offering_destination != q.requesting_destination,
        q.offering_custody != q.offering_destination,
        q.offering_custody != q.requesting_destination,
        q.requesting_custody != q.offering_destination,
        q.requesting_custody != q.requesting_destination,
    ensures
        ({
            let after = before.settle(Policy::ExactUnit, q)->Ok_0;
            &&& after.tokens[q.offering_custody].amount == 0
            &&& after.tokens[q.requesting_custody].amount == 0
            &&& after.tokens[q.offering_destination].amount
                == before.tokens[q.offering_destination].amount + 1
            &&& after.tokens[q.requesting_destination].amount
                == before.tokens[q.requesting_destination].amount + 1
            &&& forall|a: Address|
                a != q.offering_custody && a != q.requesting_custody && a != q.offering_destination
                    && a != q.requesting_destination ==> #[trigger] after.tokens[a]
                    == before.tokens[a]
        }),
{
}

/// The source account of a side that a request to defund names.
pub open spec fn defund_source(q: DefundRequest, side: Side) -> Address {
    match side {
        Side::Offering => q.offering_source,
        Side::Requesting => q.requesting_source,
    }
}

/// Defunding undoes funding: after a side of an escrow is funded from a
/// source account and then defunded to it, the ledger is as it was before
/// the funding, every balance included. The caller of the defunding is the
/// caller of the funding, the party of that side.
pub proof fn lemma_defund_undoes_fund(
    before: LedgerState,
    side: Side,
    f: FundRequest,
    d: DefundRequest,
)
    requires
        before.fund(side, f) is Ok,
        before.fund(side, f)->Ok_0.defund(side, d) is Ok,
        d.escrow == f.escrow,
        defund_source(d, side) == f.source,
    ensures
        before.fund(side, f)->Ok_0.defund(side, d)->Ok_0 == before,
        d.caller == f.caller,
        d.caller == before.escrows[f.escrow].party(side),
        d.custody == f.custody,
{
    let funded = before.fund(side, f)->Ok_0;
    let after = funded.defund(side, d)->Ok_0;
    assert(after.tokens =~= before.tokens);
}

/// A funded side can be defunded: the request of a side's party to defund
/// that side succeeds if it names the custody account on record, owned by
/// the record and holding at least one unit; source accounts that resolve
/// to the custody addresses on record and are owned by their parties, the
/// side's own of the asset class in custody and with room for a unit; and a
/// bump that reproduces the record's address.
pub proof fn lemma_funded_side_can_be_defunded(before: LedgerState, side: Side, q: DefundRequest)
    requires
        before.escrows.contains_key(q.escrow),
        before.tokens.contains_key(q.offering_source),
        before.tokens.contains_key(q.requesting_source),
        before.tokens.contains_key(q.custody),
        q.caller == before.escrows[q.escrow].party(side),
        q.custody == before.escrows[q.escrow].custody_address(side),
        resolved_custody(Side::Offering, q.offering_source, before.program_id) == Some(
            before.escrows[q.escrow].offering_custody_address,
        ),
        resolved_custody(Side::Requesting, q.requesting_source, before.program_id) == Some(
            before.escrows[q.escrow].requesting_custody_address,
        ),
        before.tokens[q.offering_source].owner == before.escrows[q.escrow].offering_party,
        before.tokens[q.requesting_source].owner == before.escrows[q.escrow].requesting_party,
        before.tokens[q.custody].owner == q.escrow,
        before.tokens[q.custody].amount >= UNIT_AMOUNT,
        before.tokens[defund_source(q, side)].asset_class == before.tokens[q.custody].asset_class,
        before.tokens[defund_source(q, side)].amount < u64::MAX,
        before.authorizes(record_proof(q.offering_source, q.requesting_source, q.bump), q.escrow),
    ensures
        before.defund(side, q) is Ok,
{
}

/// Funding moves exactly one unit: between two distinct accounts the
/// source ends one unit poorer and the custody account one unit richer.
pub proof fn lemma_fund_moves_one_unit(before: LedgerState, side: Side, q: FundRequest)
    requires
        before.fund(side, q) is Ok,
        q.source != q.custody,
    ensures
        ({
            let after = before.fund(side, q)->Ok_0;
            &&& after.tokens[q.source].amount + 1 == before.tokens[q.source].amount
            &&& after.tokens[q.custody].amount == before.tokens[q.custody].amount + 1
            &&& forall|a: Address|
                a != q.source && a != q.custody ==> #[trigger] after.tokens[a] == before.tokens[a]
        }),
{
}

/// The life of an escrow. It starts with both sides unfunded. Funding a
/// side makes that side funded. Under the exact-unit policy only an escrow
/// with both sides funded settles, and between distinct accounts the
/// settlement leaves both sides unfunded.
pub proof fn lemma_lifecycle(
    before: LedgerState,
    policy: Policy,
    side: Side,
    i: InitializeRequest,
    f: FundRequest,
    s: SettleRequest,
)
    ensures
        before.initialize(policy, i) matches Ok((after, record, bump)) ==> after.holds_escrow(
            record,
        ) && after.stage(record) == Stage::Created,
        before.fund(side, f) matches Ok(after) ==> after.funded(f.escrow, side),
        before.settle(Policy::ExactUnit, s) matches Ok(after) ==> {
            &&& before.holds_escrow(s.escrow)
            &&& before.stage(s.escrow) == Stage::BothFunded
            &&& (s.offering_custody != s.requesting_custody && s.offering_destination
                != s.offering_custody && s.offering_destination != s.requesting_custody
                && s.requesting_destination != s.offering_custody && s.requesting_destination
                != s.requesting_custody) ==> after.stage(s.escrow) == Stage::Created
        },
{
}

/// A record never changes once it is written, and none is ever removed:
/// funding, defunding and settlement leave every record as it is, and
/// initialization only adds one.
pub proof fn lemma_records_are_immutable(
    before: LedgerState,
    policy: Policy,
    side: Side,
    i: InitializeRequest,
    f: FundRequest,
    d: DefundRequest,
    s: SettleRequest,
)
    ensures
        before.fund(side, f) matches Ok(after) ==> after.escrows == before.escrows,
        before.defund(side, d) matches Ok(after) ==> after.escrows == before.escrows,
        before.settle(policy, s) matches Ok(after) ==> after.escrows == before.escrows,
        before.initialize(policy, i) matches Ok((after, record, bump)) ==> forall|a: Address|
            #[trigger] before.escrows.contains_key(a) ==> after.escrows.contains_key(a)
                && after.escrows[a] == before.escrows[a],
{
}

} // verus!
