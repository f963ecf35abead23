//! Deterministic address derivation.
//!
//! An address is derived from a domain tag, a list of account references and
//! the identity of the program. The derivation also yields a bump: the one
//! extra byte that, appended to the seeds, makes the address one that no
//! private key signs for. Whoever holds the seeds and the bump can reproduce
//! the address, and nobody can reach it another way.

use crate::address::Address;
use crate::record::Side;
use anchor_lang::prelude::Pubkey;
use vstd::prelude::*;
use vstd::slice::slice_to_vec;
use vstd::string::StringSliceAdditionalSpecFns;

verus! {

/// Domain tag of the escrow record's own address.
pub const RECORD_TAG: &'static str = "escrow";

/// Domain tag of the custody account on the offering side.
pub const OFFERING_CUSTODY_TAG: &'static str = "escrow-offered-token-account";

/// Domain tag of the custody account on the requesting side.
pub const REQUESTING_CUSTODY_TAG: &'static str = "escrow-requested-token-account";

/// What `Pubkey::try_find_program_address` returns for the given seeds and
/// program: the derived address with its bump, or nothing.
pub uninterp spec fn program_address_found(seeds: Seq<Seq<u8>>, program_id: [u8; 32]) -> Option<
    ([u8; 32], u8),
>;

/// What `Pubkey::create_program_address` returns for the given seeds and
/// program, an error read as nothing.
pub uninterp spec fn program_address_created(seeds: Seq<Seq<u8>>, program_id: [u8; 32]) -> Option<
    [u8; 32],
>;

/// The byte strings that a list of seed vectors holds.
pub open spec fn seed_bytes(seeds: Seq<Vec<u8>>) -> Seq<Seq<u8>> {
    Seq::new(seeds.len(), |i: int| seeds[i]@)
}

/// Calls `Pubkey::try_find_program_address`. Not proved: that the result is
/// a function of the seeds and the program, named `program_address_found`;
/// and that an address comes back only as what
/// `Pubkey::create_program_address` makes of the same seeds with the bump
/// appended as a last seed of one byte, which is how that function finds it.
#[verifier::external_body]
fn try_find_program_address(seeds: &Vec<Vec<u8>>, program_id: &[u8; 32]) -> (r: Option<
    ([u8; 32], u8),
>)
    ensures
        r == program_address_found(seed_bytes(seeds@), *program_id),
        r matches Some((address, bump)) ==> program_address_created(
            seed_bytes(seeds@).push(seq![bump]),
            *program_id,
        ) == Some(address),
{
    let parts: Vec<&[u8]> = seeds.iter().map(|s| s.as_slice()).collect();
    let found = Pubkey::try_find_program_address(&parts, &Pubkey::new_from_array(*program_id));
    found.map(|(key, bump)| (key.to_bytes(), bump))
}

/// Calls `Pubkey::create_program_address`. Not proved: that the result is a
/// function of the seeds and the program, named `program_address_created`.
/// Every error of that function is reported as `None`.
#[verifier::external_body]
fn create_program_address(seeds: &Vec<Vec<u8>>, program_id: &[u8; 32]) -> (r: Option<[u8; 32]>)
    ensures
        r == program_address_created(seed_bytes(seeds@), *program_id),
{
    let parts: Vec<&[u8]> = seeds.iter().map(|s| s.as_slice()).collect();
    let made = Pubkey::create_program_address(&parts, &Pubkey::new_from_array(*program_id));
    made.ok().map(|key| key.to_bytes())
}

/// The seeds of a derivation: the domain tag, then each reference's bytes.
pub open spec fn seeds_of(tag: Seq<u8>, refs: Seq<Address>) -> Seq<Seq<u8>> {
    seq![tag] + Seq::new(refs.len(), |i: int| refs[i].bytes@)
}

/// The seeds that reproduce a derived address: those of the derivation,
/// then the bump as a seed of one byte.
pub open spec fn signer_seeds_of(tag: Seq<u8>, refs: Seq<Address>, bump: u8) -> Seq<Seq<u8>> {
    seeds_of(tag, refs).push(seq![bump])
}

/// The address and bump derived from a domain tag and account references
/// under a program, if there is one.
pub open spec fn derive_spec(tag: Seq<u8>, refs: Seq<Address>, program_id: Address) -> Option<
    (Address, u8),
> {
    match program_address_found(seeds_of(tag, refs), program_id.bytes) {
        Some((bytes, bump)) => Some((Address { bytes }, bump)),
        None => None,
    }
}

/// The address that the seeds of a derivation reproduce together with a
/// bump, if they reproduce one.
pub open spec fn rederive_spec(
    tag: Seq<u8>,
    refs: Seq<Address>,
    bump: u8,
    program_id: Address,
) -> Option<Address> {
    match program_address_created(signer_seeds_of(tag, refs, bump), program_id.bytes) {
        Some(bytes) => Some(Address { bytes }),
        None => None,
    }
}

/// Builds the seed list of a derivation.
fn build_seeds(tag: &[u8], refs: &Vec<Address>) -> (seeds: Vec<Vec<u8>>)
    ensures
        seed_bytes(seeds@) == seeds_of(tag@, refs@),
{
    let mut seeds: Vec<Vec<u8>> = Vec::new();
    seeds.push(slice_to_vec(tag));
    let mut i: usize = 0;
    while i < refs.len()
        invariant
            i <= refs.len(),
            seeds@.len() == i + 1,
            seeds@[0]@ == tag@,
            forall|j: int| 0 <= j < i ==> (#[trigger] seeds@[j + 1])@ == refs@[j].bytes@,
        decreases refs.len() - i,
    {
        seeds.push(refs[i].to_vec());
        i += 1;
    }
    assert(seed_bytes(seeds@) =~= seeds_of(tag@, refs@)) by {
        assert forall|k: int| 0 <= k < seeds@.len() implies seed_bytes(seeds@)[k] == seeds_of(
            tag@,
            refs@,
        )[k] by {
            if k > 0 {
                assert(seeds@[(k - 1) + 1]@ == refs@[k - 1].bytes@);
            }
        }
    }
    seeds
}

/// Derives an address and its bump from a domain tag and account references.
/// The result is a function of the arguments alone. It is `None` when no
/// address can be derived from them.
pub fn derive(tag: &[u8], refs: &Vec<Address>, program_id: &Address) -> (r: Option<
    (Address, u8),
>)
    ensures
        r == derive_spec(tag@, refs@, *program_id),
        r matches Some((address, bump)) ==> rederive_spec(tag@, refs@, bump, *program_id) == Some(
            address,
        ),
{
    let seeds = build_seeds(tag, refs);
    match try_find_program_address(&seeds, &program_id.bytes) {
        Some((bytes, bump)) => Some((Address::new(bytes), bump)),
        None => None,
    }
}

/// Reproduces a derived address from the seeds of its derivation and a bump.
/// The result is `None` when seeds and bump reproduce no address.
pub fn rederive(tag: &[u8], refs: &Vec<Address>, bump: u8, program_id: &Address) -> (r: Option<
    Address,
>)
    ensures
        r == rederive_spec(tag@, refs@, bump, *program_id),
{
    let mut seeds = build_seeds(tag, refs);
    let mut last: Vec<u8> = Vec::new();
    last.push(bump);
    seeds.push(last);
    assert(seed_bytes(seeds@) =~= signer_seeds_of(tag@, refs@, bump)) by {
        assert(last@ =~= seq![bump]);
        assert(seed_bytes(seeds@) =~= seed_bytes(seeds@.drop_last()).push(last@));
    }
    match create_program_address(&seeds, &program_id.bytes) {
        Some(bytes) => Some(Address::new(bytes)),
        None => None,
    }
}

/// The domain tag of the custody account on a side, as bytes.
pub open spec fn custody_tag(side: Side) -> Seq<u8> {
    match side {
        Side::Offering => OFFERING_CUSTODY_TAG.spec_bytes(),
        Side::Requesting => REQUESTING_CUSTODY_TAG.spec_bytes(),
    }
}

/// The address and bump of the escrow record of an ordered pair of source
/// accounts.
pub open spec fn record_address_spec(
    offering_source: Address,
    requesting_source: Address,
    program_id: Address,
) -> Option<(Address, u8)> {
    derive_spec(RECORD_TAG.spec_bytes(), seq![offering_source, requesting_source], program_id)
}

/// The address that a pair of source accounts and a bump reproduce as the
/// address of their escrow record.
pub open spec fn record_authority_spec(
    offering_source: Address,
    requesting_source: Address,
    bump: u8,
    program_id: Address,
) -> Option<Address> {
    rederive_spec(
        RECORD_TAG.spec_bytes(),
        seq![offering_source, requesting_source],
        bump,
        program_id,
    )
}

/// The address and bump of the custody account that belongs to the source
/// account of a side.
pub open spec fn custody_address_spec(side: Side, source: Address, program_id: Address) -> Option<
    (Address, u8),
> {
    derive_spec(custody_tag(side), seq![source], program_id)
}

/// Derives the address of the escrow record of an ordered pair of source
/// accounts. The bump that comes with it reproduces the address.
pub fn record_address(
    offering_source: &Address,
    requesting_source: &Address,
    program_id: &Address,
) -> (r: Option<(Address, u8)>)
    ensures
        r == record_address_spec(*offering_source, *requesting_source, *program_id),
        r matches Some((address, bump)) ==> record_authority_spec(
            *offering_source,
            *requesting_source,
            bump,
            *program_id,
        ) == Some(address),
{
    let mut refs: Vec<Address> = Vec::new();
    refs.push(*offering_source);
    refs.push(*requesting_source);
    assert(refs@ =~= seq![*offering_source, *requesting_source]);
    derive(RECORD_TAG.as_bytes(), &refs, program_id)
}

/// Reproduces the address of the escrow record of an ordered pair of source
/// accounts from a bump.
pub fn record_authority(
    offering_source: &Address,
    requesting_source: &Address,
    bump: u8,
    program_id: &Address,
) -> (r: Option<Address>)
    ensures
        r == record_authority_spec(*offering_source, *requesting_source, bump, *program_id),
{
    let mut refs: Vec<Address> = Vec::new();
    refs.push(*offering_source);
    refs.push(*requesting_source);
    assert(refs@ =~= seq![*offering_source, *requesting_source]);
    rederive(RECORD_TAG.as_bytes(), &refs, bump, program_id)
}

/// Derives the address of the custody account that belongs to the source
/// account of a side.
pub fn custody_address(side: Side, source: &Address, program_id: &Address) -> (r: Option<
    (Address, u8),
>)
    ensures
        r == custody_address_spec(side, *source, *program_id),
{
    let mut refs: Vec<Address> = Vec::new();
    refs.push(*source);
    assert(refs@ =~= seq![*source]);
    match side {
        Side::Offering => derive(OFFERING_CUSTODY_TAG.as_bytes(), &refs, program_id),
        Side::Requesting => derive(REQUESTING_CUSTODY_TAG.as_bytes(), &refs, program_id),
    }
}

} // verus!
