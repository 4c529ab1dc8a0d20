//! Where each record is stored.
//!
//! A record's storage address is derived from a fixed domain tag and the
//! fields that identify the record, so a record is found from what it is
//! about and no index is kept. The derivation is content addressing: the
//! same tag and fields always give the same address.

use vstd::prelude::*;
use crate::address::Address;
use crate::encoding::append_bytes;
use crate::hashing::lemma_deep_view_bytes;

verus! {

/// Domain tag of pool records: the bytes of `pool`.
pub const POOL_SEED: [u8; 4] = [0x70, 0x6f, 0x6f, 0x6c];

/// Domain tag of loan commitments: the bytes of `loan_commit`.
pub const LOAN_COMMIT_SEED: [u8; 11] = [
    0x6c, 0x6f, 0x61, 0x6e, 0x5f, 0x63, 0x6f, 0x6d, 0x6d, 0x69, 0x74,
];

/// Domain tag of attestation records: the bytes of `attestation`.
pub const ATTESTATION_SEED: [u8; 11] = [
    0x61, 0x74, 0x74, 0x65, 0x73, 0x74, 0x61, 0x74, 0x69, 0x6f, 0x6e,
];

/// Domain tag of audit requests: the bytes of `audit_request`.
pub const AUDIT_REQUEST_SEED: [u8; 13] = [
    0x61, 0x75, 0x64, 0x69, 0x74, 0x5f, 0x72, 0x65, 0x71, 0x75, 0x65, 0x73, 0x74,
];

/// Domain tag of receipt-token holdings: the bytes of `receipt_token`.
pub const RECEIPT_TOKEN_SEED: [u8; 13] = [
    0x72, 0x65, 0x63, 0x65, 0x69, 0x70, 0x74, 0x5f, 0x74, 0x6f, 0x6b, 0x65, 0x6e,
];

/// A derived storage address and the bump that made it valid.
#[derive(Clone, Copy, Debug, PartialEq, Eq)]
pub struct RecordAddress {
    pub address: Address,
    pub bump: u8,
}

/// What `Pubkey::try_find_program_address` of `solana_program` returns for
/// a list of seeds and a program identifier: the derived address and its
/// bump, or nothing where no bump gives a valid address. The result is a
/// function of the seeds and the program identifier alone.
pub uninterp spec fn program_address(seeds: Seq<Seq<u8>>, program_id: Seq<u8>) -> Option<
    (Seq<u8>, u8),
>;

/// Calls `Pubkey::try_find_program_address` of `solana_program` (reached
/// through `anchor_lang`) on the seeds, in order, and the program
/// identifier. Nothing is claimed of the address beyond its being the one
/// named by `program_address`.
#[verifier::external_body]
pub(crate) fn find_program_address(seeds: &Vec<Vec<u8>>, program_id: &Address) -> (found: Option<
    RecordAddress,
>)
    ensures
        match found {
            Some(record) => program_address(seeds.deep_view(), program_id.bytes@) == Some(
                (record.address.bytes@, record.bump),
            ),
            None => program_address(seeds.deep_view(), program_id.bytes@) is None,
        },
{
    let slices: Vec<&[u8]> = seeds.iter().map(|seed| seed.as_slice()).collect();
    let program = anchor_lang::solana_program::pubkey::Pubkey::new_from_array(program_id.bytes);
    match anchor_lang::solana_program::pubkey::Pubkey::try_find_program_address(&slices, &program) {
        Some((address, bump)) => Some(
            RecordAddress { address: Address { bytes: address.to_bytes() }, bump },
        ),
        None => None,
    }
}

/// The address that a list of seeds derives under a program, in the shape
/// in which the derivation functions return it.
pub open spec fn derived(seeds: Seq<Seq<u8>>, program_id: Address, found: Option<
    RecordAddress,
>) -> bool {
    match found {
        Some(record) => program_address(seeds, program_id.bytes@) == Some(
            (record.address.bytes@, record.bump),
        ),
        None => program_address(seeds, program_id.bytes@) is None,
    }
}

/// Derives the address for a tag and one identifying field.
pub fn derive_from_one(tag: &[u8], field: &[u8; 32], program_id: &Address) -> (found: Option<
    RecordAddress,
>)
    ensures
        derived(seq![tag@, field@], *program_id, found),
{
    let mut tag_bytes: Vec<u8> = Vec::new();
    append_bytes(&mut tag_bytes, tag);
    let mut field_bytes: Vec<u8> = Vec::new();
    append_bytes(&mut field_bytes, field.as_slice());
    let mut seeds: Vec<Vec<u8>> = Vec::new();
    seeds.push(tag_bytes);
    seeds.push(field_bytes);
    proof {
        lemma_deep_view_bytes(seeds);
        assert(tag_bytes@ =~= tag@);
        assert(field_bytes@ =~= field@);
        assert(seeds@.map_values(|part: Vec<u8>| part@) =~= seq![tag@, field@]);
    }
    find_program_address(&seeds, program_id)
}

/// Derives the address for a tag and two identifying fields.
pub fn derive_from_two(
    tag: &[u8],
    first: &[u8; 32],
    second: &[u8; 32],
    program_id: &Address,
) -> (found: Option<RecordAddress>)
    ensures
        derived(seq![tag@, first@, second@], *program_id, found),
{
    let mut tag_bytes: Vec<u8> = Vec::new();
    append_bytes(&mut tag_bytes, tag);
    let mut first_bytes: Vec<u8> = Vec::new();
    append_bytes(&mut first_bytes, first.as_slice());
    let mut second_bytes: Vec<u8> = Vec::new();
    append_bytes(&mut second_bytes, second.as_slice());
    let mut seeds: Vec<Vec<u8>> = Vec::new();
    seeds.push(tag_bytes);
    seeds.push(first_bytes);
    seeds.push(second_bytes);
    proof {
        lemma_deep_view_bytes(seeds);
        assert(tag_bytes@ =~= tag@);
        assert(first_bytes@ =~= first@);
        assert(second_bytes@ =~= second@);
        assert(seeds@.map_values(|part: Vec<u8>| part@) =~= seq![tag@, first@, second@]);
    }
    find_program_address(&seeds, program_id)
}

/// The address of the pool that `owner` owns.
pub fn pool_address(owner: &Address, program_id: &Address) -> (found: Option<RecordAddress>)
    ensures
        derived(seq![POOL_SEED@, owner.bytes@], *program_id, found),
{
    derive_from_one(POOL_SEED.as_slice(), &owner.bytes, program_id)
}

/// The address of the commitment of the loan `loan_id`.
pub fn loan_commit_address(loan_id: &[u8; 32], program_id: &Address) -> (found: Option<
    RecordAddress,
>)
    ensures
        derived(seq![LOAN_COMMIT_SEED@, loan_id@], *program_id, found),
{
    derive_from_one(LOAN_COMMIT_SEED.as_slice(), loan_id, program_id)
}

/// The address of the record of the attestation with the given binding
/// digest.
pub fn attestation_address(attestation_hash: &[u8; 32], program_id: &Address) -> (found: Option<
    RecordAddress,
>)
    ensures
        derived(seq![ATTESTATION_SEED@, attestation_hash@], *program_id, found),
{
    derive_from_one(ATTESTATION_SEED.as_slice(), attestation_hash, program_id)
}

/// The address of the request to disclose the loan `loan_id` to `auditor`.
pub fn audit_request_address(loan_id: &[u8; 32], auditor: &Address, program_id: &Address) -> (found:
    Option<RecordAddress>)
    ensures
        derived(seq![AUDIT_REQUEST_SEED@, loan_id@, auditor.bytes@], *program_id, found),
{
    derive_from_two(AUDIT_REQUEST_SEED.as_slice(), loan_id, &auditor.bytes, program_id)
}

/// The address of what `holder` holds of the receipt tokens of `pool`.
pub fn receipt_token_address(pool: &Address, holder: &Address, program_id: &Address) -> (found:
    Option<RecordAddress>)
    ensures
        derived(seq![RECEIPT_TOKEN_SEED@, pool.bytes@, holder.bytes@], *program_id, found),
{
    derive_from_two(RECEIPT_TOKEN_SEED.as_slice(), &pool.bytes, &holder.bytes, program_id)
}

} // verus!
