//! Admitting and verifying attested statements.
//!
//! A statement is bound to a digest over its payload, nonce and timestamp.
//! Submitting it stores an unverified record under that digest; verifying
//! the record runs the weighted threshold check over its signers. The
//! signature mathematics is not done here: whoever verifies hands in, for
//! each signer in order, whether that signer's signature validated.

use vstd::prelude::*;
use vstd::bytes::{spec_u64_to_le_bytes, u64_to_le_bytes};
use crate::address::{bytes32_eq, Address};
use crate::errors::PrivateCreditError;
use crate::encoding::{
    lemma_encoding_injective, lemma_timestamp_bits_injective, lemma_u64_bytes_injective,
};
use crate::hashing::{hash_one, hash_three, keccak_hashv};
use crate::state::attestation::{
    AttestationData, AttestationPayload, AttestationRecord, SignerMeta, DEFAULT_SIGNER_WEIGHT,
};

verus! {

/// The digest of a payload: that of its encoding.
pub open spec fn payload_digest(payload: AttestationPayload) -> Seq<u8> {
    keccak_hashv(seq![payload.encoding()])
}

/// What the binding digest of a statement is taken over: the encoding of
/// its payload, the eight little-endian bytes of its nonce, and those of its
/// timestamp. Signers and threshold are not part of it.
pub open spec fn binding_input(attestation: AttestationData) -> Seq<Seq<u8>> {
    seq![
        attestation.payload.encoding(),
        spec_u64_to_le_bytes(attestation.nonce),
        spec_u64_to_le_bytes(attestation.timestamp as u64),
    ]
}

/// The binding digest of a statement: the digest of its binding input.
pub open spec fn attestation_digest(attestation: AttestationData) -> Seq<u8> {
    keccak_hashv(binding_input(attestation))
}

/// The binding digest of a statement, where it has one: a payload that
/// cannot be encoded has none.
pub open spec fn binding_digest(attestation: AttestationData) -> Option<Seq<u8>> {
    if attestation.payload.encodable() {
        Some(attestation_digest(attestation))
    } else {
        None
    }
}

/// The bytes of a digest that may be missing.
pub open spec fn digest_view(digest: Option<[u8; 32]>) -> Option<Seq<u8>> {
    match digest {
        Some(bytes) => Some(bytes@),
        None => None,
    }
}

/// Hashes a payload. Fails with `InvalidAttestation` exactly when the
/// payload cannot be encoded.
pub fn calculate_payload_hash(payload: &AttestationPayload) -> (result: Result<
    [u8; 32],
    PrivateCreditError,
>)
    ensures
        match result {
            Ok(digest) => payload.encodable() && digest@ == payload_digest(*payload),
            Err(e) => !payload.encodable() && e == PrivateCreditError::InvalidAttestation,
        },
{
    match payload.encode() {
        Some(bytes) => Ok(hash_one(bytes)),
        None => Err(PrivateCreditError::InvalidAttestation),
    }
}

/// Computes the binding digest of a statement. Fails with
/// `InvalidAttestation` exactly when the payload cannot be encoded.
pub fn calculate_attestation_hash(attestation: &AttestationData) -> (result: Result<
    [u8; 32],
    PrivateCreditError,
>)
    ensures
        match result {
            Ok(digest) => binding_digest(*attestation) == Some(digest@),
            Err(e) => binding_digest(*attestation) is None && e
                == PrivateCreditError::InvalidAttestation,
        },
{
    match attestation.payload.encode() {
        Some(bytes) => {
            let nonce = u64_to_le_bytes(attestation.nonce);
            let timestamp = u64_to_le_bytes(
                #[verifier::truncate]
                (attestation.timestamp as u64),
            );
            Ok(hash_three(bytes, nonce, timestamp))
        },
        None => Err(PrivateCreditError::InvalidAttestation),
    }
}

/// Why a statement with the given binding digest cannot be relied on, if it
/// cannot: it has no digest, the record is stored under another digest, or
/// the record has not passed verification.
pub open spec fn attestation_refusal(
    digest: Option<Seq<u8>>,
    record: AttestationRecord,
) -> Option<PrivateCreditError> {
    match digest {
        None => Some(PrivateCreditError::InvalidAttestation),
        Some(bytes) => if record.attestation_hash@ != bytes {
            Some(PrivateCreditError::InvalidAttestation)
        } else if !record.verified {
            Some(PrivateCreditError::AttestationVerificationFailed)
        } else {
            None
        },
    }
}

/// Checks that `record` is the verified record of the statement with the
/// given binding digest.
pub fn check_attestation(digest: Option<[u8; 32]>, record: &AttestationRecord) -> (result: Result<
    (),
    PrivateCreditError,
>)
    ensures
        match result {
            Ok(()) => attestation_refusal(digest_view(digest), *record) is None,
            Err(e) => attestation_refusal(digest_view(digest), *record) == Some(e),
        },
{
    match digest {
        None => Err(PrivateCreditError::InvalidAttestation),
        Some(bytes) => {
            if !bytes32_eq(&record.attestation_hash, &bytes) {
                Err(PrivateCreditError::InvalidAttestation)
            } else if !record.verified {
                Err(PrivateCreditError::AttestationVerificationFailed)
            } else {
                Ok(())
            }
        },
    }
}

/// Whether the signer at `index` counts: a verdict was handed in for it and
/// the verdict says that its signature validated.
pub open spec fn signature_counts(signature_valid: Seq<bool>, index: int) -> bool {
    0 <= index < signature_valid.len() && signature_valid[index]
}

/// The summed weight of the signers whose signatures validated.
pub open spec fn valid_weight(signers: Seq<SignerMeta>, signature_valid: Seq<bool>) -> nat
    decreases signers.len(),
{
    if signers.len() == 0 {
        0
    } else {
        let rest = valid_weight(signers.drop_last(), signature_valid);
        if signature_counts(signature_valid, signers.len() - 1) {
            rest + signers.last().weight as nat
        } else {
            rest
        }
    }
}

/// The threshold check: there is at least one signer, and the signers whose
/// signatures validated weigh at least `threshold` together.
pub open spec fn threshold_met(
    signers: Seq<SignerMeta>,
    signature_valid: Seq<bool>,
    threshold: u8,
) -> bool {
    signers.len() > 0 && valid_weight(signers, signature_valid) >= threshold
}

/// Decides `threshold_met`. `signature_valid[i]` says whether the signature
/// of `signer_meta[i]` validated against the payload digest and the keys of
/// the attester group; a signer without a verdict does not count. Fails
/// with `AttestationVerificationFailed` exactly when the threshold is not
/// met.
pub fn verify_threshold_signature(
    signer_meta: &Vec<SignerMeta>,
    signature_valid: &Vec<bool>,
    threshold: u8,
) -> (result: Result<(), PrivateCreditError>)
    ensures
        match result {
            Ok(()) => threshold_met(signer_meta@, signature_valid@, threshold),
            Err(e) => !threshold_met(signer_meta@, signature_valid@, threshold) && e
                == PrivateCreditError::AttestationVerificationFailed,
        },
{
    let mut weight: u128 = 0;
    let mut i: usize = 0;
    while i < signer_meta.len()
        invariant
            i <= signer_meta@.len(),
            weight == valid_weight(signer_meta@.subrange(0, i as int), signature_valid@),
            weight <= 255 * i,
        decreases signer_meta@.len() - i,
    {
        let counts = i < signature_valid.len() && signature_valid[i];
        proof {
            let next = signer_meta@.subrange(0, i + 1);
            assert(next.drop_last() =~= signer_meta@.subrange(0, i as int));
            assert(next.last() == signer_meta@[i as int]);
        }
        if counts {
            weight = weight + signer_meta[i].weight as u128;
        }
        i += 1;
    }
    assert(signer_meta@.subrange(0, i as int) =~= signer_meta@);
    if signer_meta.len() > 0 && weight >= threshold as u128 {
        Ok(())
    } else {
        Err(PrivateCreditError::AttestationVerificationFailed)
    }
}

/// The signer list of a submitted statement: each address paired with the
/// signature at the same position, at the default weight. Addresses or
/// signatures beyond the shorter of the two lists are left out.
pub open spec fn signer_entries(pubkeys: Seq<Address>, signatures: Seq<[u8; 64]>) -> Seq<
    SignerMeta,
> {
    Seq::new(
        if pubkeys.len() <= signatures.len() {
            pubkeys.len()
        } else {
            signatures.len()
        },
        |i: int|
            SignerMeta {
                pubkey: pubkeys[i],
                signature: signatures[i],
                weight: DEFAULT_SIGNER_WEIGHT,
            },
    )
}

/// Builds `signer_entries`.
pub fn collect_signers(pubkeys: &Vec<Address>, signatures: &Vec<[u8; 64]>) -> (signers: Vec<
    SignerMeta,
>)
    ensures
        signers@ == signer_entries(pubkeys@, signatures@),
{
    let count = if pubkeys.len() <= signatures.len() {
        pubkeys.len()
    } else {
        signatures.len()
    };
    let mut signers: Vec<SignerMeta> = Vec::new();
    let mut i: usize = 0;
    while i < count
        invariant
            i <= count,
            count <= pubkeys@.len(),
            count <= signatures@.len(),
            signers@.len() == i,
            forall|j: int|
                0 <= j < i ==> signers@[j] == (SignerMeta {
                    pubkey: pubkeys@[j],
                    signature: signatures@[j],
                    weight: DEFAULT_SIGNER_WEIGHT,
                }),
        decreases count - i,
    {
        signers.push(
            SignerMeta {
                pubkey: pubkeys[i],
                signature: signatures[i],
                weight: DEFAULT_SIGNER_WEIGHT,
            },
        );
        i += 1;
    }
    assert(signers@ =~= signer_entries(pubkeys@, signatures@));
    signers
}

/// Stores a statement whose digests are already known. `attestation_hash`
/// is the digest under which the record is to be stored; it has to be the
/// statement's binding digest, else the result is `InvalidAttestation`. The
/// new record is unverified.
pub fn submit_attestation_with_digests(
    attestation: &AttestationData,
    attestation_hash: &[u8; 32],
    binding: &[u8; 32],
    payload_hash: &[u8; 32],
    now: i64,
    bump: u8,
) -> (result: Result<AttestationRecord, PrivateCreditError>)
    ensures
        match result {
            Ok(record) => {
                &&& attestation_hash@ == binding@
                &&& record.attestation_hash == *attestation_hash
                &&& record.signer_meta@ == signer_entries(
                    attestation.signer_pubkeys@,
                    attestation.signatures@,
                )
                &&& record.payload_hash == *payload_hash
                &&& record.timestamp == now
                &&& !record.verified
                &&& record.bump == bump
            },
            Err(e) => attestation_hash@ != binding@ && e == PrivateCreditError::InvalidAttestation,
        },
{
    if !bytes32_eq(attestation_hash, binding) {
        return Err(PrivateCreditError::InvalidAttestation);
    }
    let signer_meta = collect_signers(&attestation.signer_pubkeys, &attestation.signatures);
    Ok(
        AttestationRecord {
            attestation_hash: *attestation_hash,
            signer_meta,
            payload_hash: *payload_hash,
            timestamp: now,
            verified: false,
            bump,
        },
    )
}

/// Admits a statement: computes its binding digest and its payload digest
/// and stores an unverified record under the binding digest.
///
/// `attestation_hash` is the digest from which the record's storage address
/// was derived. The result is `InvalidAttestation` when the payload cannot
/// be encoded or when `attestation_hash` is not the binding digest.
pub fn submit_attestation(
    attestation: &AttestationData,
    attestation_hash: &[u8; 32],
    now: i64,
    bump: u8,
) -> (result: Result<AttestationRecord, PrivateCreditError>)
    ensures
        match result {
            Ok(record) => {
                &&& binding_digest(*attestation) == Some(attestation_hash@)
                &&& record.attestation_hash == *attestation_hash
                &&& record.signer_meta@ == signer_entries(
                    attestation.signer_pubkeys@,
                    attestation.signatures@,
                )
                &&& record.payload_hash@ == payload_digest(attestation.payload)
                &&& record.timestamp == now
                &&& !record.verified
                &&& record.bump == bump
            },
            Err(e) => binding_digest(*attestation) != Some(attestation_hash@) && e
                == PrivateCreditError::InvalidAttestation,
        },
{
    let binding = match calculate_attestation_hash(attestation) {
        Ok(digest) => digest,
        Err(e) => {
            return Err(e);
        },
    };
    let payload_hash = match calculate_payload_hash(&attestation.payload) {
        Ok(digest) => digest,
        Err(e) => {
            return Err(e);
        },
    };
    submit_attestation_with_digests(
        attestation,
        attestation_hash,
        &binding,
        &payload_hash,
        now,
        bump,
    )
}

/// Verifies a stored record against the verdicts on its signers.
///
/// A record stored under another digest than `attestation_hash` is refused
/// with `InvalidAttestation`. Otherwise the threshold check decides: when it
/// passes the record is marked verified and the result is `true`; when it
/// does not the record stays as it was and the result is `false`, so that
/// the unverified record can still be inspected.
pub fn verify_attestation(
    attestation_record: &mut AttestationRecord,
    attestation_hash: &[u8; 32],
    signature_valid: &Vec<bool>,
    threshold: u8,
) -> (result: Result<bool, PrivateCreditError>)
    ensures
        match result {
            Ok(verified) => {
                &&& old(attestation_record).attestation_hash@ == attestation_hash@
                &&& verified == threshold_met(
                    old(attestation_record).signer_meta@,
                    signature_valid@,
                    threshold,
                )
                &&& verified ==> *final(attestation_record) == (AttestationRecord {
                    verified: true,
                    ..*old(attestation_record)
                })
                &&& !verified ==> *final(attestation_record) == *old(attestation_record)
            },
            Err(e) => {
                &&& old(attestation_record).attestation_hash@ != attestation_hash@
                &&& e == PrivateCreditError::InvalidAttestation
                &&& *final(attestation_record) == *old(attestation_record)
            },
        },
{
    if !bytes32_eq(&attestation_record.attestation_hash, attestation_hash) {
        return Err(PrivateCreditError::InvalidAttestation);
    }
    match verify_threshold_signature(&attestation_record.signer_meta, signature_valid, threshold) {
        Ok(()) => {
            attestation_record.verified = true;
            Ok(true)
        },
        Err(_) => Ok(false),
    }
}

/// The binding input says everything that the digest is meant to bind:
/// two statements with the same binding input have the same payload, nonce
/// and timestamp. (That equal digests come from equal inputs is a matter of
/// the hash function and is not claimed here.)
pub proof fn lemma_binding_input_injective(a: AttestationData, b: AttestationData)
    requires
        binding_input(a) == binding_input(b),
    ensures
        a.payload@ == b.payload@,
        a.nonce == b.nonce,
        a.timestamp == b.timestamp,
{
    assert(binding_input(a)[0] == binding_input(b)[0]);
    assert(binding_input(a)[1] == binding_input(b)[1]);
    assert(binding_input(a)[2] == binding_input(b)[2]);
    lemma_encoding_injective(a.payload, b.payload);
    lemma_u64_bytes_injective(a.nonce, b.nonce);
    lemma_u64_bytes_injective(a.timestamp as u64, b.timestamp as u64);
    lemma_timestamp_bits_injective(a.timestamp, b.timestamp);
}

/// A threshold check over no signers never passes, whatever the verdicts
/// and however low the threshold.
pub proof fn lemma_empty_signer_set_fails(signature_valid: Seq<bool>, threshold: u8)
    ensures
        !threshold_met(Seq::<SignerMeta>::empty(), signature_valid, threshold),
{
}

} // verus!
