//! Requesting and granting an auditor's access to a loan's data.
//!
//! Granting access only records the grant. Disclosing the data to the
//! auditor is the work of whoever acts on the approved request.

use vstd::prelude::*;
use crate::address::{bytes32_eq, bytes32_is_zero, zero_bytes32, Address};
use crate::errors::PrivateCreditError;
use crate::encoding::append_bytes;
use crate::hashing::{hash_two, keccak_hashv};
use crate::instructions::attestation::{
    attestation_refusal, binding_digest, calculate_attestation_hash, check_attestation,
    digest_view,
};
use crate::state::attestation::{
    AttestationData, AttestationPayload, AttestationRecord, AttestationType, AuditRequest,
    AuditRequestStatus,
};
use crate::state::pool::PoolAccount;

verus! {

/// The digest that binds a loan identifier to an auditor's address.
pub open spec fn permission_digest(loan_id: Seq<u8>, auditor: Address) -> Seq<u8> {
    keccak_hashv(seq![loan_id, auditor.bytes@])
}

/// Computes `permission_digest`.
pub fn calculate_permission_hash(loan_id: &[u8; 32], auditor_pubkey: &Address) -> (digest: [
    u8;
    32
])
    ensures
        digest@ == permission_digest(loan_id@, *auditor_pubkey),
{
    let mut loan_bytes: Vec<u8> = Vec::new();
    append_bytes(&mut loan_bytes, loan_id.as_slice());
    let mut auditor_bytes: Vec<u8> = Vec::new();
    append_bytes(&mut auditor_bytes, auditor_pubkey.bytes.as_slice());
    assert(loan_bytes@ =~= loan_id@);
    assert(auditor_bytes@ =~= auditor_pubkey.bytes@);
    hash_two(loan_bytes, auditor_bytes)
}

/// Files an audit request whose permission digest is already known.
///
/// The legal order's digest must not be all zero, else the result is
/// `LegalOrderVerificationFailed` and no request is made. The new request is
/// pending and has not been granted.
pub fn request_audit_with_digest(
    requester: Address,
    loan_id: [u8; 32],
    auditor_pubkey: Address,
    permission_hash: [u8; 32],
    legal_order_hash: [u8; 32],
    now: i64,
    bump: u8,
) -> (result: Result<AuditRequest, PrivateCreditError>)
    ensures
        match result {
            Ok(request) => legal_order_hash@ != zero_bytes32() && request == (AuditRequest {
                requester,
                loan_id,
                auditor_pubkey,
                permission_hash,
                legal_order_hash,
                status: AuditRequestStatus::Pending,
                created_at: now,
                granted_at: None,
                bump,
            }),
            Err(e) => legal_order_hash@ == zero_bytes32() && e
                == PrivateCreditError::LegalOrderVerificationFailed,
        },
{
    if bytes32_is_zero(&legal_order_hash) {
        return Err(PrivateCreditError::LegalOrderVerificationFailed);
    }
    Ok(
        AuditRequest {
            requester,
            loan_id,
            auditor_pubkey,
            permission_hash,
            legal_order_hash,
            status: AuditRequestStatus::Pending,
            created_at: now,
            granted_at: None,
            bump,
        },
    )
}

/// Files a request to disclose a loan's data to an auditor.
///
/// The legal order's digest must not be all zero, else the result is
/// `LegalOrderVerificationFailed` and no request is made. The new request is
/// pending, has not been granted, and carries the permission digest of the
/// loan and the auditor.
pub fn request_audit(
    requester: Address,
    loan_id: [u8; 32],
    auditor_pubkey: Address,
    legal_order_hash: [u8; 32],
    now: i64,
    bump: u8,
) -> (result: Result<AuditRequest, PrivateCreditError>)
    ensures
        match result {
            Ok(request) => {
                &&& legal_order_hash@ != zero_bytes32()
                &&& request.requester == requester
                &&& request.loan_id == loan_id
                &&& request.auditor_pubkey == auditor_pubkey
                &&& request.permission_hash@ == permission_digest(loan_id@, auditor_pubkey)
                &&& request.legal_order_hash == legal_order_hash
                &&& request.status == AuditRequestStatus::Pending
                &&& request.created_at == now
                &&& request.granted_at is None
                &&& request.bump == bump
            },
            Err(e) => legal_order_hash@ == zero_bytes32() && e
                == PrivateCreditError::LegalOrderVerificationFailed,
        },
{
    if bytes32_is_zero(&legal_order_hash) {
        return Err(PrivateCreditError::LegalOrderVerificationFailed);
    }
    let permission_hash = calculate_permission_hash(&loan_id, &auditor_pubkey);
    request_audit_with_digest(
        requester,
        loan_id,
        auditor_pubkey,
        permission_hash,
        legal_order_hash,
        now,
        bump,
    )
}

/// The statement grants what the request asks for: it is an audit grant
/// for the request's loan and the request's auditor.
pub open spec fn grants_request(attestation: AttestationData, request: AuditRequest) -> bool {
    &&& attestation.payload matches AttestationPayload::AuditGrant { loan_id, auditor_pubkey, .. }
    &&& loan_id@ == request.loan_id@
    &&& auditor_pubkey == request.auditor_pubkey
}

/// Decides `grants_request`.
pub fn statement_grants_request(attestation: &AttestationData, request: &AuditRequest) -> (grants:
    bool)
    ensures
        grants == grants_request(*attestation, *request),
{
    match &attestation.payload {
        AttestationPayload::AuditGrant { loan_id, auditor_pubkey, .. } => bytes32_eq(
            loan_id,
            &request.loan_id,
        ) && auditor_pubkey.equals(&request.auditor_pubkey),
        _ => false,
    }
}

/// Why a grant is refused, if it is. The conditions are tested in this order:
/// the caller is the pool's authority; the request is still pending; the
/// statement is an audit grant; the loan identifier and the auditor are the
/// stored ones; the statement names that loan and that auditor; and it has a
/// verified record under its binding digest.
pub open spec fn audit_grant_refusal(
    request: AuditRequest,
    pool: PoolAccount,
    caller: Address,
    loan_id: Seq<u8>,
    auditor: Address,
    attestation: AttestationData,
    digest: Option<Seq<u8>>,
    record: AttestationRecord,
) -> Option<PrivateCreditError> {
    if caller != pool.authority {
        Some(PrivateCreditError::UnauthorizedAccess)
    } else if request.status != AuditRequestStatus::Pending {
        Some(PrivateCreditError::AuditRequestDenied)
    } else if !attestation.attests(AttestationType::AuditGrant) {
        Some(PrivateCreditError::InvalidAttestation)
    } else if request.loan_id@ != loan_id {
        Some(PrivateCreditError::LoanNotFound)
    } else if request.auditor_pubkey != auditor {
        Some(PrivateCreditError::InvalidAuditor)
    } else if !grants_request(attestation, request) {
        Some(PrivateCreditError::InvalidAttestation)
    } else {
        attestation_refusal(digest, record)
    }
}

/// Grants a pending audit request on the strength of a statement whose
/// binding digest is already known (`None` where the statement has none).
///
/// On success the request is approved and `now` is its time of grant, and
/// nothing else has changed. On any refusal it is left as it was.
pub fn grant_audit_access_with_digest(
    audit_request: &mut AuditRequest,
    pool_account: &PoolAccount,
    caller: &Address,
    loan_id: &[u8; 32],
    auditor_pubkey: &Address,
    attestation: &AttestationData,
    attestation_digest: Option<[u8; 32]>,
    attestation_record: &AttestationRecord,
    now: i64,
) -> (result: Result<(), PrivateCreditError>)
    ensures
        match result {
            Ok(()) => {
                &&& audit_grant_refusal(
                    *old(audit_request),
                    *pool_account,
                    *caller,
                    loan_id@,
                    *auditor_pubkey,
                    *attestation,
                    digest_view(attestation_digest),
                    *attestation_record,
                ) is None
                &&& *final(audit_request) == (AuditRequest {
                    status: AuditRequestStatus::Approved,
                    granted_at: Some(now),
                    ..*old(audit_request)
                })
            },
            Err(e) => {
                &&& audit_grant_refusal(
                    *old(audit_request),
                    *pool_account,
                    *caller,
                    loan_id@,
                    *auditor_pubkey,
                    *attestation,
                    digest_view(attestation_digest),
                    *attestation_record,
                ) == Some(e)
                &&& *final(audit_request) == *old(audit_request)
            },
        },
{
    if !caller.equals(&pool_account.authority) {
        return Err(PrivateCreditError::UnauthorizedAccess);
    }
    match audit_request.status {
        AuditRequestStatus::Pending => {},
        _ => {
            return Err(PrivateCreditError::AuditRequestDenied);
        },
    }
    if !attestation.is_of_type(AttestationType::AuditGrant) {
        return Err(PrivateCreditError::InvalidAttestation);
    }
    if !bytes32_eq(&audit_request.loan_id, loan_id) {
        return Err(PrivateCreditError::LoanNotFound);
    }
    if !audit_request.auditor_pubkey.equals(auditor_pubkey) {
        return Err(PrivateCreditError::InvalidAuditor);
    }
    if !statement_grants_request(attestation, audit_request) {
        return Err(PrivateCreditError::InvalidAttestation);
    }
    match check_attestation(attestation_digest, attestation_record) {
        Ok(()) => {},
        Err(e) => {
            return Err(e);
        },
    }
    audit_request.status = AuditRequestStatus::Approved;
    audit_request.granted_at = Some(now);
    Ok(())
}

/// Grants a pending audit request on the strength of `attestation`, whose
/// stored record is `attestation_record`.
///
/// The outcome is that of `grant_audit_access_with_digest` on the
/// statement's binding digest.
pub fn grant_audit_access(
    audit_request: &mut AuditRequest,
    pool_account: &PoolAccount,
    caller: &Address,
    loan_id: &[u8; 32],
    auditor_pubkey: &Address,
    attestation: &AttestationData,
    attestation_record: &AttestationRecord,
    now: i64,
) -> (result: Result<(), PrivateCreditError>)
    ensures
        match result {
            Ok(()) => {
                &&& audit_grant_refusal(
                    *old(audit_request),
                    *pool_account,
                    *caller,
                    loan_id@,
                    *auditor_pubkey,
                    *attestation,
                    binding_digest(*attestation),
                    *attestation_record,
                ) is None
                &&& *final(audit_request) == (AuditRequest {
                    status: AuditRequestStatus::Approved,
                    granted_at: Some(now),
                    ..*old(audit_request)
                })
            },
            Err(e) => {
                &&& audit_grant_refusal(
                    *old(audit_request),
                    *pool_account,
                    *caller,
                    loan_id@,
                    *auditor_pubkey,
                    *attestation,
                    binding_digest(*attestation),
                    *attestation_record,
                ) == Some(e)
                &&& *final(audit_request) == *old(audit_request)
            },
        },
{
    let digest = match calculate_attestation_hash(attestation) {
        Ok(bytes) => Some(bytes),
        Err(_) => None,
    };
    grant_audit_access_with_digest(
        audit_request,
        pool_account,
        caller,
        loan_id,
        auditor_pubkey,
        attestation,
        digest,
        attestation_record,
        now,
    )
}

} // verus!
