use anchor_lang::solana_program::keccak;
use private_credit::instructions::{
    calculate_attestation_hash, calculate_permission_hash, grant_audit_access,
    grant_audit_access_with_digest, initialize_pool, request_audit, request_audit_with_digest,
    submit_attestation, verify_attestation,
};
use private_credit::state::{
    AttestationData, AttestationPayload, AttestationRecord, AttestationType, AuditRequest,
    AuditRequestStatus, CovenantThresholds, PoolAccount, PoolConfig,
};
use private_credit::{Address, PrivateCreditError};

const LOAN_ID: [u8; 32] = [7u8; 32];

const PERMISSION_HASH: [u8; 32] = [
    0x5b, 0x89, 0x5d, 0xf7, 0x99, 0x7b, 0x5b, 0x29, 0xa0, 0xaf, 0xa4, 0xeb, 0x42, 0x1f, 0xd7, 0xed,
    0xe9, 0xfc, 0x81, 0xcf, 0xfd, 0x62, 0x5a, 0x84, 0x21, 0x96, 0xcc, 0x43, 0x70, 0x8d, 0x41, 0xe3,
];

fn authority() -> Address {
    Address::new([2u8; 32])
}

fn auditor() -> Address {
    Address::new([9u8; 32])
}

fn requester() -> Address {
    Address::new([12u8; 32])
}

fn pool() -> PoolAccount {
    let config = PoolConfig {
        max_loan_amount: 10_000,
        min_loan_amount: 100,
        max_loan_duration: 30,
        interest_rate_bps: 500,
        management_fee_bps: 0,
        performance_fee_bps: 0,
        reserve_ratio_bps: 0,
        insurance_ratio_bps: 0,
        max_borrower_concentration: 0,
        min_credit_score: 0,
        covenant_thresholds: CovenantThresholds {
            max_ltv: 0,
            min_dscr: 0,
            max_utilization: 0,
            min_collateral_ratio: 0,
        },
        emergency_pause: false,
    };
    initialize_pool(
        Address::new([1u8; 32]),
        authority(),
        Address::new([3u8; 32]),
        Address::new([4u8; 32]),
        config,
        10,
        255,
    )
    .unwrap()
}

fn grant_for(loan_id: [u8; 32], auditor_pubkey: Address) -> AttestationData {
    AttestationData::new(
        AttestationPayload::AuditGrant { loan_id, auditor_pubkey, access_level: 2 },
        vec![[1u8; 64]],
        vec![Address::new([21u8; 32])],
        1,
        1,
        100,
    )
}

fn submitted(attestation: &AttestationData) -> AttestationRecord {
    let hash = calculate_attestation_hash(attestation).unwrap();
    submit_attestation(attestation, &hash, 30, 250).unwrap()
}

fn verified(attestation: &AttestationData) -> AttestationRecord {
    let mut record = submitted(attestation);
    let hash = record.attestation_hash;
    assert_eq!(verify_attestation(&mut record, &hash, &vec![true], 1), Ok(true));
    record
}

fn pending_request() -> AuditRequest {
    request_audit(requester(), LOAN_ID, auditor(), [13u8; 32], 60, 240).unwrap()
}

fn grant(
    request: &mut AuditRequest,
    attestation: &AttestationData,
    record: &AttestationRecord,
) -> Result<(), PrivateCreditError> {
    grant_audit_access(request, &pool(), &authority(), &LOAN_ID, &auditor(), attestation, record, 70)
}

#[test]
fn permission_hash_binds_the_loan_to_the_auditor() {
    assert_eq!(calculate_permission_hash(&LOAN_ID, &auditor()), PERMISSION_HASH);
    let direct = keccak::hashv(&[LOAN_ID.as_slice(), auditor().bytes.as_slice()]);
    assert_eq!(calculate_permission_hash(&LOAN_ID, &auditor()), direct.to_bytes());
    assert_ne!(calculate_permission_hash(&LOAN_ID, &requester()), PERMISSION_HASH);
    assert_ne!(calculate_permission_hash(&[8u8; 32], &auditor()), PERMISSION_HASH);
    assert_ne!(calculate_permission_hash(&auditor().bytes, &Address::new(LOAN_ID)), PERMISSION_HASH);
}

#[test]
fn request_with_an_all_zero_legal_order_fails_and_any_other_is_pending() {
    assert_eq!(
        request_audit(requester(), LOAN_ID, auditor(), [0u8; 32], 60, 240),
        Err(PrivateCreditError::LegalOrderVerificationFailed)
    );
    let request = request_audit(requester(), LOAN_ID, auditor(), [13u8; 32], 60, 240).unwrap();
    assert_eq!(request.status, AuditRequestStatus::Pending);
    let expected = AuditRequest {
        requester: requester(),
        loan_id: LOAN_ID,
        auditor_pubkey: auditor(),
        permission_hash: PERMISSION_HASH,
        legal_order_hash: [13u8; 32],
        status: AuditRequestStatus::Pending,
        created_at: 60,
        granted_at: None,
        bump: 240,
    };
    assert_eq!(request, expected);
}

#[test]
fn a_legal_order_with_a_single_set_bit_is_accepted() {
    let mut order = [0u8; 32];
    order[31] = 1;
    assert!(request_audit(requester(), LOAN_ID, auditor(), order, 60, 240).is_ok());
    let mut order = [0u8; 32];
    order[0] = 0x80;
    assert!(request_audit(requester(), LOAN_ID, auditor(), order, 60, 240).is_ok());
    assert_eq!(
        request_audit_with_digest(requester(), LOAN_ID, auditor(), [1u8; 32], [0u8; 32], 60, 240),
        Err(PrivateCreditError::LegalOrderVerificationFailed)
    );
    let request =
        request_audit_with_digest(requester(), LOAN_ID, auditor(), [1u8; 32], order, 60, 240)
            .unwrap();
    assert_eq!(request.permission_hash, [1u8; 32]);
}

#[test]
fn grant_approves_a_pending_request_and_records_the_time() {
    let attestation = grant_for(LOAN_ID, auditor());
    let record = verified(&attestation);
    let mut request = pending_request();
    let before = request;
    assert_eq!(grant(&mut request, &attestation, &record), Ok(()));
    let expected = AuditRequest {
        status: AuditRequestStatus::Approved,
        granted_at: Some(70),
        ..before
    };
    assert_eq!(request, expected);
}

#[test]
fn grant_on_a_request_already_approved_is_denied() {
    let attestation = grant_for(LOAN_ID, auditor());
    let record = verified(&attestation);
    let mut request = pending_request();
    assert_eq!(grant(&mut request, &attestation, &record), Ok(()));
    let approved = request;
    assert_eq!(
        grant(&mut request, &attestation, &record),
        Err(PrivateCreditError::AuditRequestDenied)
    );
    assert_eq!(request, approved);
}

#[test]
fn grant_on_a_denied_or_expired_request_is_denied() {
    let attestation = grant_for(LOAN_ID, auditor());
    let record = verified(&attestation);
    for status in [AuditRequestStatus::Denied, AuditRequestStatus::Expired] {
        let mut request = pending_request();
        request.status = status;
        let before = request;
        assert_eq!(
            grant(&mut request, &attestation, &record),
            Err(PrivateCreditError::AuditRequestDenied)
        );
        assert_eq!(request, before);
    }
}

#[test]
fn grant_rejects_a_caller_who_is_not_the_authority() {
    let attestation = grant_for(LOAN_ID, auditor());
    let record = verified(&attestation);
    let mut request = pending_request();
    request.status = AuditRequestStatus::Approved;
    let before = request;
    assert_eq!(
        grant_audit_access(
            &mut request,
            &pool(),
            &requester(),
            &LOAN_ID,
            &auditor(),
            &attestation,
            &record,
            70
        ),
        Err(PrivateCreditError::UnauthorizedAccess)
    );
    assert_eq!(request, before);
}

#[test]
fn grant_needs_an_audit_grant_statement() {
    let attestation = AttestationData::new(
        AttestationPayload::NavUpdate { pool_id: [1u8; 32], new_nav: 1, epoch: 1 },
        vec![[1u8; 64]],
        vec![Address::new([21u8; 32])],
        1,
        1,
        100,
    );
    let record = verified(&attestation);
    let mut request = pending_request();
    let before = request;
    assert_eq!(
        grant(&mut request, &attestation, &record),
        Err(PrivateCreditError::InvalidAttestation)
    );
    // A statement that only claims to be a grant is none.
    let mut mislabelled = attestation.clone();
    mislabelled.attestation_type = AttestationType::AuditGrant;
    assert_eq!(
        grant(&mut request, &mislabelled, &record),
        Err(PrivateCreditError::InvalidAttestation)
    );
    assert_eq!(request, before);
}

#[test]
fn grant_rejects_another_loan_or_another_auditor() {
    let attestation = grant_for(LOAN_ID, auditor());
    let record = verified(&attestation);
    let mut request = pending_request();
    let before = request;
    assert_eq!(
        grant_audit_access(
            &mut request,
            &pool(),
            &authority(),
            &[8u8; 32],
            &auditor(),
            &attestation,
            &record,
            70
        ),
        Err(PrivateCreditError::LoanNotFound)
    );
    assert_eq!(
        grant_audit_access(
            &mut request,
            &pool(),
            &authority(),
            &LOAN_ID,
            &requester(),
            &attestation,
            &record,
            70
        ),
        Err(PrivateCreditError::InvalidAuditor)
    );
    // The loan is looked at before the auditor.
    assert_eq!(
        grant_audit_access(
            &mut request,
            &pool(),
            &authority(),
            &[8u8; 32],
            &requester(),
            &attestation,
            &record,
            70
        ),
        Err(PrivateCreditError::LoanNotFound)
    );
    assert_eq!(request, before);
}

#[test]
fn grant_needs_a_statement_about_the_same_loan_and_auditor() {
    let mut request = pending_request();
    let before = request;
    let other_loan = grant_for([8u8; 32], auditor());
    let record = verified(&other_loan);
    assert_eq!(
        grant(&mut request, &other_loan, &record),
        Err(PrivateCreditError::InvalidAttestation)
    );
    let other_auditor = grant_for(LOAN_ID, requester());
    let record = verified(&other_auditor);
    assert_eq!(
        grant(&mut request, &other_auditor, &record),
        Err(PrivateCreditError::InvalidAttestation)
    );
    assert_eq!(request, before);
}

#[test]
fn grant_needs_a_verified_record_of_the_statement() {
    let attestation = grant_for(LOAN_ID, auditor());
    let unverified = submitted(&attestation);
    let mut request = pending_request();
    let before = request;
    assert_eq!(
        grant(&mut request, &attestation, &unverified),
        Err(PrivateCreditError::AttestationVerificationFailed)
    );
    let mut other = grant_for(LOAN_ID, auditor());
    other.nonce = 2;
    let foreign = verified(&other);
    assert_eq!(
        grant(&mut request, &attestation, &foreign),
        Err(PrivateCreditError::InvalidAttestation)
    );
    assert_eq!(
        grant_audit_access_with_digest(
            &mut request,
            &pool(),
            &authority(),
            &LOAN_ID,
            &auditor(),
            &attestation,
            None,
            &foreign,
            70
        ),
        Err(PrivateCreditError::InvalidAttestation)
    );
    assert_eq!(request, before);
}
