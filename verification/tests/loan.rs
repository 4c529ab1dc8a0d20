use private_credit::instructions::{
    calculate_attestation_hash, create_loan_commit, initialize_pool, submit_attestation,
    update_loan_status, update_loan_status_with_digest, verify_attestation,
};
use private_credit::state::{
    AttestationData, AttestationPayload, AttestationRecord, CovenantThresholds, LoanCommit,
    LoanCommitData, LoanStatus, PoolAccount, PoolConfig,
};
use private_credit::{Address, PrivateCreditError};

const LOAN_ID: [u8; 32] = [7u8; 32];

fn authority() -> Address {
    Address::new([2u8; 32])
}

fn pool() -> PoolAccount {
    let config = PoolConfig {
        max_loan_amount: 10_000,
        min_loan_amount: 100,
        max_loan_duration: 30,
        interest_rate_bps: 500,
        management_fee_bps: 0,
        performance_fee_bps: 0,
        reserve_ratio_bps: 0,
        insurance_ratio_bps: 0,
        max_borrower_concentration: 0,
        min_credit_score: 0,
        covenant_thresholds: CovenantThresholds {
            max_ltv: 0,
            min_dscr: 0,
            max_utilization: 0,
            min_collateral_ratio: 0,
        },
        emergency_pause: false,
    };
    initialize_pool(
        Address::new([1u8; 32]),
        authority(),
        Address::new([3u8; 32]),
        Address::new([4u8; 32]),
        config,
        10,
        255,
    )
    .unwrap()
}

fn loan_data(amount: u64, duration: u64, tranche: u8) -> LoanCommitData {
    LoanCommitData {
        loan_id: LOAN_ID,
        borrower_pubkey: Address::new([5u8; 32]),
        lender_pubkey: Address::new([6u8; 32]),
        commit_hash: [8u8; 32],
        amount,
        interest_rate_bps: 450,
        duration,
        collateral_hash: [9u8; 32],
        tranche,
        maturity: 1_000,
    }
}

fn loan_in(status: LoanStatus) -> LoanCommit {
    let mut loan = create_loan_commit(&pool(), &authority(), loan_data(500, 30, 0), 20, 253)
        .unwrap();
    loan.status = status;
    loan
}

fn approval() -> AttestationData {
    AttestationData::new(
        AttestationPayload::LoanApproval {
            loan_id: LOAN_ID,
            borrower_pubkey: Address::new([5u8; 32]),
            amount: 500,
        },
        vec![[1u8; 64], [2u8; 64]],
        vec![Address::new([21u8; 32]), Address::new([22u8; 32])],
        2,
        2,
        200,
    )
}

fn submitted(attestation: &AttestationData) -> AttestationRecord {
    let hash = calculate_attestation_hash(attestation).unwrap();
    submit_attestation(attestation, &hash, 30, 250).unwrap()
}

fn verified(attestation: &AttestationData) -> AttestationRecord {
    let mut record = submitted(attestation);
    let hash = record.attestation_hash;
    assert_eq!(
        verify_attestation(&mut record, &hash, &vec![true, true], attestation.threshold),
        Ok(true)
    );
    record
}

const ALL_STATES: [LoanStatus; 7] = [
    LoanStatus::Pending,
    LoanStatus::Approved,
    LoanStatus::Active,
    LoanStatus::Repaid,
    LoanStatus::Defaulted,
    LoanStatus::Liquidated,
    LoanStatus::Cancelled,
];

fn is_edge(from: LoanStatus, to: LoanStatus) -> bool {
    matches!(
        (from, to),
        (LoanStatus::Pending, LoanStatus::Approved)
            | (LoanStatus::Approved, LoanStatus::Active)
            | (LoanStatus::Active, LoanStatus::Repaid)
            | (LoanStatus::Active, LoanStatus::Defaulted)
            | (LoanStatus::Defaulted, LoanStatus::Liquidated)
            | (LoanStatus::Pending, LoanStatus::Cancelled)
    )
}

#[test]
fn loan_below_the_pool_minimum_fails_and_a_loan_within_bounds_is_pending() {
    let pool = pool();
    assert_eq!(
        create_loan_commit(&pool, &authority(), loan_data(50, 30, 0), 20, 253),
        Err(PrivateCreditError::InvalidLoanCommit)
    );
    let loan = create_loan_commit(&pool, &authority(), loan_data(500, 30, 0), 20, 253).unwrap();
    assert_eq!(loan.status, LoanStatus::Pending);
    assert_eq!(loan.amount, 500);
}

#[test]
fn create_loan_commit_copies_the_parameters() {
    let data = loan_data(500, 12, 2);
    let loan = create_loan_commit(&pool(), &authority(), data, 20, 253).unwrap();
    let expected = LoanCommit {
        loan_id: data.loan_id,
        borrower_pubkey: data.borrower_pubkey,
        lender_pubkey: data.lender_pubkey,
        commit_hash: data.commit_hash,
        status: LoanStatus::Pending,
        amount: 500,
        interest_rate_bps: 450,
        duration: 12,
        collateral_hash: data.collateral_hash,
        tranche: 2,
        maturity: 1_000,
        created_at: 20,
        updated_at: 20,
        bump: 253,
    };
    assert_eq!(loan, expected);
}

#[test]
fn create_loan_commit_accepts_the_edges_of_the_pool_limits() {
    let pool = pool();
    assert!(create_loan_commit(&pool, &authority(), loan_data(100, 30, 3), 20, 0).is_ok());
    assert!(create_loan_commit(&pool, &authority(), loan_data(10_000, 0, 0), 20, 0).is_ok());
}

#[test]
fn create_loan_commit_rejects_what_lies_outside_the_pool_limits() {
    let pool = pool();
    for data in [
        loan_data(99, 30, 0),
        loan_data(10_001, 30, 0),
        loan_data(500, 31, 0),
        loan_data(500, 30, 4),
        loan_data(500, 30, 255),
    ] {
        assert_eq!(
            create_loan_commit(&pool, &authority(), data, 20, 0),
            Err(PrivateCreditError::InvalidLoanCommit)
        );
    }
}

#[test]
fn create_loan_commit_rejects_a_caller_who_is_not_the_authority() {
    assert_eq!(
        create_loan_commit(&pool(), &Address::new([1u8; 32]), loan_data(500, 30, 0), 20, 0),
        Err(PrivateCreditError::UnauthorizedAccess)
    );
    assert_eq!(
        create_loan_commit(&pool(), &Address::new([1u8; 32]), loan_data(50, 30, 0), 20, 0),
        Err(PrivateCreditError::UnauthorizedAccess)
    );
}

#[test]
fn pending_loan_cannot_become_active_but_is_approved_and_then_activated() {
    let pool = pool();
    let attestation = approval();
    let record = verified(&attestation);
    let mut loan = loan_in(LoanStatus::Pending);
    let before = loan;
    assert_eq!(
        update_loan_status(
            &mut loan,
            &pool,
            &authority(),
            &LOAN_ID,
            LoanStatus::Active,
            &attestation,
            &record,
            40
        ),
        Err(PrivateCreditError::InvalidLoanStatusTransition)
    );
    assert_eq!(loan, before);
    assert_eq!(
        update_loan_status(
            &mut loan,
            &pool,
            &authority(),
            &LOAN_ID,
            LoanStatus::Approved,
            &attestation,
            &record,
            41
        ),
        Ok(())
    );
    assert_eq!(loan, LoanCommit { status: LoanStatus::Approved, updated_at: 41, ..before });
    assert_eq!(
        update_loan_status(
            &mut loan,
            &pool,
            &authority(),
            &LOAN_ID,
            LoanStatus::Active,
            &attestation,
            &record,
            42
        ),
        Ok(())
    );
    assert_eq!(loan, LoanCommit { status: LoanStatus::Active, updated_at: 42, ..before });
}

#[test]
fn every_pair_of_states_is_accepted_exactly_along_the_six_edges() {
    let pool = pool();
    let attestation = approval();
    let record = verified(&attestation);
    let mut accepted = 0;
    for from in ALL_STATES {
        for to in ALL_STATES {
            let mut loan = loan_in(from);
            let before = loan;
            let result = update_loan_status(
                &mut loan,
                &pool,
                &authority(),
                &LOAN_ID,
                to,
                &attestation,
                &record,
                50,
            );
            if is_edge(from, to) {
                accepted += 1;
                assert_eq!(result, Ok(()));
                assert_eq!(loan, LoanCommit { status: to, updated_at: 50, ..before });
            } else {
                assert_eq!(result, Err(PrivateCreditError::InvalidLoanStatusTransition));
                assert_eq!(loan, before);
            }
            assert_eq!(from.transition_allowed(to), is_edge(from, to));
        }
    }
    assert_eq!(accepted, 6);
}

#[test]
fn terminal_states_are_repaid_liquidated_and_cancelled() {
    for state in ALL_STATES {
        let expected = matches!(
            state,
            LoanStatus::Repaid | LoanStatus::Liquidated | LoanStatus::Cancelled
        );
        assert_eq!(state.terminal(), expected);
        let has_exit = ALL_STATES.iter().any(|next| state.transition_allowed(*next));
        assert_eq!(has_exit, !expected);
    }
}

#[test]
fn an_attested_move_needs_a_verified_record() {
    let pool = pool();
    let attestation = approval();
    let record = submitted(&attestation);
    assert!(!record.verified);
    let mut loan = loan_in(LoanStatus::Pending);
    let before = loan;
    assert_eq!(
        update_loan_status(
            &mut loan,
            &pool,
            &authority(),
            &LOAN_ID,
            LoanStatus::Approved,
            &attestation,
            &record,
            40
        ),
        Err(PrivateCreditError::AttestationVerificationFailed)
    );
    assert_eq!(loan, before);
}

#[test]
fn an_attested_move_needs_the_record_of_that_very_statement() {
    let pool = pool();
    let attestation = approval();
    let mut other = approval();
    other.nonce = 3;
    let record_of_other = verified(&other);
    let mut loan = loan_in(LoanStatus::Pending);
    let before = loan;
    assert_eq!(
        update_loan_status(
            &mut loan,
            &pool,
            &authority(),
            &LOAN_ID,
            LoanStatus::Approved,
            &attestation,
            &record_of_other,
            40
        ),
        Err(PrivateCreditError::InvalidAttestation)
    );
    assert_eq!(loan, before);
}

#[test]
fn cancelling_a_pending_loan_needs_no_verified_statement() {
    let pool = pool();
    let attestation = approval();
    let record = submitted(&attestation);
    let mut loan = loan_in(LoanStatus::Pending);
    let before = loan;
    assert_eq!(
        update_loan_status(
            &mut loan,
            &pool,
            &authority(),
            &LOAN_ID,
            LoanStatus::Cancelled,
            &attestation,
            &record,
            40
        ),
        Ok(())
    );
    assert_eq!(loan, LoanCommit { status: LoanStatus::Cancelled, updated_at: 40, ..before });
    // Only a pending loan can be cancelled.
    let mut approved = loan_in(LoanStatus::Approved);
    assert_eq!(
        update_loan_status(
            &mut approved,
            &pool,
            &authority(),
            &LOAN_ID,
            LoanStatus::Cancelled,
            &attestation,
            &record,
            40
        ),
        Err(PrivateCreditError::InvalidLoanStatusTransition)
    );
}

#[test]
fn update_loan_status_rejects_another_loan_identifier() {
    let pool = pool();
    let attestation = approval();
    let record = verified(&attestation);
    let mut loan = loan_in(LoanStatus::Pending);
    let before = loan;
    let mut other_id = LOAN_ID;
    other_id[31] = 8;
    assert_eq!(
        update_loan_status(
            &mut loan,
            &pool,
            &authority(),
            &other_id,
            LoanStatus::Approved,
            &attestation,
            &record,
            40
        ),
        Err(PrivateCreditError::LoanNotFound)
    );
    // The identifier is checked before the transition.
    assert_eq!(
        update_loan_status(
            &mut loan,
            &pool,
            &authority(),
            &other_id,
            LoanStatus::Liquidated,
            &attestation,
            &record,
            40
        ),
        Err(PrivateCreditError::LoanNotFound)
    );
    assert_eq!(loan, before);
}

#[test]
fn update_loan_status_checks_the_caller_before_anything_else() {
    let pool = pool();
    let attestation = approval();
    let record = verified(&attestation);
    let mut loan = loan_in(LoanStatus::Pending);
    let before = loan;
    assert_eq!(
        update_loan_status(
            &mut loan,
            &pool,
            &Address::new([1u8; 32]),
            &[0u8; 32],
            LoanStatus::Liquidated,
            &attestation,
            &record,
            40
        ),
        Err(PrivateCreditError::UnauthorizedAccess)
    );
    assert_eq!(loan, before);
}

#[test]
fn a_statement_without_a_digest_backs_no_attested_move() {
    let pool = pool();
    let attestation = approval();
    let record = verified(&attestation);
    let mut loan = loan_in(LoanStatus::Pending);
    let before = loan;
    assert_eq!(
        update_loan_status_with_digest(
            &mut loan,
            &pool,
            &authority(),
            &LOAN_ID,
            LoanStatus::Approved,
            None,
            &record,
            40
        ),
        Err(PrivateCreditError::InvalidAttestation)
    );
    assert_eq!(loan, before);
    assert_eq!(
        update_loan_status_with_digest(
            &mut loan,
            &pool,
            &authority(),
            &LOAN_ID,
            LoanStatus::Approved,
            Some(record.attestation_hash),
            &record,
            40
        ),
        Ok(())
    );
    assert_eq!(loan.status, LoanStatus::Approved);
}
