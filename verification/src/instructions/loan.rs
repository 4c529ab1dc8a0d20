//! Creating loan commitments and moving them through their lifecycle.

use vstd::prelude::*;
use crate::address::{bytes32_eq, Address};
use crate::errors::PrivateCreditError;
use crate::instructions::attestation::{
    attestation_refusal, binding_digest, calculate_attestation_hash, check_attestation,
    digest_view,
};
use crate::state::attestation::{AttestationData, AttestationRecord};
use crate::state::loan::{LoanCommit, LoanCommitData, LoanStatus, MAX_TRANCHE};
use crate::state::pool::PoolAccount;

verus! {

/// The loan parameters that a pool accepts: an amount within the pool's
/// bounds, a duration within its cap, and a tranche index in range.
pub open spec fn loan_within_pool_limits(pool: PoolAccount, data: LoanCommitData) -> bool {
    &&& pool.config.min_loan_amount <= data.amount <= pool.config.max_loan_amount
    &&& data.duration <= pool.config.max_loan_duration
    &&& data.tranche <= MAX_TRANCHE
}

/// Why a loan commitment is refused, if it is.
pub open spec fn loan_commit_refusal(
    pool: PoolAccount,
    caller: Address,
    data: LoanCommitData,
) -> Option<PrivateCreditError> {
    if caller != pool.authority {
        Some(PrivateCreditError::UnauthorizedAccess)
    } else if !loan_within_pool_limits(pool, data) {
        Some(PrivateCreditError::InvalidLoanCommit)
    } else {
        None
    }
}

/// The record that a loan commitment starts with: the submitted parameters,
/// status `Pending`, and `now` as both of its timestamps.
pub open spec fn pending_loan(data: LoanCommitData, now: i64, bump: u8) -> LoanCommit {
    LoanCommit {
        loan_id: data.loan_id,
        borrower_pubkey: data.borrower_pubkey,
        lender_pubkey: data.lender_pubkey,
        commit_hash: data.commit_hash,
        status: LoanStatus::Pending,
        amount: data.amount,
        interest_rate_bps: data.interest_rate_bps,
        duration: data.duration,
        collateral_hash: data.collateral_hash,
        tranche: data.tranche,
        maturity: data.maturity,
        created_at: now,
        updated_at: now,
        bump,
    }
}

/// Creates the record of a loan commitment in the given pool.
///
/// The caller has to be the pool's authority (`UnauthorizedAccess`) and the
/// parameters have to lie within the pool's limits (`InvalidLoanCommit`).
/// The pool record is only read.
pub fn create_loan_commit(
    pool_account: &PoolAccount,
    caller: &Address,
    loan_commit_data: LoanCommitData,
    now: i64,
    bump: u8,
) -> (result: Result<LoanCommit, PrivateCreditError>)
    ensures
        match result {
            Ok(loan) => {
                &&& loan_commit_refusal(*pool_account, *caller, loan_commit_data) is None
                &&& loan == pending_loan(loan_commit_data, now, bump)
                &&& loan.wf()
            },
            Err(e) => loan_commit_refusal(*pool_account, *caller, loan_commit_data) == Some(e),
        },
{
    if !caller.equals(&pool_account.authority) {
        return Err(PrivateCreditError::UnauthorizedAccess);
    }
    if loan_commit_data.amount < pool_account.config.min_loan_amount {
        return Err(PrivateCreditError::InvalidLoanCommit);
    }
    if loan_commit_data.amount > pool_account.config.max_loan_amount {
        return Err(PrivateCreditError::InvalidLoanCommit);
    }
    if loan_commit_data.duration > pool_account.config.max_loan_duration {
        return Err(PrivateCreditError::InvalidLoanCommit);
    }
    if loan_commit_data.tranche > MAX_TRANCHE {
        return Err(PrivateCreditError::InvalidLoanCommit);
    }
    Ok(
        LoanCommit {
            loan_id: loan_commit_data.loan_id,
            borrower_pubkey: loan_commit_data.borrower_pubkey,
            lender_pubkey: loan_commit_data.lender_pubkey,
            commit_hash: loan_commit_data.commit_hash,
            status: LoanStatus::Pending,
            amount: loan_commit_data.amount,
            interest_rate_bps: loan_commit_data.interest_rate_bps,
            duration: loan_commit_data.duration,
            collateral_hash: loan_commit_data.collateral_hash,
            tranche: loan_commit_data.tranche,
            maturity: loan_commit_data.maturity,
            created_at: now,
            updated_at: now,
            bump,
        },
    )
}

/// Why a change of loan status is refused, if it is. The conditions are
/// tested in this order: the caller is the pool's authority; the loan
/// identifier is the stored one; the move is an edge of the lifecycle graph;
/// and, unless the loan is being cancelled, the statement behind the move has
/// a verified record under its binding digest.
pub open spec fn loan_status_refusal(
    loan: LoanCommit,
    pool: PoolAccount,
    caller: Address,
    loan_id: Seq<u8>,
    status: LoanStatus,
    digest: Option<Seq<u8>>,
    record: AttestationRecord,
) -> Option<PrivateCreditError> {
    if caller != pool.authority {
        Some(PrivateCreditError::UnauthorizedAccess)
    } else if loan.loan_id@ != loan_id {
        Some(PrivateCreditError::LoanNotFound)
    } else if !loan.status.can_move_to(status) {
        Some(PrivateCreditError::InvalidLoanStatusTransition)
    } else if !LoanStatus::entry_needs_attestation(status) {
        None
    } else {
        attestation_refusal(digest, record)
    }
}

/// Moves a loan to `status` on the strength of a statement whose binding
/// digest is already known (`None` where the statement has none).
///
/// On success the loan holds the new status and `now` as its time of
/// update, and nothing else has changed. On any refusal it is left as it
/// was.
pub fn update_loan_status_with_digest(
    loan_commit: &mut LoanCommit,
    pool_account: &PoolAccount,
    caller: &Address,
    loan_id: &[u8; 32],
    status: LoanStatus,
    attestation_digest: Option<[u8; 32]>,
    attestation_record: &AttestationRecord,
    now: i64,
) -> (result: Result<(), PrivateCreditError>)
    ensures
        match result {
            Ok(()) => {
                &&& loan_status_refusal(
                    *old(loan_commit),
                    *pool_account,
                    *caller,
                    loan_id@,
                    status,
                    digest_view(attestation_digest),
                    *attestation_record,
                ) is None
                &&& *final(loan_commit) == (LoanCommit {
                    status,
                    updated_at: now,
                    ..*old(loan_commit)
                })
            },
            Err(e) => {
                &&& loan_status_refusal(
                    *old(loan_commit),
                    *pool_account,
                    *caller,
                    loan_id@,
                    status,
                    digest_view(attestation_digest),
                    *attestation_record,
                ) == Some(e)
                &&& *final(loan_commit) == *old(loan_commit)
            },
        },
{
    if !caller.equals(&pool_account.authority) {
        return Err(PrivateCreditError::UnauthorizedAccess);
    }
    if !bytes32_eq(&loan_commit.loan_id, loan_id) {
        return Err(PrivateCreditError::LoanNotFound);
    }
    if !loan_commit.status.transition_allowed(status) {
        return Err(PrivateCreditError::InvalidLoanStatusTransition);
    }
    match status {
        LoanStatus::Cancelled => {},
        _ => {
            match check_attestation(attestation_digest, attestation_record) {
                Ok(()) => {},
                Err(e) => {
                    return Err(e);
                },
            }
        },
    }
    loan_commit.status = status;
    loan_commit.updated_at = now;
    Ok(())
}

/// Moves a loan to `status` on the strength of `attestation`, whose stored
/// record is `attestation_record`.
///
/// The outcome is that of `update_loan_status_with_digest` on the
/// statement's binding digest.
pub fn update_loan_status(
    loan_commit: &mut LoanCommit,
    pool_account: &PoolAccount,
    caller: &Address,
    loan_id: &[u8; 32],
    status: LoanStatus,
    attestation: &AttestationData,
    attestation_record: &AttestationRecord,
    now: i64,
) -> (result: Result<(), PrivateCreditError>)
    ensures
        match result {
            Ok(()) => {
                &&& loan_status_refusal(
                    *old(loan_commit),
                    *pool_account,
                    *caller,
                    loan_id@,
                    status,
                    binding_digest(*attestation),
                    *attestation_record,
                ) is None
                &&& *final(loan_commit) == (LoanCommit {
                    status,
                    updated_at: now,
                    ..*old(loan_commit)
                })
            },
            Err(e) => {
                &&& loan_status_refusal(
                    *old(loan_commit),
                    *pool_account,
                    *caller,
                    loan_id@,
                    status,
                    binding_digest(*attestation),
                    *attestation_record,
                ) == Some(e)
                &&& *final(loan_commit) == *old(loan_commit)
            },
        },
{
    let digest = match calculate_attestation_hash(attestation) {
        Ok(bytes) => Some(bytes),
        Err(_) => None,
    };
    update_loan_status_with_digest(
        loan_commit,
        pool_account,
        caller,
        loan_id,
        status,
        digest,
        attestation_record,
        now,
    )
}

/// A move that is not one of the six edges of the lifecycle graph is
/// refused as an invalid transition, whenever the pool's authority asks for
/// it on the stored loan identifier.
pub proof fn lemma_illegal_transition_refused(
    loan: LoanCommit,
    pool: PoolAccount,
    caller: Address,
    loan_id: Seq<u8>,
    status: LoanStatus,
    digest: Option<Seq<u8>>,
    record: AttestationRecord,
)
    requires
        caller == pool.authority,
        loan.loan_id@ == loan_id,
        !loan.status.can_move_to(status),
    ensures
        loan_status_refusal(loan, pool, caller, loan_id, status, digest, record) == Some(
            PrivateCreditError::InvalidLoanStatusTransition,
        ),
{
}

/// Whoever asks and whatever statement backs it, a move outside the
/// lifecycle graph is never accepted.
pub proof fn lemma_only_graph_edges_accepted(
    loan: LoanCommit,
    pool: PoolAccount,
    caller: Address,
    loan_id: Seq<u8>,
    status: LoanStatus,
    digest: Option<Seq<u8>>,
    record: AttestationRecord,
)
    requires
        loan_status_refusal(loan, pool, caller, loan_id, status, digest, record) is None,
    ensures
        loan.status.can_move_to(status),
        caller == pool.authority,
        loan.loan_id@ == loan_id,
        status != LoanStatus::Cancelled ==> digest == Some(record.attestation_hash@)
            && record.verified,
{
}

/// The terminal states are exactly the states that no edge leaves.
pub proof fn lemma_terminal_states_have_no_exit(status: LoanStatus)
    ensures
        status.is_terminal() <==> forall|next: LoanStatus| !status.can_move_to(next),
{
    if !status.is_terminal() {
        let next = match status {
            LoanStatus::Pending => LoanStatus::Approved,
            LoanStatus::Approved => LoanStatus::Active,
            LoanStatus::Active => LoanStatus::Repaid,
            _ => LoanStatus::Liquidated,
        };
        assert(status.can_move_to(next));
    }
}

} // verus!
