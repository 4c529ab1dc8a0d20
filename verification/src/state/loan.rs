//! Loan commitments and their lifecycle states.

use vstd::prelude::*;
use crate::address::Address;

verus! {

/// The highest tranche index a loan may name.
pub const MAX_TRANCHE: u8 = 3;

/// Where a loan stands in its lifecycle.
#[derive(Clone, Copy, Debug, PartialEq, Eq, Structural)]
pub enum LoanStatus {
    Pending,
    Approved,
    Active,
    Repaid,
    Defaulted,
    Liquidated,
    Cancelled,
}

impl LoanStatus {
    /// The lifecycle graph: the six edges along which a loan may move.
    pub open spec fn can_move_to(self, next: LoanStatus) -> bool {
        match (self, next) {
            (LoanStatus::Pending, LoanStatus::Approved) => true,
            (LoanStatus::Approved, LoanStatus::Active) => true,
            (LoanStatus::Active, LoanStatus::Repaid) => true,
            (LoanStatus::Active, LoanStatus::Defaulted) => true,
            (LoanStatus::Defaulted, LoanStatus::Liquidated) => true,
            (LoanStatus::Pending, LoanStatus::Cancelled) => true,
            _ => false,
        }
    }

    /// A terminal state has no way out: repaid, liquidated or cancelled.
    pub open spec fn is_terminal(self) -> bool {
        self == LoanStatus::Repaid || self == LoanStatus::Liquidated || self
            == LoanStatus::Cancelled
    }

    /// Whether moving into `next` rests on an attested fact. Cancelling a
    /// pending loan is the one move that the authority makes on its own.
    pub open spec fn entry_needs_attestation(next: LoanStatus) -> bool {
        next != LoanStatus::Cancelled
    }

    /// Decides `can_move_to`.
    pub fn transition_allowed(self, next: LoanStatus) -> (allowed: bool)
        ensures
            allowed == self.can_move_to(next),
    {
        match (self, next) {
            (LoanStatus::Pending, LoanStatus::Approved) => true,
            (LoanStatus::Approved, LoanStatus::Active) => true,
            (LoanStatus::Active, LoanStatus::Repaid) => true,
            (LoanStatus::Active, LoanStatus::Defaulted) => true,
            (LoanStatus::Defaulted, LoanStatus::Liquidated) => true,
            (LoanStatus::Pending, LoanStatus::Cancelled) => true,
            _ => false,
        }
    }

    /// Decides `is_terminal`.
    pub fn terminal(self) -> (terminal: bool)
        ensures
            terminal == self.is_terminal(),
    {
        match self {
            LoanStatus::Repaid | LoanStatus::Liquidated | LoanStatus::Cancelled => true,
            _ => false,
        }
    }
}

/// The parameters of a loan as its creator submits them.
#[derive(Clone, Copy, Debug, PartialEq, Eq)]
pub struct LoanCommitData {
    /// Identifier chosen by the caller, unique within the pool.
    pub loan_id: [u8; 32],
    pub borrower_pubkey: Address,
    pub lender_pubkey: Address,
    pub commit_hash: [u8; 32],
    pub amount: u64,
    pub interest_rate_bps: u16,
    pub duration: u64,
    pub collateral_hash: [u8; 32],
    pub tranche: u8,
    pub maturity: i64,
}

/// The record of one loan commitment.
#[derive(Clone, Copy, Debug, PartialEq, Eq)]
pub struct LoanCommit {
    pub loan_id: [u8; 32],
    pub borrower_pubkey: Address,
    pub lender_pubkey: Address,
    pub commit_hash: [u8; 32],
    pub status: LoanStatus,
    pub amount: u64,
    pub interest_rate_bps: u16,
    pub duration: u64,
    pub collateral_hash: [u8; 32],
    pub tranche: u8,
    pub maturity: i64,
    pub created_at: i64,
    pub updated_at: i64,
    pub bump: u8,
}

impl LoanCommit {
    /// Size of the stored record in bytes.
    pub const LEN: usize = 8 + 32 + 32 + 32 + 32 + 1 + 8 + 2 + 8 + 32 + 1 + 8 + 8 + 8 + 1;

    /// A loan commitment is well formed when its tranche index is in range.
    pub open spec fn wf(&self) -> bool {
        self.tranche <= MAX_TRANCHE
    }
}

/// The servicing record of a loan: balances and payment dates. Interest
/// accrual is not scheduled by this crate, so no operation writes it.
#[derive(Clone, Copy, Debug, PartialEq, Eq)]
pub struct LoanAccount {
    pub loan_id: [u8; 32],
    pub borrower_pubkey: Address,
    pub lender_pubkey: Address,
    pub amount: u64,
    pub outstanding_balance: u64,
    pub interest_accrued: u64,
    pub last_payment_at: i64,
    pub next_payment_due: i64,
    pub status: LoanStatus,
    pub covenant_breach: bool,
    pub created_at: i64,
    pub updated_at: i64,
    pub bump: u8,
}

impl LoanAccount {
    /// Size of the stored record in bytes.
    pub const LEN: usize = 8 + 32 + 32 + 32 + 8 + 8 + 8 + 8 + 8 + 1 + 1 + 8 + 8 + 1;
}

} // verus!
