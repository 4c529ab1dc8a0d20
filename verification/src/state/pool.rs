//! The pool record and its configuration.

use vstd::prelude::*;
use crate::address::Address;

verus! {

/// Risk thresholds of a pool, each in basis points.
#[derive(Clone, Copy, Debug, PartialEq, Eq, Structural)]
pub struct CovenantThresholds {
    /// Largest loan-to-value ratio.
    pub max_ltv: u16,
    /// Smallest debt-service coverage ratio.
    pub min_dscr: u16,
    /// Largest pool utilization.
    pub max_utilization: u16,
    /// Smallest collateral ratio.
    pub min_collateral_ratio: u16,
}

/// The configuration of a pool.
#[derive(Clone, Copy, Debug, PartialEq, Eq, Structural)]
pub struct PoolConfig {
    pub max_loan_amount: u64,
    pub min_loan_amount: u64,
    pub max_loan_duration: u64,
    pub interest_rate_bps: u16,
    pub management_fee_bps: u16,
    pub performance_fee_bps: u16,
    pub reserve_ratio_bps: u16,
    pub insurance_ratio_bps: u16,
    pub max_borrower_concentration: u16,
    pub min_credit_score: u16,
    pub covenant_thresholds: CovenantThresholds,
    /// While set, the configuration cannot be updated and nothing is minted.
    pub emergency_pause: bool,
}

/// The largest interest rate a pool may set, in basis points.
pub const MAX_INTEREST_RATE_BPS: u16 = 10000;

impl PoolConfig {
    /// The invariant of a pool configuration: a positive upper loan bound,
    /// a lower bound that does not exceed it, and an interest rate of at
    /// most 100%.
    pub open spec fn is_valid(&self) -> bool {
        &&& self.max_loan_amount > 0
        &&& self.min_loan_amount <= self.max_loan_amount
        &&& self.interest_rate_bps <= MAX_INTEREST_RATE_BPS
    }

    /// Decides `is_valid`.
    pub fn validate(&self) -> (valid: bool)
        ensures
            valid == self.is_valid(),
    {
        self.max_loan_amount > 0 && self.min_loan_amount <= self.max_loan_amount
            && self.interest_rate_bps <= MAX_INTEREST_RATE_BPS
    }
}

/// The record of one pool: who owns and runs it, its aggregate counters and
/// its configuration.
#[derive(Clone, Copy, Debug, PartialEq, Eq)]
pub struct PoolAccount {
    pub owner: Address,
    /// The only address that may change the pool or act on its behalf.
    pub authority: Address,
    pub receipt_mint: Address,
    pub escrow_squad_address: Address,
    /// Commitment root of the pool's net asset value, an opaque digest.
    pub nav_commit_root: [u8; 32],
    pub reserved_funds: u64,
    pub total_deposits: u64,
    pub total_loans: u64,
    pub config: PoolConfig,
    pub created_at: i64,
    pub updated_at: i64,
    pub bump: u8,
}

impl PoolAccount {
    /// Size of the stored record in bytes.
    pub const LEN: usize = 8 + 32 + 32 + 32 + 32 + 32 + 8 + 8 + 8 + 200 + 8 + 8 + 1;

    /// A pool record is well formed when its configuration is valid.
    pub open spec fn wf(&self) -> bool {
        self.config.is_valid()
    }
}

} // verus!
