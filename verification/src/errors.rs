//! The error kinds that the pool's operations report.

use vstd::prelude::*;

verus! {

/// Why an operation was refused.
///
/// Each refusal names one specific kind, so that a caller can tell an
/// illegal transition from a missing authorization or a shortfall.
#[derive(Clone, Copy, Debug, PartialEq, Eq, Structural)]
pub enum PrivateCreditError {
    /// The pool configuration breaks one of its invariants.
    InvalidPoolConfig,
    /// The pool record has not been initialized.
    PoolNotInitialized,
    /// The requested loan status is not reachable from the current one.
    InvalidLoanStatusTransition,
    /// A balance is too small, or an amount would leave the 64-bit range.
    InsufficientFunds,
    /// The attestation is malformed, of the wrong type, or bound to another hash.
    InvalidAttestation,
    /// The attestation's signers do not reach the declared threshold.
    AttestationVerificationFailed,
    /// The caller is not the address that the record names.
    UnauthorizedAccess,
    /// The loan identifier does not match the stored record.
    LoanNotFound,
    /// The loan parameters fall outside what the pool allows.
    InvalidLoanCommit,
    /// Receipt tokens could not be minted.
    ReceiptTokenMintFailed,
    /// Receipt tokens could not be burned.
    ReceiptTokenBurnFailed,
    /// The audit request is no longer pending.
    AuditRequestDenied,
    /// The auditor does not match the stored request.
    InvalidAuditor,
    /// The legal order backing an audit request is missing.
    LegalOrderVerificationFailed,
    /// The net asset value could not be computed.
    NavCalculationError,
    /// A covenant threshold was breached.
    CovenantBreachDetected,
    /// The tranche configuration is invalid.
    InvalidTrancheConfig,
    /// The reserve does not cover the request.
    ReserveInsufficient,
    /// The pool is paused.
    EmergencyPauseActive,
    /// A multisig signature is invalid.
    InvalidMultisigSignature,
    /// The oracle price is stale.
    OraclePriceStale,
    /// The slippage bound was exceeded.
    SlippageExceeded,
}

} // verus!
