//! The records that the pool keeps.

pub mod attestation;
pub mod loan;
pub mod pool;
pub mod receipt;

pub use attestation::{
    AttestationData, AttestationPayload, AttestationRecord, AttestationType, AuditRequest,
    AuditRequestStatus, SignerMeta,
};
pub use loan::{LoanAccount, LoanCommit, LoanCommitData, LoanStatus};
pub use pool::{CovenantThresholds, PoolAccount, PoolConfig};
pub use receipt::{ReceiptBurnData, ReceiptMint, ReceiptMintData, ReceiptTokenAccount};
