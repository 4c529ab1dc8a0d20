//! The operations on the pool's records.

pub mod attestation;
pub mod audit;
pub mod loan;
pub mod pool;
pub mod receipt;

pub use attestation::{
    calculate_attestation_hash, calculate_payload_hash, check_attestation, submit_attestation,
    submit_attestation_with_digests, verify_attestation, verify_threshold_signature,
};
pub use audit::{
    calculate_permission_hash, grant_audit_access, grant_audit_access_with_digest,
    request_audit, request_audit_with_digest,
};
pub use loan::{create_loan_commit, update_loan_status, update_loan_status_with_digest};
pub use pool::{initialize_pool, update_pool_config};
pub use receipt::{
    burn_receipt_tokens, burn_receipt_tokens_with_digest, calculate_nav_per_token,
    calculate_redemption_value, mint_receipt_tokens, mint_receipt_tokens_with_digest,
};
