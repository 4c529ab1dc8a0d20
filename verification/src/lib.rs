//! Record keeping and authorization for a private-credit lending pool.
//!
//! The crate holds the attestation-gated state machine of the pool: pool
//! configuration, loan commitments and their lifecycle, attested statements
//! and their threshold check, receipt-token accounting against the pool's
//! net asset value, and auditor disclosure grants. Every operation is a
//! synchronous transition over the records it is handed: it either commits
//! its whole effect or reports an error and leaves every record as it was.

pub mod address;
pub mod addressing;
pub mod encoding;
pub mod errors;
pub mod hashing;
pub mod instructions;
pub mod state;

pub use address::Address;
pub use errors::PrivateCreditError;
