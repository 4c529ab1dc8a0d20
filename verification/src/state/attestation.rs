//! Attested statements, their stored records, and audit requests.

use vstd::prelude::*;
use crate::address::Address;

verus! {

/// The weight a signer gets when an attestation is submitted.
pub const DEFAULT_SIGNER_WEIGHT: u8 = 1;

/// One signer of an attestation.
#[derive(Clone, Copy, Debug, PartialEq, Eq)]
pub struct SignerMeta {
    pub pubkey: Address,
    pub signature: [u8; 64],
    /// How much this signer counts towards the threshold.
    pub weight: u8,
}

/// What an attestation states.
#[derive(Clone, Copy, Debug, PartialEq, Eq, Structural)]
pub enum AttestationType {
    NavUpdate,
    LoanApproval,
    LoanDisbursement,
    LoanRepayment,
    CovenantBreach,
    Liquidation,
    AuditGrant,
    EmergencyPause,
}

/// The statement itself, one variant per attestation type.
#[derive(Clone, Debug, PartialEq, Eq)]
pub enum AttestationPayload {
    NavUpdate { pool_id: [u8; 32], new_nav: u64, epoch: u64 },
    LoanApproval { loan_id: [u8; 32], borrower_pubkey: Address, amount: u64 },
    LoanDisbursement { loan_id: [u8; 32], amount: u64, beneficiary: Address },
    LoanRepayment { loan_id: [u8; 32], amount: u64, remaining_balance: u64 },
    CovenantBreach { loan_id: [u8; 32], breach_type: String, severity: u8 },
    Liquidation { loan_id: [u8; 32], collateral_amount: u64, recovery_amount: u64 },
    AuditGrant { loan_id: [u8; 32], auditor_pubkey: Address, access_level: u8 },
    EmergencyPause { reason: String, duration: u64 },
}

/// What a payload states, as plain values: identifiers and addresses as
/// their bytes, text as its characters.
pub enum AttestationPayloadView {
    NavUpdate { pool_id: Seq<u8>, new_nav: u64, epoch: u64 },
    LoanApproval { loan_id: Seq<u8>, borrower_pubkey: Seq<u8>, amount: u64 },
    LoanDisbursement { loan_id: Seq<u8>, amount: u64, beneficiary: Seq<u8> },
    LoanRepayment { loan_id: Seq<u8>, amount: u64, remaining_balance: u64 },
    CovenantBreach { loan_id: Seq<u8>, breach_type: Seq<char>, severity: u8 },
    Liquidation { loan_id: Seq<u8>, collateral_amount: u64, recovery_amount: u64 },
    AuditGrant { loan_id: Seq<u8>, auditor_pubkey: Seq<u8>, access_level: u8 },
    EmergencyPause { reason: Seq<char>, duration: u64 },
}

impl View for AttestationPayload {
    type V = AttestationPayloadView;

    open spec fn view(&self) -> AttestationPayloadView {
        match self {
            AttestationPayload::NavUpdate { pool_id, new_nav, epoch } => {
                AttestationPayloadView::NavUpdate {
                    pool_id: pool_id@,
                    new_nav: *new_nav,
                    epoch: *epoch,
                }
            },
            AttestationPayload::LoanApproval { loan_id, borrower_pubkey, amount } => {
                AttestationPayloadView::LoanApproval {
                    loan_id: loan_id@,
                    borrower_pubkey: borrower_pubkey.bytes@,
                    amount: *amount,
                }
            },
            AttestationPayload::LoanDisbursement { loan_id, amount, beneficiary } => {
                AttestationPayloadView::LoanDisbursement {
                    loan_id: loan_id@,
                    amount: *amount,
                    beneficiary: beneficiary.bytes@,
                }
            },
            AttestationPayload::LoanRepayment { loan_id, amount, remaining_balance } => {
                AttestationPayloadView::LoanRepayment {
                    loan_id: loan_id@,
                    amount: *amount,
                    remaining_balance: *remaining_balance,
                }
            },
            AttestationPayload::CovenantBreach { loan_id, breach_type, severity } => {
                AttestationPayloadView::CovenantBreach {
                    loan_id: loan_id@,
                    breach_type: breach_type@,
                    severity: *severity,
                }
            },
            AttestationPayload::Liquidation { loan_id, collateral_amount, recovery_amount } => {
                AttestationPayloadView::Liquidation {
                    loan_id: loan_id@,
                    collateral_amount: *collateral_amount,
                    recovery_amount: *recovery_amount,
                }
            },
            AttestationPayload::AuditGrant { loan_id, auditor_pubkey, access_level } => {
                AttestationPayloadView::AuditGrant {
                    loan_id: loan_id@,
                    auditor_pubkey: auditor_pubkey.bytes@,
                    access_level: *access_level,
                }
            },
            AttestationPayload::EmergencyPause { reason, duration } => {
                AttestationPayloadView::EmergencyPause { reason: reason@, duration: *duration }
            },
        }
    }
}

impl AttestationPayload {
    /// The attestation type that this payload belongs to.
    pub open spec fn kind(&self) -> AttestationType {
        match self {
            AttestationPayload::NavUpdate { .. } => AttestationType::NavUpdate,
            AttestationPayload::LoanApproval { .. } => AttestationType::LoanApproval,
            AttestationPayload::LoanDisbursement { .. } => AttestationType::LoanDisbursement,
            AttestationPayload::LoanRepayment { .. } => AttestationType::LoanRepayment,
            AttestationPayload::CovenantBreach { .. } => AttestationType::CovenantBreach,
            AttestationPayload::Liquidation { .. } => AttestationType::Liquidation,
            AttestationPayload::AuditGrant { .. } => AttestationType::AuditGrant,
            AttestationPayload::EmergencyPause { .. } => AttestationType::EmergencyPause,
        }
    }

    /// Computes `kind`.
    pub fn attestation_type(&self) -> (kind: AttestationType)
        ensures
            kind == self.kind(),
    {
        match self {
            AttestationPayload::NavUpdate { .. } => AttestationType::NavUpdate,
            AttestationPayload::LoanApproval { .. } => AttestationType::LoanApproval,
            AttestationPayload::LoanDisbursement { .. } => AttestationType::LoanDisbursement,
            AttestationPayload::LoanRepayment { .. } => AttestationType::LoanRepayment,
            AttestationPayload::CovenantBreach { .. } => AttestationType::CovenantBreach,
            AttestationPayload::Liquidation { .. } => AttestationType::Liquidation,
            AttestationPayload::AuditGrant { .. } => AttestationType::AuditGrant,
            AttestationPayload::EmergencyPause { .. } => AttestationType::EmergencyPause,
        }
    }
}

/// An attested statement as a caller hands it in. It is not stored as it
/// is: submitting it creates an `AttestationRecord`.
#[derive(Clone, Debug, PartialEq, Eq)]
pub struct AttestationData {
    pub attestation_type: AttestationType,
    pub payload: AttestationPayload,
    pub signatures: Vec<[u8; 64]>,
    pub signer_pubkeys: Vec<Address>,
    /// The summed signer weight that the statement needs to be trusted.
    pub threshold: u8,
    pub nonce: u64,
    pub timestamp: i64,
}

impl AttestationData {
    /// The declared type and the payload's variant agree.
    pub open spec fn wf(&self) -> bool {
        self.attestation_type == self.payload.kind()
    }

    /// The statement is well formed and of the given type.
    pub open spec fn attests(&self, kind: AttestationType) -> bool {
        self.attestation_type == kind && self.payload.kind() == kind
    }

    /// Builds a statement whose declared type is that of its payload.
    pub fn new(
        payload: AttestationPayload,
        signatures: Vec<[u8; 64]>,
        signer_pubkeys: Vec<Address>,
        threshold: u8,
        nonce: u64,
        timestamp: i64,
    ) -> (attestation: AttestationData)
        ensures
            attestation.wf(),
            attestation.payload == payload,
            attestation.signatures == signatures,
            attestation.signer_pubkeys == signer_pubkeys,
            attestation.threshold == threshold,
            attestation.nonce == nonce,
            attestation.timestamp == timestamp,
    {
        let attestation_type = payload.attestation_type();
        AttestationData {
            attestation_type,
            payload,
            signatures,
            signer_pubkeys,
            threshold,
            nonce,
            timestamp,
        }
    }

    /// Decides `attests`.
    pub fn is_of_type(&self, kind: AttestationType) -> (matches: bool)
        ensures
            matches == self.attests(kind),
    {
        self.attestation_type == kind && self.payload.attestation_type() == kind
    }
}

/// The stored record of a submitted attestation, found by its hash.
#[derive(Clone, Debug, PartialEq, Eq)]
pub struct AttestationRecord {
    /// The binding hash of the statement: the record's identity.
    pub attestation_hash: [u8; 32],
    pub signer_meta: Vec<SignerMeta>,
    pub payload_hash: [u8; 32],
    /// When the statement was submitted.
    pub timestamp: i64,
    /// Set once the threshold check has passed.
    pub verified: bool,
    pub bump: u8,
}

impl AttestationRecord {
    /// Size of the stored record in bytes.
    pub const LEN: usize = 8 + 32 + 4 + 200 + 32 + 8 + 1 + 1;
}

/// Where an audit request stands.
#[derive(Clone, Copy, Debug, PartialEq, Eq, Structural)]
pub enum AuditRequestStatus {
    Pending,
    Approved,
    Denied,
    Expired,
}

/// A request to disclose one loan's data to one auditor.
#[derive(Clone, Copy, Debug, PartialEq, Eq)]
pub struct AuditRequest {
    pub requester: Address,
    pub loan_id: [u8; 32],
    pub auditor_pubkey: Address,
    /// Digest that binds the loan identifier to the auditor's address.
    pub permission_hash: [u8; 32],
    /// Digest of the legal order behind the request; never all zero.
    pub legal_order_hash: [u8; 32],
    pub status: AuditRequestStatus,
    pub created_at: i64,
    pub granted_at: Option<i64>,
    pub bump: u8,
}

impl AuditRequest {
    /// Size of the stored record in bytes.
    pub const LEN: usize = 8 + 32 + 32 + 32 + 32 + 32 + 1 + 8 + 9 + 1;
}

} // verus!
