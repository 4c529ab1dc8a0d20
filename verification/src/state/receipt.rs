//! Receipt-token records.

use vstd::prelude::*;
use crate::address::{zero_bytes32, Address};

verus! {

/// The record of a pool's receipt-token mint.
#[derive(Clone, Copy, Debug, PartialEq, Eq)]
pub struct ReceiptMint {
    pub mint: Address,
    pub pool_account: Address,
    pub total_supply: u64,
    pub nav_per_token: u64,
    pub last_nav_update: i64,
    pub transfer_gated: bool,
    pub kyc_required: bool,
    pub created_at: i64,
    pub bump: u8,
}

impl ReceiptMint {
    /// Size of the stored record in bytes.
    pub const LEN: usize = 8 + 32 + 32 + 8 + 8 + 8 + 1 + 1 + 8 + 1;
}

/// What one holder holds of one pool's receipt tokens.
#[derive(Clone, Copy, Debug, PartialEq, Eq)]
pub struct ReceiptTokenAccount {
    pub owner: Address,
    pub mint: Address,
    /// Units held. Grows only by a mint and shrinks only by a burn.
    pub amount: u64,
    /// Net asset value per token when the holding was opened.
    pub nav_at_mint: u64,
    pub minted_at: i64,
    pub last_claim_at: i64,
    /// Sum of the redemption values of all burns so far.
    pub total_claimed: u64,
    pub bump: u8,
}

impl ReceiptTokenAccount {
    /// Size of the stored record in bytes.
    pub const LEN: usize = 8 + 32 + 32 + 8 + 8 + 8 + 8 + 8 + 1;

    /// A holding that has never been minted into: every field is zero.
    pub open spec fn is_blank(&self) -> bool {
        &&& self.owner.bytes@ == zero_bytes32()
        &&& self.mint.bytes@ == zero_bytes32()
        &&& self.amount == 0
        &&& self.nav_at_mint == 0
        &&& self.minted_at == 0
        &&& self.last_claim_at == 0
        &&& self.total_claimed == 0
        &&& self.bump == 0
    }

    /// An all-zero record, as storage holds it before the first mint.
    pub fn blank() -> (account: ReceiptTokenAccount)
        ensures
            account.is_blank(),
    {
        let account = ReceiptTokenAccount {
            owner: Address { bytes: [0u8; 32] },
            mint: Address { bytes: [0u8; 32] },
            amount: 0,
            nav_at_mint: 0,
            minted_at: 0,
            last_claim_at: 0,
            total_claimed: 0,
            bump: 0,
        };
        assert(account.owner.bytes@ =~= zero_bytes32());
        assert(account.mint.bytes@ =~= zero_bytes32());
        account
    }
}

/// A request to mint receipt tokens, as a client frames it.
#[derive(Clone, Copy, Debug, PartialEq, Eq)]
pub struct ReceiptMintData {
    pub pool_id: [u8; 32],
    pub amount: u64,
    pub nav_per_token: u64,
    pub recipient: Address,
}

/// A request to burn receipt tokens, as a client frames it.
#[derive(Clone, Copy, Debug, PartialEq, Eq)]
pub struct ReceiptBurnData {
    pub pool_id: [u8; 32],
    pub amount: u64,
    pub nav_per_token: u64,
    pub owner: Address,
}

} // verus!
