//! Receipt-token accounting against the pool's net asset value.
//!
//! The net asset value per token is a fixed-point number with six decimal
//! places. It is derived from the pool's aggregates; a mint records it in a
//! fresh holding, and a burn prices the redemption against it. Moving the
//! settlement currency is not done here: a burn computes and records what
//! the holder is entitled to, and returns it.

use vstd::prelude::*;
use crate::address::Address;
use crate::errors::PrivateCreditError;
use crate::instructions::attestation::{
    attestation_refusal, binding_digest, calculate_attestation_hash, check_attestation,
    digest_view,
};
use crate::state::attestation::{AttestationData, AttestationRecord, AttestationType};
use crate::state::pool::PoolAccount;
use crate::state::receipt::ReceiptTokenAccount;

verus! {

/// One whole unit of net asset value: 1.0 with six decimal places.
pub const NAV_UNIT: u64 = 1_000_000;

/// The net asset value per token of a pool with the given aggregates: one
/// unit while nothing is deposited, else deposits plus reserve, per
/// deposit, rounded down.
pub open spec fn nav_per_token(total_deposits: u64, reserved_funds: u64) -> int {
    if total_deposits == 0 {
        NAV_UNIT as int
    } else {
        ((total_deposits as int + reserved_funds as int) * (NAV_UNIT as int)) / (
        total_deposits as int)
    }
}

/// How far the current net asset value lies above the one at mint; zero
/// where it does not.
pub open spec fn nav_appreciation(nav_at_mint: u64, current_nav: u64) -> int {
    if current_nav > nav_at_mint {
        current_nav - nav_at_mint
    } else {
        0
    }
}

/// What `amount` tokens were worth at mint.
pub open spec fn base_value(amount: u64, nav_at_mint: u64) -> int {
    (amount as int * nav_at_mint as int) / (NAV_UNIT as int)
}

/// What `amount` tokens have gained since mint.
pub open spec fn appreciation_value(amount: u64, nav_at_mint: u64, current_nav: u64) -> int {
    (amount as int * nav_appreciation(nav_at_mint, current_nav)) / (NAV_UNIT as int)
}

/// The redemption value of `amount` tokens: their value at mint plus their
/// gain since, each rounded down.
pub open spec fn redemption_value(amount: u64, nav_at_mint: u64, current_nav: u64) -> int {
    base_value(amount, nav_at_mint) + appreciation_value(amount, nav_at_mint, current_nav)
}

/// Computes the pool's net asset value per token. Fails with
/// `InsufficientFunds` exactly when the value does not fit in 64 bits.
pub fn calculate_nav_per_token(pool_account: &PoolAccount) -> (result: Result<
    u64,
    PrivateCreditError,
>)
    ensures
        match result {
            Ok(nav) => nav == nav_per_token(
                pool_account.total_deposits,
                pool_account.reserved_funds,
            ),
            Err(e) => nav_per_token(pool_account.total_deposits, pool_account.reserved_funds)
                > u64::MAX && e == PrivateCreditError::InsufficientFunds,
        },
{
    if pool_account.total_deposits == 0 {
        return Ok(NAV_UNIT);
    }
    let total_value: u128 = pool_account.total_deposits as u128
        + pool_account.reserved_funds as u128;
    assert(total_value * (NAV_UNIT as u128) == total_value * 1_000_000);
    let scaled: u128 = total_value * (NAV_UNIT as u128);
    let nav: u128 = scaled / (pool_account.total_deposits as u128);
    if nav > u64::MAX as u128 {
        Err(PrivateCreditError::InsufficientFunds)
    } else {
        Ok(nav as u64)
    }
}

/// Computes the redemption value of `token_amount` tokens. Fails with
/// `InsufficientFunds` exactly when the value does not fit in 64 bits.
pub fn calculate_redemption_value(token_amount: u64, nav_at_mint: u64, current_nav: u64) -> (result:
    Result<u64, PrivateCreditError>)
    ensures
        match result {
            Ok(value) => value == redemption_value(token_amount, nav_at_mint, current_nav),
            Err(e) => redemption_value(token_amount, nav_at_mint, current_nav) > u64::MAX && e
                == PrivateCreditError::InsufficientFunds,
        },
{
    let appreciation: u64 = if current_nav > nav_at_mint {
        current_nav - nav_at_mint
    } else {
        0
    };
    assert(token_amount as u128 * nav_at_mint as u128 <= 0xffff_ffff_ffff_fffe_0000_0000_0000_0001) by (nonlinear_arith)
        requires
            token_amount <= 0xffff_ffff_ffff_ffff,
            nav_at_mint <= 0xffff_ffff_ffff_ffff,
    ;
    assert(token_amount as u128 * appreciation as u128 <= 0xffff_ffff_ffff_fffe_0000_0000_0000_0001) by (nonlinear_arith)
        requires
            token_amount <= 0xffff_ffff_ffff_ffff,
            appreciation <= 0xffff_ffff_ffff_ffff,
    ;
    let base_product: u128 = token_amount as u128 * nav_at_mint as u128;
    let gain_product: u128 = token_amount as u128 * appreciation as u128;
    assert(base_product / (NAV_UNIT as u128) == base_product / 1_000_000);
    assert(gain_product / (NAV_UNIT as u128) == gain_product / 1_000_000);
    let base: u128 = base_product / (NAV_UNIT as u128);
    let gain: u128 = gain_product / (NAV_UNIT as u128);
    let value: u128 = base + gain;
    if value > u64::MAX as u128 {
        Err(PrivateCreditError::InsufficientFunds)
    } else {
        Ok(value as u64)
    }
}

/// Why a mint is refused, if it is. The conditions are tested in this order:
/// the caller is the pool's authority; the statement is a net-asset-value
/// update; it has a verified record under its binding digest; the pool is not
/// paused; and neither the pool's deposits, nor the net asset value that a
/// fresh holding records, nor the holding's balance leaves the 64-bit range.
pub open spec fn mint_refusal(
    pool: PoolAccount,
    receipt: ReceiptTokenAccount,
    caller: Address,
    amount: u64,
    attestation: AttestationData,
    digest: Option<Seq<u8>>,
    record: AttestationRecord,
) -> Option<PrivateCreditError> {
    if caller != pool.authority {
        Some(PrivateCreditError::UnauthorizedAccess)
    } else if !attestation.attests(AttestationType::NavUpdate) {
        Some(PrivateCreditError::InvalidAttestation)
    } else if attestation_refusal(digest, record) is Some {
        attestation_refusal(digest, record)
    } else if pool.config.emergency_pause {
        Some(PrivateCreditError::EmergencyPauseActive)
    } else if pool.total_deposits + amount > u64::MAX {
        Some(PrivateCreditError::InsufficientFunds)
    } else if receipt.amount == 0 && nav_per_token(pool.total_deposits, pool.reserved_funds)
        > u64::MAX {
        Some(PrivateCreditError::InsufficientFunds)
    } else if receipt.amount + amount > u64::MAX {
        Some(PrivateCreditError::InsufficientFunds)
    } else {
        None
    }
}

/// The pool after a mint: its deposits have grown by `amount`.
pub open spec fn pool_after_mint(pool: PoolAccount, amount: u64) -> PoolAccount {
    PoolAccount { total_deposits: (pool.total_deposits + amount) as u64, ..pool }
}

/// The holding after a mint. A fresh holding (one with no units) is opened
/// for the recipient at the pool's net asset value before the mint; any
/// other holding only grows by `amount`.
pub open spec fn receipt_after_mint(
    pool: PoolAccount,
    receipt: ReceiptTokenAccount,
    recipient: Address,
    receipt_mint: Address,
    amount: u64,
    now: i64,
    bump: u8,
) -> ReceiptTokenAccount {
    if receipt.amount == 0 {
        ReceiptTokenAccount {
            owner: recipient,
            mint: receipt_mint,
            amount,
            nav_at_mint: nav_per_token(pool.total_deposits, pool.reserved_funds) as u64,
            minted_at: now,
            last_claim_at: now,
            total_claimed: 0,
            bump,
        }
    } else {
        ReceiptTokenAccount { amount: (receipt.amount + amount) as u64, ..receipt }
    }
}

/// Mints `amount` receipt tokens to a holding, on the strength of a
/// statement whose binding digest is already known (`None` where the
/// statement has none).
///
/// On success the pool and the holding are as `pool_after_mint` and
/// `receipt_after_mint` say. On any refusal both are left as they were.
pub fn mint_receipt_tokens_with_digest(
    pool_account: &mut PoolAccount,
    receipt_token_account: &mut ReceiptTokenAccount,
    caller: &Address,
    recipient: &Address,
    receipt_mint: &Address,
    amount: u64,
    attestation: &AttestationData,
    attestation_digest: Option<[u8; 32]>,
    attestation_record: &AttestationRecord,
    now: i64,
    bump: u8,
) -> (result: Result<(), PrivateCreditError>)
    ensures
        match result {
            Ok(()) => {
                &&& mint_refusal(
                    *old(pool_account),
                    *old(receipt_token_account),
                    *caller,
                    amount,
                    *attestation,
                    digest_view(attestation_digest),
                    *attestation_record,
                ) is None
                &&& *final(pool_account) == pool_after_mint(*old(pool_account), amount)
                &&& *final(receipt_token_account) == receipt_after_mint(
                    *old(pool_account),
                    *old(receipt_token_account),
                    *recipient,
                    *receipt_mint,
                    amount,
                    now,
                    bump,
                )
            },
            Err(e) => {
                &&& mint_refusal(
                    *old(pool_account),
                    *old(receipt_token_account),
                    *caller,
                    amount,
                    *attestation,
                    digest_view(attestation_digest),
                    *attestation_record,
                ) == Some(e)
                &&& *final(pool_account) == *old(pool_account)
                &&& *final(receipt_token_account) == *old(receipt_token_account)
            },
        },
{
    if !caller.equals(&pool_account.authority) {
        return Err(PrivateCreditError::UnauthorizedAccess);
    }
    if !attestation.is_of_type(AttestationType::NavUpdate) {
        return Err(PrivateCreditError::InvalidAttestation);
    }
    match check_attestation(attestation_digest, attestation_record) {
        Ok(()) => {},
        Err(e) => {
            return Err(e);
        },
    }
    if pool_account.config.emergency_pause {
        return Err(PrivateCreditError::EmergencyPauseActive);
    }
    let total_deposits = match pool_account.total_deposits.checked_add(amount) {
        Some(total) => total,
        None => {
            return Err(PrivateCreditError::InsufficientFunds);
        },
    };
    if receipt_token_account.amount == 0 {
        let nav = match calculate_nav_per_token(pool_account) {
            Ok(nav) => nav,
            Err(e) => {
                return Err(e);
            },
        };
        pool_account.total_deposits = total_deposits;
        receipt_token_account.owner = *recipient;
        receipt_token_account.mint = *receipt_mint;
        receipt_token_account.nav_at_mint = nav;
        receipt_token_account.minted_at = now;
        receipt_token_account.last_claim_at = now;
        receipt_token_account.total_claimed = 0;
        receipt_token_account.bump = bump;
        receipt_token_account.amount = amount;
    } else {
        let held = match receipt_token_account.amount.checked_add(amount) {
            Some(held) => held,
            None => {
                return Err(PrivateCreditError::InsufficientFunds);
            },
        };
        pool_account.total_deposits = total_deposits;
        receipt_token_account.amount = held;
    }
    Ok(())
}

/// Mints `amount` receipt tokens to a holding, on the strength of
/// `attestation`, whose stored record is `attestation_record`.
///
/// The outcome is that of `mint_receipt_tokens_with_digest` on the
/// statement's binding digest.
pub fn mint_receipt_tokens(
    pool_account: &mut PoolAccount,
    receipt_token_account: &mut ReceiptTokenAccount,
    caller: &Address,
    recipient: &Address,
    receipt_mint: &Address,
    amount: u64,
    attestation: &AttestationData,
    attestation_record: &AttestationRecord,
    now: i64,
    bump: u8,
) -> (result: Result<(), PrivateCreditError>)
    ensures
        match result {
            Ok(()) => {
                &&& mint_refusal(
                    *old(pool_account),
                    *old(receipt_token_account),
                    *caller,
                    amount,
                    *attestation,
                    binding_digest(*attestation),
                    *attestation_record,
                ) is None
                &&& *final(pool_account) == pool_after_mint(*old(pool_account), amount)
                &&& *final(receipt_token_account) == receipt_after_mint(
                    *old(pool_account),
                    *old(receipt_token_account),
                    *recipient,
                    *receipt_mint,
                    amount,
                    now,
                    bump,
                )
            },
            Err(e) => {
                &&& mint_refusal(
                    *old(pool_account),
                    *old(receipt_token_account),
                    *caller,
                    amount,
                    *attestation,
                    binding_digest(*attestation),
                    *attestation_record,
                ) == Some(e)
                &&& *final(pool_account) == *old(pool_account)
                &&& *final(receipt_token_account) == *old(receipt_token_account)
            },
        },
{
    let digest = match calculate_attestation_hash(attestation) {
        Ok(bytes) => Some(bytes),
        Err(_) => None,
    };
    mint_receipt_tokens_with_digest(
        pool_account,
        receipt_token_account,
        caller,
        recipient,
        receipt_mint,
        amount,
        attestation,
        digest,
        attestation_record,
        now,
        bump,
    )
}

/// What a burn pays out: the redemption value of `amount` tokens of the
/// holding at the pool's current net asset value.
pub open spec fn burn_value(pool: PoolAccount, receipt: ReceiptTokenAccount, amount: u64) -> int {
    redemption_value(
        amount,
        receipt.nav_at_mint,
        nav_per_token(pool.total_deposits, pool.reserved_funds) as u64,
    )
}

/// Why a burn is refused, if it is. The conditions are tested in this order:
/// the caller is the pool's authority; the holder is the holding's owner; the
/// statement is a net-asset-value update; it has a verified record under its
/// binding digest; the holding covers `amount`; and neither the current net
/// asset value, nor the redemption value, nor the pool's deposits, nor the
/// holding's cumulative claims leave the 64-bit range.
pub open spec fn burn_refusal(
    pool: PoolAccount,
    receipt: ReceiptTokenAccount,
    caller: Address,
    holder: Address,
    amount: u64,
    attestation: AttestationData,
    digest: Option<Seq<u8>>,
    record: AttestationRecord,
) -> Option<PrivateCreditError> {
    if caller != pool.authority {
        Some(PrivateCreditError::UnauthorizedAccess)
    } else if holder != receipt.owner {
        Some(PrivateCreditError::UnauthorizedAccess)
    } else if !attestation.attests(AttestationType::NavUpdate) {
        Some(PrivateCreditError::InvalidAttestation)
    } else if attestation_refusal(digest, record) is Some {
        attestation_refusal(digest, record)
    } else if receipt.amount < amount {
        Some(PrivateCreditError::InsufficientFunds)
    } else if nav_per_token(pool.total_deposits, pool.reserved_funds) > u64::MAX {
        Some(PrivateCreditError::InsufficientFunds)
    } else if burn_value(pool, receipt, amount) > u64::MAX {
        Some(PrivateCreditError::InsufficientFunds)
    } else if pool.total_deposits < amount {
        Some(PrivateCreditError::InsufficientFunds)
    } else if receipt.total_claimed + burn_value(pool, receipt, amount) > u64::MAX {
        Some(PrivateCreditError::InsufficientFunds)
    } else {
        None
    }
}

/// The pool after a burn: its deposits have shrunk by `amount`.
pub open spec fn pool_after_burn(pool: PoolAccount, amount: u64) -> PoolAccount {
    PoolAccount { total_deposits: (pool.total_deposits - amount) as u64, ..pool }
}

/// The holding after a burn: `amount` units fewer, and the redemption value
/// added to its cumulative claims.
pub open spec fn receipt_after_burn(
    pool: PoolAccount,
    receipt: ReceiptTokenAccount,
    amount: u64,
) -> ReceiptTokenAccount {
    ReceiptTokenAccount {
        amount: (receipt.amount - amount) as u64,
        total_claimed: (receipt.total_claimed + burn_value(pool, receipt, amount)) as u64,
        ..receipt
    }
}

/// Burns `amount` receipt tokens of a holding, on the strength of a
/// statement whose binding digest is already known (`None` where the
/// statement has none), and returns the redemption value.
///
/// On success the pool and the holding are as `pool_after_burn` and
/// `receipt_after_burn` say. On any refusal both are left as they were.
pub fn burn_receipt_tokens_with_digest(
    pool_account: &mut PoolAccount,
    receipt_token_account: &mut ReceiptTokenAccount,
    caller: &Address,
    holder: &Address,
    amount: u64,
    attestation: &AttestationData,
    attestation_digest: Option<[u8; 32]>,
    attestation_record: &AttestationRecord,
) -> (result: Result<u64, PrivateCreditError>)
    ensures
        match result {
            Ok(value) => {
                &&& burn_refusal(
                    *old(pool_account),
                    *old(receipt_token_account),
                    *caller,
                    *holder,
                    amount,
                    *attestation,
                    digest_view(attestation_digest),
                    *attestation_record,
                ) is None
                &&& value == burn_value(*old(pool_account), *old(receipt_token_account), amount)
                &&& *final(pool_account) == pool_after_burn(*old(pool_account), amount)
                &&& *final(receipt_token_account) == receipt_after_burn(
                    *old(pool_account),
                    *old(receipt_token_account),
                    amount,
                )
            },
            Err(e) => {
                &&& burn_refusal(
                    *old(pool_account),
                    *old(receipt_token_account),
                    *caller,
                    *holder,
                    amount,
                    *attestation,
                    digest_view(attestation_digest),
                    *attestation_record,
                ) == Some(e)
                &&& *final(pool_account) == *old(pool_account)
                &&& *final(receipt_token_account) == *old(receipt_token_account)
            },
        },
{
    if !caller.equals(&pool_account.authority) {
        return Err(PrivateCreditError::UnauthorizedAccess);
    }
    if !holder.equals(&receipt_token_account.owner) {
        return Err(PrivateCreditError::UnauthorizedAccess);
    }
    if !attestation.is_of_type(AttestationType::NavUpdate) {
        return Err(PrivateCreditError::InvalidAttestation);
    }
    match check_attestation(attestation_digest, attestation_record) {
        Ok(()) => {},
        Err(e) => {
            return Err(e);
        },
    }
    if receipt_token_account.amount < amount {
        return Err(PrivateCreditError::InsufficientFunds);
    }
    let current_nav = match calculate_nav_per_token(pool_account) {
        Ok(nav) => nav,
        Err(e) => {
            return Err(e);
        },
    };
    let value = match calculate_redemption_value(
        amount,
        receipt_token_account.nav_at_mint,
        current_nav,
    ) {
        Ok(value) => value,
        Err(e) => {
            return Err(e);
        },
    };
    let total_deposits = match pool_account.total_deposits.checked_sub(amount) {
        Some(total) => total,
        None => {
            return Err(PrivateCreditError::InsufficientFunds);
        },
    };
    let total_claimed = match receipt_token_account.total_claimed.checked_add(value) {
        Some(total) => total,
        None => {
            return Err(PrivateCreditError::InsufficientFunds);
        },
    };
    pool_account.total_deposits = total_deposits;
    receipt_token_account.amount = receipt_token_account.amount - amount;
    receipt_token_account.total_claimed = total_claimed;
    Ok(value)
}

/// Burns `amount` receipt tokens of a holding, on the strength of
/// `attestation`, whose stored record is `attestation_record`, and returns
/// the redemption value.
///
/// The outcome is that of `burn_receipt_tokens_with_digest` on the
/// statement's binding digest.
pub fn burn_receipt_tokens(
    pool_account: &mut PoolAccount,
    receipt_token_account: &mut ReceiptTokenAccount,
    caller: &Address,
    holder: &Address,
    amount: u64,
    attestation: &AttestationData,
    attestation_record: &AttestationRecord,
) -> (result: Result<u64, PrivateCreditError>)
    ensures
        match result {
            Ok(value) => {
                &&& burn_refusal(
                    *old(pool_account),
                    *old(receipt_token_account),
                    *caller,
                    *holder,
                    amount,
                    *attestation,
                    binding_digest(*attestation),
                    *attestation_record,
                ) is None
                &&& value == burn_value(*old(pool_account), *old(receipt_token_account), amount)
                &&& *final(pool_account) == pool_after_burn(*old(pool_account), amount)
                &&& *final(receipt_token_account) == receipt_after_burn(
                    *old(pool_account),
                    *old(receipt_token_account),
                    amount,
                )
            },
            Err(e) => {
                &&& burn_refusal(
                    *old(pool_account),
                    *old(receipt_token_account),
                    *caller,
                    *holder,
                    amount,
                    *attestation,
                    binding_digest(*attestation),
                    *attestation_record,
                ) == Some(e)
                &&& *final(pool_account) == *old(pool_account)
                &&& *final(receipt_token_account) == *old(receipt_token_account)
            },
        },
{
    let digest = match calculate_attestation_hash(attestation) {
        Ok(bytes) => Some(bytes),
        Err(_) => None,
    };
    burn_receipt_tokens_with_digest(
        pool_account,
        receipt_token_account,
        caller,
        holder,
        amount,
        attestation,
        digest,
        attestation_record,
    )
}

/// The redemption value never falls when the current net asset value
/// rises, and a holding whose net asset value has not moved redeems at
/// exactly its value at mint.
pub proof fn lemma_redemption_monotonic(
    amount: u64,
    nav_at_mint: u64,
    current_nav: u64,
    higher_nav: u64,
)
    requires
        current_nav <= higher_nav,
    ensures
        redemption_value(amount, nav_at_mint, current_nav) <= redemption_value(
            amount,
            nav_at_mint,
            higher_nav,
        ),
        base_value(amount, nav_at_mint) <= redemption_value(amount, nav_at_mint, current_nav),
        redemption_value(amount, nav_at_mint, nav_at_mint) == (amount as int * nav_at_mint as int)
            / 1_000_000,
{
    let low = nav_appreciation(nav_at_mint, current_nav);
    let high = nav_appreciation(nav_at_mint, higher_nav);
    assert(0 <= low <= high);
    assert(0 <= amount as int * low <= amount as int * high) by (nonlinear_arith)
        requires
            0 <= low <= high,
            0 <= amount as int,
    ;
    assert(amount as int * nav_appreciation(nav_at_mint, nav_at_mint) == 0) by (nonlinear_arith)
        requires
            nav_appreciation(nav_at_mint, nav_at_mint) == 0,
    ;
}

/// Minting `amount` units and burning `amount` units straight after
/// returns the pool to its state before the mint, its deposits included,
/// and the holding to its balance before the mint.
pub proof fn lemma_mint_then_burn_restores_deposits(
    pool: PoolAccount,
    receipt: ReceiptTokenAccount,
    caller: Address,
    recipient: Address,
    receipt_mint: Address,
    amount: u64,
    now: i64,
    bump: u8,
    mint_attestation: AttestationData,
    mint_digest: Option<Seq<u8>>,
    mint_record: AttestationRecord,
    holder: Address,
    burn_attestation: AttestationData,
    burn_digest: Option<Seq<u8>>,
    burn_record: AttestationRecord,
)
    requires
        mint_refusal(pool, receipt, caller, amount, mint_attestation, mint_digest, mint_record)
            is None,
        burn_refusal(
            pool_after_mint(pool, amount),
            receipt_after_mint(pool, receipt, recipient, receipt_mint, amount, now, bump),
            caller,
            holder,
            amount,
            burn_attestation,
            burn_digest,
            burn_record,
        ) is None,
    ensures
        pool_after_burn(pool_after_mint(pool, amount), amount).total_deposits
            == pool.total_deposits,
        pool_after_burn(pool_after_mint(pool, amount), amount) == pool,
        receipt_after_burn(
            pool_after_mint(pool, amount),
            receipt_after_mint(pool, receipt, recipient, receipt_mint, amount, now, bump),
            amount,
        ).amount == receipt.amount,
{
}

/// A mint and a burn move the pool's deposits and the holding's balance in
/// step: both grow by `amount` in a mint and both shrink by `amount` in a
/// burn, so the deposits stay the sum of the balances minted against them.
pub proof fn lemma_deposits_move_with_balance(
    pool: PoolAccount,
    receipt: ReceiptTokenAccount,
    recipient: Address,
    receipt_mint: Address,
    amount: u64,
    now: i64,
    bump: u8,
)
    ensures
        pool.total_deposits + amount <= u64::MAX && receipt.amount + amount <= u64::MAX ==> {
            &&& pool_after_mint(pool, amount).total_deposits == pool.total_deposits + amount
            &&& receipt_after_mint(
                pool,
                receipt,
                recipient,
                receipt_mint,
                amount,
                now,
                bump,
            ).amount == receipt.amount + amount
        },
        amount <= pool.total_deposits && amount <= receipt.amount ==> {
            &&& pool_after_burn(pool, amount).total_deposits == pool.total_deposits - amount
            &&& receipt_after_burn(pool, receipt, amount).amount == receipt.amount - amount
        },
{
}

} // verus!
