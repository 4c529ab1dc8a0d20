//! Creating a pool and changing its configuration.

use vstd::prelude::*;
use crate::address::{zero_bytes32, Address};
use crate::errors::PrivateCreditError;
use crate::state::pool::{PoolAccount, PoolConfig};

verus! {

/// Creates the record of a pool.
///
/// The configuration has to be valid, else the result is
/// `InvalidPoolConfig` and no record is made. The new record names the given
/// owner, authority, receipt mint and escrow; its counters are zero, its
/// commitment root is all zero, and both of its timestamps are `now`.
pub fn initialize_pool(
    owner: Address,
    authority: Address,
    receipt_mint: Address,
    escrow_squad_address: Address,
    pool_config: PoolConfig,
    now: i64,
    bump: u8,
) -> (result: Result<PoolAccount, PrivateCreditError>)
    ensures
        match result {
            Ok(pool) => {
                &&& pool_config.is_valid()
                &&& pool.wf()
                &&& pool.owner == owner
                &&& pool.authority == authority
                &&& pool.receipt_mint == receipt_mint
                &&& pool.escrow_squad_address == escrow_squad_address
                &&& pool.nav_commit_root@ == zero_bytes32()
                &&& pool.reserved_funds == 0
                &&& pool.total_deposits == 0
                &&& pool.total_loans == 0
                &&& pool.config == pool_config
                &&& pool.created_at == now
                &&& pool.updated_at == now
                &&& pool.bump == bump
            },
            Err(e) => !pool_config.is_valid() && e == PrivateCreditError::InvalidPoolConfig,
        },
{
    if !pool_config.validate() {
        return Err(PrivateCreditError::InvalidPoolConfig);
    }
    let pool = PoolAccount {
        owner,
        authority,
        receipt_mint,
        escrow_squad_address,
        nav_commit_root: [0u8; 32],
        reserved_funds: 0,
        total_deposits: 0,
        total_loans: 0,
        config: pool_config,
        created_at: now,
        updated_at: now,
        bump,
    };
    assert(pool.nav_commit_root@ =~= zero_bytes32());
    Ok(pool)
}

/// Why a configuration update is refused, if it is: the caller is not the
/// pool's authority, the new configuration is invalid, or the pool is
/// paused. A paused pool refuses every update, also one that would lift the
/// pause.
pub open spec fn config_update_refusal(
    pool: PoolAccount,
    caller: Address,
    new_config: PoolConfig,
) -> Option<PrivateCreditError> {
    if caller != pool.authority {
        Some(PrivateCreditError::UnauthorizedAccess)
    } else if !new_config.is_valid() {
        Some(PrivateCreditError::InvalidPoolConfig)
    } else if pool.config.emergency_pause {
        Some(PrivateCreditError::EmergencyPauseActive)
    } else {
        None
    }
}

/// Replaces the configuration of a pool.
///
/// On success the record holds the new configuration and `now` as its time
/// of update, and nothing else has changed. On any refusal the record is
/// left as it was.
pub fn update_pool_config(
    pool_account: &mut PoolAccount,
    caller: &Address,
    new_config: PoolConfig,
    now: i64,
) -> (result: Result<(), PrivateCreditError>)
    ensures
        match result {
            Ok(()) => {
                &&& config_update_refusal(*old(pool_account), *caller, new_config) is None
                &&& *final(pool_account) == (PoolAccount {
                    config: new_config,
                    updated_at: now,
                    ..*old(pool_account)
                })
                &&& final(pool_account).wf()
            },
            Err(e) => {
                &&& config_update_refusal(*old(pool_account), *caller, new_config) == Some(e)
                &&& *final(pool_account) == *old(pool_account)
            },
        },
{
    if !caller.equals(&pool_account.authority) {
        return Err(PrivateCreditError::UnauthorizedAccess);
    }
    if !new_config.validate() {
        return Err(PrivateCreditError::InvalidPoolConfig);
    }
    if pool_account.config.emergency_pause {
        return Err(PrivateCreditError::EmergencyPauseActive);
    }
    pool_account.config = new_config;
    pool_account.updated_at = now;
    Ok(())
}

/// A configuration that breaks any one of its three bounds is never
/// accepted by an update, whatever the pool and whoever the caller; from the
/// pool's authority the refusal is `InvalidPoolConfig`.
pub proof fn lemma_invalid_config_refused(pool: PoolAccount, caller: Address, new_config: PoolConfig)
    requires
        new_config.max_loan_amount == 0 || new_config.min_loan_amount > new_config.max_loan_amount
            || new_config.interest_rate_bps > 10000,
    ensures
        !new_config.is_valid(),
        config_update_refusal(pool, caller, new_config) is Some,
        caller == pool.authority ==> config_update_refusal(pool, caller, new_config) == Some(
            PrivateCreditError::InvalidPoolConfig,
        ),
{
}

/// A valid configuration keeps its three bounds: the lower loan bound does
/// not exceed the upper one, the upper one is positive, and the interest
/// rate is at most 10000 basis points.
pub proof fn lemma_valid_config_bounds(config: PoolConfig)
    requires
        config.is_valid(),
    ensures
        config.min_loan_amount <= config.max_loan_amount,
        config.max_loan_amount > 0,
        config.interest_rate_bps <= 10000,
{
}

} // verus!
