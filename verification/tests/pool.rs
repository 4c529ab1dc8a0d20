use private_credit::instructions::{initialize_pool, update_pool_config};
use private_credit::state::{CovenantThresholds, PoolAccount, PoolConfig};
use private_credit::{Address, PrivateCreditError};

fn config(min: u64, max: u64, rate: u16) -> PoolConfig {
    PoolConfig {
        max_loan_amount: max,
        min_loan_amount: min,
        max_loan_duration: 30,
        interest_rate_bps: rate,
        management_fee_bps: 100,
        performance_fee_bps: 1000,
        reserve_ratio_bps: 500,
        insurance_ratio_bps: 200,
        max_borrower_concentration: 2500,
        min_credit_score: 600,
        covenant_thresholds: CovenantThresholds {
            max_ltv: 8000,
            min_dscr: 12000,
            max_utilization: 9000,
            min_collateral_ratio: 11000,
        },
        emergency_pause: false,
    }
}

fn authority() -> Address {
    Address::new([2u8; 32])
}

fn pool(config: PoolConfig) -> PoolAccount {
    initialize_pool(
        Address::new([1u8; 32]),
        authority(),
        Address::new([3u8; 32]),
        Address::new([4u8; 32]),
        config,
        77,
        254,
    )
    .unwrap()
}

#[test]
fn initialize_pool_sets_counters_to_zero() {
    let owner = Address::new([1u8; 32]);
    let mint = Address::new([3u8; 32]);
    let escrow = Address::new([4u8; 32]);
    let pool = initialize_pool(owner, authority(), mint, escrow, config(100, 10_000, 500), 77, 254)
        .unwrap();
    assert_eq!(pool.owner, owner);
    assert_eq!(pool.authority, authority());
    assert_eq!(pool.receipt_mint, mint);
    assert_eq!(pool.escrow_squad_address, escrow);
    assert_eq!(pool.nav_commit_root, [0u8; 32]);
    assert_eq!(pool.reserved_funds, 0);
    assert_eq!(pool.total_deposits, 0);
    assert_eq!(pool.total_loans, 0);
    assert_eq!(pool.config, config(100, 10_000, 500));
    assert_eq!(pool.created_at, 77);
    assert_eq!(pool.updated_at, 77);
    assert_eq!(pool.bump, 254);
}

#[test]
fn initialize_pool_rejects_zero_upper_bound() {
    let a = Address::new([1u8; 32]);
    assert_eq!(
        initialize_pool(a, a, a, a, config(0, 0, 500), 1, 0),
        Err(PrivateCreditError::InvalidPoolConfig)
    );
}

#[test]
fn initialize_pool_rejects_lower_bound_above_upper_bound() {
    let a = Address::new([1u8; 32]);
    assert_eq!(
        initialize_pool(a, a, a, a, config(10_001, 10_000, 500), 1, 0),
        Err(PrivateCreditError::InvalidPoolConfig)
    );
}

#[test]
fn initialize_pool_rejects_rate_above_ten_thousand() {
    let a = Address::new([1u8; 32]);
    assert_eq!(
        initialize_pool(a, a, a, a, config(100, 10_000, 10_001), 1, 0),
        Err(PrivateCreditError::InvalidPoolConfig)
    );
}

#[test]
fn initialize_pool_accepts_the_edges_of_the_bounds() {
    let a = Address::new([1u8; 32]);
    let at_rate_cap = initialize_pool(a, a, a, a, config(100, 10_000, 10_000), 1, 0).unwrap();
    assert_eq!(at_rate_cap.config.interest_rate_bps, 10_000);
    let equal_bounds = initialize_pool(a, a, a, a, config(1, 1, 0), 1, 0).unwrap();
    assert_eq!(equal_bounds.config.min_loan_amount, 1);
    assert_eq!(equal_bounds.config.max_loan_amount, 1);
    let negative_time = initialize_pool(a, a, a, a, config(0, 1, 0), -5, 0).unwrap();
    assert_eq!(negative_time.created_at, -5);
}

#[test]
fn validate_decides_the_three_bounds() {
    assert!(config(100, 10_000, 500).validate());
    assert!(config(0, u64::MAX, 10_000).validate());
    assert!(!config(0, 0, 500).validate());
    assert!(!config(2, 1, 500).validate());
    assert!(!config(1, 2, u16::MAX).validate());
}

#[test]
fn update_pool_config_replaces_config_and_time_of_update() {
    let mut record = pool(config(100, 10_000, 500));
    let before = record;
    let mut next = config(200, 20_000, 700);
    next.emergency_pause = true;
    assert_eq!(update_pool_config(&mut record, &authority(), next, 99), Ok(()));
    assert_eq!(record.config, next);
    assert_eq!(record.updated_at, 99);
    let expected = PoolAccount { config: next, updated_at: 99, ..before };
    assert_eq!(record, expected);
}

#[test]
fn update_pool_config_rejects_each_broken_bound_and_leaves_the_pool_unchanged() {
    let mut record = pool(config(100, 10_000, 500));
    let before = record;
    for broken in [config(0, 0, 500), config(10_001, 10_000, 500), config(100, 10_000, 10_001)] {
        assert_eq!(
            update_pool_config(&mut record, &authority(), broken, 99),
            Err(PrivateCreditError::InvalidPoolConfig)
        );
        assert_eq!(record, before);
    }
}

#[test]
fn update_pool_config_rejects_a_caller_who_is_not_the_authority() {
    let mut record = pool(config(100, 10_000, 500));
    let before = record;
    assert_eq!(
        update_pool_config(&mut record, &Address::new([9u8; 32]), config(1, 2, 3), 99),
        Err(PrivateCreditError::UnauthorizedAccess)
    );
    assert_eq!(record, before);
    // The owner is not the authority either.
    assert_eq!(
        update_pool_config(&mut record, &Address::new([1u8; 32]), config(1, 2, 3), 99),
        Err(PrivateCreditError::UnauthorizedAccess)
    );
    // An unauthorized caller learns nothing about the configuration's validity.
    assert_eq!(
        update_pool_config(&mut record, &Address::new([9u8; 32]), config(0, 0, 0), 99),
        Err(PrivateCreditError::UnauthorizedAccess)
    );
    assert_eq!(record, before);
}

#[test]
fn update_pool_config_is_refused_while_paused_even_to_lift_the_pause() {
    let mut paused = config(100, 10_000, 500);
    paused.emergency_pause = true;
    let mut record = pool(paused);
    let before = record;
    assert_eq!(
        update_pool_config(&mut record, &authority(), config(100, 10_000, 500), 99),
        Err(PrivateCreditError::EmergencyPauseActive)
    );
    assert_eq!(record, before);
    assert!(record.config.emergency_pause);
}

#[test]
fn update_pool_config_reports_an_invalid_config_before_the_pause() {
    let mut paused = config(100, 10_000, 500);
    paused.emergency_pause = true;
    let mut record = pool(paused);
    let before = record;
    assert_eq!(
        update_pool_config(&mut record, &authority(), config(0, 0, 500), 99),
        Err(PrivateCreditError::InvalidPoolConfig)
    );
    assert_eq!(record, before);
}
