use grant_contracts::liquidity::{
    LiquidityError, LiquidityProvisionHook, WithdrawalStatus, MAX_POOLS_PER_GRANT,
};
use grant_contracts::types::Address;

const NOW: u64 = 1_000;

fn hook() -> LiquidityProvisionHook {
    LiquidityProvisionHook::new(Address(999))
}

fn initialized(ratio: u32, min: u128, max: u128) -> LiquidityProvisionHook {
    let mut h = hook();
    h.initialize(Address(1), ratio, min, max, NOW).unwrap();
    h
}

#[test]
fn test_liquidity_hook_initialization() {
    let mut h = hook();
    let admin = Address(1);
    let result = h.initialize(admin, 3000u32, 1000u128, 100000u128, NOW);
    assert!(result.is_ok());

    let config = h.get_config().unwrap();
    assert_eq!(config.admin, admin);
    assert_eq!(config.max_liquidity_ratio, 3000);
    assert_eq!(config.min_pool_size, 1000);
    assert_eq!(config.max_pool_size, 100000);
    assert!(config.emergency_withdrawal_enabled);
    assert!(config.auto_rebalance_enabled);
}

#[test]
fn test_liquidity_hook_invalid_initialization() {
    let mut h = hook();
    let admin = Address(1);
    let result = h.initialize(admin, 6000u32, 1000u128, 100000u128, NOW);
    assert_eq!(result, Err(LiquidityError::InvalidAmount));

    let result = h.initialize(admin, 3000u32, 100000u128, 1000u128, NOW);
    assert_eq!(result, Err(LiquidityError::InvalidAmount));

    h.initialize(admin, 3000u32, 1000u128, 100000u128, NOW).unwrap();
    let result = h.initialize(admin, 2000u32, 500u128, 50000u128, NOW);
    assert_eq!(result, Err(LiquidityError::NotInitialized));
}

#[test]
fn test_create_liquidity_pool() {
    let mut h = initialized(3000, 1000, 100000);
    let grant_id = 1u64;
    let token_a = Address(10);
    let token_b = Address(11);
    let lp_token = Address(12);

    let pool_id = h
        .create_liquidity_pool(grant_id, token_a, token_b, lp_token, 5000u128, 5000u128, NOW)
        .unwrap();
    assert_eq!(pool_id, 1);

    let pool = h.get_pool(pool_id).unwrap();
    assert_eq!(pool.pool_id, pool_id);
    assert_eq!(pool.grant_id, grant_id);
    assert_eq!(pool.token_a, token_a);
    assert_eq!(pool.token_b, token_b);
    assert_eq!(pool.lp_token_address, lp_token);
    assert_eq!(pool.deposited_amount_a, 5000);
    assert_eq!(pool.deposited_amount_b, 5000);
    assert!(pool.is_active);
    assert!(pool.auto_rebalance);
}

#[test]
fn test_create_pool_invalid_amounts() {
    let mut h = initialized(3000, 1000, 100000);
    let (token_a, token_b, lp_token) = (Address(10), Address(11), Address(12));

    let result = h.create_liquidity_pool(1, token_a, token_b, lp_token, 500u128, 500u128, NOW);
    assert_eq!(result, Err(LiquidityError::InvalidAmount));

    let result = h.create_liquidity_pool(1, token_a, token_b, lp_token, 200000u128, 200000u128, NOW);
    assert_eq!(result, Err(LiquidityError::InvalidAmount));
}

#[test]
fn test_pool_limit_per_grant() {
    let mut h = initialized(3000, 1000, 100000);
    let grant_id = 1u64;
    let (token_a, token_b) = (Address(10), Address(11));

    for i in 0..MAX_POOLS_PER_GRANT {
        let lp_token = Address(100 + i as u64);
        let pool_id = h
            .create_liquidity_pool(grant_id, token_a, token_b, lp_token, 1000u128, 1000u128, NOW)
            .unwrap();
        assert_eq!(pool_id, (i + 1) as u64);
    }

    let result = h.create_liquidity_pool(grant_id, token_a, token_b, Address(200), 1000u128, 1000u128, NOW);
    assert_eq!(result, Err(LiquidityError::PoolLimitExceeded));
}

#[test]
fn test_allocate_to_liquidity() {
    let mut h = initialized(3000, 1000, 100000);
    let grant_id = 1u64;
    let pool_id = h
        .create_liquidity_pool(grant_id, Address(10), Address(11), Address(12), 5000u128, 5000u128, NOW)
        .unwrap();

    let position_id = h.allocate_to_liquidity(grant_id, pool_id, 2000u128, NOW).unwrap();
    assert!(position_id > 0);

    let position = h.get_position(position_id).unwrap();
    assert_eq!(position.pool_id, pool_id);
    assert_eq!(position.grant_id, grant_id);
    assert_eq!(position.allocated_amount, 2000);
    assert!(!position.is_locked);
}

#[test]
fn test_liquidity_ratio_constraints() {
    let mut h = initialized(1000, 1000, 100000);
    let grant_id = 1u64;
    let pool_id = h
        .create_liquidity_pool(grant_id, Address(10), Address(11), Address(12), 50000u128, 50000u128, NOW)
        .unwrap();

    let result = h.allocate_to_liquidity(grant_id, pool_id, 100000u128, NOW);
    assert_eq!(result, Err(LiquidityError::LiquidityRatioExceeded));
}

#[test]
fn test_emergency_withdrawal_for_milestone() {
    let mut h = initialized(3000, 1000, 100000);
    let grant_id = 1u64;
    let pool_id = h
        .create_liquidity_pool(grant_id, Address(10), Address(11), Address(12), 10000u128, 10000u128, NOW)
        .unwrap();
    h.allocate_to_liquidity(grant_id, pool_id, 5000u128, NOW).unwrap();

    let milestone_amount = 8000u128;
    let milestone_claim_id = 42u64;
    let withdrawal_ids = h
        .emergency_withdraw_for_milestone(grant_id, milestone_amount, milestone_claim_id, NOW)
        .unwrap();
    assert!(!withdrawal_ids.is_empty());

    let positions = h.get_grant_positions(grant_id).unwrap();
    for &position_id in positions.iter() {
        let position = h.get_position(position_id).unwrap();
        assert!(position.is_locked);
        assert!(position.lock_reason.is_some());
    }
}

#[test]
fn test_emergency_withdrawal_insufficient_liquidity() {
    let mut h = initialized(3000, 1000, 100000);
    let grant_id = 1u64;
    h.create_liquidity_pool(grant_id, Address(10), Address(11), Address(12), 1000u128, 1000u128, NOW)
        .unwrap();

    let result = h.emergency_withdraw_for_milestone(grant_id, 50000u128, 42u64, NOW);
    assert_eq!(result, Err(LiquidityError::InsufficientUnstreamed));

    let positions = h.get_grant_positions(grant_id).unwrap();
    for &position_id in positions.iter() {
        let position = h.get_position(position_id).unwrap();
        assert!(!position.is_locked);
    }
}

#[test]
fn test_emergency_withdrawal_disabled() {
    let mut h = initialized(3000, 1000, 100000);
    let result = h.emergency_withdraw_for_milestone(1u64, 1000u128, 42u64, NOW);
    assert!(result.is_ok());
}

#[test]
fn test_liquidity_metrics() {
    let mut h = initialized(3000, 1000, 100000);
    let metrics = h.get_liquidity_metrics().unwrap();
    assert_eq!(metrics.total_allocated, 0);
    assert_eq!(metrics.total_value, 0);
    assert_eq!(metrics.total_fees_earned, 0);
    assert_eq!(metrics.active_pools, 0);
    assert_eq!(metrics.locked_positions, 0);
    assert_eq!(metrics.apy, 0);

    let grant_id = 1u64;
    let pool_id = h
        .create_liquidity_pool(grant_id, Address(10), Address(11), Address(12), 5000u128, 5000u128, NOW)
        .unwrap();
    h.allocate_to_liquidity(grant_id, pool_id, 2000u128, NOW).unwrap();

    let updated_metrics = h.get_liquidity_metrics().unwrap();
    assert!(updated_metrics.total_allocated > 0);
    assert!(updated_metrics.total_value > 0);
    assert_eq!(updated_metrics.active_pools, 1);
}

#[test]
fn test_pool_inactive_error() {
    let mut h = initialized(3000, 1000, 100000);
    let grant_id = 1u64;
    let pool_id = h
        .create_liquidity_pool(grant_id, Address(10), Address(11), Address(12), 5000u128, 5000u128, NOW)
        .unwrap();

    let result = h.allocate_to_liquidity(grant_id, 999u64, 1000u128, NOW);
    assert_eq!(result, Err(LiquidityError::PoolNotFound));

    let result = h.allocate_to_liquidity(999u64, pool_id, 1000u128, NOW);
    assert_eq!(result, Err(LiquidityError::PoolInactive));
}

#[test]
fn test_rebalance_pools() {
    let mut h = initialized(3000, 1000, 100000);
    for i in 0..3u64 {
        h.create_liquidity_pool(1, Address(10), Address(11), Address(100 + i), 1000u128, 1000u128, NOW)
            .unwrap();
    }
    let rebalanced_pools = h.rebalance_pools().unwrap();
    assert_eq!(rebalanced_pools.len(), 0);
}

#[test]
fn test_rebalance_disabled() {
    let h = initialized(3000, 1000, 100000);
    let result = h.rebalance_pools();
    assert!(result.is_ok());
}

#[test]
fn test_position_tracking() {
    let mut h = initialized(3000, 1000, 100000);
    let grant_id = 1u64;
    let pool_id = h
        .create_liquidity_pool(grant_id, Address(10), Address(11), Address(12), 5000u128, 5000u128, NOW)
        .unwrap();
    let position_id = h.allocate_to_liquidity(grant_id, pool_id, 2000u128, NOW).unwrap();

    let positions = h.get_grant_positions(grant_id).unwrap();
    assert_eq!(positions.len(), 2);

    let position = h.get_position(position_id).unwrap();
    assert_eq!(position.pool_id, pool_id);
    assert_eq!(position.grant_id, grant_id);
    assert_eq!(position.allocated_amount, 2000);
    assert!(!position.is_locked);
}

#[test]
fn test_get_nonexistent_resources() {
    let h = initialized(3000, 1000, 100000);
    assert_eq!(h.get_pool(999u64), Err(LiquidityError::PoolNotFound));
    assert_eq!(h.get_position(999u64).err(), Some(LiquidityError::PositionNotFound));
    let positions = h.get_grant_positions(999u64).unwrap();
    assert_eq!(positions.len(), 0);
}

#[test]
fn test_config_retrieval() {
    let mut h = hook();
    let admin = Address(1);
    h.initialize(admin, 2500u32, 2000u128, 200000u128, NOW).unwrap();

    let config = h.get_config().unwrap();
    assert_eq!(config.admin, admin);
    assert_eq!(config.max_liquidity_ratio, 2500);
    assert_eq!(config.min_pool_size, 2000);
    assert_eq!(config.max_pool_size, 200000);
    assert!(config.emergency_withdrawal_enabled);
    assert!(config.auto_rebalance_enabled);
    assert_eq!(config.rebalance_threshold, 1000);
    assert_eq!(config.fee_tier, 0);
}

#[test]
fn allocations_beyond_the_treasury_cap_are_refused() {
    let mut h = initialized(5000, 1u128, u128::MAX);
    let grant_id = 1u64;
    let pool_id = h
        .create_liquidity_pool(grant_id, Address(10), Address(11), Address(12), 1u128, 1u128, NOW)
        .unwrap();
    // Half the 1M unstreamed treasury may be allocated, the pool's 2 included;
    // the ratio is taken in whole basis points.
    assert_eq!(h.allocate_to_liquidity(grant_id, pool_id, 500_098, NOW), Err(LiquidityError::LiquidityRatioExceeded));
    let position_id = h.allocate_to_liquidity(grant_id, pool_id, 500_097, NOW).unwrap();
    assert_eq!(h.get_position(position_id).unwrap().allocated_amount, 500_097);
    // A product that does not fit is refused, not wrapped.
    assert_eq!(h.allocate_to_liquidity(grant_id, pool_id, u128::MAX / 2, NOW), Err(LiquidityError::MathOverflow));
}

#[test]
fn milestone_claim_withdraws_in_position_order_and_locks_with_reason() {
    let mut h = initialized(3000, 1000, 100000);
    let grant_id = 7u64;
    let pool_id = h
        .create_liquidity_pool(grant_id, Address(10), Address(11), Address(12), 10000u128, 10000u128, NOW)
        .unwrap();
    let second = h.allocate_to_liquidity(grant_id, pool_id, 5000u128, NOW).unwrap();

    // The first position holds 20000, enough for the whole claim.
    let ids = h.emergency_withdraw_for_milestone(grant_id, 8000u128, 42u64, NOW + 5).unwrap();
    assert_eq!(ids, vec![1u64]);
    let w = h.get_emergency_withdrawal(1).unwrap();
    assert_eq!(w.amount, 8000);
    assert_eq!(w.position_id, 1);
    assert_eq!(w.pool_id, pool_id);
    assert_eq!(w.grant_id, grant_id);
    assert_eq!(w.status, WithdrawalStatus::Approved);
    assert_eq!(w.processor, Some(Address(999)));
    assert_eq!(w.reason, "Emergency withdrawal for milestone claim 42");
    assert_eq!(h.get_position(second).unwrap().lock_reason.as_deref(), Some("Milestone claim 42"));
    assert_eq!(h.get_liquidity_metrics().unwrap().locked_positions, 2);

    // Every position is now locked, so a second claim finds nothing.
    let again = h.emergency_withdraw_for_milestone(grant_id, 1u128, 43u64, NOW + 6);
    assert_eq!(again, Err(LiquidityError::InsufficientUnstreamed));
}

#[test]
fn claim_spanning_positions_and_processing() {
    let mut h = initialized(3000, 1000, 100000);
    let grant_id = 3u64;
    let pool_id = h
        .create_liquidity_pool(grant_id, Address(10), Address(11), Address(12), 1000u128, 1000u128, NOW)
        .unwrap();
    h.allocate_to_liquidity(grant_id, pool_id, 3000u128, NOW).unwrap();

    // 2000 from the first position, the remaining 1500 from the second.
    let ids = h.emergency_withdraw_for_milestone(grant_id, 3500u128, 1234567u64, NOW).unwrap();
    assert_eq!(ids, vec![1u64, 2u64]);
    assert_eq!(h.get_emergency_withdrawal(1).unwrap().amount, 2000);
    assert_eq!(h.get_emergency_withdrawal(2).unwrap().amount, 1500);
    assert_eq!(h.get_position(1).unwrap().lock_reason.as_deref(), Some("Milestone claim 1234567"));

    h.process_emergency_withdrawal(2, NOW + 10).unwrap();
    let w = h.get_emergency_withdrawal(2).unwrap();
    assert_eq!(w.status, WithdrawalStatus::Processed);
    assert_eq!(w.processed_at, Some(NOW + 10));
    assert_eq!(h.get_position(2).unwrap().current_value, 1500);
    let pool = h.get_pool(pool_id).unwrap();
    assert_eq!(pool.lp_tokens, 5000 - 1500);
    assert_eq!(pool.last_withdrawal, NOW + 10);
    assert_eq!(h.get_liquidity_metrics().unwrap().total_value, 5000 - 1500);

    // A processed withdrawal cannot be processed again.
    assert_eq!(h.process_emergency_withdrawal(2, NOW + 11), Err(LiquidityError::InvalidState));
    assert_eq!(h.process_emergency_withdrawal(77, NOW + 11), Err(LiquidityError::WithdrawalNotFound));
}

#[test]
fn uninitialized_hook_refuses_everything() {
    let mut h = hook();
    assert_eq!(h.get_config(), Err(LiquidityError::NotInitialized));
    assert_eq!(h.get_liquidity_metrics(), Err(LiquidityError::NotInitialized));
    assert_eq!(
        h.create_liquidity_pool(1, Address(10), Address(11), Address(12), 1000, 1000, NOW),
        Err(LiquidityError::NotInitialized)
    );
    assert_eq!(h.allocate_to_liquidity(1, 1, 10, NOW), Err(LiquidityError::NotInitialized));
    assert_eq!(h.emergency_withdraw_for_milestone(1, 10, 1, NOW), Err(LiquidityError::NotInitialized));
    assert_eq!(h.rebalance_pools(), Err(LiquidityError::NotInitialized));
    assert_eq!(h.initialize(Address(1), 3000, 0, 10, NOW), Err(LiquidityError::InvalidAmount));
}

#[test]
fn ratio_at_the_limit_is_accepted() {
    // 30% of the estimated unstreamed treasury of 1,000,000 is 300,000.
    let mut h = initialized(3000, 1000, 100000);
    let grant_id = 1u64;
    let pool_id = h
        .create_liquidity_pool(grant_id, Address(10), Address(11), Address(12), 50000u128, 50000u128, NOW)
        .unwrap();
    assert!(h.allocate_to_liquidity(grant_id, pool_id, 200000u128, NOW).is_ok());
    assert_eq!(
        h.allocate_to_liquidity(grant_id, pool_id, 100u128, NOW),
        Err(LiquidityError::LiquidityRatioExceeded)
    );
    let m = h.get_liquidity_metrics().unwrap();
    assert_eq!(m.total_allocated, 300000);
    assert_eq!(m.total_value, 300000);
    assert_eq!(m.last_calculation, NOW);
}
