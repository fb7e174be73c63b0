use grant_contracts::interest_redirection::{
    BurnOperationStatus, InterestRedirectionContract, InterestRedirectionError,
    BURN_EXECUTION_INTERVAL, DEFAULT_BURN_RATIO, MAX_BURN_RATIO, MIN_BURN_RATIO,
    MIN_YIELD_THRESHOLD, SIMULATED_GAS_COST, SIMULATED_TOKEN_PRICE,
};
use grant_contracts::types::Address;

const NOW: u64 = 1_700_000_000;
const SUPPLY: u128 = 1_000_000_000_000;
const DEAD: Address = Address(0);
const BALANCE: i128 = 1_000_000_000_000;

fn contract() -> InterestRedirectionContract {
    InterestRedirectionContract::new()
}

fn initialized(admin: Address, ratio: u32, auto: bool) -> InterestRedirectionContract {
    let mut c = contract();
    c.initialize(admin, Address(2), ratio, auto, SUPPLY, DEAD).unwrap();
    c
}

#[test]
fn test_interest_redirection_initialization() {
    let admin = Address(1);
    let project_token = Address(2);
    let mut c = contract();
    let result = c.initialize(admin, project_token, DEFAULT_BURN_RATIO, true, SUPPLY, DEAD);
    assert!(result.is_ok());

    let config = c.get_config().unwrap();
    assert_eq!(config.admin, admin);
    assert_eq!(config.project_token, project_token);
    assert_eq!(config.burn_ratio, DEFAULT_BURN_RATIO);
    assert!(config.auto_burn_enabled);
    assert_eq!(config.burn_interval, BURN_EXECUTION_INTERVAL);
    assert_eq!(config.min_yield_threshold, MIN_YIELD_THRESHOLD);
    assert_eq!(config.last_burn_amount, 0);
    assert_eq!(config.total_burned, 0);
    assert_eq!(config.burn_count, 0);
    assert_eq!(config.dead_address, DEAD);
}

#[test]
fn test_interest_redirection_invalid_initialization() {
    let admin = Address(1);
    let project_token = Address(2);
    let mut c = contract();

    let result = c.initialize(admin, project_token, 500u32, true, SUPPLY, DEAD);
    assert_eq!(result, Err(InterestRedirectionError::InvalidBurnRatio));

    let result = c.initialize(admin, project_token, 9500u32, true, SUPPLY, DEAD);
    assert_eq!(result, Err(InterestRedirectionError::InvalidBurnRatio));

    c.initialize(admin, project_token, DEFAULT_BURN_RATIO, true, SUPPLY, DEAD).unwrap();

    let result = c.initialize(admin, project_token, DEFAULT_BURN_RATIO, true, SUPPLY, DEAD);
    assert_eq!(result, Err(InterestRedirectionError::AlreadyExists));
}

#[test]
fn test_create_burn_operation() {
    let mut c = initialized(Address(1), DEFAULT_BURN_RATIO, true);

    let operation_id = c.create_burn_operation(1u64, 10000u128, 5000u128, 500u32, NOW).unwrap();
    assert_eq!(operation_id, 1);

    let operation = c.get_burn_operation(operation_id).unwrap();
    assert_eq!(operation.operation_id, operation_id);
    assert_eq!(operation.grant_id, 1);
    assert_eq!(operation.yield_amount, 10000);
    assert_eq!(operation.burn_amount, 5000);
    assert_eq!(operation.slippage_tolerance, 500);
    assert_eq!(operation.status, BurnOperationStatus::Pending);
    assert!(operation.executed_at.is_none());
}

#[test]
fn test_create_burn_operation_invalid() {
    let mut c = initialized(Address(1), DEFAULT_BURN_RATIO, true);

    let result = c.create_burn_operation(1u64, 500u128, 250u128, 500u32, NOW);
    assert_eq!(result, Err(InterestRedirectionError::InsufficientYield));

    let result = c.create_burn_operation(1u64, 10000u128, 0u128, 500u32, NOW);
    assert_eq!(result, Err(InterestRedirectionError::InvalidAmount));
}

#[test]
fn test_execute_burn_operation() {
    let mut c = initialized(Address(1), DEFAULT_BURN_RATIO, true);
    let operation_id = c.create_burn_operation(1u64, 10000u128, 5000u128, 500u32, NOW).unwrap();

    let result = c.execute_burn_operation(operation_id, NOW, BALANCE);
    assert!(result.is_ok());

    let operation = c.get_burn_operation(operation_id).unwrap();
    assert_eq!(operation.status, BurnOperationStatus::Completed);
    assert!(operation.executed_at.is_some());
    assert!(operation.actual_burned > 0);
    assert!(operation.gas_used > 0);

    let metrics = c.get_token_supply_metrics().unwrap();
    assert!(metrics.total_burned > 0);
    assert!(metrics.last_burn_timestamp > 0);
}

#[test]
fn test_auto_burn_disabled() {
    let mut c = initialized(Address(1), DEFAULT_BURN_RATIO, false);
    let result = c.execute_auto_burn(NOW, BALANCE);
    assert_eq!(result, Err(InterestRedirectionError::AutoBurnDisabled));
}

#[test]
fn test_auto_burn_insufficient_yield() {
    let mut c = initialized(Address(1), DEFAULT_BURN_RATIO, true);
    let executed_operations = c.execute_auto_burn(NOW, BALANCE).unwrap();
    assert_eq!(executed_operations.len(), 0);
}

#[test]
fn test_auto_burn_timing() {
    let start: u64 = 0;
    let mut c = initialized(Address(1), DEFAULT_BURN_RATIO, true);
    let _ = c.create_burn_operation(1u64, 20000u128, 10000u128, 500u32, start).unwrap();

    let executed_operations = c.execute_auto_burn(start, BALANCE).unwrap();
    assert_eq!(executed_operations.len(), 0);

    let later = start + BURN_EXECUTION_INTERVAL + 1;
    let executed_operations = c.execute_auto_burn(later, BALANCE).unwrap();
    assert!(executed_operations.len() > 0);
}

#[test]
fn test_update_burn_config() {
    let admin = Address(1);
    let mut c = initialized(admin, DEFAULT_BURN_RATIO, true);

    let result = c.update_burn_config(admin, Some(7000u32), Some(false), None, None);
    assert!(result.is_ok());

    let config = c.get_config().unwrap();
    assert_eq!(config.burn_ratio, 7000);
    assert!(!config.auto_burn_enabled);
}

#[test]
fn test_update_burn_config_unauthorized() {
    let mut c = initialized(Address(1), DEFAULT_BURN_RATIO, true);
    let unauthorized = Address(9);
    let result = c.update_burn_config(unauthorized, Some(7000u32), Some(false), None, None);
    assert_eq!(result, Err(InterestRedirectionError::Unauthorized));
}

#[test]
fn test_update_burn_config_invalid_ratio() {
    let admin = Address(1);
    let mut c = initialized(admin, DEFAULT_BURN_RATIO, true);
    let result = c.update_burn_config(admin, Some(500u32), Some(true), None, None);
    assert_eq!(result, Err(InterestRedirectionError::InvalidBurnRatio));
}

#[test]
fn test_get_pending_operations() {
    let mut c = initialized(Address(1), DEFAULT_BURN_RATIO, true);

    let op1_id = c.create_burn_operation(1u64, 10000u128, 5000u128, 500u32, NOW).unwrap();
    let op2_id = c.create_burn_operation(2u64, 15000u128, 7500u128, 500u32, NOW).unwrap();

    let pending = c.get_pending_operations().unwrap();
    assert_eq!(pending.len(), 2);
    assert!(pending.contains(&op1_id));
    assert!(pending.contains(&op2_id));

    c.execute_burn_operation(op1_id, NOW, BALANCE).unwrap();

    let pending_after = c.get_pending_operations().unwrap();
    assert_eq!(pending_after.len(), 1);
    assert!(pending_after.contains(&op2_id));
    assert!(!pending_after.contains(&op1_id));
}

#[test]
fn test_token_supply_metrics() {
    let mut c = initialized(Address(1), DEFAULT_BURN_RATIO, true);

    let metrics = c.get_token_supply_metrics().unwrap();
    assert!(metrics.initial_supply > 0);
    assert_eq!(metrics.current_supply, metrics.initial_supply);
    assert_eq!(metrics.total_burned, 0);
    assert_eq!(metrics.total_yield_generated, 0);
    assert_eq!(metrics.last_burn_timestamp, 0);
    assert_eq!(metrics.burn_rate, DEFAULT_BURN_RATIO);
    assert_eq!(metrics.yield_to_burn_ratio, DEFAULT_BURN_RATIO);

    let operation_id = c.create_burn_operation(1u64, 10000u128, 5000u128, 500u32, NOW).unwrap();
    c.execute_burn_operation(operation_id, NOW, BALANCE).unwrap();

    let updated_metrics = c.get_token_supply_metrics().unwrap();
    assert!(updated_metrics.total_burned > 0);
    assert!(updated_metrics.last_burn_timestamp > 0);
    assert!(updated_metrics.current_supply < metrics.current_supply);
}

#[test]
fn test_interest_redirection_test_edge_cases() {
    let mut c = initialized(Address(1), MIN_BURN_RATIO, true);
    let mut c2 = contract();
    c2.initialize(Address(3), Address(4), MAX_BURN_RATIO, true, SUPPLY, DEAD).unwrap();

    let max_operation_id = c2.create_burn_operation(1u64, u128::MAX, u128::MAX, 1000u32, NOW).unwrap();
    let max_operation = c2.get_burn_operation(max_operation_id).unwrap();
    assert_eq!(max_operation.yield_amount, u128::MAX);
    assert_eq!(max_operation.burn_amount, u128::MAX);
    assert_eq!(max_operation.slippage_tolerance, 1000);

    let min_slippage_id = c.create_burn_operation(2u64, 10000u128, 5000u128, 0u32, NOW).unwrap();
    let min_slippage_op = c.get_burn_operation(min_slippage_id).unwrap();
    assert_eq!(min_slippage_op.slippage_tolerance, 0);
}

#[test]
fn test_interest_redirection_test_error_conditions() {
    let mut c = contract();

    assert_eq!(c.get_config(), Err(InterestRedirectionError::NotInitialized));
    assert_eq!(c.get_burn_operation(1u64), Err(InterestRedirectionError::BurnOperationNotFound));
    assert_eq!(c.get_token_supply_metrics(), Err(InterestRedirectionError::NotInitialized));
    assert_eq!(c.get_pending_operations(), Err(InterestRedirectionError::NotInitialized));

    c.initialize(Address(1), Address(2), DEFAULT_BURN_RATIO, true, SUPPLY, DEAD).unwrap();
    assert_eq!(c.get_burn_operation(999u64), Err(InterestRedirectionError::BurnOperationNotFound));
}

#[test]
fn burn_executes_exactly_once() {
    let mut c = initialized(Address(1), DEFAULT_BURN_RATIO, true);
    let id = c.create_burn_operation(1u64, 10000u128, 5000u128, 500u32, NOW).unwrap();
    c.execute_burn_operation(id, NOW, BALANCE).unwrap();
    let before = c.get_token_supply_metrics().unwrap();
    assert_eq!(
        c.execute_burn_operation(id, NOW + 1, BALANCE),
        Err(InterestRedirectionError::InvalidOperationState)
    );
    assert_eq!(c.get_token_supply_metrics().unwrap(), before);
}

#[test]
fn burn_records_exact_amounts() {
    let mut c = initialized(Address(1), DEFAULT_BURN_RATIO, true);
    let id = c.create_burn_operation(7u64, 10000u128, 5000u128, 500u32, NOW).unwrap();
    c.execute_burn_operation(id, NOW + 5, BALANCE).unwrap();
    let op = c.get_burn_operation(id).unwrap();
    assert_eq!(op.actual_burned, 5000);
    assert_eq!(op.token_price, SIMULATED_TOKEN_PRICE);
    assert_eq!(op.gas_used, SIMULATED_GAS_COST);
    assert_eq!(op.executed_at, Some(NOW + 5));
    let m = c.get_token_supply_metrics().unwrap();
    assert_eq!(m.current_supply, SUPPLY - 5000);
    assert_eq!(m.total_burned, 5000);
    let config = c.get_config().unwrap();
    assert_eq!(config.total_burned, 5000);
    assert_eq!(config.burn_count, 1);
    assert_eq!(config.last_burn_amount, 5000);
}

#[test]
fn burn_refused_without_liquidity() {
    let mut c = initialized(Address(1), DEFAULT_BURN_RATIO, true);
    let id = c.create_burn_operation(1u64, 10000u128, 5000u128, 500u32, NOW).unwrap();
    assert_eq!(
        c.execute_burn_operation(id, NOW, 4999),
        Err(InterestRedirectionError::InsufficientLiquidity)
    );
    assert_eq!(c.get_burn_operation(id).unwrap().status, BurnOperationStatus::Pending);
    assert_eq!(
        c.execute_burn_operation(42, NOW, BALANCE),
        Err(InterestRedirectionError::BurnOperationNotFound)
    );
}

#[test]
fn auto_burn_burns_ratio_of_accumulated_yield() {
    let mut c = initialized(Address(1), DEFAULT_BURN_RATIO, true);
    c.create_burn_operation(1u64, 20000u128, 10000u128, 500u32, 0).unwrap();
    assert_eq!(c.get_yield_accumulator(), 20000);
    let executed = c.execute_auto_burn(BURN_EXECUTION_INTERVAL, BALANCE).unwrap();
    assert_eq!(executed, vec![2u64]);
    let op = c.get_burn_operation(2).unwrap();
    assert_eq!(op.yield_amount, 20000);
    assert_eq!(op.burn_amount, 10000);
    assert_eq!(op.status, BurnOperationStatus::Completed);
    assert_eq!(c.get_yield_accumulator(), 0);
}

#[test]
fn create_burn_operation_needs_initialization() {
    let mut c = contract();
    assert_eq!(
        c.create_burn_operation(1u64, 10000u128, 5000u128, 500u32, NOW),
        Err(InterestRedirectionError::NotInitialized)
    );
}

#[test]
fn test_execute_burn_operation_invalid_state() {
    let mut c = initialized(Address(1), DEFAULT_BURN_RATIO, true);
    let operation_id = c.create_burn_operation(1u64, 10000u128, 5000u128, 500u32, NOW).unwrap();
    c.execute_burn_operation(operation_id, NOW, BALANCE).unwrap();
    // Execute same operation again (should fail)
    let result = c.execute_burn_operation(operation_id, NOW, BALANCE);
    assert_eq!(result, Err(InterestRedirectionError::InvalidOperationState));
}

#[test]
fn auto_burn_needs_liquidity_and_changes_nothing_when_refused() {
    let mut c = initialized(Address(1), DEFAULT_BURN_RATIO, true);
    c.create_burn_operation(1u64, 20000u128, 10000u128, 500u32, NOW).unwrap();
    let later = NOW + BURN_EXECUTION_INTERVAL + 1;
    let pending_before = c.pending.len();
    assert_eq!(c.execute_auto_burn(later, 0), Err(InterestRedirectionError::InsufficientLiquidity));
    assert_eq!(c.pending.len(), pending_before);
    assert_eq!(c.yield_accumulator, 20000);
    assert_eq!(c.execute_auto_burn(later, BALANCE).unwrap().len(), 1);
    assert_eq!(c.yield_accumulator, 0);
}
