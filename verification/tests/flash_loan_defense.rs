use grant_contracts::flash_loan_defense::{FlashLoanDefenseError, PoolLedger, DEPOSIT_AGE_REQUIREMENT_SECS};
use grant_contracts::types::Address;

const USER: Address = Address(4);

#[test]
fn deposits_mature_after_two_days() {
    let mut p = PoolLedger::new(Address(1));
    assert_eq!(p.record_deposit(USER, 0, 0), Err(FlashLoanDefenseError::InvalidAmount));
    p.record_deposit(USER, 1_000, 100).unwrap();
    assert_eq!(p.get_pending_pool_balance(), 1_000);
    assert_eq!(p.get_matching_weight(USER, 100 + DEPOSIT_AGE_REQUIREMENT_SECS - 1), 0);
    assert_eq!(p.get_matching_weight(USER, 100 + DEPOSIT_AGE_REQUIREMENT_SECS), 1_000);
    assert_eq!(
        p.withdraw_from_pool(USER, 10, 100 + DEPOSIT_AGE_REQUIREMENT_SECS - 1),
        Err(FlashLoanDefenseError::DepositTooYoung)
    );
    let matured = p.settle_pending_deposits(&vec![USER], 100 + DEPOSIT_AGE_REQUIREMENT_SECS).unwrap();
    assert_eq!(matured, 1_000);
    assert_eq!(p.get_mature_pool_balance(), 1_000);
    assert_eq!(p.get_pending_pool_balance(), 0);
}

#[test]
fn new_deposit_restarts_clock() {
    let mut p = PoolLedger::new(Address(1));
    p.record_deposit(USER, 500, 0).unwrap();
    p.record_deposit(USER, 500, DEPOSIT_AGE_REQUIREMENT_SECS).unwrap();
    assert_eq!(p.get_matching_weight(USER, DEPOSIT_AGE_REQUIREMENT_SECS + 1), 0);
    assert_eq!(p.get_matching_weight(USER, 2 * DEPOSIT_AGE_REQUIREMENT_SECS), 1_000);
    let later = 2 * DEPOSIT_AGE_REQUIREMENT_SECS;
    assert_eq!(p.withdraw_from_pool(USER, 2_000, later), Err(FlashLoanDefenseError::InsufficientBalance));
    assert_eq!(p.withdraw_from_pool(Address(9), 1, later), Err(FlashLoanDefenseError::DepositNotFound));
    p.withdraw_from_pool(USER, 400, later).unwrap();
    assert_eq!(p.get_matching_weight(USER, later), 600);
}

#[test]
fn deposits_settle_at_most_once() {
    let mut p = PoolLedger::new(Address(1));
    p.record_deposit(USER, 1_000, 100).unwrap();
    p.record_deposit(Address(5), 300, 100).unwrap();
    let now = 100 + DEPOSIT_AGE_REQUIREMENT_SECS;
    // A depositor listed twice counts once.
    assert_eq!(p.settle_pending_deposits(&vec![USER, USER, Address(5)], now), Ok(1_300));
    let (mature, pending) = (p.get_mature_pool_balance(), p.get_pending_pool_balance());
    assert_eq!((mature, pending), (1_300, 0));
    assert_eq!(p.settle_pending_deposits(&vec![USER, Address(5)], now), Ok(0));
    assert_eq!(p.get_mature_pool_balance(), mature);
    assert_eq!(p.get_pending_pool_balance(), pending);
    // A later top-up settles only what is new.
    p.record_deposit(USER, 200, now).unwrap();
    assert_eq!(p.settle_pending_deposits(&vec![USER], now + DEPOSIT_AGE_REQUIREMENT_SECS), Ok(200));
    assert_eq!(p.get_mature_pool_balance(), 1_500);
}
