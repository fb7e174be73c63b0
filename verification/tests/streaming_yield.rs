use grant_contracts::streaming_yield::{accrue, StreamingYield, StreamingYieldError, YEAR_SECS};
use grant_contracts::types::Address;

const GRANTEE: Address = Address(5);

#[test]
fn yield_accrues_simple_interest() {
    let mut v = StreamingYield::new();
    v.enable_yield(1, GRANTEE, 500, 0).unwrap();
    v.deposit_to_yield(1, 1_000_000, 0).unwrap();
    let year = YEAR_SECS as u64;
    // 5% of 1_000_000 over one year.
    assert_eq!(v.pending_interest(1, year), 50_000);
    let pos = v.get_yield_position(1).unwrap();
    assert_eq!(accrue(&pos, year / 2), 25_000);
}

#[test]
fn withdraw_splits_interest_seventy_thirty() {
    let mut v = StreamingYield::new();
    v.enable_yield(1, GRANTEE, 500, 0).unwrap();
    v.deposit_to_yield(1, 1_000_000, 0).unwrap();
    let year = YEAR_SECS as u64;
    let (principal, grantee, treasury) = v.withdraw_from_yield(1, 400_000, year).unwrap();
    assert_eq!(principal, 400_000);
    assert_eq!(grantee, 35_000);
    assert_eq!(treasury, 15_000);
    let pos = v.get_yield_position(1).unwrap();
    assert_eq!(pos.principal, 600_000);
    assert_eq!(pos.accrued_interest, 0);
    assert_eq!(pos.last_accrual_ts, year);
}

#[test]
fn deposit_settles_interest_first() {
    let mut v = StreamingYield::new();
    v.enable_yield(1, GRANTEE, 1000, 0).unwrap();
    v.deposit_to_yield(1, 1_000_000, 0).unwrap();
    let year = YEAR_SECS as u64;
    v.deposit_to_yield(1, 1_000_000, year).unwrap();
    let pos = v.get_yield_position(1).unwrap();
    assert_eq!(pos.accrued_interest, 100_000);
    assert_eq!(pos.principal, 2_000_000);
    assert_eq!(v.pending_interest(1, year), 100_000);
}

#[test]
fn yield_errors() {
    let mut v = StreamingYield::new();
    assert_eq!(v.enable_yield(1, GRANTEE, -1, 0), Err(StreamingYieldError::InvalidAmount));
    assert_eq!(v.deposit_to_yield(1, 10, 0), Err(StreamingYieldError::PositionNotFound));
    v.enable_yield(1, GRANTEE, 100, 0).unwrap();
    assert_eq!(v.deposit_to_yield(1, 0, 0), Err(StreamingYieldError::InvalidAmount));
    v.deposit_to_yield(1, 10, 0).unwrap();
    assert_eq!(
        v.withdraw_from_yield(1, 11, 0),
        Err(StreamingYieldError::InsufficientPrincipal)
    );
    assert_eq!(v.withdraw_from_yield(1, -3, 0), Err(StreamingYieldError::InvalidAmount));
    assert_eq!(v.withdraw_from_yield(2, 3, 0), Err(StreamingYieldError::PositionNotFound));
    assert_eq!(v.pending_interest(2, 0), 0);
    assert!(v.get_yield_position(2).is_none());
}

#[test]
fn principal_always_withdrawable() {
    let mut v = StreamingYield::new();
    v.enable_yield(3, GRANTEE, 700, 100).unwrap();
    v.deposit_to_yield(3, 5_000, 100).unwrap();
    v.deposit_to_yield(3, 2_500, 200).unwrap();
    let (p, _, _) = v.withdraw_from_yield(3, 7_500, 300).unwrap();
    assert_eq!(p, 7_500);
    assert_eq!(v.get_yield_position(3).unwrap().principal, 0);
}
