use grant_contracts::conditional_funding::{ConditionalFunding, ConditionalFundingError, Grant, GrantStatus};
use grant_contracts::types::Address;

#[test]
fn dependent_starts_after_prerequisite() {
    let mut c = ConditionalFunding::new();
    c.init_grant(1, Address(1), 100);
    c.init_grant(2, Address(2), 200);
    assert_eq!(c.start_dependent(1, 2), Ok(false));
    assert_eq!(c.get_grant_status(2), Ok(GrantStatus::Waiting));
    c.complete_grant(1).unwrap();
    assert_eq!(c.start_dependent(1, 2), Ok(true));
    assert_eq!(c.get_grant_status(2), Ok(GrantStatus::Active));
    assert_eq!(c.get_grant_status(9), Err(ConditionalFundingError::GrantNotFound));
    assert_eq!(c.complete_grant(9), Err(ConditionalFundingError::GrantNotFound));
}

#[test]
fn trigger_only_on_completion() {
    let mut prereq = Grant::new(1, Address(1), 10);
    let mut dep = Grant::new(2, Address(2), 20);
    assert!(!grant_contracts::conditional_funding::trigger(&prereq, &mut dep));
    assert_eq!(dep.status, GrantStatus::Waiting);
    prereq.complete();
    assert!(grant_contracts::conditional_funding::trigger(&prereq, &mut dep));
    assert_eq!(dep.status, GrantStatus::Active);
}
