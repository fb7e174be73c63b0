use grant_contracts::compliance::{ComplianceContract, ComplianceError};
use grant_contracts::types::Address;

#[test]
fn test_compliance() {
    let officer = Address(1);
    let target = Address(2);
    let mut contract = ComplianceContract::new();
    contract.init(officer).unwrap();

    assert_eq!(contract.is_sanctioned(target), false);
    contract.sanction(target).unwrap();
    assert_eq!(contract.is_sanctioned(target), true);

    contract.unsanction(target).unwrap();
    assert_eq!(contract.is_sanctioned(target), false);
}

#[test]
fn compliance_init_once_and_flags() {
    let mut contract = ComplianceContract::new();
    assert_eq!(contract.sanction(Address(5)), Err(ComplianceError::NotInitialized));
    contract.init(Address(1)).unwrap();
    assert_eq!(contract.init(Address(9)), Err(ComplianceError::AlreadyInitialized));
    assert_eq!(contract.get_officer(), Some(Address(1)));
    assert!(!contract.is_flagged(Address(5)));
    contract.flag_address(Address(5)).unwrap();
    assert!(contract.is_flagged(Address(5)));
    assert!(!contract.is_sanctioned(Address(5)));
}
