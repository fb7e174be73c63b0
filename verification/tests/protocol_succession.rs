use grant_contracts::protocol_succession::{ProtocolSuccession, SuccessionError, SuccessionStatus};
use grant_contracts::types::Address;

const ADMIN: Address = Address(1);
const DAO: Address = Address(2);

#[test]
fn succession_two_step_handover() {
    let mut s = ProtocolSuccession::new();
    assert_eq!(s.initiate_succession(DAO, 5), Err(SuccessionError::NotInitialized));
    s.initialize(ADMIN);
    s.initiate_succession(DAO, 5).unwrap();
    // The admin keeps control until the DAO confirms.
    assert_eq!(s.get_admin(), Ok(ADMIN));
    let rec = s.get_pending_succession().unwrap();
    assert_eq!(rec.current_admin, ADMIN);
    assert_eq!(rec.proposed_dao, DAO);
    assert_eq!(rec.initiated_at, 5);
    assert_eq!(rec.status, SuccessionStatus::Pending);
    assert_eq!(s.initiate_succession(Address(3), 6), Err(SuccessionError::SuccessionAlreadyPending));
    assert_eq!(s.confirm_succession(Address(3)), Err(SuccessionError::WrongConfirmingAddress));
    assert_eq!(s.get_admin(), Ok(ADMIN));
    s.confirm_succession(DAO).unwrap();
    assert_eq!(s.get_admin(), Ok(DAO));
    assert!(s.get_pending_succession().is_none());
    assert_eq!(s.confirm_succession(DAO), Err(SuccessionError::NoSuccessionPending));
}

#[test]
fn succession_cancel() {
    let mut s = ProtocolSuccession::new();
    assert_eq!(s.cancel_succession(), Err(SuccessionError::NotInitialized));
    assert_eq!(s.get_admin(), Err(SuccessionError::NotInitialized));
    s.initialize(ADMIN);
    assert_eq!(s.cancel_succession(), Err(SuccessionError::NoSuccessionPending));
    s.initiate_succession(DAO, 1).unwrap();
    s.cancel_succession().unwrap();
    assert!(s.get_pending_succession().is_none());
    assert_eq!(s.confirm_succession(DAO), Err(SuccessionError::NoSuccessionPending));
    assert_eq!(s.get_admin(), Ok(ADMIN));
}
