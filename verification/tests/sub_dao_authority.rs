use grant_contracts::sub_dao::{PermissionLevel, SubDaoAuthority, SubDaoError, SubDaoStatus};
use grant_contracts::types::Address;

const MAIN: Address = Address(1);
const MARKETING: Address = Address(20);
const ENGINEERING: Address = Address(21);
const NOW: u64 = 10_000;

fn authority() -> SubDaoAuthority {
    let mut a = SubDaoAuthority::new();
    a.initialize(MAIN).unwrap();
    a
}

fn s(x: &str) -> String {
    String::from(x)
}

#[test]
fn grant_and_assign() {
    let mut a = SubDaoAuthority::new();
    assert_eq!(
        a.grant_sub_dao_permissions(MAIN, MARKETING, s("Marketing"), PermissionLevel::Pause, 100, None, NOW),
        Err(SubDaoError::NotInitialized)
    );
    a.initialize(MAIN).unwrap();
    assert_eq!(a.initialize(MAIN), Err(SubDaoError::AlreadyInitialized));
    assert_eq!(
        a.grant_sub_dao_permissions(MARKETING, MARKETING, s("Marketing"), PermissionLevel::Pause, 100, None, NOW),
        Err(SubDaoError::NotAuthorized)
    );
    assert_eq!(
        a.grant_sub_dao_permissions(MAIN, MARKETING, s("Marketing"), PermissionLevel::Pause, 0, None, NOW),
        Err(SubDaoError::InvalidState)
    );
    assert_eq!(
        a.grant_sub_dao_permissions(MAIN, MARKETING, s("Marketing"), PermissionLevel::Pause, 100, Some(NOW), NOW),
        Err(SubDaoError::PermissionExpired)
    );
    a.grant_sub_dao_permissions(MAIN, MARKETING, s("Marketing"), PermissionLevel::Pause, 100, None, NOW).unwrap();
    a.grant_sub_dao_permissions(MAIN, ENGINEERING, s("Engineering"), PermissionLevel::Full, 100, None, NOW).unwrap();
    assert_eq!(a.get_department_sub_daos(s("Marketing")).unwrap(), vec![MARKETING]);
    assert_eq!(a.get_department_sub_daos(s("Engineering")).unwrap(), vec![ENGINEERING]);
    assert!(a.get_department_sub_daos(s("Legal")).unwrap().is_empty());

    a.assign_grant_to_sub_dao(MAIN, MARKETING, 5).unwrap();
    assert_eq!(a.assign_grant_to_sub_dao(MAIN, MARKETING, 5), Err(SubDaoError::InvalidState));
    assert_eq!(a.assign_grant_to_sub_dao(MAIN, Address(99), 5), Err(SubDaoError::SubDaoNotFound));
    assert_eq!(a.get_managed_grants(MARKETING).unwrap(), vec![5]);
    assert_eq!(a.get_grant_manager(5), Ok(Some(MARKETING)));
    assert_eq!(a.get_sub_dao_permission(MARKETING).unwrap().managed_grants, vec![5]);
}

#[test]
fn delegated_actions_follow_permission_level() {
    let mut a = authority();
    a.grant_sub_dao_permissions(MAIN, MARKETING, s("Marketing"), PermissionLevel::Pause, 100, Some(NOW + 100), NOW).unwrap();
    a.assign_grant_to_sub_dao(MAIN, MARKETING, 5).unwrap();
    let id = a.delegated_pause_grant(MARKETING, 5, s("spam"), NOW).unwrap();
    assert_eq!(id, 1);
    let log = a.get_action_log(id).unwrap();
    assert_eq!(log.action_type, "pause");
    assert_eq!(log.grant_id, 5);
    assert!(!log.vetoed);
    assert_eq!(a.delegated_resume_grant(MARKETING, 5, s("ok"), NOW), Ok(2));
    assert_eq!(
        a.delegated_clawback_grant(MARKETING, 5, s("fraud"), NOW),
        Err(SubDaoError::InsufficientPermissions)
    );
    assert_eq!(a.delegated_pause_grant(MARKETING, 6, s("x"), NOW), Err(SubDaoError::GrantNotManaged));
    assert_eq!(a.delegated_pause_grant(MARKETING, 5, s("x"), NOW + 100), Err(SubDaoError::PermissionExpired));
    assert_eq!(a.delegated_pause_grant(ENGINEERING, 5, s("x"), NOW), Err(SubDaoError::SubDaoNotFound));
}

#[test]
fn main_dao_vetoes_once() {
    let mut a = authority();
    a.grant_sub_dao_permissions(MAIN, ENGINEERING, s("Engineering"), PermissionLevel::Clawback, 100, None, NOW).unwrap();
    a.assign_grant_to_sub_dao(MAIN, ENGINEERING, 9).unwrap();
    let action = a.delegated_clawback_grant(ENGINEERING, 9, s("fraud"), NOW).unwrap();
    assert_eq!(a.veto_sub_dao_action(ENGINEERING, action, s("no"), NOW), Err(SubDaoError::NotAuthorized));
    let veto = a.veto_sub_dao_action(MAIN, action, s("no"), NOW + 1).unwrap();
    assert_eq!(veto, 1);
    let log = a.get_action_log(action).unwrap();
    assert!(log.vetoed);
    assert_eq!(log.veto_id, Some(veto));
    let record = a.get_veto_record(veto).unwrap();
    assert_eq!(record.action_type, "cancel");
    assert_eq!(record.vetoed_at, NOW + 1);
    assert_eq!(record.original_action_timestamp, NOW);
    assert_eq!(a.veto_sub_dao_action(MAIN, action, s("again"), NOW), Err(SubDaoError::InvalidState));
    assert_eq!(a.veto_sub_dao_action(MAIN, 77, s("?"), NOW), Err(SubDaoError::ActionNotFound));
    assert_eq!(a.get_veto_record(2), Err(SubDaoError::VetoNotFound));
}

#[test]
fn suspend_and_revoke() {
    let mut a = authority();
    a.grant_sub_dao_permissions(MAIN, MARKETING, s("Marketing"), PermissionLevel::Full, 100, None, NOW).unwrap();
    a.grant_sub_dao_permissions(MAIN, ENGINEERING, s("Marketing"), PermissionLevel::Full, 100, None, NOW).unwrap();
    a.assign_grant_to_sub_dao(MAIN, MARKETING, 5).unwrap();
    assert_eq!(a.unsuspend_sub_dao(MAIN, MARKETING), Err(SubDaoError::InvalidState));
    a.suspend_sub_dao(MAIN, MARKETING, s("audit")).unwrap();
    assert_eq!(a.get_sub_dao_permission(MARKETING).unwrap().status, SubDaoStatus::Suspended);
    assert_eq!(a.delegated_pause_grant(MARKETING, 5, s("x"), NOW), Err(SubDaoError::SubDaoSuspended));
    assert_eq!(a.assign_grant_to_sub_dao(MAIN, MARKETING, 6), Err(SubDaoError::SubDaoSuspended));
    a.unsuspend_sub_dao(MAIN, MARKETING).unwrap();
    assert!(a.delegated_pause_grant(MARKETING, 5, s("x"), NOW).is_ok());
    a.revoke_sub_dao_permissions(MAIN, MARKETING, s("done")).unwrap();
    assert_eq!(a.get_sub_dao_permission(MARKETING).unwrap().status, SubDaoStatus::Revoked);
    assert_eq!(a.get_department_sub_daos(s("Marketing")).unwrap(), vec![ENGINEERING]);
    assert_eq!(a.suspend_sub_dao(MAIN, MARKETING, s("x")), Err(SubDaoError::InvalidState));
    assert_eq!(a.delegated_pause_grant(MARKETING, 5, s("x"), NOW), Err(SubDaoError::SubDaoSuspended));
    assert_eq!(a.revoke_sub_dao_permissions(MAIN, Address(99), s("x")), Err(SubDaoError::SubDaoNotFound));
}
