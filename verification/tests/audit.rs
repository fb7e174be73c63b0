use grant_contracts::audit::{
    audit_checklist, get_admin_functions, get_critical_functions, get_reentrancy_protected_functions,
    get_security_requirement, AuthType, SecurityControl, SecurityLevel, ThreatCategory,
};

#[test]
fn example_withdraw_security_check() {
    let security = get_security_requirement("withdraw").unwrap();

    assert!(matches!(security.level, SecurityLevel::Medium));
    assert!(matches!(security.auth_required, AuthType::Recipient));
    assert!(security.controls.contains(&SecurityControl::ReentrancyGuard));
    assert!(security.controls.contains(&SecurityControl::CircuitBreaker));
    assert!(security.threats.contains(&ThreatCategory::Reentrancy));

    println!("Withdraw function security: {:?}", security);
}

#[test]
fn example_critical_functions_audit() {
    let critical = get_critical_functions();

    for func in critical {
        let security = get_security_requirement(func).unwrap();
        assert!(matches!(security.level, SecurityLevel::Critical));
        println!("Critical function: {} - {:?}", func, security.level);
    }
}

#[test]
fn example_audit_checklist() {
    let checklist = audit_checklist();
    assert_eq!(checklist.len(), 16);

    for item in checklist {
        println!("Audit checklist item: {}", item);
    }
}

#[test]
fn unknown_function_has_no_requirement() {
    assert!(get_security_requirement("transfer").is_none());
    assert!(get_security_requirement("").is_none());
    assert!(get_security_requirement("withdra").is_none());
}

#[test]
fn admin_functions_need_admin_auth() {
    for func in get_admin_functions() {
        let security = get_security_requirement(func).unwrap();
        assert!(matches!(security.auth_required, AuthType::Admin | AuthType::AdminMultiSig));
    }
}

#[test]
fn reentrancy_protected_functions_are_guarded() {
    let funcs = get_reentrancy_protected_functions();
    assert_eq!(funcs, vec!["withdraw", "rage_quit"]);
    for func in funcs {
        let security = get_security_requirement(func).unwrap();
        assert!(security.controls.contains(&SecurityControl::ReentrancyGuard));
    }
}

#[test]
fn settle_grant_requirement_profile() {
    let security = get_security_requirement("settle_grant").unwrap();
    assert_eq!(security.level, SecurityLevel::High);
    assert_eq!(security.auth_required, AuthType::NoneRequired);
    assert_eq!(security.controls, vec![SecurityControl::OverflowProtection, SecurityControl::LegalCompliance]);
    assert_eq!(security.audit_refs.len(), 3);
}

#[test]
fn admin_list_names_every_admin_function() {
    let admin = get_admin_functions();
    assert!(admin.contains(&"confirm_oracle_price"));
    for name in ["withdraw", "rage_quit", "submit_oracle_price", "settle_grant", "confirm_oracle_price", "initialize"] {
        let needs_admin = matches!(
            get_security_requirement(name).unwrap().auth_required,
            AuthType::Admin | AuthType::AdminMultiSig
        );
        assert_eq!(admin.contains(&name), needs_admin, "{}", name);
    }
}
