use grant_contracts::dead_mans_switch::{DeadMansSwitchContract, SwitchError, INACTIVITY_PERIOD};
use grant_contracts::types::Address;

const DAY: u64 = 24 * 60 * 60;

fn setup() -> (DeadMansSwitchContract, Address, Address) {
    let admin = Address(1);
    let vault = Address(2);
    let switch = DeadMansSwitchContract::initialize(admin, vault, 0);
    (switch, admin, vault)
}

fn claim(switch: &mut DeadMansSwitchContract, vault: Address, now: u64) {
    if let Err(e) = switch.claim_admin(vault, now) {
        panic!("{}", e.message());
    }
}

#[test]
fn test_heartbeat_resets_countdown() {
    let (mut switch, admin, _vault) = setup();
    let now = 100 * DAY;
    switch.heartbeat(admin, now).unwrap();
    assert!(switch.time_until_recovery(now) > INACTIVITY_PERIOD - 10);
}

#[test]
#[should_panic(expected = "Inactivity period not yet elapsed")]
fn test_claim_before_180_days_panics() {
    let (mut switch, _admin, vault) = setup();
    claim(&mut switch, vault, 90 * DAY);
}

#[test]
fn test_claim_after_180_days_succeeds() {
    let (mut switch, _admin, vault) = setup();
    claim(&mut switch, vault, 181 * DAY);
    assert_eq!(switch.get_admin(), vault);
}

#[test]
#[should_panic(expected = "already been executed")]
fn test_double_claim_panics() {
    let (mut switch, _admin, vault) = setup();
    claim(&mut switch, vault, 181 * DAY);
    claim(&mut switch, vault, 181 * DAY);
}

#[test]
fn inactivity_period_is_180_days() {
    assert_eq!(INACTIVITY_PERIOD, 180 * DAY);
}

#[test]
fn claim_reports_remaining_seconds() {
    let (mut switch, _admin, vault) = setup();
    assert_eq!(
        switch.claim_admin(vault, 100 * DAY),
        Err(SwitchError::InactivityPeriodNotElapsed(80 * DAY))
    );
    assert_eq!(switch.get_admin(), Address(1));
}

#[test]
fn claim_at_exact_boundary_succeeds() {
    let (mut switch, _admin, vault) = setup();
    assert_eq!(switch.claim_admin(vault, INACTIVITY_PERIOD), Ok(()));
}

#[test]
fn only_the_vault_may_claim_and_only_the_admin_may_heartbeat() {
    let (mut switch, admin, vault) = setup();
    assert_eq!(switch.claim_admin(admin, 200 * DAY), Err(SwitchError::NotRecoveryVault));
    assert_eq!(switch.heartbeat(vault, DAY), Err(SwitchError::NotPrimaryAdmin));
    assert_eq!(switch.time_until_recovery(DAY), INACTIVITY_PERIOD - DAY);
}

#[test]
fn updating_the_vault_counts_as_activity() {
    let (mut switch, admin, vault) = setup();
    let new_vault = Address(3);
    switch.update_recovery_vault(admin, new_vault, 170 * DAY).unwrap();
    assert_eq!(switch.get_recovery_vault(), new_vault);
    assert_eq!(switch.claim_admin(vault, 200 * DAY), Err(SwitchError::NotRecoveryVault));
    assert!(switch.claim_admin(new_vault, 200 * DAY).is_err());
    assert_eq!(switch.claim_admin(new_vault, 350 * DAY), Ok(()));
    assert_eq!(switch.get_admin(), new_vault);
}
