use grant_contracts::batch_purge::{GrantArchive, GrantLifecycle, PURGE_DELAY};
use grant_contracts::types::Address;
use std::collections::HashMap;

const CALLER: Address = Address(8);

fn record(id: &str, completed: Option<u64>, cancelled: Option<u64>, hash: Option<&str>) -> GrantLifecycle {
    GrantLifecycle {
        grant_id: String::from(id),
        completed_ts: completed,
        cancelled_ts: cancelled,
        final_hash: hash.map(String::from),
        milestones_stored: true,
        details_stored: true,
        archived: None,
    }
}

#[test]
fn purges_only_old_grants_and_pays_bounty() {
    let now = 100 + PURGE_DELAY + 1;
    let mut a = GrantArchive {
        grants: Some(vec![String::from("g1"), String::from("g2"), String::from("g3"), String::from("g4")]),
        records: vec![
            record("g1", Some(100), None, Some("h1")),
            record("g2", None, Some(50), None),
            record("g3", Some(200), None, Some("h3")),
            record("g4", None, None, None),
        ],
        balances: HashMap::new(),
    };
    a.batch_purge(CALLER, now);
    let g1 = &a.records[0];
    assert!(!g1.milestones_stored && !g1.details_stored);
    let arch = g1.archived.as_ref().unwrap();
    assert_eq!(arch.final_state_hash, "h1");
    assert_eq!(arch.purge_timestamp, now);
    assert_eq!(arch.purged_by, CALLER);
    assert_eq!(a.records[1].archived.as_ref().unwrap().final_state_hash, "");
    assert!(a.records[2].archived.is_none());
    assert!(a.records[2].details_stored);
    assert!(a.records[3].archived.is_none());
    assert_eq!(a.balances.get(&CALLER.0), Some(&20));
}

#[test]
fn nothing_without_grant_list() {
    let mut a = GrantArchive { grants: None, records: vec![record("g1", Some(0), None, None)], balances: HashMap::new() };
    a.batch_purge(CALLER, PURGE_DELAY + 10);
    assert!(a.records[0].archived.is_none());
    assert!(a.balances.is_empty());
}
