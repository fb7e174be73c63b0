use grant_contracts::awards::AwardContract;
use grant_contracts::types::Address;

const RECIPIENT: Address = Address(3);

#[test]
fn award_streams_remainder() {
    let mut c = AwardContract::new();
    let id = c.create_award(RECIPIENT, 1_000_000, 100_000, 900, 5_000);
    assert_eq!(id, 1);
    let a = c.get_award(id).unwrap();
    assert_eq!(a.remaining_balance, 900_000);
    assert_eq!(a.flow_rate_per_second, 1000);
    assert_eq!(a.start_time, 5_000);
    assert_eq!(c.claimable(id, 5_000), 0);
    assert_eq!(c.claimable(id, 5_100), 100_000);
    // Past the duration the claimable amount stops growing.
    assert_eq!(c.claimable(id, 10_000), 900_000);
    assert_eq!(c.claimable(99, 10_000), 0);
    assert!(c.get_award(99).is_none());
}

#[test]
fn award_without_stream() {
    let mut c = AwardContract::new();
    let a = c.create_award(RECIPIENT, 500, 500, 100, 0);
    let b = c.create_award(RECIPIENT, 500, 0, 0, 0);
    assert_eq!(b, a + 1);
    assert_eq!(c.get_award(a).unwrap().flow_rate_per_second, 0);
    assert_eq!(c.get_award(b).unwrap().flow_rate_per_second, 0);
    assert_eq!(c.claimable(b, 1_000), 0);
}
