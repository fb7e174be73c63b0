use grant_contracts::dispute_resolution::DisputeResolution;
use grant_contracts::types::Address;

const GOV: Address = Address(1);

#[test]
fn eligible_jurors_by_domain() {
    let mut d = DisputeResolution::new();
    d.set_governor(GOV);
    assert!(d.require_governance(GOV));
    assert!(!d.require_governance(Address(2)));
    d.add_juror(GOV, Address(10), vec![String::from("Rust"), String::from("Frontend")]);
    d.add_juror(GOV, Address(11), vec![String::from("Marketing")]);
    d.add_juror(GOV, Address(12), vec![String::from("Rust")]);
    // No juror list yet: nobody is eligible.
    assert!(d.get_eligible_jurors(String::from("Rust")).is_empty());
    d.set_jurors(vec![Address(12), Address(10), Address(11), Address(13)]);
    assert_eq!(d.get_eligible_jurors(String::from("Rust")), vec![Address(12), Address(10)]);
    assert_eq!(d.get_eligible_jurors(String::from("Marketing")), vec![Address(11)]);
    d.remove_juror(GOV, Address(12));
    assert_eq!(d.get_eligible_jurors(String::from("Rust")), vec![Address(10)]);
    assert!(d.get_eligible_jurors(String::from("Legal")).is_empty());
}

#[test]
fn disputes_are_recorded() {
    let mut d = DisputeResolution::new();
    d.trigger_dispute(Address(5), String::from("d-1"), String::from("Rust"), 77);
    assert_eq!(d.disputes.len(), 1);
    assert_eq!(d.disputes[0].dispute_id, "d-1");
    assert_eq!(d.disputes[0].domain_tag, "Rust");
    assert_eq!(d.disputes[0].initiator, Address(5));
    assert_eq!(d.disputes[0].timestamp, 77);
}
