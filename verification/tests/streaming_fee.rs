use grant_contracts::streaming_fee::StreamingFee;
use grant_contracts::types::Address;

const GOV: Address = Address(1);
const TREASURY: Address = Address(2);
const USER: Address = Address(3);
const VIP: Address = Address(4);

fn configured() -> StreamingFee {
    let mut f = StreamingFee::new();
    f.set_governor(GOV);
    f.set_treasury(GOV, TREASURY);
    f
}

#[test]
fn fee_is_taken_and_credited() {
    let mut f = configured();
    assert_eq!(f.apply_streaming_fee(USER, 10_000), (10_000, 0));
    f.set_platform_fee(GOV, 250);
    assert_eq!(f.apply_streaming_fee(USER, 10_000), (9_750, 250));
    assert_eq!(f.apply_streaming_fee(USER, 399), (390, 9));
    assert_eq!(f.balances.get(&TREASURY.0), Some(&259));
}

#[test]
fn exemptions() {
    let mut f = configured();
    f.set_platform_fee(GOV, 1000);
    assert!(f.require_governance(GOV));
    assert!(!f.require_governance(USER));
    f.add_fee_exemption(GOV, VIP);
    f.add_fee_exemption(GOV, VIP);
    assert_eq!(f.exemptions, vec![VIP]);
    assert_eq!(f.apply_streaming_fee(VIP, 1_000), (1_000, 0));
    f.remove_fee_exemption(GOV, VIP);
    assert!(f.exemptions.is_empty());
    assert_eq!(f.apply_streaming_fee(VIP, 1_000), (900, 100));
}
