use grant_contracts::multi_asset_pool::MultiAssetPools;
use grant_contracts::types::Address;

const XLM: Address = Address(1);
const USDC: Address = Address(2);
const ORACLE: Address = Address(9);
const GRANTEE: Address = Address(5);

fn balances(p: &MultiAssetPools, id: &str) -> Vec<(Address, i128)> {
    p.pools.iter().find(|x| x.pool_id == id).unwrap().balances.clone()
}

#[test]
fn deposits_accumulate_per_asset() {
    let mut p = MultiAssetPools::new();
    p.deposit(String::from("a"), XLM, 100, ORACLE);
    p.deposit(String::from("a"), USDC, 50, ORACLE);
    p.deposit(String::from("a"), XLM, 20, ORACLE);
    p.deposit(String::from("b"), XLM, 7, ORACLE);
    assert_eq!(balances(&p, "a"), vec![(XLM, 120), (USDC, 50)]);
    assert_eq!(balances(&p, "b"), vec![(XLM, 7)]);
    assert_eq!(p.pools.len(), 2);
}

#[test]
fn single_asset_withdrawal_uses_rate() {
    let mut p = MultiAssetPools::new();
    p.deposit(String::from("a"), XLM, 1_000, ORACLE);
    p.set_rate(XLM, 5);
    p.withdraw(String::from("a"), GRANTEE, 100, Some(XLM));
    assert_eq!(balances(&p, "a"), vec![(XLM, 500)]);
}

#[test]
fn basket_withdrawal_is_pro_rata() {
    let mut p = MultiAssetPools::new();
    p.deposit(String::from("a"), XLM, 600, ORACLE);
    p.deposit(String::from("a"), USDC, 400, ORACLE);
    // Total value 1000 at rate one: withdrawing 100 takes 10% of each.
    p.withdraw(String::from("a"), GRANTEE, 100, None);
    assert_eq!(balances(&p, "a"), vec![(XLM, 540), (USDC, 360)]);
}
