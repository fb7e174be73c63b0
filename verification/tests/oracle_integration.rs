use grant_contracts::oracle::{
    GrantStreamOracle, OracleError, MAX_STALENESS_SECONDS, PRICE_SCALING_FACTOR,
};
use grant_contracts::types::Address;

const XLM: Address = Address(10);
const USDC: Address = Address(11);

#[test]
fn test_fresh_price_at_boundary_succeeds() {
    let now: u64 = 10_000;
    let ts = now - MAX_STALENESS_SECONDS;
    assert!(GrantStreamOracle::verify_price_freshness(now, ts).is_ok());
}

#[test]
fn test_stale_price_one_second_over_threshold_reverts() {
    let now: u64 = 10_000;
    let ts = now - MAX_STALENESS_SECONDS - 1;
    assert_eq!(
        GrantStreamOracle::verify_price_freshness(now, ts),
        Err(OracleError::StalePriceData)
    );
}

#[test]
fn test_very_old_price_reverts() {
    assert_eq!(
        GrantStreamOracle::verify_price_freshness(1_000_000, 0),
        Err(OracleError::StalePriceData)
    );
}

#[test]
fn test_current_timestamp_always_fresh() {
    let now: u64 = 99_999;
    assert!(GrantStreamOracle::verify_price_freshness(now, now).is_ok());
}

#[test]
fn test_future_timestamp_not_stale() {
    let now: u64 = 5_000;
    assert!(GrantStreamOracle::verify_price_freshness(now, now + 100).is_ok());
}

#[test]
fn test_staleness_boundary_sweep() {
    let now: u64 = 100_000;
    for age in 0..=MAX_STALENESS_SECONDS {
        let ts = now - age;
        assert!(
            GrantStreamOracle::verify_price_freshness(now, ts).is_ok(),
            "age={age} should be fresh"
        );
    }
    let stale_ts = now - MAX_STALENESS_SECONDS - 1;
    assert_eq!(
        GrantStreamOracle::verify_price_freshness(now, stale_ts),
        Err(OracleError::StalePriceData),
        "age={} should be stale",
        MAX_STALENESS_SECONDS + 1
    );
}

fn oracle_with_xlm_price(price: i128, ts: u64) -> GrantStreamOracle {
    let mut o = GrantStreamOracle::new();
    o.update_price_feed(XLM, USDC, price, ts, 6).unwrap();
    o
}

#[test]
fn update_price_feed_refuses_bad_input() {
    let mut o = GrantStreamOracle::new();
    assert_eq!(o.update_price_feed(XLM, USDC, 0, 1, 6), Err(OracleError::InvalidPrice));
    assert_eq!(o.update_price_feed(XLM, USDC, -5, 1, 6), Err(OracleError::InvalidPrice));
    assert_eq!(o.update_price_feed(XLM, XLM, 5, 1, 6), Err(OracleError::InvalidAssets));
    assert_eq!(o.get_price(XLM, USDC), Err(OracleError::OracleNotFound));
}

#[test]
fn get_price_direct_and_inverse() {
    let o = oracle_with_xlm_price(250_000, 1000);
    let direct = o.get_price(XLM, USDC).unwrap();
    assert_eq!(direct.price, 250_000);
    assert_eq!(direct.timestamp, 1000);
    let inverse = o.get_price(USDC, XLM).unwrap();
    assert_eq!(inverse.price, PRICE_SCALING_FACTOR * PRICE_SCALING_FACTOR / 250_000);
    assert_eq!(inverse.price, 4_000_000);
    assert_eq!(inverse.base_asset, USDC);
    assert_eq!(inverse.quote_asset, XLM);
    assert_eq!(o.get_timestamp(USDC, XLM), Ok(1000));
}

#[test]
fn current_price_refuses_stale_feed() {
    let o = oracle_with_xlm_price(250_000, 1000);
    assert!(o.get_current_price(XLM, USDC, 1000 + MAX_STALENESS_SECONDS).is_ok());
    assert_eq!(
        o.get_current_price(XLM, USDC, 1001 + MAX_STALENESS_SECONDS),
        Err(OracleError::StalePriceData)
    );
}

#[test]
fn conversions_use_fixed_point_price() {
    let o = oracle_with_xlm_price(250_000, 1000);
    assert_eq!(o.convert_usd_to_xlm(100, XLM, USDC, 1000), Ok(400));
    assert_eq!(o.convert_xlm_to_usd(400, XLM, USDC, 1000), Ok(100));
    assert_eq!(o.convert_usd_to_xlm(0, XLM, USDC, 1000), Err(OracleError::InvalidAmount));
    assert_eq!(o.convert_xlm_to_usd(-1, XLM, USDC, 1000), Err(OracleError::InvalidAmount));
    assert_eq!(
        o.convert_usd_to_xlm(i128::MAX, XLM, USDC, 1000),
        Err(OracleError::MathOverflow)
    );
    assert_eq!(
        o.convert_usd_to_xlm(100, XLM, USDC, 100_000),
        Err(OracleError::StalePriceData)
    );
}
