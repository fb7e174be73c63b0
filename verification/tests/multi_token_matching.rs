use grant_contracts::matching::{
    MatchingPoolError, MultiTokenMatchingPool, SwapOutcome, TokenPrice, NATIVE_PRICE_PRECISION,
    PRICE_FEED_STALENESS_THRESHOLD,
};
use grant_contracts::types::Address;
use std::collections::HashMap;

const NOW: u64 = 1_000_000;

fn addr(n: u64) -> Address {
    Address(n)
}

fn set_price(pool: &mut MultiTokenMatchingPool, token: Address, price: u128, timestamp: u64, confidence: u32) {
    let feed = pool.price_feed.as_mut().unwrap();
    feed.token_prices.insert(
        token.0,
        TokenPrice {
            token_address: token,
            price_in_native: price,
            timestamp,
            confidence_bps: confidence,
            volume_24h: 1_000_000u128,
        },
    );
    feed.last_updated = timestamp;
}

fn pool_with_round(matching_pool: u128, tokens: Vec<Address>) -> (MultiTokenMatchingPool, Address, u64) {
    let mut pool = MultiTokenMatchingPool::new();
    let admin = addr(1);
    pool.initialize(admin, addr(2), addr(3)).unwrap();
    let round_id = pool
        .create_round(admin, matching_pool, NOW, NOW + 86400, tokens, 1000u128, 100_000u128, 1_000_000u128, NOW)
        .unwrap();
    pool.activate_round(admin, round_id, NOW).unwrap();
    (pool, admin, round_id)
}

#[test]
fn test_matching_pool_initialization() {
    let mut pool = MultiTokenMatchingPool::new();
    let admin = addr(1);
    let oracle = addr(2);
    let native_token = addr(3);
    pool.initialize(admin, oracle, native_token).unwrap();

    assert_eq!(pool.admin, Some(admin));
    let price_feed = pool.get_price_feed().unwrap();
    assert_eq!(price_feed.oracle_address, oracle);
    assert_eq!(pool.native_token, Some(native_token));
    assert_eq!(pool.next_round_id, 1);
    assert_eq!(pool.get_total_matching_pool().unwrap(), 0);
}

#[test]
fn test_matching_pool_double_initialization() {
    let mut pool = MultiTokenMatchingPool::new();
    pool.initialize(addr(1), addr(2), addr(3)).unwrap();
    let result = pool.initialize(addr(1), addr(2), addr(3));
    assert_eq!(result, Err(MatchingPoolError::NotInitialized));
}

#[test]
fn test_create_matching_round() {
    let mut pool = MultiTokenMatchingPool::new();
    let admin = addr(1);
    let native_token = addr(3);
    let usdc = addr(10);
    let xlm = addr(11);
    pool.initialize(admin, addr(2), native_token).unwrap();

    let start_time = NOW;
    let end_time = start_time + 86400 * 7;
    let matching_pool = 1_000_000u128;
    let round_id = pool.create_round(
        admin,
        matching_pool,
        start_time,
        end_time,
        vec![usdc, xlm],
        1000u128,
        100_000u128,
        1_000_000u128,
        NOW,
    );
    assert!(round_id.is_ok());
    assert_eq!(round_id.unwrap(), 1);

    let round = pool.get_round(1).unwrap();
    assert_eq!(round.round_id, 1);
    assert_eq!(round.matching_pool_amount, matching_pool);
    assert_eq!(round.start_time, start_time);
    assert_eq!(round.end_time, end_time);
    assert_eq!(round.native_token_address, native_token);
    assert_eq!(round.supported_tokens.len(), 2);
    assert!(!round.is_active);
    assert!(!round.matching_calculated);

    assert_eq!(pool.get_total_matching_pool().unwrap(), matching_pool);
}

#[test]
fn test_create_round_invalid_config() {
    let mut pool = MultiTokenMatchingPool::new();
    let admin = addr(1);
    pool.initialize(admin, addr(2), addr(3)).unwrap();
    let start_time = NOW;
    let end_time = start_time - 1000;
    let result = pool.create_round(admin, 1_000_000u128, start_time, end_time, Vec::new(), 1000u128, 100_000u128, 1_000_000u128, NOW);
    assert_eq!(result, Err(MatchingPoolError::InvalidRoundConfig));
}

#[test]
fn test_activate_round() {
    let mut pool = MultiTokenMatchingPool::new();
    let admin = addr(1);
    pool.initialize(admin, addr(2), addr(3)).unwrap();
    let start_time = NOW + 3600;
    let end_time = start_time + 86400 * 7;
    let round_id = pool
        .create_round(admin, 1_000_000u128, start_time, end_time, Vec::new(), 1000u128, 100_000u128, 1_000_000u128, NOW)
        .unwrap();

    pool.activate_round(admin, round_id, NOW).unwrap();
    let round = pool.get_round(round_id).unwrap();
    assert!(round.is_active);
    assert_eq!(pool.active_round, Some(round_id));
}

#[test]
fn test_donation_invalid_amount() {
    let usdc = addr(10);
    let (mut pool, _, round_id) = pool_with_round(1_000_000, vec![usdc]);
    set_price(&mut pool, usdc, 1_000_000u128, NOW, 9500);

    let donor = addr(20);
    let result = pool.donate(donor, round_id, 123u64, usdc, 500u128, NOW);
    assert_eq!(result, Err(MatchingPoolError::InvalidAmount));
    let result = pool.donate(donor, round_id, 123u64, usdc, 200_000u128, NOW);
    assert_eq!(result, Err(MatchingPoolError::InvalidAmount));
}

#[test]
fn test_donation_invalid_token() {
    let usdc = addr(10);
    let unsupported_token = addr(11);
    let (mut pool, _, round_id) = pool_with_round(1_000_000, vec![usdc]);
    let result = pool.donate(addr(20), round_id, 123u64, unsupported_token, 10_000u128, NOW);
    assert_eq!(result, Err(MatchingPoolError::InvalidToken));
}

#[test]
fn test_price_feed_stale() {
    let usdc = addr(10);
    let (mut pool, _, round_id) = pool_with_round(1_000_000, vec![usdc]);
    let stale_timestamp = NOW - PRICE_FEED_STALENESS_THRESHOLD - 100;
    set_price(&mut pool, usdc, 1_000_000u128, stale_timestamp, 9500);
    let result = pool.donate(addr(21), round_id, 123u64, usdc, 10_000u128, NOW);
    assert_eq!(result, Err(MatchingPoolError::PriceFeedStale));
}

#[test]
fn test_high_volatility_protection() {
    let usdc = addr(10);
    let (mut pool, _, round_id) = pool_with_round(1_000_000, vec![usdc]);
    set_price(&mut pool, usdc, 1_000_000u128, NOW, 8000);
    let result = pool.donate(addr(21), round_id, 123u64, usdc, 10_000u128, NOW);
    assert_eq!(result, Err(MatchingPoolError::HighVolatility));
}

#[test]
fn test_quadratic_matching_calculation() {
    let test_values = vec![
        (0u128, 0u128),
        (1u128, 1u128),
        (4u128, 2u128),
        (9u128, 3u128),
        (16u128, 4u128),
        (25u128, 5u128),
        (100u128, 10u128),
        (10000u128, 100u128),
        (1000000u128, 1000u128),
    ];
    for (input, expected) in test_values {
        let result = MultiTokenMatchingPool::integer_square_root(input).unwrap();
        assert_eq!(result, expected, "Failed for input: {}", input);
    }
}

#[test]
fn test_round_edge_cases() {
    let mut pool = MultiTokenMatchingPool::new();
    pool.initialize(addr(1), addr(2), addr(3)).unwrap();
    assert_eq!(pool.get_round(999).err(), Some(MatchingPoolError::RoundNotFound));
    assert_eq!(pool.get_project_donations(1, 999).err(), Some(MatchingPoolError::RoundNotFound));
    assert_eq!(pool.get_user_donations(addr(50), 1).len(), 0);
    assert_eq!(pool.get_token_price(addr(51)), Err(MatchingPoolError::InvalidToken));
}

#[test]
fn donations_are_valued_by_price_and_grouped_by_project_and_donor() {
    let usdc = addr(10);
    let (mut pool, _, round_id) = pool_with_round(1_000_000, vec![usdc]);
    // A price of one native unit per token.
    set_price(&mut pool, usdc, NATIVE_PRICE_PRECISION, NOW, 9500);
    assert_eq!(pool.normalize_token_value(usdc, 10_000, NOW), Ok(10_000_000_000));

    let (donor1, donor2) = (addr(20), addr(21));
    pool.donate(donor1, round_id, 123, usdc, 10_000, NOW).unwrap();
    pool.donate(donor2, round_id, 123, usdc, 5_000, NOW).unwrap();
    pool.donate(donor1, round_id, 123, usdc, 2_000, NOW).unwrap();

    let project = pool.get_project_donations(round_id, 123).unwrap();
    assert_eq!(project.project_id, 123);
    assert_eq!(project.total_normalized_value, 17_000_000_000);
    assert_eq!(project.unique_donors, 2);
    assert_eq!(project.donations.len(), 3);
    assert_eq!(pool.get_user_donations(donor1, round_id).len(), 2);
    assert_eq!(pool.get_user_donations(donor2, round_id)[0].amount, 5_000);
    assert_eq!(pool.get_round(round_id).unwrap().total_donations, 17_000_000_000);
}

#[test]
fn donations_beyond_twice_the_matching_pool_are_refused() {
    let usdc = addr(10);
    let (mut pool, _, round_id) = pool_with_round(10_000, vec![usdc]);
    set_price(&mut pool, usdc, NATIVE_PRICE_PRECISION, NOW, 9500);
    pool.donate(addr(20), round_id, 1, usdc, 15_000, NOW).unwrap();
    assert_eq!(pool.donate(addr(21), round_id, 1, usdc, 6_000, NOW), Err(MatchingPoolError::OverAllocationRisk));
    assert!(pool.donate(addr(21), round_id, 1, usdc, 5_000, NOW).is_ok());
}

#[test]
fn donations_outside_the_round_period_or_round_are_refused() {
    let usdc = addr(10);
    let (mut pool, admin, round_id) = pool_with_round(1_000_000, vec![usdc]);
    set_price(&mut pool, usdc, NATIVE_PRICE_PRECISION, NOW, 9500);
    assert_eq!(pool.donate(addr(20), round_id, 1, usdc, 5_000, NOW - 1), Err(MatchingPoolError::DonationPeriodEnded));
    assert_eq!(pool.donate(addr(20), 77, 1, usdc, 5_000, NOW), Err(MatchingPoolError::RoundNotFound));
    // A second round cannot be activated while the first is active.
    let second = pool
        .create_round(admin, 1, NOW, NOW + 10, vec![usdc], 1, 10, 1, NOW)
        .unwrap();
    assert_eq!(pool.activate_round(admin, second, NOW), Err(MatchingPoolError::RoundNotActive));
    assert_eq!(pool.donate(addr(20), second, 1, usdc, 5, NOW), Err(MatchingPoolError::RoundNotActive));
    assert_eq!(pool.activate_round(addr(99), second, NOW), Err(MatchingPoolError::Unauthorized));
}

#[test]
fn quadratic_matching_shares_by_square_roots() {
    // Totals 1 and 4 weigh sqrt(1e6) = 1000 and sqrt(4e6) = 2000.
    let shares = MultiTokenMatchingPool::calculate_quadratic_matching(&vec![1, 4, 0], 3_000, 1_000_000);
    assert_eq!(shares, vec![Some(1_000), Some(2_000), None]);
    let none = MultiTokenMatchingPool::calculate_quadratic_matching(&vec![0, 0], 3_000, 1_000_000);
    assert_eq!(none, vec![None, None]);
}

#[test]
fn calculate_and_distribute_matching_on_an_inactive_round() {
    let mut pool = MultiTokenMatchingPool::new();
    let admin = addr(1);
    pool.initialize(admin, addr(2), addr(3)).unwrap();
    let round_id = pool
        .create_round(admin, 1_000, NOW, NOW + 10, Vec::new(), 1, 10, 1_000_000, NOW)
        .unwrap();
    assert_eq!(pool.distribute_matching(admin, round_id), Err(MatchingPoolError::MatchingAlreadyCalculated));
    pool.calculate_matching(admin, round_id).unwrap();
    assert!(pool.get_round(round_id).unwrap().matching_calculated);
    assert_eq!(pool.calculate_matching(admin, round_id), Err(MatchingPoolError::MatchingAlreadyCalculated));
    assert_eq!(pool.distribute_matching(admin, round_id), Ok(vec![]));
}

#[test]
fn dex_quotes_and_slippage_protected_swaps() {
    let (mut pool, admin, round_id) = pool_with_round(1_000_000, vec![]);
    let (a, b) = (addr(1), addr(2));
    let spread = pool.query_dex_spread(a, b, NOW).unwrap();
    assert_eq!(spread.spread_bps, 71);
    assert_eq!(spread.bid_price, 9_929_000_000_000_000);
    assert_eq!(spread.ask_price, 10_071_000_000_000_000);
    assert_eq!(spread.dex_source, "stellar_dex_v1");
    assert_eq!(pool.slippage_guard.as_ref().unwrap().dex_query_count, 1);

    // Asking for the expected output leaves no slippage: the swap goes through.
    assert_eq!(
        pool.execute_swap_with_protection(round_id, a, b, 1_000, 1_007, NOW, 5_000),
        Ok(SwapOutcome::Executed(1_007))
    );
    // Without the tokens the swap cannot go through.
    assert_eq!(
        pool.execute_swap_with_protection(round_id, a, b, 1_000, 1_007, NOW, 10),
        Err(MatchingPoolError::InsufficientLiquidity)
    );
    // Accepting 900 allows 10.6% slippage, over the 1% limit: the swap waits.
    assert_eq!(
        pool.execute_swap_with_protection(round_id, a, b, 1_000, 900, NOW, 5_000),
        Ok(SwapOutcome::Queued(1))
    );
    let queued = pool.get_queued_swaps(round_id).unwrap();
    assert_eq!(queued.len(), 1);
    assert_eq!(queued[0].expires_at, NOW + 3600);
    assert_eq!(pool.slippage_guard.as_ref().unwrap().total_queued_amount, 1_000);

    // With queuing off, the same swap is refused.
    pool.configure_slippage_protection(admin, 100, false, 1000, 8000, 3600).unwrap();
    assert_eq!(
        pool.execute_swap_with_protection(round_id, a, b, 1_000, 900, NOW, 5_000),
        Err(MatchingPoolError::SlippageExceedsThreshold)
    );
}

#[test]
fn queued_swaps_retry_then_leave_the_queue() {
    let (mut pool, admin, round_id) = pool_with_round(1_000_000, vec![]);
    let (a, b) = (addr(1), addr(2));
    pool.queue_swap(round_id, a, b, 1_000, 900, NOW).unwrap();
    pool.configure_slippage_protection(admin, 100, false, 1000, 8000, 3600).unwrap();
    let balances: HashMap<u64, i128> = HashMap::new();

    // Still over the limit: two retries keep it queued, the third drops it.
    assert_eq!(pool.process_queued_swaps(admin, NOW + 1, &balances), Ok(vec![]));
    assert_eq!(pool.get_queued_swaps(round_id).unwrap()[0].retry_count, 1);
    assert_eq!(pool.process_queued_swaps(admin, NOW + 2, &balances), Ok(vec![]));
    assert_eq!(pool.get_queued_swaps(round_id).unwrap()[0].retry_count, 2);
    assert_eq!(pool.process_queued_swaps(admin, NOW + 3, &balances), Ok(vec![]));
    assert_eq!(pool.get_queued_swaps(round_id).unwrap().len(), 0);
    assert_eq!(pool.slippage_guard.as_ref().unwrap().total_queued_amount, 0);
}

#[test]
fn queued_swaps_execute_or_expire() {
    let (mut pool, admin, round_id) = pool_with_round(1_000_000, vec![]);
    let (a, b) = (addr(1), addr(2));
    let first = pool.queue_swap(round_id, a, b, 1_000, 1_007, NOW).unwrap();
    let second = pool.queue_swap(round_id, a, b, 1_000, 1_007, NOW + 100).unwrap();
    let mut balances: HashMap<u64, i128> = HashMap::new();
    balances.insert(a.0, 10_000);

    // The first has expired; the second goes through.
    assert_eq!(pool.process_queued_swaps(admin, NOW + 3601, &balances), Ok(vec![second]));
    assert_ne!(first, second);
    assert_eq!(pool.get_queued_swaps(round_id).unwrap().len(), 0);
    assert_eq!(pool.process_queued_swaps(addr(5), NOW, &balances), Err(MatchingPoolError::Unauthorized));
}

#[test]
fn test_make_donation() {
    let usdc = addr(10);
    let (mut pool, _, round_id) = pool_with_round(1_000_000, vec![usdc]);
    set_price(&mut pool, usdc, 1_000_000u128, NOW, 9500);
    let donor = addr(20);
    let project_id = 123u64;
    let donation_amount = 10_000u128;
    pool.donate(donor, round_id, project_id, usdc, donation_amount, NOW).unwrap();

    let project_donations = pool.get_project_donations(round_id, project_id).unwrap();
    assert_eq!(project_donations.project_id, project_id);
    assert_eq!(project_donations.total_normalized_value, 10_000_000_000u128);
    assert_eq!(project_donations.unique_donors, 1);
    assert_eq!(project_donations.donations.len(), 1);

    let user_donations = pool.get_user_donations(donor, round_id);
    assert_eq!(user_donations.len(), 1);
    assert_eq!(user_donations[0].amount, donation_amount);
}

#[test]
fn test_over_allocation_protection() {
    let usdc = addr(10);
    let matching_pool = 100_000u128;
    let (mut pool, _, round_id) = pool_with_round(matching_pool, vec![usdc]);
    set_price(&mut pool, usdc, 1_000_000u128, NOW, 9500);
    let large_donation = 300_000u128;
    let result = pool.donate(addr(20), round_id, 123u64, usdc, large_donation, NOW);
    assert_eq!(result, Err(MatchingPoolError::OverAllocationRisk));
    assert!(pool.get_project_donations(round_id, 123).is_err());
    assert_eq!(pool.get_round(round_id).unwrap().total_donations, 0);
}

#[test]
fn test_donation_period_validation() {
    let usdc = addr(10);
    let mut pool = MultiTokenMatchingPool::new();
    let admin = addr(1);
    pool.initialize(admin, addr(2), addr(3)).unwrap();

    let future_start_time = NOW + 3600;
    let future_end_time = future_start_time + 86400;
    let round_id = pool
        .create_round(admin, 1_000_000u128, future_start_time, future_end_time, vec![usdc], 1000u128, 100_000u128, 1_000_000u128, NOW)
        .unwrap();
    pool.activate_round(admin, round_id, NOW).unwrap();
    set_price(&mut pool, usdc, 1_000_000u128, NOW, 9500);

    let result = pool.donate(addr(20), round_id, 123u64, usdc, 10_000u128, NOW);
    assert_eq!(result, Err(MatchingPoolError::DonationPeriodEnded));
}

#[test]
fn quadratic_matching_never_hands_out_more_than_the_pool() {
    let totals = vec![3, 7, 11, 0, 250];
    let shares = MultiTokenMatchingPool::calculate_quadratic_matching(&totals, 10_007, 1_000_000);
    let handed_out: u128 = shares.iter().map(|s| s.unwrap_or(0)).sum();
    assert!(handed_out <= 10_007);
    assert!(handed_out > 9_990);
    assert_eq!(shares[3], None);
}
