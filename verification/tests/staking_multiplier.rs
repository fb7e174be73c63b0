use grant_contracts::staking::{
    Donation, StakingMultiplierContract, StakingMultiplierError, WeightedProjectDonations,
};
use grant_contracts::types::Address;

const ADMIN: Address = Address(1);
const VAULT: Address = Address(2);
const TOKEN: Address = Address(3);
const NOW: u64 = 1_000_000;

fn contract() -> StakingMultiplierContract {
    let mut c = StakingMultiplierContract::new();
    c.initialize(ADMIN, VAULT).unwrap();
    c.add_project_token(ADMIN, TOKEN).unwrap();
    c
}

fn donation(donor: Address, value: u128) -> Donation {
    Donation {
        donor,
        token_address: TOKEN,
        amount: value,
        normalized_value: value,
        timestamp: NOW,
        round_id: 1,
        project_id: 7,
    }
}

fn project(id: u64, weighted_total: u128) -> WeightedProjectDonations {
    WeightedProjectDonations {
        project_id: id,
        base_total: weighted_total,
        weighted_total,
        unique_donors: 1,
        weighted_donations: Vec::new(),
        matching_amount: 0,
        final_payout: 0,
        total_boost_applied: 0,
    }
}

#[test]
fn boost_tiers() {
    assert_eq!(StakingMultiplierContract::calculate_boost_multiplier(0), 1_000_000);
    assert_eq!(StakingMultiplierContract::calculate_boost_multiplier(99_999), 1_000_000);
    assert_eq!(StakingMultiplierContract::calculate_boost_multiplier(100_000), 1_200_000);
    assert_eq!(StakingMultiplierContract::calculate_boost_multiplier(1_000_000), 1_500_000);
    assert_eq!(StakingMultiplierContract::calculate_boost_multiplier(10_000_000), 2_000_000);
    assert_eq!(StakingMultiplierContract::calculate_boost_multiplier(100_000_000), 3_000_000);
    assert_eq!(StakingMultiplierContract::calculate_boost_multiplier(u128::MAX), 3_000_000);
    assert_eq!(StakingMultiplierContract::integer_square_root(1_000_000), Ok(1000));
}

#[test]
fn initialization_and_tokens() {
    let mut c = StakingMultiplierContract::new();
    assert_eq!(c.add_project_token(ADMIN, TOKEN), Err(StakingMultiplierError::NotInitialized));
    c.initialize(ADMIN, VAULT).unwrap();
    assert_eq!(c.initialize(ADMIN, VAULT), Err(StakingMultiplierError::NotInitialized));
    assert_eq!(c.add_project_token(Address(9), TOKEN), Err(StakingMultiplierError::Unauthorized));
    assert_eq!(c.get_vesting_vault_contract(), Ok(VAULT));
    assert_eq!(
        c.query_vesting_stake(Address(200), TOKEN, NOW),
        Err(StakingMultiplierError::InvalidProjectToken)
    );
}

#[test]
fn query_caches_stake_for_a_day() {
    let mut c = contract();
    // Donor 200 reports a stake of 200 * 10000 = 2_000_000: a 1.5x boost.
    assert_eq!(c.query_vesting_stake(Address(200), TOKEN, NOW), Ok(1_500_000));
    let info = c.get_cached_staking_info(Address(200), TOKEN).unwrap();
    assert_eq!(info.staked_amount, 2_000_000);
    assert_eq!(info.weight_multiplier, 1_500_000);
    assert_eq!(info.vesting_end_time, NOW + 2_592_000);
    // Donor 5 reports 50_000: no boost.
    assert_eq!(c.get_donor_staking_weight(Address(5), TOKEN, NOW + 10), Ok(1_000_000));
    assert_eq!(c.clear_expired_cache(NOW + 100), Ok(0));
    assert_eq!(c.clear_expired_cache(NOW + 10 + 86_400), Ok(1));
    assert!(c.get_cached_staking_info(Address(200), TOKEN).is_some());
}

#[test]
fn weights_apply_to_donations() {
    let mut c = contract();
    let donations = vec![donation(Address(200), 1_000_000), donation(Address(5), 400)];
    let weighted = c.apply_staking_weights(&donations, TOKEN, NOW).unwrap();
    assert_eq!(weighted.len(), 2);
    assert_eq!(weighted[0].staking_weight, 1_500_000);
    assert_eq!(weighted[0].weighted_amount, 1_500_000);
    assert_eq!(weighted[0].boost_multiplier, 1_500_000);
    assert_eq!(weighted[0].staking_info.unwrap().donor, Address(200));
    assert_eq!(weighted[1].staking_weight, 1_000_000);
    assert_eq!(weighted[1].weighted_amount, 400);
    // The boost is read off the weight itself: a 1.0x weight (1_000_000)
    // falls in the 1.5x tier.
    assert_eq!(weighted[1].boost_multiplier, 1_500_000);
}

#[test]
fn weights_refused_for_unsupported_token() {
    let mut c = contract();
    let donations = vec![donation(Address(200), 10)];
    assert_eq!(
        c.apply_staking_weights(&donations, Address(99), NOW),
        Err(StakingMultiplierError::InvalidProjectToken)
    );
    let big = vec![donation(Address(200), u128::MAX / 2)];
    assert_eq!(
        c.apply_staking_weights(&big, TOKEN, NOW),
        Err(StakingMultiplierError::MathOverflow)
    );
    // Nothing was cached by the refused call.
    assert!(c.get_cached_staking_info(Address(200), TOKEN).is_none());
}

#[test]
fn weighted_matching_shares_pool() {
    let projects = vec![project(1, 100), project(2, 400), project(3, 0)];
    let m = StakingMultiplierContract::calculate_weighted_matching(&projects, 3_000_000_000, 1).unwrap();
    assert_eq!(m, vec![(1, 1000), (2, 2000)]);
}

#[test]
fn weighted_matching_never_exceeds_pool() {
    let projects = vec![project(1, 100), project(2, 400)];
    let pool: u128 = 3_000_000_000;
    let m = StakingMultiplierContract::calculate_weighted_matching(&projects, pool, 2_000_000).unwrap();
    assert_eq!(m, vec![(1, 2_000_000_000), (2, 1_000_000_000)]);
    let total: u128 = m.iter().map(|(_, a)| *a).sum();
    assert!(total <= pool);
    let empty = StakingMultiplierContract::calculate_weighted_matching(&vec![project(4, 0)], pool, 1).unwrap();
    assert!(empty.is_empty());
}
