use grant_contracts::grant_appeals::{
    AppealError, AppealStatus, GrantAppeal, GrantAppealContract, APPEAL_VOTING_PERIOD,
};
use grant_contracts::types::Address;

const NOW: u64 = 1_700_000_000;

fn initialized() -> GrantAppealContract {
    let mut c = GrantAppealContract::new();
    c.initialize(Address(100)).unwrap();
    c
}

#[test]
fn test_time_weighted_voting_calculation() {
    let _c = initialized();
    let holding_durations = vec![
        (10 * 86400, 2500),
        (30 * 86400, 5000),
        (90 * 86400, 7500),
        (180 * 86400, 9000),
        (365 * 86400, 10000),
        (730 * 86400, 12000),
    ];
    for (duration, expected_multiplier) in holding_durations {
        let multiplier = GrantAppealContract::get_time_multiplier(duration);
        assert_eq!(multiplier, expected_multiplier);
    }
}

#[test]
fn test_appeal_creation() {
    let mut c = initialized();
    let appellant = Address(3);
    let grant_id = 1u64;
    let reason = "This grant was unfairly cancelled and should be reinstated.".to_string();
    let evidence = "Evidence of compliance and progress...".to_string();

    let appeal_id = c.create_appeal(grant_id, appellant, reason.clone(), evidence, NOW).unwrap();
    let appeal = c.get_appeal_info(appeal_id).unwrap();
    assert_eq!(appeal.grant_id, grant_id);
    assert_eq!(appeal.appellant, appellant);
    assert_eq!(appeal.reason, reason);
    assert_eq!(appeal.status, AppealStatus::Proposed);
}

#[test]
fn test_appeal_voting() {
    let mut c = initialized();
    let appeal_id = c
        .create_appeal(1u64, Address(3), "This grant was unfairly cancelled".to_string(), "Evidence of progress...".to_string(), NOW)
        .unwrap();
    let appeal = c.get_appeal_info(appeal_id).unwrap();
    assert_eq!(appeal.votes_for, 0);
    assert_eq!(appeal.votes_against, 0);
}

#[test]
fn test_appeal_execution() {
    let mut c = initialized();
    let admin = Address(1);
    let appeal_id = c
        .create_appeal(1u64, Address(3), "This grant was unfairly cancelled".to_string(), "Evidence of progress...".to_string(), NOW)
        .unwrap();
    let later = NOW + APPEAL_VOTING_PERIOD + 1;
    let result = c.execute_appeal(admin, appeal_id, later);
    assert_eq!(result, Err(AppealError::ParticipationThresholdNotMet));
    let appeal = c.get_appeal_info(appeal_id).unwrap();
    assert_eq!(appeal.status, AppealStatus::Expired);
}

#[test]
fn test_appeal_results_calculation() {
    let appeal = GrantAppeal {
        appeal_id: 1,
        grant_id: 1,
        appellant: Address(3),
        reason: "Test".to_string(),
        evidence_hash: [0u8; 32],
        created_at: 0,
        voting_deadline: 0,
        status: AppealStatus::Proposed,
        votes_for: 6600,
        votes_against: 3400,
        total_eligible_power: 10000,
        executed_at: None,
    };
    let (participation_met, approval_met) = GrantAppealContract::calculate_appeal_results(&appeal);
    assert!(participation_met);
    assert!(approval_met);

    let appeal_failing = GrantAppeal {
        votes_for: 5000,
        votes_against: 5000,
        total_eligible_power: 5000,
        ..appeal
    };
    let (participation_met, approval_met) = GrantAppealContract::calculate_appeal_results(&appeal_failing);
    assert!(participation_met);
    assert!(!approval_met);
}

#[test]
fn test_multiple_appeals_per_grant() {
    let mut c = initialized();
    let appellant = Address(3);
    let grant_id = 1u64;
    let reason = "This grant was unfairly cancelled".to_string();
    let evidence = "Evidence of progress...".to_string();

    let appeal_id1 = c.create_appeal(grant_id, appellant, reason.clone(), evidence.clone(), NOW).unwrap();
    let result = c.create_appeal(grant_id, appellant, reason, evidence, NOW);
    assert_eq!(result, Err(AppealError::AppealAlreadyExists));

    let grant_appeals = c.get_grant_appeals(grant_id);
    assert_eq!(grant_appeals.len(), 1);
    assert_eq!(grant_appeals[0], appeal_id1);
}

#[test]
fn weighted_votes_decide_an_appeal() {
    let mut c = initialized();
    let appeal_id = c.create_appeal(9u64, Address(3), "reason".to_string(), "evidence".to_string(), NOW).unwrap();
    // Fresh holders vote with a quarter of their balance.
    c.vote_on_appeal(Address(10), appeal_id, true, 40_000, NOW + 1).unwrap();
    c.vote_on_appeal(Address(11), appeal_id, false, 4_000, NOW + 1).unwrap();
    assert_eq!(c.vote_on_appeal(Address(10), appeal_id, true, 40_000, NOW + 2), Err(AppealError::AlreadyVoted));
    let appeal = c.get_appeal_info(appeal_id).unwrap();
    assert_eq!(appeal.votes_for, 10_000);
    assert_eq!(appeal.votes_against, 1_000);
    assert_eq!(c.execute_appeal(Address(1), appeal_id, NOW + 10), Err(AppealError::VotingPeriodActive));
    c.execute_appeal(Address(1), appeal_id, NOW + APPEAL_VOTING_PERIOD + 1).unwrap();
    assert_eq!(c.get_appeal_info(appeal_id).unwrap().status, AppealStatus::Approved);
}

#[test]
fn voting_power_grows_with_holding_time() {
    let mut fresh = GrantAppealContract::new();
    assert_eq!(
        fresh.get_time_weighted_voting_power(Address(5), 1000, NOW),
        Err(AppealError::NotInitialized)
    );
    let mut c = initialized();
    assert_eq!(c.get_time_weighted_voting_power(Address(5), 0, NOW), Ok((0, 0, 0)));
    // A first holding starts now: 25%.
    assert_eq!(c.get_time_weighted_voting_power(Address(5), 10_000, NOW), Ok((10_000, 2500, 0)));
    assert_eq!(c.voting_power_cache.get(&5), Some(&2500));
    // Ninety days later the same holder weighs 75%.
    let later = NOW + 90 * 86400;
    assert_eq!(
        c.get_time_weighted_voting_power(Address(5), 10_000, later),
        Ok((10_000, 7500, 90 * 86400))
    );
    assert_eq!(c.voting_power_cache.get(&5), Some(&7500));
    assert_eq!(
        c.get_time_weighted_voting_power(Address(6), i128::MAX, NOW),
        Err(AppealError::MathOverflow)
    );
}
