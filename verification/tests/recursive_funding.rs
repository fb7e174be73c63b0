use grant_contracts::recursive_funding::{
    PerformanceMetrics, RecursiveFundingContract, RecursiveFundingError, RenewalStatus,
    MIN_VOTING_PARTICIPATION_RENEWAL, RENEWAL_VETO_THRESHOLD,
};
use grant_contracts::types::Address;

const NOW: u64 = 1_700_000_000;
const DAY: u64 = 24 * 60 * 60;

fn metrics() -> PerformanceMetrics {
    PerformanceMetrics {
        milestones_completed: 12,
        total_milestones: 12,
        completion_rate: 10000,
        average_delivery_time: 30 * 24 * 60 * 60,
        community_satisfaction: 95,
        code_quality_score: 90,
        documentation_quality: 85,
        collaboration_score: 88,
        innovation_score: 92,
    }
}

fn initialized() -> (RecursiveFundingContract, Address) {
    let mut c = RecursiveFundingContract::new(Address(500));
    let admin = Address(1);
    c.initialize(admin, 14u64, 12u64, 10u32, NOW).unwrap();
    (c, admin)
}

#[test]
fn test_recursive_funding_initialization() {
    let mut c = RecursiveFundingContract::new(Address(500));
    let admin = Address(1);
    let result = c.initialize(admin, 14u64, 12u64, 10u32, NOW);
    assert!(result.is_ok());

    let config = c.get_config().unwrap();
    assert_eq!(config.admin, admin);
    assert_eq!(config.veto_period_days, 14);
    assert_eq!(config.min_eligibility_months, 12);
    assert_eq!(config.max_renewal_cycles, 10);
    assert_eq!(config.veto_threshold, RENEWAL_VETO_THRESHOLD);
    assert_eq!(config.min_voting_participation, MIN_VOTING_PARTICIPATION_RENEWAL);
    assert!(config.auto_renewal_enabled);
    assert_eq!(config.performance_weight, 4000);
    assert_eq!(config.community_weight, 3000);
    assert_eq!(config.technical_weight, 3000);
}

#[test]
fn test_recursive_funding_invalid_initialization() {
    let mut c = RecursiveFundingContract::new(Address(500));
    let admin = Address(1);
    assert_eq!(c.initialize(admin, 35u64, 12u64, 10u32, NOW), Err(RecursiveFundingError::InvalidTiming));
    assert_eq!(c.initialize(admin, 14u64, 3u64, 10u32, NOW), Err(RecursiveFundingError::InvalidTiming));
    assert_eq!(c.initialize(admin, 14u64, 12u64, 25u32, NOW), Err(RecursiveFundingError::InvalidAmount));
    c.initialize(admin, 14u64, 12u64, 10u32, NOW).unwrap();
    assert_eq!(c.initialize(admin, 14u64, 12u64, 10u32, NOW), Err(RecursiveFundingError::NotInitialized));
}

#[test]
fn test_propose_renewal() {
    let (mut c, _) = initialized();
    let proposal_id = c
        .propose_renewal(1u64, 100000i128, 12u64, "Excellent performance, critical infrastructure".to_string(), metrics(), NOW)
        .unwrap();
    assert_eq!(proposal_id, 1);

    let proposal = c.get_renewal_proposal(proposal_id).unwrap();
    assert_eq!(proposal.proposal_id, proposal_id);
    assert_eq!(proposal.original_grant_id, 1);
    assert_eq!(proposal.renewal_amount, 100000);
    assert_eq!(proposal.renewal_duration, 12 * 30 * 24 * 60 * 60);
    assert_eq!(proposal.status, RenewalStatus::VetoPeriod);
    assert_eq!(proposal.veto_count, 0);
    assert_eq!(proposal.approval_count, 0);
    assert!(proposal.veto_deadline > proposal.proposed_at);
}

#[test]
fn test_propose_renewal_invalid_parameters() {
    let (mut c, _) = initialized();
    assert_eq!(
        c.propose_renewal(1u64, 0i128, 12u64, "Test".to_string(), metrics(), NOW),
        Err(RecursiveFundingError::InvalidAmount)
    );
    assert_eq!(
        c.propose_renewal(1u64, 100000i128, 3u64, "Test".to_string(), metrics(), NOW),
        Err(RecursiveFundingError::InvalidDuration)
    );
    assert_eq!(
        c.propose_renewal(1u64, 100000i128, 30u64, "Test".to_string(), metrics(), NOW),
        Err(RecursiveFundingError::InvalidDuration)
    );
}

#[test]
fn test_veto_renewal() {
    let (mut c, _) = initialized();
    let proposal_id = c.propose_renewal(1u64, 100000i128, 12u64, "Test renewal".to_string(), metrics(), NOW).unwrap();
    let result = c.veto_renewal(proposal_id, "Concerns about project direction".to_string(), NOW);
    assert!(result.is_ok());
    let proposal = c.get_renewal_proposal(proposal_id).unwrap();
    assert_eq!(proposal.veto_count, 1);
    assert_eq!(proposal.total_voters, 1);
}

#[test]
fn test_veto_threshold_exceeded() {
    let (mut c, _) = initialized();
    let proposal_id = c.propose_renewal(1u64, 100000i128, 12u64, "Test renewal".to_string(), metrics(), NOW).unwrap();
    for i in 0..3 {
        let _ = c.veto_renewal(proposal_id, format!("Veto reason {}", i), NOW);
    }
    let proposal = c.get_renewal_proposal(proposal_id).unwrap();
    assert_eq!(proposal.status, RenewalStatus::Vetoed);
}

#[test]
fn test_approve_renewal() {
    let (mut c, _) = initialized();
    let proposal_id = c.propose_renewal(1u64, 100000i128, 12u64, "Excellent performance".to_string(), metrics(), NOW).unwrap();
    let later = NOW + 15 * DAY;
    let _ = c.process_veto_periods(later);
    let result = c.approve_renewal(proposal_id, later);
    assert!(result.is_ok());
    let proposal = c.get_renewal_proposal(proposal_id).unwrap();
    assert_eq!(proposal.approval_count, 1);
    assert_eq!(proposal.total_voters, 1);
}

#[test]
fn test_renewal_eligibility_check() {
    let (mut c, _) = initialized();
    let eligibility = c.check_renewal_eligibility(1u64, NOW).unwrap();
    assert!(eligibility.is_eligible);
    assert_eq!(eligibility.grant_id, 1);
    assert!(eligibility.critical_infrastructure);
    assert!(eligibility.continuous_contribution);
    assert_eq!(eligibility.renewal_count, 0);
    let cached_eligibility = c.get_grant_eligibility(1u64).unwrap();
    assert_eq!(eligibility, cached_eligibility);
}

#[test]
fn test_critical_infrastructure() {
    let (mut c, admin) = initialized();
    assert!(c.add_critical_infrastructure(admin, 1u64).is_ok());
    assert!(c.add_critical_infrastructure(admin, 1u64).is_ok());
    assert_eq!(c.add_critical_infrastructure(Address(77), 2u64), Err(RecursiveFundingError::Unauthorized));
}

#[test]
fn test_process_veto_periods() {
    let (mut c, _) = initialized();
    let proposal_id1 = c.propose_renewal(1u64, 100000i128, 12u64, "Proposal 1".to_string(), metrics(), NOW).unwrap();
    let proposal_id2 = c.propose_renewal(2u64, 100000i128, 12u64, "Proposal 2".to_string(), metrics(), NOW).unwrap();
    let transitioned_proposals = c.process_veto_periods(NOW + 15 * DAY).unwrap();
    assert_eq!(transitioned_proposals.len(), 2);
    assert!(transitioned_proposals.contains(&proposal_id1));
    assert!(transitioned_proposals.contains(&proposal_id2));
    assert_eq!(c.get_renewal_proposal(proposal_id1).unwrap().status, RenewalStatus::VotingPeriod);
    assert_eq!(c.get_renewal_proposal(proposal_id2).unwrap().status, RenewalStatus::VotingPeriod);
}

#[test]
fn test_recursive_funding_metrics() {
    let (mut c, _) = initialized();
    let metrics_before = c.get_recursive_funding_metrics().unwrap();
    assert_eq!(metrics_before.total_renewal_proposals, 0);
    assert_eq!(metrics_before.successful_renewals, 0);
    assert_eq!(metrics_before.vetoed_proposals, 0);
    assert_eq!(metrics_before.rejected_proposals, 0);
    assert_eq!(metrics_before.critical_projects_renewed, 0);
    assert_eq!(metrics_before.total_renewed_amount, 0);
    assert_eq!(metrics_before.job_security_score, 0);

    let _ = c.propose_renewal(1u64, 100000i128, 12u64, "Test proposal".to_string(), metrics(), NOW + 1).unwrap();
    let updated_metrics = c.get_recursive_funding_metrics().unwrap();
    assert_eq!(updated_metrics.total_renewal_proposals, 1);
    assert!(updated_metrics.last_updated > metrics_before.last_updated);
}

#[test]
fn test_recursive_funding_test_edge_cases() {
    let mut c1 = RecursiveFundingContract::new(Address(500));
    c1.initialize(Address(1), 1u64, 6u64, 1u32, NOW).unwrap();
    let mut c2 = RecursiveFundingContract::new(Address(501));
    c2.initialize(Address(2), 30u64, 24u64, 20u32, NOW).unwrap();

    let proposal_id = c2.propose_renewal(1u64, i128::MAX, 24u64, "Maximum test".to_string(), metrics(), NOW).unwrap();
    let proposal = c2.get_renewal_proposal(proposal_id).unwrap();
    assert_eq!(proposal.renewal_amount, i128::MAX);
    assert_eq!(proposal.renewal_duration, 24 * 30 * 24 * 60 * 60);
}

#[test]
fn test_recursive_funding_test_error_conditions() {
    let mut c = RecursiveFundingContract::new(Address(500));
    assert_eq!(c.get_config(), Err(RecursiveFundingError::NotInitialized));
    assert_eq!(c.get_renewal_proposal(1u64).err(), Some(RecursiveFundingError::ProposalNotFound));
    c.initialize(Address(1), 14u64, 12u64, 10u32, NOW).unwrap();
    assert_eq!(c.veto_renewal(999u64, "Test".to_string(), NOW), Err(RecursiveFundingError::ProposalNotFound));
    assert_eq!(c.approve_renewal(999u64, NOW), Err(RecursiveFundingError::ProposalNotFound));
    assert_eq!(c.execute_renewal(999u64, NOW), Err(RecursiveFundingError::ProposalNotFound));
}

#[test]
fn test_performance_metrics_validation() {
    let (mut c, _) = initialized();
    let perfect_metrics = PerformanceMetrics {
        milestones_completed: 12,
        total_milestones: 12,
        completion_rate: 10000,
        average_delivery_time: 25 * 24 * 60 * 60,
        community_satisfaction: 100,
        code_quality_score: 100,
        documentation_quality: 100,
        collaboration_score: 100,
        innovation_score: 100,
    };
    let proposal_id = c.propose_renewal(1u64, 100000i128, 12u64, "Perfect performance".to_string(), perfect_metrics, NOW).unwrap();
    let proposal = c.get_renewal_proposal(proposal_id).unwrap();
    assert_eq!(proposal.performance_metrics.completion_rate, 10000);
    assert_eq!(proposal.performance_metrics.community_satisfaction, 100);
    assert_eq!(proposal.performance_metrics.code_quality_score, 100);

    let poor_metrics = PerformanceMetrics {
        milestones_completed: 8,
        total_milestones: 12,
        completion_rate: 6666,
        average_delivery_time: 45 * 24 * 60 * 60,
        community_satisfaction: 45,
        code_quality_score: 50,
        documentation_quality: 30,
        collaboration_score: 40,
        innovation_score: 25,
    };
    let proposal_id2 = c.propose_renewal(2u64, 50000i128, 12u64, "Poor performance".to_string(), poor_metrics, NOW).unwrap();
    let proposal2 = c.get_renewal_proposal(proposal_id2).unwrap();
    assert_eq!(proposal2.performance_metrics.completion_rate, 6666);
    assert_eq!(proposal2.performance_metrics.community_satisfaction, 45);
    assert_eq!(proposal2.performance_metrics.code_quality_score, 50);
}

#[test]
fn each_voter_votes_once_and_periods_gate_votes() {
    let (mut c, _) = initialized();
    let id = c.propose_renewal(1u64, 1000i128, 12u64, "r".to_string(), metrics(), NOW).unwrap();
    // No approval during the veto period, no veto after it.
    assert_eq!(c.approve_renewal(id, NOW), Err(RecursiveFundingError::VotingPeriodActive));
    assert_eq!(c.veto_renewal(id, "late".to_string(), NOW + 15 * DAY), Err(RecursiveFundingError::ProposalExpired));
    // Without vetoes the proposal moves on to voting once its veto period is over.
    assert_eq!(c.process_veto_periods(NOW + 13 * DAY).unwrap(), Vec::<u64>::new());
    assert_eq!(c.process_veto_periods(NOW + 14 * DAY).unwrap(), vec![id]);
    assert!(c.approve_renewal(id, NOW + 14 * DAY).is_ok());
    assert_eq!(c.approve_renewal(id, NOW + 14 * DAY), Err(RecursiveFundingError::AlreadyVoted));
    // A proposal under vote can no longer be vetoed.
    assert_eq!(c.veto_renewal(id, "x".to_string(), NOW + 14 * DAY), Err(RecursiveFundingError::VetoPeriodActive));
    // While its voting window is open it cannot be executed; once the window
    // has closed, one vote out of the DAO is too little participation.
    assert_eq!(c.execute_renewal(id, NOW + 21 * DAY), Err(RecursiveFundingError::InvalidTiming));
    assert_eq!(c.execute_renewal(id, NOW + 21 * DAY + 1), Err(RecursiveFundingError::InsufficientParticipation));
    // A proposal nobody voted on goes through once its window has closed.
    let quiet = c.propose_renewal(2u64, 1000i128, 12u64, "q".to_string(), metrics(), NOW).unwrap();
    c.process_veto_periods(NOW + 14 * DAY).unwrap();
    assert!(c.execute_renewal(quiet, NOW + 21 * DAY + 1).is_ok());
    assert_eq!(c.execute_renewal(quiet, NOW + 22 * DAY), Err(RecursiveFundingError::InvalidTiming));
}

#[test]
fn vetoed_proposals_leave_and_are_counted() {
    let (mut c, _) = initialized();
    let id = c.propose_renewal(4u64, 1000i128, 12u64, "r".to_string(), metrics(), NOW).unwrap();
    c.veto_renewal(id, "no".to_string(), NOW).unwrap();
    assert_eq!(c.get_renewal_proposal(id).unwrap().status, RenewalStatus::Vetoed);
    assert!(c.active_proposals.is_empty());
    // A second proposal for the same grant, left to its deadline.
    let id2 = c.propose_renewal(4u64, 1000i128, 12u64, "again".to_string(), metrics(), NOW).unwrap();
    assert_eq!(id2, 2);
    assert_eq!(c.process_veto_periods(NOW + 14 * DAY).unwrap(), vec![id2]);
    assert_eq!(c.get_recursive_funding_metrics().unwrap().vetoed_proposals, 0);
    assert_eq!(c.get_grant_eligibility(4).unwrap().renewal_count, 0);
    assert_eq!(c.get_grant_eligibility(5).err(), Some(RecursiveFundingError::GrantNotFound));
}

#[test]
fn test_execute_renewal() {
    let (mut c, _) = initialized();
    let proposal_id = c
        .propose_renewal(1u64, 100000i128, 12u64, "Critical infrastructure renewal".to_string(), metrics(), NOW)
        .unwrap();
    let later = NOW + 22 * 24 * 60 * 60;
    let _ = c.process_veto_periods(later);
    for _ in 0..5 {
        let _ = c.approve_renewal(proposal_id, later);
    }
    let new_grant_id = c.execute_renewal(proposal_id, later);
    assert!(new_grant_id.is_ok());
    let created_grant_id = new_grant_id.unwrap();
    assert!(created_grant_id > 0);

    let proposal = c.get_renewal_proposal(proposal_id).unwrap();
    assert_eq!(proposal.status, RenewalStatus::Executed);
    assert_eq!(proposal.new_grant_id, Some(created_grant_id));
    assert!(proposal.executed_at.is_some());
}

#[test]
fn test_auto_renewal_disabled() {
    let (mut c, _) = initialized();
    let proposal_id = c.propose_renewal(1u64, 100000i128, 12u64, "Test renewal".to_string(), metrics(), NOW).unwrap();
    let later = NOW + 22 * 24 * 60 * 60;
    let _ = c.process_veto_periods(later);
    for _ in 0..5 {
        let _ = c.approve_renewal(proposal_id, later);
    }
    let result = c.execute_renewal(proposal_id, later);
    assert!(result.is_ok());
}
