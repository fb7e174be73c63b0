use grant_contracts::quadratic_voting::{
    ProposalStatus, QuadraticVoting, QuadraticVotingError, VOTING_DURATION,
};
use grant_contracts::types::Address;

const ADMIN: Address = Address(1);
const TOKEN: Address = Address(2);
const NOW: u64 = 1_000;
const RICH: i128 = 1_000_000_000_000_000;

fn voting() -> QuadraticVoting {
    let mut q = QuadraticVoting::new();
    q.initialize_voting(ADMIN, TOKEN).unwrap();
    q
}

#[test]
fn vote_cost_is_quadratic() {
    assert_eq!(QuadraticVoting::calculate_vote_cost(1), 1_000_000);
    assert_eq!(QuadraticVoting::calculate_vote_cost(10), 100_000_000);
    assert_eq!(QuadraticVoting::calculate_vote_cost(1000), 1_000_000_000_000);
    assert_eq!(QuadraticVoting::calculate_votes_from_cost(100), 0);
    assert_eq!(QuadraticVoting::calculate_votes_from_cost(1_000_000_000_000), 1000);
    assert_eq!(QuadraticVoting::calculate_quadratic_weight(12), 144);
}

#[test]
fn proposals_get_increasing_ids() {
    let mut q = QuadraticVoting::new();
    assert_eq!(
        q.create_proposal(Address(5), 100, String::from("x"), NOW),
        Err(QuadraticVotingError::NotInitialized)
    );
    q.initialize_voting(ADMIN, TOKEN).unwrap();
    assert_eq!(
        q.create_proposal(Address(5), 0, String::from("x"), NOW),
        Err(QuadraticVotingError::InvalidAmount)
    );
    assert_eq!(q.create_proposal(Address(5), 100, String::from("a"), NOW), Ok(1));
    assert_eq!(q.create_proposal(Address(6), 200, String::from("b"), NOW), Ok(2));
    let p = q.get_proposal(2).unwrap();
    assert_eq!(p.grant_amount, 200);
    assert_eq!(p.deadline, NOW + VOTING_DURATION);
    assert_eq!(p.status, ProposalStatus::Active);
    assert_eq!(q.get_proposal(3), Err(QuadraticVotingError::ProposalNotFound));
}

#[test]
fn cast_vote_checks() {
    let mut q = voting();
    let id = q.create_proposal(Address(5), 100, String::from("a"), NOW).unwrap();
    let voter = Address(7);
    assert_eq!(q.cast_vote(voter, id, 0, RICH, NOW), Err(QuadraticVotingError::InvalidAmount));
    assert_eq!(q.cast_vote(voter, 99, 1, RICH, NOW), Err(QuadraticVotingError::ProposalNotFound));
    assert_eq!(q.cast_vote(voter, id, 1001, RICH, NOW), Err(QuadraticVotingError::TooManyVotes));
    assert_eq!(
        q.cast_vote(voter, id, 10, 99_999_999, NOW),
        Err(QuadraticVotingError::InsufficientTokens)
    );
    assert_eq!(
        q.cast_vote(voter, id, 1, RICH, NOW + VOTING_DURATION + 1),
        Err(QuadraticVotingError::VotingEnded)
    );
    q.cast_vote(voter, id, 10, 100_000_000, NOW).unwrap();
    assert_eq!(q.get_voter_tokens_spent(voter), 100_000_000);
    assert_eq!(q.get_proposal_votes(id, voter), 10);
    assert_eq!(q.cast_vote(voter, id, 1, RICH, NOW), Err(QuadraticVotingError::AlreadyVoted));
    let p = q.get_proposal(id).unwrap();
    assert_eq!(p.votes_received, 10);
    assert_eq!(p.total_cost, 100_000_000);
}

#[test]
fn grants_follow_square_of_votes() {
    let mut q = voting();
    let a = q.create_proposal(Address(5), 100, String::from("a"), NOW).unwrap();
    let b = q.create_proposal(Address(6), 100, String::from("b"), NOW).unwrap();
    let c = q.create_proposal(Address(7), 100, String::from("c"), NOW).unwrap();
    q.cast_vote(Address(10), a, 10, RICH, NOW).unwrap();
    q.cast_vote(Address(11), b, 20, RICH, NOW).unwrap();
    // Before the deadline nothing is allocated.
    assert!(q.allocate_grants(ADMIN, NOW + 1).unwrap().is_empty());
    let after = NOW + VOTING_DURATION + 1;
    let allocations = q.allocate_grants(ADMIN, after).unwrap();
    assert_eq!(allocations.len(), 2);
    assert_eq!(allocations[0].proposal_id, a);
    assert_eq!(allocations[0].quadratic_weight, 100);
    assert_eq!(allocations[0].amount, 200_000_000);
    assert_eq!(allocations[1].proposal_id, b);
    assert_eq!(allocations[1].amount, 800_000_000);
    assert_eq!(q.get_proposal(a).unwrap().status, ProposalStatus::Approved);
    assert_eq!(q.get_proposal(b).unwrap().status, ProposalStatus::Approved);
    // A proposal without votes stays active.
    assert_eq!(q.get_proposal(c).unwrap().status, ProposalStatus::Active);
    assert!(allocations.iter().map(|x| x.amount).sum::<i128>() <= 1_000_000_000);
}
