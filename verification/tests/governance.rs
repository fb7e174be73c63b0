use grant_contracts::governance::{
    integer_sqrt, GovernanceContract, GovernanceError, GranteeConfig, ProposalStatus,
};
use grant_contracts::types::Address;

const GOV_TOKEN: Address = Address(1);
const STAKE_TOKEN: Address = Address(2);
const COUNCIL: Address = Address(3);
const PROPOSER: Address = Address(4);
const VOTER: Address = Address(5);
const GRANTEE: Address = Address(6);
const LINKED: Address = Address(7);
const NOW: u64 = 1_000;

fn governance() -> GovernanceContract {
    let mut g = GovernanceContract::new();
    g.initialize(GOV_TOKEN, 100, 10, STAKE_TOKEN, 500).unwrap();
    g.set_council_members(COUNCIL, vec![COUNCIL]).unwrap();
    g
}

fn s(x: &str) -> String {
    String::from(x)
}

#[test]
fn voting_power_is_square_root() {
    assert_eq!(integer_sqrt(0), 0);
    assert_eq!(integer_sqrt(-5), 0);
    assert_eq!(integer_sqrt(99), 9);
    assert_eq!(integer_sqrt(100), 10);
    let mut g = governance();
    assert_eq!(g.get_voter_power(VOTER, 10_000, NOW), Ok(100));
    assert_eq!(g.voting_powers.get(&VOTER.0).unwrap().token_balance, 10_000);
}

#[test]
fn initialization_and_council() {
    let mut g = GovernanceContract::new();
    assert_eq!(g.propose_grant(PROPOSER, s("t"), s("d"), 10, NOW), Err(GovernanceError::NotInitialized));
    g.initialize(GOV_TOKEN, 100, 10, STAKE_TOKEN, 500).unwrap();
    assert_eq!(g.initialize(GOV_TOKEN, 100, 10, STAKE_TOKEN, 500), Err(GovernanceError::AlreadyInitialized));
    // The first council may be set by anyone; later only by a member.
    g.set_council_members(VOTER, vec![COUNCIL]).unwrap();
    assert_eq!(g.set_council_members(VOTER, vec![VOTER]), Err(GovernanceError::NotCouncilMember));
    g.set_council_members(COUNCIL, vec![COUNCIL, VOTER]).unwrap();
    assert_eq!(g.get_council_members(), vec![COUNCIL, VOTER]);
    assert_eq!(g.set_atomic_bridge_contract(PROPOSER, Address(9)), Err(GovernanceError::NotCouncilMember));
    g.set_atomic_bridge_contract(COUNCIL, Address(9)).unwrap();
}

#[test]
fn proposals_count_from_zero() {
    let mut g = governance();
    assert_eq!(g.propose_grant(PROPOSER, s("a"), s("x"), 100, NOW), Ok(0));
    assert_eq!(g.create_proposal(PROPOSER, s("b"), s("y"), 100, NOW), Ok(1));
    let p = g.get_proposal_info(1).unwrap();
    assert_eq!(p.title, "b");
    assert_eq!(p.voting_deadline, NOW + 100);
    assert_eq!(p.stake_amount, 500);
    assert_eq!(p.status, ProposalStatus::Active);
    assert_eq!(g.propose_grant(PROPOSER, s("c"), s("z"), u64::MAX, NOW), Err(GovernanceError::MathOverflow));
    assert_eq!(g.get_proposal_info(7).err(), Some(GovernanceError::ProposalNotFound));
}

#[test]
fn quadratic_votes_and_execution() {
    let mut g = governance();
    let id = g.propose_grant(PROPOSER, s("a"), s("x"), 100, NOW).unwrap();
    assert_eq!(g.quadratic_vote(VOTER, id, 0, 400, NOW), Err(GovernanceError::InvalidWeight));
    g.quadratic_vote(VOTER, id, 10, 400, NOW).unwrap();
    assert_eq!(g.quadratic_vote(VOTER, id, 3, 400, NOW), Err(GovernanceError::AlreadyVoted));
    let p = g.get_proposal_info(id).unwrap();
    assert_eq!(p.yes_votes, 100);
    assert_eq!(p.total_voting_power, 20);
    let v = g.get_vote_info(VOTER, id).unwrap();
    assert_eq!(v.weight, 10);
    assert_eq!(v.voting_power, 20);
    assert_eq!(g.get_vote_info(PROPOSER, id), Err(GovernanceError::ProposalNotFound));
    // Votes close at the deadline; execution opens there.
    assert_eq!(g.quadratic_vote(PROPOSER, id, 1, 400, NOW + 100), Err(GovernanceError::VotingEnded));
    assert_eq!(g.execute_proposal(COUNCIL, id, NOW + 99), Err(GovernanceError::VotingEnded));
    assert_eq!(g.execute_proposal(VOTER, id, NOW + 100), Err(GovernanceError::NotCouncilMember));
    g.execute_proposal(COUNCIL, id, NOW + 100).unwrap();
    assert_eq!(g.get_proposal_info(id).unwrap().status, ProposalStatus::Executed);
    assert_eq!(g.execute_proposal(COUNCIL, id, NOW + 100), Err(GovernanceError::VotingEnded));
}

#[test]
fn quorum_and_threshold() {
    let mut g = governance();
    let low = g.propose_grant(PROPOSER, s("a"), s("x"), 100, NOW).unwrap();
    g.quadratic_vote(VOTER, low, 10, 25, NOW).unwrap();
    // Power 5 is below the quorum of 10; the proposal stays active.
    assert_eq!(g.execute_proposal(COUNCIL, low, NOW + 100), Err(GovernanceError::QuorumNotMet));
    assert_eq!(g.get_proposal_info(low).unwrap().status, ProposalStatus::Active);
    let few = g.propose_grant(PROPOSER, s("b"), s("y"), 100, NOW).unwrap();
    g.quadratic_vote(VOTER, few, 9, 10_000, NOW).unwrap();
    // 81 yes votes are below the threshold of 100.
    assert_eq!(g.execute_proposal(COUNCIL, few, NOW + 100), Err(GovernanceError::ThresholdNotMet));
}

#[test]
fn grantees_cannot_vote_on_their_grant() {
    let mut g = governance();
    let config = GranteeConfig {
        recipient: GRANTEE,
        total_amount: 1_000,
        flow_rate: 1,
        asset: Address(20),
        warmup_duration: 0,
        validator: None,
        linked_addresses: vec![LINKED],
    };
    let id = g.propose_atomic_grant(PROPOSER, s("a"), s("x"), 100, vec![config], 1_000, NOW).unwrap();
    assert_eq!(g.quadratic_vote(GRANTEE, id, 10, 400, NOW), Err(GovernanceError::VoterHasConflictOfInterest));
    assert_eq!(g.quadratic_vote(LINKED, id, 10, 400, NOW), Err(GovernanceError::VoterHasConflictOfInterest));
    g.quadratic_vote(VOTER, id, 10, 400, NOW).unwrap();
    // A grant proposal needs the atomic bridge to execute.
    assert_eq!(g.execute_proposal(COUNCIL, id, NOW + 100), Err(GovernanceError::NotInitialized));
    g.set_atomic_bridge_contract(COUNCIL, Address(9)).unwrap();
    g.execute_proposal(COUNCIL, id, NOW + 100).unwrap();
}

#[test]
fn stakes_return_once() {
    let mut g = governance();
    let id = g.propose_grant(PROPOSER, s("a"), s("x"), 100, NOW).unwrap();
    assert_eq!(g.refund_stake(id), Err(GovernanceError::ProposalNotConcluded));
    g.quadratic_vote(VOTER, id, 10, 400, NOW).unwrap();
    g.execute_proposal(COUNCIL, id, NOW + 100).unwrap();
    g.refund_stake(id).unwrap();
    assert!(g.get_proposal_info(id).unwrap().stake_returned);
    assert_eq!(g.refund_stake(id), Err(GovernanceError::StakeAlreadyReturned));
    assert_eq!(g.slash_stake(COUNCIL, Address(30), id), Err(GovernanceError::StakeAlreadyReturned));
    let other = g.propose_grant(PROPOSER, s("b"), s("y"), 100, NOW).unwrap();
    g.slash_stake(COUNCIL, Address(30), other).unwrap();
    assert_eq!(g.slash_stake(COUNCIL, Address(30), 99), Err(GovernanceError::ProposalNotFound));
}
