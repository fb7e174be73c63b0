//! DAO governance: staked proposals, quadratic votes weighted by the square
//! root of the voter's token balance, conflict-of-interest checks against a
//! proposal's grantees, and execution by council members once the vote has
//! reached quorum and threshold.
use vstd::prelude::*;
use std::collections::HashMap;
use crate::types::{Address, pair_key, make_pair_key};
use crate::arith::{floor_sqrt, isqrt};

verus! {

broadcast use vstd::std_specs::hash::group_hash_axioms;

/// Lifecycle of a proposal.
#[derive(Debug, Clone, Copy, PartialEq, Eq, Structural)]
pub enum ProposalStatus {
    Active,
    Passed,
    Rejected,
    Executed,
}

/// A grantee of a grant proposal, with the addresses linked to it.
#[derive(Debug, Clone, PartialEq, Eq)]
pub struct GranteeConfig {
    pub recipient: Address,
    pub total_amount: i128,
    pub flow_rate: i128,
    pub asset: Address,
    pub warmup_duration: u64,
    pub validator: Option<Address>,
    pub linked_addresses: Vec<Address>,
}

/// A governance proposal.
#[derive(Debug, Clone, PartialEq, Eq)]
pub struct Proposal {
    pub id: u64,
    pub proposer: Address,
    pub title: String,
    pub description: String,
    pub voting_deadline: u64,
    pub status: ProposalStatus,
    pub yes_votes: i128,
    pub no_votes: i128,
    pub total_voting_power: i128,
    pub created_at: u64,
    pub stake_amount: i128,
    pub stake_returned: bool,
    /// Grants created when the proposal executes, for grant proposals.
    pub grant_payload: Option<Vec<GranteeConfig>>,
    pub total_grant_amount: i128,
    pub atomic_execution_enabled: bool,
}

/// A cast vote.
#[derive(Debug, Clone, Copy, PartialEq, Eq, Structural)]
pub struct Vote {
    pub voter: Address,
    pub proposal_id: u64,
    pub weight: i128,
    pub voting_power: i128,
    pub voted_at: u64,
}

/// A voter's power as last computed.
#[derive(Debug, Clone, Copy, PartialEq, Eq, Structural)]
pub struct VotingPower {
    pub address: Address,
    pub token_balance: i128,
    pub voting_power: i128,
    pub last_updated: u64,
}

/// Why a governance operation was refused.
#[derive(Debug, Clone, Copy, PartialEq, Eq, Structural)]
pub enum GovernanceError {
    NotInitialized,
    AlreadyInitialized,
    NotAuthorized,
    ProposalNotFound,
    ProposalAlreadyExists,
    VotingEnded,
    InvalidWeight,
    NotACouncilMember,
    QuorumNotMet,
    ThresholdNotMet,
    MathOverflow,
    AlreadyVoted,
    VoterHasConflictOfInterest,
    NotCouncilMember,
    InsufficientStake,
    StakeAlreadyReturned,
    ProposalNotConcluded,
}

/// Voting power of a token balance: its integer square root, zero for a
/// balance that is not positive.
pub open spec fn power_of(balance: i128) -> int {
    if balance <= 0 { 0 } else { isqrt(balance as int) }
}

/// Whether `voter` is grantee `c`, or linked to it.
pub open spec fn conflicted(c: GranteeConfig, voter: Address) -> bool {
    c.recipient == voter || c.linked_addresses@.contains(voter)
}

/// Whether `voter` is a grantee of `payload`, or linked to one.
pub open spec fn has_conflict(payload: Option<Vec<GranteeConfig>>, voter: Address) -> bool {
    match payload {
        Some(v) => exists|i: int| 0 <= i < v@.len() && conflicted(#[trigger] v@[i], voter),
        None => false,
    }
}

/// The identifier of the next proposal after `ids`.
pub open spec fn next_id_after(ids: Seq<u64>) -> int {
    if ids.len() == 0 { 0 } else { ids.last() + 1 }
}

/// The governance state. Each operation runs on behalf of a caller whose
/// signature the host has checked; token balances and transfers are the
/// caller's to read and make.
pub struct GovernanceContract {
    pub governance_token: Option<Address>,
    pub voting_threshold: Option<i128>,
    pub quorum_threshold: Option<i128>,
    pub proposal_ids: Option<Vec<u64>>,
    pub council_members: Vec<Address>,
    pub stake_token: Option<Address>,
    pub proposal_stake_amount: Option<i128>,
    pub atomic_bridge_contract: Option<Address>,
    pub proposals: HashMap<u64, Proposal>,
    /// Votes, keyed by (voter, proposal).
    pub votes: HashMap<u128, Vote>,
    /// Voting power records, by voter.
    pub voting_powers: HashMap<u64, VotingPower>,
}

/// Integer square root of a balance; zero when not positive.
pub fn integer_sqrt(n: i128) -> (r: i128)
    requires
        n < i128::MAX,
    ensures
        r == power_of(n),
        r >= 0,
{
    if n <= 0 {
        return 0;
    }
    let s = floor_sqrt(n as u128);
    proof {
        assert(s * s <= n);
        assert(s <= n) by (nonlinear_arith)
            requires
                s * s <= n,
                s >= 0,
                n > 0,
        ;
    }
    s as i128
}

impl GovernanceContract {
    /// Whether `a` sits on the council.
    pub open spec fn in_council(&self, a: Address) -> bool {
        self.council_members@.contains(a)
    }

    /// The proposal `id`, if any.
    pub open spec fn proposal_of(&self, id: u64) -> Option<Proposal> {
        if self.proposals@.contains_key(id) { Some(self.proposals@[id]) } else { None }
    }

    /// Whether `voter` has voted on `id`.
    pub open spec fn has_voted(&self, voter: Address, id: u64) -> bool {
        self.votes@.contains_key(pair_key(voter.0, id))
    }

    /// A contract not yet initialized.
    pub fn new() -> (r: Self)
        ensures
            r.governance_token is None,
            r.proposal_ids is None,
            r.council_members@.len() == 0,
            r.proposals@ == Map::<u64, Proposal>::empty(),
            r.votes@ == Map::<u128, Vote>::empty(),
    {
        GovernanceContract {
            governance_token: None,
            voting_threshold: None,
            quorum_threshold: None,
            proposal_ids: None,
            council_members: Vec::new(),
            stake_token: None,
            proposal_stake_amount: None,
            atomic_bridge_contract: None,
            proposals: HashMap::new(),
            votes: HashMap::new(),
            voting_powers: HashMap::new(),
        }
    }

    /// Sets the governance token, the thresholds and the proposal stake,
    /// with no proposals and an empty council.
    pub fn initialize(
        &mut self,
        governance_token: Address,
        voting_threshold: i128,
        quorum_threshold: i128,
        stake_token: Address,
        proposal_stake_amount: i128,
    ) -> (r: Result<(), GovernanceError>)
        ensures
            old(self).governance_token is Some <==> r is Err,
            r is Err ==> r == Err::<(), GovernanceError>(GovernanceError::AlreadyInitialized)
                && final(self).governance_token == old(self).governance_token
                && final(self).proposal_ids == old(self).proposal_ids
                && final(self).council_members@ == old(self).council_members@,
            r is Ok ==> {
                &&& final(self).governance_token == Some(governance_token)
                &&& final(self).voting_threshold == Some(voting_threshold)
                &&& final(self).quorum_threshold == Some(quorum_threshold)
                &&& final(self).proposal_ids matches Some(ids) && ids@.len() == 0
                &&& final(self).council_members@.len() == 0
                &&& final(self).stake_token == Some(stake_token)
                &&& final(self).proposal_stake_amount == Some(proposal_stake_amount)
            },
            final(self).proposals@ == old(self).proposals@,
            final(self).votes@ == old(self).votes@,
    {
        if self.governance_token.is_some() {
            return Err(GovernanceError::AlreadyInitialized);
        }
        self.governance_token = Some(governance_token);
        self.voting_threshold = Some(voting_threshold);
        self.quorum_threshold = Some(quorum_threshold);
        self.proposal_ids = Some(Vec::new());
        self.council_members = Vec::new();
        self.stake_token = Some(stake_token);
        self.proposal_stake_amount = Some(proposal_stake_amount);
        Ok(())
    }

    /// Whether `a` sits on the council.
    pub fn is_council_member(&self, a: Address) -> (r: bool)
        ensures
            r == self.in_council(a),
    {
        let mut i: usize = 0;
        while i < self.council_members.len()
            invariant
                i <= self.council_members@.len(),
                forall|j: int| 0 <= j < i ==> self.council_members@[j] != a,
            decreases self.council_members.len() - i,
        {
            if self.council_members[i] == a {
                return true;
            }
            i = i + 1;
        }
        false
    }

    /// Refuses a caller who is not on the council.
    pub fn require_council_auth(&self, caller: Address) -> (r: Result<(), GovernanceError>)
        ensures
            r is Ok <==> self.in_council(caller),
            r is Err ==> r == Err::<(), GovernanceError>(GovernanceError::NotCouncilMember),
    {
        if !self.is_council_member(caller) {
            return Err(GovernanceError::NotCouncilMember);
        }
        Ok(())
    }

    /// Replaces the council with `members`; once a council exists only a
    /// member may replace it.
    pub fn set_council_members(&mut self, caller: Address, members: Vec<Address>) -> (r: Result<(), GovernanceError>)
        ensures
            old(self).council_members@.len() > 0 && !old(self).in_council(caller)
                ==> r == Err::<(), GovernanceError>(GovernanceError::NotCouncilMember),
            r is Ok <==> old(self).council_members@.len() == 0 || old(self).in_council(caller),
            r is Ok ==> final(self).council_members@ == members@,
            r is Err ==> final(self).council_members@ == old(self).council_members@,
            final(self).proposals@ == old(self).proposals@,
            final(self).votes@ == old(self).votes@,
            final(self).governance_token == old(self).governance_token,
    {
        if self.council_members.len() > 0 {
            self.require_council_auth(caller)?;
        }
        self.council_members = members;
        Ok(())
    }

    fn open_proposal(
        &mut self,
        proposer: Address,
        title: String,
        description: String,
        voting_period: u64,
        grant_payload: Option<Vec<GranteeConfig>>,
        total_grant_amount: i128,
        atomic_execution_enabled: bool,
        now: u64,
    ) -> (r: Result<u64, GovernanceError>)
        ensures
            r is Ok <==> old(self).stake_token is Some && old(self).proposal_stake_amount is Some
                && now + voting_period <= u64::MAX && old(self).proposal_ids is Some
                && next_id_after(old(self).proposal_ids->Some_0@) <= u64::MAX,
            r is Err ==> final(self).proposals@ == old(self).proposals@ && final(self).proposal_ids == old(self).proposal_ids,
            old(self).stake_token is None || old(self).proposal_stake_amount is None
                ==> r == Err::<u64, GovernanceError>(GovernanceError::NotInitialized),
            old(self).stake_token is Some && old(self).proposal_stake_amount is Some && now + voting_period > u64::MAX
                ==> r == Err::<u64, GovernanceError>(GovernanceError::MathOverflow),
            old(self).stake_token is Some && old(self).proposal_stake_amount is Some && now + voting_period <= u64::MAX
                && old(self).proposal_ids is None ==> r == Err::<u64, GovernanceError>(GovernanceError::NotInitialized),
            r is Ok ==> {
                let id = next_id_after(old(self).proposal_ids->Some_0@) as u64;
                &&& r == Ok::<u64, GovernanceError>(id)
                &&& final(self).proposal_ids matches Some(ids) && ids@ == old(self).proposal_ids->Some_0@.push(id)
                &&& final(self).proposals@ == old(self).proposals@.insert(id, Proposal {
                    id,
                    proposer,
                    title,
                    description,
                    voting_deadline: (now + voting_period) as u64,
                    status: ProposalStatus::Active,
                    yes_votes: 0,
                    no_votes: 0,
                    total_voting_power: 0,
                    created_at: now,
                    stake_amount: old(self).proposal_stake_amount->Some_0,
                    stake_returned: false,
                    grant_payload,
                    total_grant_amount,
                    atomic_execution_enabled,
                })
            },
            final(self).votes@ == old(self).votes@,
            final(self).council_members@ == old(self).council_members@,
            final(self).governance_token == old(self).governance_token,
            final(self).quorum_threshold == old(self).quorum_threshold,
            final(self).voting_threshold == old(self).voting_threshold,
            final(self).stake_token == old(self).stake_token,
            final(self).proposal_stake_amount == old(self).proposal_stake_amount,
            final(self).atomic_bridge_contract == old(self).atomic_bridge_contract,
    {
        if self.stake_token.is_none() {
            return Err(GovernanceError::NotInitialized);
        }
        let stake_amount = match self.proposal_stake_amount {
            Some(a) => a,
            None => return Err(GovernanceError::NotInitialized),
        };
        let voting_deadline = match now.checked_add(voting_period) {
            Some(d) => d,
            None => return Err(GovernanceError::MathOverflow),
        };
        let mut ids = match self.proposal_ids.take() {
            Some(v) => v,
            None => return Err(GovernanceError::NotInitialized),
        };
        let proposal_id: u64 = if ids.len() == 0 {
            0
        } else {
            let last = ids[ids.len() - 1];
            match last.checked_add(1) {
                Some(n) => n,
                None => {
                    self.proposal_ids = Some(ids);
                    return Err(GovernanceError::MathOverflow);
                },
            }
        };
        let proposal = Proposal {
            id: proposal_id,
            proposer,
            title,
            description,
            voting_deadline,
            status: ProposalStatus::Active,
            yes_votes: 0,
            no_votes: 0,
            total_voting_power: 0,
            created_at: now,
            stake_amount,
            stake_returned: false,
            grant_payload,
            total_grant_amount,
            atomic_execution_enabled,
        };
        self.proposals.insert(proposal_id, proposal);
        ids.push(proposal_id);
        self.proposal_ids = Some(ids);
        Ok(proposal_id)
    }

    /// `proposer` stakes the proposal stake and opens a proposal at `now`,
    /// voted on for `voting_period` seconds; identifiers count up from zero.
    /// The caller transfers the stake from the proposer to the contract.
    pub fn propose_grant(&mut self, proposer: Address, title: String, description: String, voting_period: u64, now: u64) -> (r: Result<u64, GovernanceError>)
        ensures
            r is Ok <==> old(self).stake_token is Some && old(self).proposal_stake_amount is Some
                && now + voting_period <= u64::MAX && old(self).proposal_ids is Some
                && next_id_after(old(self).proposal_ids->Some_0@) <= u64::MAX,
            r is Err ==> final(self).proposals@ == old(self).proposals@,
            r is Ok ==> {
                let id = next_id_after(old(self).proposal_ids->Some_0@) as u64;
                &&& r == Ok::<u64, GovernanceError>(id)
                &&& final(self).proposals@ == old(self).proposals@.insert(id, Proposal {
                    id,
                    proposer,
                    title,
                    description,
                    voting_deadline: (now + voting_period) as u64,
                    status: ProposalStatus::Active,
                    yes_votes: 0,
                    no_votes: 0,
                    total_voting_power: 0,
                    created_at: now,
                    stake_amount: old(self).proposal_stake_amount->Some_0,
                    stake_returned: false,
                    grant_payload: None,
                    total_grant_amount: 0,
                    atomic_execution_enabled: false,
                })
            },
            final(self).votes@ == old(self).votes@,
            final(self).council_members@ == old(self).council_members@,
    {
        self.open_proposal(proposer, title, description, voting_period, None, 0, false, now)
    }

    /// The same as `propose_grant`.
    pub fn create_proposal(&mut self, proposer: Address, title: String, description: String, voting_period: u64, now: u64) -> (r: Result<u64, GovernanceError>)
        ensures
            r is Ok <==> old(self).stake_token is Some && old(self).proposal_stake_amount is Some
                && now + voting_period <= u64::MAX && old(self).proposal_ids is Some
                && next_id_after(old(self).proposal_ids->Some_0@) <= u64::MAX,
            r is Err ==> final(self).proposals@ == old(self).proposals@,
            r is Ok ==> r == Ok::<u64, GovernanceError>(next_id_after(old(self).proposal_ids->Some_0@) as u64)
                && final(self).proposals@.contains_key(r->Ok_0)
                && final(self).proposals@[r->Ok_0].grant_payload is None,
    {
        self.propose_grant(proposer, title, description, voting_period, now)
    }

    /// Like `propose_grant`, for a proposal that creates the grants
    /// `grant_configs`, worth `total_grant_amount`, when it executes.
    pub fn propose_atomic_grant(
        &mut self,
        proposer: Address,
        title: String,
        description: String,
        voting_period: u64,
        grant_configs: Vec<GranteeConfig>,
        total_grant_amount: i128,
        now: u64,
    ) -> (r: Result<u64, GovernanceError>)
        ensures
            r is Ok <==> old(self).stake_token is Some && old(self).proposal_stake_amount is Some
                && now + voting_period <= u64::MAX && old(self).proposal_ids is Some
                && next_id_after(old(self).proposal_ids->Some_0@) <= u64::MAX,
            r is Err ==> final(self).proposals@ == old(self).proposals@,
            r is Ok ==> {
                let id = next_id_after(old(self).proposal_ids->Some_0@) as u64;
                &&& r == Ok::<u64, GovernanceError>(id)
                &&& final(self).proposals@ == old(self).proposals@.insert(id, Proposal {
                    id,
                    proposer,
                    title,
                    description,
                    voting_deadline: (now + voting_period) as u64,
                    status: ProposalStatus::Active,
                    yes_votes: 0,
                    no_votes: 0,
                    total_voting_power: 0,
                    created_at: now,
                    stake_amount: old(self).proposal_stake_amount->Some_0,
                    stake_returned: false,
                    grant_payload: Some(grant_configs),
                    total_grant_amount,
                    atomic_execution_enabled: true,
                })
            },
            final(self).votes@ == old(self).votes@,
            final(self).council_members@ == old(self).council_members@,
    {
        self.open_proposal(proposer, title, description, voting_period, Some(grant_configs), total_grant_amount, true, now)
    }

    fn conflict_of_interest(payload: &Option<Vec<GranteeConfig>>, voter: Address) -> (r: bool)
        ensures
            r == has_conflict(*payload, voter),
    {
        match payload {
            None => false,
            Some(configs) => {
                let mut i: usize = 0;
                while i < configs.len()
                    invariant
                        i <= configs@.len(),
                        *payload == Some(*configs),
                        forall|j: int| 0 <= j < i ==> !conflicted(#[trigger] configs@[j], voter),
                    decreases configs.len() - i,
                {
                    let c = &configs[i];
                    if c.recipient == voter {
                        proof {
                            assert(conflicted(configs@[i as int], voter));
                            assert(exists|j: int| 0 <= j < configs@.len() && conflicted(#[trigger] configs@[j], voter));
                            assert((*payload)->Some_0 == *configs);
                        }
                        return true;
                    }
                    let mut k: usize = 0;
                    while k < c.linked_addresses.len()
                        invariant
                            k <= c.linked_addresses@.len(),
                            i < configs@.len(),
                            *c == configs@[i as int],
                            *payload == Some(*configs),
                            forall|m: int| 0 <= m < k ==> c.linked_addresses@[m] != voter,
                        decreases c.linked_addresses.len() - k,
                    {
                        if c.linked_addresses[k] == voter {
                            proof {
                                assert(configs@[i as int].linked_addresses@[k as int] == voter);
                                assert(configs@[i as int].linked_addresses@.contains(voter));
                                assert(conflicted(configs@[i as int], voter));
                                assert(exists|j: int| 0 <= j < configs@.len() && conflicted(#[trigger] configs@[j], voter));
                            assert((*payload)->Some_0 == *configs);
                            }
                            return true;
                        }
                        k = k + 1;
                    }
                    proof {
                        assert(!configs@[i as int].linked_addresses@.contains(voter));
                        assert(configs@[i as int].recipient != voter);
                        assert(!conflicted(configs@[i as int], voter));
                    }
                    i = i + 1;
                }
                false
            },
        }
    }

    /// The voting power of `address`, holding `token_balance` of the
    /// governance token, at `now`: the square root of the balance. The
    /// computation is recorded.
    pub fn calculate_voting_power(&mut self, address: Address, token_balance: i128, now: u64) -> (r: Result<i128, GovernanceError>)
        requires
            token_balance < i128::MAX,
        ensures
            old(self).governance_token is None <==> r is Err,
            r is Err ==> r == Err::<i128, GovernanceError>(GovernanceError::NotInitialized)
                && final(self).voting_powers@ == old(self).voting_powers@,
            r is Ok ==> r == Ok::<i128, GovernanceError>(power_of(token_balance) as i128)
                && final(self).voting_powers@ == old(self).voting_powers@.insert(address.0, VotingPower {
                    address,
                    token_balance,
                    voting_power: power_of(token_balance) as i128,
                    last_updated: now,
                }),
            final(self).proposals@ == old(self).proposals@,
            final(self).votes@ == old(self).votes@,
            final(self).proposal_ids == old(self).proposal_ids,
            final(self).council_members@ == old(self).council_members@,
            final(self).governance_token == old(self).governance_token,
            final(self).quorum_threshold == old(self).quorum_threshold,
            final(self).voting_threshold == old(self).voting_threshold,
            final(self).stake_token == old(self).stake_token,
            final(self).atomic_bridge_contract == old(self).atomic_bridge_contract,
    {
        if self.governance_token.is_none() {
            return Err(GovernanceError::NotInitialized);
        }
        let voting_power = integer_sqrt(token_balance);
        self.voting_powers.insert(address.0, VotingPower { address, token_balance, voting_power, last_updated: now });
        Ok(voting_power)
    }

    /// The voting power of `voter`, holding `token_balance`, at `now`.
    pub fn get_voter_power(&mut self, voter: Address, token_balance: i128, now: u64) -> (r: Result<i128, GovernanceError>)
        requires
            token_balance < i128::MAX,
        ensures
            old(self).governance_token is None <==> r is Err,
            r is Ok ==> r == Ok::<i128, GovernanceError>(power_of(token_balance) as i128),
            final(self).proposals@ == old(self).proposals@,
    {
        self.calculate_voting_power(voter, token_balance, now)
    }

    /// `voter`, holding `token_balance` of the governance token, casts a
    /// quadratic vote of `weight` on `proposal_id` at `now`: the proposal's
    /// yes votes grow by `weight²` and its total voting power by the voter's
    /// power. Refused for a weight that is not positive, an unknown proposal,
    /// a vote after the deadline or on a closed proposal, a second vote, and a
    /// voter who is a grantee of the proposal or linked to one.
    pub fn quadratic_vote(&mut self, voter: Address, proposal_id: u64, weight: i128, token_balance: i128, now: u64) -> (r: Result<(), GovernanceError>)
        requires
            token_balance < i128::MAX,
        ensures
            weight <= 0 ==> r == Err::<(), GovernanceError>(GovernanceError::InvalidWeight),
            weight > 0 && old(self).proposal_of(proposal_id) is None ==> r == Err::<(), GovernanceError>(GovernanceError::ProposalNotFound),
            old(self).proposal_of(proposal_id) matches Some(p) ==> weight > 0 ==> {
                let power = power_of(token_balance);
                if now >= p.voting_deadline || p.status != ProposalStatus::Active {
                    r == Err::<(), GovernanceError>(GovernanceError::VotingEnded)
                } else if old(self).has_voted(voter, proposal_id) {
                    r == Err::<(), GovernanceError>(GovernanceError::AlreadyVoted)
                } else if has_conflict(p.grant_payload, voter) {
                    r == Err::<(), GovernanceError>(GovernanceError::VoterHasConflictOfInterest)
                } else if old(self).governance_token is None {
                    r == Err::<(), GovernanceError>(GovernanceError::NotInitialized)
                } else if weight * power > i128::MAX || weight * weight > i128::MAX
                    || p.yes_votes + weight * weight > i128::MAX || p.total_voting_power + power > i128::MAX {
                    r == Err::<(), GovernanceError>(GovernanceError::MathOverflow)
                } else {
                    &&& r is Ok
                    &&& final(self).proposals@ == old(self).proposals@.insert(proposal_id, Proposal {
                        yes_votes: (p.yes_votes + weight * weight) as i128,
                        total_voting_power: (p.total_voting_power + power) as i128,
                        ..p
                    })
                    &&& final(self).votes@ == old(self).votes@.insert(pair_key(voter.0, proposal_id), Vote {
                        voter,
                        proposal_id,
                        weight,
                        voting_power: power as i128,
                        voted_at: now,
                    })
                    &&& final(self).voting_powers@ == old(self).voting_powers@.insert(voter.0, VotingPower {
                        address: voter,
                        token_balance,
                        voting_power: power as i128,
                        last_updated: now,
                    })
                }
            },
            r is Err ==> final(self).proposals@ == old(self).proposals@ && final(self).votes@ == old(self).votes@
                && final(self).voting_powers@ == old(self).voting_powers@,
            final(self).council_members@ == old(self).council_members@,
            final(self).proposal_ids == old(self).proposal_ids,
    {
        if weight <= 0 {
            return Err(GovernanceError::InvalidWeight);
        }
        let (deadline, status, yes, total_power) = match self.proposals.get(&proposal_id) {
            Some(p) => (p.voting_deadline, p.status, p.yes_votes, p.total_voting_power),
            None => return Err(GovernanceError::ProposalNotFound),
        };
        if now >= deadline {
            return Err(GovernanceError::VotingEnded);
        }
        if status != ProposalStatus::Active {
            return Err(GovernanceError::VotingEnded);
        }
        let vote_key = make_pair_key(voter.0, proposal_id);
        if self.votes.contains_key(&vote_key) {
            return Err(GovernanceError::AlreadyVoted);
        }
        let conflict = match self.proposals.get(&proposal_id) {
            Some(p) => Self::conflict_of_interest(&p.grant_payload, voter),
            None => false,
        };
        if conflict {
            return Err(GovernanceError::VoterHasConflictOfInterest);
        }
        if self.governance_token.is_none() {
            return Err(GovernanceError::NotInitialized);
        }
        let voting_power = integer_sqrt(token_balance);
        if weight.checked_mul(voting_power).is_none() {
            return Err(GovernanceError::MathOverflow);
        }
        let quadratic_weight = match weight.checked_mul(weight) {
            Some(q) => q,
            None => return Err(GovernanceError::MathOverflow),
        };
        let new_yes = match yes.checked_add(quadratic_weight) {
            Some(y) => y,
            None => return Err(GovernanceError::MathOverflow),
        };
        let new_total = match total_power.checked_add(voting_power) {
            Some(t) => t,
            None => return Err(GovernanceError::MathOverflow),
        };
        self.voting_powers.insert(voter.0, VotingPower { address: voter, token_balance, voting_power, last_updated: now });
        self.votes.insert(vote_key, Vote { voter, proposal_id, weight, voting_power, voted_at: now });
        let removed = self.proposals.remove(&proposal_id);
        match removed {
            Some(mut p) => {
                p.yes_votes = new_yes;
                p.total_voting_power = new_total;
                self.proposals.insert(proposal_id, p);
            },
            None => {},
        }
        Ok(())
    }

    fn set_proposal_status(&mut self, id: u64, status: ProposalStatus)
        requires
            old(self).proposals@.contains_key(id),
        ensures
            final(self).proposals@ == old(self).proposals@.insert(id, Proposal { status, ..old(self).proposals@[id] }),
            final(self).votes@ == old(self).votes@,
            final(self).voting_powers@ == old(self).voting_powers@,
            final(self).council_members@ == old(self).council_members@,
            final(self).proposal_ids == old(self).proposal_ids,
    {
        let removed = self.proposals.remove(&id);
        match removed {
            Some(mut p) => {
                p.status = status;
                self.proposals.insert(id, p);
            },
            None => {},
        }
    }

    /// A council member executes `proposal_id` at `now`, once its vote has
    /// ended: it needs a total voting power of at least the quorum, and at
    /// least the voting threshold of yes votes. A grant proposal executes its
    /// grants through the atomic bridge, which must be set. A refused
    /// execution changes nothing.
    pub fn execute_proposal(&mut self, caller: Address, proposal_id: u64, now: u64) -> (r: Result<(), GovernanceError>)
        ensures
            !old(self).in_council(caller) ==> r == Err::<(), GovernanceError>(GovernanceError::NotCouncilMember),
            old(self).in_council(caller) && old(self).proposal_of(proposal_id) is None
                ==> r == Err::<(), GovernanceError>(GovernanceError::ProposalNotFound),
            old(self).proposal_of(proposal_id) matches Some(p) ==> old(self).in_council(caller) ==> {
                if now < p.voting_deadline || p.status != ProposalStatus::Active {
                    r == Err::<(), GovernanceError>(GovernanceError::VotingEnded)
                } else if old(self).quorum_threshold is None || old(self).voting_threshold is None {
                    r == Err::<(), GovernanceError>(GovernanceError::NotInitialized)
                } else if p.total_voting_power < old(self).quorum_threshold->Some_0 {
                    r == Err::<(), GovernanceError>(GovernanceError::QuorumNotMet)
                } else if (if p.yes_votes + p.no_votes > i128::MAX || p.yes_votes + p.no_votes < i128::MIN { 0 } else { p.yes_votes + p.no_votes }) == 0
                    || p.yes_votes < old(self).voting_threshold->Some_0 {
                    r == Err::<(), GovernanceError>(GovernanceError::ThresholdNotMet)
                } else if p.atomic_execution_enabled && p.grant_payload is Some && old(self).atomic_bridge_contract is None {
                    r == Err::<(), GovernanceError>(GovernanceError::NotInitialized)
                } else {
                    &&& r is Ok
                    &&& final(self).proposals@ == old(self).proposals@.insert(
                        proposal_id,
                        Proposal { status: ProposalStatus::Executed, ..p },
                    )
                }
            },
            r is Err ==> final(self).proposals@ == old(self).proposals@,
            final(self).votes@ == old(self).votes@,
            final(self).council_members@ == old(self).council_members@,
    {
        self.require_council_auth(caller)?;
        let (deadline, status, yes, no, total_power, atomic, has_payload) = match self.proposals.get(&proposal_id) {
            Some(p) => (p.voting_deadline, p.status, p.yes_votes, p.no_votes, p.total_voting_power,
                p.atomic_execution_enabled, p.grant_payload.is_some()),
            None => return Err(GovernanceError::ProposalNotFound),
        };
        if now < deadline {
            return Err(GovernanceError::VotingEnded);
        }
        if status != ProposalStatus::Active {
            return Err(GovernanceError::VotingEnded);
        }
        let quorum = match self.quorum_threshold {
            Some(q) => q,
            None => return Err(GovernanceError::NotInitialized),
        };
        let threshold = match self.voting_threshold {
            Some(t) => t,
            None => return Err(GovernanceError::NotInitialized),
        };
        if total_power < quorum {
            return Err(GovernanceError::QuorumNotMet);
        }
        let total_votes = match yes.checked_add(no) {
            Some(t) => t,
            None => 0,
        };
        if total_votes == 0 || yes < threshold {
            return Err(GovernanceError::ThresholdNotMet);
        }
        if atomic && has_payload && self.atomic_bridge_contract.is_none() {
            return Err(GovernanceError::NotInitialized);
        }
        self.set_proposal_status(proposal_id, ProposalStatus::Executed);
        Ok(())
    }

    /// The proposal `proposal_id`.
    pub fn get_proposal_info(&self, proposal_id: u64) -> (r: Result<&Proposal, GovernanceError>)
        ensures
            self.proposal_of(proposal_id) is None ==> r == Err::<&Proposal, GovernanceError>(GovernanceError::ProposalNotFound),
            self.proposal_of(proposal_id) matches Some(p) ==> (r matches Ok(q) && *q == p),
    {
        match self.proposals.get(&proposal_id) {
            Some(p) => Ok(p),
            None => Err(GovernanceError::ProposalNotFound),
        }
    }

    /// The vote of `voter` on `proposal_id`; `ProposalNotFound` without one.
    pub fn get_vote_info(&self, voter: Address, proposal_id: u64) -> (r: Result<Vote, GovernanceError>)
        ensures
            !self.has_voted(voter, proposal_id) ==> r == Err::<Vote, GovernanceError>(GovernanceError::ProposalNotFound),
            self.has_voted(voter, proposal_id) ==> r == Ok::<Vote, GovernanceError>(self.votes@[pair_key(voter.0, proposal_id)]),
    {
        match self.votes.get(&make_pair_key(voter.0, proposal_id)) {
            Some(v) => Ok(*v),
            None => Err(GovernanceError::ProposalNotFound),
        }
    }

    /// The council.
    pub fn get_council_members(&self) -> (r: Vec<Address>)
        ensures
            r@ == self.council_members@,
    {
        self.council_members.clone()
    }

    /// Marks the stake of a concluded proposal (executed or rejected) as
    /// returned; the caller then transfers the stake, when positive, back to
    /// the proposer. A stake is returned at most once.
    pub fn refund_stake(&mut self, proposal_id: u64) -> (r: Result<(), GovernanceError>)
        ensures
            old(self).proposal_of(proposal_id) is None ==> r == Err::<(), GovernanceError>(GovernanceError::ProposalNotFound),
            old(self).proposal_of(proposal_id) matches Some(p) ==> {
                if p.status != ProposalStatus::Executed && p.status != ProposalStatus::Rejected {
                    r == Err::<(), GovernanceError>(GovernanceError::ProposalNotConcluded)
                } else if p.stake_returned {
                    r == Err::<(), GovernanceError>(GovernanceError::StakeAlreadyReturned)
                } else if p.stake_amount > 0 && old(self).stake_token is None {
                    r == Err::<(), GovernanceError>(GovernanceError::NotInitialized)
                } else {
                    r is Ok && final(self).proposals@ == old(self).proposals@.insert(
                        proposal_id,
                        Proposal { stake_returned: true, ..p },
                    )
                }
            },
            r is Err ==> final(self).proposals@ == old(self).proposals@,
            final(self).votes@ == old(self).votes@,
    {
        let (status, returned, amount) = match self.proposals.get(&proposal_id) {
            Some(p) => (p.status, p.stake_returned, p.stake_amount),
            None => return Err(GovernanceError::ProposalNotFound),
        };
        if status != ProposalStatus::Executed && status != ProposalStatus::Rejected {
            return Err(GovernanceError::ProposalNotConcluded);
        }
        if returned {
            return Err(GovernanceError::StakeAlreadyReturned);
        }
        if amount > 0 && self.stake_token.is_none() {
            return Err(GovernanceError::NotInitialized);
        }
        self.mark_stake_returned(proposal_id);
        Ok(())
    }

    fn mark_stake_returned(&mut self, id: u64)
        requires
            old(self).proposals@.contains_key(id),
        ensures
            final(self).proposals@ == old(self).proposals@.insert(id, Proposal { stake_returned: true, ..old(self).proposals@[id] }),
            final(self).votes@ == old(self).votes@,
            final(self).stake_token == old(self).stake_token,
    {
        let removed = self.proposals.remove(&id);
        match removed {
            Some(mut p) => {
                p.stake_returned = true;
                self.proposals.insert(id, p);
            },
            None => {},
        }
    }

    /// Marks the stake of `proposal_id` as taken; the caller transfers the
    /// stake, when positive, to `target_treasury`. A stake is returned or
    /// slashed at most once.
    pub fn slash_stake(&mut self, admin: Address, target_treasury: Address, proposal_id: u64) -> (r: Result<(), GovernanceError>)
        ensures
            old(self).proposal_of(proposal_id) is None ==> r == Err::<(), GovernanceError>(GovernanceError::ProposalNotFound),
            old(self).proposal_of(proposal_id) matches Some(p) ==> {
                if p.stake_returned {
                    r == Err::<(), GovernanceError>(GovernanceError::StakeAlreadyReturned)
                } else if p.stake_amount > 0 && old(self).stake_token is None {
                    r == Err::<(), GovernanceError>(GovernanceError::NotInitialized)
                } else {
                    r is Ok && final(self).proposals@ == old(self).proposals@.insert(
                        proposal_id,
                        Proposal { stake_returned: true, ..p },
                    )
                }
            },
            r is Err ==> final(self).proposals@ == old(self).proposals@,
            final(self).votes@ == old(self).votes@,
    {
        let (returned, amount) = match self.proposals.get(&proposal_id) {
            Some(p) => (p.stake_returned, p.stake_amount),
            None => return Err(GovernanceError::ProposalNotFound),
        };
        if returned {
            return Err(GovernanceError::StakeAlreadyReturned);
        }
        if amount > 0 && self.stake_token.is_none() {
            return Err(GovernanceError::NotInitialized);
        }
        self.mark_stake_returned(proposal_id);
        Ok(())
    }

    /// A council member sets the atomic bridge.
    pub fn set_atomic_bridge_contract(&mut self, admin: Address, bridge_contract: Address) -> (r: Result<(), GovernanceError>)
        ensures
            r is Ok <==> old(self).in_council(admin),
            r is Err ==> r == Err::<(), GovernanceError>(GovernanceError::NotCouncilMember)
                && final(self).atomic_bridge_contract == old(self).atomic_bridge_contract,
            r is Ok ==> final(self).atomic_bridge_contract == Some(bridge_contract),
            final(self).proposals@ == old(self).proposals@,
            final(self).council_members@ == old(self).council_members@,
    {
        self.require_council_auth(admin)?;
        self.atomic_bridge_contract = Some(bridge_contract);
        Ok(())
    }
}

/// No one votes on a grant for themselves: a grantee of a proposal, or an
/// address linked to one, is always refused.
pub proof fn lemma_grantee_cannot_vote(payload: Vec<GranteeConfig>, i: int, voter: Address)
    requires
        0 <= i < payload@.len(),
        payload@[i].recipient == voter || payload@[i].linked_addresses@.contains(voter),
    ensures
        has_conflict(Some(payload), voter),
{
    assert(conflicted(payload@[i], voter));
    assert(exists|j: int| 0 <= j < payload@.len() && conflicted(#[trigger] payload@[j], voter));
    let o = Some(payload);
    assert(o->Some_0 == payload);
}

} // verus!
