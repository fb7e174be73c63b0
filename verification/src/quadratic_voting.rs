//! Quadratic voting for community grants: casting `v` votes costs `v²`
//! tokens, and when voting ends the grant pool is shared among proposals in
//! proportion to the square of their votes.
use vstd::prelude::*;
use std::collections::HashMap;
use crate::types::{Address, pair_key, make_pair_key};
use crate::arith::{floor_sqrt, isqrt};

verus! {

broadcast use vstd::std_specs::hash::group_hash_axioms;

/// Fixed-point precision of the vote arithmetic.
pub const QV_PRECISION: u128 = 1_000_000;
/// Most votes one address may cast on one proposal.
pub const MAX_VOTES_PER_PROPOSAL: u128 = 1000;
/// Length of a vote: 7 days.
pub const VOTING_DURATION: u64 = 604800;
/// The grant pool shared when voting ends.
pub const AVAILABLE_GRANT_POOL: i128 = 1_000_000_000;

/// A grant proposal.
#[derive(Debug, Clone, PartialEq, Eq)]
pub struct Proposal {
    pub id: u64,
    pub grant_amount: i128,
    pub description: String,
    pub proposer: Address,
    pub votes_received: u128,
    pub unique_voters: u32,
    pub total_cost: u128,
    pub deadline: u64,
    pub status: ProposalStatus,
    pub created_at: u64,
}

/// A voter's votes on a proposal.
#[derive(Debug, Clone, Copy, PartialEq, Eq, Structural)]
pub struct VoteRecord {
    pub voter: Address,
    pub proposal_id: u64,
    pub votes: u128,
    pub cost: u128,
    pub timestamp: u64,
}

/// A proposal's share of the grant pool.
#[derive(Debug, Clone, Copy, PartialEq, Eq, Structural)]
pub struct GrantAllocation {
    pub proposal_id: u64,
    pub amount: i128,
    pub votes: u128,
    pub unique_voters: u32,
    pub quadratic_weight: u128,
}

/// Why a voting operation was refused.
#[derive(Debug, Clone, Copy, PartialEq, Eq, Structural)]
pub enum QuadraticVotingError {
    InvalidAmount,
    InsufficientTokens,
    MathOverflow,
    ProposalNotFound,
    VotingEnded,
    TooManyVotes,
    AlreadyVoted,
    InvalidProposal,
    NotInitialized,
}

/// Lifecycle of a proposal.
#[derive(Debug, Clone, Copy, PartialEq, Eq, Structural)]
pub enum ProposalStatus {
    Active,
    Approved,
    Rejected,
    Expired,
}

/// Voting parameters.
#[derive(Debug, Clone, Copy, PartialEq, Eq, Structural)]
pub struct VotingConfig {
    pub admin: Address,
    pub voting_token: Address,
    pub precision: u128,
    pub max_votes_per_proposal: u128,
    pub voting_duration: u64,
}

impl Proposal {
    /// A copy of this proposal.
    pub fn duplicate(&self) -> (r: Self)
        ensures
            r == *self,
    {
        Proposal {
            id: self.id,
            grant_amount: self.grant_amount,
            description: self.description.clone(),
            proposer: self.proposer,
            votes_received: self.votes_received,
            unique_voters: self.unique_voters,
            total_cost: self.total_cost,
            deadline: self.deadline,
            status: self.status,
            created_at: self.created_at,
        }
    }
}

/// Cost of `votes` votes, in token units with `QV_PRECISION`: the square of
/// the scaled votes, scaled back once.
pub open spec fn vote_cost(votes: int) -> int {
    (votes * QV_PRECISION) * (votes * QV_PRECISION) / (QV_PRECISION as int)
}

/// Quadratic weight of a proposal's votes.
pub open spec fn quadratic_weight_of(votes: int) -> int {
    votes * votes
}

/// Whether a proposal is still marked active but its vote is over at `now`.
pub open spec fn is_ended(p: Proposal, now: u64) -> bool {
    p.status == ProposalStatus::Active && now > p.deadline
}

/// Total quadratic weight of the proposals among `s` whose vote ended.
pub open spec fn ended_weight(s: Seq<Proposal>, now: u64) -> int
    decreases s.len(),
{
    if s.len() == 0 {
        0
    } else {
        ended_weight(s.drop_last(), now) + if is_ended(s.last(), now) {
            quadratic_weight_of(s.last().votes_received as int)
        } else {
            0
        }
    }
}

/// Grant amount of a proposal with quadratic weight `w` out of `total`.
pub open spec fn grant_share(w: int, total: int) -> int {
    (AVAILABLE_GRANT_POOL as int) * (w * (QV_PRECISION as int) / total) / (QV_PRECISION as int)
}

/// Whether proposal `p` receives an allocation at `now`.
pub open spec fn gets_allocation(p: Proposal, now: u64) -> bool {
    is_ended(p, now) && p.votes_received > 0
}

/// The allocation of proposal `p` when the ended proposals weigh `total`.
pub open spec fn allocation_of(p: Proposal, total: int) -> GrantAllocation {
    let w = quadratic_weight_of(p.votes_received as int);
    GrantAllocation {
        proposal_id: p.id,
        amount: grant_share(w, total) as i128,
        votes: p.votes_received,
        unique_voters: p.unique_voters,
        quadratic_weight: w as u128,
    }
}

/// Allocations of the proposals among `s` that receive one, in order.
pub open spec fn allocations_of(s: Seq<Proposal>, now: u64, total: int) -> Seq<GrantAllocation>
    decreases s.len(),
{
    if s.len() == 0 {
        Seq::empty()
    } else if gets_allocation(s.last(), now) {
        allocations_of(s.drop_last(), now, total).push(allocation_of(s.last(), total))
    } else {
        allocations_of(s.drop_last(), now, total)
    }
}

/// Proposal `p` after allocation: approved when it received a positive
/// amount, rejected when its share rounded to zero.
pub open spec fn settled(p: Proposal, now: u64, total: int) -> Proposal {
    if gets_allocation(p, now) {
        Proposal {
            status: if grant_share(quadratic_weight_of(p.votes_received as int), total) > 0 {
                ProposalStatus::Approved
            } else {
                ProposalStatus::Rejected
            },
            ..p
        }
    } else {
        p
    }
}

/// Whether the allocation arithmetic of `s` at `now` stays in range.
pub open spec fn allocation_fits(s: Seq<Proposal>, now: u64) -> bool {
    &&& ended_weight(s, now) <= u128::MAX
    &&& forall|k: int| 0 <= k < s.len() && #[trigger] gets_allocation(s[k], now)
        ==> quadratic_weight_of(s[k].votes_received as int) * QV_PRECISION <= u128::MAX
}

/// The identifier the next proposal gets.
pub open spec fn next_proposal_id(s: Seq<Proposal>) -> int {
    if s.len() == 0 { 1 } else { s.last().id + 1 }
}

/// Weights are never negative.
proof fn lemma_ended_weight_prefix(s: Seq<Proposal>, now: u64, i: int)
    requires
        0 <= i <= s.len(),
    ensures
        0 <= ended_weight(s.take(i), now) <= ended_weight(s, now),
    decreases s.len(),
{
    if s.len() == 0 {
        assert(s.take(i) =~= s);
    } else if i == s.len() {
        assert(s.take(i) =~= s);
        lemma_ended_weight_prefix(s.drop_last(), now, i - 1);
        assert(s.drop_last().take(i - 1) =~= s.drop_last());
        assert(s.last().votes_received * s.last().votes_received >= 0) by (nonlinear_arith);
    } else {
        assert(s.take(i) =~= s.drop_last().take(i));
        lemma_ended_weight_prefix(s.drop_last(), now, i);
        assert(s.last().votes_received * s.last().votes_received >= 0) by (nonlinear_arith);
    }
}

/// The quadratic voting module.
pub struct QuadraticVoting {
    pub config: Option<VotingConfig>,
    /// Proposals in creation order.
    pub proposals: Vec<Proposal>,
    /// Vote records, keyed by (proposal, voter).
    pub votes: HashMap<u128, VoteRecord>,
    /// Tokens each voter has spent on votes, by voter.
    pub spent: HashMap<u64, u128>,
}

impl QuadraticVoting {
    /// Proposal identifiers increase in creation order, and the configuration
    /// holds the module's constants.
    pub open spec fn wf(&self) -> bool {
        &&& forall|i: int, j: int| 0 <= i < j < self.proposals@.len()
            ==> #[trigger] self.proposals@[i].id < #[trigger] self.proposals@[j].id
        &&& self.config matches Some(c) ==> c.max_votes_per_proposal == MAX_VOTES_PER_PROPOSAL
            && c.voting_duration == VOTING_DURATION
    }

    /// Tokens `voter` has spent.
    pub open spec fn spent_of(&self, voter: Address) -> u128 {
        if self.spent@.contains_key(voter.0) { self.spent@[voter.0] } else { 0 }
    }

    /// Whether a proposal with identifier `id` exists.
    pub open spec fn has_proposal(&self, id: u64) -> bool {
        exists|i: int| 0 <= i < self.proposals@.len() && #[trigger] self.proposals@[i].id == id
    }

    /// A module with no configuration and no proposals.
    pub fn new() -> (r: Self)
        ensures
            r.wf(),
            r.config is None,
            r.proposals@.len() == 0,
            r.votes@ == Map::<u128, VoteRecord>::empty(),
            r.spent@ == Map::<u64, u128>::empty(),
    {
        QuadraticVoting { config: None, proposals: Vec::new(), votes: HashMap::new(), spent: HashMap::new() }
    }

    /// Sets the voting configuration: `admin`, the token votes are paid in,
    /// and the module's constants.
    pub fn initialize_voting(&mut self, admin: Address, voting_token: Address) -> (r: Result<(), QuadraticVotingError>)
        requires
            old(self).wf(),
        ensures
            final(self).wf(),
            r is Ok,
            final(self).config == Some(VotingConfig {
                admin,
                voting_token,
                precision: QV_PRECISION,
                max_votes_per_proposal: MAX_VOTES_PER_PROPOSAL,
                voting_duration: VOTING_DURATION,
            }),
            final(self).proposals@ == old(self).proposals@,
            final(self).votes@ == old(self).votes@,
            final(self).spent@ == old(self).spent@,
    {
        self.config = Some(VotingConfig {
            admin,
            voting_token,
            precision: QV_PRECISION,
            max_votes_per_proposal: MAX_VOTES_PER_PROPOSAL,
            voting_duration: VOTING_DURATION,
        });
        Ok(())
    }

    fn next_id(&self) -> (r: u64)
        requires
            self.wf(),
            next_proposal_id(self.proposals@) <= u64::MAX,
        ensures
            r == next_proposal_id(self.proposals@),
    {
        if self.proposals.len() == 0 {
            return 1;
        }
        let mut max_id: u64 = 0;
        let mut i: usize = 0;
        while i < self.proposals.len()
            invariant
                self.wf(),
                i <= self.proposals@.len(),
                i == 0 ==> max_id == 0,
                i > 0 ==> max_id == self.proposals@[i - 1].id,
            decreases self.proposals.len() - i,
        {
            if self.proposals[i].id > max_id {
                max_id = self.proposals[i].id;
            }
            i = i + 1;
        }
        max_id + 1
    }

    /// Creates an active proposal at `now` asking for `grant_amount`; it can
    /// be voted on for seven days. Returns its identifier, one above the
    /// largest so far.
    pub fn create_proposal(&mut self, proposer: Address, grant_amount: i128, description: String, now: u64) -> (r: Result<u64, QuadraticVotingError>)
        requires
            old(self).wf(),
            next_proposal_id(old(self).proposals@) <= u64::MAX,
            now + VOTING_DURATION <= u64::MAX,
        ensures
            final(self).wf(),
            grant_amount <= 0 ==> r == Err::<u64, QuadraticVotingError>(QuadraticVotingError::InvalidAmount),
            grant_amount > 0 && old(self).config is None ==> r == Err::<u64, QuadraticVotingError>(QuadraticVotingError::NotInitialized),
            r is Err ==> final(self).proposals@ == old(self).proposals@,
            r is Ok <==> grant_amount > 0 && old(self).config is Some,
            r is Ok ==> {
                let id = next_proposal_id(old(self).proposals@);
                &&& r == Ok::<u64, QuadraticVotingError>(id as u64)
                &&& final(self).proposals@ == old(self).proposals@.push(Proposal {
                    id: id as u64,
                    grant_amount,
                    description,
                    proposer,
                    votes_received: 0,
                    unique_voters: 0,
                    total_cost: 0,
                    deadline: (now + VOTING_DURATION) as u64,
                    status: ProposalStatus::Active,
                    created_at: now,
                })
            },
            final(self).config == old(self).config,
            final(self).votes@ == old(self).votes@,
            final(self).spent@ == old(self).spent@,
    {
        if grant_amount <= 0 {
            return Err(QuadraticVotingError::InvalidAmount);
        }
        let config = match self.config {
            Some(c) => c,
            None => return Err(QuadraticVotingError::NotInitialized),
        };
        let id = self.next_id();
        let proposal = Proposal {
            id,
            grant_amount,
            description,
            proposer,
            votes_received: 0,
            unique_voters: 0,
            total_cost: 0,
            deadline: now + config.voting_duration,
            status: ProposalStatus::Active,
            created_at: now,
        };
        self.proposals.push(proposal);
        Ok(id)
    }

    /// Index of the proposal with identifier `id`, if any.
    fn find(&self, id: u64) -> (r: Option<usize>)
        requires
            self.wf(),
        ensures
            r matches Some(i) ==> i < self.proposals@.len() && self.proposals@[i as int].id == id,
            r is None ==> !self.has_proposal(id),
    {
        let mut i: usize = 0;
        while i < self.proposals.len()
            invariant
                i <= self.proposals@.len(),
                forall|j: int| 0 <= j < i ==> #[trigger] self.proposals@[j].id != id,
            decreases self.proposals.len() - i,
        {
            if self.proposals[i].id == id {
                return Some(i);
            }
            i = i + 1;
        }
        None
    }

    /// The proposal with identifier `id`.
    pub fn get_proposal(&self, id: u64) -> (r: Result<Proposal, QuadraticVotingError>)
        requires
            self.wf(),
        ensures
            !self.has_proposal(id) ==> r == Err::<Proposal, QuadraticVotingError>(QuadraticVotingError::ProposalNotFound),
            self.has_proposal(id) ==> r is Ok,
            r matches Ok(p) ==> p.id == id && self.proposals@.contains(p),
    {
        match self.find(id) {
            Some(i) => Ok(self.proposals[i].duplicate()),
            None => Err(QuadraticVotingError::ProposalNotFound),
        }
    }

    /// Whether `voter` has voted on `proposal_id`.
    pub open spec fn has_voted(&self, proposal_id: u64, voter: Address) -> bool {
        self.votes@.contains_key(pair_key(proposal_id, voter.0))
    }

    /// `voter`, holding `voter_balance` tokens, casts `votes` votes on
    /// `proposal_id` at `now`, paying their quadratic cost. Refused for zero
    /// votes, an unknown or closed proposal, a vote past the deadline, more
    /// than 1000 votes, a balance that does not cover everything the voter has
    /// spent plus this cost, and a second vote on the same proposal.
    pub fn cast_vote(&mut self, voter: Address, proposal_id: u64, votes: u128, voter_balance: i128, now: u64) -> (r: Result<(), QuadraticVotingError>)
        requires
            old(self).wf(),
            votes <= MAX_VOTES_PER_PROPOSAL ==> old(self).spent_of(voter) + vote_cost(votes as int) <= u128::MAX,
            votes <= MAX_VOTES_PER_PROPOSAL ==> forall|i: int| 0 <= i < old(self).proposals@.len()
                && #[trigger] old(self).proposals@[i].id == proposal_id ==> {
                    &&& old(self).proposals@[i].votes_received + votes <= u128::MAX
                    &&& old(self).proposals@[i].total_cost + vote_cost(votes as int) <= u128::MAX
                },
        ensures
            final(self).wf(),
            votes == 0 ==> r == Err::<(), QuadraticVotingError>(QuadraticVotingError::InvalidAmount),
            votes > 0 && old(self).config is None ==> r == Err::<(), QuadraticVotingError>(QuadraticVotingError::NotInitialized),
            votes > 0 && old(self).config is Some && !old(self).has_proposal(proposal_id)
                ==> r == Err::<(), QuadraticVotingError>(QuadraticVotingError::ProposalNotFound),
            r is Err ==> final(self).proposals@ == old(self).proposals@ && final(self).votes@ == old(self).votes@
                && final(self).spent@ == old(self).spent@,
            forall|i: int| 0 <= i < old(self).proposals@.len() && #[trigger] old(self).proposals@[i].id == proposal_id
                && votes > 0 && old(self).config is Some ==> {
                let p = old(self).proposals@[i];
                let cost = vote_cost(votes as int);
                if p.status != ProposalStatus::Active {
                    r == Err::<(), QuadraticVotingError>(QuadraticVotingError::ProposalNotFound)
                } else if now > p.deadline {
                    r == Err::<(), QuadraticVotingError>(QuadraticVotingError::VotingEnded)
                } else if votes > MAX_VOTES_PER_PROPOSAL {
                    r == Err::<(), QuadraticVotingError>(QuadraticVotingError::TooManyVotes)
                } else if voter_balance < old(self).spent_of(voter) + cost {
                    r == Err::<(), QuadraticVotingError>(QuadraticVotingError::InsufficientTokens)
                } else if old(self).has_voted(proposal_id, voter) {
                    r == Err::<(), QuadraticVotingError>(QuadraticVotingError::AlreadyVoted)
                } else {
                    &&& r is Ok
                    &&& final(self).proposals@ == old(self).proposals@.update(i, Proposal {
                        votes_received: (p.votes_received + votes) as u128,
                        total_cost: (p.total_cost + cost) as u128,
                        ..p
                    })
                    &&& final(self).votes@ == old(self).votes@.insert(pair_key(proposal_id, voter.0), VoteRecord {
                        voter,
                        proposal_id,
                        votes,
                        cost: cost as u128,
                        timestamp: now,
                    })
                    &&& final(self).spent@ == old(self).spent@.insert(voter.0, (old(self).spent_of(voter) + cost) as u128)
                }
            },
            final(self).config == old(self).config,
    {
        if votes == 0 {
            return Err(QuadraticVotingError::InvalidAmount);
        }
        let config = match self.config {
            Some(c) => c,
            None => return Err(QuadraticVotingError::NotInitialized),
        };
        let i = match self.find(proposal_id) {
            Some(i) => i,
            None => return Err(QuadraticVotingError::ProposalNotFound),
        };
        proof {
            assert forall|j: int| 0 <= j < self.proposals@.len() && #[trigger] self.proposals@[j].id == proposal_id
                implies j == i by {
                if j < i {
                    assert(self.proposals@[j].id < self.proposals@[i as int].id);
                } else if j > i {
                    assert(self.proposals@[i as int].id < self.proposals@[j].id);
                }
            }
        }
        let p = self.proposals[i].duplicate();
        if p.status != ProposalStatus::Active {
            return Err(QuadraticVotingError::ProposalNotFound);
        }
        if now > p.deadline {
            return Err(QuadraticVotingError::VotingEnded);
        }
        if votes > config.max_votes_per_proposal {
            return Err(QuadraticVotingError::TooManyVotes);
        }
        let cost = Self::calculate_vote_cost(votes);
        let already_spent: u128 = match self.spent.get(&voter.0) {
            Some(s) => *s,
            None => 0,
        };
        let needed = already_spent + cost;
        if voter_balance < 0 || (voter_balance as u128) < needed {
            return Err(QuadraticVotingError::InsufficientTokens);
        }
        let vote_key = make_pair_key(proposal_id, voter.0);
        if self.votes.contains_key(&vote_key) {
            return Err(QuadraticVotingError::AlreadyVoted);
        }
        let record = VoteRecord { voter, proposal_id, votes, cost, timestamp: now };
        self.votes.insert(vote_key, record);
        self.spent.insert(voter.0, needed);
        let updated = Proposal {
            votes_received: p.votes_received + votes,
            total_cost: p.total_cost + cost,
            ..p
        };
        self.proposals.set(i, updated);
        Ok(())
    }

    /// Shares the grant pool at `now` among the proposals whose vote has
    /// ended, in proportion to the square of their votes: each proposal with
    /// votes gets `pool * (weight * 1e6 / total_weight) / 1e6` and becomes
    /// approved, or rejected when that rounds to zero. Returns the
    /// allocations in proposal order. `admin` is the signer of the request.
    pub fn allocate_grants(&mut self, admin: Address, now: u64) -> (r: Result<Vec<GrantAllocation>, QuadraticVotingError>)
        requires
            old(self).wf(),
            allocation_fits(old(self).proposals@, now),
        ensures
            final(self).wf(),
            r matches Ok(v) && v@ == allocations_of(old(self).proposals@, now, ended_weight(old(self).proposals@, now)),
            final(self).proposals@ == Seq::new(
                old(self).proposals@.len(),
                |k: int| settled(old(self).proposals@[k], now, ended_weight(old(self).proposals@, now)),
            ),
            final(self).config == old(self).config,
            final(self).votes@ == old(self).votes@,
            final(self).spent@ == old(self).spent@,
    {
        let ghost s = self.proposals@;
        let mut total: u128 = 0;
        let mut i: usize = 0;
        while i < self.proposals.len()
            invariant
                s == self.proposals@,
                i <= s.len(),
                allocation_fits(s, now),
                total == ended_weight(s.take(i as int), now),
            decreases self.proposals.len() - i,
        {
            proof {
                assert(s.take(i + 1).drop_last() =~= s.take(i as int));
                lemma_ended_weight_prefix(s, now, i + 1);
            }
            let p = &self.proposals[i];
            if p.status == ProposalStatus::Active && now > p.deadline {
                proof {
                    assert(p.votes_received * p.votes_received <= ended_weight(s.take(i + 1), now));
                }
                total = total + Self::calculate_quadratic_weight(p.votes_received);
            }
            i = i + 1;
        }
        proof {
            assert(s.take(s.len() as int) =~= s);
        }
        let ghost t = total as int;
        let pool = Self::get_available_grant_pool() as u128;
        let mut out: Vec<GrantAllocation> = Vec::new();
        let mut k: usize = 0;
        while k < self.proposals.len()
            invariant
                k <= s.len(),
                self.proposals@.len() == s.len(),
                total == ended_weight(s, now),
                t == total,
                pool == AVAILABLE_GRANT_POOL,
                allocation_fits(s, now),
                self.wf(),
                self.config == old(self).config,
                self.votes@ == old(self).votes@,
                self.spent@ == old(self).spent@,
                forall|j: int| 0 <= j < s.len() ==> #[trigger] self.proposals@[j].id == s[j].id,
                forall|j: int| k <= j < s.len() ==> #[trigger] self.proposals@[j] == s[j],
                forall|j: int| 0 <= j < k ==> #[trigger] self.proposals@[j] == settled(s[j], now, t),
                out@ == allocations_of(s.take(k as int), now, t),
            decreases self.proposals.len() - k,
        {
            proof {
                assert(s.take(k + 1).drop_last() =~= s.take(k as int));
                assert(s.take(k + 1).last() == s[k as int]);
            }
            let p = self.proposals[k].duplicate();
            if p.status == ProposalStatus::Active && now > p.deadline && p.votes_received > 0 {
                let weight = Self::calculate_quadratic_weight(p.votes_received);
                proof {
                    assert(gets_allocation(s[k as int], now));
                    assert(weight > 0) by (nonlinear_arith)
                        requires
                            weight == p.votes_received * p.votes_received,
                            p.votes_received > 0,
                    ;
                    lemma_ended_weight_positive(s, now, k as int);
                    assert((weight * 1_000_000) / (total as int) <= 1_000_000) by (nonlinear_arith)
                        requires
                            weight <= total,
                            total > 0,
                    ;
                }
                let ratio = (weight * QV_PRECISION) / total;
                let amount = (pool * ratio) / QV_PRECISION;
                out.push(GrantAllocation {
                    proposal_id: p.id,
                    amount: amount as i128,
                    votes: p.votes_received,
                    unique_voters: p.unique_voters,
                    quadratic_weight: weight,
                });
                let status = if amount > 0 { ProposalStatus::Approved } else { ProposalStatus::Rejected };
                let updated = Proposal { status, ..p };
                self.proposals.set(k, updated);
            }
            k = k + 1;
        }
        proof {
            assert(s.take(s.len() as int) =~= s);
            assert(self.proposals@ =~= Seq::new(s.len(), |j: int| settled(s[j], now, t)));
        }
        Ok(out)
    }

    /// Cost of `votes` votes: `votes²` with `QV_PRECISION`.
    pub fn calculate_vote_cost(votes: u128) -> (r: u128)
        requires
            votes <= MAX_VOTES_PER_PROPOSAL,
        ensures
            r == vote_cost(votes as int),
            r == votes * votes * QV_PRECISION,
    {
        proof {
            assert((votes * QV_PRECISION) * (votes * QV_PRECISION) / (QV_PRECISION as int) == votes * votes * QV_PRECISION)
                by (nonlinear_arith)
                requires
                    votes <= 1000,
            ;
            assert((votes * QV_PRECISION) * (votes * QV_PRECISION) <= 1_000_000_000_000_000_000) by (nonlinear_arith)
                requires
                    votes <= 1000,
            ;
        }
        let votes_scaled = votes * QV_PRECISION;
        let cost_scaled = votes_scaled * votes_scaled;
        cost_scaled / QV_PRECISION
    }

    /// Votes bought by `cost`: the integer square root of the scaled cost,
    /// scaled back.
    pub fn calculate_votes_from_cost(cost: u128) -> (r: u128)
        requires
            cost * QV_PRECISION < u128::MAX,
        ensures
            r == isqrt(cost * QV_PRECISION) / (QV_PRECISION as int),
    {
        let scaled = cost * QV_PRECISION;
        let root = floor_sqrt(scaled);
        root / QV_PRECISION
    }

    /// Quadratic weight of `votes`: their square.
    pub fn calculate_quadratic_weight(votes: u128) -> (r: u128)
        requires
            votes * votes <= u128::MAX,
        ensures
            r == quadratic_weight_of(votes as int),
    {
        votes * votes
    }

    /// The grant pool shared among proposals.
    pub fn get_available_grant_pool() -> (r: i128)
        ensures
            r == AVAILABLE_GRANT_POOL,
    {
        AVAILABLE_GRANT_POOL
    }

    /// Tokens `voter` has spent on votes.
    pub fn get_voter_tokens_spent(&self, voter: Address) -> (r: u128)
        ensures
            r == self.spent_of(voter),
    {
        match self.spent.get(&voter.0) {
            Some(s) => *s,
            None => 0,
        }
    }

    /// Votes `voter` cast on `proposal_id`; zero without a vote.
    pub fn get_proposal_votes(&self, proposal_id: u64, voter: Address) -> (r: u128)
        ensures
            r == (if self.has_voted(proposal_id, voter) { self.votes@[pair_key(proposal_id, voter.0)].votes } else { 0 }),
    {
        match self.votes.get(&make_pair_key(proposal_id, voter.0)) {
            Some(v) => v.votes,
            None => 0,
        }
    }
}

/// An ended proposal's weight is part of the total.
proof fn lemma_ended_weight_positive(s: Seq<Proposal>, now: u64, k: int)
    requires
        0 <= k < s.len(),
        is_ended(s[k], now),
    ensures
        quadratic_weight_of(s[k].votes_received as int) <= ended_weight(s, now),
    decreases s.len(),
{
    assert(s[k].votes_received * s[k].votes_received >= 0) by (nonlinear_arith);
    if k == s.len() - 1 {
        lemma_ended_weight_prefix(s.drop_last(), now, 0);
        assert(s.drop_last().take(0) =~= Seq::<Proposal>::empty());
    } else {
        lemma_ended_weight_positive(s.drop_last(), now, k);
        assert(s.last().votes_received * s.last().votes_received >= 0) by (nonlinear_arith);
    }
}

/// The shares never exceed the pool: each allocation is at most the pool.
pub proof fn lemma_allocation_within_pool(w: int, total: int)
    requires
        0 <= w <= total,
        total > 0,
    ensures
        0 <= grant_share(w, total) <= AVAILABLE_GRANT_POOL,
{
    assert(0 <= w * 1_000_000 / total <= 1_000_000) by (nonlinear_arith)
        requires
            0 <= w <= total,
            total > 0,
    ;
    let ratio = w * 1_000_000 / total;
    assert(0 <= 1_000_000_000 * ratio / 1_000_000 <= 1_000_000_000) by (nonlinear_arith)
        requires
            0 <= ratio <= 1_000_000,
    ;
}

} // verus!
