//! Recursive funding cycles: a grant that delivered can be renewed, after a
//! DAO veto period and a voting period.
use vstd::prelude::*;
use std::collections::{HashMap, HashSet};
use vstd::string::StringExecFns;
use crate::types::{Address, pair_key, make_pair_key};

verus! {

broadcast use vstd::std_specs::hash::group_hash_axioms;

pub const RECURSIVE_FUNDING_VERSION: u32 = 1;
/// Default length of the DAO veto period, in days.
pub const DEFAULT_VETO_PERIOD_DAYS: u64 = 14;
/// Default months a grant must have completed.
pub const MIN_RENEWAL_ELIGIBILITY_MONTHS: u64 = 12;
/// Default most renewals of one grant.
pub const MAX_RENEWAL_CYCLES: u32 = 10;
/// Length of the voting period after the veto period: 7 days.
pub const RENEWAL_PROPOSAL_DURATION: u64 = 604800;
/// Share of vetoes among voters that vetoes a renewal, in basis points: 20%.
pub const RENEWAL_VETO_THRESHOLD: u32 = 2000;
/// Participation a renewal needs, in basis points: 10%.
pub const MIN_VOTING_PARTICIPATION_RENEWAL: u32 = 1000;
pub const AUTO_RENEWAL_ENABLED: bool = true;
pub const SECONDS_PER_DAY: u64 = 86400;
/// A month counts as 30 days.
pub const SECONDS_PER_MONTH: u64 = 2592000;
/// Members of the DAO, as counted until the governance contract reports them.
pub const ESTIMATED_DAO_MEMBERS: u64 = 1000;
/// Offset between renewal identifiers and the ids of renewed grants.
pub const RENEWED_GRANT_ID_OFFSET: u64 = 1000;
/// Community impact credited to a grant until its metrics are reported.
pub const DEFAULT_COMMUNITY_IMPACT: u32 = 85;
/// Technical excellence credited to a grant until reviews are reported.
pub const DEFAULT_TECHNICAL_EXCELLENCE: u32 = 90;

/// Delivery record of a grant.
#[derive(Debug, Clone, Copy, PartialEq, Eq, Structural)]
pub struct PerformanceMetrics {
    pub milestones_completed: u32,
    pub total_milestones: u32,
    /// In basis points.
    pub completion_rate: u32,
    pub average_delivery_time: u64,
    /// 0 to 100, as the following scores.
    pub community_satisfaction: u32,
    pub code_quality_score: u32,
    pub documentation_quality: u32,
    pub collaboration_score: u32,
    pub innovation_score: u32,
}

/// Lifecycle of a renewal proposal.
#[derive(Debug, Clone, Copy, PartialEq, Eq, Structural)]
pub enum RenewalStatus {
    Proposed,
    VetoPeriod,
    VotingPeriod,
    Approved,
    Vetoed,
    Rejected,
    Executed,
    Expired,
    Cancelled,
}

/// A proposal to renew a grant.
#[derive(Debug, Clone, PartialEq, Eq)]
pub struct RenewalProposal {
    pub proposal_id: u64,
    pub original_grant_id: u64,
    pub proposer: Address,
    pub renewal_amount: i128,
    /// In seconds.
    pub renewal_duration: u64,
    pub justification: String,
    pub performance_metrics: PerformanceMetrics,
    pub proposed_at: u64,
    pub voting_deadline: u64,
    pub veto_deadline: u64,
    pub status: RenewalStatus,
    pub veto_count: u32,
    pub approval_count: u32,
    pub total_voters: u32,
    pub executed_at: Option<u64>,
    pub new_grant_id: Option<u64>,
}

/// Whether a grant may be renewed, and why.
#[derive(Debug, Clone, PartialEq, Eq)]
pub struct JobSecurityEligibility {
    pub grant_id: u64,
    pub is_eligible: bool,
    pub eligibility_reason: String,
    pub critical_infrastructure: bool,
    pub continuous_contribution: bool,
    /// 0 to 100.
    pub community_impact: u32,
    /// 0 to 100.
    pub technical_excellence: u32,
    pub renewal_count: u32,
    pub last_evaluation: u64,
}

/// Configuration of renewals.
#[derive(Debug, Clone, Copy, PartialEq, Eq, Structural)]
pub struct RenewalConfig {
    pub admin: Address,
    pub veto_period_days: u64,
    pub min_eligibility_months: u64,
    pub max_renewal_cycles: u32,
    /// In basis points.
    pub veto_threshold: u32,
    /// In basis points.
    pub min_voting_participation: u32,
    pub auto_renewal_enabled: bool,
    /// Weights in eligibility, in basis points.
    pub performance_weight: u32,
    pub community_weight: u32,
    pub technical_weight: u32,
}

/// Totals over all renewals.
#[derive(Debug, Clone, Copy, PartialEq, Eq, Structural)]
pub struct RecursiveFundingMetrics {
    pub total_renewal_proposals: u32,
    pub successful_renewals: u32,
    pub vetoed_proposals: u32,
    pub rejected_proposals: u32,
    /// Mean time from proposal to execution.
    pub average_renewal_time: u64,
    pub critical_projects_renewed: u32,
    pub total_renewed_amount: i128,
    /// Successful renewals per proposal, in basis points.
    pub job_security_score: u32,
    pub last_updated: u64,
}

/// Errors of recursive funding.
#[derive(Debug, Clone, Copy, PartialEq, Eq, Structural)]
pub enum RecursiveFundingError {
    NotInitialized,
    Unauthorized,
    GrantNotFound,
    ProposalNotFound,
    NotEligibleForRenewal,
    RenewalLimitExceeded,
    InvalidTiming,
    VetoPeriodActive,
    VotingPeriodActive,
    ProposalExpired,
    AlreadyVoted,
    InsufficientParticipation,
    VetoThresholdReached,
    InvalidAmount,
    InvalidDuration,
    PerformanceMetricsIncomplete,
    AutoRenewalDisabled,
    MathOverflow,
    TokenError,
}

/// Storage keys of the records.
#[derive(Debug, Clone, Copy, PartialEq, Eq, Structural)]
pub enum RecursiveFundingDataKey {
    Config,
    RenewalProposal(u64),
    GrantEligibility(u64),
    GrantRenewals(u64),
    NextRenewalProposalId,
    ActiveRenewalProposals,
    Metrics,
    VetoVotes(u64, Address),
    ApprovalVotes(u64, Address),
    CriticalInfrastructure,
}

/// Whether the parameters of a configuration are acceptable: a veto period
/// of 1 to 30 days, 6 to 24 months of eligibility and 1 to 20 renewals.
pub open spec fn valid_renewal_params(veto_period_days: u64, min_eligibility_months: u64, max_renewal_cycles: u32) -> bool {
    &&& 1 <= veto_period_days <= 30
    &&& 6 <= min_eligibility_months <= 24
    &&& 1 <= max_renewal_cycles <= 20
}

/// The error the parameters of a configuration meet, or `None`.
pub open spec fn renewal_params_error(veto_period_days: u64, min_eligibility_months: u64, max_renewal_cycles: u32) -> Option<
    RecursiveFundingError,
> {
    if veto_period_days == 0 || veto_period_days > 30 {
        Some(RecursiveFundingError::InvalidTiming)
    } else if min_eligibility_months < 6 || min_eligibility_months > 24 {
        Some(RecursiveFundingError::InvalidTiming)
    } else if max_renewal_cycles == 0 || max_renewal_cycles > 20 {
        Some(RecursiveFundingError::InvalidAmount)
    } else {
        None
    }
}

/// `e` is the eligibility first recorded for grant `grant_id` at `now`: a
/// grant that completed is eligible, with the default scores and no renewal.
pub open spec fn first_eligibility(e: JobSecurityEligibility, grant_id: u64, now: u64) -> bool {
    &&& e.grant_id == grant_id
    &&& e.is_eligible
    &&& e.eligibility_reason@ == "Grant meets all renewal criteria"@
    &&& e.critical_infrastructure
    &&& e.continuous_contribution
    &&& e.community_impact == DEFAULT_COMMUNITY_IMPACT
    &&& e.technical_excellence == DEFAULT_TECHNICAL_EXCELLENCE
    &&& e.renewal_count == 0
    &&& e.last_evaluation == now
}

/// Successful renewals per proposal, in basis points.
pub open spec fn security_score(successful: u32, total: u32) -> u32 {
    (successful as int * 10000 / total as int) as u32
}

/// `ids` without `x`.
pub open spec fn without_id(ids: Seq<u64>, x: u64) -> Seq<u64> {
    ids.filter(|y: u64| y != x)
}

/// `ids` without `x`.
fn remove_id(ids: &Vec<u64>, x: u64) -> (r: Vec<u64>)
    ensures
        r@ == without_id(ids@, x),
{
    let mut out: Vec<u64> = Vec::new();
    let mut i: usize = 0;
    while i < ids.len()
        invariant
            i <= ids@.len(),
            out@ == without_id(ids@.take(i as int), x),
        decreases ids.len() - i,
    {
        proof {
            assert(ids@.take(i + 1).drop_last() =~= ids@.take(i as int));
            reveal_with_fuel(Seq::<u64>::filter, 1);
        }
        if ids[i] != x {
            out.push(ids[i]);
        }
        i = i + 1;
    }
    assert(ids@.take(ids@.len() as int) =~= ids@);
    out
}

/// Whether `x` appears in `s`.
fn contains_id(s: &Vec<u64>, x: u64) -> (r: bool)
    ensures
        r == s@.contains(x),
{
    let mut i: usize = 0;
    while i < s.len()
        invariant
            i <= s.len(),
            forall|j: int| 0 <= j < i ==> s@[j] != x,
        decreases s.len() - i,
    {
        if s[i] == x {
            return true;
        }
        i = i + 1;
    }
    false
}

impl JobSecurityEligibility {
    /// A copy of this record.
    pub fn duplicate(&self) -> (r: Self)
        ensures
            r == *self,
    {
        JobSecurityEligibility {
            grant_id: self.grant_id,
            is_eligible: self.is_eligible,
            eligibility_reason: self.eligibility_reason.clone(),
            critical_infrastructure: self.critical_infrastructure,
            continuous_contribution: self.continuous_contribution,
            community_impact: self.community_impact,
            technical_excellence: self.technical_excellence,
            renewal_count: self.renewal_count,
            last_evaluation: self.last_evaluation,
        }
    }
}

/// The renewal system's state.
pub struct RecursiveFundingContract {
    /// The contract's own address: the proposer and voter of record.
    pub contract_address: Address,
    pub config: Option<RenewalConfig>,
    pub metrics: Option<RecursiveFundingMetrics>,
    pub proposals: HashMap<u64, RenewalProposal>,
    pub eligibility: HashMap<u64, JobSecurityEligibility>,
    /// Renewal proposals of each grant, in order.
    pub grant_renewals: HashMap<u64, Vec<u64>>,
    pub next_proposal_id: u64,
    /// Proposals in their veto or voting period, in order.
    pub active_proposals: Vec<u64>,
    /// Veto votes, keyed by `pair_key(proposal, voter)`.
    pub veto_votes: HashSet<u128>,
    /// Approval votes, keyed by `pair_key(proposal, voter)`.
    pub approval_votes: HashSet<u128>,
    pub critical_infrastructure: Vec<u64>,
}

impl RecursiveFundingContract {
    /// Configuration and metrics come together; proposals are keyed by their
    /// ids, below the next id, and voting never ends before the veto period;
    /// active proposals exist; nothing exists before initialization.
    pub open spec fn wf(&self) -> bool {
        &&& self.config is Some <==> self.metrics is Some
        &&& self.config matches Some(c) ==> valid_renewal_params(c.veto_period_days, c.min_eligibility_months, c.max_renewal_cycles)
        &&& self.config is None ==> self.proposals@.dom().is_empty() && self.active_proposals@.len() == 0
        &&& forall|k: u64| #[trigger] self.proposals@.contains_key(k) ==> {
            &&& k < self.next_proposal_id
            &&& self.proposals@[k].proposal_id == k
            &&& self.proposals@[k].proposed_at <= self.proposals@[k].veto_deadline
        }
        &&& forall|j: int| 0 <= j < self.active_proposals@.len() ==> self.proposals@.contains_key(#[trigger] self.active_proposals@[j])
        &&& self.active_proposals@.no_duplicates()
    }

    /// A renewal system at `contract_address`, not yet initialized.
    pub fn new(contract_address: Address) -> (r: Self)
        ensures
            r.wf(),
            r.contract_address == contract_address,
            r.config is None,
            r.metrics is None,
            r.next_proposal_id == 1,
            r.proposals@ == Map::<u64, RenewalProposal>::empty(),
            r.eligibility@ == Map::<u64, JobSecurityEligibility>::empty(),
            r.grant_renewals@ == Map::<u64, Vec<u64>>::empty(),
            r.active_proposals@ == Seq::<u64>::empty(),
            r.veto_votes@ == Set::<u128>::empty(),
            r.approval_votes@ == Set::<u128>::empty(),
            r.critical_infrastructure@ == Seq::<u64>::empty(),
    {
        RecursiveFundingContract {
            contract_address,
            config: None,
            metrics: None,
            proposals: HashMap::new(),
            eligibility: HashMap::new(),
            grant_renewals: HashMap::new(),
            next_proposal_id: 1,
            active_proposals: Vec::new(),
            veto_votes: HashSet::new(),
            approval_votes: HashSet::new(),
            critical_infrastructure: Vec::new(),
        }
    }

    /// Initializes renewals at `now`. A second initialization fails with
    /// `NotInitialized`; a veto period outside 1..=30 days or an eligibility
    /// outside 6..=24 months fails with `InvalidTiming`, a renewal limit
    /// outside 1..=20 with `InvalidAmount`.
    pub fn initialize(
        &mut self,
        admin: Address,
        veto_period_days: u64,
        min_eligibility_months: u64,
        max_renewal_cycles: u32,
        now: u64,
    ) -> (r: Result<(), RecursiveFundingError>)
        requires
            old(self).wf(),
        ensures
            final(self).wf(),
            old(self).config is Some ==> r == Err::<(), RecursiveFundingError>(RecursiveFundingError::NotInitialized),
            old(self).config is None ==> match renewal_params_error(veto_period_days, min_eligibility_months, max_renewal_cycles) {
                Some(e) => r == Err::<(), RecursiveFundingError>(e),
                None => r is Ok,
            },
            r is Err ==> final(self).config == old(self).config && final(self).metrics == old(self).metrics
                && final(self).next_proposal_id == old(self).next_proposal_id
                && final(self).active_proposals@ == old(self).active_proposals@
                && final(self).critical_infrastructure@ == old(self).critical_infrastructure@,
            r is Ok ==> {
                &&& final(self).config == Some(RenewalConfig {
                    admin,
                    veto_period_days,
                    min_eligibility_months,
                    max_renewal_cycles,
                    veto_threshold: RENEWAL_VETO_THRESHOLD,
                    min_voting_participation: MIN_VOTING_PARTICIPATION_RENEWAL,
                    auto_renewal_enabled: AUTO_RENEWAL_ENABLED,
                    performance_weight: 4000,
                    community_weight: 3000,
                    technical_weight: 3000,
                })
                &&& final(self).metrics == Some(RecursiveFundingMetrics {
                    total_renewal_proposals: 0,
                    successful_renewals: 0,
                    vetoed_proposals: 0,
                    rejected_proposals: 0,
                    average_renewal_time: 0,
                    critical_projects_renewed: 0,
                    total_renewed_amount: 0,
                    job_security_score: 0,
                    last_updated: now,
                })
                &&& final(self).next_proposal_id == 1
                &&& final(self).active_proposals@.len() == 0
                &&& final(self).critical_infrastructure@.len() == 0
            },
            final(self).proposals@ == old(self).proposals@,
            final(self).eligibility@ == old(self).eligibility@,
            final(self).grant_renewals@ == old(self).grant_renewals@,
            final(self).veto_votes@ == old(self).veto_votes@,
            final(self).approval_votes@ == old(self).approval_votes@,
            final(self).contract_address == old(self).contract_address,
    {
        if self.config.is_some() {
            return Err(RecursiveFundingError::NotInitialized);
        }
        if veto_period_days == 0 || veto_period_days > 30 {
            return Err(RecursiveFundingError::InvalidTiming);
        }
        if min_eligibility_months < 6 || min_eligibility_months > 24 {
            return Err(RecursiveFundingError::InvalidTiming);
        }
        if max_renewal_cycles == 0 || max_renewal_cycles > 20 {
            return Err(RecursiveFundingError::InvalidAmount);
        }
        self.config = Some(RenewalConfig {
            admin,
            veto_period_days,
            min_eligibility_months,
            max_renewal_cycles,
            veto_threshold: RENEWAL_VETO_THRESHOLD,
            min_voting_participation: MIN_VOTING_PARTICIPATION_RENEWAL,
            auto_renewal_enabled: AUTO_RENEWAL_ENABLED,
            performance_weight: 4000,
            community_weight: 3000,
            technical_weight: 3000,
        });
        self.next_proposal_id = 1;
        self.active_proposals = Vec::new();
        self.critical_infrastructure = Vec::new();
        self.metrics = Some(RecursiveFundingMetrics {
            total_renewal_proposals: 0,
            successful_renewals: 0,
            vetoed_proposals: 0,
            rejected_proposals: 0,
            average_renewal_time: 0,
            critical_projects_renewed: 0,
            total_renewed_amount: 0,
            job_security_score: 0,
            last_updated: now,
        });
        Ok(())
    }

    /// The configuration; `NotInitialized` before initialization.
    pub fn get_config(&self) -> (r: Result<RenewalConfig, RecursiveFundingError>)
        ensures
            self.config matches Some(c) ==> r == Ok::<RenewalConfig, RecursiveFundingError>(c),
            self.config is None ==> r == Err::<RenewalConfig, RecursiveFundingError>(RecursiveFundingError::NotInitialized),
    {
        match self.config {
            Some(c) => Ok(c),
            None => Err(RecursiveFundingError::NotInitialized),
        }
    }

    /// The metrics; `NotInitialized` before initialization.
    pub fn get_recursive_funding_metrics(&self) -> (r: Result<RecursiveFundingMetrics, RecursiveFundingError>)
        ensures
            self.metrics matches Some(m) ==> r == Ok::<RecursiveFundingMetrics, RecursiveFundingError>(m),
            self.metrics is None ==> r == Err::<RecursiveFundingMetrics, RecursiveFundingError>(RecursiveFundingError::NotInitialized),
    {
        match self.metrics {
            Some(m) => Ok(m),
            None => Err(RecursiveFundingError::NotInitialized),
        }
    }

    /// Proposal `proposal_id`; `ProposalNotFound` if there is none.
    pub fn get_renewal_proposal(&self, proposal_id: u64) -> (r: Result<&RenewalProposal, RecursiveFundingError>)
        ensures
            self.proposals@.contains_key(proposal_id) ==> r == Ok::<&RenewalProposal, RecursiveFundingError>(&self.proposals@[proposal_id]),
            !self.proposals@.contains_key(proposal_id) ==> r == Err::<&RenewalProposal, RecursiveFundingError>(
                RecursiveFundingError::ProposalNotFound,
            ),
    {
        match self.proposals.get(&proposal_id) {
            Some(p) => Ok(p),
            None => Err(RecursiveFundingError::ProposalNotFound),
        }
    }

    /// The recorded eligibility of grant `grant_id`; `GrantNotFound` if none.
    pub fn get_grant_eligibility(&self, grant_id: u64) -> (r: Result<JobSecurityEligibility, RecursiveFundingError>)
        ensures
            self.eligibility@.contains_key(grant_id) ==> r == Ok::<JobSecurityEligibility, RecursiveFundingError>(
                self.eligibility@[grant_id],
            ),
            !self.eligibility@.contains_key(grant_id) ==> r == Err::<JobSecurityEligibility, RecursiveFundingError>(
                RecursiveFundingError::GrantNotFound,
            ),
    {
        match self.eligibility.get(&grant_id) {
            Some(e) => Ok(e.duplicate()),
            None => Err(RecursiveFundingError::GrantNotFound),
        }
    }
}

/// The list kept under `key`, or the empty list.
pub open spec fn id_list(lists: Map<u64, Vec<u64>>, key: u64) -> Seq<u64> {
    if lists.contains_key(key) { lists[key]@ } else { Seq::empty() }
}

/// Share of vetoes among a proposal's voters, in basis points; none without
/// voters.
pub open spec fn veto_share(p: RenewalProposal) -> int {
    if p.total_voters > 0 { p.veto_count as int * 10000 / p.total_voters as int } else { 0 }
}

/// A proposal with `status`.
pub open spec fn with_status(p: RenewalProposal, status: RenewalStatus) -> RenewalProposal {
    RenewalProposal { status, ..p }
}

impl RecursiveFundingContract {
    /// Renewals grant `g` has had so far, by its recorded eligibility.
    pub open spec fn renewal_count_of(&self, g: u64) -> u32 {
        if self.eligibility@.contains_key(g) { self.eligibility@[g].renewal_count } else { 0 }
    }

    /// Checks whether grant `grant_id` may be renewed, at `now`. The first
    /// check records the grant as eligible (a completed grant qualifies);
    /// later checks return the record.
    pub fn check_renewal_eligibility(&mut self, grant_id: u64, now: u64) -> (r: Result<JobSecurityEligibility, RecursiveFundingError>)
        requires
            old(self).wf(),
        ensures
            final(self).wf(),
            old(self).eligibility@.contains_key(grant_id) ==> r == Ok::<JobSecurityEligibility, RecursiveFundingError>(
                old(self).eligibility@[grant_id],
            ) && final(self).eligibility@ == old(self).eligibility@,
            !old(self).eligibility@.contains_key(grant_id) && old(self).config is None ==> r == Err::<
                JobSecurityEligibility,
                RecursiveFundingError,
            >(RecursiveFundingError::NotInitialized) && final(self).eligibility@ == old(self).eligibility@,
            !old(self).eligibility@.contains_key(grant_id) && old(self).config is Some ==> (r matches Ok(e)
                && first_eligibility(e, grant_id, now) && final(self).eligibility@ == old(self).eligibility@.insert(grant_id, e)),
            final(self).config == old(self).config,
            final(self).metrics == old(self).metrics,
            final(self).proposals@ == old(self).proposals@,
            final(self).grant_renewals@ == old(self).grant_renewals@,
            final(self).next_proposal_id == old(self).next_proposal_id,
            final(self).active_proposals@ == old(self).active_proposals@,
            final(self).veto_votes@ == old(self).veto_votes@,
            final(self).approval_votes@ == old(self).approval_votes@,
            final(self).critical_infrastructure@ == old(self).critical_infrastructure@,
            final(self).contract_address == old(self).contract_address,
    {
        if let Some(e) = self.eligibility.get(&grant_id) {
            return Ok(e.duplicate());
        }
        if self.config.is_none() {
            return Err(RecursiveFundingError::NotInitialized);
        }
        // A completed grant has served at least the minimum months.
        let eligibility = JobSecurityEligibility {
            grant_id,
            is_eligible: true,
            eligibility_reason: String::from_str("Grant meets all renewal criteria"),
            critical_infrastructure: true,
            continuous_contribution: true,
            community_impact: DEFAULT_COMMUNITY_IMPACT,
            technical_excellence: DEFAULT_TECHNICAL_EXCELLENCE,
            renewal_count: 0,
            last_evaluation: now,
        };
        let result = eligibility.duplicate();
        self.eligibility.insert(grant_id, eligibility);
        Ok(result)
    }

    /// The error a renewal proposal meets, or `None`.
    pub open spec fn proposal_error(&self, grant_id: u64, renewal_amount: i128, renewal_duration_months: u64) -> Option<
        RecursiveFundingError,
    > {
        if !self.eligibility@.contains_key(grant_id) && self.config is None {
            Some(RecursiveFundingError::NotInitialized)
        } else if self.eligibility@.contains_key(grant_id) && !self.eligibility@[grant_id].is_eligible {
            Some(RecursiveFundingError::NotEligibleForRenewal)
        } else if self.config is None {
            Some(RecursiveFundingError::NotInitialized)
        } else if renewal_amount <= 0 {
            Some(RecursiveFundingError::InvalidAmount)
        } else if renewal_duration_months < 6 || renewal_duration_months > 24 {
            Some(RecursiveFundingError::InvalidDuration)
        } else if self.renewal_count_of(grant_id) >= self.config.unwrap().max_renewal_cycles {
            Some(RecursiveFundingError::RenewalLimitExceeded)
        } else {
            None
        }
    }

    /// Whether a proposal at `now` stays in range.
    pub open spec fn proposal_fits(&self, now: u64) -> bool {
        &&& self.next_proposal_id < u64::MAX
        &&& self.config matches Some(c) ==> now + c.veto_period_days * SECONDS_PER_DAY + RENEWAL_PROPOSAL_DURATION <= u64::MAX
        &&& self.metrics matches Some(m) ==> m.total_renewal_proposals < u32::MAX
    }

    /// Proposes at `now` to renew grant `original_grant_id` with
    /// `renewal_amount` for `renewal_duration_months` months. The proposal
    /// opens a veto period of the configured days, followed by a week of
    /// voting. Returns the proposal's id.
    pub fn propose_renewal(
        &mut self,
        original_grant_id: u64,
        renewal_amount: i128,
        renewal_duration_months: u64,
        justification: String,
        performance_metrics: PerformanceMetrics,
        now: u64,
    ) -> (r: Result<u64, RecursiveFundingError>)
        requires
            old(self).wf(),
            old(self).proposal_fits(now),
        ensures
            final(self).wf(),
            r is Err <==> old(self).proposal_error(original_grant_id, renewal_amount, renewal_duration_months) is Some,
            r matches Err(e) ==> old(self).proposal_error(original_grant_id, renewal_amount, renewal_duration_months) == Some(e),
            r is Err ==> {
                &&& final(self).proposals@ == old(self).proposals@
                &&& final(self).eligibility@ == old(self).eligibility@
                &&& final(self).grant_renewals@ == old(self).grant_renewals@
                &&& final(self).next_proposal_id == old(self).next_proposal_id
                &&& final(self).active_proposals@ == old(self).active_proposals@
                &&& final(self).metrics == old(self).metrics
            },
            r matches Ok(id) ==> {
                let c = old(self).config.unwrap();
                let m = old(self).metrics.unwrap();
                let veto_deadline = now + c.veto_period_days * SECONDS_PER_DAY;
                &&& id == old(self).next_proposal_id
                &&& final(self).next_proposal_id == id + 1
                &&& final(self).proposals@ == old(self).proposals@.insert(id, RenewalProposal {
                    proposal_id: id,
                    original_grant_id,
                    proposer: old(self).contract_address,
                    renewal_amount,
                    renewal_duration: (renewal_duration_months * SECONDS_PER_MONTH) as u64,
                    justification,
                    performance_metrics,
                    proposed_at: now,
                    voting_deadline: (veto_deadline + RENEWAL_PROPOSAL_DURATION) as u64,
                    veto_deadline: veto_deadline as u64,
                    status: RenewalStatus::VetoPeriod,
                    veto_count: 0,
                    approval_count: 0,
                    total_voters: 0,
                    executed_at: None,
                    new_grant_id: None,
                })
                &&& old(self).eligibility@.contains_key(original_grant_id) ==> final(self).eligibility@ == old(self).eligibility@
                &&& !old(self).eligibility@.contains_key(original_grant_id) ==> final(self).eligibility@.dom()
                    == old(self).eligibility@.dom().insert(original_grant_id)
                    && first_eligibility(final(self).eligibility@[original_grant_id], original_grant_id, now)
                    && forall|g: u64| g != original_grant_id && #[trigger] old(self).eligibility@.contains_key(g)
                        ==> final(self).eligibility@[g] == old(self).eligibility@[g]
                &&& id_list(final(self).grant_renewals@, original_grant_id) == id_list(old(self).grant_renewals@, original_grant_id).push(id)
                &&& forall|g: u64| g != original_grant_id ==> #[trigger] id_list(final(self).grant_renewals@, g)
                    == id_list(old(self).grant_renewals@, g)
                &&& final(self).active_proposals@ == old(self).active_proposals@.push(id)
                &&& final(self).metrics == Some(RecursiveFundingMetrics {
                    total_renewal_proposals: (m.total_renewal_proposals + 1) as u32,
                    last_updated: now,
                    job_security_score: security_score(m.successful_renewals, (m.total_renewal_proposals + 1) as u32),
                    ..m
                })
            },
            final(self).config == old(self).config,
            final(self).veto_votes@ == old(self).veto_votes@,
            final(self).approval_votes@ == old(self).approval_votes@,
            final(self).critical_infrastructure@ == old(self).critical_infrastructure@,
            final(self).contract_address == old(self).contract_address,
    {
        let cached = match self.eligibility.get(&original_grant_id) {
            Some(e) => Some((e.is_eligible, e.renewal_count)),
            None => None,
        };
        let (is_eligible, renewal_count) = match cached {
            Some(v) => v,
            None => {
                if self.config.is_none() {
                    return Err(RecursiveFundingError::NotInitialized);
                }
                (true, 0)
            },
        };
        if !is_eligible {
            return Err(RecursiveFundingError::NotEligibleForRenewal);
        }
        let config = match self.config {
            Some(c) => c,
            None => {
                return Err(RecursiveFundingError::NotInitialized);
            },
        };
        if renewal_amount <= 0 {
            return Err(RecursiveFundingError::InvalidAmount);
        }
        if renewal_duration_months < 6 || renewal_duration_months > 24 {
            return Err(RecursiveFundingError::InvalidDuration);
        }
        if renewal_count >= config.max_renewal_cycles {
            return Err(RecursiveFundingError::RenewalLimitExceeded);
        }
        let _ = self.check_renewal_eligibility(original_grant_id, now);
        let proposal_id = self.next_proposal_id;
        self.next_proposal_id = proposal_id + 1;
        let veto_deadline = now + config.veto_period_days * SECONDS_PER_DAY;
        let voting_deadline = veto_deadline + RENEWAL_PROPOSAL_DURATION;
        self.proposals.insert(proposal_id, RenewalProposal {
            proposal_id,
            original_grant_id,
            proposer: self.contract_address,
            renewal_amount,
            renewal_duration: renewal_duration_months * SECONDS_PER_MONTH,
            justification,
            performance_metrics,
            proposed_at: now,
            voting_deadline,
            veto_deadline,
            status: RenewalStatus::VetoPeriod,
            veto_count: 0,
            approval_count: 0,
            total_voters: 0,
            executed_at: None,
            new_grant_id: None,
        });
        let mut renewals = match self.grant_renewals.remove(&original_grant_id) {
            Some(l) => l,
            None => Vec::new(),
        };
        renewals.push(proposal_id);
        self.grant_renewals.insert(original_grant_id, renewals);
        let ghost active_before = self.active_proposals@;
        self.active_proposals.push(proposal_id);
        let mut m = self.metrics.unwrap();
        m.total_renewal_proposals = m.total_renewal_proposals + 1;
        m.last_updated = now;
        m.job_security_score = ((m.successful_renewals as u128 * 10000) / m.total_renewal_proposals as u128) as u32;
        self.metrics = Some(m);
        proof {
            assert forall|g: u64| g != original_grant_id implies #[trigger] id_list(self.grant_renewals@, g)
                == id_list(old(self).grant_renewals@, g) by {
                if old(self).grant_renewals@.contains_key(g) {
                    assert(self.grant_renewals@.contains_key(g));
                }
            }
            assert forall|j: int| 0 <= j < self.active_proposals@.len() implies self.proposals@.contains_key(
                #[trigger] self.active_proposals@[j],
            ) by {
                if j < active_before.len() {
                    assert(old(self).proposals@.contains_key(active_before[j]));
                }
            }
            assert(!active_before.contains(proposal_id)) by {
                if active_before.contains(proposal_id) {
                    let t = choose|t: int| 0 <= t < active_before.len() && #[trigger] active_before[t] == proposal_id;
                    assert(old(self).proposals@.contains_key(active_before[t]));
                }
            }
        }
        Ok(proposal_id)
    }
}

impl RecursiveFundingContract {
    /// The error a veto of proposal `pid` at `now` meets, or `None`.
    pub open spec fn veto_error(&self, pid: u64, now: u64) -> Option<RecursiveFundingError> {
        if !self.proposals@.contains_key(pid) {
            Some(RecursiveFundingError::ProposalNotFound)
        } else if self.proposals@[pid].status != RenewalStatus::VetoPeriod {
            Some(RecursiveFundingError::VetoPeriodActive)
        } else if now > self.proposals@[pid].veto_deadline {
            Some(RecursiveFundingError::ProposalExpired)
        } else if self.veto_votes@.contains(pair_key(pid, self.contract_address.0)) {
            Some(RecursiveFundingError::AlreadyVoted)
        } else {
            None
        }
    }

    /// Casts the contract's veto against proposal `proposal_id` at `now`,
    /// during its veto period, once. When the vetoes reach the threshold share
    /// of the voters, the proposal is vetoed and leaves the active proposals.
    /// The reason is for the caller's record.
    pub fn veto_renewal(&mut self, proposal_id: u64, reason: String, now: u64) -> (r: Result<(), RecursiveFundingError>)
        requires
            old(self).wf(),
            old(self).proposals@.contains_key(proposal_id) ==> old(self).proposals@[proposal_id].total_voters < u32::MAX
                && old(self).proposals@[proposal_id].veto_count < u32::MAX,
        ensures
            final(self).wf(),
            r is Err <==> old(self).veto_error(proposal_id, now) is Some,
            r matches Err(e) ==> old(self).veto_error(proposal_id, now) == Some(e),
            r is Err ==> final(self).proposals@ == old(self).proposals@ && final(self).veto_votes@ == old(self).veto_votes@
                && final(self).active_proposals@ == old(self).active_proposals@,
            r is Ok ==> {
                let p = old(self).proposals@[proposal_id];
                let voted = RenewalProposal {
                    veto_count: (p.veto_count + 1) as u32,
                    total_voters: (p.total_voters + 1) as u32,
                    ..p
                };
                let vetoed = veto_share(voted) >= old(self).config.unwrap().veto_threshold;
                &&& final(self).veto_votes@ == old(self).veto_votes@.insert(pair_key(proposal_id, old(self).contract_address.0))
                &&& final(self).proposals@ == old(self).proposals@.insert(
                    proposal_id,
                    if vetoed { with_status(voted, RenewalStatus::Vetoed) } else { voted },
                )
                &&& final(self).active_proposals@ == if vetoed {
                    without_id(old(self).active_proposals@, proposal_id)
                } else {
                    old(self).active_proposals@
                }
            },
            final(self).config == old(self).config,
            final(self).metrics == old(self).metrics,
            final(self).eligibility@ == old(self).eligibility@,
            final(self).grant_renewals@ == old(self).grant_renewals@,
            final(self).next_proposal_id == old(self).next_proposal_id,
            final(self).approval_votes@ == old(self).approval_votes@,
            final(self).critical_infrastructure@ == old(self).critical_infrastructure@,
            final(self).contract_address == old(self).contract_address,
    {
        let voter = self.contract_address;
        let (status, veto_deadline) = match self.proposals.get(&proposal_id) {
            None => {
                return Err(RecursiveFundingError::ProposalNotFound);
            },
            Some(p) => (p.status, p.veto_deadline),
        };
        if status != RenewalStatus::VetoPeriod {
            return Err(RecursiveFundingError::VetoPeriodActive);
        }
        if now > veto_deadline {
            return Err(RecursiveFundingError::ProposalExpired);
        }
        let key = make_pair_key(proposal_id, voter.0);
        if self.veto_votes.contains(&key) {
            return Err(RecursiveFundingError::AlreadyVoted);
        }
        let config = self.config.unwrap();
        self.veto_votes.insert(key);
        let mut proposal = self.proposals.remove(&proposal_id).unwrap();
        proposal.veto_count = proposal.veto_count + 1;
        proposal.total_voters = proposal.total_voters + 1;
        let veto_percentage = (proposal.veto_count as u128 * 10000) / proposal.total_voters as u128;
        if veto_percentage >= config.veto_threshold as u128 {
            proposal.status = RenewalStatus::Vetoed;
            self.active_proposals = remove_id(&self.active_proposals, proposal_id);
        }
        self.proposals.insert(proposal_id, proposal);
        proof {
            assert(self.proposals@.dom() =~= old(self).proposals@.dom());
            lemma_without_keeps(old(self).active_proposals@, proposal_id);
            assert forall|j: int| 0 <= j < self.active_proposals@.len() implies self.proposals@.contains_key(
                #[trigger] self.active_proposals@[j],
            ) by {
                let y = self.active_proposals@[j];
                assert(self.active_proposals@.contains(y));
                assert(old(self).active_proposals@.contains(y));
                let t = choose|t: int| 0 <= t < old(self).active_proposals@.len()
                    && #[trigger] old(self).active_proposals@[t] == y;
                assert(old(self).proposals@.contains_key(old(self).active_proposals@[t]));
            }
        }
        Ok(())
    }

    /// The error an approval of proposal `pid` at `now` meets, or `None`.
    pub open spec fn approval_error(&self, pid: u64, now: u64) -> Option<RecursiveFundingError> {
        if !self.proposals@.contains_key(pid) {
            Some(RecursiveFundingError::ProposalNotFound)
        } else if self.proposals@[pid].status != RenewalStatus::VotingPeriod {
            Some(RecursiveFundingError::VotingPeriodActive)
        } else if now > self.proposals@[pid].voting_deadline {
            Some(RecursiveFundingError::ProposalExpired)
        } else if self.approval_votes@.contains(pair_key(pid, self.contract_address.0)) {
            Some(RecursiveFundingError::AlreadyVoted)
        } else {
            None
        }
    }

    /// Casts the contract's approval of proposal `proposal_id` at `now`,
    /// during its voting period, once.
    pub fn approve_renewal(&mut self, proposal_id: u64, now: u64) -> (r: Result<(), RecursiveFundingError>)
        requires
            old(self).wf(),
            old(self).proposals@.contains_key(proposal_id) ==> old(self).proposals@[proposal_id].total_voters < u32::MAX
                && old(self).proposals@[proposal_id].approval_count < u32::MAX,
        ensures
            final(self).wf(),
            r is Err <==> old(self).approval_error(proposal_id, now) is Some,
            r matches Err(e) ==> old(self).approval_error(proposal_id, now) == Some(e),
            r is Err ==> final(self).proposals@ == old(self).proposals@ && final(self).approval_votes@ == old(self).approval_votes@,
            r is Ok ==> {
                let p = old(self).proposals@[proposal_id];
                &&& final(self).approval_votes@ == old(self).approval_votes@.insert(pair_key(proposal_id, old(self).contract_address.0))
                &&& final(self).proposals@ == old(self).proposals@.insert(proposal_id, RenewalProposal {
                    approval_count: (p.approval_count + 1) as u32,
                    total_voters: (p.total_voters + 1) as u32,
                    ..p
                })
            },
            final(self).config == old(self).config,
            final(self).metrics == old(self).metrics,
            final(self).eligibility@ == old(self).eligibility@,
            final(self).grant_renewals@ == old(self).grant_renewals@,
            final(self).next_proposal_id == old(self).next_proposal_id,
            final(self).active_proposals@ == old(self).active_proposals@,
            final(self).veto_votes@ == old(self).veto_votes@,
            final(self).critical_infrastructure@ == old(self).critical_infrastructure@,
            final(self).contract_address == old(self).contract_address,
    {
        let voter = self.contract_address;
        let (status, voting_deadline) = match self.proposals.get(&proposal_id) {
            None => {
                return Err(RecursiveFundingError::ProposalNotFound);
            },
            Some(p) => (p.status, p.voting_deadline),
        };
        if status != RenewalStatus::VotingPeriod {
            return Err(RecursiveFundingError::VotingPeriodActive);
        }
        if now > voting_deadline {
            return Err(RecursiveFundingError::ProposalExpired);
        }
        let key = make_pair_key(proposal_id, voter.0);
        if self.approval_votes.contains(&key) {
            return Err(RecursiveFundingError::AlreadyVoted);
        }
        self.approval_votes.insert(key);
        let mut proposal = self.proposals.remove(&proposal_id).unwrap();
        proposal.approval_count = proposal.approval_count + 1;
        proposal.total_voters = proposal.total_voters + 1;
        self.proposals.insert(proposal_id, proposal);
        proof {
            assert(self.proposals@.dom() =~= old(self).proposals@.dom());
        }
        Ok(())
    }
}

/// Removing an identifier keeps the others, each once.
proof fn lemma_without_keeps(ids: Seq<u64>, x: u64)
    requires
        ids.no_duplicates(),
    ensures
        without_id(ids, x).no_duplicates(),
        forall|y: u64| #[trigger] without_id(ids, x).contains(y) <==> ids.contains(y) && y != x,
    decreases ids.len(),
{
    reveal_with_fuel(Seq::<u64>::filter, 1);
    if ids.len() > 0 {
        let pre = ids.drop_last();
        let last = ids.last();
        assert forall|a: int, b: int| 0 <= a < b < pre.len() implies pre[a] != pre[b] by {
            assert(pre[a] == ids[a] && pre[b] == ids[b]);
        }
        lemma_without_keeps(pre, x);
        let w = without_id(pre, x);
        assert(!pre.contains(last)) by {
            if pre.contains(last) {
                let t = choose|t: int| 0 <= t < pre.len() && pre[t] == last;
                assert(ids[t] == ids[ids.len() - 1]);
            }
        }
        assert forall|y: u64| #[trigger] without_id(ids, x).contains(y) <==> ids.contains(y) && y != x by {
            if ids.contains(y) {
                let t = choose|t: int| 0 <= t < ids.len() && ids[t] == y;
                if t < pre.len() {
                    assert(pre[t] == y);
                }
            }
            if pre.contains(y) {
                let t = choose|t: int| 0 <= t < pre.len() && pre[t] == y;
                assert(ids[t] == y);
            }
            if last != x {
                assert(without_id(ids, x) == w.push(last));
                if w.push(last).contains(y) {
                    let t = choose|t: int| 0 <= t < w.push(last).len() && w.push(last)[t] == y;
                    if t < w.len() {
                        assert(w[t] == y);
                    }
                }
                if w.contains(y) {
                    let t = choose|t: int| 0 <= t < w.len() && w[t] == y;
                    assert(w.push(last)[t] == y);
                }
                if y == last {
                    assert(w.push(last)[w.len() as int] == y);
                }
            } else {
                assert(without_id(ids, x) == w);
            }
        }
        if last != x {
            assert(without_id(ids, x) == w.push(last));
            assert(!w.contains(last));
            assert forall|a: int, b: int| 0 <= a < b < w.push(last).len() implies w.push(last)[a] != w.push(last)[b] by {
                if b == w.len() {
                    assert(w.contains(w[a]));
                }
            }
        }
    }
}

impl RecursiveFundingContract {
    /// Whether proposal `pid`'s veto period has ended by `now` without a
    /// transition yet.
    pub open spec fn due(&self, pid: u64, now: u64) -> bool {
        self.proposals@[pid].status == RenewalStatus::VetoPeriod && now >= self.proposals@[pid].veto_deadline
    }

    /// Whether proposal `pid` ends its veto period vetoed at `now`.
    pub open spec fn vetoed_at_deadline(&self, pid: u64, now: u64) -> bool {
        self.due(pid, now) && veto_share(self.proposals@[pid]) >= self.config.unwrap().veto_threshold
    }

    /// `due` as a predicate.
    pub open spec fn due_pred(&self, now: u64) -> spec_fn(u64) -> bool {
        |p: u64| self.due(p, now)
    }

    /// `vetoed_at_deadline` as a predicate.
    pub open spec fn vetoed_pred(&self, now: u64) -> spec_fn(u64) -> bool {
        |p: u64| self.vetoed_at_deadline(p, now)
    }

    /// The negation of `vetoed_at_deadline` as a predicate.
    pub open spec fn kept_pred(&self, now: u64) -> spec_fn(u64) -> bool {
        |p: u64| !self.vetoed_at_deadline(p, now)
    }

    /// Ends, at `now`, the veto periods that are over: a proposal whose
    /// vetoes reached the threshold share of its voters is vetoed and leaves
    /// the active proposals; the others move on to voting. Returns the
    /// proposals that moved, in order.
    pub fn process_veto_periods(&mut self, now: u64) -> (r: Result<Vec<u64>, RecursiveFundingError>)
        requires
            old(self).wf(),
            old(self).metrics matches Some(m) ==> m.vetoed_proposals + old(self).active_proposals@.len() <= u32::MAX,
        ensures
            final(self).wf(),
            r matches Ok(v) && v@ == old(self).active_proposals@.filter(old(self).due_pred(now)),
            final(self).active_proposals@ == old(self).active_proposals@.filter(old(self).kept_pred(now)),
            forall|j: int| 0 <= j < final(self).active_proposals@.len() ==> !final(self).due(
                #[trigger] final(self).active_proposals@[j],
                now,
            ),
            final(self).proposals@.dom() == old(self).proposals@.dom(),
            forall|k: u64| #[trigger] old(self).proposals@.contains_key(k) ==> final(self).proposals@[k] == if old(
                self,
            ).active_proposals@.contains(k) && old(self).due(k, now) {
                with_status(
                    old(self).proposals@[k],
                    if old(self).vetoed_at_deadline(k, now) { RenewalStatus::Vetoed } else { RenewalStatus::VotingPeriod },
                )
            } else {
                old(self).proposals@[k]
            },
            ({
                let n = old(self).active_proposals@.filter(old(self).vetoed_pred(now)).len();
                let m = old(self).metrics.unwrap();
                if n > 0 {
                    final(self).metrics == Some(RecursiveFundingMetrics {
                        vetoed_proposals: (m.vetoed_proposals + n) as u32,
                        last_updated: now,
                        job_security_score: if m.total_renewal_proposals > 0 {
                            security_score(m.successful_renewals, m.total_renewal_proposals)
                        } else {
                            m.job_security_score
                        },
                        ..m
                    })
                } else {
                    final(self).metrics == old(self).metrics
                }
            }),
            final(self).config == old(self).config,
            final(self).eligibility@ == old(self).eligibility@,
            final(self).grant_renewals@ == old(self).grant_renewals@,
            final(self).next_proposal_id == old(self).next_proposal_id,
            final(self).veto_votes@ == old(self).veto_votes@,
            final(self).approval_votes@ == old(self).approval_votes@,
            final(self).critical_infrastructure@ == old(self).critical_infrastructure@,
            final(self).contract_address == old(self).contract_address,
    {
        let active = self.active_proposals.clone();
        let ghost active0 = old(self).active_proposals@;
        let ghost due_p = old(self).due_pred(now);
        let ghost vetoed_p = old(self).vetoed_pred(now);
        let ghost kept_p = old(self).kept_pred(now);
        assert(active@ == active0);
        assert(active0.len() <= u32::MAX);
        let mut transitioned: Vec<u64> = Vec::new();
        let mut kept: Vec<u64> = Vec::new();
        let mut vetoed_count: u32 = 0;
        let mut i: usize = 0;
        while i < active.len()
            invariant
                old(self).wf(),
                active@ == active0,
                active0 == old(self).active_proposals@,
                due_p == old(self).due_pred(now),
                vetoed_p == old(self).vetoed_pred(now),
                kept_p == old(self).kept_pred(now),
                i <= active0.len(),
                transitioned@ == active0.take(i as int).filter(due_p),
                kept@ == active0.take(i as int).filter(kept_p),
                vetoed_count == active0.take(i as int).filter(vetoed_p).len(),
                vetoed_count <= i,
                active0.len() <= u32::MAX,
                self.config == old(self).config,
                self.metrics == old(self).metrics,
                self.eligibility@ == old(self).eligibility@,
                self.grant_renewals@ == old(self).grant_renewals@,
                self.next_proposal_id == old(self).next_proposal_id,
                self.veto_votes@ == old(self).veto_votes@,
                self.approval_votes@ == old(self).approval_votes@,
                self.critical_infrastructure@ == old(self).critical_infrastructure@,
                self.contract_address == old(self).contract_address,
                self.active_proposals@ == old(self).active_proposals@,
                self.proposals@.dom() == old(self).proposals@.dom(),
                forall|k: u64| #[trigger] old(self).proposals@.contains_key(k) ==> self.proposals@[k] == if active0.take(
                    i as int,
                ).contains(k) && old(self).due(k, now) {
                    with_status(
                        old(self).proposals@[k],
                        if old(self).vetoed_at_deadline(k, now) { RenewalStatus::Vetoed } else { RenewalStatus::VotingPeriod },
                    )
                } else {
                    old(self).proposals@[k]
                },
            decreases active.len() - i,
        {
            let pid = active[i];
            assert(old(self).proposals@.contains_key(active0[i as int]));
            let ghost before = active0.take(i as int);
            assert(active0.take(i + 1) =~= before.push(pid));
            assert(!before.contains(pid)) by {
                if before.contains(pid) {
                    let t = choose|t: int| 0 <= t < before.len() && before[t] == pid;
                    assert(active0[t] == active0[i as int]);
                }
            }
            assert(self.proposals@[pid] == old(self).proposals@[pid]);
            let (status, veto_deadline, veto_count, total_voters) = {
                let p = self.proposals.get(&pid).unwrap();
                (p.status, p.veto_deadline, p.veto_count, p.total_voters)
            };
            proof {
                reveal_with_fuel(Seq::<u64>::filter, 1);
                assert(active0.take(i + 1).drop_last() =~= before);
            }
            if status == RenewalStatus::VetoPeriod && now >= veto_deadline {
                let config = self.config.unwrap();
                let veto_percentage: u128 = if total_voters > 0 {
                    (veto_count as u128 * 10000) / total_voters as u128
                } else {
                    0
                };
                let mut proposal = self.proposals.remove(&pid).unwrap();
                if veto_percentage >= config.veto_threshold as u128 {
                    proposal.status = RenewalStatus::Vetoed;
                    vetoed_count = vetoed_count + 1;
                } else {
                    proposal.status = RenewalStatus::VotingPeriod;
                    kept.push(pid);
                }
                self.proposals.insert(pid, proposal);
                transitioned.push(pid);
            } else {
                kept.push(pid);
            }
            proof {
                assert(self.proposals@.dom() =~= old(self).proposals@.dom());
                assert forall|k: u64| #[trigger] old(self).proposals@.contains_key(k) implies self.proposals@[k] == if active0.take(
                    i + 1,
                ).contains(k) && old(self).due(k, now) {
                    with_status(
                        old(self).proposals@[k],
                        if old(self).vetoed_at_deadline(k, now) { RenewalStatus::Vetoed } else { RenewalStatus::VotingPeriod },
                    )
                } else {
                    old(self).proposals@[k]
                } by {
                    let after = before.push(pid);
                    if k != pid {
                        if after.contains(k) {
                            let t = choose|t: int| 0 <= t < after.len() && #[trigger] after[t] == k;
                            assert(before[t] == k);
                        }
                        if before.contains(k) {
                            let t = choose|t: int| 0 <= t < before.len() && #[trigger] before[t] == k;
                            assert(after[t] == k);
                        }
                    } else {
                        assert(after[i as int] == k);
                    }
                }
            }
            i = i + 1;
        }
        assert(active0.take(active0.len() as int) =~= active0);
        self.active_proposals = kept;
        if vetoed_count > 0 {
            let mut m = self.metrics.unwrap();
            m.vetoed_proposals = m.vetoed_proposals + vetoed_count;
            m.last_updated = now;
            if m.total_renewal_proposals > 0 {
                m.job_security_score = ((m.successful_renewals as u128 * 10000) / m.total_renewal_proposals as u128) as u32;
            }
            self.metrics = Some(m);
        }
        proof {
            lemma_filter_keeps(active0, kept_p);
            assert forall|j: int| 0 <= j < self.active_proposals@.len() implies self.proposals@.contains_key(
                #[trigger] self.active_proposals@[j],
            ) && !self.due(self.active_proposals@[j], now) by {
                let y = self.active_proposals@[j];
                assert(self.active_proposals@.contains(y));
                let t = choose|t: int| 0 <= t < active0.len() && #[trigger] active0[t] == y;
                assert(old(self).proposals@.contains_key(active0[t]));
                assert(active0.contains(y));
                assert(kept_p(self.active_proposals@[j])) by {
                    broadcast use vstd::seq_lib::group_filter_ensures;
                }
            }
        }
        Ok(transitioned)
    }
}

/// Filtering keeps elements of the list, each once.
proof fn lemma_filter_keeps(ids: Seq<u64>, pred: spec_fn(u64) -> bool)
    requires
        ids.no_duplicates(),
    ensures
        ids.filter(pred).no_duplicates(),
        forall|y: u64| #[trigger] ids.filter(pred).contains(y) ==> ids.contains(y),
    decreases ids.len(),
{
    reveal_with_fuel(Seq::<u64>::filter, 1);
    if ids.len() > 0 {
        let pre = ids.drop_last();
        let last = ids.last();
        assert forall|a: int, b: int| 0 <= a < b < pre.len() implies pre[a] != pre[b] by {
            assert(pre[a] == ids[a] && pre[b] == ids[b]);
        }
        lemma_filter_keeps(pre, pred);
        let w = pre.filter(pred);
        assert(!pre.contains(last)) by {
            if pre.contains(last) {
                let t = choose|t: int| 0 <= t < pre.len() && pre[t] == last;
                assert(ids[t] == ids[ids.len() - 1]);
            }
        }
        assert forall|y: u64| #[trigger] ids.filter(pred).contains(y) implies ids.contains(y) by {
            if pred(last) {
                assert(ids.filter(pred) == w.push(last));
                let t = choose|t: int| 0 <= t < w.push(last).len() && w.push(last)[t] == y;
                if t < w.len() {
                    assert(w[t] == y);
                    assert(w.contains(y));
                    let u = choose|u: int| 0 <= u < pre.len() && pre[u] == y;
                    assert(ids[u] == y);
                } else {
                    assert(ids[ids.len() - 1] == y);
                }
            } else {
                assert(ids.filter(pred) == w);
                assert(w.contains(y));
                let u = choose|u: int| 0 <= u < pre.len() && pre[u] == y;
                assert(ids[u] == y);
            }
        }
        if pred(last) {
            assert(ids.filter(pred) == w.push(last));
            assert(!w.contains(last));
            assert forall|a: int, b: int| 0 <= a < b < w.push(last).len() implies w.push(last)[a] != w.push(last)[b] by {
                if b == w.len() {
                    assert(w.contains(w[a]));
                }
            }
        }
    }
}

impl RecursiveFundingContract {
    /// The error executing proposal `pid` at `now` meets, or `None`.
    pub open spec fn execution_error(&self, pid: u64, now: u64) -> Option<RecursiveFundingError> {
        if self.config is None {
            Some(RecursiveFundingError::NotInitialized)
        } else if !self.config.unwrap().auto_renewal_enabled {
            Some(RecursiveFundingError::AutoRenewalDisabled)
        } else if !self.proposals@.contains_key(pid) {
            Some(RecursiveFundingError::ProposalNotFound)
        } else if self.proposals@[pid].status != RenewalStatus::Approved && !approved_by_lapse(self.proposals@[pid], now) {
            Some(RecursiveFundingError::InvalidTiming)
        } else if now < self.proposals@[pid].veto_deadline {
            Some(RecursiveFundingError::VetoPeriodActive)
        } else if (self.proposals@[pid].status == RenewalStatus::Approved || self.proposals@[pid].total_voters > 0)
            && (self.proposals@[pid].total_voters as int * 10000 / ESTIMATED_DAO_MEMBERS as int)
            < (self.config.unwrap().min_voting_participation as int) {
            Some(RecursiveFundingError::InsufficientParticipation)
        } else if !self.eligibility@.contains_key(self.proposals@[pid].original_grant_id) {
            Some(RecursiveFundingError::GrantNotFound)
        } else {
            None
        }
    }

    /// The metrics after renewing `p` at `now`.
    pub open spec fn metrics_after_renewal(&self, p: RenewalProposal, now: u64) -> RecursiveFundingMetrics {
        let m = self.metrics.unwrap();
        let renewed = m.successful_renewals + 1;
        let renewal_time = now - p.proposed_at;
        RecursiveFundingMetrics {
            successful_renewals: renewed as u32,
            total_renewed_amount: (m.total_renewed_amount + p.renewal_amount) as i128,
            critical_projects_renewed: if self.critical_infrastructure@.contains(p.original_grant_id) {
                (m.critical_projects_renewed + 1) as u32
            } else {
                m.critical_projects_renewed
            },
            average_renewal_time: if renewed > 1 {
                ((m.average_renewal_time * (renewed - 1) + renewal_time) / renewed) as u64
            } else {
                renewal_time as u64
            },
            last_updated: now,
            job_security_score: security_score(renewed as u32, m.total_renewal_proposals),
            ..m
        }
    }

    /// Whether executing proposal `pid` at `now` stays in range.
    pub open spec fn execution_fits(&self, pid: u64, now: u64) -> bool {
        &&& self.next_proposal_id + RENEWED_GRANT_ID_OFFSET <= u64::MAX
        &&& self.proposals@.contains_key(pid) && self.metrics is Some ==> {
            let m = self.metrics.unwrap();
            let p = self.proposals@[pid];
            &&& m.successful_renewals < u32::MAX
            &&& m.critical_projects_renewed < u32::MAX
            &&& m.total_renewal_proposals > 0
            &&& i128::MIN <= m.total_renewed_amount + p.renewal_amount <= i128::MAX
            &&& m.average_renewal_time * m.successful_renewals + (now - p.proposed_at) <= u64::MAX
            &&& self.proposals@[pid].total_voters as int * 10000 <= u128::MAX
        }
        &&& self.proposals@.contains_key(pid) && self.eligibility@.contains_key(self.proposals@[pid].original_grant_id)
            ==> self.eligibility@[self.proposals@[pid].original_grant_id].renewal_count < u32::MAX
    }

    /// Executes proposal `proposal_id` at `now` once its veto period is over,
    /// when it was approved, or its voting window closed without a veto; a
    /// proposal that anyone voted on needs a tenth of the DAO to have taken
    /// part: the renewed grant gets the
    /// next id past the renewal ids, inherits the original grant's
    /// eligibility with one more renewal, and the proposal leaves the active
    /// ones. Returns the renewed grant's id.
    pub fn execute_renewal(&mut self, proposal_id: u64, now: u64) -> (r: Result<u64, RecursiveFundingError>)
        requires
            old(self).wf(),
            old(self).execution_fits(proposal_id, now),
        ensures
            final(self).wf(),
            r is Err <==> old(self).execution_error(proposal_id, now) is Some,
            r matches Err(e) ==> old(self).execution_error(proposal_id, now) == Some(e),
            r is Err ==> {
                &&& final(self).proposals@ == old(self).proposals@
                &&& final(self).eligibility@ == old(self).eligibility@
                &&& final(self).active_proposals@ == old(self).active_proposals@
                &&& final(self).next_proposal_id == old(self).next_proposal_id
                &&& final(self).metrics == old(self).metrics
            },
            r matches Ok(new_id) ==> {
                let p = old(self).proposals@[proposal_id];
                let e = old(self).eligibility@[p.original_grant_id];
                &&& new_id == old(self).next_proposal_id + RENEWED_GRANT_ID_OFFSET
                &&& final(self).next_proposal_id == old(self).next_proposal_id + 1
                &&& final(self).proposals@ == old(self).proposals@.insert(proposal_id, RenewalProposal {
                    status: RenewalStatus::Executed,
                    executed_at: Some(now),
                    new_grant_id: Some(new_id),
                    ..p
                })
                &&& final(self).active_proposals@ == without_id(old(self).active_proposals@, proposal_id)
                &&& final(self).eligibility@ == old(self).eligibility@.insert(new_id, JobSecurityEligibility {
                    renewal_count: (e.renewal_count + 1) as u32,
                    last_evaluation: now,
                    ..e
                })
                &&& final(self).metrics == Some(old(self).metrics_after_renewal(p, now))
            },
            final(self).config == old(self).config,
            final(self).grant_renewals@ == old(self).grant_renewals@,
            final(self).veto_votes@ == old(self).veto_votes@,
            final(self).approval_votes@ == old(self).approval_votes@,
            final(self).critical_infrastructure@ == old(self).critical_infrastructure@,
            final(self).contract_address == old(self).contract_address,
    {
        let config = match self.config {
            Some(c) => c,
            None => {
                return Err(RecursiveFundingError::NotInitialized);
            },
        };
        if !config.auto_renewal_enabled {
            return Err(RecursiveFundingError::AutoRenewalDisabled);
        }
        let (status, veto_deadline, voting_deadline, total_voters, original_grant_id, renewal_amount, proposed_at) = match self.proposals.get(
            &proposal_id,
        ) {
            None => {
                return Err(RecursiveFundingError::ProposalNotFound);
            },
            Some(p) => (p.status, p.veto_deadline, p.voting_deadline, p.total_voters, p.original_grant_id, p.renewal_amount, p.proposed_at),
        };
        let lapsed = status == RenewalStatus::VotingPeriod && now > voting_deadline;
        if status != RenewalStatus::Approved && !lapsed {
            return Err(RecursiveFundingError::InvalidTiming);
        }
        if now < veto_deadline {
            return Err(RecursiveFundingError::VetoPeriodActive);
        }
        if status == RenewalStatus::Approved || total_voters > 0 {
            let participation_percentage = (total_voters as u128 * 10000) / ESTIMATED_DAO_MEMBERS as u128;
            if participation_percentage < config.min_voting_participation as u128 {
                return Err(RecursiveFundingError::InsufficientParticipation);
            }
        }
        let mut eligibility = match self.eligibility.get(&original_grant_id) {
            None => {
                return Err(RecursiveFundingError::GrantNotFound);
            },
            Some(e) => e.duplicate(),
        };
        // The renewed grant takes the next renewal id, moved past the renewal ids.
        let new_grant_id = self.next_proposal_id + RENEWED_GRANT_ID_OFFSET;
        self.next_proposal_id = self.next_proposal_id + 1;
        let mut proposal = self.proposals.remove(&proposal_id).unwrap();
        proposal.status = RenewalStatus::Executed;
        proposal.executed_at = Some(now);
        proposal.new_grant_id = Some(new_grant_id);
        self.proposals.insert(proposal_id, proposal);
        let ghost active_before = self.active_proposals@;
        self.active_proposals = remove_id(&self.active_proposals, proposal_id);
        eligibility.renewal_count = eligibility.renewal_count + 1;
        eligibility.last_evaluation = now;
        self.eligibility.insert(new_grant_id, eligibility);
        let mut m = self.metrics.unwrap();
        m.successful_renewals = m.successful_renewals + 1;
        m.total_renewed_amount = m.total_renewed_amount + renewal_amount;
        if contains_id(&self.critical_infrastructure, original_grant_id) {
            m.critical_projects_renewed = m.critical_projects_renewed + 1;
        }
        let renewal_time = now - proposed_at;
        if m.successful_renewals > 1 {
            proof {
                assert(m.average_renewal_time * (m.successful_renewals - 1) + renewal_time <= u64::MAX);
                assert(m.average_renewal_time * (m.successful_renewals - 1) >= 0) by (nonlinear_arith)
                    requires
                        m.successful_renewals >= 1,
                ;
            }
            m.average_renewal_time = ((m.average_renewal_time * (m.successful_renewals - 1) as u64) + renewal_time)
                / m.successful_renewals as u64;
        } else {
            m.average_renewal_time = renewal_time;
        }
        m.last_updated = now;
        m.job_security_score = ((m.successful_renewals as u128 * 10000) / m.total_renewal_proposals as u128) as u32;
        self.metrics = Some(m);
        proof {
            assert(self.proposals@.dom() =~= old(self).proposals@.dom());
            lemma_without_keeps(active_before, proposal_id);
            assert forall|j: int| 0 <= j < self.active_proposals@.len() implies self.proposals@.contains_key(
                #[trigger] self.active_proposals@[j],
            ) by {
                let y = self.active_proposals@[j];
                assert(self.active_proposals@.contains(y));
                let t = choose|t: int| 0 <= t < active_before.len() && #[trigger] active_before[t] == y;
                assert(old(self).proposals@.contains_key(active_before[t]));
            }
        }
        Ok(new_grant_id)
    }

    /// Marks grant `grant_id` as critical infrastructure, once.
    pub fn add_critical_infrastructure(&mut self, admin: Address, grant_id: u64) -> (r: Result<(), RecursiveFundingError>)
        requires
            old(self).wf(),
        ensures
            final(self).wf(),
            old(self).config is None ==> r == Err::<(), RecursiveFundingError>(RecursiveFundingError::NotInitialized),
            old(self).config matches Some(c) && c.admin != admin ==> r == Err::<(), RecursiveFundingError>(
                RecursiveFundingError::Unauthorized,
            ),
            r is Ok <==> (old(self).config matches Some(c) && c.admin == admin),
            r is Ok && !old(self).critical_infrastructure@.contains(grant_id) ==> final(self).critical_infrastructure@
                == old(self).critical_infrastructure@.push(grant_id),
            r is Err || old(self).critical_infrastructure@.contains(grant_id) ==> final(self).critical_infrastructure@
                == old(self).critical_infrastructure@,
            final(self).config == old(self).config,
            final(self).metrics == old(self).metrics,
            final(self).proposals@ == old(self).proposals@,
            final(self).eligibility@ == old(self).eligibility@,
            final(self).active_proposals@ == old(self).active_proposals@,
            final(self).next_proposal_id == old(self).next_proposal_id,
    {
        let config = match self.config {
            Some(c) => c,
            None => {
                return Err(RecursiveFundingError::NotInitialized);
            },
        };
        if admin != config.admin {
            return Err(RecursiveFundingError::Unauthorized);
        }
        if !contains_id(&self.critical_infrastructure, grant_id) {
            self.critical_infrastructure.push(grant_id);
        }
        Ok(())
    }
}

/// Whether a renewal that survived its veto period is approved because its
/// voting window closed: with auto-renewal, a renewal the DAO did not veto
/// goes through (subject to participation when it drew votes).
pub open spec fn approved_by_lapse(p: RenewalProposal, now: u64) -> bool {
    p.status == RenewalStatus::VotingPeriod && now > p.voting_deadline
}

} // verus!
