//! Appeals against cancelled grants, decided by time-weighted token voting:
//! the longer a voter has held tokens, the more their vote weighs.
use vstd::prelude::*;
use std::collections::HashMap;
use crate::types::Address;
use vstd::string::StringSliceAdditionalSpecFns;
use vstd::utf8::encode_utf8;

verus! {

broadcast use vstd::std_specs::hash::group_hash_axioms;

/// Length of an appeal's voting period: 7 days.
pub const APPEAL_VOTING_PERIOD: u64 = 604800;
/// Minimum participation, in basis points of the eligible power: 10%.
pub const MIN_APPEAL_PARTICIPATION: u32 = 1000;
/// Approval needed, in basis points of the votes cast: 66%.
pub const APPEAL_APPROVAL_THRESHOLD: u32 = 6600;
/// Maximum length of an appeal's reason, in bytes.
pub const MAX_APPEAL_REASON_LENGTH: u32 = 1000;

/// Lifecycle of an appeal.
#[derive(Debug, Clone, Copy, PartialEq, Eq, Structural)]
pub enum AppealStatus {
    Proposed,
    Approved,
    Rejected,
    Executed,
    Expired,
}

/// Why an appeal operation was refused.
#[derive(Debug, Clone, Copy, PartialEq, Eq, Structural)]
pub enum AppealError {
    NotInitialized,
    GrantNotFound,
    GrantNotCancelled,
    AppealAlreadyExists,
    InvalidAppealStatus,
    VotingPeriodEnded,
    VotingPeriodActive,
    AlreadyVoted,
    InsufficientVotingPower,
    ParticipationThresholdNotMet,
    ApprovalThresholdNotMet,
    AppealNotFound,
    InvalidReasonLength,
    NotAuthorized,
    MathOverflow,
}

/// An appeal against the cancellation of a grant.
#[derive(Debug, Clone)]
pub struct GrantAppeal {
    pub appeal_id: u64,
    pub grant_id: u64,
    pub appellant: Address,
    pub reason: String,
    /// Digest of the evidence: its first 32 bytes, zero padded.
    pub evidence_hash: [u8; 32],
    pub created_at: u64,
    pub voting_deadline: u64,
    pub status: AppealStatus,
    /// Time-weighted voting power in favor.
    pub votes_for: i128,
    /// Time-weighted voting power against.
    pub votes_against: i128,
    /// Total time-weighted power of the votes cast.
    pub total_eligible_power: i128,
    pub executed_at: Option<u64>,
}

/// A recorded vote.
#[derive(Debug, Clone, Copy, PartialEq, Eq, Structural)]
pub struct TimeWeightedVote {
    pub voter: Address,
    pub appeal_id: u64,
    /// Raw token balance.
    pub base_voting_power: i128,
    /// Holding-time multiplier, in basis points.
    pub time_multiplier: u32,
    pub weighted_power: i128,
    /// True for, false against.
    pub vote: bool,
    pub voted_at: u64,
    pub token_holding_duration: u64,
}

/// How long a voter has held governance tokens.
#[derive(Debug, Clone, Copy, PartialEq, Eq, Structural)]
pub struct TokenHoldingInfo {
    pub address: Address,
    pub balance: i128,
    pub first_acquired: u64,
    pub last_updated: u64,
}

/// Voting weight, in basis points, for a holding duration in seconds: 25%
/// below 30 days, then 50%, 75%, 90%, 100% and 120% from 30, 90, 180, 365
/// and 730 days on.
pub open spec fn time_multiplier_spec(d: u64) -> u32 {
    if d >= 730 * 86400 {
        12000
    } else if d >= 365 * 86400 {
        10000
    } else if d >= 180 * 86400 {
        9000
    } else if d >= 90 * 86400 {
        7500
    } else if d >= 30 * 86400 {
        5000
    } else {
        2500
    }
}

/// Whether an appeal's tallies meet the participation and the approval
/// thresholds. Products that overflow count as zero.
pub open spec fn appeal_results_spec(votes_for: i128, votes_against: i128, total: i128) -> (bool, bool) {
    let cast: int = if i128::MIN <= votes_for + votes_against <= i128::MAX { votes_for + votes_against } else { 0 };
    let cast_scaled: int = if i128::MIN <= cast * 10000 <= i128::MAX { cast * 10000 } else { 0 };
    let for_scaled: int = if i128::MIN <= votes_for * 10000 <= i128::MAX { votes_for * 10000 } else { 0 };
    (
        total > 0 && trunc_div(cast_scaled, total as int) >= MIN_APPEAL_PARTICIPATION,
        cast > 0 && trunc_div(for_scaled, cast) >= APPEAL_APPROVAL_THRESHOLD,
    )
}

/// Division rounding toward zero, as machine division does.
pub open spec fn trunc_div(a: int, b: int) -> int {
    if (a >= 0) == (b > 0) || a == 0 {
        (if a >= 0 { a } else { -a }) / (if b >= 0 { b } else { -b })
    } else {
        -((if a >= 0 { a } else { -a }) / (if b >= 0 { b } else { -b }))
    }
}

/// The evidence digest: the first 32 bytes of the evidence, zero padded.
pub open spec fn evidence_digest(evidence: Seq<u8>) -> Seq<u8> {
    Seq::new(32, |i: int| if i < evidence.len() { evidence[i] } else { 0u8 })
}

/// The appeal system's state.
pub struct GrantAppealContract {
    pub governance_token: Option<Address>,
    pub appeal_ids: Vec<u64>,
    pub next_appeal_id: u64,
    pub appeals: HashMap<u64, GrantAppeal>,
    /// Appeal identifiers of each grant, in creation order.
    pub grant_appeals: HashMap<u64, Vec<u64>>,
    pub votes: Vec<TimeWeightedVote>,
    pub holdings: HashMap<u64, TokenHoldingInfo>,
    /// Last computed voting power of each voter.
    pub voting_power_cache: HashMap<u64, i128>,
}

impl GrantAppealContract {
    /// Every appeal listed for a grant is stored, and stored appeals carry
    /// their identifier.
    pub open spec fn wf(&self) -> bool {
        &&& forall|g: u64, j: int| self.grant_appeals@.contains_key(g) && 0 <= j < self.grant_appeals@[g]@.len()
            ==> self.appeals@.contains_key(#[trigger] self.grant_appeals@[g]@[j])
        &&& forall|a: u64| #[trigger] self.appeals@.contains_key(a) ==> a < self.next_appeal_id
        &&& self.next_appeal_id >= 1
    }

    /// A system not yet initialized.
    pub fn new() -> (r: Self)
        ensures
            r.wf(),
            r.governance_token is None,
            r.appeals@ == Map::<u64, GrantAppeal>::empty(),
            r.appeal_ids@.len() == 0,
            r.next_appeal_id == 1,
            r.grant_appeals@ == Map::<u64, Vec<u64>>::empty(),
            r.votes@.len() == 0,
            r.holdings@ == Map::<u64, TokenHoldingInfo>::empty(),
            r.voting_power_cache@ == Map::<u64, i128>::empty(),
    {
        GrantAppealContract {
            governance_token: None,
            appeal_ids: Vec::new(),
            next_appeal_id: 1,
            appeals: HashMap::new(),
            grant_appeals: HashMap::new(),
            votes: Vec::new(),
            holdings: HashMap::new(),
            voting_power_cache: HashMap::new(),
        }
    }

    /// Sets the governance token; refused once set.
    pub fn initialize(&mut self, governance_token: Address) -> (r: Result<(), AppealError>)
        requires
            old(self).wf(),
        ensures
            final(self).wf(),
            old(self).governance_token is Some ==> r == Err::<(), AppealError>(AppealError::NotInitialized)
                && final(self).governance_token == old(self).governance_token,
            old(self).governance_token is None ==> r is Ok && final(self).governance_token == Some(governance_token)
                && final(self).appeal_ids@.len() == 0 && final(self).next_appeal_id == old(self).next_appeal_id,
            final(self).appeals@ == old(self).appeals@,
            final(self).grant_appeals@ == old(self).grant_appeals@,
    {
        if self.governance_token.is_some() {
            return Err(AppealError::NotInitialized);
        }
        self.governance_token = Some(governance_token);
        self.appeal_ids = Vec::new();
        Ok(())
    }

    /// Voting weight, in basis points, for a holding duration.
    pub fn get_time_multiplier(holding_duration: u64) -> (r: u32)
        ensures
            r == time_multiplier_spec(holding_duration),
    {
        if holding_duration >= 730 * 86400 {
            12000
        } else if holding_duration >= 365 * 86400 {
            10000
        } else if holding_duration >= 180 * 86400 {
            9000
        } else if holding_duration >= 90 * 86400 {
            7500
        } else if holding_duration >= 30 * 86400 {
            5000
        } else {
            2500
        }
    }

    /// Whether an appeal meets the participation (10%) and approval (66%)
    /// thresholds.
    pub fn calculate_appeal_results(appeal: &GrantAppeal) -> (r: (bool, bool))
        ensures
            r == appeal_results_spec(appeal.votes_for, appeal.votes_against, appeal.total_eligible_power),
    {
        let total_power = appeal.total_eligible_power;
        let votes_cast = match appeal.votes_for.checked_add(appeal.votes_against) {
            Some(v) => v,
            None => 0,
        };
        let participation_met = if total_power > 0 {
            let scaled = match votes_cast.checked_mul(10000) {
                Some(v) => v,
                None => 0,
            };
            (scaled / total_power) >= MIN_APPEAL_PARTICIPATION as i128
        } else {
            false
        };
        let approval_met = if votes_cast > 0 {
            let scaled = match appeal.votes_for.checked_mul(10000) {
                Some(v) => v,
                None => 0,
            };
            (scaled / votes_cast) >= APPEAL_APPROVAL_THRESHOLD as i128
        } else {
            false
        };
        (participation_met, approval_met)
    }

    /// The evidence digest: its first 32 bytes, zero padded.
    pub fn generate_evidence_hash(evidence: &String) -> (r: [u8; 32])
        ensures
            r@ == evidence_digest(encode_utf8(evidence@)),
    {
        let bytes = evidence.as_str().as_bytes();
        let mut hash = [0u8; 32];
        let n = if bytes.len() < 32 { bytes.len() } else { 32 };
        let mut i: usize = 0;
        while i < n
            invariant
                n <= 32,
                n <= bytes@.len(),
                bytes@ == encode_utf8(evidence@),
                i <= n,
                forall|j: int| 0 <= j < i ==> hash@[j] == bytes@[j],
                forall|j: int| i <= j < 32 ==> hash@[j] == 0u8,
            decreases n - i,
        {
            hash[i] = bytes[i];
            i = i + 1;
        }
        proof {
            assert(hash@ =~= evidence_digest(encode_utf8(evidence@)));
        }
        hash
    }

    /// Files an appeal for a grant at `now`. Refused when the reason is longer
    /// than 1000 bytes, when the system is not initialized, or when the grant
    /// already has an appeal that is proposed or approved. Returns its id.
    pub fn create_appeal(
        &mut self,
        grant_id: u64,
        appellant: Address,
        reason: String,
        evidence: String,
        now: u64,
    ) -> (r: Result<u64, AppealError>)
        requires
            old(self).wf(),
            old(self).next_appeal_id < u64::MAX,
            encode_utf8(reason@).len() <= usize::MAX,
        ensures
            final(self).wf(),
            encode_utf8(reason@).len() > MAX_APPEAL_REASON_LENGTH ==> r == Err::<u64, AppealError>(
                AppealError::InvalidReasonLength,
            ),
            encode_utf8(reason@).len() <= MAX_APPEAL_REASON_LENGTH && old(self).governance_token is None
                ==> r == Err::<u64, AppealError>(AppealError::NotInitialized),
            encode_utf8(reason@).len() <= MAX_APPEAL_REASON_LENGTH && old(self).governance_token is Some
                && has_open_appeal(old(self).appeals@, old(self).grant_appeals@, grant_id)
                ==> r == Err::<u64, AppealError>(AppealError::AppealAlreadyExists),
            encode_utf8(reason@).len() <= MAX_APPEAL_REASON_LENGTH && old(self).governance_token is Some
                && !has_open_appeal(old(self).appeals@, old(self).grant_appeals@, grant_id)
                && now as int + APPEAL_VOTING_PERIOD > u64::MAX
                ==> r == Err::<u64, AppealError>(AppealError::MathOverflow),
            encode_utf8(reason@).len() <= MAX_APPEAL_REASON_LENGTH && old(self).governance_token is Some
                && !has_open_appeal(old(self).appeals@, old(self).grant_appeals@, grant_id)
                && now as int + APPEAL_VOTING_PERIOD <= u64::MAX ==> r is Ok,
            r is Err ==> final(self).appeals@ == old(self).appeals@ && final(self).grant_appeals@ == old(self).grant_appeals@
                && final(self).next_appeal_id == old(self).next_appeal_id,
            r is Ok ==> {
                let id = old(self).next_appeal_id;
                let a = final(self).appeals@[id];
                &&& r == Ok::<u64, AppealError>(id)
                &&& encode_utf8(reason@).len() <= MAX_APPEAL_REASON_LENGTH
                &&& old(self).governance_token is Some
                &&& !has_open_appeal(old(self).appeals@, old(self).grant_appeals@, grant_id)
                &&& final(self).next_appeal_id == id + 1
                &&& final(self).appeals@.dom() == old(self).appeals@.dom().insert(id)
                &&& forall|k: u64| k != id && #[trigger] old(self).appeals@.contains_key(k)
                    ==> final(self).appeals@[k] == old(self).appeals@[k]
                &&& a.appeal_id == id && a.grant_id == grant_id && a.appellant == appellant
                &&& a.reason@ == reason@
                &&& a.evidence_hash@ == evidence_digest(encode_utf8(evidence@))
                &&& a.created_at == now && a.voting_deadline == now + APPEAL_VOTING_PERIOD
                &&& a.status == AppealStatus::Proposed
                &&& a.votes_for == 0 && a.votes_against == 0 && a.total_eligible_power == 0
                &&& a.executed_at is None
                &&& final(self).appeal_ids@ == old(self).appeal_ids@.push(id)
                &&& final(self).grant_appeals@[grant_id]@ == grant_list(old(self).grant_appeals@, grant_id).push(id)
            },
    {
        let reason_str = reason.as_str();
        let reason_len = reason_str.len();
        proof {
            assert(reason_str@ == reason@);
        }
        if reason_len > MAX_APPEAL_REASON_LENGTH as usize {
            return Err(AppealError::InvalidReasonLength);
        }
        if self.governance_token.is_none() {
            return Err(AppealError::NotInitialized);
        }
        let appeal_id = self.next_appeal_id;
        let open = self.grant_has_open_appeal(grant_id);
        if open {
            return Err(AppealError::AppealAlreadyExists);
        }
        let voting_deadline = match now.checked_add(APPEAL_VOTING_PERIOD) {
            Some(d) => d,
            None => return Err(AppealError::MathOverflow),
        };
        let evidence_hash = Self::generate_evidence_hash(&evidence);
        let appeal = GrantAppeal {
            appeal_id,
            grant_id,
            appellant,
            reason,
            evidence_hash,
            created_at: now,
            voting_deadline,
            status: AppealStatus::Proposed,
            votes_for: 0,
            votes_against: 0,
            total_eligible_power: 0,
            executed_at: None,
        };
        self.appeals.insert(appeal_id, appeal);
        self.appeal_ids.push(appeal_id);
        let mut list = match self.grant_appeals.remove(&grant_id) {
            Some(l) => l,
            None => Vec::new(),
        };
        list.push(appeal_id);
        self.grant_appeals.insert(grant_id, list);
        self.next_appeal_id = appeal_id + 1;
        proof {
            assert(self.appeals@.dom() =~= old(self).appeals@.dom().insert(appeal_id));
            assert forall|g: u64, j: int| self.grant_appeals@.contains_key(g) && 0 <= j < self.grant_appeals@[g]@.len()
                implies self.appeals@.contains_key(#[trigger] self.grant_appeals@[g]@[j]) by {
                if g != grant_id {
                    assert(old(self).grant_appeals@.contains_key(g));
                } else if j < self.grant_appeals@[g]@.len() - 1 {
                    assert(old(self).grant_appeals@.contains_key(g));
                }
            }
        }
        Ok(appeal_id)
    }

    /// Whether grant `grant_id` has an appeal that is proposed or approved.
    fn grant_has_open_appeal(&self, grant_id: u64) -> (r: bool)
        requires
            self.wf(),
        ensures
            r == has_open_appeal(self.appeals@, self.grant_appeals@, grant_id),
    {
        match self.grant_appeals.get(&grant_id) {
            None => false,
            Some(list) => {
                let mut i: usize = 0;
                while i < list.len()
                    invariant
                        self.wf(),
                        self.grant_appeals@.contains_key(grant_id),
                        list@ == self.grant_appeals@[grant_id]@,
                        i <= list.len(),
                        forall|j: int| 0 <= j < i ==> !is_open(self.appeals@[#[trigger] list@[j]].status),
                    decreases list.len() - i,
                {
                    let id = list[i];
                    let a = self.appeals.get(&id).unwrap();
                    if a.status == AppealStatus::Proposed || a.status == AppealStatus::Approved {
                        return true;
                    }
                    i = i + 1;
                }
                false
            },
        }
    }

    /// Whether `voter` already voted on `appeal_id`.
    fn has_voted(&self, voter: Address, appeal_id: u64) -> (r: bool)
        ensures
            r == voted(self.votes@, voter, appeal_id),
    {
        let mut i: usize = 0;
        while i < self.votes.len()
            invariant
                i <= self.votes.len(),
                forall|j: int| 0 <= j < i ==> !(#[trigger] self.votes@[j].voter == voter && self.votes@[j].appeal_id == appeal_id),
            decreases self.votes.len() - i,
        {
            if self.votes[i].voter == voter && self.votes[i].appeal_id == appeal_id {
                return true;
            }
            i = i + 1;
        }
        false
    }

    /// Votes on an appeal at `now` with the voter's current token balance
    /// `balance`. The vote weighs `balance * multiplier / 10000`, where the
    /// multiplier grows with how long the voter has held tokens.
    pub fn vote_on_appeal(
        &mut self,
        voter: Address,
        appeal_id: u64,
        vote: bool,
        balance: i128,
        now: u64,
    ) -> (r: Result<(), AppealError>)
        requires
            old(self).wf(),
        ensures
            final(self).wf(),
            final(self).appeals@.dom() == old(self).appeals@.dom(),
            final(self).grant_appeals@ == old(self).grant_appeals@,
            vote_outcome(*old(self), voter, appeal_id, vote, balance, now) matches Err(e) ==> r == Err::<(), AppealError>(e),
            vote_outcome(*old(self), voter, appeal_id, vote, balance, now) is Ok ==> r is Ok,
            r is Err ==> final(self).appeals@ == old(self).appeals@ && final(self).votes@ == old(self).votes@
                && final(self).holdings@ == old(self).holdings@
                && final(self).voting_power_cache@ == old(self).voting_power_cache@,
            r is Ok ==> {
                let w = vote_outcome(*old(self), voter, appeal_id, vote, balance, now)->Ok_0;
                let a = old(self).appeals@[appeal_id];
                let na = final(self).appeals@[appeal_id];
                &&& vote_outcome(*old(self), voter, appeal_id, vote, balance, now) is Ok
                &&& w > 0
                &&& na.votes_for == a.votes_for + (if vote { w as int } else { 0 })
                &&& na.votes_against == a.votes_against + (if vote { 0 } else { w as int })
                &&& na.total_eligible_power == a.total_eligible_power + w
                &&& na.status == a.status && na.voting_deadline == a.voting_deadline
                &&& na.grant_id == a.grant_id
                &&& forall|k: u64| k != appeal_id && #[trigger] old(self).appeals@.contains_key(k)
                    ==> final(self).appeals@[k] == old(self).appeals@[k]
                &&& voted(final(self).votes@, voter, appeal_id)
                &&& final(self).holdings@ == old(self).holdings@.insert(voter.0, (TokenHoldingInfo {
                    address: voter,
                    balance,
                    first_acquired: first_acquired_at(*old(self), voter, now),
                    last_updated: now,
                }))
                &&& final(self).voting_power_cache@ == old(self).voting_power_cache@.insert(voter.0, w)
            },
    {
        let (deadline, status) = match self.appeals.get(&appeal_id) {
            None => return Err(AppealError::AppealNotFound),
            Some(a) => (a.voting_deadline, a.status),
        };
        if now >= deadline {
            return Err(AppealError::VotingPeriodEnded);
        }
        if status != AppealStatus::Proposed {
            return Err(AppealError::InvalidAppealStatus);
        }
        if self.has_voted(voter, appeal_id) {
            return Err(AppealError::AlreadyVoted);
        }
        if self.governance_token.is_none() {
            return Err(AppealError::NotInitialized);
        }
        if balance <= 0 {
            return Err(AppealError::InsufficientVotingPower);
        }
        let first_acquired = match self.holdings.get(&voter.0) {
            Some(h) => h.first_acquired,
            None => now,
        };
        let holding_duration = match now.checked_sub(first_acquired) {
            Some(d) => d,
            None => 0,
        };
        let time_multiplier = Self::get_time_multiplier(holding_duration);
        let weighted_power = match balance.checked_mul(time_multiplier as i128) {
            Some(p) => p / 10000,
            None => return Err(AppealError::MathOverflow),
        };
        if weighted_power <= 0 {
            return Err(AppealError::InsufficientVotingPower);
        }
        let (votes_for, votes_against, total_power) = match self.appeals.get(&appeal_id) {
            Some(a) => (a.votes_for, a.votes_against, a.total_eligible_power),
            None => return Err(AppealError::AppealNotFound),
        };
        let new_for = if vote {
            match votes_for.checked_add(weighted_power) {
                Some(v) => v,
                None => return Err(AppealError::MathOverflow),
            }
        } else {
            votes_for
        };
        let new_against = if vote {
            votes_against
        } else {
            match votes_against.checked_add(weighted_power) {
                Some(v) => v,
                None => return Err(AppealError::MathOverflow),
            }
        };
        let new_total = match total_power.checked_add(weighted_power) {
            Some(v) => v,
            None => return Err(AppealError::MathOverflow),
        };
        self.holdings.insert(voter.0, TokenHoldingInfo { address: voter, balance, first_acquired, last_updated: now });
        self.voting_power_cache.insert(voter.0, weighted_power);
        let mut appeal = self.appeals.remove(&appeal_id).unwrap();
        appeal.votes_for = new_for;
        appeal.votes_against = new_against;
        appeal.total_eligible_power = new_total;
        self.appeals.insert(appeal_id, appeal);
        self.votes.push(TimeWeightedVote {
            voter,
            appeal_id,
            base_voting_power: balance,
            time_multiplier,
            weighted_power,
            vote,
            voted_at: now,
            token_holding_duration: holding_duration,
        });
        proof {
            assert(self.appeals@.dom() =~= old(self).appeals@.dom());
            assert(self.votes@.last().voter == voter && self.votes@.last().appeal_id == appeal_id);
        }
        Ok(())
    }

    /// Decides an appeal once its voting period is over: without 10%
    /// participation it expires, without 66% approval it is rejected (both
    /// recorded, and reported as errors); otherwise it is approved at `now`.
    pub fn execute_appeal(&mut self, caller: Address, appeal_id: u64, now: u64) -> (r: Result<(), AppealError>)
        requires
            old(self).wf(),
        ensures
            final(self).wf(),
            final(self).appeals@.dom() == old(self).appeals@.dom(),
            forall|k: u64| k != appeal_id && #[trigger] old(self).appeals@.contains_key(k)
                ==> final(self).appeals@[k] == old(self).appeals@[k],
            !old(self).appeals@.contains_key(appeal_id) ==> r == Err::<(), AppealError>(AppealError::AppealNotFound),
            old(self).appeals@.contains_key(appeal_id) ==> {
                let a = old(self).appeals@[appeal_id];
                let na = final(self).appeals@[appeal_id];
                let (participation, approval) = appeal_results_spec(a.votes_for, a.votes_against, a.total_eligible_power);
                &&& now < a.voting_deadline ==> r == Err::<(), AppealError>(AppealError::VotingPeriodActive) && na == a
                &&& now >= a.voting_deadline && a.status != AppealStatus::Proposed
                    ==> r == Err::<(), AppealError>(AppealError::InvalidAppealStatus) && na == a
                &&& now >= a.voting_deadline && a.status == AppealStatus::Proposed && !participation
                    ==> r == Err::<(), AppealError>(AppealError::ParticipationThresholdNotMet)
                    && na == (GrantAppeal { status: AppealStatus::Expired, ..a })
                &&& now >= a.voting_deadline && a.status == AppealStatus::Proposed && participation && !approval
                    ==> r == Err::<(), AppealError>(AppealError::ApprovalThresholdNotMet)
                    && na == (GrantAppeal { status: AppealStatus::Rejected, ..a })
                &&& now >= a.voting_deadline && a.status == AppealStatus::Proposed && participation && approval
                    ==> r is Ok && na == (GrantAppeal { status: AppealStatus::Approved, executed_at: Some(now), ..a })
            },
    {
        let mut appeal = match self.appeals.remove(&appeal_id) {
            None => return Err(AppealError::AppealNotFound),
            Some(a) => a,
        };
        if now < appeal.voting_deadline || appeal.status != AppealStatus::Proposed {
            let e = if now < appeal.voting_deadline { AppealError::VotingPeriodActive } else { AppealError::InvalidAppealStatus };
            self.appeals.insert(appeal_id, appeal);
            proof { assert(self.appeals@ =~= old(self).appeals@); }
            return Err(e);
        }
        let (participation_met, approval_met) = Self::calculate_appeal_results(&appeal);
        let result = if !participation_met {
            appeal.status = AppealStatus::Expired;
            Err(AppealError::ParticipationThresholdNotMet)
        } else if !approval_met {
            appeal.status = AppealStatus::Rejected;
            Err(AppealError::ApprovalThresholdNotMet)
        } else {
            appeal.status = AppealStatus::Approved;
            appeal.executed_at = Some(now);
            Ok(())
        };
        self.appeals.insert(appeal_id, appeal);
        proof { assert(self.appeals@.dom() =~= old(self).appeals@.dom()); }
        result
    }

    /// The appeal with identifier `appeal_id`.
    pub fn get_appeal_info(&self, appeal_id: u64) -> (r: Result<&GrantAppeal, AppealError>)
        ensures
            self.appeals@.contains_key(appeal_id) ==> (r matches Ok(a) && *a == self.appeals@[appeal_id]),
            !self.appeals@.contains_key(appeal_id) ==> (r matches Err(e) && e == AppealError::AppealNotFound),
    {
        match self.appeals.get(&appeal_id) {
            Some(a) => Ok(a),
            None => Err(AppealError::AppealNotFound),
        }
    }

    /// A voter's base power, time multiplier and holding duration at `now`,
    /// given the voter's token balance `balance` (all zero for an empty
    /// balance). Records the holding and caches the weighted power
    /// `balance * multiplier / 10000`.
    pub fn get_time_weighted_voting_power(&mut self, voter: Address, balance: i128, now: u64)
        -> (r: Result<(i128, u32, u64), AppealError>)
        requires
            old(self).wf(),
        ensures
            final(self).wf(),
            r == power_outcome(*old(self), voter, balance, now),
            final(self).appeals@ == old(self).appeals@,
            final(self).grant_appeals@ == old(self).grant_appeals@,
            final(self).votes@ == old(self).votes@,
            final(self).governance_token == old(self).governance_token,
            (r is Err || balance <= 0) ==> final(self).holdings@ == old(self).holdings@
                && final(self).voting_power_cache@ == old(self).voting_power_cache@,
            r is Ok && balance > 0 ==> {
                let (b, m, d) = r->Ok_0;
                &&& final(self).holdings@ == old(self).holdings@.insert(voter.0, (TokenHoldingInfo {
                    address: voter,
                    balance,
                    first_acquired: first_acquired_at(*old(self), voter, now),
                    last_updated: now,
                }))
                &&& final(self).voting_power_cache@ == old(self).voting_power_cache@.insert(voter.0, ((b * m) / 10000) as i128)
            },
    {
        if self.governance_token.is_none() {
            return Err(AppealError::NotInitialized);
        }
        if balance <= 0 {
            return Ok((0, 0, 0));
        }
        let first_acquired = match self.holdings.get(&voter.0) {
            Some(h) => h.first_acquired,
            None => now,
        };
        let holding_duration = match now.checked_sub(first_acquired) {
            Some(d) => d,
            None => 0,
        };
        let time_multiplier = Self::get_time_multiplier(holding_duration);
        let weighted_power = match balance.checked_mul(time_multiplier as i128) {
            Some(p) => p / 10000,
            None => return Err(AppealError::MathOverflow),
        };
        self.holdings.insert(voter.0, TokenHoldingInfo { address: voter, balance, first_acquired, last_updated: now });
        self.voting_power_cache.insert(voter.0, weighted_power);
        Ok((balance, time_multiplier, holding_duration))
    }

    /// The vote `voter` cast on `appeal_id`.
    pub fn get_vote_info(&self, voter: Address, appeal_id: u64) -> (r: Result<TimeWeightedVote, AppealError>)
        ensures
            r is Ok <==> voted(self.votes@, voter, appeal_id),
            r matches Ok(v) ==> v.voter == voter && v.appeal_id == appeal_id && self.votes@.contains(v),
            r is Err ==> r == Err::<TimeWeightedVote, AppealError>(AppealError::AppealNotFound),
    {
        let mut i: usize = 0;
        while i < self.votes.len()
            invariant
                i <= self.votes.len(),
                forall|j: int| 0 <= j < i ==> !(#[trigger] self.votes@[j].voter == voter && self.votes@[j].appeal_id == appeal_id),
            decreases self.votes.len() - i,
        {
            if self.votes[i].voter == voter && self.votes[i].appeal_id == appeal_id {
                return Ok(self.votes[i]);
            }
            i = i + 1;
        }
        Err(AppealError::AppealNotFound)
    }

    /// Identifiers of the appeals filed for a grant.
    pub fn get_grant_appeals(&self, grant_id: u64) -> (r: Vec<u64>)
        ensures
            r@ == grant_list(self.grant_appeals@, grant_id),
    {
        match self.grant_appeals.get(&grant_id) {
            Some(l) => l.clone(),
            None => Vec::new(),
        }
    }

    /// Identifiers of all appeals; `NotInitialized` before initialization.
    pub fn get_all_appeals(&self) -> (r: Result<Vec<u64>, AppealError>)
        ensures
            self.governance_token is None ==> r == Err::<Vec<u64>, AppealError>(AppealError::NotInitialized),
            self.governance_token is Some ==> (r matches Ok(v) && v@ == self.appeal_ids@),
    {
        if self.governance_token.is_none() {
            return Err(AppealError::NotInitialized);
        }
        Ok(self.appeal_ids.clone())
    }

    /// The governance token; `NotInitialized` before initialization.
    pub fn get_governance_token(&self) -> (r: Result<Address, AppealError>)
        ensures
            self.governance_token matches Some(t) ==> r == Ok::<Address, AppealError>(t),
            self.governance_token is None ==> r == Err::<Address, AppealError>(AppealError::NotInitialized),
    {
        match self.governance_token {
            Some(t) => Ok(t),
            None => Err(AppealError::NotInitialized),
        }
    }
}

/// Whether an appeal status blocks a new appeal for the same grant.
pub open spec fn is_open(s: AppealStatus) -> bool {
    s == AppealStatus::Proposed || s == AppealStatus::Approved
}

/// The appeal list of a grant, empty when it has none.
pub open spec fn grant_list(lists: Map<u64, Vec<u64>>, g: u64) -> Seq<u64> {
    if lists.contains_key(g) { lists[g]@ } else { Seq::empty() }
}

/// Whether grant `g` has an appeal that is proposed or approved.
pub open spec fn has_open_appeal(appeals: Map<u64, GrantAppeal>, lists: Map<u64, Vec<u64>>, g: u64) -> bool {
    exists|j: int| 0 <= j < grant_list(lists, g).len() && is_open(appeals[#[trigger] grant_list(lists, g)[j]].status)
}

/// Whether `voter` has a recorded vote on `appeal_id`.
pub open spec fn voted(votes: Seq<TimeWeightedVote>, voter: Address, appeal_id: u64) -> bool {
    exists|j: int| 0 <= j < votes.len() && #[trigger] votes[j].voter == voter && votes[j].appeal_id == appeal_id
}

/// The outcome of a vote: the weighted power it adds, or why it is refused.
pub open spec fn vote_outcome(s: GrantAppealContract, voter: Address, appeal_id: u64, vote: bool, balance: i128, now: u64) -> Result<i128, AppealError> {
    if !s.appeals@.contains_key(appeal_id) {
        Err(AppealError::AppealNotFound)
    } else if now >= s.appeals@[appeal_id].voting_deadline {
        Err(AppealError::VotingPeriodEnded)
    } else if s.appeals@[appeal_id].status != AppealStatus::Proposed {
        Err(AppealError::InvalidAppealStatus)
    } else if voted(s.votes@, voter, appeal_id) {
        Err(AppealError::AlreadyVoted)
    } else if s.governance_token is None {
        Err(AppealError::NotInitialized)
    } else if balance <= 0 {
        Err(AppealError::InsufficientVotingPower)
    } else {
        let first = if s.holdings@.contains_key(voter.0) { s.holdings@[voter.0].first_acquired } else { now };
        let d: u64 = if now >= first { (now - first) as u64 } else { 0 };
        let m = time_multiplier_spec(d);
        if balance * m > i128::MAX {
            Err(AppealError::MathOverflow)
        } else {
            let w = (balance * m) / 10000;
            if w <= 0 {
                Err(AppealError::InsufficientVotingPower)
            } else {
                let a = s.appeals@[appeal_id];
                if vote_overflows(a, vote, w) {
                    Err(AppealError::MathOverflow)
                } else {
                    Ok(w as i128)
                }
            }
        }
    }
}

/// Whether adding weight `w` to the voted tally or to the total overflows.
pub open spec fn vote_overflows(a: GrantAppeal, vote: bool, w: int) -> bool {
    (if vote { a.votes_for + w > i128::MAX } else { a.votes_against + w > i128::MAX })
        || a.total_eligible_power + w > i128::MAX
}

/// When `voter` first acquired tokens, as recorded, or `now` for a first
/// holding.
pub open spec fn first_acquired_at(s: GrantAppealContract, voter: Address, now: u64) -> u64 {
    if s.holdings@.contains_key(voter.0) { s.holdings@[voter.0].first_acquired } else { now }
}

/// A voter's (base power, multiplier, holding duration) at `now`, or why it
/// cannot be computed.
pub open spec fn power_outcome(s: GrantAppealContract, voter: Address, balance: i128, now: u64) -> Result<(i128, u32, u64), AppealError> {
    if s.governance_token is None {
        Err(AppealError::NotInitialized)
    } else if balance <= 0 {
        Ok((0i128, 0u32, 0u64))
    } else {
        let first = first_acquired_at(s, voter, now);
        let d: u64 = if now >= first { (now - first) as u64 } else { 0 };
        let m = time_multiplier_spec(d);
        if balance * m > i128::MAX {
            Err(AppealError::MathOverflow)
        } else {
            Ok((balance, m, d))
        }
    }
}

/// A voter votes once per appeal: once a vote of `voter` on `appeal_id` is
/// recorded, another vote on that appeal is refused, as `AlreadyVoted` while
/// the appeal is still open to votes.
pub proof fn lemma_second_vote_refused(s: GrantAppealContract, voter: Address, appeal_id: u64, vote: bool, balance: i128, now: u64)
    requires
        voted(s.votes@, voter, appeal_id),
    ensures
        vote_outcome(s, voter, appeal_id, vote, balance, now) is Err,
        s.appeals@.contains_key(appeal_id) && now < s.appeals@[appeal_id].voting_deadline
            && s.appeals@[appeal_id].status == AppealStatus::Proposed
            ==> vote_outcome(s, voter, appeal_id, vote, balance, now) == Err::<i128, AppealError>(AppealError::AlreadyVoted),
{
}

} // verus!
