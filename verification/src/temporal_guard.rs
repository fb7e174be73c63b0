//! Temporal guard: a speed bump against flash-loan governance attacks. No
//! address may vote and withdraw in the same ledger, interactions need a
//! minimum ledger separation, and a vote and a withdrawal closer than five
//! seconds apart are refused.
use vstd::prelude::*;
use std::collections::HashMap;
use crate::types::{Address, pair_key, make_pair_key};

verus! {

broadcast use vstd::std_specs::hash::group_hash_axioms;

/// Default minimum number of ledgers between interactions.
pub const MIN_TEMPORAL_SEPARATION: u64 = 1;
/// Interactions closer than this many seconds look like a flash loan.
pub const FLASH_LOAN_DETECTION_WINDOW: u64 = 5;

/// What an address does.
#[derive(Debug, Clone, Copy, PartialEq, Eq, Structural)]
pub enum InteractionType {
    Vote,
    Withdraw,
}

/// An interaction and when it happened.
#[derive(Debug, Clone, Copy, PartialEq, Eq, Structural)]
pub struct InteractionRecord {
    pub interaction_type: InteractionType,
    pub ledger: u64,
    pub timestamp: u64,
    /// The grant, for withdrawals.
    pub grant_id: Option<u64>,
    /// The proposal, for votes.
    pub proposal_id: Option<u64>,
}

/// Why the guard refused.
#[derive(Debug, Clone, Copy, PartialEq, Eq, Structural)]
pub enum TemporalGuardError {
    NotInitialized,
    Unauthorized,
    SameLedgerInteraction,
    FlashLoanDetected,
    InvalidAddress,
    InvalidGrantId,
    InvalidProposalId,
    InteractionNotFound,
    MathOverflow,
}

/// Storage keys of the guard.
#[derive(Debug, Clone, Copy, PartialEq, Eq, Structural)]
pub enum TemporalGuardDataKey {
    Admin,
    LastInteraction(Address),
    InteractionHistory(Address, u64),
    Nonce(Address),
    FlashLoanFlag(Address),
    TemporalSeparationRequired,
}

/// The guard's state; addresses are keyed by identity.
pub struct TemporalGuardContract {
    pub admin: Option<Address>,
    /// Minimum ledgers between interactions; set at initialization.
    pub separation: Option<u64>,
    pub last_interaction: HashMap<u64, InteractionRecord>,
    /// Interaction history, keyed by (address, nonce).
    pub history: HashMap<u128, InteractionRecord>,
    pub nonces: HashMap<u64, u64>,
    /// Addresses flagged as flash-loan suspects, with the time flagged.
    pub flash_loan_flags: HashMap<u64, u64>,
}

/// Whether `t` lies within the flash-loan window after `last`.
pub open spec fn within_window(t: u64, last: u64) -> bool {
    t < last + FLASH_LOAN_DETECTION_WINDOW
}

/// The guard's answer to `user` attempting `kind` in `ledger` at `now`, given
/// whether the user is flagged, the user's last interaction and the required
/// separation.
pub open spec fn interaction_check(
    flagged: bool,
    last: Option<InteractionRecord>,
    separation: Option<u64>,
    kind: InteractionType,
    ledger: u64,
    now: u64,
) -> Result<(), TemporalGuardError> {
    if flagged {
        Err(TemporalGuardError::FlashLoanDetected)
    } else {
        match last {
            None => Ok(()),
            Some(l) => if l.timestamp + FLASH_LOAN_DETECTION_WINDOW > u64::MAX {
                Err(TemporalGuardError::MathOverflow)
            } else if within_window(now, l.timestamp) && ledger != l.ledger {
                Err(TemporalGuardError::FlashLoanDetected)
            } else {
                match separation {
                    None => Err(TemporalGuardError::NotInitialized),
                    Some(sep) => if ledger == l.ledger && l.interaction_type != kind {
                        Err(TemporalGuardError::SameLedgerInteraction)
                    } else if l.ledger + sep > u64::MAX {
                        Err(TemporalGuardError::MathOverflow)
                    } else if ledger < l.ledger + sep {
                        Err(TemporalGuardError::SameLedgerInteraction)
                    } else if kind != l.interaction_type && within_window(now, l.timestamp) {
                        Err(TemporalGuardError::FlashLoanDetected)
                    } else {
                        Ok(())
                    },
                }
            },
        }
    }
}

/// The speed bump: after a vote or a withdrawal in a ledger, the other kind of
/// interaction in that same ledger is always refused.
pub proof fn lemma_no_vote_and_withdraw_in_one_ledger(
    flagged: bool,
    last: InteractionRecord,
    separation: Option<u64>,
    kind: InteractionType,
    now: u64,
)
    requires
        kind != last.interaction_type,
    ensures
        interaction_check(flagged, Some(last), separation, kind, last.ledger, now) is Err,
{
}

impl TemporalGuardContract {
    /// The last interaction of `user`, if any.
    pub open spec fn last_of(&self, user: Address) -> Option<InteractionRecord> {
        if self.last_interaction@.contains_key(user.0) {
            Some(self.last_interaction@[user.0])
        } else {
            None
        }
    }

    /// The interaction nonce of `user`: zero before the first interaction.
    pub open spec fn nonce_of(&self, user: Address) -> u64 {
        if self.nonces@.contains_key(user.0) { self.nonces@[user.0] } else { 0 }
    }

    /// A guard not yet initialized.
    pub fn new() -> (r: Self)
        ensures
            r.admin is None,
            r.separation is None,
            r.last_interaction@ == Map::<u64, InteractionRecord>::empty(),
            r.history@ == Map::<u128, InteractionRecord>::empty(),
            r.nonces@ == Map::<u64, u64>::empty(),
            r.flash_loan_flags@ == Map::<u64, u64>::empty(),
    {
        TemporalGuardContract {
            admin: None,
            separation: None,
            last_interaction: HashMap::new(),
            history: HashMap::new(),
            nonces: HashMap::new(),
            flash_loan_flags: HashMap::new(),
        }
    }

    /// Sets the admin and the minimum separation (one ledger by default); a
    /// second initialization is refused (with `NotInitialized`, as the
    /// contract reports it).
    pub fn initialize(&mut self, admin: Address, temporal_separation: Option<u64>) -> (r: Result<(), TemporalGuardError>)
        ensures
            old(self).admin is Some <==> r is Err,
            r is Err ==> r == Err::<(), TemporalGuardError>(TemporalGuardError::NotInitialized)
                && final(self).admin == old(self).admin && final(self).separation == old(self).separation,
            r is Ok ==> final(self).admin == Some(admin) && final(self).separation == Some(
                match temporal_separation {
                    Some(s) => s,
                    None => MIN_TEMPORAL_SEPARATION,
                },
            ),
            final(self).last_interaction@ == old(self).last_interaction@,
            final(self).nonces@ == old(self).nonces@,
            final(self).flash_loan_flags@ == old(self).flash_loan_flags@,
    {
        if self.admin.is_some() {
            return Err(TemporalGuardError::NotInitialized);
        }
        self.admin = Some(admin);
        self.separation = Some(
            match temporal_separation {
                Some(s) => s,
                None => MIN_TEMPORAL_SEPARATION,
            },
        );
        Ok(())
    }

    fn last_interaction_of(&self, user: Address) -> (r: Option<InteractionRecord>)
        ensures
            r == self.last_of(user),
    {
        match self.last_interaction.get(&user.0) {
            Some(rec) => Some(*rec),
            None => None,
        }
    }

    /// Whether `user` may perform `kind` in `ledger` at `now`. Refused when the
    /// user is flagged; when the last interaction was in another ledger less
    /// than five seconds ago; when it was of the other kind in this ledger;
    /// before the required separation; and for a vote right after a
    /// withdrawal, or the reverse, within five seconds. A refusal changes
    /// nothing.
    pub fn check_interaction_allowed(
        &self,
        user: Address,
        interaction_type: InteractionType,
        grant_id: Option<u64>,
        proposal_id: Option<u64>,
        ledger: u64,
        now: u64,
    ) -> (r: Result<(), TemporalGuardError>)
        ensures
            r == interaction_check(
                self.flash_loan_flags@.contains_key(user.0),
                self.last_of(user),
                self.separation,
                interaction_type,
                ledger,
                now,
            ),
    {
        if self.flash_loan_flags.contains_key(&user.0) {
            return Err(TemporalGuardError::FlashLoanDetected);
        }
        let last = match self.last_interaction_of(user) {
            Some(l) => l,
            None => return Ok(()),
        };
        let window_end = match last.timestamp.checked_add(FLASH_LOAN_DETECTION_WINDOW) {
            Some(t) => t,
            None => return Err(TemporalGuardError::MathOverflow),
        };
        if now < window_end && ledger != last.ledger {
            return Err(TemporalGuardError::FlashLoanDetected);
        }
        let required = match self.separation {
            Some(s) => s,
            None => return Err(TemporalGuardError::NotInitialized),
        };
        if ledger == last.ledger && last.interaction_type != interaction_type {
            return Err(TemporalGuardError::SameLedgerInteraction);
        }
        let earliest = match last.ledger.checked_add(required) {
            Some(l) => l,
            None => return Err(TemporalGuardError::MathOverflow),
        };
        if ledger < earliest {
            return Err(TemporalGuardError::SameLedgerInteraction);
        }
        if interaction_type == InteractionType::Vote && last.interaction_type == InteractionType::Withdraw {
            if now < window_end {
                return Err(TemporalGuardError::FlashLoanDetected);
            }
        }
        if interaction_type == InteractionType::Withdraw && last.interaction_type == InteractionType::Vote {
            if now < window_end {
                return Err(TemporalGuardError::FlashLoanDetected);
            }
        }
        Ok(())
    }

    /// Records that `user` performed `kind` in `ledger` at `now`: it becomes
    /// the last interaction, joins the history under the user's nonce, and any
    /// flash-loan flag is cleared.
    pub fn record_interaction(
        &mut self,
        user: Address,
        interaction_type: InteractionType,
        grant_id: Option<u64>,
        proposal_id: Option<u64>,
        ledger: u64,
        now: u64,
    ) -> (r: Result<(), TemporalGuardError>)
        ensures
            old(self).nonce_of(user) == u64::MAX <==> r is Err,
            r is Err ==> r == Err::<(), TemporalGuardError>(TemporalGuardError::MathOverflow)
                && final(self).last_interaction@ == old(self).last_interaction@
                && final(self).history@ == old(self).history@
                && final(self).nonces@ == old(self).nonces@
                && final(self).flash_loan_flags@ == old(self).flash_loan_flags@,
            r is Ok ==> {
                let rec = InteractionRecord { interaction_type, ledger, timestamp: now, grant_id, proposal_id };
                let n = old(self).nonce_of(user);
                &&& final(self).last_interaction@ == old(self).last_interaction@.insert(user.0, rec)
                &&& final(self).history@ == old(self).history@.insert(pair_key(user.0, n), rec)
                &&& final(self).nonces@ == old(self).nonces@.insert(user.0, (n + 1) as u64)
                &&& final(self).flash_loan_flags@ == old(self).flash_loan_flags@.remove(user.0)
            },
            final(self).admin == old(self).admin,
            final(self).separation == old(self).separation,
    {
        let nonce = match self.nonces.get(&user.0) {
            Some(n) => *n,
            None => 0,
        };
        let next = match nonce.checked_add(1) {
            Some(n) => n,
            None => return Err(TemporalGuardError::MathOverflow),
        };
        let interaction = InteractionRecord { interaction_type, ledger, timestamp: now, grant_id, proposal_id };
        self.last_interaction.insert(user.0, interaction);
        self.nonces.insert(user.0, next);
        self.history.insert(make_pair_key(user.0, nonce), interaction);
        self.flash_loan_flags.remove(&user.0);
        Ok(())
    }

    /// Whether `voter` may vote on `proposal_id` in `ledger` at `now`.
    pub fn check_vote_allowed(&self, voter: Address, proposal_id: u64, ledger: u64, now: u64) -> (r: Result<(), TemporalGuardError>)
        ensures
            r == interaction_check(
                self.flash_loan_flags@.contains_key(voter.0),
                self.last_of(voter),
                self.separation,
                InteractionType::Vote,
                ledger,
                now,
            ),
    {
        self.check_interaction_allowed(voter, InteractionType::Vote, None, Some(proposal_id), ledger, now)
    }

    /// Whether `recipient` may withdraw from `grant_id` in `ledger` at `now`.
    pub fn check_withdraw_allowed(&self, recipient: Address, grant_id: u64, ledger: u64, now: u64) -> (r: Result<(), TemporalGuardError>)
        ensures
            r == interaction_check(
                self.flash_loan_flags@.contains_key(recipient.0),
                self.last_of(recipient),
                self.separation,
                InteractionType::Withdraw,
                ledger,
                now,
            ),
    {
        self.check_interaction_allowed(recipient, InteractionType::Withdraw, Some(grant_id), None, ledger, now)
    }

    /// Records a vote by `voter` on `proposal_id`.
    pub fn record_vote(&mut self, voter: Address, proposal_id: u64, ledger: u64, now: u64) -> (r: Result<(), TemporalGuardError>)
        ensures
            old(self).nonce_of(voter) == u64::MAX <==> r is Err,
            r is Ok ==> final(self).last_of(voter) == Some(InteractionRecord {
                interaction_type: InteractionType::Vote,
                ledger,
                timestamp: now,
                grant_id: None,
                proposal_id: Some(proposal_id),
            }),
            r is Ok ==> final(self).nonce_of(voter) == old(self).nonce_of(voter) + 1,
            r is Err ==> final(self).last_interaction@ == old(self).last_interaction@,
    {
        self.record_interaction(voter, InteractionType::Vote, None, Some(proposal_id), ledger, now)
    }

    /// Records a withdrawal by `recipient` from `grant_id`.
    pub fn record_withdrawal(&mut self, recipient: Address, grant_id: u64, ledger: u64, now: u64) -> (r: Result<(), TemporalGuardError>)
        ensures
            old(self).nonce_of(recipient) == u64::MAX <==> r is Err,
            r is Ok ==> final(self).last_of(recipient) == Some(InteractionRecord {
                interaction_type: InteractionType::Withdraw,
                ledger,
                timestamp: now,
                grant_id: Some(grant_id),
                proposal_id: None,
            }),
            r is Ok ==> final(self).nonce_of(recipient) == old(self).nonce_of(recipient) + 1,
            r is Err ==> final(self).last_interaction@ == old(self).last_interaction@,
    {
        self.record_interaction(recipient, InteractionType::Withdraw, Some(grant_id), None, ledger, now)
    }

    /// Changes the required separation (admin only); zero is refused.
    pub fn update_temporal_separation(&mut self, admin: Address, new_separation: u64) -> (r: Result<(), TemporalGuardError>)
        ensures
            old(self).admin is None ==> r == Err::<(), TemporalGuardError>(TemporalGuardError::NotInitialized),
            old(self).admin matches Some(a) && a != admin ==> r == Err::<(), TemporalGuardError>(TemporalGuardError::Unauthorized),
            old(self).admin == Some(admin) && new_separation == 0
                ==> r == Err::<(), TemporalGuardError>(TemporalGuardError::InvalidAddress),
            r is Ok <==> old(self).admin == Some(admin) && new_separation > 0,
            r is Ok ==> final(self).separation == Some(new_separation),
            r is Err ==> final(self).separation == old(self).separation,
            final(self).admin == old(self).admin,
            final(self).last_interaction@ == old(self).last_interaction@,
    {
        match self.admin {
            None => return Err(TemporalGuardError::NotInitialized),
            Some(a) => if a != admin {
                return Err(TemporalGuardError::Unauthorized);
            },
        }
        if new_separation == 0 {
            return Err(TemporalGuardError::InvalidAddress);
        }
        self.separation = Some(new_separation);
        Ok(())
    }

    /// The last interaction of `user`, if any.
    pub fn get_last_interaction(&self, user: Address) -> (r: Result<Option<InteractionRecord>, TemporalGuardError>)
        ensures
            r == Ok::<Option<InteractionRecord>, TemporalGuardError>(self.last_of(user)),
    {
        Ok(self.last_interaction_of(user))
    }

    /// Whether `user` is flagged as a flash-loan suspect.
    pub fn is_flash_loan_suspect(&self, user: Address) -> (r: Result<bool, TemporalGuardError>)
        ensures
            r == Ok::<bool, TemporalGuardError>(self.flash_loan_flags@.contains_key(user.0)),
    {
        Ok(self.flash_loan_flags.contains_key(&user.0))
    }
}

} // verus!
