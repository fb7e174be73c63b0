//! Conditional funding: a dependent grant starts only once its prerequisite
//! grant is completed.
use vstd::prelude::*;
use std::collections::HashMap;
use crate::types::Address;

verus! {

broadcast use vstd::std_specs::hash::group_hash_axioms;

/// Lifecycle of a conditional grant.
#[derive(Debug, Clone, Copy, PartialEq, Eq, Structural)]
pub enum GrantStatus {
    Waiting,
    Active,
    Completed,
    Cancelled,
}

/// A conditional grant.
#[derive(Debug, Clone, Copy, PartialEq, Eq, Structural)]
pub struct Grant {
    pub id: u32,
    pub owner: Address,
    pub amount: i128,
    pub status: GrantStatus,
}

impl Grant {
    /// A grant waiting for its condition.
    pub fn new(id: u32, owner: Address, amount: i128) -> (r: Self)
        ensures
            r == (Grant { id, owner, amount, status: GrantStatus::Waiting }),
    {
        Grant { id, owner, amount, status: GrantStatus::Waiting }
    }

    /// Marks the grant completed.
    pub fn complete(&mut self)
        ensures
            *final(self) == (Grant { status: GrantStatus::Completed, ..*old(self) }),
    {
        self.status = GrantStatus::Completed;
    }

    /// Marks the grant active.
    pub fn activate(&mut self)
        ensures
            *final(self) == (Grant { status: GrantStatus::Active, ..*old(self) }),
    {
        self.status = GrantStatus::Active;
    }
}

/// Starts `dependent` if `prereq` is completed; returns whether it started.
pub fn trigger(prereq: &Grant, dependent: &mut Grant) -> (r: bool)
    ensures
        r == (prereq.status == GrantStatus::Completed),
        r ==> *final(dependent) == (Grant { status: GrantStatus::Active, ..*old(dependent) }),
        !r ==> *final(dependent) == *old(dependent),
{
    match prereq.status {
        GrantStatus::Completed => {
            dependent.activate();
            true
        },
        _ => false,
    }
}

/// Why a conditional funding operation was refused.
#[derive(Debug, Clone, Copy, PartialEq, Eq, Structural)]
pub enum ConditionalFundingError {
    GrantNotFound,
}

/// The conditional funding contract: grants by identifier.
pub struct ConditionalFunding {
    pub grants: HashMap<u32, Grant>,
}

impl ConditionalFunding {
    /// No grants.
    pub fn new() -> (r: Self)
        ensures
            r.grants@ == Map::<u32, Grant>::empty(),
    {
        ConditionalFunding { grants: HashMap::new() }
    }

    /// Creates (or replaces) grant `id` in the waiting state.
    pub fn init_grant(&mut self, id: u32, owner: Address, amount: i128) -> (r: Grant)
        ensures
            r == (Grant { id, owner, amount, status: GrantStatus::Waiting }),
            final(self).grants@ == old(self).grants@.insert(id, r),
    {
        let grant = Grant::new(id, owner, amount);
        self.grants.insert(id, grant);
        grant
    }

    /// Marks grant `id` completed.
    pub fn complete_grant(&mut self, id: u32) -> (r: Result<(), ConditionalFundingError>)
        ensures
            !old(self).grants@.contains_key(id) ==> r == Err::<(), ConditionalFundingError>(
                ConditionalFundingError::GrantNotFound,
            ) && final(self).grants@ == old(self).grants@,
            old(self).grants@.contains_key(id) ==> r is Ok && final(self).grants@ == old(self).grants@.insert(
                id,
                Grant { status: GrantStatus::Completed, ..old(self).grants@[id] },
            ),
    {
        match self.grants.get(&id) {
            None => Err(ConditionalFundingError::GrantNotFound),
            Some(g) => {
                let mut grant = *g;
                grant.complete();
                self.grants.insert(id, grant);
                Ok(())
            },
        }
    }

    /// Starts `dependent_id` if `prereq_id` is completed; returns whether it
    /// started.
    pub fn start_dependent(&mut self, prereq_id: u32, dependent_id: u32) -> (r: Result<bool, ConditionalFundingError>)
        ensures
            !(old(self).grants@.contains_key(prereq_id) && old(self).grants@.contains_key(dependent_id))
                ==> r == Err::<bool, ConditionalFundingError>(ConditionalFundingError::GrantNotFound)
                && final(self).grants@ == old(self).grants@,
            old(self).grants@.contains_key(prereq_id) && old(self).grants@.contains_key(dependent_id) ==> {
                let started = old(self).grants@[prereq_id].status == GrantStatus::Completed;
                &&& r == Ok::<bool, ConditionalFundingError>(started)
                &&& started ==> final(self).grants@ == old(self).grants@.insert(
                    dependent_id,
                    Grant { status: GrantStatus::Active, ..old(self).grants@[dependent_id] },
                )
                &&& !started ==> final(self).grants@ == old(self).grants@
            },
    {
        let prereq = match self.grants.get(&prereq_id) {
            None => return Err(ConditionalFundingError::GrantNotFound),
            Some(g) => *g,
        };
        let mut dependent = match self.grants.get(&dependent_id) {
            None => return Err(ConditionalFundingError::GrantNotFound),
            Some(g) => *g,
        };
        let started = trigger(&prereq, &mut dependent);
        self.grants.insert(dependent_id, dependent);
        proof {
            if !started {
                assert(self.grants@ =~= old(self).grants@);
            }
        }
        Ok(started)
    }

    /// Status of grant `id`.
    pub fn get_grant_status(&self, id: u32) -> (r: Result<GrantStatus, ConditionalFundingError>)
        ensures
            self.grants@.contains_key(id) ==> r == Ok::<GrantStatus, ConditionalFundingError>(self.grants@[id].status),
            !self.grants@.contains_key(id) ==> r == Err::<GrantStatus, ConditionalFundingError>(
                ConditionalFundingError::GrantNotFound,
            ),
    {
        match self.grants.get(&id) {
            None => Err(ConditionalFundingError::GrantNotFound),
            Some(g) => Ok(g.status),
        }
    }
}

} // verus!
