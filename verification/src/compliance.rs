//! Sanctions and flags kept by a compliance officer.
use vstd::prelude::*;
use std::collections::HashSet;
use crate::types::Address;

verus! {

broadcast use vstd::std_specs::hash::group_hash_axioms;

/// Storage keys of the compliance registry.
#[derive(Debug, Clone, Copy, PartialEq, Eq, Structural)]
pub enum DataKey {
    Officer,
    Sanctioned(Address),
    Flagged(Address),
}

/// Why a compliance operation was refused.
#[derive(Debug, Clone, Copy, PartialEq, Eq, Structural)]
pub enum ComplianceError {
    AlreadyInitialized,
    NotInitialized,
}

/// The compliance registry. Only the officer may change it; the caller's
/// authentication as the officer is checked by the host before these
/// functions run.
pub struct ComplianceContract {
    pub officer: Option<Address>,
    /// Identities of sanctioned addresses.
    pub sanctioned: HashSet<u64>,
    /// Identities of flagged addresses.
    pub flagged: HashSet<u64>,
}

impl ComplianceContract {
    /// An uninitialized registry.
    pub fn new() -> (r: Self)
        ensures
            r.officer is None,
            r.sanctioned@ == Set::<u64>::empty(),
            r.flagged@ == Set::<u64>::empty(),
    {
        ComplianceContract { officer: None, sanctioned: HashSet::new(), flagged: HashSet::new() }
    }

    /// Sets the officer, once.
    pub fn init(&mut self, officer: Address) -> (r: Result<(), ComplianceError>)
        ensures
            old(self).officer is Some ==> r == Err::<(), ComplianceError>(ComplianceError::AlreadyInitialized)
                && final(self).officer == old(self).officer,
            old(self).officer is None ==> r is Ok && final(self).officer == Some(officer),
            final(self).sanctioned@ == old(self).sanctioned@,
            final(self).flagged@ == old(self).flagged@,
    {
        if self.officer.is_some() {
            return Err(ComplianceError::AlreadyInitialized);
        }
        self.officer = Some(officer);
        Ok(())
    }

    /// The officer, if set.
    pub fn get_officer(&self) -> (r: Option<Address>)
        ensures
            r == self.officer,
    {
        self.officer
    }

    /// Marks `target` as sanctioned.
    pub fn sanction(&mut self, target: Address) -> (r: Result<(), ComplianceError>)
        ensures
            old(self).officer is None ==> r == Err::<(), ComplianceError>(ComplianceError::NotInitialized)
                && final(self).sanctioned@ == old(self).sanctioned@,
            old(self).officer is Some ==> r is Ok && final(self).sanctioned@ == old(self).sanctioned@.insert(target.0),
            final(self).officer == old(self).officer,
            final(self).flagged@ == old(self).flagged@,
    {
        if self.officer.is_none() {
            return Err(ComplianceError::NotInitialized);
        }
        self.sanctioned.insert(target.0);
        Ok(())
    }

    /// Lifts a sanction on `target`.
    pub fn unsanction(&mut self, target: Address) -> (r: Result<(), ComplianceError>)
        ensures
            old(self).officer is None ==> r == Err::<(), ComplianceError>(ComplianceError::NotInitialized)
                && final(self).sanctioned@ == old(self).sanctioned@,
            old(self).officer is Some ==> r is Ok && final(self).sanctioned@ == old(self).sanctioned@.remove(target.0),
            final(self).officer == old(self).officer,
            final(self).flagged@ == old(self).flagged@,
    {
        if self.officer.is_none() {
            return Err(ComplianceError::NotInitialized);
        }
        self.sanctioned.remove(&target.0);
        Ok(())
    }

    /// Whether `target` is sanctioned.
    pub fn is_sanctioned(&self, target: Address) -> (r: bool)
        ensures
            r == self.sanctioned@.contains(target.0),
    {
        self.sanctioned.contains(&target.0)
    }

    /// Marks `target` as flagged.
    pub fn flag_address(&mut self, target: Address) -> (r: Result<(), ComplianceError>)
        ensures
            old(self).officer is None ==> r == Err::<(), ComplianceError>(ComplianceError::NotInitialized)
                && final(self).flagged@ == old(self).flagged@,
            old(self).officer is Some ==> r is Ok && final(self).flagged@ == old(self).flagged@.insert(target.0),
            final(self).officer == old(self).officer,
            final(self).sanctioned@ == old(self).sanctioned@,
    {
        if self.officer.is_none() {
            return Err(ComplianceError::NotInitialized);
        }
        self.flagged.insert(target.0);
        Ok(())
    }

    /// Whether `target` is flagged.
    pub fn is_flagged(&self, target: Address) -> (r: bool)
        ensures
            r == self.flagged@.contains(target.0),
    {
        self.flagged.contains(&target.0)
    }
}

} // verus!
