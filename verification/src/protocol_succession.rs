//! Protocol succession: a two-step handover of root ownership. The admin
//! proposes a new DAO address; control passes only when that address confirms,
//! so the contract is never left without a controller.
use vstd::prelude::*;
use crate::types::Address;

verus! {

/// Where a handover stands.
#[derive(Debug, Clone, Copy, PartialEq, Eq, Structural)]
pub enum SuccessionStatus {
    Idle,
    Pending,
    Completed,
}

/// A proposed handover.
#[derive(Debug, Clone, Copy, PartialEq, Eq, Structural)]
pub struct SuccessionRecord {
    pub current_admin: Address,
    pub proposed_dao: Address,
    pub initiated_at: u64,
    pub status: SuccessionStatus,
}

/// Storage keys of the module.
#[derive(Debug, Clone, Copy, PartialEq, Eq, Structural)]
pub enum SuccessionKey {
    Admin,
    PendingSuccession,
}

/// Why a succession step was refused.
#[derive(Debug, Clone, Copy, PartialEq, Eq, Structural)]
pub enum SuccessionError {
    NotInitialized,
    NotAuthorized,
    SuccessionAlreadyPending,
    NoSuccessionPending,
    WrongConfirmingAddress,
    SuccessionAlreadyCompleted,
}

/// The admin and the pending handover, if any. Each operation runs on behalf
/// of a caller whose signature the host has checked: the current admin for
/// `initiate_succession` and `cancel_succession`, the confirming address for
/// `confirm_succession`.
pub struct ProtocolSuccession {
    pub admin: Option<Address>,
    pub pending: Option<SuccessionRecord>,
}

impl ProtocolSuccession {
    /// A module with no admin.
    pub fn new() -> (r: Self)
        ensures
            r.admin is None,
            r.pending is None,
    {
        ProtocolSuccession { admin: None, pending: None }
    }

    /// Sets the initial admin.
    pub fn initialize(&mut self, admin: Address)
        ensures
            final(self).admin == Some(admin),
            final(self).pending == old(self).pending,
    {
        self.admin = Some(admin);
    }

    /// Step one: the admin proposes `new_dao` at `now`. The admin keeps
    /// control until the proposal is confirmed; one proposal at a time.
    pub fn initiate_succession(&mut self, new_dao: Address, now: u64) -> (r: Result<(), SuccessionError>)
        ensures
            final(self).admin == old(self).admin,
            old(self).admin is None ==> r == Err::<(), SuccessionError>(SuccessionError::NotInitialized),
            old(self).admin is Some && old(self).pending is Some
                ==> r == Err::<(), SuccessionError>(SuccessionError::SuccessionAlreadyPending),
            r is Err ==> final(self).pending == old(self).pending,
            r is Ok <==> old(self).admin is Some && old(self).pending is None,
            r is Ok ==> final(self).pending == Some(SuccessionRecord {
                current_admin: old(self).admin->Some_0,
                proposed_dao: new_dao,
                initiated_at: now,
                status: SuccessionStatus::Pending,
            }),
    {
        let current_admin = match self.admin {
            Some(a) => a,
            None => return Err(SuccessionError::NotInitialized),
        };
        if self.pending.is_some() {
            return Err(SuccessionError::SuccessionAlreadyPending);
        }
        self.pending = Some(SuccessionRecord {
            current_admin,
            proposed_dao: new_dao,
            initiated_at: now,
            status: SuccessionStatus::Pending,
        });
        Ok(())
    }

    /// Step two: the proposed DAO confirms and becomes the admin; any other
    /// address is refused and nothing changes.
    pub fn confirm_succession(&mut self, confirming_dao: Address) -> (r: Result<(), SuccessionError>)
        ensures
            old(self).pending is None ==> r == Err::<(), SuccessionError>(SuccessionError::NoSuccessionPending),
            old(self).pending matches Some(p) && p.proposed_dao != confirming_dao
                ==> r == Err::<(), SuccessionError>(SuccessionError::WrongConfirmingAddress),
            r is Err ==> final(self).admin == old(self).admin && final(self).pending == old(self).pending,
            r is Ok <==> (old(self).pending matches Some(p) && p.proposed_dao == confirming_dao),
            r is Ok ==> final(self).admin == Some(confirming_dao) && final(self).pending is None,
    {
        let record = match self.pending {
            Some(p) => p,
            None => return Err(SuccessionError::NoSuccessionPending),
        };
        if record.proposed_dao != confirming_dao {
            return Err(SuccessionError::WrongConfirmingAddress);
        }
        self.admin = Some(confirming_dao);
        self.pending = None;
        Ok(())
    }

    /// Withdraws the pending proposal; the admin is unchanged.
    pub fn cancel_succession(&mut self) -> (r: Result<(), SuccessionError>)
        ensures
            final(self).admin == old(self).admin,
            old(self).admin is None ==> r == Err::<(), SuccessionError>(SuccessionError::NotInitialized),
            old(self).admin is Some && old(self).pending is None
                ==> r == Err::<(), SuccessionError>(SuccessionError::NoSuccessionPending),
            r is Ok <==> old(self).admin is Some && old(self).pending is Some,
            r is Ok ==> final(self).pending is None,
            r is Err ==> final(self).pending == old(self).pending,
    {
        if self.admin.is_none() {
            return Err(SuccessionError::NotInitialized);
        }
        if self.pending.is_none() {
            return Err(SuccessionError::NoSuccessionPending);
        }
        self.pending = None;
        Ok(())
    }

    /// The current admin.
    pub fn get_admin(&self) -> (r: Result<Address, SuccessionError>)
        ensures
            self.admin matches Some(a) ==> r == Ok::<Address, SuccessionError>(a),
            self.admin is None ==> r == Err::<Address, SuccessionError>(SuccessionError::NotInitialized),
    {
        match self.admin {
            Some(a) => Ok(a),
            None => Err(SuccessionError::NotInitialized),
        }
    }

    /// The pending proposal, if any.
    pub fn get_pending_succession(&self) -> (r: Option<SuccessionRecord>)
        ensures
            r == self.pending,
    {
        self.pending
    }
}

} // verus!
