//! Dead man's switch: a recovery vault takes over admin rights after 180 days
//! without any admin activity.
use vstd::prelude::*;
use crate::types::Address;

verus! {

/// Seconds of admin inactivity after which the recovery vault may claim
/// admin rights: 180 days.
pub const INACTIVITY_PERIOD: u64 = 15552000;

/// Storage keys of the switch.
#[derive(Debug, Clone, Copy, PartialEq, Eq, Structural)]
pub enum SwitchKey {
    PrimaryAdmin,
    RecoveryVault,
    LastActivityAt,
    RecoveryExecuted,
}

/// Why a switch operation was refused.
#[derive(Debug, Clone, Copy, PartialEq, Eq, Structural)]
pub enum SwitchError {
    /// The caller is not the primary admin.
    NotPrimaryAdmin,
    /// The caller is not the recovery vault.
    NotRecoveryVault,
    /// The vault already claimed admin rights once.
    RecoveryAlreadyExecuted,
    /// The inactivity period has not elapsed; this many seconds remain.
    InactivityPeriodNotElapsed(u64),
}

impl SwitchError {
    /// Human-readable description of the refusal.
    pub fn message(&self) -> (r: &'static str)
        ensures
            *self == SwitchError::NotPrimaryAdmin ==> r@ == "Unauthorized: caller is not the primary admin"@,
            *self == SwitchError::NotRecoveryVault ==> r@ == "Unauthorized: caller is not the recovery vault"@,
            *self == SwitchError::RecoveryAlreadyExecuted ==> r@ == "Recovery has already been executed"@,
            *self is InactivityPeriodNotElapsed ==> r@ == "Inactivity period not yet elapsed"@,
    {
        match self {
            SwitchError::NotPrimaryAdmin => "Unauthorized: caller is not the primary admin",
            SwitchError::NotRecoveryVault => "Unauthorized: caller is not the recovery vault",
            SwitchError::RecoveryAlreadyExecuted => "Recovery has already been executed",
            SwitchError::InactivityPeriodNotElapsed(_) => "Inactivity period not yet elapsed",
        }
    }
}

/// State of the switch.
#[derive(Debug, Clone, Copy, PartialEq, Eq, Structural)]
pub struct DeadMansSwitchContract {
    pub primary_admin: Address,
    pub recovery_vault: Address,
    /// Time of the last admin action.
    pub last_activity_at: u64,
    pub recovery_executed: bool,
}

/// Seconds elapsed since the last activity, zero if the clock reads earlier.
pub open spec fn elapsed_since(last: u64, now: u64) -> int {
    if now >= last { now - last } else { 0 }
}

/// Outcome of a claim by `vault` at `now`.
pub open spec fn claim_spec(s: DeadMansSwitchContract, vault: Address, now: u64) -> Result<DeadMansSwitchContract, SwitchError> {
    if vault != s.recovery_vault {
        Err(SwitchError::NotRecoveryVault)
    } else if s.recovery_executed {
        Err(SwitchError::RecoveryAlreadyExecuted)
    } else if elapsed_since(s.last_activity_at, now) < INACTIVITY_PERIOD {
        Err(SwitchError::InactivityPeriodNotElapsed((INACTIVITY_PERIOD - elapsed_since(s.last_activity_at, now)) as u64))
    } else {
        Ok(DeadMansSwitchContract { primary_admin: vault, recovery_executed: true, ..s })
    }
}

/// Outcome of a heartbeat by `admin` at `now`.
pub open spec fn heartbeat_spec(s: DeadMansSwitchContract, admin: Address, now: u64) -> Result<DeadMansSwitchContract, SwitchError> {
    if admin != s.primary_admin {
        Err(SwitchError::NotPrimaryAdmin)
    } else {
        Ok(DeadMansSwitchContract { last_activity_at: now, ..s })
    }
}

impl DeadMansSwitchContract {
    /// A switch for `primary_admin` with `recovery_vault` as fallback, whose
    /// countdown starts at `now`.
    pub fn initialize(primary_admin: Address, recovery_vault: Address, now: u64) -> (r: Self)
        ensures
            r == (DeadMansSwitchContract {
                primary_admin,
                recovery_vault,
                last_activity_at: now,
                recovery_executed: false,
            }),
    {
        DeadMansSwitchContract { primary_admin, recovery_vault, last_activity_at: now, recovery_executed: false }
    }

    /// The primary admin proves liveness: the countdown restarts at `now`.
    pub fn heartbeat(&mut self, admin: Address, now: u64) -> (r: Result<(), SwitchError>)
        ensures
            match heartbeat_spec(*old(self), admin, now) {
                Ok(s) => r is Ok && *final(self) == s,
                Err(e) => r == Err::<(), SwitchError>(e) && *final(self) == *old(self),
            },
    {
        self.assert_primary_admin(admin)?;
        self.last_activity_at = now;
        Ok(())
    }

    /// Restarts the countdown; every privileged action calls this.
    pub fn record_activity(&mut self, now: u64)
        ensures
            *final(self) == (DeadMansSwitchContract { last_activity_at: now, ..*old(self) }),
    {
        self.last_activity_at = now;
    }

    /// The recovery vault takes over admin rights after the inactivity period.
    pub fn claim_admin(&mut self, recovery_vault: Address, now: u64) -> (r: Result<(), SwitchError>)
        ensures
            match claim_spec(*old(self), recovery_vault, now) {
                Ok(s) => r is Ok && *final(self) == s,
                Err(e) => r == Err::<(), SwitchError>(e) && *final(self) == *old(self),
            },
    {
        self.assert_recovery_vault(recovery_vault)?;
        if self.recovery_executed {
            return Err(SwitchError::RecoveryAlreadyExecuted);
        }
        let elapsed = now.saturating_sub(self.last_activity_at);
        if elapsed < INACTIVITY_PERIOD {
            let remaining = INACTIVITY_PERIOD - elapsed;
            return Err(SwitchError::InactivityPeriodNotElapsed(remaining));
        }
        self.primary_admin = recovery_vault;
        self.recovery_executed = true;
        Ok(())
    }

    /// The primary admin names a new recovery vault; this counts as activity.
    pub fn update_recovery_vault(&mut self, admin: Address, new_vault: Address, now: u64) -> (r: Result<(), SwitchError>)
        ensures
            admin != old(self).primary_admin ==> r == Err::<(), SwitchError>(SwitchError::NotPrimaryAdmin)
                && *final(self) == *old(self),
            admin == old(self).primary_admin ==> r is Ok && *final(self) == (DeadMansSwitchContract {
                recovery_vault: new_vault,
                last_activity_at: now,
                ..*old(self)
            }),
    {
        self.assert_primary_admin(admin)?;
        self.record_activity(now);
        self.recovery_vault = new_vault;
        Ok(())
    }

    /// Seconds left before the recovery vault may claim admin rights.
    pub fn time_until_recovery(&self, now: u64) -> (r: u64)
        ensures
            r == if elapsed_since(self.last_activity_at, now) >= INACTIVITY_PERIOD { 0 } else {
                INACTIVITY_PERIOD - elapsed_since(self.last_activity_at, now)
            },
    {
        let elapsed = now.saturating_sub(self.last_activity_at);
        INACTIVITY_PERIOD.saturating_sub(elapsed)
    }

    /// The current primary admin.
    pub fn get_admin(&self) -> (r: Address)
        ensures
            r == self.primary_admin,
    {
        self.primary_admin
    }

    /// The recovery vault.
    pub fn get_recovery_vault(&self) -> (r: Address)
        ensures
            r == self.recovery_vault,
    {
        self.recovery_vault
    }

    fn assert_primary_admin(&self, caller: Address) -> (r: Result<(), SwitchError>)
        ensures
            r is Ok <==> caller == self.primary_admin,
            r is Err ==> r == Err::<(), SwitchError>(SwitchError::NotPrimaryAdmin),
    {
        if caller != self.primary_admin {
            return Err(SwitchError::NotPrimaryAdmin);
        }
        Ok(())
    }

    fn assert_recovery_vault(&self, caller: Address) -> (r: Result<(), SwitchError>)
        ensures
            r is Ok <==> caller == self.recovery_vault,
            r is Err ==> r == Err::<(), SwitchError>(SwitchError::NotRecoveryVault),
    {
        if caller != self.recovery_vault {
            return Err(SwitchError::NotRecoveryVault);
        }
        Ok(())
    }
}

/// Admin rights pass to the vault only after a full inactivity period: a claim
/// within 180 days of the last heartbeat is refused.
pub proof fn lemma_heartbeat_defers_recovery(s: DeadMansSwitchContract, admin: Address, t: u64, vault: Address, now: u64)
    requires
        heartbeat_spec(s, admin, t) is Ok,
        t <= now,
        now - t < INACTIVITY_PERIOD,
    ensures
        claim_spec(heartbeat_spec(s, admin, t).unwrap(), vault, now) is Err,
{
}

/// A claim succeeds at most once: after a successful claim, any further claim
/// is refused.
pub proof fn lemma_recovery_happens_once(s: DeadMansSwitchContract, vault: Address, now: u64, v2: Address, later: u64)
    requires
        claim_spec(s, vault, now) is Ok,
    ensures
        claim_spec(claim_spec(s, vault, now).unwrap(), v2, later) is Err,
{
}

/// Once the inactivity period has fully elapsed, the vault's claim succeeds
/// (if it has not claimed before) and makes the vault the admin.
pub proof fn lemma_vault_claims_after_inactivity(s: DeadMansSwitchContract, now: u64)
    requires
        !s.recovery_executed,
        elapsed_since(s.last_activity_at, now) >= INACTIVITY_PERIOD,
    ensures
        claim_spec(s, s.recovery_vault, now) is Ok,
        claim_spec(s, s.recovery_vault, now).unwrap().primary_admin == s.recovery_vault,
{
}

} // verus!
