//! Emergency stop: two of three auditors can pause the protocol for a fixed
//! duration, after which it resumes by itself.
use vstd::prelude::*;
use crate::types::Address;

verus! {

/// Whether `a` occurs in `s`.
fn contains_address(s: &Vec<Address>, a: Address) -> (r: bool)
    ensures
        r == s@.contains(a),
{
    let mut i: usize = 0;
    while i < s.len()
        invariant
            i <= s.len(),
            forall|j: int| 0 <= j < i ==> s@[j] != a,
        decreases s.len() - i,
    {
        if s[i] == a {
            return true;
        }
        i = i + 1;
    }
    false
}

/// The pause state and the auditors' pending signatures.
#[derive(Debug, Clone)]
pub struct EmergencyStop {
    pub is_paused: bool,
    pub pause_start: u64,
    /// How long a pause lasts, in seconds.
    pub pause_duration: u64,
    pub auditors: Vec<Address>,
    pub signatures: Vec<Address>,
}

/// Whether the stop holds at `now`: it is paused and the pause has not run out.
pub open spec fn paused_at(s: EmergencyStop, now: u64) -> bool {
    s.is_paused && now < s.pause_start + s.pause_duration
}

impl EmergencyStop {
    /// A stop watched by exactly three auditors.
    pub fn new(auditors: Vec<Address>, pause_duration: u64) -> (r: Self)
        requires
            auditors.len() == 3,
        ensures
            !r.is_paused,
            r.pause_start == 0,
            r.pause_duration == pause_duration,
            r.auditors@ == auditors@,
            r.signatures@.len() == 0,
    {
        EmergencyStop { is_paused: false, pause_start: 0, pause_duration, auditors, signatures: Vec::new() }
    }

    /// An auditor signs for a pause; with the second distinct signature the
    /// protocol pauses from `now` and the signatures are cleared. Returns
    /// whether this signature paused the protocol.
    pub fn sign_pause(&mut self, auditor: Address, now: u64) -> (r: bool)
        requires
            old(self).auditors@.contains(auditor),
        ensures
            final(self).auditors@ == old(self).auditors@,
            final(self).pause_duration == old(self).pause_duration,
            ({
                let sigs = if old(self).signatures@.contains(auditor) {
                    old(self).signatures@
                } else {
                    old(self).signatures@.push(auditor)
                };
                &&& r == (sigs.len() >= 2)
                &&& r ==> final(self).is_paused && final(self).pause_start == now && final(self).signatures@.len() == 0
                &&& !r ==> final(self).is_paused == old(self).is_paused
                    && final(self).pause_start == old(self).pause_start && final(self).signatures@ == sigs
            }),
    {
        if !contains_address(&self.signatures, auditor) {
            self.signatures.push(auditor);
        }
        if self.signatures.len() >= 2 {
            self.is_paused = true;
            self.pause_start = now;
            self.signatures.clear();
            return true;
        }
        false
    }

    /// Lifts the pause once its duration has run out.
    pub fn resume_if_expired(&mut self, now: u64)
        requires
            old(self).pause_start + old(self).pause_duration <= u64::MAX,
        ensures
            final(self).is_paused == paused_at(*old(self), now),
            final(self).pause_start == old(self).pause_start,
            final(self).pause_duration == old(self).pause_duration,
            final(self).auditors@ == old(self).auditors@,
            final(self).signatures@ == old(self).signatures@,
    {
        if self.is_paused {
            if now >= self.pause_start + self.pause_duration {
                self.is_paused = false;
            }
        }
    }

    /// Whether the protocol is paused at `now`.
    pub fn check_paused(&self, now: u64) -> (r: bool)
        requires
            self.pause_start + self.pause_duration <= u64::MAX,
        ensures
            r == paused_at(*self, now),
    {
        if self.is_paused {
            if now >= self.pause_start + self.pause_duration {
                return false;
            }
            return true;
        }
        false
    }
}

/// The emergency stop contract's entry points, over an explicitly passed stop.
pub struct EmergencyStopper;

impl EmergencyStopper {
    /// A fresh stop for three auditors.
    pub fn init_emergency_stop(auditors: Vec<Address>, pause_duration: u64) -> (r: EmergencyStop)
        requires
            auditors.len() == 3,
        ensures
            !r.is_paused,
            r.pause_duration == pause_duration,
            r.auditors@ == auditors@,
            r.signatures@.len() == 0,
    {
        EmergencyStop::new(auditors, pause_duration)
    }

    /// `auditor` signs for a pause of `stop` at `now`.
    pub fn sign_pause(stop: EmergencyStop, auditor: Address, now: u64) -> (r: EmergencyStop)
        requires
            stop.auditors@.contains(auditor),
        ensures
            r.auditors@ == stop.auditors@,
            ({
                let sigs = if stop.signatures@.contains(auditor) { stop.signatures@ } else { stop.signatures@.push(auditor) };
                &&& sigs.len() >= 2 ==> r.is_paused && r.pause_start == now && r.signatures@.len() == 0
                &&& sigs.len() < 2 ==> r.is_paused == stop.is_paused && r.signatures@ == sigs
            }),
    {
        let mut stop = stop;
        stop.sign_pause(auditor, now);
        stop
    }

    /// `stop` with its pause lifted if it ran out by `now`.
    pub fn resume_if_expired(stop: EmergencyStop, now: u64) -> (r: EmergencyStop)
        requires
            stop.pause_start + stop.pause_duration <= u64::MAX,
        ensures
            r.is_paused == paused_at(stop, now),
            r.pause_start == stop.pause_start,
            r.pause_duration == stop.pause_duration,
    {
        let mut stop = stop;
        stop.resume_if_expired(now);
        stop
    }

    /// Whether `stop` holds at `now`.
    pub fn is_paused(stop: EmergencyStop, now: u64) -> (r: bool)
        requires
            stop.pause_start + stop.pause_duration <= u64::MAX,
        ensures
            r == paused_at(stop, now),
    {
        stop.check_paused(now)
    }
}

/// A single auditor cannot pause alone: a signature on a stop with no pending
/// signatures never pauses it.
pub proof fn lemma_one_signature_never_pauses(s: EmergencyStop, auditor: Address)
    requires
        s.signatures@.len() == 0,
    ensures
        !(s.signatures@.push(auditor).len() >= 2),
{
}

} // verus!
