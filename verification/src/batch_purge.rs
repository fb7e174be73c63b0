//! Batch purge: grants completed or cancelled more than 90 days ago are
//! archived with their final state hash, their detailed data is deleted, and
//! the caller earns a bounty for each grant purged.
use vstd::prelude::*;
use std::collections::HashMap;
use crate::types::Address;

verus! {

broadcast use vstd::std_specs::hash::group_hash_axioms;

/// How long after completion or cancellation a grant may be purged: 90 days.
pub const PURGE_DELAY: u64 = 7776000;
/// Bounty per purged grant.
pub const PURGE_BOUNTY: i128 = 10;

/// What remains of a purged grant.
#[derive(Debug, Clone, PartialEq, Eq)]
pub struct ArchivedGrant {
    pub grant_id: String,
    pub final_state_hash: String,
    pub purge_timestamp: u64,
    pub purged_by: Address,
}

/// What is stored about a grant.
#[derive(Debug, Clone, PartialEq, Eq)]
pub struct GrantLifecycle {
    pub grant_id: String,
    pub completed_ts: Option<u64>,
    pub cancelled_ts: Option<u64>,
    pub final_hash: Option<String>,
    /// Whether the grant's milestone data is still stored.
    pub milestones_stored: bool,
    /// Whether the grant's details are still stored.
    pub details_stored: bool,
    pub archived: Option<ArchivedGrant>,
}

/// When grant `r` ended: its completion, or else its cancellation.
pub open spec fn ended_at(r: GrantLifecycle) -> Option<u64> {
    if r.completed_ts is Some { r.completed_ts } else { r.cancelled_ts }
}

/// Whether grant `r` may be purged at `now`.
pub open spec fn purgeable(r: GrantLifecycle, now: u64) -> bool {
    ended_at(r) matches Some(ts) && now > ts + PURGE_DELAY
}

/// Index of the first record from `i` on for grant `id`, or -1.
pub open spec fn find_record_from(rs: Seq<GrantLifecycle>, id: Seq<char>, i: int) -> int
    decreases rs.len() - i,
{
    if i < 0 || i >= rs.len() {
        -1
    } else if rs[i].grant_id@ == id {
        i
    } else {
        find_record_from(rs, id, i + 1)
    }
}

/// Whether listing `ids` purges the record at index `k` of `rs` at `now`.
pub open spec fn purged_by_list(ids: Seq<String>, rs: Seq<GrantLifecycle>, k: int, now: u64) -> bool {
    purgeable(rs[k], now) && exists|j: int| 0 <= j < ids.len() && find_record_from(rs, #[trigger] ids[j]@, 0) == k
}

/// Number of listed grants, counting repeats, that are purged at `now`.
pub open spec fn purge_count(ids: Seq<String>, rs: Seq<GrantLifecycle>, now: u64) -> int
    decreases ids.len(),
{
    if ids.len() == 0 {
        0
    } else {
        let k = find_record_from(rs, ids.last()@, 0);
        purge_count(ids.drop_last(), rs, now) + if k >= 0 && purgeable(rs[k], now) { 1int } else { 0int }
    }
}

/// Whether `new` is `old` after being purged at `now` by `caller`.
pub open spec fn is_purged(old: GrantLifecycle, new: GrantLifecycle, now: u64, caller: Address) -> bool {
    &&& new.grant_id == old.grant_id
    &&& new.completed_ts == old.completed_ts
    &&& new.cancelled_ts == old.cancelled_ts
    &&& new.final_hash == old.final_hash
    &&& !new.milestones_stored
    &&& !new.details_stored
    &&& new.archived matches Some(a) && {
        &&& a.grant_id@ == old.grant_id@
        &&& a.final_state_hash@ == (match old.final_hash {
            Some(h) => h@,
            None => Seq::<char>::empty(),
        })
        &&& a.purge_timestamp == now
        &&& a.purged_by == caller
    }
}

/// Searching records with the same identifiers finds the same index.
proof fn lemma_find_same_ids(a: Seq<GrantLifecycle>, b: Seq<GrantLifecycle>, id: Seq<char>, i: int)
    requires
        a.len() == b.len(),
        forall|k: int| 0 <= k < a.len() ==> #[trigger] a[k].grant_id@ == b[k].grant_id@,
    ensures
        find_record_from(a, id, i) == find_record_from(b, id, i),
    decreases a.len() - i,
{
    if i < 0 || i >= a.len() {
    } else {
        assert(a[i].grant_id@ == b[i].grant_id@);
        lemma_find_same_ids(a, b, id, i + 1);
    }
}

/// A search finds a match at or after its start.
proof fn lemma_find_bounds(rs: Seq<GrantLifecycle>, id: Seq<char>, i: int)
    ensures
        find_record_from(rs, id, i) == -1 || (i <= find_record_from(rs, id, i) < rs.len()
            && rs[find_record_from(rs, id, i)].grant_id@ == id),
    decreases rs.len() - i,
{
    if i < 0 || i >= rs.len() {
    } else if rs[i].grant_id@ == id {
    } else {
        lemma_find_bounds(rs, id, i + 1);
    }
}

/// The stored grants and credited bounties.
pub struct GrantArchive {
    /// The grant list; none before any grant was listed.
    pub grants: Option<Vec<String>>,
    pub records: Vec<GrantLifecycle>,
    /// Bounty balances, by account identity.
    pub balances: HashMap<u64, i128>,
}

impl GrantArchive {
    /// Balance credited to `a`.
    pub open spec fn balance_of(&self, a: Address) -> i128 {
        if self.balances@.contains_key(a.0) { self.balances@[a.0] } else { 0 }
    }

    /// The listed grants.
    pub open spec fn listed(&self) -> Seq<String> {
        match self.grants {
            Some(g) => g@,
            None => Seq::empty(),
        }
    }

    fn find_record(&self, id: &String) -> (r: Option<usize>)
        ensures
            r matches Some(k) ==> k == find_record_from(self.records@, id@, 0) && k < self.records@.len(),
            r is None ==> find_record_from(self.records@, id@, 0) == -1,
    {
        let mut i: usize = 0;
        while i < self.records.len()
            invariant
                i <= self.records@.len(),
                find_record_from(self.records@, id@, 0) == find_record_from(self.records@, id@, i as int),
            decreases self.records.len() - i,
        {
            if self.records[i].grant_id == *id {
                return Some(i);
            }
            i = i + 1;
        }
        None
    }

    /// `caller` purges at `now` every listed grant that ended more than 90
    /// days ago: its final state hash is archived and its milestone data and
    /// details are deleted. The caller is credited 10 per grant purged (a
    /// grant listed twice counts twice). Nothing happens while no grant list
    /// exists.
    pub fn batch_purge(&mut self, caller: Address, now: u64)
        requires
            forall|k: int| 0 <= k < old(self).records@.len() ==> (ended_at(#[trigger] old(self).records@[k]) matches Some(ts) ==> ts + PURGE_DELAY <= u64::MAX),
            old(self).grants is Some ==> purge_count(old(self).listed(), old(self).records@, now) * PURGE_BOUNTY
                + old(self).balance_of(caller) <= i128::MAX,
        ensures
            old(self).grants is None ==> final(self).records@ == old(self).records@ && final(self).balances@ == old(self).balances@,
            old(self).grants is Some ==> {
                let ids = old(self).listed();
                let rs = old(self).records@;
                &&& final(self).records@.len() == rs.len()
                &&& forall|k: int| 0 <= k < rs.len() ==> if purged_by_list(ids, rs, k, now) {
                    is_purged(rs[k], #[trigger] final(self).records@[k], now, caller)
                } else {
                    final(self).records@[k] == rs[k]
                }
                &&& final(self).balances@ == old(self).balances@.insert(
                    caller.0,
                    (old(self).balance_of(caller) + purge_count(ids, rs, now) * PURGE_BOUNTY) as i128,
                )
            },
            final(self).grants == old(self).grants,
    {
        let ghost rs = self.records@;
        let ids = match &self.grants {
            None => return,
            Some(g) => g.clone(),
        };
        let ghost idv = ids@;
        assert(idv == self.listed());
        let mut purged_count: i128 = 0;
        let mut i: usize = 0;
        while i < ids.len()
            invariant
                i <= ids@.len(),
                ids@ == idv,
                idv == old(self).listed(),
                rs == old(self).records@,
                self.grants == old(self).grants,
                self.balances@ == old(self).balances@,
                self.records@.len() == rs.len(),
                forall|k: int| 0 <= k < rs.len() ==> #[trigger] self.records@[k].grant_id@ == rs[k].grant_id@,
                forall|k: int| 0 <= k < rs.len() ==> (ended_at(#[trigger] rs[k]) matches Some(ts) ==> ts + PURGE_DELAY <= u64::MAX),
                forall|k: int| 0 <= k < rs.len() ==> if purged_by_list(idv.take(i as int), rs, k, now) {
                    is_purged(rs[k], #[trigger] self.records@[k], now, caller)
                } else {
                    self.records@[k] == rs[k]
                },
                purged_count == purge_count(idv.take(i as int), rs, now),
                0 <= purge_count(idv.take(i as int), rs, now) <= i,
                purge_count(idv, rs, now) * PURGE_BOUNTY + old(self).balance_of(caller) <= i128::MAX,
            decreases ids.len() - i,
        {
            let id = &ids[i];
            proof {
                assert(idv.take(i + 1).drop_last() =~= idv.take(i as int));
                assert(idv.take(i + 1).last() == idv[i as int]);
                lemma_find_same_ids(rs, self.records@, id@, 0);
                lemma_find_bounds(rs, id@, 0);
                lemma_purge_count_prefix(idv, rs, now, i + 1);
            }
            let ghost before = self.records@;
            match self.find_record(id) {
                Some(k) => {
                    let (completed, cancelled) = (self.records[k].completed_ts, self.records[k].cancelled_ts);
                    let expiry = if completed.is_some() { completed } else { cancelled };
                    let expired = match expiry {
                        Some(ts) => now > ts + PURGE_DELAY,
                        None => false,
                    };
                    if expired {
                        let mut rec = self.records.remove(k);
                        let hash = match &rec.final_hash {
                            Some(h) => h.clone(),
                            None => String::new(),
                        };
                        rec.archived = Some(ArchivedGrant {
                            grant_id: rec.grant_id.clone(),
                            final_state_hash: hash,
                            purge_timestamp: now,
                            purged_by: caller,
                        });
                        rec.milestones_stored = false;
                        rec.details_stored = false;
                        self.records.insert(k, rec);
                        purged_count = purged_count + 1;
                        proof {
                            assert(self.records@ =~= before.update(k as int, self.records@[k as int]));
                        }
                    }
                    proof {
                        assert forall|q: int| 0 <= q < rs.len() implies if purged_by_list(idv.take(i + 1), rs, q, now) {
                            is_purged(rs[q], #[trigger] self.records@[q], now, caller)
                        } else {
                            self.records@[q] == rs[q]
                        } by {
                            if q == k {
                                if purgeable(rs[q], now) {
                                    assert(idv.take(i + 1)[i as int] == idv[i as int]);
                                }
                            } else {
                                if purged_by_list(idv.take(i + 1), rs, q, now) {
                                    let j = choose|j: int| 0 <= j < idv.take(i + 1).len()
                                        && find_record_from(rs, #[trigger] idv.take(i + 1)[j]@, 0) == q;
                                    assert(j < i);
                                    assert(idv.take(i as int)[j] == idv.take(i + 1)[j]);
                                    assert(purged_by_list(idv.take(i as int), rs, q, now));
                                } else if purged_by_list(idv.take(i as int), rs, q, now) {
                                    let j = choose|j: int| 0 <= j < idv.take(i as int).len()
                                        && find_record_from(rs, #[trigger] idv.take(i as int)[j]@, 0) == q;
                                    assert(idv.take(i + 1)[j] == idv.take(i as int)[j]);
                                }
                            }
                        }
                    }
                },
                None => {
                    proof {
                        assert forall|q: int| 0 <= q < rs.len() implies if purged_by_list(idv.take(i + 1), rs, q, now) {
                            is_purged(rs[q], #[trigger] self.records@[q], now, caller)
                        } else {
                            self.records@[q] == rs[q]
                        } by {
                            if purged_by_list(idv.take(i + 1), rs, q, now) {
                                let j = choose|j: int| 0 <= j < idv.take(i + 1).len()
                                    && find_record_from(rs, #[trigger] idv.take(i + 1)[j]@, 0) == q;
                                if j == i {
                                    assert(idv.take(i + 1)[j] == idv[i as int]);
                                } else {
                                    assert(idv.take(i as int)[j] == idv.take(i + 1)[j]);
                                }
                                assert(purged_by_list(idv.take(i as int), rs, q, now));
                            } else if purged_by_list(idv.take(i as int), rs, q, now) {
                                let j = choose|j: int| 0 <= j < idv.take(i as int).len()
                                    && find_record_from(rs, #[trigger] idv.take(i as int)[j]@, 0) == q;
                                assert(idv.take(i + 1)[j] == idv.take(i as int)[j]);
                            }
                        }
                    }
                },
            }
            i = i + 1;
        }
        proof {
            assert(idv.take(idv.len() as int) =~= idv);
        }
        let bounty = purged_count * PURGE_BOUNTY;
        let balance: i128 = match self.balances.get(&caller.0) {
            Some(b) => *b,
            None => 0,
        };
        self.balances.insert(caller.0, balance + bounty);
    }
}

/// A prefix purges no more grants than the whole list, and never fewer
/// than none.
proof fn lemma_purge_count_prefix(ids: Seq<String>, rs: Seq<GrantLifecycle>, now: u64, n: int)
    requires
        0 <= n <= ids.len(),
    ensures
        0 <= purge_count(ids.take(n), rs, now) <= purge_count(ids, rs, now),
        purge_count(ids.take(n), rs, now) <= n,
    decreases ids.len(),
{
    if ids.len() == 0 {
        assert(ids.take(n) =~= ids);
    } else if n == ids.len() {
        assert(ids.take(n) =~= ids);
        lemma_purge_count_prefix(ids.drop_last(), rs, now, n - 1);
        assert(ids.drop_last().take(n - 1) =~= ids.drop_last());
    } else {
        assert(ids.take(n) =~= ids.drop_last().take(n));
        lemma_purge_count_prefix(ids.drop_last(), rs, now, n);
    }
}

} // verus!
