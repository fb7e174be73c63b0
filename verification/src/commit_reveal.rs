//! Sealed-bid commit-reveal: grantees commit to the SHA-256 of their bid while
//! bidding is open and reveal the bid after it closes; a reveal that does not
//! hash to the commitment is refused.
use vstd::prelude::*;
use vstd::relations::{sorted_by, total_ordering};
use std::collections::HashMap;
use soroban_sdk::Env;
use crate::types::Address;
use crate::host::{host_sha256, sha256_digest};

verus! {

broadcast use {vstd::std_specs::hash::group_hash_axioms, vstd::multiset::group_multiset_axioms};

/// Storage keys of the contract.
#[derive(Debug, Clone, Copy, PartialEq, Eq, Structural)]
pub enum BidKey {
    Commitment(Address),
    Reveal(Address),
    BiddingOpen,
    RevealDeadline,
}

/// A bid as revealed: the amount, the cost of each milestone (by milestone
/// id, each id once) and the salt used for the commitment.
#[derive(Debug, Clone)]
pub struct RevealedBid {
    pub grantee: Address,
    pub amount: u64,
    pub milestone_costs: Vec<(u32, u64)>,
    pub salt: Vec<u8>,
}

impl RevealedBid {
    /// Each milestone id has one cost.
    pub open spec fn wf(&self) -> bool {
        ids_of(self.milestone_costs@).no_duplicates()
    }
}

/// Why a commit-reveal operation was refused.
#[derive(Debug, Clone, Copy, PartialEq, Eq, Structural)]
pub enum BidError {
    BiddingClosed,
    CommitmentAlreadySubmitted,
    BiddingStillOpen,
    RevealWindowExpired,
    NoCommitment,
    BidDoesNotMatchCommitment,
    NoReveal,
}

impl BidError {
    /// Human-readable description of the refusal.
    pub fn message(&self) -> (r: &'static str)
        ensures
            *self == BidError::BiddingClosed ==> r@ == "Bidding window is closed"@,
            *self == BidError::CommitmentAlreadySubmitted ==> r@ == "Commitment already submitted"@,
            *self == BidError::BiddingStillOpen ==> r@ == "Bidding window must be closed before revealing"@,
            *self == BidError::RevealWindowExpired ==> r@ == "Reveal window has expired"@,
            *self == BidError::NoCommitment ==> r@ == "No commitment found for this grantee"@,
            *self == BidError::BidDoesNotMatchCommitment
                ==> r@ == "Revealed bid does not match commitment — possible front-running attempt"@,
            *self == BidError::NoReveal ==> r@ == "No verified reveal found"@,
    {
        match self {
            BidError::BiddingClosed => "Bidding window is closed",
            BidError::CommitmentAlreadySubmitted => "Commitment already submitted",
            BidError::BiddingStillOpen => "Bidding window must be closed before revealing",
            BidError::RevealWindowExpired => "Reveal window has expired",
            BidError::NoCommitment => "No commitment found for this grantee",
            BidError::BidDoesNotMatchCommitment => "Revealed bid does not match commitment — possible front-running attempt",
            BidError::NoReveal => "No verified reveal found",
        }
    }
}

/// Ascending order on milestone ids.
pub open spec fn id_leq() -> spec_fn(u32, u32) -> bool {
    |a: u32, b: u32| a <= b
}

/// Big-endian bytes of a `u64`.
pub open spec fn be_u64(x: u64) -> Seq<u8> {
    seq![(x >> 56u64) as u8, (x >> 48u64) as u8, (x >> 40u64) as u8, (x >> 32u64) as u8,
        (x >> 24u64) as u8, (x >> 16u64) as u8, (x >> 8u64) as u8, x as u8]
}

/// Big-endian bytes of a `u32`.
pub open spec fn be_u32(x: u32) -> Seq<u8> {
    seq![(x >> 24u32) as u8, (x >> 16u32) as u8, (x >> 8u32) as u8, x as u8]
}

/// The cost recorded for milestone `id` (the first entry with that id).
pub open spec fn cost_of(costs: Seq<(u32, u64)>, id: u32) -> u64
    decreases costs.len(),
{
    if costs.len() == 0 {
        0
    } else if costs[0].0 == id {
        costs[0].1
    } else {
        cost_of(costs.drop_first(), id)
    }
}

/// The milestone ids of a cost list, in list order.
pub open spec fn ids_of(costs: Seq<(u32, u64)>) -> Seq<u32> {
    costs.map_values(|p: (u32, u64)| p.0)
}

/// Encoding of the milestone entries for the given ids, in that order:
/// id (4 bytes) then cost (8 bytes), big-endian.
pub open spec fn encode_milestones(ids: Seq<u32>, costs: Seq<(u32, u64)>) -> Seq<u8>
    decreases ids.len(),
{
    if ids.len() == 0 {
        Seq::empty()
    } else {
        encode_milestones(ids.drop_last(), costs) + be_u32(ids.last()) + be_u64(cost_of(costs, ids.last()))
    }
}

/// The bytes a bid commits to: amount (8 bytes big-endian), then each
/// milestone in ascending id order, then the salt.
pub open spec fn bid_preimage(amount: u64, costs: Seq<(u32, u64)>, salt: Seq<u8>) -> Seq<u8> {
    be_u64(amount) + encode_milestones(ids_of(costs).sort_by(id_leq()), costs) + salt
}

/// The commitment of a bid: SHA-256 of its preimage.
pub open spec fn bid_commitment(bid: RevealedBid) -> Seq<u8> {
    sha256_digest(bid_preimage(bid.amount, bid.milestone_costs@, bid.salt@))
}

fn push_be_u64(out: &mut Vec<u8>, x: u64)
    ensures
        final(out)@ == old(out)@ + be_u64(x),
{
    out.push((x >> 56u64) as u8);
    out.push((x >> 48u64) as u8);
    out.push((x >> 40u64) as u8);
    out.push((x >> 32u64) as u8);
    out.push((x >> 24u64) as u8);
    out.push((x >> 16u64) as u8);
    out.push((x >> 8u64) as u8);
    out.push(x as u8);
    proof {
        assert(out@ =~= old(out)@ + be_u64(x));
    }
}

fn push_be_u32(out: &mut Vec<u8>, x: u32)
    ensures
        final(out)@ == old(out)@ + be_u32(x),
{
    out.push((x >> 24u32) as u8);
    out.push((x >> 16u32) as u8);
    out.push((x >> 8u32) as u8);
    out.push(x as u8);
    proof {
        assert(out@ =~= old(out)@ + be_u32(x));
    }
}

/// Byte-wise equality of two digests.
fn digest_eq(a: &[u8; 32], b: &[u8; 32]) -> (r: bool)
    ensures
        r == (a@ == b@),
{
    let mut i: usize = 0;
    while i < 32
        invariant
            i <= 32,
            a@.len() == 32,
            b@.len() == 32,
            forall|j: int| 0 <= j < i ==> a@[j] == b@[j],
        decreases 32 - i,
    {
        if a[i] != b[i] {
            return false;
        }
        i = i + 1;
    }
    assert(a@ =~= b@);
    true
}

/// Sorts ids ascending by repeated adjacent swaps.
pub fn sort_ids(ids: &mut Vec<u32>)
    ensures
        sorted_by(final(ids)@, id_leq()),
        final(ids)@.to_multiset() == old(ids)@.to_multiset(),
        final(ids)@.len() == old(ids)@.len(),
{
    let len = ids.len();
    let mut i: usize = 0;
    while i < len
        invariant
            len == ids.len(),
            i <= len,
            ids@.to_multiset() == old(ids)@.to_multiset(),
            forall|p: int, q: int| len - i <= p < q < len ==> ids@[p] <= ids@[q],
            forall|p: int, q: int| 0 <= p < len - i <= q < len ==> ids@[p] <= ids@[q],
        decreases len - i,
    {
        let mut j: usize = 0;
        while j + 1 < len - i
            invariant
                len == ids.len(),
                i < len,
                j < len - i,
                ids@.to_multiset() == old(ids)@.to_multiset(),
                forall|p: int, q: int| len - i <= p < q < len ==> ids@[p] <= ids@[q],
                forall|p: int, q: int| 0 <= p < len - i <= q < len ==> ids@[p] <= ids@[q],
                forall|p: int| 0 <= p < j ==> ids@[p] <= ids@[j as int],
            decreases len - i - j,
        {
            if ids[j] > ids[j + 1] {
                let a = ids[j];
                let b = ids[j + 1];
                let ghost s = ids@;
                ids.set(j, b);
                ids.set(j + 1, a);
                proof {
                    vstd::seq_lib::to_multiset_update(s, j as int, b);
                    vstd::seq_lib::to_multiset_update(s.update(j as int, b), j as int + 1, a);
                    vstd::seq_lib::to_multiset_contains(s, a);
                    assert(s.contains(a)) by {
                        assert(s[j as int] == a);
                    }
                    assert(s.to_multiset().count(a) > 0);
                    assert(s.to_multiset().insert(b).remove(a).insert(a).remove(b) =~= s.to_multiset());
                }
            }
            j = j + 1;
        }
        i = i + 1;
    }
    proof {
        assert(sorted_by(ids@, id_leq()));
    }
}

/// The cost recorded for milestone `id`.
fn lookup_cost(costs: &Vec<(u32, u64)>, id: u32) -> (r: u64)
    ensures
        r == cost_of(costs@, id),
{
    let mut i: usize = 0;
    proof {
        assert(costs@.subrange(0, costs@.len() as int) =~= costs@);
    }
    while i < costs.len()
        invariant
            i <= costs.len(),
            cost_of(costs@, id) == cost_of(costs@.subrange(i as int, costs@.len() as int), id),
        decreases costs.len() - i,
    {
        proof {
            assert(costs@.subrange(i as int, costs@.len() as int).drop_first() =~= costs@.subrange(i as int + 1, costs@.len() as int));
        }
        if costs[i].0 == id {
            return costs[i].1;
        }
        i = i + 1;
    }
    0
}

/// The preimage a bid commits to.
pub fn bid_bytes(bid: &RevealedBid) -> (r: Vec<u8>)
    ensures
        r@ == bid_preimage(bid.amount, bid.milestone_costs@, bid.salt@),
{
    let mut preimage: Vec<u8> = Vec::new();
    push_be_u64(&mut preimage, bid.amount);
    let mut ids: Vec<u32> = Vec::new();
    let mut k: usize = 0;
    while k < bid.milestone_costs.len()
        invariant
            k <= bid.milestone_costs.len(),
            ids@ == ids_of(bid.milestone_costs@.subrange(0, k as int)),
        decreases bid.milestone_costs.len() - k,
    {
        ids.push(bid.milestone_costs[k].0);
        proof {
            assert(ids_of(bid.milestone_costs@.subrange(0, k as int + 1)) =~= ids_of(bid.milestone_costs@.subrange(0, k as int)).push(bid.milestone_costs@[k as int].0));
        }
        k = k + 1;
    }
    proof {
        assert(bid.milestone_costs@.subrange(0, bid.milestone_costs@.len() as int) =~= bid.milestone_costs@);
    }
    let ghost unsorted = ids@;
    sort_ids(&mut ids);
    proof {
        let leq = id_leq();
        assert(total_ordering(leq));
        unsorted.lemma_sort_by_ensures(leq);
        vstd::seq_lib::lemma_sorted_unique(ids@, unsorted.sort_by(leq), leq);
    }
    let head_len = preimage.len();
    let mut m: usize = 0;
    while m < ids.len()
        invariant
            m <= ids.len(),
            head_len == 8,
            preimage@ == be_u64(bid.amount) + encode_milestones(ids@.subrange(0, m as int), bid.milestone_costs@),
        decreases ids.len() - m,
    {
        let id = ids[m];
        push_be_u32(&mut preimage, id);
        let cost = lookup_cost(&bid.milestone_costs, id);
        push_be_u64(&mut preimage, cost);
        proof {
            assert(ids@.subrange(0, m as int + 1).drop_last() =~= ids@.subrange(0, m as int));
            assert(preimage@ =~= be_u64(bid.amount) + encode_milestones(ids@.subrange(0, m as int + 1), bid.milestone_costs@));
        }
        m = m + 1;
    }
    proof {
        assert(ids@.subrange(0, ids@.len() as int) =~= ids@);
    }
    let mut s: usize = 0;
    let ghost before_salt = preimage@;
    while s < bid.salt.len()
        invariant
            s <= bid.salt.len(),
            preimage@ == before_salt + bid.salt@.subrange(0, s as int),
        decreases bid.salt.len() - s,
    {
        preimage.push(bid.salt[s]);
        proof {
            assert(before_salt + bid.salt@.subrange(0, s as int + 1) =~= (before_salt + bid.salt@.subrange(0, s as int)).push(bid.salt@[s as int]));
        }
        s = s + 1;
    }
    proof {
        assert(bid.salt@.subrange(0, bid.salt@.len() as int) =~= bid.salt@);
    }
    preimage
}

/// The commit-reveal contract's state.
pub struct CommitRevealContract {
    pub bidding_open: bool,
    pub reveal_deadline: u64,
    /// Commitments by grantee identity.
    pub commitments: HashMap<u64, [u8; 32]>,
    /// Verified reveals by grantee identity.
    pub reveals: HashMap<u64, RevealedBid>,
}

impl CommitRevealContract {
    /// Bidding closed, nothing committed.
    pub fn new() -> (r: Self)
        ensures
            !r.bidding_open,
            r.reveal_deadline == 0,
            r.commitments@ == Map::<u64, [u8; 32]>::empty(),
            r.reveals@ == Map::<u64, RevealedBid>::empty(),
    {
        CommitRevealContract { bidding_open: false, reveal_deadline: 0, commitments: HashMap::new(), reveals: HashMap::new() }
    }

    /// Opens bidding; reveals are accepted until `reveal_deadline`.
    pub fn open_bidding(&mut self, admin: Address, reveal_deadline: u64)
        ensures
            final(self).bidding_open,
            final(self).reveal_deadline == reveal_deadline,
            final(self).commitments@ == old(self).commitments@,
            final(self).reveals@ == old(self).reveals@,
    {
        self.bidding_open = true;
        self.reveal_deadline = reveal_deadline;
    }

    /// Closes bidding: no more commitments.
    pub fn close_bidding(&mut self, admin: Address)
        ensures
            !final(self).bidding_open,
            final(self).reveal_deadline == old(self).reveal_deadline,
            final(self).commitments@ == old(self).commitments@,
            final(self).reveals@ == old(self).reveals@,
    {
        self.bidding_open = false;
    }

    /// Records a grantee's commitment while bidding is open, once.
    pub fn commit(&mut self, grantee: Address, commitment: [u8; 32]) -> (r: Result<(), BidError>)
        ensures
            !old(self).bidding_open ==> r == Err::<(), BidError>(BidError::BiddingClosed),
            old(self).bidding_open && old(self).commitments@.contains_key(grantee.0)
                ==> r == Err::<(), BidError>(BidError::CommitmentAlreadySubmitted),
            old(self).bidding_open && !old(self).commitments@.contains_key(grantee.0) ==> r is Ok,
            r is Err ==> final(self).commitments@ == old(self).commitments@,
            r is Ok ==> old(self).bidding_open && !old(self).commitments@.contains_key(grantee.0)
                && final(self).commitments@ == old(self).commitments@.insert(grantee.0, commitment),
            final(self).bidding_open == old(self).bidding_open,
            final(self).reveal_deadline == old(self).reveal_deadline,
            final(self).reveals@ == old(self).reveals@,
    {
        if !self.bidding_open {
            return Err(BidError::BiddingClosed);
        }
        if self.commitments.contains_key(&grantee.0) {
            return Err(BidError::CommitmentAlreadySubmitted);
        }
        self.commitments.insert(grantee.0, commitment);
        Ok(())
    }

    /// Accepts a reveal at `now` whose hash `digest` was computed from `bid`:
    /// bidding must be closed, the deadline not passed, a commitment recorded
    /// and equal to the digest.
    pub fn reveal_with_digest(&mut self, grantee: Address, bid: RevealedBid, digest: [u8; 32], now: u64) -> (r: Result<(), BidError>)
        requires
            bid.wf(),
        ensures
            old(self).bidding_open ==> r == Err::<(), BidError>(BidError::BiddingStillOpen),
            !old(self).bidding_open && now > old(self).reveal_deadline ==> r == Err::<(), BidError>(BidError::RevealWindowExpired),
            !old(self).bidding_open && now <= old(self).reveal_deadline && !old(self).commitments@.contains_key(grantee.0)
                ==> r == Err::<(), BidError>(BidError::NoCommitment),
            !old(self).bidding_open && now <= old(self).reveal_deadline && old(self).commitments@.contains_key(grantee.0)
                && old(self).commitments@[grantee.0]@ != digest@ ==> r == Err::<(), BidError>(BidError::BidDoesNotMatchCommitment),
            !old(self).bidding_open && now <= old(self).reveal_deadline && old(self).commitments@.contains_key(grantee.0)
                && old(self).commitments@[grantee.0]@ == digest@ ==> r is Ok,
            r is Err ==> final(self).reveals@ == old(self).reveals@,
            r is Ok ==> !old(self).bidding_open && now <= old(self).reveal_deadline
                && old(self).commitments@.contains_key(grantee.0) && old(self).commitments@[grantee.0]@ == digest@
                && final(self).reveals@ == old(self).reveals@.insert(grantee.0, bid),
            final(self).bidding_open == old(self).bidding_open,
            final(self).reveal_deadline == old(self).reveal_deadline,
            final(self).commitments@ == old(self).commitments@,
    {
        if self.bidding_open {
            return Err(BidError::BiddingStillOpen);
        }
        if now > self.reveal_deadline {
            return Err(BidError::RevealWindowExpired);
        }
        let stored = match self.commitments.get(&grantee.0) {
            Some(c) => *c,
            None => return Err(BidError::NoCommitment),
        };
        if !digest_eq(&stored, &digest) {
            return Err(BidError::BidDoesNotMatchCommitment);
        }
        self.reveals.insert(grantee.0, bid);
        Ok(())
    }

    /// Accepts a reveal at `now` if the bid hashes to the grantee's commitment.
    pub fn reveal_bid(&mut self, env: &Env, grantee: Address, bid: RevealedBid, now: u64) -> (r: Result<(), BidError>)
        requires
            bid.wf(),
        ensures
            old(self).bidding_open ==> r == Err::<(), BidError>(BidError::BiddingStillOpen),
            !old(self).bidding_open && now > old(self).reveal_deadline ==> r == Err::<(), BidError>(BidError::RevealWindowExpired),
            !old(self).bidding_open && now <= old(self).reveal_deadline && !old(self).commitments@.contains_key(grantee.0)
                ==> r == Err::<(), BidError>(BidError::NoCommitment),
            !old(self).bidding_open && now <= old(self).reveal_deadline && old(self).commitments@.contains_key(grantee.0)
                && old(self).commitments@[grantee.0]@ != bid_commitment(bid) ==> r == Err::<(), BidError>(BidError::BidDoesNotMatchCommitment),
            !old(self).bidding_open && now <= old(self).reveal_deadline && old(self).commitments@.contains_key(grantee.0)
                && old(self).commitments@[grantee.0]@ == bid_commitment(bid) ==> r is Ok,
            r is Err ==> final(self).reveals@ == old(self).reveals@,
            r is Ok ==> old(self).commitments@.contains_key(grantee.0)
                && old(self).commitments@[grantee.0]@ == bid_commitment(bid)
                && final(self).reveals@ == old(self).reveals@.insert(grantee.0, bid),
            final(self).bidding_open == old(self).bidding_open,
            final(self).reveal_deadline == old(self).reveal_deadline,
            final(self).commitments@ == old(self).commitments@,
    {
        let digest = Self::hash_bid(env, &bid);
        self.reveal_with_digest(grantee, bid, digest, now)
    }

    /// SHA-256 of a bid's preimage.
    pub fn hash_bid(env: &Env, bid: &RevealedBid) -> (r: [u8; 32])
        ensures
            r@ == bid_commitment(*bid),
    {
        let preimage = bid_bytes(bid);
        host_sha256(env, preimage.as_slice())
    }

    /// The verified reveal of a grantee.
    pub fn get_revealed_bid(&self, grantee: Address) -> (r: Result<&RevealedBid, BidError>)
        ensures
            self.reveals@.contains_key(grantee.0) ==> (r matches Ok(b) && *b == self.reveals@[grantee.0]),
            !self.reveals@.contains_key(grantee.0) ==> (r matches Err(e) && e == BidError::NoReveal),
    {
        match self.reveals.get(&grantee.0) {
            Some(b) => Ok(b),
            None => Err(BidError::NoReveal),
        }
    }

    /// The commitment of a grantee.
    pub fn get_commitment(&self, grantee: Address) -> (r: Result<[u8; 32], BidError>)
        ensures
            self.commitments@.contains_key(grantee.0) ==> r == Ok::<[u8; 32], BidError>(self.commitments@[grantee.0]),
            !self.commitments@.contains_key(grantee.0) ==> r == Err::<[u8; 32], BidError>(BidError::NoCommitment),
    {
        match self.commitments.get(&grantee.0) {
            Some(c) => Ok(*c),
            None => Err(BidError::NoCommitment),
        }
    }
}

/// The commitment of a bid does not depend on the order in which its
/// milestone costs are listed.
pub proof fn lemma_commitment_ignores_milestone_order(a: RevealedBid, b: RevealedBid)
    requires
        a.amount == b.amount,
        a.salt@ == b.salt@,
        ids_of(a.milestone_costs@).to_multiset() == ids_of(b.milestone_costs@).to_multiset(),
        forall|id: u32| cost_of(a.milestone_costs@, id) == cost_of(b.milestone_costs@, id),
    ensures
        bid_commitment(a) == bid_commitment(b),
{
    let leq = id_leq();
    assert(total_ordering(leq));
    ids_of(a.milestone_costs@).lemma_sort_by_ensures(leq);
    ids_of(b.milestone_costs@).lemma_sort_by_ensures(leq);
    vstd::seq_lib::lemma_sorted_unique(ids_of(a.milestone_costs@).sort_by(leq), ids_of(b.milestone_costs@).sort_by(leq), leq);
    lemma_encode_same_costs(ids_of(a.milestone_costs@).sort_by(leq), a.milestone_costs@, b.milestone_costs@);
}

proof fn lemma_encode_same_costs(ids: Seq<u32>, c1: Seq<(u32, u64)>, c2: Seq<(u32, u64)>)
    requires
        forall|id: u32| cost_of(c1, id) == cost_of(c2, id),
    ensures
        encode_milestones(ids, c1) == encode_milestones(ids, c2),
    decreases ids.len(),
{
    if ids.len() > 0 {
        lemma_encode_same_costs(ids.drop_last(), c1, c2);
    }
}

} // verus!
