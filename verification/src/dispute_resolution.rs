//! Expert dispute resolution: governance registers jurors with domain tags,
//! anyone can raise a dispute in a domain, and the jurors eligible for a
//! dispute are those registered with its domain.
use vstd::prelude::*;
use std::collections::HashMap;
use crate::types::Address;

verus! {

broadcast use vstd::std_specs::hash::group_hash_axioms;

/// A juror and the domains of their expertise.
#[derive(Debug, Clone, PartialEq, Eq)]
pub struct ExpertJuror {
    pub juror: Address,
    pub domain_tags: Vec<String>,
}

/// A raised dispute.
#[derive(Debug, Clone, PartialEq, Eq)]
pub struct Dispute {
    pub dispute_id: String,
    pub domain_tag: String,
    pub initiator: Address,
    pub timestamp: u64,
}

/// The views of `tags`.
pub open spec fn tag_views(tags: Seq<String>) -> Seq<Seq<char>> {
    tags.map_values(|t: String| t@)
}

/// The jurors among `list` whose record, in `records`, carries `domain`, in
/// list order.
pub open spec fn eligible_among(list: Seq<Address>, records: Map<u64, ExpertJuror>, domain: Seq<char>) -> Seq<Address>
    decreases list.len(),
{
    if list.len() == 0 {
        Seq::empty()
    } else {
        let rest = eligible_among(list.drop_last(), records, domain);
        let j = list.last();
        if records.contains_key(j.0) && tag_views(records[j.0].domain_tags@).contains(domain) {
            rest.push(j)
        } else {
            rest
        }
    }
}

/// `s` with `x` pushed contains `d` exactly when `s` does or `x` is `d`.
proof fn lemma_push_contains(s: Seq<Seq<char>>, x: Seq<char>, d: Seq<char>)
    ensures
        s.push(x).contains(d) <==> (s.contains(d) || x == d),
{
    let t = s.push(x);
    if s.contains(d) {
        let i = choose|i: int| 0 <= i < s.len() && s[i] == d;
        assert(t[i] == d);
    }
    if x == d {
        assert(t[s.len() as int] == d);
    }
    if t.contains(d) {
        let i = choose|i: int| 0 <= i < t.len() && t[i] == d;
        if i < s.len() {
            assert(s[i] == d);
        }
    }
}

/// The dispute registry. Governance actions are made by the governor; the
/// caller's identity is the invoker the host reports.
pub struct DisputeResolution {
    pub governor: Option<Address>,
    /// Registered jurors, in order.
    pub jurors: Option<Vec<Address>>,
    /// Juror records, by juror identity.
    pub juror_records: HashMap<u64, ExpertJuror>,
    /// Disputes in the order raised; the latest with an identifier is current.
    pub disputes: Vec<Dispute>,
}

impl DisputeResolution {
    /// Whether `caller` is the governor.
    pub open spec fn is_governor(&self, caller: Address) -> bool {
        self.governor == Some(caller)
    }

    /// Jurors registered, in order.
    pub open spec fn juror_list(&self) -> Seq<Address> {
        match self.jurors {
            Some(l) => l@,
            None => Seq::empty(),
        }
    }

    /// A registry with no governor, jurors or disputes.
    pub fn new() -> (r: Self)
        ensures
            r.governor is None,
            r.jurors is None,
            r.juror_records@ == Map::<u64, ExpertJuror>::empty(),
            r.disputes@.len() == 0,
    {
        DisputeResolution { governor: None, jurors: None, juror_records: HashMap::new(), disputes: Vec::new() }
    }

    /// Sets the governor.
    pub fn set_governor(&mut self, governor: Address)
        ensures
            final(self).governor == Some(governor),
            final(self).jurors == old(self).jurors,
            final(self).juror_records@ == old(self).juror_records@,
            final(self).disputes@ == old(self).disputes@,
    {
        self.governor = Some(governor);
    }

    /// Sets the list of registered jurors.
    pub fn set_jurors(&mut self, jurors: Vec<Address>)
        ensures
            final(self).jurors == Some(jurors),
            final(self).governor == old(self).governor,
            final(self).juror_records@ == old(self).juror_records@,
            final(self).disputes@ == old(self).disputes@,
    {
        self.jurors = Some(jurors);
    }

    /// Whether `caller` may govern; the contract refuses anyone else.
    pub fn require_governance(&self, caller: Address) -> (r: bool)
        ensures
            r == self.is_governor(caller),
    {
        match self.governor {
            Some(g) => g == caller,
            None => false,
        }
    }

    /// The governor records `juror` with the domains `tags`.
    pub fn add_juror(&mut self, caller: Address, juror: Address, tags: Vec<String>)
        requires
            old(self).is_governor(caller),
        ensures
            final(self).juror_records@ == old(self).juror_records@.insert(juror.0, ExpertJuror { juror, domain_tags: tags }),
            final(self).governor == old(self).governor,
            final(self).jurors == old(self).jurors,
            final(self).disputes@ == old(self).disputes@,
    {
        self.juror_records.insert(juror.0, ExpertJuror { juror, domain_tags: tags });
    }

    /// The governor removes the record of `juror`.
    pub fn remove_juror(&mut self, caller: Address, juror: Address)
        requires
            old(self).is_governor(caller),
        ensures
            final(self).juror_records@ == old(self).juror_records@.remove(juror.0),
            final(self).governor == old(self).governor,
            final(self).jurors == old(self).jurors,
            final(self).disputes@ == old(self).disputes@,
    {
        self.juror_records.remove(&juror.0);
    }

    /// `initiator` raises dispute `dispute_id` in `domain_tag` at `now`.
    pub fn trigger_dispute(&mut self, initiator: Address, dispute_id: String, domain_tag: String, now: u64)
        ensures
            final(self).disputes@ == old(self).disputes@.push(Dispute { dispute_id, domain_tag, initiator, timestamp: now }),
            final(self).governor == old(self).governor,
            final(self).jurors == old(self).jurors,
            final(self).juror_records@ == old(self).juror_records@,
    {
        self.disputes.push(Dispute { dispute_id, domain_tag, initiator, timestamp: now });
    }

    /// Registered jurors, in order, whose record carries `domain_tag`.
    pub fn get_eligible_jurors(&self, domain_tag: String) -> (r: Vec<Address>)
        ensures
            r@ == eligible_among(self.juror_list(), self.juror_records@, domain_tag@),
    {
        let mut eligible: Vec<Address> = Vec::new();
        match &self.jurors {
            None => {},
            Some(list) => {
                let mut i: usize = 0;
                while i < list.len()
                    invariant
                        i <= list@.len(),
                        self.juror_list() == list@,
                        eligible@ == eligible_among(list@.take(i as int), self.juror_records@, domain_tag@),
                    decreases list.len() - i,
                {
                    proof {
                        assert(list@.take(i + 1).drop_last() =~= list@.take(i as int));
                    }
                    let j = list[i];
                    match self.juror_records.get(&j.0) {
                        Some(record) => {
                            let mut has = false;
                            let mut k: usize = 0;
                            while k < record.domain_tags.len()
                                invariant
                                    k <= record.domain_tags@.len(),
                                    has <==> tag_views(record.domain_tags@.take(k as int)).contains(domain_tag@),
                                decreases record.domain_tags.len() - k,
                            {
                                proof {
                                    let before = tag_views(record.domain_tags@.take(k as int));
                                    let x = record.domain_tags@[k as int]@;
                                    let after = before.push(x);
                                    assert(tag_views(record.domain_tags@.take(k + 1)) =~= after);
                                    lemma_push_contains(before, x, domain_tag@);
                                }
                                if record.domain_tags[k] == domain_tag {
                                    has = true;
                                }
                                k = k + 1;
                            }
                            proof {
                                assert(record.domain_tags@.take(record.domain_tags@.len() as int) =~= record.domain_tags@);
                            }
                            if has {
                                eligible.push(j);
                            }
                        },
                        None => {},
                    }
                    i = i + 1;
                }
                proof {
                    assert(list@.take(list@.len() as int) =~= list@);
                }
            },
        }
        eligible
    }
}

} // verus!
