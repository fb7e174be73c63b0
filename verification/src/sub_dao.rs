//! Delegated authority for Sub-DAOs: the main DAO grants departments the
//! power to pause, resume or claw back the grants they manage, and keeps a
//! veto over every action they take.
use vstd::prelude::*;
use std::collections::HashMap;
use crate::types::Address;

verus! {

broadcast use vstd::std_specs::hash::group_hash_axioms;

/// What a Sub-DAO may do; each level includes the ones before it.
#[derive(Debug, Clone, Copy, PartialEq, Eq, Structural)]
pub enum PermissionLevel {
    NoPermission,
    Pause,
    Clawback,
    Full,
}

/// Standing of a Sub-DAO.
#[derive(Debug, Clone, Copy, PartialEq, Eq, Structural)]
pub enum SubDaoStatus {
    Active,
    Suspended,
    Revoked,
}

/// The powers granted to a Sub-DAO.
#[derive(Debug, Clone, PartialEq, Eq)]
pub struct SubDaoPermission {
    pub sub_dao_address: Address,
    pub department: String,
    pub permission_level: PermissionLevel,
    pub status: SubDaoStatus,
    pub granted_at: u64,
    pub granted_by: Address,
    pub expires_at: Option<u64>,
    /// Largest total grant amount the Sub-DAO may manage.
    pub max_grant_amount: i128,
    pub managed_grants: Vec<u64>,
}

/// The main DAO's veto of a Sub-DAO action.
#[derive(Debug, Clone, PartialEq, Eq)]
pub struct VetoRecord {
    pub veto_id: u64,
    pub sub_dao_address: Address,
    pub action_type: String,
    pub grant_id: u64,
    pub veto_reason: String,
    pub vetoed_by: Address,
    pub vetoed_at: u64,
    pub original_action_timestamp: u64,
}

/// A Sub-DAO action, as logged.
#[derive(Debug, Clone, PartialEq, Eq)]
pub struct ActionLog {
    pub action_id: u64,
    pub sub_dao_address: Address,
    /// "pause", "resume" or "cancel".
    pub action_type: String,
    pub grant_id: u64,
    pub action_data: String,
    pub executed_at: u64,
    pub vetoed: bool,
    pub veto_id: Option<u64>,
}

/// The Sub-DAOs of a department.
#[derive(Debug, Clone, PartialEq, Eq)]
pub struct DepartmentMembers {
    pub department: String,
    pub members: Vec<Address>,
}

/// Why a Sub-DAO operation was refused.
#[derive(Debug, Clone, Copy, PartialEq, Eq, Structural)]
pub enum SubDaoError {
    NotInitialized,
    AlreadyInitialized,
    NotAuthorized,
    SubDaoNotFound,
    InsufficientPermissions,
    SubDaoSuspended,
    GrantNotManaged,
    ExceededMaxAmount,
    VetoNotFound,
    ActionNotFound,
    InvalidDepartment,
    PermissionExpired,
    MainDaoVeto,
    MathOverflow,
    InvalidState,
}

/// Rank of a permission level: None < Pause < Clawback < Full.
pub open spec fn rank(l: PermissionLevel) -> int {
    match l {
        PermissionLevel::NoPermission => 0,
        PermissionLevel::Pause => 1,
        PermissionLevel::Clawback => 2,
        PermissionLevel::Full => 3,
    }
}

fn level_rank(l: PermissionLevel) -> (r: u32)
    ensures
        r == rank(l),
{
    match l {
        PermissionLevel::NoPermission => 0,
        PermissionLevel::Pause => 1,
        PermissionLevel::Clawback => 2,
        PermissionLevel::Full => 3,
    }
}

impl ActionLog {
    /// A copy of this log entry.
    pub fn duplicate(&self) -> (r: Self)
        ensures
            r == *self,
    {
        ActionLog {
            action_id: self.action_id,
            sub_dao_address: self.sub_dao_address,
            action_type: self.action_type.clone(),
            grant_id: self.grant_id,
            action_data: self.action_data.clone(),
            executed_at: self.executed_at,
            vetoed: self.vetoed,
            veto_id: self.veto_id,
        }
    }
}

impl VetoRecord {
    /// A copy of this veto.
    pub fn duplicate(&self) -> (r: Self)
        ensures
            r == *self,
    {
        VetoRecord {
            veto_id: self.veto_id,
            sub_dao_address: self.sub_dao_address,
            action_type: self.action_type.clone(),
            grant_id: self.grant_id,
            veto_reason: self.veto_reason.clone(),
            vetoed_by: self.vetoed_by,
            vetoed_at: self.vetoed_at,
            original_action_timestamp: self.original_action_timestamp,
        }
    }
}

/// Whether `a` and `b` record the same permission.
pub open spec fn same_permission(a: SubDaoPermission, b: SubDaoPermission) -> bool {
    &&& a.sub_dao_address == b.sub_dao_address
    &&& a.department == b.department
    &&& a.permission_level == b.permission_level
    &&& a.status == b.status
    &&& a.granted_at == b.granted_at
    &&& a.granted_by == b.granted_by
    &&& a.expires_at == b.expires_at
    &&& a.max_grant_amount == b.max_grant_amount
    &&& a.managed_grants@ == b.managed_grants@
}

impl SubDaoPermission {
    /// A copy of this permission.
    pub fn duplicate(&self) -> (r: Self)
        ensures
            same_permission(r, *self),
    {
        SubDaoPermission {
            sub_dao_address: self.sub_dao_address,
            department: self.department.clone(),
            permission_level: self.permission_level,
            status: self.status,
            granted_at: self.granted_at,
            granted_by: self.granted_by,
            expires_at: self.expires_at,
            max_grant_amount: self.max_grant_amount,
            managed_grants: self.managed_grants.clone(),
        }
    }
}

/// Members of department `d` according to `ds`.
pub open spec fn members_of(ds: Seq<DepartmentMembers>, d: Seq<char>) -> Seq<Address> {
    if exists|i: int| 0 <= i < ds.len() && #[trigger] ds[i].department@ == d {
        ds[choose|i: int| 0 <= i < ds.len() && #[trigger] ds[i].department@ == d].members@
    } else {
        Seq::empty()
    }
}

/// `s` without the occurrences of `a`.
pub open spec fn without_address(s: Seq<Address>, a: Address) -> Seq<Address> {
    s.filter(|x: Address| x != a)
}

/// Why `sub` may not take an action needing `required` on `grant_id` at
/// `now`, if it may not.
pub open spec fn action_refusal(
    perm: Option<SubDaoPermission>,
    managed: Seq<u64>,
    grant_id: u64,
    required: PermissionLevel,
    now: u64,
) -> Option<SubDaoError> {
    match perm {
        None => Some(SubDaoError::SubDaoNotFound),
        Some(p) => if p.status != SubDaoStatus::Active {
            Some(SubDaoError::SubDaoSuspended)
        } else if rank(p.permission_level) < rank(required) {
            Some(SubDaoError::InsufficientPermissions)
        } else if p.expires_at matches Some(e) && now >= e {
            Some(SubDaoError::PermissionExpired)
        } else if !managed.contains(grant_id) {
            Some(SubDaoError::GrantNotManaged)
        } else {
            None
        },
    }
}

/// The Sub-DAO authority's state; addresses are keyed by identity.
pub struct SubDaoAuthority {
    pub main_dao_admin: Option<Address>,
    pub next_veto_id: u64,
    pub next_action_id: u64,
    pub permissions: HashMap<u64, SubDaoPermission>,
    /// Grants each Sub-DAO manages.
    pub managed: HashMap<u64, Vec<u64>>,
    pub vetoes: HashMap<u64, VetoRecord>,
    pub actions: HashMap<u64, ActionLog>,
    /// Sub-DAOs by department; one entry per department.
    pub departments: Vec<DepartmentMembers>,
    /// Which Sub-DAO manages each grant.
    pub grant_manager: HashMap<u64, Address>,
}

impl SubDaoAuthority {
    /// Department names are unique in the index.
    pub open spec fn wf(&self) -> bool {
        forall|i: int, j: int| 0 <= i < j < self.departments@.len()
            ==> #[trigger] self.departments@[i].department@ != #[trigger] self.departments@[j].department@
    }

    /// The permission of `sub`, if any.
    pub open spec fn permission_of(&self, sub: Address) -> Option<SubDaoPermission> {
        if self.permissions@.contains_key(sub.0) { Some(self.permissions@[sub.0]) } else { None }
    }

    /// Grants `sub` manages.
    pub open spec fn managed_of(&self, sub: Address) -> Seq<u64> {
        if self.managed@.contains_key(sub.0) { self.managed@[sub.0]@ } else { Seq::empty() }
    }

    /// Sub-DAOs of department `d`.
    pub open spec fn department(&self, d: Seq<char>) -> Seq<Address> {
        members_of(self.departments@, d)
    }

    /// An authority not yet initialized.
    pub fn new() -> (r: Self)
        ensures
            r.wf(),
            r.main_dao_admin is None,
            r.next_veto_id == 1,
            r.next_action_id == 1,
            r.permissions@ == Map::<u64, SubDaoPermission>::empty(),
            r.managed@ == Map::<u64, Vec<u64>>::empty(),
            r.vetoes@ == Map::<u64, VetoRecord>::empty(),
            r.actions@ == Map::<u64, ActionLog>::empty(),
            r.departments@.len() == 0,
            r.grant_manager@ == Map::<u64, Address>::empty(),
    {
        SubDaoAuthority {
            main_dao_admin: None,
            next_veto_id: 1,
            next_action_id: 1,
            permissions: HashMap::new(),
            managed: HashMap::new(),
            vetoes: HashMap::new(),
            actions: HashMap::new(),
            departments: Vec::new(),
            grant_manager: HashMap::new(),
        }
    }

    /// Sets the main DAO admin and restarts the veto and action numbering.
    pub fn initialize(&mut self, main_dao_admin: Address) -> (r: Result<(), SubDaoError>)
        requires
            old(self).wf(),
        ensures
            final(self).wf(),
            old(self).main_dao_admin is Some <==> r is Err,
            r is Err ==> r == Err::<(), SubDaoError>(SubDaoError::AlreadyInitialized)
                && final(self).main_dao_admin == old(self).main_dao_admin
                && final(self).next_veto_id == old(self).next_veto_id
                && final(self).next_action_id == old(self).next_action_id,
            r is Ok ==> final(self).main_dao_admin == Some(main_dao_admin) && final(self).next_veto_id == 1
                && final(self).next_action_id == 1,
            final(self).permissions@ == old(self).permissions@,
            final(self).actions@ == old(self).actions@,
    {
        if self.main_dao_admin.is_some() {
            return Err(SubDaoError::AlreadyInitialized);
        }
        self.main_dao_admin = Some(main_dao_admin);
        self.next_veto_id = 1;
        self.next_action_id = 1;
        Ok(())
    }

    fn require_main_dao(&self, caller: Address) -> (r: Result<(), SubDaoError>)
        ensures
            self.main_dao_admin is None ==> r == Err::<(), SubDaoError>(SubDaoError::NotInitialized),
            self.main_dao_admin matches Some(a) && a != caller ==> r == Err::<(), SubDaoError>(SubDaoError::NotAuthorized),
            r is Ok <==> self.main_dao_admin == Some(caller),
    {
        match self.main_dao_admin {
            None => Err(SubDaoError::NotInitialized),
            Some(a) => if a != caller {
                Err(SubDaoError::NotAuthorized)
            } else {
                Ok(())
            },
        }
    }

    /// Index of department `d` in the index, if it has an entry.
    fn find_department(&self, d: &String) -> (r: Option<usize>)
        requires
            self.wf(),
        ensures
            r matches Some(i) ==> i < self.departments@.len() && self.departments@[i as int].department@ == d@
                && self.department(d@) == self.departments@[i as int].members@,
            r is None ==> forall|j: int| 0 <= j < self.departments@.len() ==> #[trigger] self.departments@[j].department@ != d@,
            r is None ==> self.department(d@) == Seq::<Address>::empty(),
    {
        let mut i: usize = 0;
        while i < self.departments.len()
            invariant
                self.wf(),
                i <= self.departments@.len(),
                forall|j: int| 0 <= j < i ==> #[trigger] self.departments@[j].department@ != d@,
            decreases self.departments.len() - i,
        {
            if self.departments[i].department == *d {
                proof {
                    let k = choose|k: int| 0 <= k < self.departments@.len() && #[trigger] self.departments@[k].department@ == d@;
                    if k != i {
                        if k < i {
                            assert(self.departments@[k].department@ != self.departments@[i as int].department@);
                        } else {
                            assert(self.departments@[i as int].department@ != self.departments@[k].department@);
                        }
                    }
                }
                return Some(i);
            }
            i = i + 1;
        }
        None
    }

    /// Grants `sub_dao_address` of `department` the given level at `now`, up
    /// to `max_grant_amount`, until `expires_at` if given (main DAO only).
    /// The Sub-DAO starts with no managed grants and joins its department.
    pub fn grant_sub_dao_permissions(
        &mut self,
        main_dao_admin: Address,
        sub_dao_address: Address,
        department: String,
        permission_level: PermissionLevel,
        max_grant_amount: i128,
        expires_at: Option<u64>,
        now: u64,
    ) -> (r: Result<(), SubDaoError>)
        requires
            old(self).wf(),
        ensures
            final(self).wf(),
            old(self).main_dao_admin is None ==> r == Err::<(), SubDaoError>(SubDaoError::NotInitialized),
            old(self).main_dao_admin matches Some(a) && a != main_dao_admin ==> r == Err::<(), SubDaoError>(SubDaoError::NotAuthorized),
            old(self).main_dao_admin == Some(main_dao_admin) && max_grant_amount <= 0
                ==> r == Err::<(), SubDaoError>(SubDaoError::InvalidState),
            old(self).main_dao_admin == Some(main_dao_admin) && max_grant_amount > 0 && (expires_at matches Some(e) && e <= now)
                ==> r == Err::<(), SubDaoError>(SubDaoError::PermissionExpired),
            r is Ok <==> old(self).main_dao_admin == Some(main_dao_admin) && max_grant_amount > 0
                && !(expires_at matches Some(e) && e <= now),
            r is Err ==> final(self).permissions@ == old(self).permissions@ && final(self).managed@ == old(self).managed@
                && final(self).departments@ == old(self).departments@,
            r is Ok ==> {
                &&& final(self).permissions@.contains_key(sub_dao_address.0)
                &&& {
                    let p = final(self).permissions@[sub_dao_address.0];
                    &&& p.sub_dao_address == sub_dao_address
                    &&& p.department@ == department@
                    &&& p.permission_level == permission_level
                    &&& p.status == SubDaoStatus::Active
                    &&& p.granted_at == now
                    &&& p.granted_by == main_dao_admin
                    &&& p.expires_at == expires_at
                    &&& p.max_grant_amount == max_grant_amount
                    &&& p.managed_grants@.len() == 0
                }
                &&& forall|k: u64| k != sub_dao_address.0 ==> #[trigger] final(self).permissions@.contains_key(k)
                    == old(self).permissions@.contains_key(k)
                    && (old(self).permissions@.contains_key(k) ==> final(self).permissions@[k] == old(self).permissions@[k])
                &&& final(self).managed_of(sub_dao_address) == Seq::<u64>::empty()
                &&& forall|s: Address| s != sub_dao_address ==> #[trigger] final(self).managed_of(s) == old(self).managed_of(s)
                &&& final(self).department(department@) == old(self).department(department@).push(sub_dao_address)
                &&& forall|d: Seq<char>| d != department@ ==> #[trigger] final(self).department(d) == old(self).department(d)
            },
            final(self).main_dao_admin == old(self).main_dao_admin,
            final(self).actions@ == old(self).actions@,
            final(self).vetoes@ == old(self).vetoes@,
            final(self).grant_manager@ == old(self).grant_manager@,
            final(self).next_action_id == old(self).next_action_id,
            final(self).next_veto_id == old(self).next_veto_id,
    {
        self.require_main_dao(main_dao_admin)?;
        if max_grant_amount <= 0 {
            return Err(SubDaoError::InvalidState);
        }
        if let Some(expiry) = expires_at {
            if expiry <= now {
                return Err(SubDaoError::PermissionExpired);
            }
        }
        let found = self.find_department(&department);
        let permission = SubDaoPermission {
            sub_dao_address,
            department: department.clone(),
            permission_level,
            status: SubDaoStatus::Active,
            granted_at: now,
            granted_by: main_dao_admin,
            expires_at,
            max_grant_amount,
            managed_grants: Vec::new(),
        };
        self.permissions.insert(sub_dao_address.0, permission);
        self.managed.insert(sub_dao_address.0, Vec::new());
        let ghost old_ds = self.departments@;
        match found {
            Some(i) => {
                let mut entry = self.departments.remove(i);
                entry.members.push(sub_dao_address);
                self.departments.insert(i, entry);
                proof {
                    assert(self.departments@ =~= old_ds.update(i as int, self.departments@[i as int]));
                    assert(self.departments@[i as int].department@ == department@);
                    assert forall|a: int, b: int| 0 <= a < b < self.departments@.len()
                        implies #[trigger] self.departments@[a].department@ != #[trigger] self.departments@[b].department@ by {
                        assert(old_ds[a].department@ != old_ds[b].department@);
                    }
                    assert forall|d: Seq<char>| d != department@ implies #[trigger] self.department(d) == members_of(old_ds, d) by {
                        if exists|j: int| 0 <= j < old_ds.len() && #[trigger] old_ds[j].department@ == d {
                            let j = choose|j: int| 0 <= j < old_ds.len() && #[trigger] old_ds[j].department@ == d;
                            assert(self.departments@[j].department@ == d);
                            let k = choose|k: int| 0 <= k < self.departments@.len() && #[trigger] self.departments@[k].department@ == d;
                            if k != j {
                                if k < j {
                                    assert(self.departments@[k].department@ != self.departments@[j].department@);
                                } else {
                                    assert(self.departments@[j].department@ != self.departments@[k].department@);
                                }
                            }
                        } else {
                            assert forall|k: int| 0 <= k < self.departments@.len() implies #[trigger] self.departments@[k].department@ != d by {
                                assert(old_ds[k].department@ != d);
                            }
                        }
                    }
                    let k = choose|k: int| 0 <= k < self.departments@.len() && #[trigger] self.departments@[k].department@ == department@;
                    if k != i {
                        if k < i {
                            assert(self.departments@[k].department@ != self.departments@[i as int].department@);
                        } else {
                            assert(self.departments@[i as int].department@ != self.departments@[k].department@);
                        }
                    }
                }
            },
            None => {
                let mut members: Vec<Address> = Vec::new();
                members.push(sub_dao_address);
                self.departments.push(DepartmentMembers { department, members });
                proof {
                    let n = old_ds.len() as int;
                    assert(self.departments@ =~= old_ds.push(self.departments@[n]));
                    assert forall|a: int, b: int| 0 <= a < b < self.departments@.len()
                        implies #[trigger] self.departments@[a].department@ != #[trigger] self.departments@[b].department@ by {
                        if b < n {
                            assert(old_ds[a].department@ != old_ds[b].department@);
                        }
                    }
                    assert forall|d: Seq<char>| d != department@ implies #[trigger] self.department(d) == members_of(old_ds, d) by {
                        if exists|j: int| 0 <= j < old_ds.len() && #[trigger] old_ds[j].department@ == d {
                            let j = choose|j: int| 0 <= j < old_ds.len() && #[trigger] old_ds[j].department@ == d;
                            assert(self.departments@[j].department@ == d);
                            let k = choose|k: int| 0 <= k < self.departments@.len() && #[trigger] self.departments@[k].department@ == d;
                            if k != j {
                                if k < j {
                                    assert(self.departments@[k].department@ != self.departments@[j].department@);
                                } else {
                                    assert(self.departments@[j].department@ != self.departments@[k].department@);
                                }
                            }
                        } else {
                            assert forall|k: int| 0 <= k < self.departments@.len() implies #[trigger] self.departments@[k].department@ != d by {
                                if k < n {
                                    assert(old_ds[k].department@ != d);
                                }
                            }
                        }
                    }
                    assert(self.departments@[n].department@ == department@);
                    let k = choose|k: int| 0 <= k < self.departments@.len() && #[trigger] self.departments@[k].department@ == department@;
                    if k != n {
                        assert(old_ds[k].department@ != department@);
                    }
                    assert(self.departments@[n].members@ =~= Seq::<Address>::empty().push(sub_dao_address));
                }
            },
        }
        Ok(())
    }

    /// Hands `grant_id` to `sub_dao_address` to manage (main DAO only); the
    /// Sub-DAO must exist and be active, and not manage the grant already.
    pub fn assign_grant_to_sub_dao(&mut self, main_dao_admin: Address, sub_dao_address: Address, grant_id: u64) -> (r: Result<(), SubDaoError>)
        requires
            old(self).wf(),
        ensures
            final(self).wf(),
            old(self).main_dao_admin is None ==> r == Err::<(), SubDaoError>(SubDaoError::NotInitialized),
            old(self).main_dao_admin matches Some(a) && a != main_dao_admin ==> r == Err::<(), SubDaoError>(SubDaoError::NotAuthorized),
            old(self).main_dao_admin == Some(main_dao_admin) && old(self).permission_of(sub_dao_address) is None
                ==> r == Err::<(), SubDaoError>(SubDaoError::SubDaoNotFound),
            old(self).permission_of(sub_dao_address) matches Some(p) && p.status != SubDaoStatus::Active
                && old(self).main_dao_admin == Some(main_dao_admin) ==> r == Err::<(), SubDaoError>(SubDaoError::SubDaoSuspended),
            r is Ok <==> old(self).main_dao_admin == Some(main_dao_admin)
                && (old(self).permission_of(sub_dao_address) matches Some(p) && p.status == SubDaoStatus::Active)
                && !(old(self).grant_manager@.contains_key(grant_id) && old(self).grant_manager@[grant_id] == sub_dao_address),
            r is Err ==> final(self).permissions@ == old(self).permissions@ && final(self).managed@ == old(self).managed@
                && final(self).grant_manager@ == old(self).grant_manager@,
            r is Ok ==> {
                let list = old(self).managed_of(sub_dao_address).push(grant_id);
                let p = old(self).permissions@[sub_dao_address.0];
                &&& final(self).managed_of(sub_dao_address) == list
                &&& forall|s: Address| s != sub_dao_address ==> #[trigger] final(self).managed_of(s) == old(self).managed_of(s)
                &&& final(self).permissions@.dom() == old(self).permissions@.dom()
                &&& same_permission(
                    final(self).permissions@[sub_dao_address.0],
                    SubDaoPermission { managed_grants: final(self).permissions@[sub_dao_address.0].managed_grants, ..p },
                )
                &&& final(self).permissions@[sub_dao_address.0].managed_grants@ == list
                &&& forall|k: u64| k != sub_dao_address.0 && #[trigger] old(self).permissions@.contains_key(k)
                    ==> final(self).permissions@[k] == old(self).permissions@[k]
                &&& final(self).grant_manager@ == old(self).grant_manager@.insert(grant_id, sub_dao_address)
            },
            final(self).departments@ == old(self).departments@,
            final(self).main_dao_admin == old(self).main_dao_admin,
            final(self).actions@ == old(self).actions@,
            final(self).next_action_id == old(self).next_action_id,
    {
        self.require_main_dao(main_dao_admin)?;
        let status = match self.permissions.get(&sub_dao_address.0) {
            Some(p) => p.status,
            None => return Err(SubDaoError::SubDaoNotFound),
        };
        if status != SubDaoStatus::Active {
            return Err(SubDaoError::SubDaoSuspended);
        }
        if let Some(current) = self.grant_manager.get(&grant_id) {
            if *current == sub_dao_address {
                return Err(SubDaoError::InvalidState);
            }
        }
        let mut list: Vec<u64> = match self.managed.get(&sub_dao_address.0) {
            Some(l) => l.clone(),
            None => Vec::new(),
        };
        list.push(grant_id);
        self.managed.insert(sub_dao_address.0, list.clone());
        let mut permission = match self.permissions.remove(&sub_dao_address.0) {
            Some(p) => p,
            None => return Err(SubDaoError::SubDaoNotFound),
        };
        permission.managed_grants = list;
        self.permissions.insert(sub_dao_address.0, permission);
        self.grant_manager.insert(grant_id, sub_dao_address);
        proof {
            assert(self.permissions@.dom() =~= old(self).permissions@.dom());
        }
        Ok(())
    }

    fn validate_sub_dao_action(&self, sub_dao_address: Address, grant_id: u64, required: PermissionLevel, now: u64) -> (r: Result<(), SubDaoError>)
        ensures
            r == (match action_refusal(self.permission_of(sub_dao_address), self.managed_of(sub_dao_address), grant_id, required, now) {
                Some(e) => Err::<(), SubDaoError>(e),
                None => Ok(()),
            }),
    {
        let (status, level, expires_at) = match self.permissions.get(&sub_dao_address.0) {
            Some(p) => (p.status, p.permission_level, p.expires_at),
            None => return Err(SubDaoError::SubDaoNotFound),
        };
        if status != SubDaoStatus::Active {
            return Err(SubDaoError::SubDaoSuspended);
        }
        if level_rank(level) < level_rank(required) {
            return Err(SubDaoError::InsufficientPermissions);
        }
        if let Some(expiry) = expires_at {
            if now >= expiry {
                return Err(SubDaoError::PermissionExpired);
            }
        }
        let manages = match self.managed.get(&sub_dao_address.0) {
            Some(l) => {
                let mut found = false;
                let mut i: usize = 0;
                while i < l.len()
                    invariant
                        i <= l@.len(),
                        found <==> exists|j: int| 0 <= j < i && l@[j] == grant_id,
                    decreases l.len() - i,
                {
                    if l[i] == grant_id {
                        found = true;
                    }
                    i = i + 1;
                }
                found
            },
            None => false,
        };
        if !manages {
            return Err(SubDaoError::GrantNotManaged);
        }
        Ok(())
    }

    fn log_action(&mut self, sub_dao_address: Address, action_type: String, grant_id: u64, action_data: String, now: u64) -> (r: u64)
        requires
            old(self).next_action_id < u64::MAX,
        ensures
            r == old(self).next_action_id,
            final(self).next_action_id == r + 1,
            final(self).actions@ == old(self).actions@.insert(r, ActionLog {
                action_id: r,
                sub_dao_address,
                action_type,
                grant_id,
                action_data,
                executed_at: now,
                vetoed: false,
                veto_id: None,
            }),
            final(self).permissions@ == old(self).permissions@,
            final(self).managed@ == old(self).managed@,
            final(self).departments@ == old(self).departments@,
            final(self).grant_manager@ == old(self).grant_manager@,
            final(self).vetoes@ == old(self).vetoes@,
            final(self).next_veto_id == old(self).next_veto_id,
            final(self).main_dao_admin == old(self).main_dao_admin,
    {
        let action_id = self.next_action_id;
        let log = ActionLog {
            action_id,
            sub_dao_address,
            action_type,
            grant_id,
            action_data,
            executed_at: now,
            vetoed: false,
            veto_id: None,
        };
        self.actions.insert(action_id, log);
        self.next_action_id = action_id + 1;
        action_id
    }

    fn delegated_action(&mut self, sub_dao_address: Address, grant_id: u64, reason: String, required: PermissionLevel, kind: &str, now: u64) -> (r: Result<u64, SubDaoError>)
        requires
            old(self).wf(),
            old(self).next_action_id < u64::MAX,
        ensures
            final(self).wf(),
            r == (match action_refusal(old(self).permission_of(sub_dao_address), old(self).managed_of(sub_dao_address), grant_id, required, now) {
                Some(e) => Err::<u64, SubDaoError>(e),
                None => Ok(old(self).next_action_id),
            }),
            r is Err ==> final(self).actions@ == old(self).actions@ && final(self).next_action_id == old(self).next_action_id,
            r is Ok ==> final(self).next_action_id == old(self).next_action_id + 1
                && final(self).actions@.contains_key(old(self).next_action_id)
                && final(self).actions@.dom() == old(self).actions@.dom().insert(old(self).next_action_id)
                && (forall|k: u64| k != old(self).next_action_id && #[trigger] old(self).actions@.contains_key(k)
                    ==> final(self).actions@[k] == old(self).actions@[k])
                && ({
                    let log = final(self).actions@[old(self).next_action_id];
                    &&& log.action_id == old(self).next_action_id
                    &&& log.sub_dao_address == sub_dao_address
                    &&& log.action_type@ == kind@
                    &&& log.grant_id == grant_id
                    &&& log.action_data == reason
                    &&& log.executed_at == now
                    &&& !log.vetoed
                    &&& log.veto_id is None
                }),
            final(self).permissions@ == old(self).permissions@,
            final(self).managed@ == old(self).managed@,
            final(self).departments@ == old(self).departments@,
            final(self).grant_manager@ == old(self).grant_manager@,
            final(self).vetoes@ == old(self).vetoes@,
            final(self).next_veto_id == old(self).next_veto_id,
            final(self).main_dao_admin == old(self).main_dao_admin,
    {
        self.validate_sub_dao_action(sub_dao_address, grant_id, required, now)?;
        let id = self.log_action(sub_dao_address, String::from_str(kind), grant_id, reason, now);
        proof {
            assert(self.actions@.dom() =~= old(self).actions@.dom().insert(old(self).next_action_id));
        }
        Ok(id)
    }

    /// `sub_dao_address` pauses a grant it manages at `now` (needs the pause
    /// level); the action is logged as "pause" and its id returned.
    pub fn delegated_pause_grant(&mut self, sub_dao_address: Address, grant_id: u64, reason: String, now: u64) -> (r: Result<u64, SubDaoError>)
        requires
            old(self).wf(),
            old(self).next_action_id < u64::MAX,
        ensures
            final(self).wf(),
            r == (match action_refusal(old(self).permission_of(sub_dao_address), old(self).managed_of(sub_dao_address), grant_id, PermissionLevel::Pause, now) {
                Some(e) => Err::<u64, SubDaoError>(e),
                None => Ok(old(self).next_action_id),
            }),
            r is Err ==> final(self).actions@ == old(self).actions@,
            r is Ok ==> final(self).actions@.contains_key(old(self).next_action_id)
                && final(self).actions@[old(self).next_action_id].action_type@ == "pause"@
                && final(self).actions@[old(self).next_action_id].grant_id == grant_id
                && final(self).actions@[old(self).next_action_id].sub_dao_address == sub_dao_address,
            final(self).permissions@ == old(self).permissions@,
    {
        self.delegated_action(sub_dao_address, grant_id, reason, PermissionLevel::Pause, "pause", now)
    }

    /// `sub_dao_address` resumes a grant it manages at `now` (needs the pause
    /// level); the action is logged as "resume" and its id returned.
    pub fn delegated_resume_grant(&mut self, sub_dao_address: Address, grant_id: u64, reason: String, now: u64) -> (r: Result<u64, SubDaoError>)
        requires
            old(self).wf(),
            old(self).next_action_id < u64::MAX,
        ensures
            final(self).wf(),
            r == (match action_refusal(old(self).permission_of(sub_dao_address), old(self).managed_of(sub_dao_address), grant_id, PermissionLevel::Pause, now) {
                Some(e) => Err::<u64, SubDaoError>(e),
                None => Ok(old(self).next_action_id),
            }),
            r is Err ==> final(self).actions@ == old(self).actions@,
            r is Ok ==> final(self).actions@.contains_key(old(self).next_action_id)
                && final(self).actions@[old(self).next_action_id].action_type@ == "resume"@
                && final(self).actions@[old(self).next_action_id].grant_id == grant_id
                && final(self).actions@[old(self).next_action_id].sub_dao_address == sub_dao_address,
            final(self).permissions@ == old(self).permissions@,
    {
        self.delegated_action(sub_dao_address, grant_id, reason, PermissionLevel::Pause, "resume", now)
    }

    /// `sub_dao_address` claws back (cancels) a grant it manages at `now`
    /// (needs the clawback level); the action is logged as "cancel" and its id
    /// returned.
    pub fn delegated_clawback_grant(&mut self, sub_dao_address: Address, grant_id: u64, reason: String, now: u64) -> (r: Result<u64, SubDaoError>)
        requires
            old(self).wf(),
            old(self).next_action_id < u64::MAX,
        ensures
            final(self).wf(),
            r == (match action_refusal(old(self).permission_of(sub_dao_address), old(self).managed_of(sub_dao_address), grant_id, PermissionLevel::Clawback, now) {
                Some(e) => Err::<u64, SubDaoError>(e),
                None => Ok(old(self).next_action_id),
            }),
            r is Err ==> final(self).actions@ == old(self).actions@,
            r is Ok ==> final(self).actions@.contains_key(old(self).next_action_id)
                && final(self).actions@[old(self).next_action_id].action_type@ == "cancel"@
                && final(self).actions@[old(self).next_action_id].grant_id == grant_id
                && final(self).actions@[old(self).next_action_id].sub_dao_address == sub_dao_address,
            final(self).permissions@ == old(self).permissions@,
    {
        self.delegated_action(sub_dao_address, grant_id, reason, PermissionLevel::Clawback, "cancel", now)
    }

    /// The main DAO vetoes logged action `action_id` at `now`; an action is
    /// vetoed at most once. Returns the veto's id.
    pub fn veto_sub_dao_action(&mut self, main_dao_admin: Address, action_id: u64, veto_reason: String, now: u64) -> (r: Result<u64, SubDaoError>)
        requires
            old(self).wf(),
            old(self).next_veto_id < u64::MAX,
        ensures
            final(self).wf(),
            old(self).main_dao_admin is None ==> r == Err::<u64, SubDaoError>(SubDaoError::NotInitialized),
            old(self).main_dao_admin matches Some(a) && a != main_dao_admin ==> r == Err::<u64, SubDaoError>(SubDaoError::NotAuthorized),
            old(self).main_dao_admin == Some(main_dao_admin) && !old(self).actions@.contains_key(action_id)
                ==> r == Err::<u64, SubDaoError>(SubDaoError::ActionNotFound),
            old(self).main_dao_admin == Some(main_dao_admin) && old(self).actions@.contains_key(action_id)
                && old(self).actions@[action_id].vetoed ==> r == Err::<u64, SubDaoError>(SubDaoError::InvalidState),
            r is Ok <==> old(self).main_dao_admin == Some(main_dao_admin) && old(self).actions@.contains_key(action_id)
                && !old(self).actions@[action_id].vetoed,
            r is Err ==> final(self).actions@ == old(self).actions@ && final(self).vetoes@ == old(self).vetoes@
                && final(self).next_veto_id == old(self).next_veto_id,
            r is Ok ==> {
                let v = old(self).next_veto_id;
                let a = old(self).actions@[action_id];
                &&& r == Ok::<u64, SubDaoError>(v)
                &&& final(self).next_veto_id == v + 1
                &&& final(self).vetoes@ == old(self).vetoes@.insert(v, VetoRecord {
                    veto_id: v,
                    sub_dao_address: a.sub_dao_address,
                    action_type: a.action_type,
                    grant_id: a.grant_id,
                    veto_reason,
                    vetoed_by: main_dao_admin,
                    vetoed_at: now,
                    original_action_timestamp: a.executed_at,
                })
                &&& final(self).actions@ == old(self).actions@.insert(action_id, ActionLog { vetoed: true, veto_id: Some(v), ..a })
            },
            final(self).permissions@ == old(self).permissions@,
            final(self).next_action_id == old(self).next_action_id,
    {
        self.require_main_dao(main_dao_admin)?;
        let mut log = match self.actions.get(&action_id) {
            Some(a) => a.duplicate(),
            None => return Err(SubDaoError::ActionNotFound),
        };
        if log.vetoed {
            return Err(SubDaoError::InvalidState);
        }
        let veto_id = self.next_veto_id;
        let record = VetoRecord {
            veto_id,
            sub_dao_address: log.sub_dao_address,
            action_type: log.action_type.clone(),
            grant_id: log.grant_id,
            veto_reason,
            vetoed_by: main_dao_admin,
            vetoed_at: now,
            original_action_timestamp: log.executed_at,
        };
        self.vetoes.insert(veto_id, record);
        self.next_veto_id = veto_id + 1;
        log.vetoed = true;
        log.veto_id = Some(veto_id);
        self.actions.insert(action_id, log);
        Ok(veto_id)
    }

    /// Sets the status of `sub`'s permission, which must exist.
    fn set_status(&mut self, sub: Address, status: SubDaoStatus)
        requires
            old(self).permissions@.contains_key(sub.0),
        ensures
            final(self).permissions@ == old(self).permissions@.insert(
                sub.0,
                SubDaoPermission { status, ..old(self).permissions@[sub.0] },
            ),
            final(self).managed@ == old(self).managed@,
            final(self).departments@ == old(self).departments@,
            final(self).actions@ == old(self).actions@,
            final(self).vetoes@ == old(self).vetoes@,
            final(self).grant_manager@ == old(self).grant_manager@,
            final(self).main_dao_admin == old(self).main_dao_admin,
            final(self).next_action_id == old(self).next_action_id,
            final(self).next_veto_id == old(self).next_veto_id,
    {
        let removed = self.permissions.remove(&sub.0);
        match removed {
            Some(mut p) => {
                p.status = status;
                self.permissions.insert(sub.0, p);
            },
            None => {},
        }
    }

    /// Revokes `sub_dao_address` for good (main DAO only) and removes it from
    /// its department.
    pub fn revoke_sub_dao_permissions(&mut self, main_dao_admin: Address, sub_dao_address: Address, reason: String) -> (r: Result<(), SubDaoError>)
        requires
            old(self).wf(),
        ensures
            final(self).wf(),
            old(self).main_dao_admin is None ==> r == Err::<(), SubDaoError>(SubDaoError::NotInitialized),
            old(self).main_dao_admin matches Some(a) && a != main_dao_admin ==> r == Err::<(), SubDaoError>(SubDaoError::NotAuthorized),
            old(self).main_dao_admin == Some(main_dao_admin) && old(self).permission_of(sub_dao_address) is None
                ==> r == Err::<(), SubDaoError>(SubDaoError::SubDaoNotFound),
            r is Ok <==> old(self).main_dao_admin == Some(main_dao_admin) && old(self).permission_of(sub_dao_address) is Some,
            r is Err ==> final(self).permissions@ == old(self).permissions@ && final(self).departments@ == old(self).departments@,
            r is Ok ==> {
                let p = old(self).permissions@[sub_dao_address.0];
                &&& final(self).permissions@ == old(self).permissions@.insert(
                    sub_dao_address.0,
                    SubDaoPermission { status: SubDaoStatus::Revoked, ..p },
                )
                &&& final(self).department(p.department@) == without_address(old(self).department(p.department@), sub_dao_address)
                &&& forall|d: Seq<char>| d != p.department@ ==> #[trigger] final(self).department(d) == old(self).department(d)
            },
            final(self).managed@ == old(self).managed@,
            final(self).actions@ == old(self).actions@,
            final(self).main_dao_admin == old(self).main_dao_admin,
    {
        self.require_main_dao(main_dao_admin)?;
        let department = match self.permissions.get(&sub_dao_address.0) {
            Some(p) => p.department.clone(),
            None => return Err(SubDaoError::SubDaoNotFound),
        };
        self.set_status(sub_dao_address, SubDaoStatus::Revoked);
        let ghost old_ds = self.departments@;
        match self.find_department(&department) {
            Some(i) => {
                let mut entry = self.departments.remove(i);
                let mut kept: Vec<Address> = Vec::new();
                let mut j: usize = 0;
                proof {
                    reveal_with_fuel(Seq::<Address>::filter, 1);
                    assert(entry.members@.subrange(0, 0) =~= Seq::<Address>::empty());
                }
                while j < entry.members.len()
                    invariant
                        j <= entry.members@.len(),
                        kept@ == without_address(entry.members@.subrange(0, j as int), sub_dao_address),
                    decreases entry.members.len() - j,
                {
                    let ghost s = entry.members@.subrange(0, j as int + 1);
                    proof {
                        reveal_with_fuel(Seq::<Address>::filter, 1);
                        assert(s.drop_last() =~= entry.members@.subrange(0, j as int));
                        assert(s.last() == entry.members@[j as int]);
                    }
                    let a = entry.members[j];
                    if a != sub_dao_address {
                        kept.push(a);
                    }
                    j = j + 1;
                }
                proof {
                    assert(entry.members@.subrange(0, entry.members@.len() as int) =~= entry.members@);
                }
                entry.members = kept;
                self.departments.insert(i, entry);
                proof {
                    assert(self.departments@ =~= old_ds.update(i as int, self.departments@[i as int]));
                    assert forall|a: int, b: int| 0 <= a < b < self.departments@.len()
                        implies #[trigger] self.departments@[a].department@ != #[trigger] self.departments@[b].department@ by {
                        assert(old_ds[a].department@ != old_ds[b].department@);
                    }
                    assert forall|d: Seq<char>| d != department@ implies #[trigger] self.department(d) == members_of(old_ds, d) by {
                        if exists|j: int| 0 <= j < old_ds.len() && #[trigger] old_ds[j].department@ == d {
                            let j = choose|j: int| 0 <= j < old_ds.len() && #[trigger] old_ds[j].department@ == d;
                            assert(self.departments@[j].department@ == d);
                            let k = choose|k: int| 0 <= k < self.departments@.len() && #[trigger] self.departments@[k].department@ == d;
                            if k != j {
                                if k < j {
                                    assert(self.departments@[k].department@ != self.departments@[j].department@);
                                } else {
                                    assert(self.departments@[j].department@ != self.departments@[k].department@);
                                }
                            }
                        } else {
                            assert forall|k: int| 0 <= k < self.departments@.len() implies #[trigger] self.departments@[k].department@ != d by {
                                assert(old_ds[k].department@ != d);
                            }
                        }
                    }
                    assert(self.departments@[i as int].department@ == department@);
                    let k = choose|k: int| 0 <= k < self.departments@.len() && #[trigger] self.departments@[k].department@ == department@;
                    if k != i {
                        if k < i {
                            assert(self.departments@[k].department@ != self.departments@[i as int].department@);
                        } else {
                            assert(self.departments@[i as int].department@ != self.departments@[k].department@);
                        }
                    }
                    assert(self.department(department@) == self.departments@[i as int].members@);
                    assert(self.departments@[i as int].members@ == without_address(old_ds[i as int].members@, sub_dao_address));
                }
            },
            None => {
                proof {
                    reveal_with_fuel(Seq::<Address>::filter, 1);
                    assert(without_address(Seq::<Address>::empty(), sub_dao_address) =~= Seq::<Address>::empty());
                }
            },
        }
        Ok(())
    }

    /// Suspends `sub_dao_address` for now (main DAO only); a revoked Sub-DAO
    /// cannot be suspended.
    pub fn suspend_sub_dao(&mut self, main_dao_admin: Address, sub_dao_address: Address, reason: String) -> (r: Result<(), SubDaoError>)
        requires
            old(self).wf(),
        ensures
            final(self).wf(),
            old(self).main_dao_admin is None ==> r == Err::<(), SubDaoError>(SubDaoError::NotInitialized),
            old(self).main_dao_admin matches Some(a) && a != main_dao_admin ==> r == Err::<(), SubDaoError>(SubDaoError::NotAuthorized),
            old(self).main_dao_admin == Some(main_dao_admin) && old(self).permission_of(sub_dao_address) is None
                ==> r == Err::<(), SubDaoError>(SubDaoError::SubDaoNotFound),
            old(self).permission_of(sub_dao_address) matches Some(p) && p.status == SubDaoStatus::Revoked
                && old(self).main_dao_admin == Some(main_dao_admin) ==> r == Err::<(), SubDaoError>(SubDaoError::InvalidState),
            r is Ok <==> old(self).main_dao_admin == Some(main_dao_admin)
                && (old(self).permission_of(sub_dao_address) matches Some(p) && p.status != SubDaoStatus::Revoked),
            r is Err ==> final(self).permissions@ == old(self).permissions@,
            r is Ok ==> final(self).permissions@ == old(self).permissions@.insert(
                sub_dao_address.0,
                SubDaoPermission { status: SubDaoStatus::Suspended, ..old(self).permissions@[sub_dao_address.0] },
            ),
            final(self).departments@ == old(self).departments@,
            final(self).managed@ == old(self).managed@,
            final(self).actions@ == old(self).actions@,
    {
        self.require_main_dao(main_dao_admin)?;
        let status = match self.permissions.get(&sub_dao_address.0) {
            Some(p) => p.status,
            None => return Err(SubDaoError::SubDaoNotFound),
        };
        if status == SubDaoStatus::Revoked {
            return Err(SubDaoError::InvalidState);
        }
        self.set_status(sub_dao_address, SubDaoStatus::Suspended);
        Ok(())
    }

    /// Lifts the suspension of `sub_dao_address` (main DAO only).
    pub fn unsuspend_sub_dao(&mut self, main_dao_admin: Address, sub_dao_address: Address) -> (r: Result<(), SubDaoError>)
        requires
            old(self).wf(),
        ensures
            final(self).wf(),
            old(self).main_dao_admin is None ==> r == Err::<(), SubDaoError>(SubDaoError::NotInitialized),
            old(self).main_dao_admin matches Some(a) && a != main_dao_admin ==> r == Err::<(), SubDaoError>(SubDaoError::NotAuthorized),
            old(self).main_dao_admin == Some(main_dao_admin) && old(self).permission_of(sub_dao_address) is None
                ==> r == Err::<(), SubDaoError>(SubDaoError::SubDaoNotFound),
            old(self).permission_of(sub_dao_address) matches Some(p) && p.status != SubDaoStatus::Suspended
                && old(self).main_dao_admin == Some(main_dao_admin) ==> r == Err::<(), SubDaoError>(SubDaoError::InvalidState),
            r is Ok <==> old(self).main_dao_admin == Some(main_dao_admin)
                && (old(self).permission_of(sub_dao_address) matches Some(p) && p.status == SubDaoStatus::Suspended),
            r is Err ==> final(self).permissions@ == old(self).permissions@,
            r is Ok ==> final(self).permissions@ == old(self).permissions@.insert(
                sub_dao_address.0,
                SubDaoPermission { status: SubDaoStatus::Active, ..old(self).permissions@[sub_dao_address.0] },
            ),
            final(self).departments@ == old(self).departments@,
            final(self).managed@ == old(self).managed@,
            final(self).actions@ == old(self).actions@,
    {
        self.require_main_dao(main_dao_admin)?;
        let status = match self.permissions.get(&sub_dao_address.0) {
            Some(p) => p.status,
            None => return Err(SubDaoError::SubDaoNotFound),
        };
        if status != SubDaoStatus::Suspended {
            return Err(SubDaoError::InvalidState);
        }
        self.set_status(sub_dao_address, SubDaoStatus::Active);
        Ok(())
    }

    /// The permission of `sub_dao_address`.
    pub fn get_sub_dao_permission(&self, sub_dao_address: Address) -> (r: Result<SubDaoPermission, SubDaoError>)
        ensures
            self.permission_of(sub_dao_address) is None ==> r == Err::<SubDaoPermission, SubDaoError>(SubDaoError::SubDaoNotFound),
            self.permission_of(sub_dao_address) matches Some(p) ==> (r matches Ok(q) && same_permission(q, p)),
    {
        match self.permissions.get(&sub_dao_address.0) {
            Some(p) => Ok(p.duplicate()),
            None => Err(SubDaoError::SubDaoNotFound),
        }
    }

    /// Grants `sub_dao_address` manages.
    pub fn get_managed_grants(&self, sub_dao_address: Address) -> (r: Result<Vec<u64>, SubDaoError>)
        ensures
            r matches Ok(v) && v@ == self.managed_of(sub_dao_address),
    {
        match self.managed.get(&sub_dao_address.0) {
            Some(l) => Ok(l.clone()),
            None => Ok(Vec::new()),
        }
    }

    /// The logged action `action_id`.
    pub fn get_action_log(&self, action_id: u64) -> (r: Result<ActionLog, SubDaoError>)
        ensures
            !self.actions@.contains_key(action_id) ==> r == Err::<ActionLog, SubDaoError>(SubDaoError::ActionNotFound),
            self.actions@.contains_key(action_id) ==> r == Ok::<ActionLog, SubDaoError>(self.actions@[action_id]),
    {
        match self.actions.get(&action_id) {
            Some(a) => Ok(a.duplicate()),
            None => Err(SubDaoError::ActionNotFound),
        }
    }

    /// The veto `veto_id`.
    pub fn get_veto_record(&self, veto_id: u64) -> (r: Result<VetoRecord, SubDaoError>)
        ensures
            !self.vetoes@.contains_key(veto_id) ==> r == Err::<VetoRecord, SubDaoError>(SubDaoError::VetoNotFound),
            self.vetoes@.contains_key(veto_id) ==> r == Ok::<VetoRecord, SubDaoError>(self.vetoes@[veto_id]),
    {
        match self.vetoes.get(&veto_id) {
            Some(v) => Ok(v.duplicate()),
            None => Err(SubDaoError::VetoNotFound),
        }
    }

    /// Sub-DAOs of `department`.
    pub fn get_department_sub_daos(&self, department: String) -> (r: Result<Vec<Address>, SubDaoError>)
        requires
            self.wf(),
        ensures
            r matches Ok(v) && v@ == self.department(department@),
    {
        match self.find_department(&department) {
            Some(i) => Ok(self.departments[i].members.clone()),
            None => Ok(Vec::new()),
        }
    }

    /// The Sub-DAO managing `grant_id`, if any.
    pub fn get_grant_manager(&self, grant_id: u64) -> (r: Result<Option<Address>, SubDaoError>)
        ensures
            r == Ok::<Option<Address>, SubDaoError>(
                if self.grant_manager@.contains_key(grant_id) { Some(self.grant_manager@[grant_id]) } else { None },
            ),
    {
        match self.grant_manager.get(&grant_id) {
            Some(a) => Ok(Some(*a)),
            None => Ok(None),
        }
    }
}

/// A Sub-DAO that is not active can take no delegated action, whatever its
/// level and grants.
pub proof fn lemma_inactive_sub_dao_cannot_act(p: SubDaoPermission, managed: Seq<u64>, grant_id: u64, required: PermissionLevel, now: u64)
    requires
        p.status != SubDaoStatus::Active,
    ensures
        action_refusal(Some(p), managed, grant_id, required, now) == Some(SubDaoError::SubDaoSuspended),
{
}

/// A level that allows clawbacks also allows pauses and resumes.
pub proof fn lemma_clawback_includes_pause(p: SubDaoPermission, managed: Seq<u64>, grant_id: u64, now: u64)
    requires
        action_refusal(Some(p), managed, grant_id, PermissionLevel::Clawback, now) is None,
    ensures
        action_refusal(Some(p), managed, grant_id, PermissionLevel::Pause, now) is None,
{
}

} // verus!
