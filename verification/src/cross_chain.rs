//! Cross-chain metadata: grants carry JSON-LD metadata by hash and IPFS CID,
//! and link to their counterparts on other chains.
use vstd::prelude::*;
use std::collections::HashMap;
use vstd::string::StringExecFns;
use vstd::utf8::encode_utf8;
use crate::types::Address;

verus! {

broadcast use vstd::std_specs::hash::group_hash_axioms;

pub const METADATA_VERSION: u32 = 1;
pub const MAX_METADATA_LENGTH: u32 = 5000;
/// Most links of one grant to other chains.
pub const MAX_CROSS_CHAIN_REFERENCES: u32 = 10;
/// Longest IPFS CID, in bytes.
pub const MAX_IPFS_HASH_LENGTH: u32 = 64;
/// Longest chain identifier, in bytes.
pub const MAX_CHAIN_ID_LENGTH: u32 = 32;
/// Longest external identifier, in bytes.
pub const MAX_EXTERNAL_ID_LENGTH: u32 = 64;
/// Longest schema type, in bytes.
pub const MAX_SCHEMA_TYPE_LENGTH: u32 = 100;
/// How long metadata stays valid: 1 year.
pub const METADATA_EXPIRY_SECS: u64 = 31536000;
/// Score from which a validation passes.
pub const VALIDATION_PASS_SCORE: u32 = 70;

/// JSON-LD context of ERC-4337.
pub open spec fn erc4337_context() -> Seq<char> {
    "https://github.com/ethereum/ERCs/blob/master/ERCS/erc-4337.md"@
}

/// JSON-LD context of verifiable credentials.
pub open spec fn jsonld_context() -> Seq<char> {
    "https://www.w3.org/2018/credentials/v1"@
}

/// JSON-LD context of schema.org grants.
pub open spec fn grant_schema_context() -> Seq<char> {
    "https://schema.org/Grant"@
}

/// JSON-LD context of Stellar grants, the one the metadata uses.
pub open spec fn stellar_context() -> Seq<char> {
    "https://stellar.org/contexts/grant"@
}

/// Storage keys of the records.
#[derive(Debug, Clone, PartialEq, Eq)]
pub enum MetadataDataKey {
    GrantMetadata(u64),
    ExternalReference(String, String),
    GlobalMetadataRegistry,
    ChainRegistry(String),
    ValidationCache([u8; 32]),
    SyncStatus(u64),
}

/// Metadata of a grant.
#[derive(Debug, Clone, PartialEq, Eq)]
pub struct GrantMetadata {
    pub grant_id: u64,
    /// SHA-256 of the JSON-LD metadata.
    pub metadata_hash: [u8; 32],
    /// Where the full metadata is stored.
    pub ipfs_cid: String,
    /// JSON-LD context URL.
    pub context: String,
    /// Such as "Grant", "Project" or "Proposal".
    pub schema_type: String,
    pub created_at: u64,
    pub expires_at: u64,
    pub creator: Address,
    pub version: u32,
    pub public: bool,
    pub verified: bool,
}

/// Kind of a link to another chain.
#[derive(Debug, Clone, Copy, PartialEq, Eq, Structural)]
pub enum ReferenceType {
    Contract,
    Transaction,
    Proposal,
    Project,
    Custom,
}

/// A link from a grant to its counterpart on another chain.
#[derive(Debug, Clone, PartialEq, Eq)]
pub struct CrossChainReference {
    /// Such as "ethereum" or "polygon".
    pub chain_id: String,
    pub external_id: String,
    pub reference_type: ReferenceType,
    pub linked_at: u64,
    pub linked_by: Address,
    pub verified: bool,
}

/// The index entry of a grant's metadata.
#[derive(Debug, Clone, PartialEq, Eq)]
pub struct MetadataIndex {
    pub grant_id: u64,
    pub metadata_hash: [u8; 32],
    pub chain_references: Vec<CrossChainReference>,
    pub indexed_at: u64,
    pub index_version: u32,
}

/// Sync state of a chain.
#[derive(Debug, Clone, Copy, PartialEq, Eq, Structural)]
pub enum SyncChainStatus {
    NotSynced,
    Pending,
    Synced,
    Failed,
    VerificationRequired,
}

/// Sync state of a grant across chains.
#[derive(Debug, Clone, PartialEq, Eq)]
pub struct SyncStatus {
    pub grant_id: u64,
    pub synced_chains: Vec<String>,
    pub last_synced: u64,
    pub chain_status: Vec<(String, SyncChainStatus)>,
    pub sync_attempts: u32,
}

/// A validation of metadata.
#[derive(Debug, Clone, PartialEq, Eq)]
pub struct MetadataValidation {
    pub metadata_hash: [u8; 32],
    pub valid: bool,
    pub errors: Vec<String>,
    pub validated_at: u64,
    pub validator: Address,
    /// 0 to 100.
    pub validation_score: u32,
}

/// Errors of the metadata registry.
#[derive(Debug, Clone, Copy, PartialEq, Eq, Structural)]
pub enum MetadataError {
    InvalidMetadataHash,
    InvalidIPFSCid,
    InvalidChainId,
    InvalidExternalId,
    MetadataNotFound,
    MetadataExpired,
    UnauthorizedAccess,
    InvalidJsonLD,
    DuplicateReference,
    ReferenceNotFound,
    ValidationFailed,
    SyncInProgress,
    MaxReferencesExceeded,
    StringTooLong,
    InvalidSchema,
    CrossChainVerificationFailed,
}

/// Length of a string in bytes.
pub open spec fn byte_len(s: String) -> nat {
    encode_utf8(s@).len()
}

/// Length of `s` in bytes.
fn string_byte_len(s: &String) -> (r: usize)
    requires
        byte_len(*s) <= usize::MAX,
    ensures
        r == byte_len(*s),
{
    let st = s.as_str();
    assert(st@ == s@);
    st.len()
}

/// Whether two hashes are equal.
fn same_hash(a: &[u8; 32], b: &[u8; 32]) -> (r: bool)
    ensures
        r == (a@ == b@),
{
    let mut i: usize = 0;
    while i < 32
        invariant
            i <= 32,
            a@.len() == 32,
            b@.len() == 32,
            forall|j: int| 0 <= j < i ==> a@[j] == b@[j],
        decreases 32 - i,
    {
        if a[i] != b[i] {
            return false;
        }
        i = i + 1;
    }
    assert(a@ =~= b@);
    true
}

/// A copy of `s`.
fn copy_string(s: &String) -> (r: String)
    ensures
        r == *s,
{
    s.clone()
}

impl CrossChainReference {
    /// A copy of this link.
    pub fn duplicate(&self) -> (r: Self)
        ensures
            r == *self,
    {
        CrossChainReference {
            chain_id: copy_string(&self.chain_id),
            external_id: copy_string(&self.external_id),
            reference_type: self.reference_type,
            linked_at: self.linked_at,
            linked_by: self.linked_by,
            verified: self.verified,
        }
    }
}

impl GrantMetadata {
    /// A copy of this metadata.
    pub fn duplicate(&self) -> (r: Self)
        ensures
            r == *self,
    {
        GrantMetadata {
            grant_id: self.grant_id,
            metadata_hash: self.metadata_hash,
            ipfs_cid: copy_string(&self.ipfs_cid),
            context: copy_string(&self.context),
            schema_type: copy_string(&self.schema_type),
            created_at: self.created_at,
            expires_at: self.expires_at,
            creator: self.creator,
            version: self.version,
            public: self.public,
            verified: self.verified,
        }
    }
}

/// Copies of `refs`.
fn copy_references(refs: &Vec<CrossChainReference>) -> (r: Vec<CrossChainReference>)
    ensures
        r@ == refs@,
{
    let mut out: Vec<CrossChainReference> = Vec::new();
    let mut i: usize = 0;
    while i < refs.len()
        invariant
            i <= refs@.len(),
            out@ == refs@.take(i as int),
        decreases refs.len() - i,
    {
        out.push(refs[i].duplicate());
        i = i + 1;
        assert(out@ =~= refs@.take(i as int));
    }
    assert(refs@.take(refs@.len() as int) =~= refs@);
    out
}

/// A link to an external record.
pub struct ExternalLink {
    pub chain_id: String,
    pub external_id: String,
    pub grant_id: u64,
}

/// The metadata registry's state.
pub struct CrossChainMetadata {
    pub metadata: HashMap<u64, GrantMetadata>,
    /// Links to external records, each external record linked once.
    pub external_references: Vec<ExternalLink>,
    /// Index entries, in creation order.
    pub registry: Vec<MetadataIndex>,
    /// Each link's chain and grant, in linking order.
    pub chain_registry: Vec<(String, u64)>,
    pub validations: Vec<MetadataValidation>,
}

/// Position of the first index entry of grant `g`, if any.
pub open spec fn index_of(reg: Seq<MetadataIndex>, g: u64) -> Option<int>
    decreases reg.len(),
{
    if reg.len() == 0 {
        None
    } else {
        match index_of(reg.drop_last(), g) {
            Some(i) => Some(i),
            None => if reg.last().grant_id == g { Some(reg.len() - 1) } else { None },
        }
    }
}

/// `index_of` finds the first entry of `g`.
proof fn lemma_index_of(reg: Seq<MetadataIndex>, g: u64)
    ensures
        index_of(reg, g) matches Some(i) ==> 0 <= i < reg.len() && reg[i].grant_id == g
            && forall|j: int| 0 <= j < i ==> reg[j].grant_id != g,
        index_of(reg, g) is None ==> forall|j: int| 0 <= j < reg.len() ==> reg[j].grant_id != g,
    decreases reg.len(),
{
    if reg.len() > 0 {
        let pre = reg.drop_last();
        lemma_index_of(pre, g);
        assert forall|j: int| 0 <= j < pre.len() implies pre[j] == reg[j] by {}
    }
}

/// Whether an external record is linked.
pub open spec fn is_linked(links: Seq<ExternalLink>, chain: Seq<char>, external: Seq<char>) -> bool {
    exists|i: int| 0 <= i < links.len() && (#[trigger] links[i]).chain_id@ == chain && links[i].external_id@ == external
}

impl CrossChainMetadata {
    /// Every metadata record has an index entry.
    pub open spec fn wf(&self) -> bool {
        forall|g: u64| #[trigger] self.metadata@.contains_key(g) ==> index_of(self.registry@, g) is Some
    }

    /// A registry with nothing in it.
    pub fn new() -> (r: Self)
        ensures
            r.wf(),
            r.metadata@ == Map::<u64, GrantMetadata>::empty(),
            r.registry@.len() == 0,
            r.external_references@.len() == 0,
            r.chain_registry@.len() == 0,
            r.validations@.len() == 0,
    {
        CrossChainMetadata {
            metadata: HashMap::new(),
            external_references: Vec::new(),
            registry: Vec::new(),
            chain_registry: Vec::new(),
            validations: Vec::new(),
        }
    }

    /// Metadata of grant `g` as readable at `now`: missing, expired, or the
    /// record.
    pub open spec fn readable(&self, g: u64, now: u64) -> Result<GrantMetadata, MetadataError> {
        if !self.metadata@.contains_key(g) {
            Err(MetadataError::MetadataNotFound)
        } else if now > self.metadata@[g].expires_at {
            Err(MetadataError::MetadataExpired)
        } else {
            Ok(self.metadata@[g])
        }
    }

    /// Metadata of grant `grant_id` at `now`; `MetadataNotFound` if there is
    /// none, `MetadataExpired` once it has expired.
    pub fn get_grant_metadata(&self, grant_id: u64, now: u64) -> (r: Result<&GrantMetadata, MetadataError>)
        ensures
            match self.readable(grant_id, now) {
                Ok(m) => r == Ok::<&GrantMetadata, MetadataError>(&m),
                Err(e) => r == Err::<&GrantMetadata, MetadataError>(e),
            },
    {
        match self.metadata.get(&grant_id) {
            None => Err(MetadataError::MetadataNotFound),
            Some(m) => {
                if now > m.expires_at {
                    Err(MetadataError::MetadataExpired)
                } else {
                    Ok(m)
                }
            },
        }
    }

    /// The index, in creation order.
    pub fn get_global_metadata_registry(&self) -> (r: &Vec<MetadataIndex>)
        ensures
            r@ == self.registry@,
    {
        &self.registry
    }

    /// Whether `chain_id`/`external_id` is linked.
    fn has_link(&self, chain_id: &String, external_id: &String) -> (r: bool)
        ensures
            r == is_linked(self.external_references@, chain_id@, external_id@),
    {
        let mut i: usize = 0;
        while i < self.external_references.len()
            invariant
                i <= self.external_references@.len(),
                forall|j: int| 0 <= j < i ==> !((#[trigger] self.external_references@[j]).chain_id@ == chain_id@
                    && self.external_references@[j].external_id@ == external_id@),
            decreases self.external_references.len() - i,
        {
            let link = &self.external_references[i];
            if link.chain_id == *chain_id && link.external_id == *external_id {
                return true;
            }
            i = i + 1;
        }
        false
    }

    /// Position of the first index entry of grant `g`, if any.
    fn find_index(&self, g: u64) -> (r: Option<usize>)
        ensures
            r matches Some(k) ==> index_of(self.registry@, g) == Some(k as int),
            r is None ==> index_of(self.registry@, g) is None,
            r matches Some(i) ==> i < self.registry@.len() && self.registry@[i as int].grant_id == g,
    {
        proof {
            lemma_index_of(self.registry@, g);
        }
        let mut i: usize = 0;
        while i < self.registry.len()
            invariant
                i <= self.registry@.len(),
                forall|j: int| 0 <= j < i ==> self.registry@[j].grant_id != g,
            decreases self.registry.len() - i,
        {
            if self.registry[i].grant_id == g {
                proof {
                    lemma_index_of(self.registry@, g);
                }
                return Some(i);
            }
            i = i + 1;
        }
        None
    }
}

/// `m` is the metadata created for grant `grant_id` at `now`.
pub open spec fn created_metadata(
    m: GrantMetadata,
    grant_id: u64,
    metadata_hash: [u8; 32],
    ipfs_cid: String,
    schema_type: String,
    creator: Address,
    public: bool,
    now: u64,
) -> bool {
    &&& m.grant_id == grant_id
    &&& m.metadata_hash == metadata_hash
    &&& m.ipfs_cid == ipfs_cid
    &&& m.context@ == stellar_context()
    &&& m.schema_type == schema_type
    &&& m.created_at == now
    &&& m.expires_at == now + METADATA_EXPIRY_SECS
    &&& m.creator == creator
    &&& m.version == METADATA_VERSION
    &&& m.public == public
    &&& !m.verified
}

/// Adding an entry finds it when no earlier one matches.
proof fn lemma_index_of_push(reg: Seq<MetadataIndex>, x: MetadataIndex, g: u64)
    ensures
        index_of(reg.push(x), g) == match index_of(reg, g) {
            Some(i) => Some(i),
            None => if x.grant_id == g { Some(reg.len() as int) } else { None },
        },
{
    assert(reg.push(x).drop_last() =~= reg);
}

/// Entries with unchanged grants are found where they were.
proof fn lemma_index_of_same_grants(a: Seq<MetadataIndex>, b: Seq<MetadataIndex>, g: u64)
    requires
        a.len() == b.len(),
        forall|j: int| 0 <= j < a.len() ==> a[j].grant_id == b[j].grant_id,
    ensures
        index_of(a, g) == index_of(b, g),
    decreases a.len(),
{
    if a.len() > 0 {
        lemma_index_of_same_grants(a.drop_last(), b.drop_last(), g);
    }
}

impl CrossChainMetadata {
    /// The error creating metadata for grant `g` meets, or `None`.
    pub open spec fn creation_error(&self, g: u64, ipfs_cid: String, schema_type: String) -> Option<MetadataError> {
        if byte_len(ipfs_cid) > MAX_IPFS_HASH_LENGTH || byte_len(schema_type) > MAX_SCHEMA_TYPE_LENGTH {
            Some(MetadataError::StringTooLong)
        } else if self.metadata@.contains_key(g) {
            Some(MetadataError::DuplicateReference)
        } else {
            None
        }
    }

    /// Creates, at `now`, JSON-LD metadata for grant `grant_id` in the Stellar
    /// grant context, valid for a year and not yet verified, and indexes it.
    pub fn create_grant_metadata(
        &mut self,
        grant_id: u64,
        metadata_hash: [u8; 32],
        ipfs_cid: String,
        schema_type: String,
        creator: Address,
        public: bool,
        now: u64,
    ) -> (r: Result<(), MetadataError>)
        requires
            old(self).wf(),
            byte_len(ipfs_cid) <= usize::MAX,
            byte_len(schema_type) <= usize::MAX,
            now + METADATA_EXPIRY_SECS <= u64::MAX,
        ensures
            final(self).wf(),
            r is Err <==> old(self).creation_error(grant_id, ipfs_cid, schema_type) is Some,
            r matches Err(e) ==> old(self).creation_error(grant_id, ipfs_cid, schema_type) == Some(e),
            r is Err ==> final(self).metadata@ == old(self).metadata@ && final(self).registry@ == old(self).registry@,
            r is Ok ==> {
                &&& final(self).metadata@.dom() == old(self).metadata@.dom().insert(grant_id)
                &&& created_metadata(final(self).metadata@[grant_id], grant_id, metadata_hash, ipfs_cid, schema_type, creator, public, now)
                &&& forall|g: u64| g != grant_id && #[trigger] old(self).metadata@.contains_key(g)
                    ==> final(self).metadata@[g] == old(self).metadata@[g]
                &&& final(self).registry@.len() == old(self).registry@.len() + 1
                &&& final(self).registry@.drop_last() == old(self).registry@
                &&& final(self).registry@.last().grant_id == grant_id
                &&& final(self).registry@.last().metadata_hash == metadata_hash
                &&& final(self).registry@.last().chain_references@.len() == 0
                &&& final(self).registry@.last().indexed_at == now
                &&& final(self).registry@.last().index_version == METADATA_VERSION
            },
            final(self).external_references@ == old(self).external_references@,
            final(self).chain_registry@ == old(self).chain_registry@,
            final(self).validations@ == old(self).validations@,
    {
        if string_byte_len(&ipfs_cid) > MAX_IPFS_HASH_LENGTH as usize {
            return Err(MetadataError::StringTooLong);
        }
        if string_byte_len(&schema_type) > MAX_SCHEMA_TYPE_LENGTH as usize {
            return Err(MetadataError::StringTooLong);
        }
        if self.metadata.contains_key(&grant_id) {
            return Err(MetadataError::DuplicateReference);
        }
        let metadata = GrantMetadata {
            grant_id,
            metadata_hash,
            ipfs_cid,
            context: String::from_str("https://stellar.org/contexts/grant"),
            schema_type,
            created_at: now,
            expires_at: now + METADATA_EXPIRY_SECS,
            creator,
            version: METADATA_VERSION,
            public,
            verified: false,
        };
        self.metadata.insert(grant_id, metadata);
        let ghost before = self.registry@;
        let index = MetadataIndex {
            grant_id,
            metadata_hash,
            chain_references: Vec::new(),
            indexed_at: now,
            index_version: METADATA_VERSION,
        };
        self.registry.push(index);
        proof {
            assert(self.registry@.drop_last() =~= before);
            assert forall|g: u64| #[trigger] self.metadata@.contains_key(g) implies index_of(self.registry@, g) is Some by {
                lemma_index_of_push(before, self.registry@.last(), g);
                if g != grant_id {
                    assert(old(self).metadata@.contains_key(g));
                }
            }
        }
        Ok(())
    }

    /// The error linking grant `g` to `chain_id`/`external_id` at `now`
    /// meets, or `None`.
    pub open spec fn link_error(&self, g: u64, chain_id: String, external_id: String, now: u64) -> Option<MetadataError> {
        if byte_len(chain_id) > MAX_CHAIN_ID_LENGTH || byte_len(external_id) > MAX_EXTERNAL_ID_LENGTH {
            Some(MetadataError::StringTooLong)
        } else if self.readable(g, now) is Err {
            Some(self.readable(g, now)->Err_0)
        } else if is_linked(self.external_references@, chain_id@, external_id@) {
            Some(MetadataError::DuplicateReference)
        } else if index_of(self.registry@, g) matches Some(i)
            && self.registry@[i].chain_references@.len() >= MAX_CROSS_CHAIN_REFERENCES {
            Some(MetadataError::MaxReferencesExceeded)
        } else {
            None
        }
    }

    /// Links, at `now`, grant `grant_id` to `external_id` on `chain_id`, as
    /// `reference_type`; the link starts unverified. An external record is
    /// linked once, and a grant has at most ten links.
    pub fn add_cross_chain_reference(
        &mut self,
        grant_id: u64,
        chain_id: String,
        external_id: String,
        reference_type: ReferenceType,
        linked_by: Address,
        now: u64,
    ) -> (r: Result<(), MetadataError>)
        requires
            old(self).wf(),
            byte_len(chain_id) <= usize::MAX,
            byte_len(external_id) <= usize::MAX,
        ensures
            final(self).wf(),
            r is Err <==> old(self).link_error(grant_id, chain_id, external_id, now) is Some,
            r matches Err(e) ==> old(self).link_error(grant_id, chain_id, external_id, now) == Some(e),
            r is Err ==> final(self).registry@ == old(self).registry@ && final(self).external_references@
                == old(self).external_references@ && final(self).chain_registry@ == old(self).chain_registry@,
            r is Ok ==> {
                let i = index_of(old(self).registry@, grant_id)->Some_0;
                let idx = old(self).registry@[i];
                let link = CrossChainReference {
                    chain_id,
                    external_id,
                    reference_type,
                    linked_at: now,
                    linked_by,
                    verified: false,
                };
                &&& final(self).registry@ == old(self).registry@.update(i, MetadataIndex {
                    chain_references: final(self).registry@[i].chain_references,
                    ..idx
                })
                &&& final(self).registry@[i].chain_references@ == idx.chain_references@.push(link)
                &&& final(self).external_references@.len() == old(self).external_references@.len() + 1
                &&& final(self).external_references@.drop_last() == old(self).external_references@
                &&& final(self).external_references@.last().chain_id == chain_id
                &&& final(self).external_references@.last().external_id == external_id
                &&& final(self).external_references@.last().grant_id == grant_id
                &&& final(self).chain_registry@ == old(self).chain_registry@.push((chain_id, grant_id))
            },
            final(self).metadata@ == old(self).metadata@,
            final(self).validations@ == old(self).validations@,
    {
        if string_byte_len(&chain_id) > MAX_CHAIN_ID_LENGTH as usize {
            return Err(MetadataError::StringTooLong);
        }
        if string_byte_len(&external_id) > MAX_EXTERNAL_ID_LENGTH as usize {
            return Err(MetadataError::StringTooLong);
        }
        match self.get_grant_metadata(grant_id, now) {
            Err(e) => {
                return Err(e);
            },
            Ok(_) => {},
        }
        if self.has_link(&chain_id, &external_id) {
            return Err(MetadataError::DuplicateReference);
        }
        let position = self.find_index(grant_id);
        let i = position.unwrap();
        if self.registry[i].chain_references.len() >= MAX_CROSS_CHAIN_REFERENCES as usize {
            return Err(MetadataError::MaxReferencesExceeded);
        }
        let link = CrossChainReference {
            chain_id: copy_string(&chain_id),
            external_id: copy_string(&external_id),
            reference_type,
            linked_at: now,
            linked_by,
            verified: false,
        };
        let ghost before = self.registry@;
        let mut idx = self.registry.remove(i);
        idx.chain_references.push(link);
        self.registry.insert(i, idx);
        proof {
            assert(self.registry@ =~= before.update(i as int, self.registry@[i as int]));
            assert forall|g: u64| #[trigger] self.metadata@.contains_key(g) implies index_of(self.registry@, g) is Some by {
                lemma_index_of_same_grants(before, self.registry@, g);
            }
        }
        self.external_references.push(ExternalLink {
            chain_id: copy_string(&chain_id),
            external_id,
            grant_id,
        });
        self.chain_registry.push((chain_id, grant_id));
        Ok(())
    }

    /// Links of grant `grant_id` to other chains, in order.
    pub fn get_cross_chain_references(&self, grant_id: u64) -> (r: Result<Vec<CrossChainReference>, MetadataError>)
        ensures
            r matches Ok(v) && v@ == match index_of(self.registry@, grant_id) {
                Some(i) => self.registry@[i].chain_references@,
                None => Seq::empty(),
            },
    {
        match self.find_index(grant_id) {
            Some(i) => Ok(copy_references(&self.registry[i].chain_references)),
            None => Ok(Vec::new()),
        }
    }
}

/// Position of the first link of `refs` to `chain`/`external`, if any.
pub open spec fn link_position(refs: Seq<CrossChainReference>, chain: Seq<char>, external: Seq<char>) -> Option<int>
    decreases refs.len(),
{
    if refs.len() == 0 {
        None
    } else {
        match link_position(refs.drop_last(), chain, external) {
            Some(i) => Some(i),
            None => if refs.last().chain_id@ == chain && refs.last().external_id@ == external {
                Some(refs.len() - 1)
            } else {
                None
            },
        }
    }
}

/// `link_position` finds the first matching link.
proof fn lemma_link_position(refs: Seq<CrossChainReference>, chain: Seq<char>, external: Seq<char>)
    ensures
        link_position(refs, chain, external) matches Some(i) ==> 0 <= i < refs.len() && refs[i].chain_id@ == chain
            && refs[i].external_id@ == external && forall|j: int| 0 <= j < i ==> !(refs[j].chain_id@ == chain
            && refs[j].external_id@ == external),
        link_position(refs, chain, external) is None ==> forall|j: int| 0 <= j < refs.len() ==> !(refs[j].chain_id@ == chain
            && refs[j].external_id@ == external),
    decreases refs.len(),
{
    if refs.len() > 0 {
        let pre = refs.drop_last();
        lemma_link_position(pre, chain, external);
        assert forall|j: int| 0 <= j < pre.len() implies pre[j] == refs[j] by {}
    }
}

/// Grants linked to `chain`, in linking order.
pub open spec fn chain_grants(links: Seq<(String, u64)>, chain: Seq<char>) -> Seq<u64>
    decreases links.len(),
{
    if links.len() == 0 {
        Seq::empty()
    } else {
        let rest = chain_grants(links.drop_last(), chain);
        if links.last().0@ == chain { rest.push(links.last().1) } else { rest }
    }
}

/// Position of the validation of `hash`, if any.
pub open spec fn validation_position(vals: Seq<MetadataValidation>, hash: [u8; 32]) -> Option<int>
    decreases vals.len(),
{
    if vals.len() == 0 {
        None
    } else {
        match validation_position(vals.drop_last(), hash) {
            Some(i) => Some(i),
            None => if vals.last().metadata_hash@ == hash@ { Some(vals.len() - 1) } else { None },
        }
    }
}

/// `validation_position` finds the first validation of the hash.
proof fn lemma_validation_position(vals: Seq<MetadataValidation>, hash: [u8; 32])
    ensures
        validation_position(vals, hash) matches Some(i) ==> 0 <= i < vals.len() && vals[i].metadata_hash@ == hash@
            && forall|j: int| 0 <= j < i ==> vals[j].metadata_hash@ != hash@,
        validation_position(vals, hash) is None ==> forall|j: int| 0 <= j < vals.len() ==> vals[j].metadata_hash@ != hash@,
    decreases vals.len(),
{
    if vals.len() > 0 {
        let pre = vals.drop_last();
        lemma_validation_position(pre, hash);
        assert forall|j: int| 0 <= j < pre.len() implies pre[j] == vals[j] by {}
    }
}

impl CrossChainMetadata {
    /// Records whether the link of grant `grant_id` to `external_id` on
    /// `chain_id` is `verified`; `ReferenceNotFound` if that external record
    /// is not linked.
    pub fn verify_cross_chain_reference(
        &mut self,
        grant_id: u64,
        chain_id: String,
        external_id: String,
        verifier: Address,
        verified: bool,
    ) -> (r: Result<(), MetadataError>)
        requires
            old(self).wf(),
        ensures
            final(self).wf(),
            r is Err <==> !is_linked(old(self).external_references@, chain_id@, external_id@),
            r is Err ==> r == Err::<(), MetadataError>(MetadataError::ReferenceNotFound)
                && final(self).registry@ == old(self).registry@,
            r is Ok ==> match index_of(old(self).registry@, grant_id) {
                Some(i) => match link_position(old(self).registry@[i].chain_references@, chain_id@, external_id@) {
                    Some(j) => {
                        let idx = old(self).registry@[i];
                        let link = idx.chain_references@[j];
                        &&& final(self).registry@ == old(self).registry@.update(i, MetadataIndex {
                            chain_references: final(self).registry@[i].chain_references,
                            ..idx
                        })
                        &&& final(self).registry@[i].chain_references@ == idx.chain_references@.update(
                            j,
                            CrossChainReference { verified, ..link },
                        )
                    },
                    None => final(self).registry@ == old(self).registry@,
                },
                None => final(self).registry@ == old(self).registry@,
            },
            final(self).metadata@ == old(self).metadata@,
            final(self).external_references@ == old(self).external_references@,
            final(self).chain_registry@ == old(self).chain_registry@,
            final(self).validations@ == old(self).validations@,
    {
        if !self.has_link(&chain_id, &external_id) {
            return Err(MetadataError::ReferenceNotFound);
        }
        if let Some(i) = self.find_index(grant_id) {
            let ghost refs = self.registry@[i as int].chain_references@;
            proof {
                lemma_link_position(refs, chain_id@, external_id@);
            }
            let mut j: usize = 0;
            let n = self.registry[i].chain_references.len();
            while j < n
                invariant
                    i < self.registry@.len(),
                    refs == self.registry@[i as int].chain_references@,
                    n == refs.len(),
                    j <= n,
                    forall|t: int| 0 <= t < j ==> !(refs[t].chain_id@ == chain_id@ && refs[t].external_id@ == external_id@),
                    self.registry@ == old(self).registry@,
                    self.metadata@ == old(self).metadata@,
                    self.external_references@ == old(self).external_references@,
                    self.chain_registry@ == old(self).chain_registry@,
                    self.validations@ == old(self).validations@,
                    old(self).wf(),
                    is_linked(old(self).external_references@, chain_id@, external_id@),
                    index_of(old(self).registry@, grant_id) == Some(i as int),
                decreases n - j,
            {
                let matches = self.registry[i].chain_references[j].chain_id == chain_id
                    && self.registry[i].chain_references[j].external_id == external_id;
                if matches {
                    proof {
                        lemma_link_position(refs, chain_id@, external_id@);
                    }
                    let ghost before = self.registry@;
                    let mut idx = self.registry.remove(i);
                    let mut link = idx.chain_references.remove(j);
                    link.verified = verified;
                    idx.chain_references.insert(j, link);
                    self.registry.insert(i, idx);
                    proof {
                        assert(self.registry@[i as int].chain_references@ =~= refs.update(
                            j as int,
                            CrossChainReference { verified, ..refs[j as int] },
                        ));
                        assert(self.registry@ =~= before.update(i as int, self.registry@[i as int]));
                        assert forall|g: u64| #[trigger] self.metadata@.contains_key(g) implies index_of(self.registry@, g) is Some by {
                            lemma_index_of_same_grants(before, self.registry@, g);
                        }
                    }
                    return Ok(());
                }
                j = j + 1;
            }
        }
        Ok(())
    }

    /// Grants linked to `chain_id`, in linking order.
    pub fn get_chain_registry(&self, chain_id: &String) -> (r: Vec<u64>)
        ensures
            r@ == chain_grants(self.chain_registry@, chain_id@),
    {
        let mut out: Vec<u64> = Vec::new();
        let mut i: usize = 0;
        while i < self.chain_registry.len()
            invariant
                i <= self.chain_registry@.len(),
                out@ == chain_grants(self.chain_registry@.take(i as int), chain_id@),
            decreases self.chain_registry.len() - i,
        {
            assert(self.chain_registry@.take(i + 1).drop_last() =~= self.chain_registry@.take(i as int));
            if self.chain_registry[i].0 == *chain_id {
                out.push(self.chain_registry[i].1);
            }
            i = i + 1;
        }
        assert(self.chain_registry@.take(self.chain_registry@.len() as int) =~= self.chain_registry@);
        out
    }

    /// Grants linked to `chain_id`, in linking order, for indexers of that
    /// chain.
    pub fn get_grants_by_chain(&self, chain_id: String) -> (r: Vec<u64>)
        ensures
            r@ == chain_grants(self.chain_registry@, chain_id@),
    {
        self.get_chain_registry(&chain_id)
    }

    /// Records at `now` `validator`'s validation of the metadata with
    /// `metadata_hash`: it passes with a score of at least 70. A later
    /// validation of the same metadata replaces the earlier one.
    pub fn validate_metadata(
        &mut self,
        metadata_hash: [u8; 32],
        validator: Address,
        validation_score: u32,
        errors: Vec<String>,
        now: u64,
    ) -> (r: Result<(), MetadataError>)
        requires
            old(self).wf(),
        ensures
            final(self).wf(),
            r is Ok,
            ({
                let v = MetadataValidation {
                    metadata_hash,
                    valid: validation_score >= VALIDATION_PASS_SCORE,
                    errors,
                    validated_at: now,
                    validator,
                    validation_score,
                };
                final(self).validations@ == match validation_position(old(self).validations@, metadata_hash) {
                    Some(i) => old(self).validations@.update(i, v),
                    None => old(self).validations@.push(v),
                }
            }),
            final(self).metadata@ == old(self).metadata@,
            final(self).registry@ == old(self).registry@,
            final(self).external_references@ == old(self).external_references@,
            final(self).chain_registry@ == old(self).chain_registry@,
    {
        let validation = MetadataValidation {
            metadata_hash,
            valid: validation_score >= VALIDATION_PASS_SCORE,
            errors,
            validated_at: now,
            validator,
            validation_score,
        };
        proof {
            lemma_validation_position(self.validations@, metadata_hash);
        }
        let mut i: usize = 0;
        while i < self.validations.len()
            invariant
                i <= self.validations@.len(),
                self.validations@ == old(self).validations@,
                self.metadata@ == old(self).metadata@,
                self.registry@ == old(self).registry@,
                self.external_references@ == old(self).external_references@,
                self.chain_registry@ == old(self).chain_registry@,
                old(self).wf(),
                validation == (MetadataValidation {
                    metadata_hash,
                    valid: validation_score >= VALIDATION_PASS_SCORE,
                    errors,
                    validated_at: now,
                    validator,
                    validation_score,
                }),
                forall|j: int| 0 <= j < i ==> self.validations@[j].metadata_hash@ != metadata_hash@,
            decreases self.validations.len() - i,
        {
            if same_hash(&self.validations[i].metadata_hash, &metadata_hash) {
                proof {
                    lemma_validation_position(self.validations@, metadata_hash);
                }
                let ghost before = self.validations@;
                self.validations.remove(i);
                self.validations.insert(i, validation);
                assert(self.validations@ =~= before.update(i as int, self.validations@[i as int]));
                return Ok(());
            }
            i = i + 1;
        }
        self.validations.push(validation);
        Ok(())
    }

    /// The validation of the metadata with `metadata_hash`, if any.
    pub fn get_metadata_validation(&self, metadata_hash: [u8; 32]) -> (r: Option<&MetadataValidation>)
        ensures
            match validation_position(self.validations@, metadata_hash) {
                Some(i) => r == Some(&self.validations@[i]),
                None => r is None,
            },
    {
        proof {
            lemma_validation_position(self.validations@, metadata_hash);
        }
        let mut i: usize = 0;
        while i < self.validations.len()
            invariant
                i <= self.validations@.len(),
                forall|j: int| 0 <= j < i ==> self.validations@[j].metadata_hash@ != metadata_hash@,
            decreases self.validations.len() - i,
        {
            if same_hash(&self.validations[i].metadata_hash, &metadata_hash) {
                proof {
                    lemma_validation_position(self.validations@, metadata_hash);
                }
                return Some(&self.validations[i]);
            }
            i = i + 1;
        }
        None
    }
}

/// Whether metadata `m` is returned by a search for `schema_type` at `now`:
/// only public metadata is ever returned, of the schema if one is given, and
/// verified if asked.
pub open spec fn search_match(m: GrantMetadata, schema_type: Option<String>, verified_only: bool, public_only: bool) -> bool {
    &&& m.public
    &&& schema_type matches Some(t) ==> m.schema_type@ == t@
    &&& verified_only ==> m.verified
    &&& public_only ==> m.public
}

impl CrossChainMetadata {
    /// The results of a search over the index entries `reg`, at most `limit`.
    pub open spec fn search_results(
        &self,
        reg: Seq<MetadataIndex>,
        schema_type: Option<String>,
        verified_only: bool,
        public_only: bool,
        limit: u32,
        now: u64,
    ) -> Seq<GrantMetadata>
        decreases reg.len(),
    {
        if reg.len() == 0 {
            Seq::empty()
        } else {
            let found = self.search_results(reg.drop_last(), schema_type, verified_only, public_only, limit, now);
            let g = reg.last().grant_id;
            if found.len() < limit && self.readable(g, now) is Ok && search_match(
                self.metadata@[g],
                schema_type,
                verified_only,
                public_only,
            ) {
                found.push(self.metadata@[g])
            } else {
                found
            }
        }
    }

    /// The error updating grant `g`'s metadata meets, or `None`.
    pub open spec fn update_error(&self, g: u64, new_ipfs_cid: String, updater: Address, now: u64) -> Option<MetadataError> {
        if self.readable(g, now) is Err {
            Some(self.readable(g, now)->Err_0)
        } else if self.metadata@[g].creator != updater {
            Some(MetadataError::UnauthorizedAccess)
        } else if byte_len(new_ipfs_cid) > MAX_IPFS_HASH_LENGTH {
            Some(MetadataError::StringTooLong)
        } else {
            None
        }
    }

    /// Replaces, at `now`, the hash and CID of grant `grant_id`'s metadata;
    /// only its creator may. The metadata gets a new version and another year
    /// of validity, and its index entry follows.
    pub fn update_metadata(
        &mut self,
        grant_id: u64,
        new_metadata_hash: [u8; 32],
        new_ipfs_cid: String,
        updater: Address,
        now: u64,
    ) -> (r: Result<(), MetadataError>)
        requires
            old(self).wf(),
            byte_len(new_ipfs_cid) <= usize::MAX,
            now + METADATA_EXPIRY_SECS <= u64::MAX,
            old(self).metadata@.contains_key(grant_id) ==> old(self).metadata@[grant_id].version < u32::MAX,
            index_of(old(self).registry@, grant_id) matches Some(i) ==> old(self).registry@[i].index_version < u32::MAX,
        ensures
            final(self).wf(),
            r is Err <==> old(self).update_error(grant_id, new_ipfs_cid, updater, now) is Some,
            r matches Err(e) ==> old(self).update_error(grant_id, new_ipfs_cid, updater, now) == Some(e),
            r is Err ==> final(self).metadata@ == old(self).metadata@ && final(self).registry@ == old(self).registry@,
            r is Ok ==> {
                let m = old(self).metadata@[grant_id];
                let i = index_of(old(self).registry@, grant_id)->Some_0;
                let idx = old(self).registry@[i];
                &&& final(self).metadata@ == old(self).metadata@.insert(grant_id, GrantMetadata {
                    metadata_hash: new_metadata_hash,
                    ipfs_cid: new_ipfs_cid,
                    version: (m.version + 1) as u32,
                    expires_at: (now + METADATA_EXPIRY_SECS) as u64,
                    ..m
                })
                &&& final(self).registry@ == old(self).registry@.update(i, MetadataIndex {
                    metadata_hash: new_metadata_hash,
                    indexed_at: now,
                    index_version: (idx.index_version + 1) as u32,
                    ..idx
                })
            },
            final(self).external_references@ == old(self).external_references@,
            final(self).chain_registry@ == old(self).chain_registry@,
            final(self).validations@ == old(self).validations@,
    {
        match self.get_grant_metadata(grant_id, now) {
            Err(e) => {
                return Err(e);
            },
            Ok(m) => {
                if m.creator != updater {
                    return Err(MetadataError::UnauthorizedAccess);
                }
            },
        }
        if string_byte_len(&new_ipfs_cid) > MAX_IPFS_HASH_LENGTH as usize {
            return Err(MetadataError::StringTooLong);
        }
        let mut m = self.metadata.remove(&grant_id).unwrap();
        m.metadata_hash = new_metadata_hash;
        m.ipfs_cid = new_ipfs_cid;
        m.version = m.version + 1;
        m.expires_at = now + METADATA_EXPIRY_SECS;
        self.metadata.insert(grant_id, m);
        let i = self.find_index(grant_id).unwrap();
        let ghost before = self.registry@;
        let mut idx = self.registry.remove(i);
        idx.metadata_hash = new_metadata_hash;
        idx.indexed_at = now;
        idx.index_version = idx.index_version + 1;
        self.registry.insert(i, idx);
        proof {
            assert(self.metadata@.dom() =~= old(self).metadata@.dom());
            assert(self.registry@ =~= before.update(i as int, self.registry@[i as int]));
            assert forall|g: u64| #[trigger] self.metadata@.contains_key(g) implies index_of(self.registry@, g) is Some by {
                lemma_index_of_same_grants(before, self.registry@, g);
            }
        }
        Ok(())
    }

    /// Public metadata, in index order, at most `limit`, of schema
    /// `schema_type` if given and verified if `verified_only`.
    pub fn search_metadata(
        &self,
        schema_type: Option<String>,
        verified_only: bool,
        public_only: bool,
        limit: u32,
        now: u64,
    ) -> (r: Vec<GrantMetadata>)
        ensures
            r@ == self.search_results(self.registry@, schema_type, verified_only, public_only, limit, now),
    {
        let mut results: Vec<GrantMetadata> = Vec::new();
        let mut count: u32 = 0;
        let mut i: usize = 0;
        while i < self.registry.len()
            invariant
                i <= self.registry@.len(),
                results@ == self.search_results(self.registry@.take(i as int), schema_type, verified_only, public_only, limit, now),
                count as int == results@.len(),
                count <= limit,
            decreases self.registry.len() - i,
        {
            assert(self.registry@.take(i + 1).drop_last() =~= self.registry@.take(i as int));
            if count >= limit {
                proof {
                    lemma_search_saturated(self, self.registry@, i as int, schema_type, verified_only, public_only, limit, now);
                }
                return results;
            }
            let g = self.registry[i].grant_id;
            if let Ok(m) = self.get_grant_metadata(g, now) {
                let schema_ok = match &schema_type {
                    Some(t) => m.schema_type == *t,
                    None => true,
                };
                if m.public && schema_ok && (!verified_only || m.verified) && (!public_only || m.public) {
                    results.push(m.duplicate());
                    count = count + 1;
                }
            }
            i = i + 1;
        }
        assert(self.registry@.take(self.registry@.len() as int) =~= self.registry@);
        results
    }
}

/// Once a search has `limit` results, later entries add none.
proof fn lemma_search_saturated(
    reg_owner: &CrossChainMetadata,
    reg: Seq<MetadataIndex>,
    i: int,
    schema_type: Option<String>,
    verified_only: bool,
    public_only: bool,
    limit: u32,
    now: u64,
)
    requires
        0 <= i <= reg.len(),
        reg_owner.search_results(reg.take(i), schema_type, verified_only, public_only, limit, now).len() >= limit,
    ensures
        reg_owner.search_results(reg, schema_type, verified_only, public_only, limit, now)
            == reg_owner.search_results(reg.take(i), schema_type, verified_only, public_only, limit, now),
    decreases reg.len() - i,
{
    if i < reg.len() {
        assert(reg.take(i + 1).drop_last() =~= reg.take(i));
        lemma_search_saturated(reg_owner, reg, i + 1, schema_type, verified_only, public_only, limit, now);
    } else {
        assert(reg.take(i) =~= reg);
    }
}

/// The chains of every link of the entries `reg`, in order.
pub open spec fn linked_chains(reg: Seq<MetadataIndex>) -> Seq<Seq<char>>
    decreases reg.len(),
{
    if reg.len() == 0 {
        Seq::empty()
    } else {
        linked_chains(reg.drop_last()) + reg.last().chain_references@.map_values(|r: CrossChainReference| r.chain_id@)
    }
}

/// The views of `strings`.
pub open spec fn views(strings: Seq<String>) -> Seq<Seq<char>> {
    strings.map_values(|s: String| s@)
}

impl CrossChainMetadata {
    /// Entries of `reg` whose metadata is readable at `now` and satisfies
    /// `flag`: verified when `verified` is set, public otherwise.
    pub open spec fn flagged_count(&self, reg: Seq<MetadataIndex>, now: u64, verified: bool) -> int
        decreases reg.len(),
    {
        if reg.len() == 0 {
            0
        } else {
            let g = reg.last().grant_id;
            self.flagged_count(reg.drop_last(), now, verified) + if self.readable(g, now) is Ok && (if verified {
                self.metadata@[g].verified
            } else {
                self.metadata@[g].public
            }) {
                1int
            } else {
                0int
            }
        }
    }

    /// Totals over the index at `now`: entries, entries with verified
    /// metadata, entries with public metadata, and distinct chains linked.
    pub fn get_metadata_statistics(&self, now: u64) -> (r: (u64, u64, u64, u64))
        ensures
            r.0 == self.registry@.len(),
            r.1 == self.flagged_count(self.registry@, now, true),
            r.2 == self.flagged_count(self.registry@, now, false),
            r.3 == linked_chains(self.registry@).to_set().len(),
    {
        let mut total: u64 = 0;
        let mut verified: u64 = 0;
        let mut public: u64 = 0;
        let mut seen: Vec<String> = Vec::new();
        let mut i: usize = 0;
        while i < self.registry.len()
            invariant
                i <= self.registry@.len(),
                total == i,
                verified == self.flagged_count(self.registry@.take(i as int), now, true),
                public == self.flagged_count(self.registry@.take(i as int), now, false),
                verified <= i,
                public <= i,
                views(seen@).no_duplicates(),
                views(seen@).to_set() == linked_chains(self.registry@.take(i as int)).to_set(),
            decreases self.registry.len() - i,
        {
            assert(self.registry@.take(i + 1).drop_last() =~= self.registry@.take(i as int));
            let g = self.registry[i].grant_id;
            total = total + 1;
            if let Ok(m) = self.get_grant_metadata(g, now) {
                if m.verified {
                    verified = verified + 1;
                }
                if m.public {
                    public = public + 1;
                }
            }
            let refs = &self.registry[i].chain_references;
            let ghost done = linked_chains(self.registry@.take(i as int));
            let ghost chains = refs@.map_values(|r: CrossChainReference| r.chain_id@);
            let mut j: usize = 0;
            while j < refs.len()
                invariant
                    j <= refs@.len(),
                    chains == refs@.map_values(|r: CrossChainReference| r.chain_id@),
                    views(seen@).no_duplicates(),
                    views(seen@).to_set() == (done + chains.take(j as int)).to_set(),
                decreases refs.len() - j,
            {
                let c = &refs[j].chain_id;
                let mut found = false;
                let mut k: usize = 0;
                while k < seen.len()
                    invariant
                        k <= seen@.len(),
                        !found ==> forall|t: int| 0 <= t < k ==> seen@[t]@ != c@,
                        found ==> views(seen@).contains(c@),
                    decreases seen.len() - k,
                {
                    if seen[k] == *c {
                        found = true;
                        assert(views(seen@)[k as int] == c@);
                    }
                    k = k + 1;
                }
                let ghost before = seen@;
                proof {
                    assert((done + chains.take(j + 1)) =~= (done + chains.take(j as int)).push(c@));
                }
                if !found {
                    seen.push(copy_string(c));
                    proof {
                        assert(views(seen@) =~= views(before).push(c@));
                        assert(!views(before).contains(c@)) by {
                            if views(before).contains(c@) {
                                let t = choose|t: int| 0 <= t < views(before).len() && views(before)[t] == c@;
                                assert(before[t]@ == c@);
                            }
                        }
                        assert forall|x: Seq<char>| views(seen@).contains(x) <==> (done + chains.take(j + 1)).contains(x) by {
                            broadcast use vstd::seq_lib::group_seq_properties;
                            assert(views(before).to_set().contains(x) == (done + chains.take(j as int)).to_set().contains(x));
                        }
                        assert(views(seen@).to_set() =~= (done + chains.take(j + 1)).to_set());
                    }
                } else {
                    proof {
                        assert forall|x: Seq<char>| views(seen@).contains(x) <==> (done + chains.take(j + 1)).contains(x) by {
                            broadcast use vstd::seq_lib::group_seq_properties;
                            assert(views(before).to_set().contains(x) == (done + chains.take(j as int)).to_set().contains(x));
                            assert(views(before).to_set().contains(c@) == (done + chains.take(j as int)).to_set().contains(c@));
                        }
                        assert(views(seen@).to_set() =~= (done + chains.take(j + 1)).to_set());
                    }
                }
                j = j + 1;
            }
            proof {
                assert(chains.take(refs@.len() as int) =~= chains);
                assert(linked_chains(self.registry@.take(i + 1)) =~= done + chains);
            }
            i = i + 1;
        }
        assert(self.registry@.take(self.registry@.len() as int) =~= self.registry@);
        proof {
            views(seen@).unique_seq_to_set();
        }
        (total, verified, public, seen.len() as u64)
    }
}

} // verus!
