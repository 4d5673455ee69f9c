//! The records the protocol keeps and the store that holds them.

use vstd::prelude::*;

use crate::bytes::copy_bytes;
use crate::table::Table;

verus! {

/// An account or contract address, held as the XDR encoding of its
/// `ScVal::Address`, which identifies it and is what the protocol hashes.
#[derive(Clone, Debug)]
pub struct Address {
    pub xdr: Vec<u8>,
}

impl View for Address {
    type V = Seq<u8>;

    open spec fn view(&self) -> Seq<u8> {
        self.xdr@
    }
}

impl Address {
    /// An address with the given XDR encoding.
    pub fn from_xdr(xdr: Vec<u8>) -> (a: Address)
        ensures
            a@ == xdr@,
    {
        Address { xdr }
    }

    /// A copy of this address.
    pub fn copied(&self) -> (a: Address)
        ensures
            a@ == self@,
    {
        Address { xdr: copy_bytes(self.xdr.as_slice()) }
    }

    /// The XDR encoding of this address.
    pub fn as_bytes(&self) -> (r: &[u8])
        ensures
            r@ == self@,
    {
        self.xdr.as_slice()
    }
}

/// The view of an optional address.
pub open spec fn opt_address_view(a: Option<Address>) -> Option<Seq<u8>> {
    match a {
        Some(x) => Some(x@),
        None => None,
    }
}

/// A copy of an optional address.
pub fn copy_opt_address(a: &Option<Address>) -> (r: Option<Address>)
    ensures
        opt_address_view(r) == opt_address_view(*a),
{
    match a {
        Some(x) => Some(x.copied()),
        None => None,
    }
}

/// A registered schema.
#[derive(Clone, Debug)]
pub struct Schema {
    pub authority: Address,
    pub definition: Vec<u8>,
    pub resolver: Option<Address>,
    pub revocable: bool,
}

pub struct SchemaView {
    pub authority: Seq<u8>,
    pub definition: Seq<u8>,
    pub resolver: Option<Seq<u8>>,
    pub revocable: bool,
}

impl View for Schema {
    type V = SchemaView;

    open spec fn view(&self) -> SchemaView {
        SchemaView {
            authority: self.authority@,
            definition: self.definition@,
            resolver: opt_address_view(self.resolver),
            revocable: self.revocable,
        }
    }
}

impl Schema {
    /// A copy of this schema.
    pub fn copied(&self) -> (s: Schema)
        ensures
            s@ == self@,
    {
        Schema {
            authority: self.authority.copied(),
            definition: copy_bytes(self.definition.as_slice()),
            resolver: copy_opt_address(&self.resolver),
            revocable: self.revocable,
        }
    }
}

/// A BLS12-381 public key registered by an attester.
#[derive(Clone, Copy, Debug)]
pub struct BlsPublicKey {
    /// An uncompressed G2 point.
    pub key: [u8; 192],
    /// The ledger time of the registration.
    pub registered_at: u64,
}

pub struct BlsPublicKeyView {
    pub key: Seq<u8>,
    pub registered_at: u64,
}

impl View for BlsPublicKey {
    type V = BlsPublicKeyView;

    open spec fn view(&self) -> BlsPublicKeyView {
        BlsPublicKeyView { key: self.key@, registered_at: self.registered_at }
    }
}

/// An attestation made by an attester about a subject under a schema.
#[derive(Clone, Debug)]
pub struct Attestation {
    pub uid: [u8; 32],
    pub schema_uid: [u8; 32],
    pub subject: Address,
    pub attester: Address,
    pub value: Vec<u8>,
    pub nonce: u64,
    pub timestamp: u64,
    pub expiration_time: Option<u64>,
    pub revoked: bool,
    pub revocation_time: Option<u64>,
}

pub struct AttestationView {
    pub uid: Seq<u8>,
    pub schema_uid: Seq<u8>,
    pub subject: Seq<u8>,
    pub attester: Seq<u8>,
    pub value: Seq<u8>,
    pub nonce: u64,
    pub timestamp: u64,
    pub expiration_time: Option<u64>,
    pub revoked: bool,
    pub revocation_time: Option<u64>,
}

impl View for Attestation {
    type V = AttestationView;

    open spec fn view(&self) -> AttestationView {
        AttestationView {
            uid: self.uid@,
            schema_uid: self.schema_uid@,
            subject: self.subject@,
            attester: self.attester@,
            value: self.value@,
            nonce: self.nonce,
            timestamp: self.timestamp,
            expiration_time: self.expiration_time,
            revoked: self.revoked,
            revocation_time: self.revocation_time,
        }
    }
}

impl Attestation {
    /// A copy of this attestation.
    pub fn copied(&self) -> (a: Attestation)
        ensures
            a@ == self@,
    {
        Attestation {
            uid: self.uid,
            schema_uid: self.schema_uid,
            subject: self.subject.copied(),
            attester: self.attester.copied(),
            value: copy_bytes(self.value.as_slice()),
            nonce: self.nonce,
            timestamp: self.timestamp,
            expiration_time: self.expiration_time,
            revoked: self.revoked,
            revocation_time: self.revocation_time,
        }
    }
}

/// Limits on schema registration.
#[derive(Clone, Copy, Debug, PartialEq, Eq, Structural)]
pub struct SchemaRegistrationConfig {
    pub max_schemas_per_address: u32,
    pub max_definition_size: u32,
}

/// The limits that hold until the admin sets others.
pub open spec fn default_schema_config() -> SchemaRegistrationConfig {
    SchemaRegistrationConfig { max_schemas_per_address: 10, max_definition_size: 4096 }
}

impl Default for SchemaRegistrationConfig {
    fn default() -> (c: Self)
        ensures
            c == default_schema_config(),
    {
        SchemaRegistrationConfig { max_schemas_per_address: 10, max_definition_size: 4096 }
    }
}

/// An attestation signed off-chain by its attester, submitted by anyone.
#[derive(Clone, Debug)]
pub struct DelegatedAttestationRequest {
    pub schema_uid: [u8; 32],
    pub subject: Address,
    pub attester: Address,
    pub value: Vec<u8>,
    pub nonce: u64,
    pub deadline: u64,
    pub expiration_time: Option<u64>,
    /// An uncompressed G1 point.
    pub signature: [u8; 96],
}

pub struct AttestationRequestView {
    pub schema_uid: Seq<u8>,
    pub subject: Seq<u8>,
    pub attester: Seq<u8>,
    pub value: Seq<u8>,
    pub nonce: u64,
    pub deadline: u64,
    pub expiration_time: Option<u64>,
    pub signature: Seq<u8>,
}

impl View for DelegatedAttestationRequest {
    type V = AttestationRequestView;

    open spec fn view(&self) -> AttestationRequestView {
        AttestationRequestView {
            schema_uid: self.schema_uid@,
            subject: self.subject@,
            attester: self.attester@,
            value: self.value@,
            nonce: self.nonce,
            deadline: self.deadline,
            expiration_time: self.expiration_time,
            signature: self.signature@,
        }
    }
}

/// A revocation signed off-chain by the attester, submitted by anyone.
#[derive(Clone, Debug)]
pub struct DelegatedRevocationRequest {
    pub attestation_uid: [u8; 32],
    pub schema_uid: [u8; 32],
    pub subject: Address,
    pub revoker: Address,
    pub nonce: u64,
    pub deadline: u64,
    /// An uncompressed G1 point.
    pub signature: [u8; 96],
}

pub struct RevocationRequestView {
    pub attestation_uid: Seq<u8>,
    pub schema_uid: Seq<u8>,
    pub subject: Seq<u8>,
    pub revoker: Seq<u8>,
    pub nonce: u64,
    pub deadline: u64,
    pub signature: Seq<u8>,
}

impl View for DelegatedRevocationRequest {
    type V = RevocationRequestView;

    open spec fn view(&self) -> RevocationRequestView {
        RevocationRequestView {
            attestation_uid: self.attestation_uid@,
            schema_uid: self.schema_uid@,
            subject: self.subject@,
            revoker: self.revoker@,
            nonce: self.nonce,
            deadline: self.deadline,
            signature: self.signature@,
        }
    }
}

/// Everything the protocol keeps between calls.
pub struct ProtocolStore {
    admin: Option<Address>,
    schema_config: Option<SchemaRegistrationConfig>,
    schemas: Table<Schema>,
    schema_counts: Table<u32>,
    nonces: Table<u64>,
    bls_keys: Table<BlsPublicKey>,
    attestations: Table<Attestation>,
}

/// The contents of a store, keyed by schema uid, address or attestation uid.
pub struct StoreView {
    pub admin: Option<Seq<u8>>,
    pub schema_config: Option<SchemaRegistrationConfig>,
    pub schemas: Map<Seq<u8>, SchemaView>,
    pub schema_counts: Map<Seq<u8>, u32>,
    pub nonces: Map<Seq<u8>, u64>,
    pub bls_keys: Map<Seq<u8>, BlsPublicKeyView>,
    pub attestations: Map<Seq<u8>, AttestationView>,
}

impl View for ProtocolStore {
    type V = StoreView;

    closed spec fn view(&self) -> StoreView {
        StoreView {
            admin: opt_address_view(self.admin),
            schema_config: self.schema_config,
            schemas: self.schemas@,
            schema_counts: self.schema_counts@,
            nonces: self.nonces@,
            bls_keys: self.bls_keys@,
            attestations: self.attestations@,
        }
    }
}

impl ProtocolStore {
    /// The store's tables are well formed.
    pub closed spec fn wf(&self) -> bool {
        &&& self.schemas.wf()
        &&& self.schema_counts.wf()
        &&& self.nonces.wf()
        &&& self.bls_keys.wf()
        &&& self.attestations.wf()
    }

    /// An empty store, with no admin.
    pub fn new() -> (s: Self)
        ensures
            s.wf(),
            s@ == (StoreView {
                admin: None,
                schema_config: None,
                schemas: Map::empty(),
                schema_counts: Map::empty(),
                nonces: Map::empty(),
                bls_keys: Map::empty(),
                attestations: Map::empty(),
            }),
    {
        ProtocolStore {
            admin: None,
            schema_config: None,
            schemas: Table::new(),
            schema_counts: Table::new(),
            nonces: Table::new(),
            bls_keys: Table::new(),
            attestations: Table::new(),
        }
    }

    pub fn admin(&self) -> (r: Option<&Address>)
        ensures
            match r {
                Some(a) => self@.admin == Some(a@),
                None => self@.admin is None,
            },
    {
        match &self.admin {
            Some(a) => Some(a),
            None => None,
        }
    }

    pub fn set_admin(&mut self, admin: Address)
        requires
            old(self).wf(),
        ensures
            final(self).wf(),
            final(self)@ == (StoreView { admin: Some(admin@), ..old(self)@ }),
    {
        self.admin = Some(admin);
    }

    pub fn schema_config(&self) -> (r: Option<SchemaRegistrationConfig>)
        ensures
            r == self@.schema_config,
    {
        self.schema_config
    }

    pub fn set_schema_config(&mut self, config: SchemaRegistrationConfig)
        requires
            old(self).wf(),
        ensures
            final(self).wf(),
            final(self)@ == (StoreView { schema_config: Some(config), ..old(self)@ }),
    {
        self.schema_config = Some(config);
    }

    pub fn schema(&self, uid: &[u8]) -> (r: Option<&Schema>)
        requires
            self.wf(),
        ensures
            match r {
                Some(s) => self@.schemas.contains_key(uid@) && self@.schemas[uid@] == s@,
                None => !self@.schemas.contains_key(uid@),
            },
    {
        self.schemas.get(uid)
    }

    pub fn insert_schema(&mut self, uid: Vec<u8>, schema: Schema)
        requires
            old(self).wf(),
        ensures
            final(self).wf(),
            final(self)@ == (StoreView {
                schemas: old(self)@.schemas.insert(uid@, schema@),
                ..old(self)@
            }),
    {
        self.schemas.insert(uid, schema);
    }

    pub fn schema_count(&self, address: &Address) -> (r: Option<u32>)
        requires
            self.wf(),
        ensures
            match r {
                Some(c) => self@.schema_counts.contains_key(address@)
                    && self@.schema_counts[address@] == c,
                None => !self@.schema_counts.contains_key(address@),
            },
    {
        match self.schema_counts.get(address.as_bytes()) {
            Some(c) => Some(*c),
            None => None,
        }
    }

    pub fn set_schema_count(&mut self, address: &Address, count: u32)
        requires
            old(self).wf(),
        ensures
            final(self).wf(),
            final(self)@ == (StoreView {
                schema_counts: old(self)@.schema_counts.insert(address@, count),
                ..old(self)@
            }),
    {
        self.schema_counts.insert(copy_bytes(address.as_bytes()), count);
    }

    pub fn nonce(&self, address: &Address) -> (r: Option<u64>)
        requires
            self.wf(),
        ensures
            match r {
                Some(n) => self@.nonces.contains_key(address@) && self@.nonces[address@] == n,
                None => !self@.nonces.contains_key(address@),
            },
    {
        match self.nonces.get(address.as_bytes()) {
            Some(n) => Some(*n),
            None => None,
        }
    }

    pub fn set_nonce(&mut self, address: &Address, nonce: u64)
        requires
            old(self).wf(),
        ensures
            final(self).wf(),
            final(self)@ == (StoreView {
                nonces: old(self)@.nonces.insert(address@, nonce),
                ..old(self)@
            }),
    {
        self.nonces.insert(copy_bytes(address.as_bytes()), nonce);
    }

    pub fn bls_key(&self, address: &Address) -> (r: Option<&BlsPublicKey>)
        requires
            self.wf(),
        ensures
            match r {
                Some(k) => self@.bls_keys.contains_key(address@) && self@.bls_keys[address@] == k@,
                None => !self@.bls_keys.contains_key(address@),
            },
    {
        self.bls_keys.get(address.as_bytes())
    }

    pub fn insert_bls_key(&mut self, address: &Address, key: BlsPublicKey)
        requires
            old(self).wf(),
        ensures
            final(self).wf(),
            final(self)@ == (StoreView {
                bls_keys: old(self)@.bls_keys.insert(address@, key@),
                ..old(self)@
            }),
    {
        self.bls_keys.insert(copy_bytes(address.as_bytes()), key);
    }

    pub fn attestation(&self, uid: &[u8]) -> (r: Option<&Attestation>)
        requires
            self.wf(),
        ensures
            match r {
                Some(a) => self@.attestations.contains_key(uid@) && self@.attestations[uid@]
                    == a@,
                None => !self@.attestations.contains_key(uid@),
            },
    {
        self.attestations.get(uid)
    }

    pub fn insert_attestation(&mut self, uid: Vec<u8>, attestation: Attestation)
        requires
            old(self).wf(),
        ensures
            final(self).wf(),
            final(self)@ == (StoreView {
                attestations: old(self)@.attestations.insert(uid@, attestation@),
                ..old(self)@
            }),
    {
        self.attestations.insert(uid, attestation);
    }
}

} // verus!
