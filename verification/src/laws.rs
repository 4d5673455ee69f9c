//! Properties of the protocol that span operations, proved over the
//! operations' specifications.

use vstd::prelude::*;

use crate::errors::Error;
use crate::bytes::be_u64;
use crate::host::{g1_negation, g1_usable, g2_usable, pairing_product_is_one, scval_string_xdr, sha256};
use crate::instructions::crypto::{
    bls_key_of, bls_signature_check, flag_byte_ok, message_point, register_bls_key_result,
    register_bls_key_state, G2_GENERATOR,
};
use crate::instructions::delegation::{
    attest_result, attest_state, attestation_message, attestation_message_preimage,
    attestation_precheck, nonce_step, optional_be_u64, revocation_message_preimage, revoke_result,
    revoke_state, with_nonce_consumed, ATTEST_DOMAIN_SEPARATOR, REVOKE_DOMAIN_SEPARATOR,
};
use crate::instructions::schema::{
    effective_schema_config, register_schema_result, register_schema_state, schema_count_of,
    set_schema_config_result, set_schema_config_state,
};
use crate::state::{
    AttestationRequestView, BlsPublicKeyView, RevocationRequestView, SchemaRegistrationConfig,
    SchemaView, StoreView,
};
use crate::utils::{attestation_uid_of, nonce_of};

verus! {

/// A nonce is accepted once: after an attester's nonce `n` is consumed, the
/// next nonce is `n + 1` and `n` is refused as `InvalidNonce`.
pub proof fn law_nonce_used_once(s: StoreView, attester: Seq<u8>, n: u64)
    requires
        nonce_step(s, attester, n) is Ok,
    ensures
        nonce_of(with_nonce_consumed(s, attester, n), attester) == n + 1,
        nonce_step(with_nonce_consumed(s, attester, n), attester, n) == Err::<(), Error>(
            Error::InvalidNonce,
        ),
{
}

/// Each attester has a nonce sequence of its own: consuming one attester's
/// nonce leaves every other attester's next nonce as it was.
pub proof fn law_nonces_per_attester(s: StoreView, attester: Seq<u8>, other: Seq<u8>, n: u64)
    requires
        attester != other,
    ensures
        nonce_of(with_nonce_consumed(s, attester, n), other) == nonce_of(s, other),
{
}

/// A signed delegated attestation cannot be replayed: once it has been
/// accepted, submitting the same request again is refused as `InvalidNonce`.
pub proof fn law_delegated_attestation_not_replayable(
    s: StoreView,
    req: AttestationRequestView,
    now: u64,
    resolver_allows: bool,
)
    requires
        attest_result(s, req, now, resolver_allows) is Ok,
    ensures
        attest_result(attest_state(s, req, now, resolver_allows), req, now, resolver_allows)
            == Err::<crate::state::AttestationView, Error>(Error::InvalidNonce),
{
    let s2 = attest_state(s, req, now, resolver_allows);
    assert(s2.schemas == s.schemas);
    assert(s2.bls_keys == s.bls_keys);
    assert(bls_key_of(s2, req.attester) == bls_key_of(s, req.attester));
    assert(nonce_of(s2, req.attester) == req.nonce + 1);
}

/// An accepted delegated attestation is stored under its uid, which is
/// derived from its schema, its subject and its nonce, and it carries the
/// request's contents, unrevoked, stamped with the ledger time.
pub proof fn law_attestation_stored_under_uid(
    s: StoreView,
    req: AttestationRequestView,
    now: u64,
    resolver_allows: bool,
)
    requires
        attest_result(s, req, now, resolver_allows) is Ok,
    ensures
        ({
            let a = attest_result(s, req, now, resolver_allows)->Ok_0;
            let s2 = attest_state(s, req, now, resolver_allows);
            &&& a.uid == attestation_uid_of(req.schema_uid, req.subject, req.nonce)
            &&& s2.attestations.contains_key(a.uid)
            &&& s2.attestations[a.uid] == a
            &&& !s.attestations.contains_key(a.uid)
            &&& a.attester == req.attester
            &&& a.subject == req.subject
            &&& a.schema_uid == req.schema_uid
            &&& a.value == req.value
            &&& a.timestamp == now
            &&& !a.revoked
        }),
{
}

/// A delegated attestation is accepted only before its deadline, for an
/// existing schema, with the resolver's consent where the schema has one,
/// and with a signature that passes the pairing check against the
/// attester's registered key.
pub proof fn law_attestation_requires_signature(
    s: StoreView,
    req: AttestationRequestView,
    now: u64,
    resolver_allows: bool,
)
    requires
        attest_result(s, req, now, resolver_allows) is Ok,
    ensures
        now <= req.deadline,
        s.schemas.contains_key(req.schema_uid),
        s.schemas[req.schema_uid].resolver is Some ==> resolver_allows,
        s.bls_keys.contains_key(req.attester),
        pairing_product_is_one(
            req.signature,
            g1_negation(message_point(attestation_message(req))),
            G2_GENERATOR@,
            s.bls_keys[req.attester].key,
        ),
        nonce_of(s, req.attester) == req.nonce,
{
}

/// Each address registers at most one BLS key, and a registered key never
/// changes: a second registration is refused as `AlreadyInitialized`.
pub proof fn law_bls_key_registered_once(
    s: StoreView,
    attester: Seq<u8>,
    key: Seq<u8>,
    timestamp: u64,
    other_key: Seq<u8>,
)
    requires
        register_bls_key_result(s, attester, key) is Ok,
    ensures
        ({
            let s2 = register_bls_key_state(s, attester, key, timestamp);
            &&& bls_key_of(s2, attester) is Some
            &&& bls_key_of(s2, attester)->Some_0.key == key
            &&& register_bls_key_result(s2, attester, other_key) == Err::<(), Error>(
                Error::AlreadyInitialized,
            )
            &&& register_bls_key_state(s2, attester, other_key, timestamp) == s2
        }),
{
}

/// No operation changes a BLS key once it is registered.
pub proof fn law_registered_bls_key_is_kept(
    s: StoreView,
    address: Seq<u8>,
    attester: Seq<u8>,
    key: Seq<u8>,
    timestamp: u64,
    areq: AttestationRequestView,
    rreq: RevocationRequestView,
    now: u64,
    resolver_allows: bool,
    caller: Seq<u8>,
    definition: Seq<u8>,
    resolver: Option<Seq<u8>>,
    revocable: bool,
    config: SchemaRegistrationConfig,
)
    requires
        s.bls_keys.contains_key(address),
    ensures
        bls_key_of(register_bls_key_state(s, attester, key, timestamp), address) == bls_key_of(
            s,
            address,
        ),
        bls_key_of(attest_state(s, areq, now, resolver_allows), address) == bls_key_of(s, address),
        bls_key_of(revoke_state(s, rreq, now, resolver_allows), address) == bls_key_of(s, address),
        bls_key_of(register_schema_state(s, caller, definition, resolver, revocable), address)
            == bls_key_of(s, address),
        bls_key_of(set_schema_config_state(s, caller, config), address) == bls_key_of(s, address),
{
}

/// Registering the same schema twice is refused: after a schema is
/// registered, registering the same definition, authority and resolver again
/// fails, with `SchemaAlreadyExists` while the authority is under its quota.
pub proof fn law_duplicate_schema_refused(
    s: StoreView,
    caller: Seq<u8>,
    definition: Seq<u8>,
    resolver: Option<Seq<u8>>,
    revocable: bool,
    revocable2: bool,
)
    requires
        register_schema_result(s, caller, definition, resolver) is Ok,
    ensures
        ({
            let s2 = register_schema_state(s, caller, definition, resolver, revocable);
            &&& register_schema_result(s2, caller, definition, resolver) is Err
            &&& schema_count_of(s2, caller) < effective_schema_config(s2).max_schemas_per_address
                ==> register_schema_result(s2, caller, definition, resolver) == Err::<
                Seq<u8>,
                Error,
            >(Error::SchemaAlreadyExists)
            &&& register_schema_state(s2, caller, definition, resolver, revocable2) == s2
        }),
{
}

/// An address never holds more schemas than the limit in force when it
/// registered, and each registration counts once.
pub proof fn law_schema_quota(
    s: StoreView,
    caller: Seq<u8>,
    definition: Seq<u8>,
    resolver: Option<Seq<u8>>,
    revocable: bool,
)
    requires
        register_schema_result(s, caller, definition, resolver) is Ok,
    ensures
        schema_count_of(register_schema_state(s, caller, definition, resolver, revocable), caller)
            == schema_count_of(s, caller) + 1,
        schema_count_of(register_schema_state(s, caller, definition, resolver, revocable), caller)
            <= effective_schema_config(s).max_schemas_per_address,
{
}

/// Quotas are independent: a registration by one address leaves every other
/// address's count as it was.
pub proof fn law_schema_quotas_independent(
    s: StoreView,
    caller: Seq<u8>,
    other: Seq<u8>,
    definition: Seq<u8>,
    resolver: Option<Seq<u8>>,
    revocable: bool,
)
    requires
        caller != other,
    ensures
        schema_count_of(register_schema_state(s, caller, definition, resolver, revocable), other)
            == schema_count_of(s, other),
{
}

/// Only the admin sets the registration limits, and the limits read back are
/// those last set.
pub proof fn law_schema_config_set_by_admin(
    s: StoreView,
    admin: Seq<u8>,
    config: SchemaRegistrationConfig,
)
    ensures
        set_schema_config_result(s, admin) is Ok <==> s.admin == Some(admin),
        set_schema_config_result(s, admin) is Ok ==> effective_schema_config(
            set_schema_config_state(s, admin, config),
        ) == config,
        set_schema_config_result(s, admin) is Err ==> set_schema_config_state(s, admin, config)
            == s,
{
}

/// Only the attester of an attestation revokes it, only under its own
/// schema and only where that schema allows revocation; the revocation
/// changes nothing of the attestation but its revocation flag and time.
pub proof fn law_revocation_by_attester(
    s: StoreView,
    req: RevocationRequestView,
    now: u64,
    resolver_allows: bool,
)
    requires
        revoke_result(s, req, now, resolver_allows) is Ok,
    ensures
        ({
            let old_a = s.attestations[req.attestation_uid];
            let a = revoke_result(s, req, now, resolver_allows)->Ok_0;
            &&& s.attestations.contains_key(req.attestation_uid)
            &&& old_a.attester == req.revoker
            &&& !old_a.revoked
            &&& old_a.schema_uid == req.schema_uid
            &&& s.schemas[req.schema_uid].revocable
            &&& a.revoked
            &&& a.revocation_time == Some(now)
            &&& a.uid == old_a.uid
            &&& a.schema_uid == old_a.schema_uid
            &&& a.subject == old_a.subject
            &&& a.attester == old_a.attester
            &&& a.value == old_a.value
            &&& a.nonce == old_a.nonce
            &&& a.timestamp == old_a.timestamp
            &&& a.expiration_time == old_a.expiration_time
            &&& revoke_state(s, req, now, resolver_allows).attestations[req.attestation_uid] == a
        }),
{
}

/// A revocation is final: once an attestation is revoked, every later
/// revocation request for it made before its deadline is refused as `AlreadyRevoked`.
pub proof fn law_revocation_final(
    s: StoreView,
    req: RevocationRequestView,
    now: u64,
    resolver_allows: bool,
    later: RevocationRequestView,
    later_now: u64,
    later_allows: bool,
)
    requires
        revoke_result(s, req, now, resolver_allows) is Ok,
        later.attestation_uid == req.attestation_uid,
        later_now <= later.deadline,
    ensures
        revoke_result(revoke_state(s, req, now, resolver_allows), later, later_now, later_allows)
            == Err::<crate::state::AttestationView, Error>(Error::AlreadyRevoked),
{
}

/// A refused operation leaves the store as it was.
pub proof fn law_refusals_change_nothing(
    s: StoreView,
    areq: AttestationRequestView,
    rreq: RevocationRequestView,
    now: u64,
    resolver_allows: bool,
    caller: Seq<u8>,
    definition: Seq<u8>,
    resolver: Option<Seq<u8>>,
    revocable: bool,
    key: Seq<u8>,
    config: SchemaRegistrationConfig,
)
    ensures
        attest_result(s, areq, now, resolver_allows) is Err ==> attest_state(
            s,
            areq,
            now,
            resolver_allows,
        ) == s,
        revoke_result(s, rreq, now, resolver_allows) is Err ==> revoke_state(
            s,
            rreq,
            now,
            resolver_allows,
        ) == s,
        register_schema_result(s, caller, definition, resolver) is Err ==> register_schema_state(
            s,
            caller,
            definition,
            resolver,
            revocable,
        ) == s,
        register_bls_key_result(s, caller, key) is Err ==> register_bls_key_state(
            s,
            caller,
            key,
            now,
        ) == s,
        set_schema_config_result(s, caller) is Err ==> set_schema_config_state(s, caller, config)
            == s,
{
}

/// Attestation and revocation messages are domain separated: no attestation
/// message layout equals a revocation message layout, so a signature for
/// one cannot authorise the other.
pub proof fn law_messages_domain_separated(
    areq: AttestationRequestView,
    subject_hash: Seq<u8>,
    value_hash: Seq<u8>,
    rreq: RevocationRequestView,
    rsubject_hash: Seq<u8>,
)
    ensures
        ATTEST_DOMAIN_SEPARATOR@ != REVOKE_DOMAIN_SEPARATOR@,
        attestation_message_preimage(areq, subject_hash, value_hash) != revocation_message_preimage(
            rreq,
            rsubject_hash,
        ),
{
    assert(ATTEST_DOMAIN_SEPARATOR@[0] != REVOKE_DOMAIN_SEPARATOR@[0]);
    assert(attestation_message_preimage(areq, subject_hash, value_hash)[0]
        == ATTEST_DOMAIN_SEPARATOR@[0]);
    assert(revocation_message_preimage(rreq, rsubject_hash)[0] == REVOKE_DOMAIN_SEPARATOR@[0]);
}

/// For a signature whose flag byte is clean and which, like the key, is a
/// point the host can pair, the pairing alone decides: the signature is
/// accepted exactly when e(S, g2) * e(-H(m), P) == 1, and refused as
/// `InvalidSignature` otherwise.
pub proof fn law_valid_points_decided_by_pairing(
    key: BlsPublicKeyView,
    message: Seq<u8>,
    signature: Seq<u8>,
)
    requires
        flag_byte_ok(signature),
        g1_usable(signature),
        g2_usable(key.key),
    ensures
        bls_signature_check(Some(key), message, signature) == (if pairing_product_is_one(
            signature,
            g1_negation(message_point(message)),
            G2_GENERATOR@,
            key.key,
        ) {
            Ok::<(), Error>(())
        } else {
            Err(Error::InvalidSignature)
        }),
{
}

/// A delegated attestation that passes every check before the signature,
/// with a usable signature point and key, but whose signature fails the
/// pairing check, is refused as `InvalidSignature`: it consumes no nonce and
/// stores nothing.
pub proof fn law_wrong_signature_refused(
    s: StoreView,
    req: AttestationRequestView,
    now: u64,
    resolver_allows: bool,
)
    requires
        attestation_precheck(s, req, now) is Ok,
        attestation_precheck(s, req, now)->Ok_0 is Some ==> resolver_allows,
        s.bls_keys.contains_key(req.attester),
        g2_usable(s.bls_keys[req.attester].key),
        flag_byte_ok(req.signature),
        g1_usable(req.signature),
        !pairing_product_is_one(
            req.signature,
            g1_negation(message_point(attestation_message(req))),
            G2_GENERATOR@,
            s.bls_keys[req.attester].key,
        ),
    ensures
        attest_result(s, req, now, resolver_allows) == Err::<crate::state::AttestationView, Error>(
            Error::InvalidSignature,
        ),
        attest_state(s, req, now, resolver_allows) == s,
        nonce_of(attest_state(s, req, now, resolver_allows), req.attester) == nonce_of(s, req.attester),
{
}

/// The uids of the schemas stored with `authority` as their authority.
pub open spec fn authored_schemas(schemas: Map<Seq<u8>, SchemaView>, authority: Seq<u8>) -> Set<Seq<u8>> {
    schemas.dom().filter(|uid: Seq<u8>| schemas[uid].authority == authority)
}

/// Every address's schema count is the number of stored schemas it authored.
pub open spec fn schema_counts_match(s: StoreView) -> bool {
    &&& s.schemas.dom().finite()
    &&& forall|a: Seq<u8>| #[trigger] schema_count_of(s, a) == authored_schemas(s.schemas, a).len()
}

/// Each address's schema count equals the number of stored schemas it
/// authored: this holds of the empty store, registering a schema keeps it
/// (one schema by the caller is added and the caller's count rises by one, or
/// nothing changes), and no other operation touches schemas or counts.
pub proof fn law_schema_count_is_authored_schemas(
    s: StoreView,
    caller: Seq<u8>,
    definition: Seq<u8>,
    resolver: Option<Seq<u8>>,
    revocable: bool,
    attester: Seq<u8>,
    key: Seq<u8>,
    timestamp: u64,
    areq: AttestationRequestView,
    rreq: RevocationRequestView,
    now: u64,
    resolver_allows: bool,
    config: SchemaRegistrationConfig,
)
    requires
        schema_counts_match(s),
    ensures
        schema_counts_match(
            StoreView {
                schemas: Map::empty(),
                schema_counts: Map::empty(),
                ..s
            },
        ),
        schema_counts_match(register_schema_state(s, caller, definition, resolver, revocable)),
        schema_counts_match(register_bls_key_state(s, attester, key, timestamp)),
        schema_counts_match(attest_state(s, areq, now, resolver_allows)),
        schema_counts_match(revoke_state(s, rreq, now, resolver_allows)),
        schema_counts_match(set_schema_config_state(s, caller, config)),
{
    lemma_counts_match_same(s, register_bls_key_state(s, attester, key, timestamp));
    lemma_counts_match_same(s, attest_state(s, areq, now, resolver_allows));
    lemma_counts_match_same(s, revoke_state(s, rreq, now, resolver_allows));
    lemma_counts_match_same(s, set_schema_config_state(s, caller, config));
    let e = StoreView { schemas: Map::empty(), schema_counts: Map::empty(), ..s };
    assert forall|a: Seq<u8>| #[trigger] schema_count_of(e, a) == authored_schemas(e.schemas, a).len() by {
        assert(authored_schemas(e.schemas, a) =~= Set::empty());
    }
    match register_schema_result(s, caller, definition, resolver) {
        Ok(uid) => {
            let v = SchemaView { authority: caller, definition, resolver, revocable };
            let s2 = register_schema_state(s, caller, definition, resolver, revocable);
            assert(s2.schemas == s.schemas.insert(uid, v));
            assert(!s.schemas.contains_key(uid));
            assert(s2.schemas.dom() =~= s.schemas.dom().insert(uid));
            assert forall|a: Seq<u8>|
                #[trigger] schema_count_of(s2, a) == authored_schemas(s2.schemas, a).len() by {
                let old_set = authored_schemas(s.schemas, a);
                s.schemas.dom().lemma_len_filter(|u: Seq<u8>| s.schemas[u].authority == a);
                assert(schema_count_of(s, a) == old_set.len());
                if a == caller {
                    assert(authored_schemas(s2.schemas, a) =~= old_set.insert(uid));
                    assert(!old_set.contains(uid));
                } else {
                    assert(authored_schemas(s2.schemas, a) =~= old_set);
                }
            }
        },
        Err(_) => {},
    }
}

proof fn lemma_counts_match_same(s: StoreView, s2: StoreView)
    requires
        schema_counts_match(s),
        s2.schemas == s.schemas,
        s2.schema_counts == s.schema_counts,
    ensures
        schema_counts_match(s2),
{
    assert forall|a: Seq<u8>| #[trigger] schema_count_of(s2, a) == authored_schemas(s2.schemas, a).len() by {
        assert(schema_count_of(s, a) == authored_schemas(s.schemas, a).len());
    }
}

/// The layout of a delegated attestation message is injective: two requests
/// (with 32-byte schema uids and digests) lay out the same bytes only if they
/// agree on the schema uid, the subject digest, the nonce, the deadline, the
/// expiration time (its presence included) and the value digest.
pub proof fn law_attestation_preimage_injective(
    r1: AttestationRequestView,
    subject_hash1: Seq<u8>,
    value_hash1: Seq<u8>,
    r2: AttestationRequestView,
    subject_hash2: Seq<u8>,
    value_hash2: Seq<u8>,
)
    requires
        r1.schema_uid.len() == 32,
        r2.schema_uid.len() == 32,
        subject_hash1.len() == 32,
        subject_hash2.len() == 32,
        value_hash1.len() == 32,
        value_hash2.len() == 32,
        attestation_message_preimage(r1, subject_hash1, value_hash1) == attestation_message_preimage(
            r2,
            subject_hash2,
            value_hash2,
        ),
    ensures
        r1.schema_uid == r2.schema_uid,
        subject_hash1 == subject_hash2,
        r1.nonce == r2.nonce,
        r1.deadline == r2.deadline,
        r1.expiration_time == r2.expiration_time,
        value_hash1 == value_hash2,
{
    let p1 = attestation_message_preimage(r1, subject_hash1, value_hash1);
    let p2 = attestation_message_preimage(r2, subject_hash2, value_hash2);
    let d = ATTEST_DOMAIN_SEPARATOR@;
    assert(d.len() == 28);
    let e1 = optional_be_u64(r1.expiration_time);
    let e2 = optional_be_u64(r2.expiration_time);
    assert(p1.len() == 28 + 32 + 32 + 8 + 8 + e1.len() + 32);
    assert(p2.len() == 28 + 32 + 32 + 8 + 8 + e2.len() + 32);
    assert(e1.len() == e2.len());
    assert(r1.expiration_time is Some <==> r2.expiration_time is Some);
    assert(r1.schema_uid =~= p1.subrange(28, 60));
    assert(r2.schema_uid =~= p2.subrange(28, 60));
    assert(subject_hash1 =~= p1.subrange(60, 92));
    assert(subject_hash2 =~= p2.subrange(60, 92));
    assert(be_u64(r1.nonce) =~= p1.subrange(92, 100));
    assert(be_u64(r2.nonce) =~= p2.subrange(92, 100));
    lemma_be_u64_injective(r1.nonce, r2.nonce);
    assert(be_u64(r1.deadline) =~= p1.subrange(100, 108));
    assert(be_u64(r2.deadline) =~= p2.subrange(100, 108));
    lemma_be_u64_injective(r1.deadline, r2.deadline);
    let n = p1.len() as int;
    assert(value_hash1 =~= p1.subrange(n - 32, n));
    assert(value_hash2 =~= p2.subrange(n - 32, n));
    if r1.expiration_time is Some {
        assert(e1 =~= p1.subrange(108, 116));
        assert(e2 =~= p2.subrange(108, 116));
        lemma_be_u64_injective(r1.expiration_time->Some_0, r2.expiration_time->Some_0);
    }
}

proof fn lemma_be_u64_injective(a: u64, b: u64)
    requires
        be_u64(a) == be_u64(b),
    ensures
        a == b,
{
    assert(be_u64(a)[0] == be_u64(b)[0]);
    assert(be_u64(a)[1] == be_u64(b)[1]);
    assert(be_u64(a)[2] == be_u64(b)[2]);
    assert(be_u64(a)[3] == be_u64(b)[3]);
    assert(be_u64(a)[4] == be_u64(b)[4]);
    assert(be_u64(a)[5] == be_u64(b)[5]);
    assert(be_u64(a)[6] == be_u64(b)[6]);
    assert(be_u64(a)[7] == be_u64(b)[7]);
    assert(a == b) by (bit_vector)
        requires
            (a >> 56u64) as u8 == (b >> 56u64) as u8,
            ((a >> 48u64) & 0xffu64) as u8 == ((b >> 48u64) & 0xffu64) as u8,
            ((a >> 40u64) & 0xffu64) as u8 == ((b >> 40u64) & 0xffu64) as u8,
            ((a >> 32u64) & 0xffu64) as u8 == ((b >> 32u64) & 0xffu64) as u8,
            ((a >> 24u64) & 0xffu64) as u8 == ((b >> 24u64) & 0xffu64) as u8,
            ((a >> 16u64) & 0xffu64) as u8 == ((b >> 16u64) & 0xffu64) as u8,
            ((a >> 8u64) & 0xffu64) as u8 == ((b >> 8u64) & 0xffu64) as u8,
            (a & 0xffu64) as u8 == (b & 0xffu64) as u8,
    ;
}

/// The signed message binds every signed field: where SHA-256 has no
/// collision on the subjects' address encodings and on the values' encodings
/// of two requests (its digests being 32 bytes), two requests that differ in
/// schema uid, subject, nonce, deadline, expiration time or value lay out
/// different bytes to sign.
pub proof fn law_attestation_message_binds_fields(r1: AttestationRequestView, r2: AttestationRequestView)
    requires
        r1.schema_uid.len() == 32,
        r2.schema_uid.len() == 32,
        sha256(r1.subject).len() == 32,
        sha256(r2.subject).len() == 32,
        sha256(scval_string_xdr(r1.value)).len() == 32,
        sha256(scval_string_xdr(r2.value)).len() == 32,
        sha256(r1.subject) == sha256(r2.subject) ==> r1.subject == r2.subject,
        sha256(scval_string_xdr(r1.value)) == sha256(scval_string_xdr(r2.value))
            ==> scval_string_xdr(r1.value) == scval_string_xdr(r2.value),
        r1.value.len() <= u32::MAX,
        r2.value.len() <= u32::MAX,
        r1.schema_uid != r2.schema_uid || r1.subject != r2.subject || r1.nonce != r2.nonce
            || r1.deadline != r2.deadline || r1.expiration_time != r2.expiration_time || r1.value
            != r2.value,
    ensures
        attestation_message_preimage(r1, sha256(r1.subject), sha256(scval_string_xdr(r1.value)))
            != attestation_message_preimage(
            r2,
            sha256(r2.subject),
            sha256(scval_string_xdr(r2.value)),
        ),
{
    if attestation_message_preimage(r1, sha256(r1.subject), sha256(scval_string_xdr(r1.value)))
        == attestation_message_preimage(r2, sha256(r2.subject), sha256(scval_string_xdr(r2.value))) {
        law_attestation_preimage_injective(
            r1,
            sha256(r1.subject),
            sha256(scval_string_xdr(r1.value)),
            r2,
            sha256(r2.subject),
            sha256(scval_string_xdr(r2.value)),
        );
        lemma_string_xdr_injective(r1.value, r2.value);
    }
}

proof fn lemma_string_xdr_injective(a: Seq<u8>, b: Seq<u8>)
    requires
        a.len() <= u32::MAX,
        b.len() <= u32::MAX,
        scval_string_xdr(a) == scval_string_xdr(b),
    ensures
        a == b,
{
    let xa = scval_string_xdr(a);
    let xb = scval_string_xdr(b);
    assert(xa[4] == xb[4] && xa[5] == xb[5] && xa[6] == xb[6] && xa[7] == xb[7]);
    let la = a.len() as u32;
    let lb = b.len() as u32;
    assert(la == lb) by (bit_vector)
        requires
            (la >> 24u32) as u8 == (lb >> 24u32) as u8,
            ((la >> 16u32) & 0xffu32) as u8 == ((lb >> 16u32) & 0xffu32) as u8,
            ((la >> 8u32) & 0xffu32) as u8 == ((lb >> 8u32) & 0xffu32) as u8,
            (la & 0xffu32) as u8 == (lb & 0xffu32) as u8,
    ;
    assert(a =~= xa.subrange(8, 8 + a.len() as int));
    assert(b =~= xb.subrange(8, 8 + b.len() as int));
}

} // verus!
