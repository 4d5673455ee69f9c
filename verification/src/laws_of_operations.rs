//! What each operation does, stated over its inputs and results: the
//! encodings it hashes, the record it stores, and the inputs on which it
//! succeeds or fails with each error.

use vstd::prelude::*;

use crate::bytes::{be_u32, be_u64};
use crate::errors::Error;
use crate::host::{
    g1_negation, g1_usable, g2_usable, keccak256, pairing_product_is_one, scval_bytes_xdr,
    scval_string_xdr, sha256, xdr_padding,
};
use crate::instructions::crypto::{
    bls_key_of, message_point, register_bls_key_result, register_bls_key_state, G2_GENERATOR,
};
use crate::instructions::delegation::{
    attest_result, attest_state, attestation_message, nonce_step, revocation_message,
    revoke_result, revoke_state, ATTEST_DOMAIN_SEPARATOR, REVOKE_DOMAIN_SEPARATOR,
};
use crate::instructions::schema::{
    effective_schema_config, register_schema_result, register_schema_state, schema_count_of,
};
use crate::state::{
    AttestationRequestView, RevocationRequestView, SchemaRegistrationConfig, SchemaView,
    StoreView,
};
use crate::utils::{
    attestation_uid_of, hex_lower, nonce_of, schema_uid_of, schema_uid_preimage, xdr_prefix,
};

verus! {

// ---------------------------------------------------------------------------
// Encodings
// ---------------------------------------------------------------------------

proof fn lemma_u32_bytes(m: u32)
    ensures
        be_u32(m).len() == 4,
        be_u32(m)[0] as int == m as int / 0x1000000,
        be_u32(m)[1] as int == (m as int / 0x10000) % 256,
        be_u32(m)[2] as int == (m as int / 0x100) % 256,
        be_u32(m)[3] as int == m as int % 256,
{
    assert((m >> 24u32) as u8 == (m / 0x1000000u32) as u8 && m / 0x1000000u32 < 256) by (bit_vector);
    assert(((m >> 16u32) & 0xffu32) as u8 == ((m / 0x10000u32) % 256) as u8) by (bit_vector);
    assert(((m >> 8u32) & 0xffu32) as u8 == ((m / 0x100u32) % 256) as u8) by (bit_vector);
    assert((m & 0xffu32) as u8 == (m % 256) as u8) by (bit_vector);
}

/// The eight bytes of a 64-bit number are its big-endian digits in base 256.
pub proof fn law_be_u64_digits(n: u64)
    ensures
        be_u64(n).len() == 8,
        be_u64(n)[0] as int == n as int / 0x100000000000000,
        be_u64(n)[1] as int == (n as int / 0x1000000000000) % 256,
        be_u64(n)[2] as int == (n as int / 0x10000000000) % 256,
        be_u64(n)[3] as int == (n as int / 0x100000000) % 256,
        be_u64(n)[4] as int == (n as int / 0x1000000) % 256,
        be_u64(n)[5] as int == (n as int / 0x10000) % 256,
        be_u64(n)[6] as int == (n as int / 0x100) % 256,
        be_u64(n)[7] as int == n as int % 256,
{
    assert((n >> 56u64) as u8 == (n / 0x100000000000000u64) as u8 && n / 0x100000000000000u64
        < 256) by (bit_vector);
    assert(((n >> 48u64) & 0xffu64) as u8 == ((n / 0x1000000000000u64) % 256) as u8) by (bit_vector);
    assert(((n >> 40u64) & 0xffu64) as u8 == ((n / 0x10000000000u64) % 256) as u8) by (bit_vector);
    assert(((n >> 32u64) & 0xffu64) as u8 == ((n / 0x100000000u64) % 256) as u8) by (bit_vector);
    assert(((n >> 24u64) & 0xffu64) as u8 == ((n / 0x1000000u64) % 256) as u8) by (bit_vector);
    assert(((n >> 16u64) & 0xffu64) as u8 == ((n / 0x10000u64) % 256) as u8) by (bit_vector);
    assert(((n >> 8u64) & 0xffu64) as u8 == ((n / 0x100u64) % 256) as u8) by (bit_vector);
    assert((n & 0xffu64) as u8 == (n % 256) as u8) by (bit_vector);
}

/// The host's XDR of a string of n bytes: the type tag 0 0 0 14, the length
/// n in four big-endian bytes, the n bytes, then the fewest zero bytes (at
/// most three) that make the whole a multiple of four bytes long.
pub proof fn law_string_xdr_layout(s: Seq<u8>)
    requires
        s.len() <= u32::MAX,
    ensures
        ({
            let x = scval_string_xdr(s);
            let n = s.len() as int;
            &&& x.len() % 4 == 0
            &&& n + 8 <= x.len() < n + 12
            &&& x.subrange(0, 4) == seq![0u8, 0u8, 0u8, 14u8]
            &&& x[4] as int == n / 0x1000000
            &&& x[5] as int == (n / 0x10000) % 256
            &&& x[6] as int == (n / 0x100) % 256
            &&& x[7] as int == n % 256
            &&& x.subrange(8, 8 + n) == s
            &&& forall|i: int| 8 + n <= i < x.len() ==> x[i] == 0u8
        }),
{
    let n = s.len() as int;
    let x = scval_string_xdr(s);
    lemma_u32_bytes(14u32);
    lemma_u32_bytes(s.len() as u32);
    let t = be_u32(14u32);
    assert(t =~= seq![0u8, 0u8, 0u8, 14u8]);
    let p = xdr_padding(s.len());
    assert(p.len() == (4 - n % 4) % 4);
    assert(x =~= t + be_u32(s.len() as u32) + s + p);
    assert(x.subrange(0, 4) =~= t);
    assert(x.subrange(8, 8 + n) =~= s);
    assert forall|i: int| 8 + n <= i < x.len() implies x[i] == 0u8 by {
        assert(x[i] == p[i - 8 - n]);
    }
}

/// The host's XDR of 32 bytes: the type tag 0 0 0 13, the length 0 0 0 32,
/// then the bytes.
pub proof fn law_bytes32_xdr_layout(b: Seq<u8>)
    requires
        b.len() == 32,
    ensures
        scval_bytes_xdr(b) == seq![0u8, 0u8, 0u8, 13u8, 0u8, 0u8, 0u8, 32u8] + b,
{
    lemma_u32_bytes(13u32);
    lemma_u32_bytes(32u32);
    assert(xdr_padding(32).len() == 0);
    assert(scval_bytes_xdr(b) =~= seq![0u8, 0u8, 0u8, 13u8, 0u8, 0u8, 0u8, 32u8] + b);
}

/// A schema uid is the SHA-256 digest of the definition's string XDR,
/// followed by the authority's address encoding, followed by the resolver's
/// address encoding when there is a resolver.
pub proof fn law_schema_uid_derivation(definition: Seq<u8>, authority: Seq<u8>, resolver: Option<Seq<u8>>)
    ensures
        schema_uid_preimage(definition, authority, resolver) == (match resolver {
            Some(r) => scval_string_xdr(definition) + authority + r,
            None => scval_string_xdr(definition) + authority,
        }),
        schema_uid_of(definition, authority, resolver) == sha256(
            match resolver {
                Some(r) => scval_string_xdr(definition) + authority + r,
                None => scval_string_xdr(definition) + authority,
            },
        ),
{
    match resolver {
        Some(r) => {},
        None => {
            assert(scval_string_xdr(definition) + authority + Seq::<u8>::empty()
                =~= scval_string_xdr(definition) + authority);
        },
    }
}

/// An attestation uid is the Keccak-256 digest of the schema uid's bytes XDR,
/// followed by the subject's address encoding and the nonce's eight
/// big-endian bytes.
pub proof fn law_attestation_uid_derivation(schema_uid: Seq<u8>, subject: Seq<u8>, nonce: u64)
    requires
        schema_uid.len() == 32,
    ensures
        attestation_uid_of(schema_uid, subject, nonce) == keccak256(
            seq![0u8, 0u8, 0u8, 13u8, 0u8, 0u8, 0u8, 32u8] + schema_uid + subject + be_u64(nonce),
        ),
{
    law_bytes32_xdr_layout(schema_uid);
}

/// The message signed for a delegated attestation is the SHA-256 digest of
/// the attestation domain separator, the schema uid, the digest of the
/// subject's address encoding, the nonce and the deadline (eight big-endian
/// bytes each), the expiration time's eight bytes when there is one, and the
/// digest of the value's string XDR.
pub proof fn law_attestation_message_layout(req: AttestationRequestView)
    ensures
        attestation_message(req) == sha256(
            ATTEST_DOMAIN_SEPARATOR@ + req.schema_uid + sha256(req.subject) + be_u64(req.nonce)
                + be_u64(req.deadline) + match req.expiration_time {
                Some(t) => be_u64(t),
                None => Seq::<u8>::empty(),
            } + sha256(scval_string_xdr(req.value)),
        ),
{
}

/// The message signed for a delegated revocation is the SHA-256 digest of
/// the revocation domain separator, the schema uid, the attestation uid, the
/// digest of the subject's address encoding, the nonce and the deadline.
pub proof fn law_revocation_message_layout(req: RevocationRequestView)
    ensures
        revocation_message(req) == sha256(
            REVOKE_DOMAIN_SEPARATOR@ + req.schema_uid + req.attestation_uid + sha256(req.subject)
                + be_u64(req.nonce) + be_u64(req.deadline),
        ),
{
}

/// The domain separators are the ASCII strings "ATTEST_PROTOCOL_V1_DELEGATED"
/// and "REVOKE_PROTOCOL_V1_DELEGATED".
pub proof fn law_domain_separator_text()
    ensures
        ATTEST_DOMAIN_SEPARATOR@ == seq![
            65u8, 84, 84, 69, 83, 84, 95, 80, 82, 79, 84, 79, 67, 79, 76, 95, 86, 49, 95, 68, 69,
            76, 69, 71, 65, 84, 69, 68,
        ],
        REVOKE_DOMAIN_SEPARATOR@ == seq![
            82u8, 69, 86, 79, 75, 69, 95, 80, 82, 79, 84, 79, 67, 79, 76, 95, 86, 49, 95, 68, 69,
            76, 69, 71, 65, 84, 69, 68,
        ],
{
    assert(ATTEST_DOMAIN_SEPARATOR@ =~= seq![
        65u8, 84, 84, 69, 83, 84, 95, 80, 82, 79, 84, 79, 67, 79, 76, 95, 86, 49, 95, 68, 69,
        76, 69, 71, 65, 84, 69, 68,
    ]);
    assert(REVOKE_DOMAIN_SEPARATOR@ =~= seq![
        82u8, 69, 86, 79, 75, 69, 95, 80, 82, 79, 84, 79, 67, 79, 76, 95, 86, 49, 95, 68, 69,
        76, 69, 71, 65, 84, 69, 68,
    ]);
}

/// The identifier of a digest is "XDR:" followed, for each byte, by its high
/// and its low hexadecimal digit in lowercase.
pub proof fn law_xdr_identifier_text(d: Seq<u8>)
    ensures
        ({
            let r = xdr_prefix() + hex_lower(d);
            let digits = seq![
                48u8, 49, 50, 51, 52, 53, 54, 55, 56, 57, 97, 98, 99, 100, 101, 102,
            ];
            &&& r.len() == 4 + 2 * d.len()
            &&& r.subrange(0, 4) == seq![88u8, 68u8, 82u8, 58u8]
            &&& forall|i: int|
                0 <= i < d.len() ==> r[4 + 2 * i] == digits[d[i] as int / 16] && r[5 + 2 * i]
                    == digits[d[i] as int % 16]
        }),
{
    let r = xdr_prefix() + hex_lower(d);
    let digits = seq![48u8, 49, 50, 51, 52, 53, 54, 55, 56, 57, 97, 98, 99, 100, 101, 102];
    assert(r.subrange(0, 4) =~= seq![88u8, 68u8, 82u8, 58u8]);
    assert forall|i: int|
        0 <= i < d.len() implies r[4 + 2 * i] == digits[d[i] as int / 16] && r[5 + 2 * i] == digits[d[i] as int
            % 16] by {
        assert(r[4 + 2 * i] == hex_lower(d)[2 * i]);
        assert(r[5 + 2 * i] == hex_lower(d)[2 * i + 1]);
        assert((2 * i) / 2 == i);
        assert((2 * i + 1) / 2 == i);
        assert((2 * i) % 2 == 0);
        assert((2 * i + 1) % 2 == 1);
    }
}

// ---------------------------------------------------------------------------
// Operations
// ---------------------------------------------------------------------------

/// An attester's next nonce is the stored one, or zero before its first use;
/// consuming nonce n succeeds exactly when n is that next nonce and below the
/// largest 64-bit number.
pub proof fn law_nonce_outcome(s: StoreView, attester: Seq<u8>, n: u64)
    ensures
        nonce_of(s, attester) == (if s.nonces.contains_key(attester) {
            s.nonces[attester]
        } else {
            0u64
        }),
        nonce_step(s, attester, n) is Ok <==> nonce_of(s, attester) == n && n < u64::MAX,
        nonce_of(s, attester) != n ==> nonce_step(s, attester, n) == Err::<(), Error>(
            Error::InvalidNonce,
        ),
        nonce_of(s, attester) == n && n == u64::MAX ==> nonce_step(s, attester, n) == Err::<
            (),
            Error,
        >(Error::IntegerOverflow),
{
}

/// The limits in force are those the admin set, or else ten schemas per
/// address and definitions of at most 4096 bytes.
pub proof fn law_schema_config_in_force(s: StoreView)
    ensures
        s.schema_config is None ==> effective_schema_config(s) == (SchemaRegistrationConfig {
            max_schemas_per_address: 10,
            max_definition_size: 4096,
        }),
        s.schema_config is Some ==> effective_schema_config(s) == s.schema_config->Some_0,
{
}

/// Registering a schema: a definition longer than the limit in force is
/// refused as `SchemaDefinitionTooLarge`; otherwise an address at its quota is
/// refused as `SchemaQuotaExceeded`; otherwise a schema whose uid is taken is
/// refused as `SchemaAlreadyExists`; otherwise the schema is stored under its
/// uid, derived from the definition, the caller and the resolver, and the
/// caller's count rises by one, nothing else changing.
pub proof fn law_register_schema_outcome(
    s: StoreView,
    caller: Seq<u8>,
    definition: Seq<u8>,
    resolver: Option<Seq<u8>>,
    revocable: bool,
)
    ensures
        ({
            let r = register_schema_result(s, caller, definition, resolver);
            let s2 = register_schema_state(s, caller, definition, resolver, revocable);
            let limits = effective_schema_config(s);
            let count = if s.schema_counts.contains_key(caller) {
                s.schema_counts[caller]
            } else {
                0u32
            };
            let uid = sha256(
                match resolver {
                    Some(res) => scval_string_xdr(definition) + caller + res,
                    None => scval_string_xdr(definition) + caller,
                },
            );
            &&& definition.len() > limits.max_definition_size ==> r == Err::<Seq<u8>, Error>(
                Error::SchemaDefinitionTooLarge,
            )
            &&& definition.len() <= limits.max_definition_size && count
                >= limits.max_schemas_per_address ==> r == Err::<Seq<u8>, Error>(
                Error::SchemaQuotaExceeded,
            )
            &&& definition.len() <= limits.max_definition_size && count
                < limits.max_schemas_per_address && s.schemas.contains_key(uid) ==> r == Err::<
                Seq<u8>,
                Error,
            >(Error::SchemaAlreadyExists)
            &&& r is Ok <==> definition.len() <= limits.max_definition_size && count
                < limits.max_schemas_per_address && !s.schemas.contains_key(uid)
            &&& r is Ok ==> {
                &&& r->Ok_0 == uid
                &&& s2.schemas == s.schemas.insert(
                    uid,
                    SchemaView { authority: caller, definition, resolver, revocable },
                )
                &&& s2.schema_counts == s.schema_counts.insert(caller, (count + 1) as u32)
                &&& count + 1 <= limits.max_schemas_per_address
                &&& s2.nonces == s.nonces && s2.bls_keys == s.bls_keys && s2.attestations
                    == s.attestations && s2.admin == s.admin && s2.schema_config == s.schema_config
            }
            &&& r is Err ==> s2 == s
        }),
{
    law_schema_uid_derivation(definition, caller, resolver);
}

/// Registering a BLS key: an address that has one is refused as
/// `AlreadyInitialized`; otherwise a key whose first byte has the
/// compression or infinity flag set is refused as `InvalidSignaturePoint`;
/// otherwise the key is stored with its registration time, nothing else changing.
pub proof fn law_register_bls_key_outcome(s: StoreView, attester: Seq<u8>, key: Seq<u8>, timestamp: u64)
    ensures
        ({
            let r = register_bls_key_result(s, attester, key);
            let s2 = register_bls_key_state(s, attester, key, timestamp);
            &&& r == Err::<(), Error>(Error::AlreadyInitialized) <==> s.bls_keys.contains_key(
                attester,
            )
            &&& !s.bls_keys.contains_key(attester) && key[0] & 0xc0u8 != 0u8 ==> r == Err::<
                (),
                Error,
            >(Error::InvalidSignaturePoint)
            &&& r is Ok <==> !s.bls_keys.contains_key(attester) && key[0] & 0xc0u8 == 0u8
            &&& r is Ok ==> s2 == (StoreView {
                bls_keys: s.bls_keys.insert(
                    attester,
                    crate::state::BlsPublicKeyView { key, registered_at: timestamp },
                ),
                ..s
            })
            &&& r is Err ==> s2 == s
        }),
{
}

/// A delegated attestation: after its deadline it is refused as
/// `ExpiredSignature`; for a missing schema as `SchemaNotFound`; against the
/// resolver's answer as `ResolverRejected`; without a registered key as
/// `BlsPubKeyNotRegistered`. It is accepted exactly when the deadline has not
/// passed, the schema exists, its resolver (if any) consents, the attester
/// has a key, the signature has clean flags and, like the key, is a usable
/// point, the pairing check of the signed message holds, the nonce is the
/// attester's next (and below the largest 64-bit number) and no attestation
/// has the new uid yet.
pub proof fn law_attest_outcome(s: StoreView, req: AttestationRequestView, now: u64, resolver_allows: bool)
    ensures
        ({
            let r = attest_result(s, req, now, resolver_allows);
            let uid = attestation_uid_of(req.schema_uid, req.subject, req.nonce);
            &&& now > req.deadline ==> r == Err::<crate::state::AttestationView, Error>(
                Error::ExpiredSignature,
            )
            &&& now <= req.deadline && !s.schemas.contains_key(req.schema_uid) ==> r == Err::<
                crate::state::AttestationView,
                Error,
            >(Error::SchemaNotFound)
            &&& now <= req.deadline && s.schemas.contains_key(req.schema_uid)
                && s.schemas[req.schema_uid].resolver is Some && !resolver_allows ==> r == Err::<
                crate::state::AttestationView,
                Error,
            >(Error::ResolverRejected)
            &&& now <= req.deadline && s.schemas.contains_key(req.schema_uid) && (
            s.schemas[req.schema_uid].resolver is Some ==> resolver_allows)
                && !s.bls_keys.contains_key(req.attester) ==> r == Err::<
                crate::state::AttestationView,
                Error,
            >(Error::BlsPubKeyNotRegistered)
            &&& r is Ok <==> {
                &&& now <= req.deadline
                &&& s.schemas.contains_key(req.schema_uid)
                &&& s.schemas[req.schema_uid].resolver is Some ==> resolver_allows
                &&& s.bls_keys.contains_key(req.attester)
                &&& req.signature[0] & 0xc0u8 == 0u8
                &&& g1_usable(req.signature)
                &&& g2_usable(s.bls_keys[req.attester].key)
                &&& pairing_product_is_one(
                    req.signature,
                    g1_negation(message_point(attestation_message(req))),
                    G2_GENERATOR@,
                    s.bls_keys[req.attester].key,
                )
                &&& nonce_of(s, req.attester) == req.nonce
                &&& req.nonce < u64::MAX
                &&& !s.attestations.contains_key(uid)
            }
        }),
{
}

/// An accepted delegated attestation stores, under the Keccak-256 uid of its
/// schema uid's bytes XDR, subject and nonce, a record carrying the request's
/// schema uid, subject, attester, value, nonce and expiration time unchanged,
/// stamped with the ledger time and not revoked; the attester's next nonce
/// becomes one more, and nothing else changes.
pub proof fn law_attest_accepted_record(
    s: StoreView,
    req: AttestationRequestView,
    now: u64,
    resolver_allows: bool,
    other: Seq<u8>,
)
    requires
        attest_result(s, req, now, resolver_allows) is Ok,
        req.schema_uid.len() == 32,
    ensures
        ({
            let a = attest_result(s, req, now, resolver_allows)->Ok_0;
            let s2 = attest_state(s, req, now, resolver_allows);
            &&& a.uid == keccak256(
                seq![0u8, 0u8, 0u8, 13u8, 0u8, 0u8, 0u8, 32u8] + req.schema_uid + req.subject
                    + be_u64(req.nonce),
            )
            &&& a.schema_uid == req.schema_uid
            &&& a.subject == req.subject
            &&& a.attester == req.attester
            &&& a.value == req.value
            &&& a.nonce == req.nonce
            &&& a.timestamp == now
            &&& a.expiration_time == req.expiration_time
            &&& !a.revoked
            &&& a.revocation_time is None
            &&& !s.attestations.contains_key(a.uid)
            &&& s2.attestations == s.attestations.insert(a.uid, a)
            &&& nonce_of(s2, req.attester) == req.nonce + 1
            &&& other != req.attester ==> nonce_of(s2, other) == nonce_of(s, other)
            &&& s2.schemas == s.schemas && s2.schema_counts == s.schema_counts && s2.bls_keys
                == s.bls_keys && s2.admin == s.admin && s2.schema_config == s.schema_config
        }),
{
    law_attestation_uid_derivation(req.schema_uid, req.subject, req.nonce);
}

/// A delegated revocation: after its deadline it is refused as
/// `ExpiredSignature`; for a missing attestation as `AttestationNotFound`;
/// for a revoked one as `AlreadyRevoked`; by anyone but its attester as
/// `NotAuthorized`; naming another schema as `InvalidReference`; for a
/// missing schema as `SchemaNotFound`; for a schema that forbids revocation as
/// `AttestationNotRevocable`; against the resolver's answer as
/// `ResolverRejected`. It is accepted exactly when all those checks pass, the
/// revoker has a key, and the signature of the revocation message is valid;
/// then the attestation alone changes, to revoked at the ledger time.
pub proof fn law_revoke_outcome(s: StoreView, req: RevocationRequestView, now: u64, resolver_allows: bool)
    ensures
        ({
            let r = revoke_result(s, req, now, resolver_allows);
            let s2 = revoke_state(s, req, now, resolver_allows);
            let uid = req.attestation_uid;
            let a = s.attestations[uid];
            let live = now <= req.deadline && s.attestations.contains_key(uid) && !a.revoked;
            let owned = live && a.attester == req.revoker && a.schema_uid == req.schema_uid;
            let allowed = owned && s.schemas.contains_key(req.schema_uid)
                && s.schemas[req.schema_uid].revocable;
            &&& now > req.deadline ==> r == Err::<crate::state::AttestationView, Error>(
                Error::ExpiredSignature,
            )
            &&& now <= req.deadline && !s.attestations.contains_key(uid) ==> r == Err::<
                crate::state::AttestationView,
                Error,
            >(Error::AttestationNotFound)
            &&& now <= req.deadline && s.attestations.contains_key(uid) && a.revoked ==> r
                == Err::<crate::state::AttestationView, Error>(Error::AlreadyRevoked)
            &&& live && a.attester != req.revoker ==> r == Err::<
                crate::state::AttestationView,
                Error,
            >(Error::NotAuthorized)
            &&& live && a.attester == req.revoker && a.schema_uid != req.schema_uid ==> r
                == Err::<crate::state::AttestationView, Error>(Error::InvalidReference)
            &&& owned && !s.schemas.contains_key(req.schema_uid) ==> r == Err::<
                crate::state::AttestationView,
                Error,
            >(Error::SchemaNotFound)
            &&& owned && s.schemas.contains_key(req.schema_uid)
                && !s.schemas[req.schema_uid].revocable ==> r == Err::<
                crate::state::AttestationView,
                Error,
            >(Error::AttestationNotRevocable)
            &&& allowed && s.schemas[req.schema_uid].resolver is Some && !resolver_allows ==> r
                == Err::<crate::state::AttestationView, Error>(Error::ResolverRejected)
            &&& r is Ok <==> {
                &&& allowed
                &&& s.schemas[req.schema_uid].resolver is Some ==> resolver_allows
                &&& s.bls_keys.contains_key(req.revoker)
                &&& req.signature[0] & 0xc0u8 == 0u8
                &&& g1_usable(req.signature)
                &&& g2_usable(s.bls_keys[req.revoker].key)
                &&& pairing_product_is_one(
                    req.signature,
                    g1_negation(message_point(revocation_message(req))),
                    G2_GENERATOR@,
                    s.bls_keys[req.revoker].key,
                )
            }
            &&& r is Ok ==> {
                &&& r->Ok_0 == (crate::state::AttestationView {
                    revoked: true,
                    revocation_time: Some(now),
                    ..a
                })
                &&& s2 == (StoreView { attestations: s.attestations.insert(uid, r->Ok_0), ..s })
            }
            &&& r is Err ==> s2 == s
        }),
{
}

} // verus!
