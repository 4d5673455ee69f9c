//! Attestation and revocation submitted by anyone on behalf of an attester,
//! authorised by the attester's BLS signature over a fixed message layout.

use vstd::prelude::*;

use crate::bytes::{append_be_u64, append_bytes, be_u64, bytes_eq};
use crate::errors::Error;
use crate::host::{host_sha256, host_string_to_xdr, scval_string_xdr, sha256};
use crate::instructions::crypto::{bls_key_of, bls_signature_check, verify_bls_signature};
use crate::state::{
    opt_address_view, Address, Attestation, AttestationRequestView, AttestationView,
    DelegatedAttestationRequest, DelegatedRevocationRequest, ProtocolStore,
    RevocationRequestView, StoreView,
};
use crate::utils::{attestation_uid_of, generate_attestation_uid, nonce_of};

verus! {

/// Domain separator of the messages that delegated attestations sign:
/// "ATTEST_PROTOCOL_V1_DELEGATED".
pub const ATTEST_DOMAIN_SEPARATOR: [u8; 28] = [
    65, 84, 84, 69, 83, 84, 95, 80, 82, 79, 84, 79, 67, 79, 76, 95, 86, 49, 95, 68, 69, 76, 69, 71,
    65, 84, 69, 68,
];

/// Domain separator of the messages that delegated revocations sign:
/// "REVOKE_PROTOCOL_V1_DELEGATED".
pub const REVOKE_DOMAIN_SEPARATOR: [u8; 28] = [
    82, 69, 86, 79, 75, 69, 95, 80, 82, 79, 84, 79, 67, 79, 76, 95, 86, 49, 95, 68, 69, 76, 69, 71,
    65, 84, 69, 68,
];

/// Returns the domain separator of delegated attestation messages.
pub fn get_attest_dst() -> (r: &'static [u8])
    ensures
        r@ == ATTEST_DOMAIN_SEPARATOR@,
{
    let r: &'static [u8] = &ATTEST_DOMAIN_SEPARATOR;
    r
}

/// Returns the domain separator of delegated revocation messages.
pub fn get_revoke_dst() -> (r: &'static [u8])
    ensures
        r@ == REVOKE_DOMAIN_SEPARATOR@,
{
    let r: &'static [u8] = &REVOKE_DOMAIN_SEPARATOR;
    r
}

// ---------------------------------------------------------------------------
// Nonces
// ---------------------------------------------------------------------------

/// The outcome of consuming `expected` as the attester's next nonce.
pub open spec fn nonce_step(s: StoreView, attester: Seq<u8>, expected: u64) -> Result<(), Error> {
    if nonce_of(s, attester) != expected {
        Err(Error::InvalidNonce)
    } else if expected == u64::MAX {
        Err(Error::IntegerOverflow)
    } else {
        Ok(())
    }
}

/// The store after the attester's nonce `n` was consumed.
pub open spec fn with_nonce_consumed(s: StoreView, attester: Seq<u8>, n: u64) -> StoreView {
    StoreView { nonces: s.nonces.insert(attester, (n + 1) as u64), ..s }
}

/// Checks that `expected` is the attester's next nonce, and returns the one after it.
fn check_nonce(store: &ProtocolStore, attester: &Address, expected_nonce: u64) -> (r: Result<u64, Error>)
    requires
        store.wf(),
    ensures
        match r {
            Ok(n) => nonce_step(store@, attester@, expected_nonce) is Ok && n == expected_nonce + 1,
            Err(e) => nonce_step(store@, attester@, expected_nonce) == Err::<(), Error>(e),
        },
{
    let current = match store.nonce(attester) {
        Some(n) => n,
        None => 0,
    };
    if current != expected_nonce {
        return Err(Error::InvalidNonce);
    }
    match current.checked_add(1) {
        Some(n) => Ok(n),
        None => Err(Error::IntegerOverflow),
    }
}

/// Verifies that `expected_nonce` is the attester's next nonce and consumes it.
/// Nonces start at zero, each one is accepted once and only in order, and a
/// failed check leaves the nonce as it was.
pub fn verify_and_increment_nonce(
    store: &mut ProtocolStore,
    attester: &Address,
    expected_nonce: u64,
) -> (r: Result<(), Error>)
    requires
        old(store).wf(),
    ensures
        final(store).wf(),
        r == nonce_step(old(store)@, attester@, expected_nonce),
        r is Ok ==> final(store)@ == with_nonce_consumed(old(store)@, attester@, expected_nonce),
        r is Err ==> final(store)@ == old(store)@,
{
    let next = check_nonce(store, attester, expected_nonce)?;
    store.set_nonce(attester, next);
    Ok(())
}

// ---------------------------------------------------------------------------
// Signed messages
// ---------------------------------------------------------------------------

/// The big-endian bytes of an optional time, or nothing.
pub open spec fn optional_be_u64(t: Option<u64>) -> Seq<u8> {
    match t {
        Some(x) => be_u64(x),
        None => Seq::<u8>::empty(),
    }
}

/// The bytes whose SHA-256 digest an attester signs to delegate an
/// attestation: the domain separator, the schema uid, the digest of the
/// subject's address XDR, the nonce, the deadline, the expiration time if
/// any, and the digest of the value's XDR.
pub open spec fn attestation_message_preimage(
    req: AttestationRequestView,
    subject_hash: Seq<u8>,
    value_hash: Seq<u8>,
) -> Seq<u8> {
    ATTEST_DOMAIN_SEPARATOR@ + req.schema_uid + subject_hash + be_u64(req.nonce) + be_u64(
        req.deadline,
    ) + optional_be_u64(req.expiration_time) + value_hash
}

/// The message an attester signs to delegate an attestation.
pub open spec fn attestation_message(req: AttestationRequestView) -> Seq<u8> {
    sha256(
        attestation_message_preimage(
            req,
            sha256(req.subject),
            sha256(scval_string_xdr(req.value)),
        ),
    )
}

/// Lays out the bytes of a delegated attestation message, given the digests
/// of the subject's address XDR and of the value's XDR.
pub fn attestation_message_bytes(
    request: &DelegatedAttestationRequest,
    subject_hash: &[u8; 32],
    value_hash: &[u8; 32],
) -> (r: Vec<u8>)
    ensures
        r@ == attestation_message_preimage(request@, subject_hash@, value_hash@),
{
    let mut message: Vec<u8> = Vec::new();
    append_bytes(&mut message, &ATTEST_DOMAIN_SEPARATOR);
    append_bytes(&mut message, &request.schema_uid);
    append_bytes(&mut message, subject_hash);
    append_be_u64(&mut message, request.nonce);
    append_be_u64(&mut message, request.deadline);
    if let Some(exp_time) = request.expiration_time {
        append_be_u64(&mut message, exp_time);
    } else {
        assert(message@ + Seq::<u8>::empty() =~= message@);
    }
    append_bytes(&mut message, value_hash);
    assert(message@ =~= attestation_message_preimage(request@, subject_hash@, value_hash@));
    message
}

/// Creates the message whose signature authorises a delegated attestation.
pub fn create_attestation_message(
    env: &soroban_sdk::Env,
    request: &DelegatedAttestationRequest,
) -> (r: [u8; 32])
    requires
        request.value@.len() <= u32::MAX,
    ensures
        r@ == attestation_message(request@),
{
    let subject_hash = host_sha256(env, request.subject.as_bytes());
    let value_xdr = host_string_to_xdr(env, request.value.as_slice());
    let value_hash = host_sha256(env, value_xdr.as_slice());
    let message = attestation_message_bytes(request, &subject_hash, &value_hash);
    host_sha256(env, message.as_slice())
}

/// The bytes whose SHA-256 digest an attester signs to delegate a
/// revocation: the domain separator, the schema uid, the attestation uid,
/// the digest of the subject's address XDR, the nonce and the deadline.
pub open spec fn revocation_message_preimage(req: RevocationRequestView, subject_hash: Seq<u8>) -> Seq<u8> {
    REVOKE_DOMAIN_SEPARATOR@ + req.schema_uid + req.attestation_uid + subject_hash + be_u64(
        req.nonce,
    ) + be_u64(req.deadline)
}

/// The message an attester signs to delegate a revocation.
pub open spec fn revocation_message(req: RevocationRequestView) -> Seq<u8> {
    sha256(revocation_message_preimage(req, sha256(req.subject)))
}

/// Lays out the bytes of a delegated revocation message, given the digest of
/// the subject's address XDR.
pub fn revocation_message_bytes(request: &DelegatedRevocationRequest, subject_hash: &[u8; 32]) -> (r:
    Vec<u8>)
    ensures
        r@ == revocation_message_preimage(request@, subject_hash@),
{
    let mut message: Vec<u8> = Vec::new();
    append_bytes(&mut message, &REVOKE_DOMAIN_SEPARATOR);
    append_bytes(&mut message, &request.schema_uid);
    append_bytes(&mut message, &request.attestation_uid);
    append_bytes(&mut message, subject_hash);
    append_be_u64(&mut message, request.nonce);
    append_be_u64(&mut message, request.deadline);
    message
}

/// Creates the message whose signature authorises a delegated revocation.
pub fn create_revocation_message(
    env: &soroban_sdk::Env,
    request: &DelegatedRevocationRequest,
) -> (r: [u8; 32])
    ensures
        r@ == revocation_message(request@),
{
    let subject_hash = host_sha256(env, request.subject.as_bytes());
    let message = revocation_message_bytes(request, &subject_hash);
    host_sha256(env, message.as_slice())
}

// ---------------------------------------------------------------------------
// Delegated attestation
// ---------------------------------------------------------------------------

/// The checks made before the schema's resolver is consulted: the deadline
/// has not passed and the schema exists. On success, the resolver to consult.
pub open spec fn attestation_precheck(s: StoreView, req: AttestationRequestView, now: u64) -> Result<
    Option<Seq<u8>>,
    Error,
> {
    if now > req.deadline {
        Err(Error::ExpiredSignature)
    } else if !s.schemas.contains_key(req.schema_uid) {
        Err(Error::SchemaNotFound)
    } else {
        Ok(s.schemas[req.schema_uid].resolver)
    }
}

/// The outcome of a delegated attestation at ledger time `now`, where
/// `resolver_allows` is the answer of the schema's resolver, if it has one.
pub open spec fn attest_result(
    s: StoreView,
    req: AttestationRequestView,
    now: u64,
    resolver_allows: bool,
) -> Result<AttestationView, Error> {
    match attestation_precheck(s, req, now) {
        Err(e) => Err(e),
        Ok(resolver) => if resolver is Some && !resolver_allows {
            Err(Error::ResolverRejected)
        } else {
            match bls_signature_check(
                bls_key_of(s, req.attester),
                attestation_message(req),
                req.signature,
            ) {
                Err(e) => Err(e),
                Ok(_) => match nonce_step(s, req.attester, req.nonce) {
                    Err(e) => Err(e),
                    Ok(_) => {
                        let uid = attestation_uid_of(req.schema_uid, req.subject, req.nonce);
                        if s.attestations.contains_key(uid) {
                            Err(Error::UIDAlreadyExists)
                        } else {
                            Ok(
                                AttestationView {
                                    uid,
                                    schema_uid: req.schema_uid,
                                    subject: req.subject,
                                    attester: req.attester,
                                    value: req.value,
                                    nonce: req.nonce,
                                    timestamp: now,
                                    expiration_time: req.expiration_time,
                                    revoked: false,
                                    revocation_time: None,
                                },
                            )
                        }
                    },
                },
            }
        },
    }
}

/// The store after a delegated attestation: on success the attester's nonce
/// is consumed and the attestation stored under its uid; otherwise nothing changes.
pub open spec fn attest_state(
    s: StoreView,
    req: AttestationRequestView,
    now: u64,
    resolver_allows: bool,
) -> StoreView {
    match attest_result(s, req, now, resolver_allows) {
        Ok(a) => StoreView {
            attestations: s.attestations.insert(a.uid, a),
            ..with_nonce_consumed(s, req.attester, req.nonce)
        },
        Err(_) => s,
    }
}

/// The resolver to consult before a delegated attestation, after the checks
/// that precede it.
pub fn attestation_resolver(
    store: &ProtocolStore,
    request: &DelegatedAttestationRequest,
    now: u64,
) -> (r: Result<Option<Address>, Error>)
    requires
        store.wf(),
    ensures
        match r {
            Ok(a) => attestation_precheck(store@, request@, now) == Ok::<Option<Seq<u8>>, Error>(
                opt_address_view(a),
            ),
            Err(e) => attestation_precheck(store@, request@, now) == Err::<Option<Seq<u8>>, Error>(e),
        },
{
    if now > request.deadline {
        return Err(Error::ExpiredSignature);
    }
    match store.schema(&request.schema_uid) {
        Some(schema) => Ok(crate::state::copy_opt_address(&schema.resolver)),
        None => Err(Error::SchemaNotFound),
    }
}

/// Creates an attestation from a request signed by its attester, at ledger
/// time `now`. `resolver_allows` is what the schema's resolver answered, and
/// is read only when the schema has one. The signature is checked before the
/// nonce is consumed, and a failure leaves the store as it was.
pub fn attest_by_delegation(
    env: &soroban_sdk::Env,
    store: &mut ProtocolStore,
    request: &DelegatedAttestationRequest,
    now: u64,
    resolver_allows: bool,
) -> (r: Result<Attestation, Error>)
    requires
        old(store).wf(),
        request.value@.len() <= u32::MAX,
    ensures
        final(store).wf(),
        match r {
            Ok(a) => attest_result(old(store)@, request@, now, resolver_allows) == Ok::<
                AttestationView,
                Error,
            >(a@),
            Err(e) => attest_result(old(store)@, request@, now, resolver_allows) == Err::<
                AttestationView,
                Error,
            >(e),
        },
        final(store)@ == attest_state(old(store)@, request@, now, resolver_allows),
{
    if now > request.deadline {
        return Err(Error::ExpiredSignature);
    }
    let has_resolver = match store.schema(&request.schema_uid) {
        Some(schema) => schema.resolver.is_some(),
        None => return Err(Error::SchemaNotFound),
    };
    let message = create_attestation_message(env, request);
    if has_resolver && !resolver_allows {
        return Err(Error::ResolverRejected);
    }
    verify_bls_signature(env, store, &message, &request.signature, &request.attester)?;
    let next_nonce = check_nonce(store, &request.attester, request.nonce)?;
    let uid = generate_attestation_uid(env, &request.schema_uid, &request.subject, request.nonce);
    if store.attestation(&uid).is_some() {
        return Err(Error::UIDAlreadyExists);
    }
    let attestation = Attestation {
        uid,
        schema_uid: request.schema_uid,
        subject: request.subject.copied(),
        attester: request.attester.copied(),
        value: crate::bytes::copy_bytes(request.value.as_slice()),
        nonce: request.nonce,
        timestamp: now,
        expiration_time: request.expiration_time,
        revoked: false,
        revocation_time: None,
    };
    store.set_nonce(&request.attester, next_nonce);
    store.insert_attestation(crate::bytes::copy_bytes(&uid), attestation.copied());
    Ok(attestation)
}

// ---------------------------------------------------------------------------
// Delegated revocation
// ---------------------------------------------------------------------------

/// The checks made before the schema's resolver is consulted: the deadline
/// has not passed, the attestation exists and is not revoked, the revoker is
/// its attester, the schema named is its schema, and that schema exists and
/// allows revocation. On success, the resolver to consult.
pub open spec fn revocation_precheck(s: StoreView, req: RevocationRequestView, now: u64) -> Result<
    Option<Seq<u8>>,
    Error,
> {
    if now > req.deadline {
        Err(Error::ExpiredSignature)
    } else if !s.attestations.contains_key(req.attestation_uid) {
        Err(Error::AttestationNotFound)
    } else if s.attestations[req.attestation_uid].revoked {
        Err(Error::AlreadyRevoked)
    } else if s.attestations[req.attestation_uid].attester != req.revoker {
        Err(Error::NotAuthorized)
    } else if s.attestations[req.attestation_uid].schema_uid != req.schema_uid {
        Err(Error::InvalidReference)
    } else if !s.schemas.contains_key(req.schema_uid) {
        Err(Error::SchemaNotFound)
    } else if !s.schemas[req.schema_uid].revocable {
        Err(Error::AttestationNotRevocable)
    } else {
        Ok(s.schemas[req.schema_uid].resolver)
    }
}

/// The outcome of a delegated revocation at ledger time `now`, where
/// `resolver_allows` is the answer of the schema's resolver, if it has one.
pub open spec fn revoke_result(
    s: StoreView,
    req: RevocationRequestView,
    now: u64,
    resolver_allows: bool,
) -> Result<AttestationView, Error> {
    match revocation_precheck(s, req, now) {
        Err(e) => Err(e),
        Ok(resolver) => if resolver is Some && !resolver_allows {
            Err(Error::ResolverRejected)
        } else {
            match bls_signature_check(
                bls_key_of(s, req.revoker),
                revocation_message(req),
                req.signature,
            ) {
                Err(e) => Err(e),
                Ok(_) => Ok(
                    AttestationView {
                        revoked: true,
                        revocation_time: Some(now),
                        ..s.attestations[req.attestation_uid]
                    },
                ),
            }
        },
    }
}

/// The store after a delegated revocation: on success the attestation is
/// marked revoked at `now`; otherwise nothing changes.
pub open spec fn revoke_state(
    s: StoreView,
    req: RevocationRequestView,
    now: u64,
    resolver_allows: bool,
) -> StoreView {
    match revoke_result(s, req, now, resolver_allows) {
        Ok(a) => StoreView { attestations: s.attestations.insert(req.attestation_uid, a), ..s },
        Err(_) => s,
    }
}

/// The resolver to consult before a delegated revocation, after the checks
/// that precede it.
pub fn revocation_resolver(
    store: &ProtocolStore,
    request: &DelegatedRevocationRequest,
    now: u64,
) -> (r: Result<Option<Address>, Error>)
    requires
        store.wf(),
    ensures
        match r {
            Ok(a) => revocation_precheck(store@, request@, now) == Ok::<Option<Seq<u8>>, Error>(
                opt_address_view(a),
            ),
            Err(e) => revocation_precheck(store@, request@, now) == Err::<Option<Seq<u8>>, Error>(e),
        },
{
    if now > request.deadline {
        return Err(Error::ExpiredSignature);
    }
    let attestation = match store.attestation(&request.attestation_uid) {
        Some(a) => a,
        None => return Err(Error::AttestationNotFound),
    };
    if attestation.revoked {
        return Err(Error::AlreadyRevoked);
    }
    if !bytes_eq(attestation.attester.as_bytes(), request.revoker.as_bytes()) {
        return Err(Error::NotAuthorized);
    }
    if !bytes_eq(&attestation.schema_uid, &request.schema_uid) {
        return Err(Error::InvalidReference);
    }
    let schema = match store.schema(&request.schema_uid) {
        Some(s) => s,
        None => return Err(Error::SchemaNotFound),
    };
    if !schema.revocable {
        return Err(Error::AttestationNotRevocable);
    }
    Ok(crate::state::copy_opt_address(&schema.resolver))
}

/// Revokes an attestation on a request signed by its attester, at ledger
/// time `now`. `resolver_allows` is what the schema's resolver answered, and
/// is read only when the schema has one. A failure leaves the store as it was.
pub fn revoke_by_delegation(
    env: &soroban_sdk::Env,
    store: &mut ProtocolStore,
    request: &DelegatedRevocationRequest,
    now: u64,
    resolver_allows: bool,
) -> (r: Result<Attestation, Error>)
    requires
        old(store).wf(),
    ensures
        final(store).wf(),
        match r {
            Ok(a) => revoke_result(old(store)@, request@, now, resolver_allows) == Ok::<
                AttestationView,
                Error,
            >(a@),
            Err(e) => revoke_result(old(store)@, request@, now, resolver_allows) == Err::<
                AttestationView,
                Error,
            >(e),
        },
        final(store)@ == revoke_state(old(store)@, request@, now, resolver_allows),
{
    let resolver = revocation_resolver(store, request, now)?;
    if resolver.is_some() && !resolver_allows {
        return Err(Error::ResolverRejected);
    }
    let message = create_revocation_message(env, request);
    verify_bls_signature(env, store, &message, &request.signature, &request.revoker)?;
    let mut attestation = store.attestation(&request.attestation_uid).unwrap().copied();
    attestation.revoked = true;
    attestation.revocation_time = Some(now);
    store.insert_attestation(crate::bytes::copy_bytes(&request.attestation_uid), attestation.copied());
    Ok(attestation)
}

} // verus!
