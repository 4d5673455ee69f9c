use protocol::errors::Error;
use protocol::instructions::admin::initialize;
use protocol::instructions::crypto::{
    g1_point_is_usable, g2_point_is_usable, get_bls_public_key, register_bls_public_key,
    validate_g1_point_bytes, validate_g2_point_bytes, verify_bls_signature,
    ATTEST_PROTOCOL_BLS_G1_DST, G2_GENERATOR,
};
use protocol::instructions::delegation::{
    attest_by_delegation, attestation_resolver, create_attestation_message,
    create_revocation_message, revocation_resolver, revoke_by_delegation,
    verify_and_increment_nonce,
};
use protocol::instructions::schema::{register_schema, set_schema_registration_config};
use protocol::state::{Address, DelegatedAttestationRequest, DelegatedRevocationRequest, ProtocolStore};
use protocol::utils::{generate_attestation_uid, get_next_nonce};
use soroban_sdk::crypto::bls12_381::{Bls12381Fr, Bls12381G2Affine};
use soroban_sdk::testutils::Address as _;
use soroban_sdk::xdr::ToXdr;
use soroban_sdk::{Bytes, Env, U256};

fn new_env() -> Env {
    let env = Env::default();
    env.cost_estimate().budget().reset_unlimited();
    env
}

fn new_address(env: &Env) -> Address {
    let a = soroban_sdk::Address::generate(env);
    let xdr = a.to_xdr(env);
    let mut bytes = vec![0u8; xdr.len() as usize];
    xdr.copy_into_slice(&mut bytes);
    Address::from_xdr(bytes)
}

fn bls_keypair(env: &Env, secret: u32) -> ([u8; 192], Bls12381Fr) {
    let sk = Bls12381Fr::from_u256(U256::from_u32(env, secret));
    let g2 = Bls12381G2Affine::from_array(env, &G2_GENERATOR);
    let pk = env.crypto().bls12_381().g2_mul(&g2, &sk);
    (pk.to_array(), sk)
}

fn sign(env: &Env, sk: &Bls12381Fr, message: &[u8; 32]) -> [u8; 96] {
    let h = env.crypto().bls12_381().hash_to_g1(
        &Bytes::from_slice(env, message),
        &Bytes::from_slice(env, &ATTEST_PROTOCOL_BLS_G1_DST),
    );
    env.crypto().bls12_381().g1_mul(&h, sk).to_array()
}

/// A point with clean flags and coordinates below the modulus that is not on the curve.
fn off_curve_g1() -> [u8; 96] {
    let mut p = [0u8; 96];
    p[47] = 1;
    p[95] = 1;
    p
}

struct Setup {
    env: Env,
    store: ProtocolStore,
    attester: Address,
    subject: Address,
    schema_uid: [u8; 32],
    sk: Bls12381Fr,
}

fn setup(revocable: bool, resolver: Option<Address>) -> Setup {
    let env = new_env();
    let mut store = ProtocolStore::new();
    let admin = new_address(&env);
    initialize(&mut store, &admin).unwrap();
    let authority = new_address(&env);
    let schema_uid = register_schema(
        &env,
        &mut store,
        &authority,
        br#"{"name":"Degree"}"#.to_vec(),
        resolver,
        revocable,
    )
    .unwrap();
    let attester = new_address(&env);
    let subject = new_address(&env);
    let (pk, sk) = bls_keypair(&env, 424242);
    register_bls_public_key(&mut store, &attester, pk, 7).unwrap();
    Setup { env, store, attester, subject, schema_uid, sk }
}

fn attestation_request(s: &Setup, nonce: u64, deadline: u64) -> DelegatedAttestationRequest {
    let mut req = DelegatedAttestationRequest {
        schema_uid: s.schema_uid,
        subject: s.subject.clone(),
        attester: s.attester.clone(),
        value: b"graduated".to_vec(),
        nonce,
        deadline,
        expiration_time: Some(5000),
        signature: [0u8; 96],
    };
    let message = create_attestation_message(&s.env, &req);
    req.signature = sign(&s.env, &s.sk, &message);
    req
}

fn revocation_request(s: &Setup, uid: [u8; 32], revoker: &Address, deadline: u64) -> DelegatedRevocationRequest {
    let mut req = DelegatedRevocationRequest {
        attestation_uid: uid,
        schema_uid: s.schema_uid,
        subject: s.subject.clone(),
        revoker: revoker.clone(),
        nonce: 0,
        deadline,
        signature: [0u8; 96],
    };
    let message = create_revocation_message(&s.env, &req);
    req.signature = sign(&s.env, &s.sk, &message);
    req
}

#[test]
fn test_bls_key_registered_once() {
    let env = new_env();
    let mut store = ProtocolStore::new();
    let attester = new_address(&env);
    let (pk1, _) = bls_keypair(&env, 11);
    let (pk2, _) = bls_keypair(&env, 12);
    assert_eq!(register_bls_public_key(&mut store, &attester, pk1, 100), Ok(()));
    assert_eq!(register_bls_public_key(&mut store, &attester, pk2, 200), Err(Error::AlreadyInitialized));
    let key = get_bls_public_key(&store, &attester).unwrap();
    assert_eq!(key.key, pk1);
    assert_eq!(key.registered_at, 100);
}

#[test]
fn test_bls_key_with_flag_bits_rejected() {
    let env = new_env();
    let mut store = ProtocolStore::new();
    let attester = new_address(&env);
    let mut compressed = [0u8; 192];
    compressed[0] = 0x80;
    assert_eq!(
        register_bls_public_key(&mut store, &attester, compressed, 1),
        Err(Error::InvalidSignaturePoint)
    );
    let mut infinity = [0u8; 192];
    infinity[0] = 0x40;
    assert_eq!(
        register_bls_public_key(&mut store, &attester, infinity, 1),
        Err(Error::InvalidSignaturePoint)
    );
    assert_eq!(get_bls_public_key(&store, &attester).err(), Some(Error::BlsPubKeyNotRegistered));
}

#[test]
fn test_flag_byte_checks() {
    let mut g1 = [0u8; 96];
    assert_eq!(validate_g1_point_bytes(&g1), Ok(()));
    g1[0] = 0x20;
    assert_eq!(validate_g1_point_bytes(&g1), Ok(()));
    g1[0] = 0xc0;
    assert_eq!(validate_g1_point_bytes(&g1), Err(Error::InvalidSignaturePoint));
    let mut g2 = [0u8; 192];
    g2[0] = 0x40;
    assert_eq!(validate_g2_point_bytes(&g2), Err(Error::InvalidSignaturePoint));
    g2[0] = 0x1f;
    assert_eq!(validate_g2_point_bytes(&g2), Ok(()));
}

#[test]
fn test_point_usability() {
    let env = new_env();
    let (pk, sk) = bls_keypair(&env, 99);
    assert!(g2_point_is_usable(&env, &pk));
    assert!(g2_point_is_usable(&env, &G2_GENERATOR));
    let sig = sign(&env, &sk, &[7u8; 32]);
    assert!(g1_point_is_usable(&env, &sig));
    assert!(!g1_point_is_usable(&env, &off_curve_g1()));
    let mut above_modulus = [0u8; 96];
    above_modulus[0] = 0x1b;
    assert!(!g1_point_is_usable(&env, &above_modulus));
    let mut sort_flag = sig;
    sort_flag[0] |= 0x20;
    assert!(!g1_point_is_usable(&env, &sort_flag));
}

#[test]
fn test_verify_bls_signature() {
    let env = new_env();
    let mut store = ProtocolStore::new();
    let attester = new_address(&env);
    let other = new_address(&env);
    let (pk, sk) = bls_keypair(&env, 31337);
    register_bls_public_key(&mut store, &attester, pk, 1).unwrap();
    let message = [9u8; 32];
    let sig = sign(&env, &sk, &message);
    assert_eq!(verify_bls_signature(&env, &store, &message, &sig, &attester), Ok(()));
    assert_eq!(
        verify_bls_signature(&env, &store, &[8u8; 32], &sig, &attester),
        Err(Error::InvalidSignature)
    );
    assert_eq!(
        verify_bls_signature(&env, &store, &message, &sig, &other),
        Err(Error::BlsPubKeyNotRegistered)
    );
    let (_, wrong_sk) = bls_keypair(&env, 31338);
    let forged = sign(&env, &wrong_sk, &message);
    assert_eq!(
        verify_bls_signature(&env, &store, &message, &forged, &attester),
        Err(Error::InvalidSignature)
    );
    let mut flagged = sig;
    flagged[0] |= 0x80;
    assert_eq!(
        verify_bls_signature(&env, &store, &message, &flagged, &attester),
        Err(Error::InvalidSignaturePoint)
    );
    assert_eq!(
        verify_bls_signature(&env, &store, &message, &off_curve_g1(), &attester),
        Err(Error::InvalidSignaturePoint)
    );
}

#[test]
fn test_nonce_sequence() {
    let env = new_env();
    let mut store = ProtocolStore::new();
    let a = new_address(&env);
    let b = new_address(&env);
    assert_eq!(get_next_nonce(&store, &a), 0);
    assert_eq!(verify_and_increment_nonce(&mut store, &a, 1), Err(Error::InvalidNonce));
    assert_eq!(get_next_nonce(&store, &a), 0);
    assert_eq!(verify_and_increment_nonce(&mut store, &a, 0), Ok(()));
    assert_eq!(verify_and_increment_nonce(&mut store, &a, 0), Err(Error::InvalidNonce));
    assert_eq!(verify_and_increment_nonce(&mut store, &a, 1), Ok(()));
    assert_eq!(get_next_nonce(&store, &a), 2);
    assert_eq!(get_next_nonce(&store, &b), 0);
    store.set_nonce(&b, u64::MAX);
    assert_eq!(verify_and_increment_nonce(&mut store, &b, u64::MAX), Err(Error::IntegerOverflow));
    assert_eq!(get_next_nonce(&store, &b), u64::MAX);
}

#[test]
fn test_delegated_attestation_and_revocation() {
    let mut s = setup(true, None);
    let req = attestation_request(&s, 0, 1000);
    assert_eq!(attestation_resolver(&s.store, &req, 500).unwrap().map(|a| a.xdr), None);
    let attestation = attest_by_delegation(&s.env, &mut s.store, &req, 500, true).unwrap();
    let uid = generate_attestation_uid(&s.env, &s.schema_uid, &s.subject, 0);
    assert_eq!(attestation.uid, uid);
    assert_eq!(attestation.schema_uid, s.schema_uid);
    assert_eq!(attestation.attester.xdr, s.attester.xdr);
    assert_eq!(attestation.subject.xdr, s.subject.xdr);
    assert_eq!(attestation.value, b"graduated".to_vec());
    assert_eq!(attestation.timestamp, 500);
    assert_eq!(attestation.expiration_time, Some(5000));
    assert!(!attestation.revoked);
    assert_eq!(get_next_nonce(&s.store, &s.attester), 1);
    assert!(s.store.attestation(&uid).is_some());

    // The same signed request cannot be replayed.
    assert_eq!(
        attest_by_delegation(&s.env, &mut s.store, &req, 500, true).err(),
        Some(Error::InvalidNonce)
    );

    let attester = s.attester.clone();
    let rreq = revocation_request(&s, uid, &attester, 2000);
    assert_eq!(revocation_resolver(&s.store, &rreq, 600).unwrap().map(|a| a.xdr), None);
    let revoked = revoke_by_delegation(&s.env, &mut s.store, &rreq, 600, true).unwrap();
    assert!(revoked.revoked);
    assert_eq!(revoked.revocation_time, Some(600));
    assert_eq!(revoked.uid, uid);
    assert!(s.store.attestation(&uid).unwrap().revoked);
    assert_eq!(
        revoke_by_delegation(&s.env, &mut s.store, &rreq, 700, true).err(),
        Some(Error::AlreadyRevoked)
    );
}

#[test]
fn test_attestation_refusals_leave_nonce() {
    let mut s = setup(true, None);
    let expired = attestation_request(&s, 0, 100);
    assert_eq!(
        attest_by_delegation(&s.env, &mut s.store, &expired, 101, true).err(),
        Some(Error::ExpiredSignature)
    );
    let wrong_nonce = attestation_request(&s, 1, 1000);
    assert_eq!(
        attest_by_delegation(&s.env, &mut s.store, &wrong_nonce, 10, true).err(),
        Some(Error::InvalidNonce)
    );
    let mut bad_sig = attestation_request(&s, 0, 1000);
    bad_sig.value = b"tampered".to_vec();
    assert_eq!(
        attest_by_delegation(&s.env, &mut s.store, &bad_sig, 10, true).err(),
        Some(Error::InvalidSignature)
    );
    let mut unknown_schema = attestation_request(&s, 0, 1000);
    unknown_schema.schema_uid = [1u8; 32];
    assert_eq!(
        attestation_resolver(&s.store, &unknown_schema, 10).err(),
        Some(Error::SchemaNotFound)
    );
    assert_eq!(
        attest_by_delegation(&s.env, &mut s.store, &unknown_schema, 10, true).err(),
        Some(Error::SchemaNotFound)
    );
    let mut no_key = attestation_request(&s, 0, 1000);
    no_key.attester = new_address(&s.env);
    assert_eq!(
        attest_by_delegation(&s.env, &mut s.store, &no_key, 10, true).err(),
        Some(Error::BlsPubKeyNotRegistered)
    );
    assert_eq!(get_next_nonce(&s.store, &s.attester), 0);
    let good = attestation_request(&s, 0, 1000);
    assert!(attest_by_delegation(&s.env, &mut s.store, &good, 10, true).is_ok());
}

#[test]
fn test_resolver_consent() {
    let env_resolver = new_env();
    let resolver = new_address(&env_resolver);
    let mut s = setup(true, Some(resolver.clone()));
    let req = attestation_request(&s, 0, 1000);
    assert_eq!(
        attestation_resolver(&s.store, &req, 10).unwrap().map(|a| a.xdr),
        Some(resolver.xdr.clone())
    );
    assert_eq!(
        attest_by_delegation(&s.env, &mut s.store, &req, 10, false).err(),
        Some(Error::ResolverRejected)
    );
    assert_eq!(get_next_nonce(&s.store, &s.attester), 0);
    let attestation = attest_by_delegation(&s.env, &mut s.store, &req, 10, true).unwrap();
    let attester = s.attester.clone();
    let rreq = revocation_request(&s, attestation.uid, &attester, 1000);
    assert_eq!(
        revoke_by_delegation(&s.env, &mut s.store, &rreq, 20, false).err(),
        Some(Error::ResolverRejected)
    );
    assert!(!s.store.attestation(&attestation.uid).unwrap().revoked);
    assert!(revoke_by_delegation(&s.env, &mut s.store, &rreq, 20, true).is_ok());
}

#[test]
fn test_revocation_refusals() {
    let mut s = setup(true, None);
    let req = attestation_request(&s, 0, 1000);
    let attestation = attest_by_delegation(&s.env, &mut s.store, &req, 10, true).unwrap();
    let attester = s.attester.clone();

    let missing = revocation_request(&s, [3u8; 32], &attester, 1000);
    assert_eq!(
        revoke_by_delegation(&s.env, &mut s.store, &missing, 20, true).err(),
        Some(Error::AttestationNotFound)
    );
    let stranger = new_address(&s.env);
    let not_attester = revocation_request(&s, attestation.uid, &stranger, 1000);
    assert_eq!(
        revoke_by_delegation(&s.env, &mut s.store, &not_attester, 20, true).err(),
        Some(Error::NotAuthorized)
    );
    let mut other_schema = revocation_request(&s, attestation.uid, &attester, 1000);
    other_schema.schema_uid = [4u8; 32];
    assert_eq!(
        revoke_by_delegation(&s.env, &mut s.store, &other_schema, 20, true).err(),
        Some(Error::InvalidReference)
    );
    let late = revocation_request(&s, attestation.uid, &attester, 15);
    assert_eq!(
        revoke_by_delegation(&s.env, &mut s.store, &late, 20, true).err(),
        Some(Error::ExpiredSignature)
    );
    let mut forged = revocation_request(&s, attestation.uid, &attester, 1000);
    forged.deadline = 999;
    assert_eq!(
        revoke_by_delegation(&s.env, &mut s.store, &forged, 20, true).err(),
        Some(Error::InvalidSignature)
    );
    assert!(!s.store.attestation(&attestation.uid).unwrap().revoked);
}

#[test]
fn test_non_revocable_schema() {
    let mut s = setup(false, None);
    let req = attestation_request(&s, 0, 1000);
    let attestation = attest_by_delegation(&s.env, &mut s.store, &req, 10, true).unwrap();
    let attester = s.attester.clone();
    let rreq = revocation_request(&s, attestation.uid, &attester, 1000);
    assert_eq!(
        revoke_by_delegation(&s.env, &mut s.store, &rreq, 20, true).err(),
        Some(Error::AttestationNotRevocable)
    );
}

#[test]
fn test_admin_lifecycle() {
    let env = new_env();
    let mut store = ProtocolStore::new();
    let admin = new_address(&env);
    assert_eq!(
        set_schema_registration_config(&mut store, &admin, 1, 1),
        Err(Error::NotInitialized)
    );
    assert_eq!(initialize(&mut store, &admin), Ok(()));
    assert_eq!(initialize(&mut store, &admin), Err(Error::AlreadyInitialized));
    assert_eq!(set_schema_registration_config(&mut store, &admin, 1, 1), Ok(()));
}

#[test]
fn test_error_codes() {
    assert_eq!(Error::TransferFailed.code(), 1);
    assert_eq!(Error::InvalidUid.code(), 9);
    assert_eq!(Error::InvalidSignaturePoint.code(), 25);
    assert_eq!(Error::SchemaAlreadyExists.code(), 28);
}
