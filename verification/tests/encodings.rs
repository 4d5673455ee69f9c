use protocol::instructions::delegation::{
    attestation_message_bytes, create_attestation_message, create_revocation_message,
    get_attest_dst, get_revoke_dst, revocation_message_bytes,
};
use protocol::state::{Address, DelegatedAttestationRequest, DelegatedRevocationRequest};
use protocol::utils::{create_xdr_string, generate_attestation_uid, generate_schema_uid, xdr_string_from_digest};
use soroban_sdk::testutils::Address as _;
use soroban_sdk::xdr::ToXdr;
use soroban_sdk::{Bytes, BytesN, Env};

fn to_vec(b: &Bytes) -> Vec<u8> {
    let mut v = vec![0u8; b.len() as usize];
    b.copy_into_slice(&mut v);
    v
}

fn new_address(env: &Env) -> (soroban_sdk::Address, Address) {
    let a = soroban_sdk::Address::generate(env);
    let xdr = to_vec(&a.clone().to_xdr(env));
    (a, Address::from_xdr(xdr))
}

fn sha256(env: &Env, data: &[u8]) -> [u8; 32] {
    env.crypto().sha256(&Bytes::from_slice(env, data)).to_array()
}

fn hex(data: &[u8]) -> String {
    data.iter().map(|b| format!("{:02x}", b)).collect()
}

#[test]
fn test_string_xdr_layout() {
    let env = Env::default();
    for s in ["", "a", "abcd", "hello", "hello world!"] {
        let xdr = to_vec(&soroban_sdk::String::from_str(&env, s).to_xdr(&env));
        let mut expected = vec![0u8, 0, 0, 14];
        expected.extend_from_slice(&(s.len() as u32).to_be_bytes());
        expected.extend_from_slice(s.as_bytes());
        while expected.len() % 4 != 0 {
            expected.push(0);
        }
        assert_eq!(xdr, expected, "string {:?}", s);
    }
}

#[test]
fn test_bytes32_xdr_layout() {
    let env = Env::default();
    let b = [0x5au8; 32];
    let xdr = to_vec(&BytesN::from_array(&env, &b).to_xdr(&env));
    let mut expected = vec![0u8, 0, 0, 13, 0, 0, 0, 32];
    expected.extend_from_slice(&b);
    assert_eq!(xdr, expected);
}

#[test]
fn test_create_xdr_string() {
    let env = Env::default();
    let value = "hello world";
    let r = create_xdr_string(&env, value.as_bytes());
    let xdr = to_vec(&soroban_sdk::String::from_str(&env, value).to_xdr(&env));
    let expected = format!("XDR:{}", hex(&sha256(&env, &xdr)));
    assert_eq!(r.len(), 68);
    assert_eq!(String::from_utf8(r).unwrap(), expected);
}

#[test]
fn test_xdr_string_from_digest() {
    let mut digest = [0u8; 32];
    digest[0] = 0x2c;
    digest[1] = 0xf2;
    digest[31] = 0x9f;
    let r = String::from_utf8(xdr_string_from_digest(&digest)).unwrap();
    assert_eq!(
        r,
        "XDR:2cf200000000000000000000000000000000000000000000000000000000009f"
    );
}

#[test]
fn test_schema_uid_matches_host() {
    let env = Env::default();
    let (authority, lib_authority) = new_address(&env);
    let (resolver, lib_resolver) = new_address(&env);
    let definition = "{\"name\":\"Degree\"}";
    let def = soroban_sdk::String::from_str(&env, definition);

    let mut data = Bytes::new(&env);
    data.append(&def.clone().to_xdr(&env));
    data.append(&authority.clone().to_xdr(&env));
    let without: [u8; 32] = env.crypto().sha256(&data).to_array();
    data.append(&resolver.clone().to_xdr(&env));
    let with: [u8; 32] = env.crypto().sha256(&data).to_array();

    assert_eq!(generate_schema_uid(&env, definition.as_bytes(), &lib_authority, &None), without);
    assert_eq!(
        generate_schema_uid(&env, definition.as_bytes(), &lib_authority, &Some(lib_resolver)),
        with
    );
    assert_ne!(with, without);
}

#[test]
fn test_attestation_uid_matches_host() {
    let env = Env::default();
    let (subject, lib_subject) = new_address(&env);
    let schema_uid = [0xcdu8; 32];
    let nonce: u64 = 42;

    let mut data = Bytes::new(&env);
    data.append(&BytesN::from_array(&env, &schema_uid).to_xdr(&env));
    data.append(&subject.clone().to_xdr(&env));
    data.extend_from_array(&nonce.to_be_bytes());
    let expected: [u8; 32] = env.crypto().keccak256(&data).to_array();

    assert_eq!(generate_attestation_uid(&env, &schema_uid, &lib_subject, nonce), expected);
    assert_ne!(generate_attestation_uid(&env, &schema_uid, &lib_subject, nonce + 1), expected);
}

fn attestation_request(env: &Env, expiration_time: Option<u64>) -> DelegatedAttestationRequest {
    let (_, subject) = new_address(env);
    let (_, attester) = new_address(env);
    DelegatedAttestationRequest {
        schema_uid: [1u8; 32],
        subject,
        attester,
        value: b"test-value".to_vec(),
        nonce: 0x0102030405060708,
        deadline: 1000,
        expiration_time,
        signature: [0u8; 96],
    }
}

#[test]
fn test_attestation_message_layout() {
    let env = Env::default();
    let req = attestation_request(&env, Some(258));
    let bytes = attestation_message_bytes(&req, &[2u8; 32], &[3u8; 32]);
    let mut expected = b"ATTEST_PROTOCOL_V1_DELEGATED".to_vec();
    expected.extend_from_slice(&[1u8; 32]);
    expected.extend_from_slice(&[2u8; 32]);
    expected.extend_from_slice(&[1, 2, 3, 4, 5, 6, 7, 8]);
    expected.extend_from_slice(&[0, 0, 0, 0, 0, 0, 3, 232]);
    expected.extend_from_slice(&[0, 0, 0, 0, 0, 0, 1, 2]);
    expected.extend_from_slice(&[3u8; 32]);
    assert_eq!(bytes, expected);

    let without_exp = attestation_request(&env, None);
    let bytes = attestation_message_bytes(&without_exp, &[2u8; 32], &[3u8; 32]);
    assert_eq!(bytes.len(), 28 + 32 + 32 + 8 + 8 + 32);
}

#[test]
fn test_create_attestation_message_matches_host() {
    let env = Env::default();
    let req = attestation_request(&env, Some(77));
    let subject_hash = sha256(&env, &req.subject.xdr);
    let value_xdr = to_vec(&soroban_sdk::String::from_str(&env, "test-value").to_xdr(&env));
    let value_hash = sha256(&env, &value_xdr);
    let mut message = b"ATTEST_PROTOCOL_V1_DELEGATED".to_vec();
    message.extend_from_slice(&req.schema_uid);
    message.extend_from_slice(&subject_hash);
    message.extend_from_slice(&req.nonce.to_be_bytes());
    message.extend_from_slice(&req.deadline.to_be_bytes());
    message.extend_from_slice(&77u64.to_be_bytes());
    message.extend_from_slice(&value_hash);
    assert_eq!(create_attestation_message(&env, &req), sha256(&env, &message));
}

#[test]
fn test_revocation_message() {
    let env = Env::default();
    let (_, subject) = new_address(&env);
    let (_, revoker) = new_address(&env);
    let req = DelegatedRevocationRequest {
        attestation_uid: [6u8; 32],
        schema_uid: [5u8; 32],
        subject,
        revoker,
        nonce: 9,
        deadline: 10,
        signature: [0u8; 96],
    };
    let bytes = revocation_message_bytes(&req, &[7u8; 32]);
    let mut expected = b"REVOKE_PROTOCOL_V1_DELEGATED".to_vec();
    expected.extend_from_slice(&[5u8; 32]);
    expected.extend_from_slice(&[6u8; 32]);
    expected.extend_from_slice(&[7u8; 32]);
    expected.extend_from_slice(&9u64.to_be_bytes());
    expected.extend_from_slice(&10u64.to_be_bytes());
    assert_eq!(bytes, expected);

    let subject_hash = sha256(&env, &req.subject.xdr);
    let full = revocation_message_bytes(&req, &subject_hash);
    assert_eq!(create_revocation_message(&env, &req), sha256(&env, &full));
}

#[test]
fn test_domain_separators() {
    assert_eq!(get_attest_dst(), b"ATTEST_PROTOCOL_V1_DELEGATED");
    assert_eq!(get_revoke_dst(), b"REVOKE_PROTOCOL_V1_DELEGATED");
    assert_ne!(get_attest_dst(), get_revoke_dst());
}
