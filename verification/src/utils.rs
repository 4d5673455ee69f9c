//! Identifiers, lookups and encodings shared by the instructions.

use vstd::prelude::*;

use crate::bytes::{append_be_u64, append_bytes, be_u64};
use crate::host::{
    host_bytes32_to_xdr, host_keccak256, host_sha256, host_string_to_xdr, keccak256,
    scval_bytes_xdr, scval_string_xdr, sha256,
};
use crate::state::{opt_address_view, Address, ProtocolStore, Schema, StoreView};

verus! {

/// The bytes hashed into a schema uid: the XDR of the definition string,
/// the authority's address XDR, and the resolver's address XDR if there is one.
pub open spec fn schema_uid_preimage(
    definition: Seq<u8>,
    authority: Seq<u8>,
    resolver: Option<Seq<u8>>,
) -> Seq<u8> {
    scval_string_xdr(definition) + authority + match resolver {
        Some(r) => r,
        None => Seq::<u8>::empty(),
    }
}

/// The uid of a schema: the SHA-256 digest of its preimage.
pub open spec fn schema_uid_of(
    definition: Seq<u8>,
    authority: Seq<u8>,
    resolver: Option<Seq<u8>>,
) -> Seq<u8> {
    sha256(schema_uid_preimage(definition, authority, resolver))
}

/// Generates the unique identifier of a schema from its definition, the
/// registering authority and the optional resolver.
pub fn generate_schema_uid(
    env: &soroban_sdk::Env,
    schema_definition: &[u8],
    authority: &Address,
    resolver: &Option<Address>,
) -> (uid: [u8; 32])
    requires
        schema_definition@.len() <= u32::MAX,
    ensures
        uid@ == schema_uid_of(schema_definition@, authority@, opt_address_view(*resolver)),
{
    let mut data = host_string_to_xdr(env, schema_definition);
    append_bytes(&mut data, authority.as_bytes());
    if let Some(r) = resolver {
        append_bytes(&mut data, r.as_bytes());
    } else {
        assert(data@ + Seq::<u8>::empty() =~= data@);
    }
    host_sha256(env, data.as_slice())
}

/// The bytes hashed into an attestation uid: the XDR of the schema uid, the
/// subject's address XDR, and the nonce in eight big-endian bytes.
pub open spec fn attestation_uid_preimage(schema_uid: Seq<u8>, subject: Seq<u8>, nonce: u64) -> Seq<u8> {
    scval_bytes_xdr(schema_uid) + subject + be_u64(nonce)
}

/// The uid of an attestation: the Keccak-256 digest of its preimage.
pub open spec fn attestation_uid_of(schema_uid: Seq<u8>, subject: Seq<u8>, nonce: u64) -> Seq<u8> {
    keccak256(attestation_uid_preimage(schema_uid, subject, nonce))
}

/// Generates the unique identifier of an attestation from its schema, its
/// subject and the attester's nonce.
pub fn generate_attestation_uid(
    env: &soroban_sdk::Env,
    schema_uid: &[u8; 32],
    subject: &Address,
    nonce: u64,
) -> (uid: [u8; 32])
    ensures
        uid@ == attestation_uid_of(schema_uid@, subject@, nonce),
{
    let mut data = host_bytes32_to_xdr(env, schema_uid);
    append_bytes(&mut data, subject.as_bytes());
    append_be_u64(&mut data, nonce);
    host_keccak256(env, data.as_slice())
}

/// Retrieves a schema by its uid.
pub fn get_schema(store: &ProtocolStore, schema_uid: &[u8; 32]) -> (r: Option<Schema>)
    requires
        store.wf(),
    ensures
        match r {
            Some(s) => store@.schemas.contains_key(schema_uid@) && store@.schemas[schema_uid@] == s@,
            None => !store@.schemas.contains_key(schema_uid@),
        },
{
    match store.schema(schema_uid) {
        Some(s) => Some(s.copied()),
        None => None,
    }
}

/// The next nonce an attester must use: zero until the first use.
pub open spec fn nonce_of(s: StoreView, attester: Seq<u8>) -> u64 {
    if s.nonces.contains_key(attester) {
        s.nonces[attester]
    } else {
        0
    }
}

/// Gets the next nonce for an attester.
pub fn get_next_nonce(store: &ProtocolStore, attester: &Address) -> (n: u64)
    requires
        store.wf(),
    ensures
        n == nonce_of(store@, attester@),
{
    match store.nonce(attester) {
        Some(n) => n,
        None => 0,
    }
}

/// The lowercase hexadecimal digit of a number below sixteen.
pub open spec fn hex_digit(n: u8) -> u8 {
    if n < 10 {
        (48 + n) as u8
    } else {
        (87 + n) as u8
    }
}

/// The lowercase hexadecimal encoding of a byte string, two digits per byte.
pub open spec fn hex_lower(s: Seq<u8>) -> Seq<u8> {
    Seq::new(
        2 * s.len(),
        |i: int|
            if i % 2 == 0 {
                hex_digit(s[i / 2] / 16)
            } else {
                hex_digit(s[i / 2] % 16)
            },
    )
}

/// The prefix "XDR:".
pub open spec fn xdr_prefix() -> Seq<u8> {
    seq![88u8, 68u8, 82u8, 58u8]
}

fn hex_digit_exec(n: u8) -> (d: u8)
    requires
        n < 16,
    ensures
        d == hex_digit(n),
{
    if n < 10 {
        48 + n
    } else {
        87 + n
    }
}

/// The identifier "XDR:" followed by the 64 lowercase hexadecimal digits of
/// a SHA-256 digest.
pub fn xdr_string_from_digest(digest: &[u8; 32]) -> (r: Vec<u8>)
    ensures
        r@ == xdr_prefix() + hex_lower(digest@),
        r@.len() == 68,
{
    let mut r: Vec<u8> = Vec::new();
    r.push(88u8);
    r.push(68u8);
    r.push(82u8);
    r.push(58u8);
    let mut i: usize = 0;
    while i < 32
        invariant
            i <= 32,
            digest@.len() == 32,
            r@ == xdr_prefix() + hex_lower(digest@.subrange(0, i as int)),
        decreases 32 - i,
    {
        let byte = digest[i];
        let hi = hex_digit_exec(byte / 16);
        let lo = hex_digit_exec(byte % 16);
        r.push(hi);
        r.push(lo);
        i = i + 1;
        assert(r@ =~= xdr_prefix() + hex_lower(digest@.subrange(0, i as int)));
    }
    assert(digest@.subrange(0, 32) =~= digest@);
    r
}

/// Creates the deterministic identifier "XDR:" + the hexadecimal SHA-256
/// digest of the XDR encoding of a string.
pub fn create_xdr_string(env: &soroban_sdk::Env, value: &[u8]) -> (r: Vec<u8>)
    requires
        value@.len() <= u32::MAX,
    ensures
        r@ == xdr_prefix() + hex_lower(sha256(scval_string_xdr(value@))),
        r@.len() == 68,
{
    let xdr = host_string_to_xdr(env, value);
    let digest = host_sha256(env, xdr.as_slice());
    xdr_string_from_digest(&digest)
}

} // verus!
