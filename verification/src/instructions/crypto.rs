//! BLS12-381 key registration and signature verification.
//!
//! Signatures are points of G1 (96 bytes, uncompressed) and public keys are
//! points of G2 (192 bytes, uncompressed). A signature S of a message m by the
//! key P is valid when e(S, g2) * e(-H(m), P) == 1, where H hashes to G1 under
//! the tag of this protocol and g2 is the generator of G2.

use vstd::prelude::*;

use crate::errors::Error;
use crate::host::{
    fp_modulus, g1_negation, g1_usable, g2_usable, hash_to_g1, host_g1_is_in_subgroup,
    host_g1_is_on_curve, host_g1_negate, host_g2_is_in_subgroup, host_g2_is_on_curve,
    host_hash_to_g1, host_pairing_check, is_infinity_encoding, lemma_g2_generator_canonical,
    pairing_product_is_one,
    fp_chunk_below_modulus, point_encoding_canonical,
};
use crate::state::{Address, BlsPublicKey, BlsPublicKeyView, ProtocolStore, StoreView};

pub use crate::host::G2_GENERATOR;

verus! {

/// Domain separation tag under which messages are hashed to G1.
pub const ATTEST_PROTOCOL_BLS_G1_DST: [u8; 43] = [
    66, 76, 83, 95, 83, 73, 71, 95, 66, 76, 83, 49, 50, 51, 56, 49, 71, 49, 95, 88, 77, 68, 58, 83,
    72, 65, 45, 50, 53, 54, 95, 83, 83, 87, 85, 95, 82, 79, 95, 78, 85, 76, 95,
];

/// The field modulus, big-endian.
const FP_MODULUS: [u8; 48] = [
    0x1a, 0x01, 0x11, 0xea, 0x39, 0x7f, 0xe6, 0x9a, 0x4b, 0x1b, 0xa7, 0xb6, 0x43, 0x4b, 0xac, 0xd7,
    0x64, 0x77, 0x4b, 0x84, 0xf3, 0x85, 0x12, 0xbf, 0x67, 0x30, 0xd2, 0xa0, 0xf6, 0xb0, 0xf6, 0x24,
    0x1e, 0xab, 0xff, 0xfe, 0xb1, 0x53, 0xff, 0xff, 0xb9, 0xfe, 0xff, 0xff, 0xff, 0xff, 0xaa, 0xab,
];

/// The first byte of an uncompressed point has neither the compression flag
/// (bit 7) nor the infinity flag (bit 6) set.
pub open spec fn flag_byte_ok(p: Seq<u8>) -> bool {
    p[0] & 0xc0u8 == 0u8
}

/// Checks the flag byte of an uncompressed G1 point.
pub fn validate_g1_point_bytes(bytes: &[u8; 96]) -> (r: Result<(), Error>)
    ensures
        r == (if flag_byte_ok(bytes@) {
            Ok::<(), Error>(())
        } else {
            Err(Error::InvalidSignaturePoint)
        }),
{
    let b = bytes[0];
    if (b & 0xc0) != 0 {
        return Err(Error::InvalidSignaturePoint);
    }
    Ok(())
}

/// Checks the flag byte of an uncompressed G2 point.
pub fn validate_g2_point_bytes(bytes: &[u8; 192]) -> (r: Result<(), Error>)
    ensures
        r == (if flag_byte_ok(bytes@) {
            Ok::<(), Error>(())
        } else {
            Err(Error::InvalidSignaturePoint)
        }),
{
    let b = bytes[0];
    if (b & 0xc0) != 0 {
        return Err(Error::InvalidSignaturePoint);
    }
    Ok(())
}

fn chunk_below_modulus(p: &[u8], c: usize) -> (r: bool)
    requires
        48 * c + 48 <= p@.len(),
    ensures
        r == fp_chunk_below_modulus(p@, c as int),
{
    let len = p.len();
    assert(48 * c + 48 <= len);
    let start = 48 * c;
    let mut i: usize = 0;
    while i < 48
        invariant
            i <= 48,
            start + 48 <= p@.len(),
            start == 48 * c,
            FP_MODULUS@ == fp_modulus(),
            forall|j: int| 0 <= j < i ==> #[trigger] p@[48 * c + j] == fp_modulus()[j],
        decreases 48 - i,
    {
        assert(start + i < p.len());
        let b = p[start + i];
        let m = FP_MODULUS[i];
        if b < m {
            assert(p@[48 * c + i as int] < fp_modulus()[i as int]);
            return true;
        }
        if b > m {
            assert forall|k: int|
                0 <= k < 48 && #[trigger] p@[48 * c + k] < fp_modulus()[k] implies exists|j: int|
                0 <= j < k && #[trigger] p@[48 * c + j] != fp_modulus()[j] by {
                if k < i {
                } else if k == i {
                } else {
                    assert(p@[48 * c + i as int] != fp_modulus()[i as int]);
                }
            }
            return false;
        }
        i = i + 1;
    }
    assert forall|k: int| 0 <= k < 48 implies !(#[trigger] p@[48 * c + k] < fp_modulus()[k]) by {}
    false
}

fn is_infinity(p: &[u8]) -> (r: bool)
    requires
        p@.len() > 0,
    ensures
        r == is_infinity_encoding(p@),
{
    if p[0] != 0x40 {
        return false;
    }
    let mut i: usize = 1;
    while i < p.len()
        invariant
            1 <= i <= p@.len(),
            p@[0] == 0x40u8,
            forall|j: int| 1 <= j < i ==> #[trigger] p@[j] == 0u8,
        decreases p@.len() - i,
    {
        if p[i] != 0 {
            return false;
        }
        i = i + 1;
    }
    true
}

/// Whether the host decodes the point without failing.
fn encoding_canonical(p: &[u8]) -> (r: bool)
    requires
        p@.len() % 48 == 0,
        p@.len() > 0,
    ensures
        r == point_encoding_canonical(p@),
{
    if is_infinity(p) {
        return true;
    }
    if (p[0] & 0xe0) != 0 {
        return false;
    }
    let n = p.len() / 48;
    let mut c: usize = 0;
    while c < n
        invariant
            n == p@.len() / 48,
            p@.len() % 48 == 0,
            c <= n,
            !is_infinity_encoding(p@),
            p@[0] & 0xe0u8 == 0u8,
            forall|k: int| 0 <= k < c ==> #[trigger] fp_chunk_below_modulus(p@, k),
        decreases n - c,
    {
        assert(48 * c + 48 <= p@.len()) by (nonlinear_arith)
            requires
                c < n,
                n == p@.len() / 48,
                p@.len() % 48 == 0,
        ;
        if !chunk_below_modulus(p, c) {
            assert(!is_infinity_encoding(p@));
            assert(!fp_chunk_below_modulus(p@, c as int));
            assert(0 <= c < p@.len() / 48);
            return false;
        }
        c = c + 1;
    }
    true
}

/// Whether a G1 point can be handed to the host's pairing: canonically
/// encoded, on the curve and in the prime-order subgroup.
pub fn g1_point_is_usable(env: &soroban_sdk::Env, p: &[u8; 96]) -> (r: bool)
    ensures
        r == g1_usable(p@),
{
    if !encoding_canonical(p) {
        return false;
    }
    if !host_g1_is_on_curve(env, p) {
        return false;
    }
    host_g1_is_in_subgroup(env, p)
}

/// Whether a G2 point can be handed to the host's pairing: canonically
/// encoded, on the curve and in the prime-order subgroup.
pub fn g2_point_is_usable(env: &soroban_sdk::Env, p: &[u8; 192]) -> (r: bool)
    ensures
        r == g2_usable(p@),
        p@ == G2_GENERATOR@ ==> r,
{
    proof {
        lemma_g2_generator_canonical();
    }
    if !encoding_canonical(p) {
        return false;
    }
    if !host_g2_is_on_curve(env, p) {
        return false;
    }
    host_g2_is_in_subgroup(env, p)
}

/// What registering a BLS key does to the store, and what it returns.
pub open spec fn register_bls_key_result(s: StoreView, attester: Seq<u8>, key: Seq<u8>) -> Result<(), Error> {
    if s.bls_keys.contains_key(attester) {
        Err(Error::AlreadyInitialized)
    } else if !flag_byte_ok(key) {
        Err(Error::InvalidSignaturePoint)
    } else {
        Ok(())
    }
}

/// The store after registering a BLS key: on success the key is stored
/// with its registration time; otherwise nothing changes.
pub open spec fn register_bls_key_state(
    s: StoreView,
    attester: Seq<u8>,
    key: Seq<u8>,
    timestamp: u64,
) -> StoreView {
    match register_bls_key_result(s, attester, key) {
        Ok(_) => StoreView {
            bls_keys: s.bls_keys.insert(
                attester,
                BlsPublicKeyView { key, registered_at: timestamp },
            ),
            ..s
        },
        Err(_) => s,
    }
}

/// Registers the BLS public key of an attester, at the given ledger time.
/// A key once registered can be neither replaced nor removed.
pub fn register_bls_public_key(
    store: &mut ProtocolStore,
    attester: &Address,
    public_key: [u8; 192],
    timestamp: u64,
) -> (r: Result<(), Error>)
    requires
        old(store).wf(),
    ensures
        final(store).wf(),
        r == register_bls_key_result(old(store)@, attester@, public_key@),
        final(store)@ == register_bls_key_state(old(store)@, attester@, public_key@, timestamp),
{
    if store.bls_key(attester).is_some() {
        return Err(Error::AlreadyInitialized);
    }
    validate_g2_point_bytes(&public_key)?;
    store.insert_bls_key(attester, BlsPublicKey { key: public_key, registered_at: timestamp });
    Ok(())
}

/// The key registered by an attester, if any.
pub open spec fn bls_key_of(s: StoreView, attester: Seq<u8>) -> Option<BlsPublicKeyView> {
    if s.bls_keys.contains_key(attester) {
        Some(s.bls_keys[attester])
    } else {
        None
    }
}

/// Gets the BLS public key registered by an attester.
pub fn get_bls_public_key(store: &ProtocolStore, attester: &Address) -> (r: Result<BlsPublicKey, Error>)
    requires
        store.wf(),
    ensures
        match r {
            Ok(k) => bls_key_of(store@, attester@) == Some(k@),
            Err(e) => e == Error::BlsPubKeyNotRegistered && bls_key_of(store@, attester@) is None,
        },
{
    match store.bls_key(attester) {
        Some(k) => Ok(*k),
        None => Err(Error::BlsPubKeyNotRegistered),
    }
}

/// The point of G1 that a message hashes to under the protocol's tag.
pub open spec fn message_point(message: Seq<u8>) -> Seq<u8> {
    hash_to_g1(message, ATTEST_PROTOCOL_BLS_G1_DST@)
}

/// The outcome of checking a signature of a message against an attester's
/// registered key.
pub open spec fn bls_signature_check(
    key: Option<BlsPublicKeyView>,
    message: Seq<u8>,
    signature: Seq<u8>,
) -> Result<(), Error> {
    match key {
        None => Err(Error::BlsPubKeyNotRegistered),
        Some(k) => {
            let neg_h = g1_negation(message_point(message));
            if !flag_byte_ok(signature) || !g1_usable(signature) || !g2_usable(k.key) {
                Err(Error::InvalidSignaturePoint)
            } else if pairing_product_is_one(signature, neg_h, G2_GENERATOR@, k.key) {
                Ok(())
            } else {
                Err(Error::InvalidSignature)
            }
        },
    }
}

/// Verifies a BLS12-381 signature of a 32-byte message by the key that the
/// attester registered. A signature or key that the host could not pair (not
/// canonically encoded, off the curve, or outside the prime-order subgroup) is
/// reported as `InvalidSignaturePoint` instead of being handed to the host; for
/// usable points the pairing alone decides between `Ok` and `InvalidSignature`.
pub fn verify_bls_signature(
    env: &soroban_sdk::Env,
    store: &ProtocolStore,
    message: &[u8; 32],
    signature: &[u8; 96],
    attester: &Address,
) -> (r: Result<(), Error>)
    requires
        store.wf(),
    ensures
        r == bls_signature_check(bls_key_of(store@, attester@), message@, signature@),
{
    let bls_key = match store.bls_key(attester) {
        Some(k) => *k,
        None => return Err(Error::BlsPubKeyNotRegistered),
    };
    let hashed_message = host_hash_to_g1(env, message, &ATTEST_PROTOCOL_BLS_G1_DST);
    let neg_hashed_message = host_g1_negate(env, &hashed_message);
    validate_g1_point_bytes(signature)?;
    if !g1_point_is_usable(env, signature) || !g2_point_is_usable(env, &bls_key.key) {
        return Err(Error::InvalidSignaturePoint);
    }
    let generator_usable = g2_point_is_usable(env, &G2_GENERATOR);
    assert(generator_usable);
    if host_pairing_check(env, signature, &neg_hashed_message, &G2_GENERATOR, &bls_key.key) {
        Ok(())
    } else {
        Err(Error::InvalidSignature)
    }
}

} // verus!
