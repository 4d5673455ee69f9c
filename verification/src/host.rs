//! The computations that the Soroban host performs for the protocol:
//! hashing, XDR encoding and BLS12-381 curve arithmetic, each reached
//! through `soroban_sdk` behind a trusted item whose contract is stated here.

use soroban_sdk::crypto::bls12_381::Bls12381G1Affine as G1;
use soroban_sdk::crypto::bls12_381::Bls12381G2Affine as G2;
use soroban_sdk::xdr::ToXdr;
use vstd::prelude::*;

use crate::bytes::be_u32;

verus! {

/// The Soroban environment `soroban_sdk::Env`, through which the host computes;
/// opaque here, only handed on to the calls below.
#[verifier::external_type_specification]
#[verifier::external_body]
pub struct ExEnv(soroban_sdk::Env);

// ---------------------------------------------------------------------------
// Hashing
// ---------------------------------------------------------------------------

/// The SHA-256 digest of a byte string.
pub uninterp spec fn sha256(data: Seq<u8>) -> Seq<u8>;

/// The Keccak-256 digest of a byte string.
pub uninterp spec fn keccak256(data: Seq<u8>) -> Seq<u8>;

/// Calls `soroban_sdk::crypto::Crypto::sha256`, which returns the SHA-256
/// digest of its input; the contract names that digest.
#[verifier::external_body]
pub(crate) fn host_sha256(env: &soroban_sdk::Env, data: &[u8]) -> (r: [u8; 32])
    ensures
        r@ == sha256(data@),
{
    env.crypto().sha256(&soroban_sdk::Bytes::from_slice(env, data)).to_array()
}

/// Calls `soroban_sdk::crypto::Crypto::keccak256`, which returns the
/// Keccak-256 digest of its input; the contract names that digest.
#[verifier::external_body]
pub(crate) fn host_keccak256(env: &soroban_sdk::Env, data: &[u8]) -> (r: [u8; 32])
    ensures
        r@ == keccak256(data@),
{
    env.crypto().keccak256(&soroban_sdk::Bytes::from_slice(env, data)).to_array()
}

// ---------------------------------------------------------------------------
// XDR encoding of values
// ---------------------------------------------------------------------------

/// The zero bytes that pad an XDR opaque value of `n` bytes to a multiple of four.
pub open spec fn xdr_padding(n: nat) -> Seq<u8> {
    Seq::new(((4 - (n % 4)) % 4) as nat, |i: int| 0u8)
}

/// XDR of an `ScVal::String`: the type tag (14), the length, the bytes and
/// the zero padding to a multiple of four.
pub open spec fn scval_string_xdr(s: Seq<u8>) -> Seq<u8> {
    be_u32(14u32) + be_u32(s.len() as u32) + s + xdr_padding(s.len())
}

/// XDR of an `ScVal::Bytes`: the type tag (13), the length, the bytes and
/// the zero padding to a multiple of four.
pub open spec fn scval_bytes_xdr(s: Seq<u8>) -> Seq<u8> {
    be_u32(13u32) + be_u32(s.len() as u32) + s + xdr_padding(s.len())
}

/// Calls `soroban_sdk::xdr::ToXdr::to_xdr` on a `soroban_sdk::String` made
/// of the given bytes; the host serialises it as the XDR of an
/// `ScVal::String`, which the contract states.
#[verifier::external_body]
pub(crate) fn host_string_to_xdr(env: &soroban_sdk::Env, s: &[u8]) -> (r: Vec<u8>)
    requires
        s@.len() <= u32::MAX,
    ensures
        r@ == scval_string_xdr(s@),
{
    let xdr = soroban_sdk::String::from_bytes(env, s).to_xdr(env);
    let mut out = vec![0u8; xdr.len() as usize];
    xdr.copy_into_slice(&mut out);
    out
}

/// Calls `soroban_sdk::xdr::ToXdr::to_xdr` on a `soroban_sdk::BytesN<32>`;
/// the host serialises it as the XDR of an `ScVal::Bytes`, which the
/// contract states.
#[verifier::external_body]
pub(crate) fn host_bytes32_to_xdr(env: &soroban_sdk::Env, b: &[u8; 32]) -> (r: Vec<u8>)
    ensures
        r@ == scval_bytes_xdr(b@),
{
    let xdr = soroban_sdk::BytesN::from_array(env, b).to_xdr(env);
    let mut out = vec![0u8; xdr.len() as usize];
    xdr.copy_into_slice(&mut out);
    out
}

// ---------------------------------------------------------------------------
// BLS12-381
// ---------------------------------------------------------------------------

/// The base field modulus p of BLS12-381, big-endian.
pub open spec fn fp_modulus() -> Seq<u8> {
    seq![
        0x1au8, 0x01, 0x11, 0xea, 0x39, 0x7f, 0xe6, 0x9a, 0x4b, 0x1b, 0xa7, 0xb6, 0x43, 0x4b,
        0xac, 0xd7, 0x64, 0x77, 0x4b, 0x84, 0xf3, 0x85, 0x12, 0xbf, 0x67, 0x30, 0xd2, 0xa0,
        0xf6, 0xb0, 0xf6, 0x24, 0x1e, 0xab, 0xff, 0xfe, 0xb1, 0x53, 0xff, 0xff, 0xb9, 0xfe,
        0xff, 0xff, 0xff, 0xff, 0xaa, 0xab,
    ]
}

/// The `c`-th 48-byte coordinate of `p`, read as a big-endian number, is
/// below the field modulus.
pub open spec fn fp_chunk_below_modulus(p: Seq<u8>, c: int) -> bool {
    exists|i: int|
        0 <= i < 48 && #[trigger] p[48 * c + i] < fp_modulus()[i] && forall|j: int|
            0 <= j < i ==> #[trigger] p[48 * c + j] == fp_modulus()[j]
}

/// The encoding of the point at infinity: the infinity flag and zeros.
pub open spec fn is_infinity_encoding(p: Seq<u8>) -> bool {
    p.len() > 0 && p[0] == 0x40u8 && forall|i: int| 1 <= i < p.len() ==> #[trigger] p[i] == 0u8
}

/// An uncompressed point encoding that the host decodes without failing:
/// either the point at infinity, or no flag bit set and every coordinate
/// below the field modulus.
pub open spec fn point_encoding_canonical(p: Seq<u8>) -> bool {
    ||| is_infinity_encoding(p)
    ||| {
        &&& p[0] & 0xe0u8 == 0u8
        &&& forall|c: int| 0 <= c < p.len() / 48 ==> #[trigger] fp_chunk_below_modulus(p, c)
    }
}

/// Whether a decoded G1 point lies on the curve.
pub uninterp spec fn g1_on_curve(p: Seq<u8>) -> bool;

/// Whether a G1 point on the curve lies in the prime-order subgroup.
pub uninterp spec fn g1_in_subgroup(p: Seq<u8>) -> bool;

/// Whether a decoded G2 point lies on the curve.
pub uninterp spec fn g2_on_curve(p: Seq<u8>) -> bool;

/// Whether a G2 point on the curve lies in the prime-order subgroup.
pub uninterp spec fn g2_in_subgroup(p: Seq<u8>) -> bool;

/// The point of G1 that a message hashes to under a domain separation tag.
pub uninterp spec fn hash_to_g1(msg: Seq<u8>, dst: Seq<u8>) -> Seq<u8>;

/// The negation of a G1 point.
pub uninterp spec fn g1_negation(p: Seq<u8>) -> Seq<u8>;

/// Whether the product of the pairings e(a1, b1) * e(a2, b2) is one.
pub uninterp spec fn pairing_product_is_one(a1: Seq<u8>, a2: Seq<u8>, b1: Seq<u8>, b2: Seq<u8>) -> bool;

/// The uncompressed generator of G2 of BLS12-381.
pub const G2_GENERATOR: [u8; 192] = [
    19, 224, 43, 96, 82, 113, 159, 96, 125, 172, 211, 160, 136, 39, 79, 101, 89, 107, 208, 208,
    153, 32, 182, 26, 181, 218, 97, 187, 220, 127, 80, 73, 51, 76, 241, 18, 19, 148, 93, 87, 229,
    172, 125, 5, 93, 4, 43, 126, 2, 74, 162, 178, 240, 143, 10, 145, 38, 8, 5, 39, 45, 197, 16,
    81, 198, 228, 122, 212, 250, 64, 59, 2, 180, 81, 11, 100, 122, 227, 209, 119, 11, 172, 3, 38,
    168, 5, 187, 239, 212, 128, 86, 200, 193, 33, 189, 184, 6, 6, 196, 160, 46, 167, 52, 204, 50,
    172, 210, 176, 43, 194, 139, 153, 203, 62, 40, 126, 133, 167, 99, 175, 38, 116, 146, 171, 87,
    46, 153, 171, 63, 55, 13, 39, 92, 236, 29, 161, 170, 169, 7, 95, 240, 95, 121, 190, 12, 229,
    213, 39, 114, 125, 110, 17, 140, 201, 205, 198, 218, 46, 53, 26, 173, 253, 155, 170, 140,
    189, 211, 167, 109, 66, 154, 105, 81, 96, 209, 44, 146, 58, 201, 204, 59, 172, 162, 137, 225,
    147, 84, 134, 8, 184, 40, 1,
];

/// The standard G2 generator is canonically encoded: every coordinate starts
/// with a byte below the modulus's first byte.
pub proof fn lemma_g2_generator_canonical()
    ensures
        point_encoding_canonical(G2_GENERATOR@),
{
    let g = G2_GENERATOR@;
    assert(g.len() == 192);
    assert(g[0] == 19u8);
    assert(19u8 & 0xe0u8 == 0u8) by (bit_vector);
    assert(fp_chunk_below_modulus(g, 0)) by {
        assert(g[48 * 0int + 0int] < fp_modulus()[0int]);
    }
    assert(fp_chunk_below_modulus(g, 1)) by {
        assert(g[48 * 1int + 0int] < fp_modulus()[0int]);
    }
    assert(fp_chunk_below_modulus(g, 2)) by {
        assert(g[48 * 2int + 0int] < fp_modulus()[0int]);
    }
    assert(fp_chunk_below_modulus(g, 3)) by {
        assert(g[48 * 3int + 0int] < fp_modulus()[0int]);
    }
    assert forall|c: int| 0 <= c < g.len() / 48 implies #[trigger] fp_chunk_below_modulus(g, c) by {
        assert(c == 0 || c == 1 || c == 2 || c == 3);
    }
}

/// A G1 point that the host accepts as a pairing input.
pub open spec fn g1_usable(p: Seq<u8>) -> bool {
    &&& p.len() == 96
    &&& point_encoding_canonical(p)
    &&& g1_on_curve(p)
    &&& g1_in_subgroup(p)
}

/// A G2 point that the host accepts as a pairing input.
pub open spec fn g2_usable(p: Seq<u8>) -> bool {
    &&& p.len() == 192
    &&& point_encoding_canonical(p)
    &&& g2_on_curve(p)
    &&& g2_in_subgroup(p)
}

/// Calls `soroban_sdk::crypto::bls12_381::Bls12_381::g1_is_on_curve`. The host
/// decodes the point first and aborts when the encoding is not canonical, which
/// `requires` excludes; the answer is named.
#[verifier::external_body]
pub(crate) fn host_g1_is_on_curve(env: &soroban_sdk::Env, p: &[u8; 96]) -> (r: bool)
    requires
        point_encoding_canonical(p@),
    ensures
        r == g1_on_curve(p@),
{
    let pt = G1::from_array(env, p);
    env.crypto().bls12_381().g1_is_on_curve(&pt)
}

/// Calls `soroban_sdk::crypto::bls12_381::Bls12_381::g1_is_in_subgroup`. The
/// host aborts on a point off the curve, which `requires` excludes; the
/// answer is named.
#[verifier::external_body]
pub(crate) fn host_g1_is_in_subgroup(env: &soroban_sdk::Env, p: &[u8; 96]) -> (r: bool)
    requires
        point_encoding_canonical(p@),
        g1_on_curve(p@),
    ensures
        r == g1_in_subgroup(p@),
{
    let pt = G1::from_array(env, p);
    env.crypto().bls12_381().g1_is_in_subgroup(&pt)
}

/// Calls `soroban_sdk::crypto::bls12_381::Bls12_381::g2_is_on_curve`. The host
/// decodes the point first and aborts when the encoding is not canonical, which
/// `requires` excludes; the answer is named. The standard generator of G2 lies
/// on the curve.
#[verifier::external_body]
pub(crate) fn host_g2_is_on_curve(env: &soroban_sdk::Env, p: &[u8; 192]) -> (r: bool)
    requires
        point_encoding_canonical(p@),
    ensures
        r == g2_on_curve(p@),
        p@ == G2_GENERATOR@ ==> r,
{
    let pt = G2::from_array(env, p);
    env.crypto().bls12_381().g2_is_on_curve(&pt)
}

/// Calls `soroban_sdk::crypto::bls12_381::Bls12_381::g2_is_in_subgroup`. The
/// host aborts on a point off the curve, which `requires` excludes; the
/// answer is named. The standard generator of G2 generates the subgroup, so
/// lies in it.
#[verifier::external_body]
pub(crate) fn host_g2_is_in_subgroup(env: &soroban_sdk::Env, p: &[u8; 192]) -> (r: bool)
    requires
        point_encoding_canonical(p@),
        g2_on_curve(p@),
    ensures
        r == g2_in_subgroup(p@),
        p@ == G2_GENERATOR@ ==> r,
{
    let pt = G2::from_array(env, p);
    env.crypto().bls12_381().g2_is_in_subgroup(&pt)
}

/// Calls `soroban_sdk::crypto::bls12_381::Bls12_381::hash_to_g1`. The host
/// refuses an empty tag or one longer than 255 bytes, which `requires`
/// excludes. The point is named. The host maps to the curve, clears the
/// cofactor and serialises the affine point uncompressed, so the result is a
/// canonical encoding of a point of the subgroup.
#[verifier::external_body]
pub(crate) fn host_hash_to_g1(env: &soroban_sdk::Env, msg: &[u8; 32], dst: &[u8]) -> (r: [u8; 96])
    requires
        0 < dst@.len() <= 255,
    ensures
        r@ == hash_to_g1(msg@, dst@),
        g1_usable(r@),
{
    let m = soroban_sdk::Bytes::from_slice(env, msg);
    let d = soroban_sdk::Bytes::from_slice(env, dst);
    env.crypto().bls12_381().hash_to_g1(&m, &d).to_array()
}

/// Calls the negation `-p` of `soroban_sdk::crypto::bls12_381::Bls12381G1Affine`,
/// which keeps x and replaces y by (p - y) mod p, and panics when y is not
/// below p, which `requires` excludes. The result is named. The negation of a
/// point of the subgroup is again one, with coordinates below p.
#[verifier::external_body]
pub(crate) fn host_g1_negate(env: &soroban_sdk::Env, p: &[u8; 96]) -> (r: [u8; 96])
    requires
        point_encoding_canonical(p@),
    ensures
        r@ == g1_negation(p@),
        g1_usable(p@) ==> g1_usable(r@),
{
    let pt = G1::from_array(env, p);
    (-pt).to_array()
}

/// Calls `soroban_sdk::crypto::bls12_381::Bls12_381::pairing_check` on two
/// pairs of points. The host aborts on a point that is not a canonical
/// encoding of a point of the subgroup, which `requires` excludes. The
/// answer is named.
#[verifier::external_body]
pub(crate) fn host_pairing_check(
    env: &soroban_sdk::Env,
    a1: &[u8; 96],
    a2: &[u8; 96],
    b1: &[u8; 192],
    b2: &[u8; 192],
) -> (r: bool)
    requires
        g1_usable(a1@),
        g1_usable(a2@),
        g2_usable(b1@),
        g2_usable(b2@),
    ensures
        r == pairing_product_is_one(a1@, a2@, b1@, b2@),
{
    let g1 = soroban_sdk::Vec::from_array(env, [G1::from_array(env, a1), G1::from_array(env, a2)]);
    let g2 = soroban_sdk::Vec::from_array(env, [G2::from_array(env, b1), G2::from_array(env, b2)]);
    env.crypto().bls12_381().pairing_check(g1, g2)
}

} // verus!
