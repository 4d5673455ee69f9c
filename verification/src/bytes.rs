use vstd::prelude::*;

verus! {

/// Compares two byte strings.
pub fn bytes_eq(a: &[u8], b: &[u8]) -> (r: bool)
    ensures
        r == (a@ == b@),
{
    if a.len() != b.len() {
        return false;
    }
    let n = a.len();
    let mut i: usize = 0;
    while i < n
        invariant
            n == a@.len(),
            n == b@.len(),
            i <= n,
            forall|j: int| 0 <= j < i ==> a@[j] == b@[j],
        decreases n - i,
    {
        if a[i] != b[i] {
            return false;
        }
        i = i + 1;
    }
    assert(a@ =~= b@);
    true
}

/// Copies a byte string into a fresh vector.
pub fn copy_bytes(a: &[u8]) -> (r: Vec<u8>)
    ensures
        r@ == a@,
{
    let mut r: Vec<u8> = Vec::new();
    let mut i: usize = 0;
    while i < a.len()
        invariant
            i <= a@.len(),
            r@ == a@.subrange(0, i as int),
        decreases a@.len() - i,
    {
        r.push(a[i]);
        i = i + 1;
        assert(r@ =~= a@.subrange(0, i as int));
    }
    assert(a@.subrange(0, a@.len() as int) =~= a@);
    r
}

/// Appends a byte string to a vector.
pub fn append_bytes(v: &mut Vec<u8>, a: &[u8])
    ensures
        final(v)@ == old(v)@ + a@,
{
    let mut i: usize = 0;
    let ghost start = v@;
    while i < a.len()
        invariant
            i <= a@.len(),
            v@ == start + a@.subrange(0, i as int),
        decreases a@.len() - i,
    {
        v.push(a[i]);
        i = i + 1;
        assert(v@ =~= start + a@.subrange(0, i as int));
    }
    assert(a@.subrange(0, a@.len() as int) =~= a@);
}

/// The eight big-endian bytes of a 64-bit number.
pub open spec fn be_u64(n: u64) -> Seq<u8> {
    seq![
        (n >> 56u64) as u8,
        ((n >> 48u64) & 0xffu64) as u8,
        ((n >> 40u64) & 0xffu64) as u8,
        ((n >> 32u64) & 0xffu64) as u8,
        ((n >> 24u64) & 0xffu64) as u8,
        ((n >> 16u64) & 0xffu64) as u8,
        ((n >> 8u64) & 0xffu64) as u8,
        (n & 0xffu64) as u8,
    ]
}

/// The four big-endian bytes of a 32-bit number.
pub open spec fn be_u32(n: u32) -> Seq<u8> {
    seq![
        (n >> 24u32) as u8,
        ((n >> 16u32) & 0xffu32) as u8,
        ((n >> 8u32) & 0xffu32) as u8,
        (n & 0xffu32) as u8,
    ]
}

/// Appends the big-endian bytes of a 64-bit number.
pub fn append_be_u64(v: &mut Vec<u8>, n: u64)
    ensures
        final(v)@ == old(v)@ + be_u64(n),
{
    let ghost start = v@;
    v.push((n >> 56u64) as u8);
    v.push(((n >> 48u64) & 0xffu64) as u8);
    v.push(((n >> 40u64) & 0xffu64) as u8);
    v.push(((n >> 32u64) & 0xffu64) as u8);
    v.push(((n >> 24u64) & 0xffu64) as u8);
    v.push(((n >> 16u64) & 0xffu64) as u8);
    v.push(((n >> 8u64) & 0xffu64) as u8);
    v.push((n & 0xffu64) as u8);
    assert(v@ =~= start + be_u64(n));
}

} // verus!
