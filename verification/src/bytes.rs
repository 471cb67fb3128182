use vstd::prelude::*;

verus! {

/// A little-endian 8-byte window read as a signed 64-bit value.
pub open spec fn spec_i64_from_le_bytes(s: Seq<u8>) -> int {
    let u = vstd::bytes::spec_u64_from_le_bytes(s);
    if u >= 0x8000000000000000 {
        u - 0x10000000000000000
    } else {
        u as int
    }
}

/// Reads a signed 64-bit little-endian value from a byte slice.
pub fn i64_from_le_bytes(s: &[u8]) -> (x: i64)
    requires
        s@.len() == 8,
    ensures
        x as int == spec_i64_from_le_bytes(s@),
{
    let u = vstd::bytes::u64_from_le_bytes(s);
    if u < 0x8000000000000000 {
        u as i64
    } else {
        let m = u64::MAX - u;
        -(m as i64) - 1
    }
}

/// A big-endian 8-byte window read as an unsigned 64-bit value.
pub open spec fn spec_u64_from_be_bytes(s: Seq<u8>) -> u64
    recommends
        s.len() == 8,
{
    ((s[0] as u64) << 56) | ((s[1] as u64) << 48) | ((s[2] as u64) << 40) | ((s[3] as u64) << 32)
        | ((s[4] as u64) << 24) | ((s[5] as u64) << 16) | ((s[6] as u64) << 8) | (s[7] as u64)
}

/// A 64-bit value written as 8 big-endian bytes.
pub open spec fn spec_u64_to_be_bytes(x: u64) -> Seq<u8> {
    seq![
        ((x >> 56) & 0xff) as u8,
        ((x >> 48) & 0xff) as u8,
        ((x >> 40) & 0xff) as u8,
        ((x >> 32) & 0xff) as u8,
        ((x >> 24) & 0xff) as u8,
        ((x >> 16) & 0xff) as u8,
        ((x >> 8) & 0xff) as u8,
        (x & 0xff) as u8,
    ]
}

/// Writing big-endian and reading back returns the value unchanged.
pub proof fn lemma_u64_be_round_trip(x: u64)
    ensures
        spec_u64_from_be_bytes(spec_u64_to_be_bytes(x)) == x,
{
    let s = spec_u64_to_be_bytes(x);
    assert((((((x >> 56) & 0xff) as u8) as u64) << 56) | (((((x >> 48) & 0xff) as u8) as u64)
        << 48) | (((((x >> 40) & 0xff) as u8) as u64) << 40) | (((((x >> 32) & 0xff) as u8) as u64)
        << 32) | (((((x >> 24) & 0xff) as u8) as u64) << 24) | (((((x >> 16) & 0xff) as u8) as u64)
        << 16) | (((((x >> 8) & 0xff) as u8) as u64) << 8) | (((x & 0xff) as u8) as u64) == x)
        by (bit_vector);
}

/// Reads an unsigned 64-bit big-endian value from a byte slice.
pub fn u64_from_be_bytes(s: &[u8], start: usize) -> (x: u64)
    requires
        start + 8 <= s@.len(),
    ensures
        x == spec_u64_from_be_bytes(s@.subrange(start as int, start + 8)),
{
    let ghost w = s@.subrange(start as int, start + 8);
    let x =((s[start] as u64) << 56) | ((s[start + 1] as u64) << 48) | ((s[start + 2] as u64)
        << 40) | ((s[start + 3] as u64) << 32) | ((s[start + 4] as u64) << 24) | ((s[start
        + 5] as u64) << 16) | ((s[start + 6] as u64) << 8) | (s[start + 7] as u64);
    proof {
        assert(w[0] == s@[start as int] && w[1] == s@[start + 1] && w[2] == s@[start + 2] && w[3]
            == s@[start + 3] && w[4] == s@[start + 4] && w[5] == s@[start + 5] && w[6] == s@[start
            + 6] && w[7] == s@[start + 7]);
    }
    x
}

/// Writes an unsigned 64-bit value as 8 big-endian bytes.
pub fn u64_to_be_bytes(x: u64) -> (s: Vec<u8>)
    ensures
        s@ =~= spec_u64_to_be_bytes(x),
        s@.len() == 8,
{
    let mut s: Vec<u8> = Vec::new();
    s.push(((x >> 56) & 0xff) as u8);
    s.push(((x >> 48) & 0xff) as u8);
    s.push(((x >> 40) & 0xff) as u8);
    s.push(((x >> 32) & 0xff) as u8);
    s.push(((x >> 24) & 0xff) as u8);
    s.push(((x >> 16) & 0xff) as u8);
    s.push(((x >> 8) & 0xff) as u8);
    s.push((x & 0xff) as u8);
    s
}

/// Copies the bytes of a vector, element for element.
pub fn clone_bytes(v: &Vec<u8>) -> (r: Vec<u8>)
    ensures
        r@ =~= v@,
{
    let mut r: Vec<u8> = Vec::new();
    let mut i: usize = 0;
    while i < v.len()
        invariant
            i <= v@.len(),
            r@ =~= v@.subrange(0, i as int),
        decreases v@.len() - i,
    {
        r.push(v[i]);
        assert(r@ =~= v@.subrange(0, i + 1));
        i += 1;
    }
    r
}

/// A vector of `n` zero bytes.
pub fn zero_bytes(n: usize) -> (r: Vec<u8>)
    ensures
        r@.len() == n,
        forall|j: int| 0 <= j < n ==> r@[j] == 0u8,
{
    let mut r: Vec<u8> = Vec::new();
    let mut i: usize = 0;
    while i < n
        invariant
            i <= n,
            r@.len() == i,
            forall|j: int| 0 <= j < i ==> r@[j] == 0u8,
        decreases n - i,
    {
        r.push(0u8);
        i += 1;
    }
    r
}

/// Overwrites `dst[start .. start + 8]` with the little-endian bytes of `x`.
pub fn write_u64_le_at(dst: &mut Vec<u8>, start: usize, x: u64)
    requires
        start + 8 <= old(dst)@.len(),
    ensures
        final(dst)@.len() == old(dst)@.len(),
        final(dst)@.subrange(start as int, start + 8) =~= vstd::bytes::spec_u64_to_le_bytes(x),
        forall|j: int|
            0 <= j < final(dst)@.len() && !(start <= j < start + 8) ==> final(dst)@[j] == old(
                dst,
            )@[j],
{
    let bs = vstd::bytes::u64_to_le_bytes(x);
    let n = dst.len();
    let mut i: usize = 0;
    while i < 8
        invariant
            i <= 8,
            start + 8 <= n,
            n == dst@.len(),
            dst@.len() == old(dst)@.len(),
            bs@ == vstd::bytes::spec_u64_to_le_bytes(x),
            bs@.len() == 8,
            forall|j: int| 0 <= j < i ==> dst@[start + j] == bs@[j],
            forall|j: int|
                0 <= j < dst@.len() && !(start <= j < start + 8) ==> dst@[j] == old(dst)@[j],
        decreases 8 - i,
    {
        dst[start + i] = bs[i];
        i += 1;
    }
}

} // verus!
