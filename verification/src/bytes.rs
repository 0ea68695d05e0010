//! Byte-order arithmetic on byte sequences.
//!
//! Network byte order is big-endian. The host whose memory is modelled is
//! little-endian, as every target of these programs is; a value that is
//! loaded "as it lies in memory" is therefore decoded least significant byte
//! first.

use vstd::prelude::*;

verus! {

/// The 16-bit value whose big-endian encoding starts at `at`.
pub open spec fn be16(s: Seq<u8>, at: int) -> u16 {
    (s[at] as int * 0x100 + s[at + 1] as int) as u16
}

/// The 32-bit value whose big-endian encoding starts at `at`.
pub open spec fn be32(s: Seq<u8>, at: int) -> u32 {
    (s[at] as int * 0x100_0000 + s[at + 1] as int * 0x1_0000 + s[at + 2] as int * 0x100 + s[at
        + 3] as int) as u32
}

/// The 16-bit value whose little-endian encoding starts at `at`.
pub open spec fn le16(s: Seq<u8>, at: int) -> u16 {
    (s[at] as int + s[at + 1] as int * 0x100) as u16
}

/// The 32-bit value whose little-endian encoding starts at `at`.
pub open spec fn le32(s: Seq<u8>, at: int) -> u32 {
    (s[at] as int + s[at + 1] as int * 0x100 + s[at + 2] as int * 0x1_0000 + s[at + 3] as int
        * 0x100_0000) as u32
}

/// The 64-bit value whose little-endian encoding starts at `at`.
pub open spec fn le64(s: Seq<u8>, at: int) -> u64 {
    (le32(s, at) as int + le32(s, at + 4) as int * 0x1_0000_0000) as u64
}

/// The big-endian encoding of `v`.
pub open spec fn be16_bytes(v: u16) -> Seq<u8> {
    seq![(v / 0x100) as u8, (v % 0x100) as u8]
}

/// The big-endian encoding of `v`.
pub open spec fn be32_bytes(v: u32) -> Seq<u8> {
    seq![
        (v / 0x100_0000) as u8,
        (v / 0x1_0000 % 0x100) as u8,
        (v / 0x100 % 0x100) as u8,
        (v % 0x100) as u8,
    ]
}

/// The little-endian encoding of `v`.
pub open spec fn le16_bytes(v: u16) -> Seq<u8> {
    seq![(v % 0x100) as u8, (v / 0x100) as u8]
}

/// The little-endian encoding of `v`.
pub open spec fn le32_bytes(v: u32) -> Seq<u8> {
    seq![
        (v % 0x100) as u8,
        (v / 0x100 % 0x100) as u8,
        (v / 0x1_0000 % 0x100) as u8,
        (v / 0x100_0000) as u8,
    ]
}

/// The little-endian encoding of `v`.
pub open spec fn le64_bytes(v: u64) -> Seq<u8> {
    le32_bytes((v % 0x1_0000_0000) as u32) + le32_bytes((v / 0x1_0000_0000) as u32)
}

/// `x` with its two bytes exchanged.
pub open spec fn swap16(x: u16) -> u16 {
    ((x % 0x100) * 0x100 + x / 0x100) as u16
}

/// `x` with its four bytes in reverse order.
pub open spec fn swap32(x: u32) -> u32 {
    ((x % 0x100) * 0x100_0000 + (x / 0x100 % 0x100) * 0x1_0000 + (x / 0x1_0000 % 0x100) * 0x100
        + x / 0x100_0000) as u32
}

/// `s` with the bytes from `at` on replaced by `data`; its length is that of
/// `s`.
pub open spec fn splice(s: Seq<u8>, at: int, data: Seq<u8>) -> Seq<u8> {
    Seq::new(
        s.len(),
        |i: int|
            if at <= i < at + data.len() {
                data[i - at]
            } else {
                s[i]
            },
    )
}

/// Reading a value where its little-endian encoding was written gives the
/// value back, and the encoding of what is read is what lies there.
pub proof fn lemma_le16_roundtrip(s: Seq<u8>, at: int, v: u16)
    requires
        0 <= at,
        at + 2 <= s.len(),
    ensures
        le16_bytes(v).len() == 2,
        le16(splice(s, at, le16_bytes(v)), at) == v,
        le16_bytes(le16(s, at)) == s.subrange(at, at + 2),
{
    assert(le16_bytes(le16(s, at)) =~= s.subrange(at, at + 2));
}

/// Reading a value where its big-endian encoding was written gives the value
/// back, and the encoding of what is read is what lies there.
pub proof fn lemma_be16_roundtrip(s: Seq<u8>, at: int, v: u16)
    requires
        0 <= at,
        at + 2 <= s.len(),
    ensures
        be16_bytes(v).len() == 2,
        be16(splice(s, at, be16_bytes(v)), at) == v,
        be16_bytes(be16(s, at)) == s.subrange(at, at + 2),
{
    assert(be16_bytes(be16(s, at)) =~= s.subrange(at, at + 2));
}

/// A 32-bit value is the sum of its four bytes, each at its weight.
pub proof fn lemma_split32(v: u32)
    ensures
        v == (v / 0x100_0000) * 0x100_0000 + (v / 0x1_0000 % 0x100) * 0x1_0000 + (v / 0x100 % 0x100)
            * 0x100 + v % 0x100,
        v / 0x100_0000 < 0x100,
{
    assert(v == (v / 0x100_0000) * 0x100_0000 + (v / 0x1_0000 % 0x100) * 0x1_0000 + (v / 0x100
        % 0x100) * 0x100 + v % 0x100 && v / 0x100_0000 < 0x100) by (bit_vector);
}

/// Four bytes, each at its weight, sum to a 32-bit value from which division
/// and remainder give each byte back.
pub proof fn lemma_join32(a: u8, b: u8, c: u8, d: u8)
    ensures
        ({
            let x = a as int * 0x100_0000 + b as int * 0x1_0000 + c as int * 0x100 + d as int;
            &&& 0 <= x <= u32::MAX
            &&& x / 0x100_0000 == a
            &&& x / 0x1_0000 % 0x100 == b
            &&& x / 0x100 % 0x100 == c
            &&& x % 0x100 == d
        }),
{
    let a32 = a as u32;
    let b32 = b as u32;
    let c32 = c as u32;
    let d32 = d as u32;
    assert(a32 < 0x100 && b32 < 0x100 && c32 < 0x100 && d32 < 0x100 ==> ({
        let x = a32 * 0x100_0000 + b32 * 0x1_0000 + c32 * 0x100 + d32;
        &&& x / 0x100_0000 == a32
        &&& x / 0x1_0000 % 0x100 == b32
        &&& x / 0x100 % 0x100 == c32
        &&& x % 0x100 == d32
    })) by (bit_vector);
}

/// Reading a value where its big-endian encoding was written gives the value
/// back, and the encoding of what is read is what lies there.
pub proof fn lemma_be32_roundtrip(s: Seq<u8>, at: int, v: u32)
    requires
        0 <= at,
        at + 4 <= s.len(),
    ensures
        be32_bytes(v).len() == 4,
        be32(splice(s, at, be32_bytes(v)), at) == v,
        be32_bytes(be32(s, at)) == s.subrange(at, at + 4),
{
    lemma_split32(v);
    lemma_join32(s[at], s[at + 1], s[at + 2], s[at + 3]);
    assert(be32_bytes(be32(s, at)) =~= s.subrange(at, at + 4));
}

/// Decoding the little-endian encoding of a value gives the value back, and
/// the encoding of what is decoded is what was there.
pub proof fn lemma_le32_roundtrip(s: Seq<u8>, at: int, v: u32)
    requires
        0 <= at,
        at + 4 <= s.len(),
    ensures
        le32_bytes(v).len() == 4,
        le32(le32_bytes(v), 0) == v,
        le32_bytes(le32(s, at)) == s.subrange(at, at + 4),
{
    lemma_split32(v);
    lemma_join32(s[at + 3], s[at + 2], s[at + 1], s[at]);
    assert(le32_bytes(le32(s, at)) =~= s.subrange(at, at + 4));
}

/// Decoding the little-endian encoding of a value gives the value back, and
/// the encoding of what is decoded is what was there.
pub proof fn lemma_le64_roundtrip(s: Seq<u8>, at: int, v: u64)
    requires
        0 <= at,
        at + 8 <= s.len(),
    ensures
        le64_bytes(v).len() == 8,
        le64(le64_bytes(v), 0) == v,
        le64_bytes(le64(s, at)) == s.subrange(at, at + 8),
{
    let lo = (v % 0x1_0000_0000) as u32;
    let hi = (v / 0x1_0000_0000) as u32;
    let e = le64_bytes(v);
    assert(e.len() == 8 && le32(e, 0) == lo && le32(e, 4) == hi) by {
        lemma_le32_roundtrip(le32_bytes(lo), 0, lo);
        lemma_le32_roundtrip(le32_bytes(hi), 0, hi);
        assert(forall|i: int| 0 <= i < 4 ==> e[i] == le32_bytes(lo)[i]);
        assert(forall|i: int| 0 <= i < 4 ==> e[i + 4] == le32_bytes(hi)[i]);
    }
    let a = le32(s, at);
    let b = le32(s, at + 4);
    let w = le64(s, at);
    assert(w % 0x1_0000_0000 == a && w / 0x1_0000_0000 == b);
    assert(le64_bytes(w) =~= s.subrange(at, at + 8)) by {
        lemma_le32_roundtrip(s, at, 0u32);
        lemma_le32_roundtrip(s, at + 4, 0u32);
        assert(le64_bytes(w) == le32_bytes(a) + le32_bytes(b));
        assert(s.subrange(at, at + 4) + s.subrange(at + 4, at + 8) =~= s.subrange(at, at + 8));
    }
}

/// Exchanging the bytes of a value that was read least significant byte
/// first gives the value that the same bytes hold in network order, and
/// exchanging twice changes nothing.
pub proof fn lemma_swap_is_network_order(s: Seq<u8>, at: int, x: u16, y: u32)
    requires
        0 <= at,
        at + 4 <= s.len(),
    ensures
        swap16(le16(s, at)) == be16(s, at),
        swap32(le32(s, at)) == be32(s, at),
        swap16(swap16(x)) == x,
        swap32(swap32(y)) == y,
{
    lemma_join32(s[at + 3], s[at + 2], s[at + 1], s[at]);
    lemma_join32(s[at], s[at + 1], s[at + 2], s[at + 3]);
    lemma_split32(y);
    lemma_join32((y % 0x100) as u8, (y / 0x100 % 0x100) as u8, (y / 0x1_0000 % 0x100) as u8, (y / 0x100_0000) as u8);
}

/// The byte at `at`.
pub fn read_u8(m: &[u8], at: usize) -> (r: u8)
    requires
        at < m@.len(),
    ensures
        r == m@[at as int],
{
    m[at]
}

/// The big-endian 16-bit value at `at`.
pub fn read_be16(m: &[u8], at: usize) -> (r: u16)
    requires
        at + 2 <= m@.len(),
    ensures
        r == be16(m@, at as int),
{
    let hi: u16 = m[at] as u16;
    let lo: u16 = m[at + 1] as u16;
    hi * 0x100 + lo
}

/// The little-endian 16-bit value at `at`.
pub fn read_le16(m: &[u8], at: usize) -> (r: u16)
    requires
        at + 2 <= m@.len(),
    ensures
        r == le16(m@, at as int),
{
    let lo: u16 = m[at] as u16;
    let hi: u16 = m[at + 1] as u16;
    lo + hi * 0x100
}

/// The big-endian 32-bit value at `at`.
pub fn read_be32(m: &[u8], at: usize) -> (r: u32)
    requires
        at + 4 <= m@.len(),
    ensures
        r == be32(m@, at as int),
{
    let b0: u32 = m[at] as u32;
    let b1: u32 = m[at + 1] as u32;
    let b2: u32 = m[at + 2] as u32;
    let b3: u32 = m[at + 3] as u32;
    b0 * 0x100_0000 + b1 * 0x1_0000 + b2 * 0x100 + b3
}

/// Stores `v` at `at`.
pub fn write_u8(m: &mut [u8], at: usize, v: u8)
    requires
        at < old(m)@.len(),
    ensures
        final(m)@ == splice(old(m)@, at as int, seq![v]),
{
    m[at] = v;
    assert(m@ =~= splice(old(m)@, at as int, seq![v]));
}

/// Stores `v` at `at`, most significant byte first.
pub fn write_be16(m: &mut [u8], at: usize, v: u16)
    requires
        at + 2 <= old(m)@.len(),
    ensures
        final(m)@ == splice(old(m)@, at as int, be16_bytes(v)),
{
    m[at] = (v / 0x100) as u8;
    m[at + 1] = (v % 0x100) as u8;
    assert(m@ =~= splice(old(m)@, at as int, be16_bytes(v)));
}

/// Stores `v` at `at`, least significant byte first.
pub fn write_le16(m: &mut [u8], at: usize, v: u16)
    requires
        at + 2 <= old(m)@.len(),
    ensures
        final(m)@ == splice(old(m)@, at as int, le16_bytes(v)),
{
    m[at] = (v % 0x100) as u8;
    m[at + 1] = (v / 0x100) as u8;
    assert(m@ =~= splice(old(m)@, at as int, le16_bytes(v)));
}

/// Stores `v` at `at`, most significant byte first.
pub fn write_be32(m: &mut [u8], at: usize, v: u32)
    requires
        at + 4 <= old(m)@.len(),
    ensures
        final(m)@ == splice(old(m)@, at as int, be32_bytes(v)),
{
    m[at] = (v / 0x100_0000) as u8;
    m[at + 1] = (v / 0x1_0000 % 0x100) as u8;
    m[at + 2] = (v / 0x100 % 0x100) as u8;
    m[at + 3] = (v % 0x100) as u8;
    assert(m@ =~= splice(old(m)@, at as int, be32_bytes(v)));
}

/// Copies `data` over the bytes of `m` from `at` on.
pub fn write_bytes(m: &mut [u8], at: usize, data: &[u8])
    requires
        at + data@.len() <= old(m)@.len(),
    ensures
        final(m)@ == splice(old(m)@, at as int, data@),
{
    let n: usize = data.len();
    let total: usize = m.len();
    let mut i: usize = 0;
    while i < n
        invariant
            n == data@.len(),
            i <= n,
            at + n <= m@.len(),
            m@.len() == old(m)@.len(),
            m@.len() == total,
            m@ == splice(old(m)@, at as int, data@.subrange(0, i as int)),
        decreases n - i,
    {
        m[at + i] = data[i];
        i = i + 1;
        assert(m@ =~= splice(old(m)@, at as int, data@.subrange(0, i as int)));
    }
    assert(data@.subrange(0, n as int) =~= data@);
}

} // verus!
