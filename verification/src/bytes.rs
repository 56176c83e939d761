//! Little-endian integers and fixed-size byte strings as the program stores them.
use vstd::prelude::*;

verus! {

/// The unsigned integer whose little-endian encoding is the first eight bytes of `s`.
pub open spec fn le_u64(s: Seq<u8>) -> u64 {
    (s[0] as u64) | ((s[1] as u64) << 8u64) | ((s[2] as u64) << 16u64) | ((s[3] as u64) << 24u64)
        | ((s[4] as u64) << 32u64) | ((s[5] as u64) << 40u64) | ((s[6] as u64) << 48u64) | ((
    s[7] as u64) << 56u64)
}

/// The eight-byte little-endian encoding of `v`.
pub open spec fn u64_le(v: u64) -> Seq<u8> {
    seq![
        v as u8,
        (v >> 8u64) as u8,
        (v >> 16u64) as u8,
        (v >> 24u64) as u8,
        (v >> 32u64) as u8,
        (v >> 40u64) as u8,
        (v >> 48u64) as u8,
        (v >> 56u64) as u8,
    ]
}

/// Decoding the encoding of a value gives the value back.
pub proof fn lemma_le_u64_of_u64_le(v: u64)
    ensures
        le_u64(u64_le(v)) == v,
{
    let s = u64_le(v);
    let (b0, b1, b2, b3, b4, b5, b6, b7) = (s[0], s[1], s[2], s[3], s[4], s[5], s[6], s[7]);
    assert((b0 as u64) | ((b1 as u64) << 8u64) | ((b2 as u64) << 16u64) | ((b3 as u64) << 24u64)
        | ((b4 as u64) << 32u64) | ((b5 as u64) << 40u64) | ((b6 as u64) << 48u64) | ((b7 as u64)
        << 56u64) == v) by (bit_vector)
        requires
            b0 == v as u8,
            b1 == (v >> 8u64) as u8,
            b2 == (v >> 16u64) as u8,
            b3 == (v >> 24u64) as u8,
            b4 == (v >> 32u64) as u8,
            b5 == (v >> 40u64) as u8,
            b6 == (v >> 48u64) as u8,
            b7 == (v >> 56u64) as u8,
    ;
}

/// Encoding the value of eight bytes gives the same eight bytes back.
pub proof fn lemma_u64_le_of_le_u64(s: Seq<u8>)
    requires
        s.len() == 8,
    ensures
        u64_le(le_u64(s)) == s,
{
    let (b0, b1, b2, b3, b4, b5, b6, b7) = (s[0], s[1], s[2], s[3], s[4], s[5], s[6], s[7]);
    let v = le_u64(s);
    assert(v as u8 == b0 && (v >> 8u64) as u8 == b1 && (v >> 16u64) as u8 == b2 && (v >> 24u64) as u8
        == b3 && (v >> 32u64) as u8 == b4 && (v >> 40u64) as u8 == b5 && (v >> 48u64) as u8 == b6 && (v
        >> 56u64) as u8 == b7) by (bit_vector)
        requires
            v == (b0 as u64) | ((b1 as u64) << 8u64) | ((b2 as u64) << 16u64) | ((b3 as u64) << 24u64)
                | ((b4 as u64) << 32u64) | ((b5 as u64) << 40u64) | ((b6 as u64) << 48u64) | ((
            b7 as u64) << 56u64),
    ;
    assert(u64_le(v) =~= s);
}

/// Distinct values have distinct encodings.
pub proof fn lemma_u64_le_injective(a: u64, b: u64)
    ensures
        u64_le(a) == u64_le(b) ==> a == b,
{
    lemma_le_u64_of_u64_le(a);
    lemma_le_u64_of_u64_le(b);
}

/// Reads the little-endian `u64` stored at `bytes[at..at + 8]`.
pub fn read_u64_at(bytes: &[u8], at: usize) -> (v: u64)
    requires
        at + 8 <= bytes@.len(),
    ensures
        v == le_u64(bytes@.subrange(at as int, at + 8)),
{
    let b0 = bytes[at] as u64;
    let b1 = bytes[at + 1] as u64;
    let b2 = bytes[at + 2] as u64;
    let b3 = bytes[at + 3] as u64;
    let b4 = bytes[at + 4] as u64;
    let b5 = bytes[at + 5] as u64;
    let b6 = bytes[at + 6] as u64;
    let b7 = bytes[at + 7] as u64;
    b0 | (b1 << 8u64) | (b2 << 16u64) | (b3 << 24u64) | (b4 << 32u64) | (b5 << 40u64) | (b6 << 48u64)
        | (b7 << 56u64)
}

/// Writes the little-endian encoding of `v` at `bytes[at..at + 8]`, leaving the other bytes as
/// they were.
pub fn write_u64_at(bytes: &mut [u8], at: usize, v: u64)
    requires
        at + 8 <= old(bytes)@.len(),
    ensures
        final(bytes)@ == old(bytes)@.subrange(0, at as int) + u64_le(v) + old(bytes)@.subrange(
            at + 8,
            old(bytes)@.len() as int,
        ),
{
    bytes[at] = v as u8;
    bytes[at + 1] = (v >> 8u64) as u8;
    bytes[at + 2] = (v >> 16u64) as u8;
    bytes[at + 3] = (v >> 24u64) as u8;
    bytes[at + 4] = (v >> 32u64) as u8;
    bytes[at + 5] = (v >> 40u64) as u8;
    bytes[at + 6] = (v >> 48u64) as u8;
    bytes[at + 7] = (v >> 56u64) as u8;
    assert(bytes@ =~= old(bytes)@.subrange(0, at as int) + u64_le(v) + old(bytes)@.subrange(
        at + 8,
        old(bytes)@.len() as int,
    ));
}

/// The little-endian encoding of `v` as an owned byte string.
pub fn u64_to_le_bytes(v: u64) -> (r: Vec<u8>)
    ensures
        r@ == u64_le(v),
{
    let mut r: Vec<u8> = Vec::new();
    r.push(v as u8);
    r.push((v >> 8u64) as u8);
    r.push((v >> 16u64) as u8);
    r.push((v >> 24u64) as u8);
    r.push((v >> 32u64) as u8);
    r.push((v >> 40u64) as u8);
    r.push((v >> 48u64) as u8);
    r.push((v >> 56u64) as u8);
    assert(r@ =~= u64_le(v));
    r
}

/// Whether two 32-byte addresses are the same.
pub fn same_address(a: &[u8; 32], b: &[u8; 32]) -> (r: bool)
    ensures
        r == (a@ == b@),
{
    let mut i: usize = 0;
    while i < 32
        invariant
            i <= 32,
            a@.len() == 32,
            b@.len() == 32,
            forall|j: int| 0 <= j < i ==> a@[j] == b@[j],
        decreases 32 - i,
    {
        if a[i] != b[i] {
            assert(a@[i as int] != b@[i as int]);
            return false;
        }
        i = i + 1;
    }
    assert(a@ =~= b@);
    true
}

/// An owned copy of `bytes`.
pub fn to_owned_bytes(bytes: &[u8]) -> (r: Vec<u8>)
    ensures
        r@ == bytes@,
{
    let mut r: Vec<u8> = Vec::new();
    let mut i: usize = 0;
    while i < bytes.len()
        invariant
            i <= bytes@.len(),
            r@ == bytes@.subrange(0, i as int),
        decreases bytes@.len() - i,
    {
        r.push(bytes[i]);
        i = i + 1;
        assert(r@ =~= bytes@.subrange(0, i as int));
    }
    assert(bytes@.subrange(0, bytes@.len() as int) =~= bytes@);
    r
}

/// Copies the 32 bytes at `bytes[at..at + 32]` into an array.
pub fn read_array32_at(bytes: &[u8], at: usize) -> (r: [u8; 32])
    requires
        at + 32 <= bytes@.len(),
    ensures
        r@ == bytes@.subrange(at as int, at + 32),
{
    let mut r = [0u8; 32];
    let mut i: usize = 0;
    while i < 32
        invariant
            i <= 32,
            at + 32 <= bytes.len(),
            r@.len() == 32,
            forall|j: int| 0 <= j < i ==> r@[j] == bytes@[at + j],
        decreases 32 - i,
    {
        r[i] = bytes[at + i];
        i = i + 1;
    }
    assert(r@ =~= bytes@.subrange(at as int, at + 32));
    r
}

/// Writes the 32 bytes of `a` at `bytes[at..at + 32]`, leaving the other bytes as they were.
pub fn write_array32_at(bytes: &mut [u8], at: usize, a: &[u8; 32])
    requires
        at + 32 <= old(bytes)@.len(),
    ensures
        final(bytes)@ == old(bytes)@.subrange(0, at as int) + a@ + old(bytes)@.subrange(
            at + 32,
            old(bytes)@.len() as int,
        ),
{
    let mut i: usize = 0;
    while i < 32
        invariant
            i <= 32,
            at + 32 <= bytes.len(),
            a@.len() == 32,
            bytes@.len() == old(bytes)@.len(),
            forall|j: int| 0 <= j < at ==> bytes@[j] == old(bytes)@[j],
            forall|j: int| at + 32 <= j < bytes@.len() ==> bytes@[j] == old(bytes)@[j],
            forall|k: int| at <= k < at + i ==> bytes@[k] == a@[k - at],
            forall|k: int| at + i <= k < at + 32 ==> bytes@[k] == old(bytes)@[k],
        decreases 32 - i,
    {
        bytes[at + i] = a[i];
        i = i + 1;
    }
    assert(bytes@ =~= old(bytes)@.subrange(0, at as int) + a@ + old(bytes)@.subrange(
        at + 32,
        old(bytes)@.len() as int,
    ));
}

} // verus!

verus! {

/// The deep view of a byte vector is its view.
pub proof fn lemma_bytes_deep_view(v: Vec<u8>)
    ensures
        v.deep_view() == v@,
{
    assert(v.deep_view() =~= v@);
}

} // verus!
