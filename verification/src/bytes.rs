//! Little-endian integers and fixed-size byte strings inside account data.
use vstd::prelude::*;

verus! {

/// The unsigned value of the first eight bytes of `b`, least significant first.
pub open spec fn le_u64(b: Seq<u8>) -> int {
    b[0] + b[1] * 0x100 + b[2] * 0x1_0000 + b[3] * 0x100_0000 + b[4] * 0x1_0000_0000 + b[5]
        * 0x100_0000_0000 + b[6] * 0x1_0000_0000_0000 + b[7] * 0x100_0000_0000_0000
}

/// The eight little-endian bytes of `v`.
pub open spec fn le_bytes(v: u64) -> Seq<u8> {
    seq![
        (v % 0x100) as u8,
        ((v / 0x100) % 0x100) as u8,
        ((v / 0x1_0000) % 0x100) as u8,
        ((v / 0x100_0000) % 0x100) as u8,
        ((v / 0x1_0000_0000) % 0x100) as u8,
        ((v / 0x100_0000_0000) % 0x100) as u8,
        ((v / 0x1_0000_0000_0000) % 0x100) as u8,
        ((v / 0x100_0000_0000_0000) % 0x100) as u8,
    ]
}

/// The signed value of the first eight bytes of `b` read as a two's-complement
/// little-endian integer.
pub open spec fn le_i64(b: Seq<u8>) -> int {
    if le_u64(b) < 0x8000_0000_0000_0000 {
        le_u64(b)
    } else {
        le_u64(b) - 0x1_0000_0000_0000_0000
    }
}

/// The eight little-endian two's-complement bytes of `v`.
pub open spec fn le_bytes_i64(v: i64) -> Seq<u8> {
    if v >= 0 {
        le_bytes(v as u64)
    } else {
        le_bytes((v + 0x1_0000_0000_0000_0000) as u64)
    }
}

/// The array of the eight little-endian bytes of `v`.
pub open spec fn le_array(v: u64) -> [u8; 8] {
    choose|a: [u8; 8]| a@ == le_bytes(v)
}

/// The array of the eight little-endian two's-complement bytes of `v`.
pub open spec fn le_array_i64(v: i64) -> [u8; 8] {
    choose|a: [u8; 8]| a@ == le_bytes_i64(v)
}

/// The array `le_array(v)` holds the bytes of `v`.
pub proof fn lemma_le_array(v: u64)
    ensures
        le_array(v)@ == le_bytes(v),
{
    let b = le_bytes(v);
    let a: [u8; 8] = [b[0], b[1], b[2], b[3], b[4], b[5], b[6], b[7]];
    assert(a@ =~= b);
}

/// The array `le_array_i64(v)` holds the bytes of `v`.
pub proof fn lemma_le_array_i64(v: i64)
    ensures
        le_array_i64(v)@ == le_bytes_i64(v),
{
    let b = le_bytes_i64(v);
    let a: [u8; 8] = [b[0], b[1], b[2], b[3], b[4], b[5], b[6], b[7]];
    assert(a@ =~= b);
}

/// Arrays with the same bytes are the same array.
pub proof fn lemma_array_ext<const N: usize>(a: [u8; N], b: [u8; N])
    requires
        a@ == b@,
    ensures
        a == b,
{
    assert(forall|i: int| 0 <= i < N ==> a[i] == a@[i] && b[i] == b@[i]);
    assert(a =~= b);
}

/// The array whose bytes are `s` (for `s` of the array's length).
pub open spec fn to_array<const N: usize>(s: Seq<u8>) -> [u8; N] {
    choose|a: [u8; N]| a@ == s
}

/// An array is the array of its own bytes.
pub proof fn lemma_to_array<const N: usize>(a: [u8; N])
    ensures
        to_array::<N>(a@) == a,
{
    let b = to_array::<N>(a@);
    assert(b@ == a@);
    lemma_array_ext(b, a);
}

/// The 32-byte array of 32 bytes holds those bytes.
pub proof fn lemma_to_array32(s: Seq<u8>)
    requires
        s.len() == 32,
    ensures
        to_array::<32>(s)@ == s,
{
    let a: [u8; 32] = [s[0], s[1], s[2], s[3], s[4], s[5], s[6], s[7], s[8], s[9], s[10], s[11], s[12], s[13], s[14], s[15], s[16], s[17], s[18], s[19], s[20], s[21], s[22], s[23], s[24], s[25], s[26], s[27], s[28], s[29], s[30], s[31]];
    assert(a@ =~= s);
}

/// The 8-byte array of 8 bytes holds those bytes.
pub proof fn lemma_to_array8(s: Seq<u8>)
    requires
        s.len() == 8,
    ensures
        to_array::<8>(s)@ == s,
{
    let a: [u8; 8] = [s[0], s[1], s[2], s[3], s[4], s[5], s[6], s[7]];
    assert(a@ =~= s);
}

/// Reading back the bytes of a value gives the value.
pub proof fn lemma_le_roundtrip(v: u64)
    ensures
        le_u64(le_bytes(v)) == v,
        le_bytes(v).len() == 8,
{
    assert((v % 0x100) as u8 + ((v / 0x100) % 0x100) as u8 * 0x100 + ((v / 0x1_0000) % 0x100) as u8
        * 0x1_0000 + ((v / 0x100_0000) % 0x100) as u8 * 0x100_0000 + ((v / 0x1_0000_0000)
        % 0x100) as u8 * 0x1_0000_0000 + ((v / 0x100_0000_0000) % 0x100) as u8 * 0x100_0000_0000
        + ((v / 0x1_0000_0000_0000) % 0x100) as u8 * 0x1_0000_0000_0000 + ((v
        / 0x100_0000_0000_0000) % 0x100) as u8 * 0x100_0000_0000_0000 == v) by (bit_vector);
}

/// Eight bytes are determined by the value they encode.
pub proof fn lemma_le_injective(a: Seq<u8>, b: Seq<u8>)
    requires
        a.len() == 8,
        b.len() == 8,
        le_u64(a) == le_u64(b),
    ensures
        a == b,
{
    let (a0, a1, a2, a3, a4, a5, a6, a7) = (a[0], a[1], a[2], a[3], a[4], a[5], a[6], a[7]);
    let (b0, b1, b2, b3, b4, b5, b6, b7) = (b[0], b[1], b[2], b[3], b[4], b[5], b[6], b[7]);
    assert(a0 + a1 * 0x100 + a2 * 0x1_0000 + a3 * 0x100_0000 + a4 * 0x1_0000_0000 + a5
        * 0x100_0000_0000 + a6 * 0x1_0000_0000_0000 + a7 * 0x100_0000_0000_0000 == b0 + b1
        * 0x100 + b2 * 0x1_0000 + b3 * 0x100_0000 + b4 * 0x1_0000_0000 + b5 * 0x100_0000_0000
        + b6 * 0x1_0000_0000_0000 + b7 * 0x100_0000_0000_0000 ==> a0 == b0 && a1 == b1 && a2
        == b2 && a3 == b3 && a4 == b4 && a5 == b5 && a6 == b6 && a7 == b7) by (bit_vector);
    assert(a =~= b);
}

/// The bytes of the value that eight bytes encode are those bytes.
pub proof fn lemma_le_bytes_of_value(b: Seq<u8>)
    requires
        b.len() == 8,
    ensures
        0 <= le_u64(b) <= u64::MAX,
        le_bytes(le_u64(b) as u64) == b,
{
    let v = le_u64(b) as u64;
    lemma_le_roundtrip(v);
    lemma_le_injective(le_bytes(v), b);
}

/// Signed values survive a write and a read.
pub proof fn lemma_le_i64_roundtrip(v: i64)
    ensures
        le_i64(le_bytes_i64(v)) == v,
        le_bytes_i64(v).len() == 8,
{
    if v >= 0 {
        lemma_le_roundtrip(v as u64);
    } else {
        lemma_le_roundtrip((v + 0x1_0000_0000_0000_0000) as u64);
    }
}

/// The bytes of the signed value that eight bytes encode are those bytes.
pub proof fn lemma_le_i64_bytes_of_value(b: Seq<u8>)
    requires
        b.len() == 8,
    ensures
        i64::MIN <= le_i64(b) <= i64::MAX,
        le_bytes_i64(le_i64(b) as i64) == b,
{
    lemma_le_bytes_of_value(b);
}

/// `u64::from_le_bytes`.
pub fn u64_from_le_bytes(b: [u8; 8]) -> (r: u64)
    ensures
        r == le_u64(b@),
{
    b[0] as u64 + (b[1] as u64) * 0x100 + (b[2] as u64) * 0x1_0000 + (b[3] as u64) * 0x100_0000
        + (b[4] as u64) * 0x1_0000_0000 + (b[5] as u64) * 0x100_0000_0000 + (b[6] as u64)
        * 0x1_0000_0000_0000 + (b[7] as u64) * 0x100_0000_0000_0000
}

/// `u64::to_le_bytes`.
pub fn u64_to_le_bytes(v: u64) -> (r: [u8; 8])
    ensures
        r@ == le_bytes(v),
        r == le_array(v),
{
    let r = [
        (v & 0xff) as u8,
        ((v >> 8) & 0xff) as u8,
        ((v >> 16) & 0xff) as u8,
        ((v >> 24) & 0xff) as u8,
        ((v >> 32) & 0xff) as u8,
        ((v >> 40) & 0xff) as u8,
        ((v >> 48) & 0xff) as u8,
        ((v >> 56) & 0xff) as u8,
    ];
    assert((v & 0xff) as u8 == (v % 0x100) as u8 && ((v >> 8) & 0xff) as u8 == ((v / 0x100)
        % 0x100) as u8 && ((v >> 16) & 0xff) as u8 == ((v / 0x1_0000) % 0x100) as u8 && ((v >> 24)
        & 0xff) as u8 == ((v / 0x100_0000) % 0x100) as u8 && ((v >> 32) & 0xff) as u8 == ((v
        / 0x1_0000_0000) % 0x100) as u8 && ((v >> 40) & 0xff) as u8 == ((v / 0x100_0000_0000)
        % 0x100) as u8 && ((v >> 48) & 0xff) as u8 == ((v / 0x1_0000_0000_0000) % 0x100) as u8
        && ((v >> 56) & 0xff) as u8 == ((v / 0x100_0000_0000_0000) % 0x100) as u8)
        by (bit_vector);
    assert(r@ =~= le_bytes(v));
    proof {
        lemma_le_array(v);
        lemma_array_ext(r, le_array(v));
    }
    r
}

/// `i64::from_le_bytes`.
pub fn i64_from_le_bytes(b: [u8; 8]) -> (r: i64)
    ensures
        r == le_i64(b@),
{
    let u = u64_from_le_bytes(b);
    if u < 0x8000_0000_0000_0000 {
        u as i64
    } else {
        let low = (u - 0x8000_0000_0000_0000) as i64;
        low - 0x7fff_ffff_ffff_ffff - 1
    }
}

/// `i64::to_le_bytes`.
pub fn i64_to_le_bytes(v: i64) -> (r: [u8; 8])
    ensures
        r@ == le_bytes_i64(v),
        r == le_array_i64(v),
{
    let r = if v >= 0 {
        u64_to_le_bytes(v as u64)
    } else {
        let shifted = ((v + 0x7fff_ffff_ffff_ffff + 1) as u64) + 0x8000_0000_0000_0000;
        u64_to_le_bytes(shifted)
    };
    proof {
        lemma_le_array_i64(v);
        lemma_array_ext(r, le_array_i64(v));
    }
    r
}

/// Whether two addresses hold the same bytes.
pub fn address_eq(a: &[u8; 32], b: &[u8; 32]) -> (r: bool)
    ensures
        r == (a@ == b@),
{
    let mut i: usize = 0;
    while i < 32
        invariant
            i <= 32,
            forall|j: int| 0 <= j < i ==> a@[j] == b@[j],
        decreases 32 - i,
    {
        if a[i] != b[i] {
            return false;
        }
        i = i + 1;
    }
    assert(a@ =~= b@);
    true
}

/// The 32 bytes of `data` that start at `offset`.
pub fn read_array32(data: &[u8], offset: usize) -> (r: [u8; 32])
    requires
        offset + 32 <= data@.len(),
    ensures
        r@ == data@.subrange(offset as int, offset + 32),
{
    let mut r = [0u8; 32];
    let n = data.len();
    let mut i: usize = 0;
    while i < 32
        invariant
            i <= 32,
            n == data@.len(),
            offset + 32 <= data@.len(),
            r@.len() == 32,
            forall|j: int| 0 <= j < i ==> r@[j] == data@[offset + j],
        decreases 32 - i,
    {
        r[i] = data[offset + i];
        i = i + 1;
    }
    assert(r@ =~= data@.subrange(offset as int, offset + 32));
    r
}

/// The 8 bytes of `data` that start at `offset`.
pub fn read_array8(data: &[u8], offset: usize) -> (r: [u8; 8])
    requires
        offset + 8 <= data@.len(),
    ensures
        r@ == data@.subrange(offset as int, offset + 8),
{
    let r = [
        data[offset],
        data[offset + 1],
        data[offset + 2],
        data[offset + 3],
        data[offset + 4],
        data[offset + 5],
        data[offset + 6],
        data[offset + 7],
    ];
    assert(r@ =~= data@.subrange(offset as int, offset + 8));
    r
}

/// The unsigned little-endian integer at `offset` in `data`.
pub fn read_u64_le(data: &[u8], offset: usize) -> (r: u64)
    requires
        offset + 8 <= data@.len(),
    ensures
        r == le_u64(data@.subrange(offset as int, offset + 8)),
{
    u64_from_le_bytes(read_array8(data, offset))
}

/// The signed little-endian integer at `offset` in `data`.
pub fn read_i64_le(data: &[u8], offset: usize) -> (r: i64)
    requires
        offset + 8 <= data@.len(),
    ensures
        r == le_i64(data@.subrange(offset as int, offset + 8)),
{
    i64_from_le_bytes(read_array8(data, offset))
}

/// Overwrites the bytes of `data` from `offset` with `src`, leaving the rest as it was.
pub fn write_bytes(data: &mut Vec<u8>, offset: usize, src: &[u8])
    requires
        offset + src@.len() <= old(data)@.len(),
    ensures
        final(data)@ == old(data)@.subrange(0, offset as int) + src@ + old(data)@.subrange(
            offset + src@.len(),
            old(data)@.len() as int,
        ),
{
    let n = data.len();
    let mut i: usize = 0;
    while i < src.len()
        invariant
            i <= src@.len(),
            n == data@.len(),
            offset + src@.len() <= data@.len(),
            data@.len() == old(data)@.len(),
            forall|j: int| 0 <= j < offset ==> data@[j] == old(data)@[j],
            forall|j: int| offset + i <= j < data@.len() ==> data@[j] == old(data)@[j],
            forall|j: int| offset <= j < offset + i ==> data@[j] == src@[j - offset],
        decreases src@.len() - i,
    {
        data.set(offset + i, src[i]);
        i = i + 1;
    }
    assert(data@ =~= old(data)@.subrange(0, offset as int) + src@ + old(data)@.subrange(
        offset + src@.len(),
        old(data)@.len() as int,
    ));
}

} // verus!
