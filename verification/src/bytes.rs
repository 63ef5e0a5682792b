//! Byte-string helpers.

use vstd::prelude::*;

verus! {

/// Copies a slice into an array of its length.
pub fn array_from<const N: usize>(bytes: &[u8]) -> (array: [u8; N])
    requires
        bytes@.len() == N,
    ensures
        array@ == bytes@,
{
    let mut array: [u8; N] = [0u8; N];
    let mut i: usize = 0;
    while i < N
        invariant
            i <= N,
            bytes@.len() == N,
            forall|j: int| 0 <= j < i ==> array@[j] == bytes@[j],
        decreases N - i,
    {
        array[i] = bytes[i];
        i = i + 1;
    }
    assert(array@ =~= bytes@);
    array
}

/// Appends a slice to a vector.
pub fn append(out: &mut Vec<u8>, bytes: &[u8])
    ensures
        final(out)@ == old(out)@ + bytes@,
{
    out.extend_from_slice(bytes);
    assert(out@ =~= old(out)@ + bytes@);
}

/// Whether two byte strings are the same.
pub fn same(a: &[u8], b: &[u8]) -> (equal: bool)
    ensures
        equal == (a@ == b@),
{
    if a.len() != b.len() {
        return false;
    }
    let mut i: usize = 0;
    while i < a.len()
        invariant
            i <= a@.len(),
            a@.len() == b@.len(),
            forall|j: int| 0 <= j < i ==> a@[j] == b@[j],
        decreases a@.len() - i,
    {
        if a[i] != b[i] {
            return false;
        }
        i = i + 1;
    }
    assert(a@ =~= b@);
    true
}

/// The little-endian encoding of a 32-bit number.
#[verifier::opaque]
pub open spec fn le32(x: u32) -> Seq<u8> {
    seq![
        (x % 0x100) as u8,
        (x / 0x100 % 0x100) as u8,
        (x / 0x1_0000 % 0x100) as u8,
        (x / 0x100_0000) as u8,
    ]
}

/// The number that four little-endian bytes encode.
#[verifier::opaque]
pub open spec fn le32_value(b: Seq<u8>) -> u32
    recommends
        b.len() == 4,
{
    (b[0] + 0x100 * b[1] + 0x1_0000 * b[2] + 0x100_0000 * b[3]) as u32
}

/// The little-endian encoding of a 64-bit number.
pub open spec fn le64(x: u64) -> Seq<u8> {
    le32((x % 0x1_0000_0000) as u32) + le32((x / 0x1_0000_0000) as u32)
}

/// The number that eight little-endian bytes encode.
pub open spec fn le64_value(b: Seq<u8>) -> u64
    recommends
        b.len() == 8,
{
    (le32_value(b.subrange(0, 4)) + 0x1_0000_0000 * le32_value(b.subrange(4, 8))) as u64
}

/// Four bytes hold every 32-bit number, each in one way.
pub proof fn lemma_le32(x: u32, b: Seq<u8>)
    requires
        b.len() == 4,
    ensures
        le32_value(le32(x)) == x,
        le32(le32_value(b)) == b,
{
    reveal(le32);
    reveal(le32_value);
    let v = le32_value(b);
    assert(v == b[0] + 0x100 * b[1] + 0x1_0000 * b[2] + 0x100_0000 * b[3]);
    assert(le32(v) =~= b);
}

/// The encoding of a 32-bit number has four bytes.
pub proof fn lemma_le32_len(x: u32)
    ensures
        le32(x).len() == 4,
{
    reveal(le32);
}

/// Eight bytes hold every 64-bit number, each in one way.
pub proof fn lemma_le64(x: u64, b: Seq<u8>)
    requires
        b.len() == 8,
    ensures
        le64(x).len() == 8,
        le64_value(le64(x)) == x,
        le64(le64_value(b)) == b,
{
    let lo = (x % 0x1_0000_0000) as u32;
    let hi = (x / 0x1_0000_0000) as u32;
    lemma_le32_len(lo);
    lemma_le32_len(hi);
    lemma_le32(lo, b.subrange(0, 4));
    lemma_le32(hi, b.subrange(4, 8));
    assert(le64(x).subrange(0, 4) =~= le32(lo));
    assert(le64(x).subrange(4, 8) =~= le32(hi));
    let blo = le32_value(b.subrange(0, 4));
    let bhi = le32_value(b.subrange(4, 8));
    let v = le64_value(b);
    assert(v == blo + 0x1_0000_0000 * bhi);
    assert(v % 0x1_0000_0000 == blo && v / 0x1_0000_0000 == bhi);
    assert(b =~= b.subrange(0, 4) + b.subrange(4, 8));
}

/// Encodes a 32-bit number, least significant byte first.
pub fn u32_to_le(x: u32) -> (b: [u8; 4])
    ensures
        b@ == le32(x),
{
    reveal(le32);
    let b: [u8; 4] = [
        (x % 0x100) as u8,
        (x / 0x100 % 0x100) as u8,
        (x / 0x1_0000 % 0x100) as u8,
        (x / 0x100_0000) as u8,
    ];
    assert(b@ =~= le32(x));
    b
}

/// Decodes a 32-bit number, least significant byte first.
pub fn u32_from_le(b: &[u8]) -> (x: u32)
    requires
        b@.len() == 4,
    ensures
        x == le32_value(b@),
{
    reveal(le32_value);
    b[0] as u32 + 0x100 * b[1] as u32 + 0x1_0000 * b[2] as u32 + 0x100_0000 * b[3] as u32
}

/// Encodes a 64-bit number, least significant byte first.
pub fn u64_to_le(x: u64) -> (b: [u8; 8])
    ensures
        b@ == le64(x),
{
    let lo: [u8; 4] = u32_to_le((x % 0x1_0000_0000) as u32);
    let hi: [u8; 4] = u32_to_le((x / 0x1_0000_0000) as u32);
    let b: [u8; 8] = [lo[0], lo[1], lo[2], lo[3], hi[0], hi[1], hi[2], hi[3]];
    proof {
        lemma_le32_len((x % 0x1_0000_0000) as u32);
    }
    assert(b@ =~= lo@ + hi@);
    b
}

/// Decodes a 64-bit number, least significant byte first.
pub fn u64_from_le(b: &[u8]) -> (x: u64)
    requires
        b@.len() == 8,
    ensures
        x == le64_value(b@),
{
    let lo: u32 = u32_from_le(&b[0..4]);
    let hi: u32 = u32_from_le(&b[4..8]);
    lo as u64 + 0x1_0000_0000 * hi as u64
}

/// Law: the four bytes of a number are its digits to the base 256, the lowest
/// first.
pub proof fn law_le32_digits(x: u32)
    ensures
        le32(x).len() == 4,
        x == le32(x)[0] + 0x100 * le32(x)[1] + 0x1_0000 * le32(x)[2] + 0x100_0000 * le32(x)[3],
{
    reveal(le32);
}

/// Law: four bytes encode the number whose digits to the base 256 they are, the
/// lowest first.
pub proof fn law_le32_value_digits(b: Seq<u8>)
    ensures
        le32_value(b) == b[0] + 0x100 * b[1] + 0x1_0000 * b[2] + 0x100_0000 * b[3],
{
    reveal(le32_value);
}

/// Law: the eight bytes of a number are its digits to the base 256, the lowest
/// first.
pub proof fn law_le64_digits(x: u64)
    ensures
        le64(x).len() == 8,
        x == le64(x)[0] + 0x100 * le64(x)[1] + 0x1_0000 * le64(x)[2] + 0x100_0000 * le64(x)[3]
            + 0x1_0000_0000 * (le64(x)[4] + 0x100 * le64(x)[5] + 0x1_0000 * le64(x)[6]
            + 0x100_0000 * le64(x)[7]),
{
    let lo = (x % 0x1_0000_0000) as u32;
    let hi = (x / 0x1_0000_0000) as u32;
    law_le32_digits(lo);
    law_le32_digits(hi);
}

/// Law: eight bytes encode the number whose digits to the base 256 they are,
/// the lowest first.
pub proof fn law_le64_value_digits(b: Seq<u8>)
    requires
        b.len() == 8,
    ensures
        le64_value(b) == b[0] + 0x100 * b[1] + 0x1_0000 * b[2] + 0x100_0000 * b[3] + 0x1_0000_0000
            * (b[4] + 0x100 * b[5] + 0x1_0000 * b[6] + 0x100_0000 * b[7]),
{
    law_le32_value_digits(b.subrange(0, 4));
    law_le32_value_digits(b.subrange(4, 8));
}

} // verus!
